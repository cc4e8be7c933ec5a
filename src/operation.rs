use vstd::prelude::*;
use crate::socket::{PollResult, GENERIC_FAILURE};

verus! {

/// Which readiness an operation waits for.
#[derive(Clone, Copy, PartialEq, Eq, Debug)]
pub enum Direction {
    Readable,
    Writable,
}

/// The three operations that a session drives through non-blocking steps.
#[derive(Clone, Copy, PartialEq, Eq, Debug)]
pub enum OperationKind {
    Negotiate,
    Read,
    Write,
}

/// Errors of a connection attempt and of a session.
#[derive(Clone, Copy, PartialEq, Eq, Debug)]
pub enum SessionError {
    /// The host name resolved to no address.
    Resolution,
    /// The OS-level connect failed.
    Connect,
    /// The handshake failed: protocol, certificate validation or transport.
    Negotiation(i32),
    /// A read or write failed after the handshake.
    Transport(i32),
}

/// What one attempt of the TLS engine reported.
#[derive(Clone, Copy, PartialEq, Eq, Debug)]
pub enum StepOutcome {
    /// The step completed, moving this many bytes (zero for a handshake).
    Done(usize),
    /// The engine needs the socket to become readable.
    WantRead,
    /// The engine needs the socket to become writable.
    WantWrite,
    /// The engine would block without saying on which direction.
    WouldBlock,
    /// The engine failed with this code.
    Failed(i32),
}

/// What the caller reports back after performing an action.
#[derive(Clone, Copy, PartialEq, Eq, Debug)]
pub enum Event {
    /// The result of an engine attempt.
    Stepped(StepOutcome),
    /// The result of a readiness poll.
    Polled(PollResult),
}

/// Where an operation stands.
#[derive(Clone, Copy, PartialEq, Eq, Debug)]
pub enum Phase {
    /// The next thing to do is one engine attempt.
    Attempting,
    /// The engine would block; readiness in this direction is awaited.
    Awaiting(Direction),
    /// The operation is over, with this result.
    Finished(Result<usize, SessionError>),
}

/// What the caller must do next.
#[derive(Clone, Copy, PartialEq, Eq, Debug)]
pub enum Action {
    /// Make one engine attempt and report its outcome.
    Attempt,
    /// Poll readiness in this direction and report the result.
    Poll(Direction),
    /// Return control to the scheduler; the registered wake resumes the task.
    Yield,
    /// The operation is complete.
    Finish(Result<usize, SessionError>),
}

/// One read, write or negotiation in flight, bound to a buffer of `len` bytes.
#[derive(Clone, Copy, PartialEq, Eq, Debug)]
pub struct PendingOperation {
    pub kind: OperationKind,
    pub len: usize,
    pub phase: Phase,
}

/// The error under which a failure with `code` is reported for `kind`.
pub open spec fn failure_of(kind: OperationKind, code: i32) -> SessionError {
    match kind {
        OperationKind::Negotiate => SessionError::Negotiation(code),
        _ => SessionError::Transport(code),
    }
}

/// The readiness that a would-block outcome asks for, if it is one.
pub open spec fn wait_direction(outcome: StepOutcome) -> Option<Direction> {
    match outcome {
        StepOutcome::WantRead => Some(Direction::Readable),
        StepOutcome::WantWrite => Some(Direction::Writable),
        StepOutcome::WouldBlock => Some(Direction::Writable),
        _ => None,
    }
}

/// The phase that follows an engine attempt.
pub open spec fn phase_after_step(kind: OperationKind, len: usize, outcome: StepOutcome) -> Phase {
    match outcome {
        StepOutcome::Done(n) => if n <= len {
            Phase::Finished(Ok(n))
        } else {
            Phase::Finished(Err(failure_of(kind, GENERIC_FAILURE)))
        },
        StepOutcome::Failed(code) => Phase::Finished(Err(failure_of(kind, code))),
        _ => Phase::Awaiting(wait_direction(outcome).unwrap()),
    }
}

/// The phase that follows a readiness poll while awaiting `d`.
pub open spec fn phase_after_poll(kind: OperationKind, d: Direction, p: PollResult) -> Phase {
    match p {
        PollResult::Pending => Phase::Awaiting(d),
        PollResult::Ready => Phase::Attempting,
        PollResult::Failed(code) => Phase::Finished(Err(failure_of(kind, code))),
    }
}

/// The action a phase asks for once it has been entered by `ev`.
pub open spec fn action_for(before: Phase, ev: Event, after: Phase) -> Action {
    match after {
        Phase::Attempting => Action::Attempt,
        Phase::Awaiting(d) => if before == Phase::Awaiting(d) && ev is Polled {
            Action::Yield
        } else {
            Action::Poll(d)
        },
        Phase::Finished(res) => Action::Finish(res),
    }
}

/// The phase after `ev`. A report that answers nothing the phase asked for
/// leaves it as it is.
pub open spec fn next_phase(op: PendingOperation, ev: Event) -> Phase {
    match op.phase {
        Phase::Attempting => match ev {
            Event::Stepped(o) => phase_after_step(op.kind, op.len, o),
            Event::Polled(_) => Phase::Attempting,
        },
        Phase::Awaiting(d) => match ev {
            Event::Polled(p) => phase_after_poll(op.kind, d, p),
            Event::Stepped(_) => Phase::Awaiting(d),
        },
        Phase::Finished(res) => Phase::Finished(res),
    }
}

/// The operation after `ev`.
pub open spec fn next_op(op: PendingOperation, ev: Event) -> PendingOperation {
    PendingOperation { phase: next_phase(op, ev), ..op }
}

/// The action requested after `ev`.
pub open spec fn next_action(op: PendingOperation, ev: Event) -> Action {
    action_for(op.phase, ev, next_phase(op, ev))
}

/// A fresh operation, about to make its first engine attempt.
pub open spec fn fresh(kind: OperationKind, len: usize) -> PendingOperation {
    PendingOperation { kind, len, phase: Phase::Attempting }
}

/// The action that picks an operation up again when its task is polled anew.
pub open spec fn resume_action(phase: Phase) -> Action {
    match phase {
        Phase::Attempting => Action::Attempt,
        Phase::Awaiting(d) => Action::Poll(d),
        Phase::Finished(res) => Action::Finish(res),
    }
}

fn failure(kind: OperationKind, code: i32) -> (r: SessionError)
    ensures
        r == failure_of(kind, code),
{
    match kind {
        OperationKind::Negotiate => SessionError::Negotiation(code),
        _ => SessionError::Transport(code),
    }
}

impl PendingOperation {
    /// A fresh operation of `kind` on a buffer of `len` bytes.
    pub fn new(kind: OperationKind, len: usize) -> (r: PendingOperation)
        ensures
            r == fresh(kind, len),
    {
        PendingOperation { kind, len, phase: Phase::Attempting }
    }

    /// What to do when the task driving this operation is polled again.
    pub fn resume(&self) -> (r: Action)
        ensures
            r == resume_action(self.phase),
    {
        match self.phase {
            Phase::Attempting => Action::Attempt,
            Phase::Awaiting(d) => Action::Poll(d),
            Phase::Finished(res) => Action::Finish(res),
        }
    }

    /// Takes the caller's report of the last action and says what to do next.
    pub fn advance(&mut self, ev: Event) -> (r: Action)
        ensures
            *final(self) == next_op(*old(self), ev),
            r == next_action(*old(self), ev),
    {
        let kind = self.kind;
        match self.phase {
            Phase::Attempting => match ev {
                Event::Stepped(o) => {
                    let p = match o {
                        StepOutcome::Done(n) => if n <= self.len {
                            Phase::Finished(Ok(n))
                        } else {
                            Phase::Finished(Err(failure(kind, GENERIC_FAILURE)))
                        },
                        StepOutcome::Failed(code) => Phase::Finished(Err(failure(kind, code))),
                        StepOutcome::WantRead => Phase::Awaiting(Direction::Readable),
                        StepOutcome::WantWrite => Phase::Awaiting(Direction::Writable),
                        StepOutcome::WouldBlock => Phase::Awaiting(Direction::Writable),
                    };
                    self.phase = p;
                    match p {
                        Phase::Awaiting(d) => Action::Poll(d),
                        Phase::Finished(res) => Action::Finish(res),
                        Phase::Attempting => Action::Attempt,
                    }
                },
                Event::Polled(_) => Action::Attempt,
            },
            Phase::Awaiting(d) => match ev {
                Event::Polled(PollResult::Pending) => Action::Yield,
                Event::Polled(PollResult::Ready) => {
                    self.phase = Phase::Attempting;
                    Action::Attempt
                },
                Event::Polled(PollResult::Failed(code)) => {
                    let res = Err(failure(kind, code));
                    self.phase = Phase::Finished(res);
                    Action::Finish(res)
                },
                Event::Stepped(_) => Action::Poll(d),
            },
            Phase::Finished(res) => Action::Finish(res),
        }
    }
}

} // verus!
