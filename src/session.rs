use vstd::prelude::*;
use crate::operation::{
    fresh, next_action, next_op, Action, Event, OperationKind, PendingOperation, Phase,
    SessionError,
};

verus! {

/// Progress of a session's TLS handshake.
#[derive(Clone, Copy, PartialEq, Eq, Debug)]
pub enum NegotiationState {
    Unstarted,
    Negotiating,
    Established,
    /// The handshake failed with this error; the session is not usable.
    Failed(SessionError),
}

/// A TLS session over an asynchronous socket adapter: the handshake state
/// and the operations driven through it.
pub struct AsyncTls {
    state: NegotiationState,
}

impl View for AsyncTls {
    type V = NegotiationState;

    closed spec fn view(&self) -> NegotiationState {
        self.state
    }
}

/// True of the states in which a read or a write may be asked for: the
/// handshake is over, one way or the other.
pub open spec fn settled(s: NegotiationState) -> bool {
    s is Established || s is Failed
}

/// What asking for a read or a write of `len` bytes yields in state `s`.
pub open spec fn transfer_start(
    s: NegotiationState,
    kind: OperationKind,
    len: usize,
) -> Result<PendingOperation, SessionError> {
    match s {
        NegotiationState::Failed(e) => Err(e),
        _ => Ok(fresh(kind, len)),
    }
}

/// The session state once `op` has moved to phase `after`. Only the end of
/// a handshake, while one is in progress, changes it.
pub open spec fn state_after(s: NegotiationState, op: PendingOperation, after: Phase) -> NegotiationState {
    if s is Negotiating && op.kind is Negotiate {
        match after {
            Phase::Finished(Ok(_)) => NegotiationState::Established,
            Phase::Finished(Err(e)) => NegotiationState::Failed(e),
            _ => s,
        }
    } else {
        s
    }
}

impl AsyncTls {
    /// A session whose handshake has not started.
    pub fn new() -> (r: AsyncTls)
        ensures
            r@ == NegotiationState::Unstarted,
    {
        AsyncTls { state: NegotiationState::Unstarted }
    }

    /// The handshake state.
    pub fn state(&self) -> (r: NegotiationState)
        ensures
            r == self@,
    {
        self.state
    }

    /// Starts the handshake and returns the operation that drives it.
    /// Starting a second time is a logic error.
    pub fn negotiate(&mut self) -> (r: PendingOperation)
        requires
            old(self)@ == NegotiationState::Unstarted,
        ensures
            final(self)@ == NegotiationState::Negotiating,
            r == fresh(OperationKind::Negotiate, 0),
    {
        self.state = NegotiationState::Negotiating;
        PendingOperation::new(OperationKind::Negotiate, 0)
    }

    fn start_transfer(&self, kind: OperationKind, len: usize) -> (r: Result<PendingOperation, SessionError>)
        ensures
            r == transfer_start(self@, kind, len),
    {
        match self.state {
            NegotiationState::Failed(e) => Err(e),
            _ => Ok(PendingOperation::new(kind, len)),
        }
    }

    /// Starts a read into a buffer of `len` bytes. A failed session refuses
    /// it with the error that failed the handshake. Reading before the
    /// handshake is over is a logic error.
    pub fn read(&self, len: usize) -> (r: Result<PendingOperation, SessionError>)
        requires
            settled(self@),
        ensures
            r == transfer_start(self@, OperationKind::Read, len),
    {
        self.start_transfer(OperationKind::Read, len)
    }

    /// Starts a write of a buffer of `len` bytes, as `read` does.
    pub fn write(&self, len: usize) -> (r: Result<PendingOperation, SessionError>)
        requires
            settled(self@),
        ensures
            r == transfer_start(self@, OperationKind::Write, len),
    {
        self.start_transfer(OperationKind::Write, len)
    }

    /// Hands the caller's report to `op` and says what to do next; the end
    /// of the handshake settles the session.
    pub fn advance(&mut self, op: &mut PendingOperation, ev: Event) -> (r: Action)
        ensures
            *final(op) == next_op(*old(op), ev),
            r == next_action(*old(op), ev),
            final(self)@ == state_after(old(self)@, *old(op), final(op).phase),
    {
        let r = op.advance(ev);
        match self.state {
            NegotiationState::Negotiating => match op.kind {
                OperationKind::Negotiate => match op.phase {
                    Phase::Finished(Ok(_)) => {
                        self.state = NegotiationState::Established;
                    },
                    Phase::Finished(Err(e)) => {
                        self.state = NegotiationState::Failed(e);
                    },
                    _ => {},
                },
                _ => {},
            },
            _ => {},
        }
        r
    }

    /// Nothing is buffered below this layer, so there is nothing to flush.
    pub fn flush(&self) -> (r: Result<(), SessionError>)
        ensures
            r == Ok::<(), SessionError>(()),
    {
        Ok(())
    }

    /// Closing sends no close-notify; the socket is closed by its owner.
    pub fn close(&self) -> (r: Result<(), SessionError>)
        ensures
            r == Ok::<(), SessionError>(()),
    {
        Ok(())
    }
}

/// The address to connect to: the first that resolution gave, or a
/// resolution error when it gave none.
pub fn first_address<A>(addrs: Vec<A>) -> (r: Result<A, SessionError>)
    ensures
        addrs@.len() == 0 ==> r == Err::<A, SessionError>(SessionError::Resolution),
        addrs@.len() > 0 ==> r == Ok::<A, SessionError>(addrs@[0]),
{
    let mut addrs = addrs;
    if addrs.len() == 0 {
        Err(SessionError::Resolution)
    } else {
        Ok(addrs.swap_remove(0))
    }
}

} // verus!
