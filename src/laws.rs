use vstd::prelude::*;
use crate::operation::{
    fresh, next_action, next_op, next_phase, wait_direction, Action, Direction, Event,
    OperationKind, PendingOperation, Phase, StepOutcome,
};
use crate::session::{state_after, transfer_start, NegotiationState};
use crate::socket::{after_release, closed_at_drop, PollResult};

verus! {

/// The operation and the actions requested after feeding it `evs` in order.
pub open spec fn run(op: PendingOperation, evs: Seq<Event>) -> (PendingOperation, Seq<Action>)
    decreases evs.len(),
{
    if evs.len() == 0 {
        (op, Seq::empty())
    } else {
        let rest = run(next_op(op, evs[0]), evs.drop_first());
        (rest.0, seq![next_action(op, evs[0])] + rest.1)
    }
}

/// `n` readiness polls that find the socket not ready, then one that finds
/// it ready.
pub open spec fn not_ready_then_ready(n: nat) -> Seq<Event> {
    Seq::new(n, |i: int| Event::Polled(PollResult::Pending)).push(Event::Polled(PollResult::Ready))
}

/// `n` yields to the scheduler.
pub open spec fn yields(n: nat) -> Seq<Action> {
    Seq::new(n, |i: int| Action::Yield)
}

proof fn lemma_run_one(op: PendingOperation, ev: Event)
    ensures
        run(op, seq![ev]).0 == next_op(op, ev),
        run(op, seq![ev]).1 == seq![next_action(op, ev)],
{
    assert(seq![ev].drop_first() =~= Seq::<Event>::empty());
    assert(seq![next_action(op, ev)] + Seq::<Action>::empty() =~= seq![next_action(op, ev)]);
    reveal_with_fuel(run, 2);
}

proof fn lemma_await_ready(op: PendingOperation, d: Direction, n: nat)
    requires
        op.phase == Phase::Awaiting(d),
    ensures
        run(op, not_ready_then_ready(n)).0 == (PendingOperation { phase: Phase::Attempting, ..op }),
        run(op, not_ready_then_ready(n)).1 == yields(n).push(Action::Attempt),
    decreases n,
{
    let evs = not_ready_then_ready(n);
    if n == 0 {
        assert(evs =~= seq![Event::Polled(PollResult::Ready)]);
        lemma_run_one(op, Event::Polled(PollResult::Ready));
        assert(seq![Action::Attempt] =~= yields(0).push(Action::Attempt));
    } else {
        assert(evs[0] == Event::Polled(PollResult::Pending));
        assert(next_op(op, evs[0]) == op);
        assert(evs.drop_first() =~= not_ready_then_ready((n - 1) as nat));
        lemma_await_ready(op, d, (n - 1) as nat);
        assert(seq![Action::Yield] + yields((n - 1) as nat).push(Action::Attempt)
            =~= yields(n).push(Action::Attempt));
    }
}

proof fn lemma_run_append(op: PendingOperation, a: Seq<Event>, b: Seq<Event>)
    ensures
        run(op, a + b).0 == run(run(op, a).0, b).0,
        run(op, a + b).1 == run(op, a).1 + run(run(op, a).0, b).1,
    decreases a.len(),
{
    if a.len() == 0 {
        assert(a + b =~= b);
        assert(run(op, a).1 + run(op, b).1 =~= run(op, b).1);
    } else {
        assert((a + b)[0] == a[0]);
        assert((a + b).drop_first() =~= a.drop_first() + b);
        lemma_run_append(next_op(op, a[0]), a.drop_first(), b);
        assert(seq![next_action(op, a[0])] + (run(next_op(op, a[0]), a.drop_first()).1 + run(
            run(op, a).0,
            b,
        ).1) =~= (seq![next_action(op, a[0])] + run(next_op(op, a[0]), a.drop_first()).1) + run(
            run(op, a).0,
            b,
        ).1);
    }
}

/// An operation whose engine would block, and whose socket then reports "not
/// ready" `n` times before "ready", asks once to poll, yields exactly once per
/// "not ready", attempts again once ready, and completes with what the engine
/// then moved. No attempt is made while the socket is not ready.
pub proof fn suspends_once_per_not_ready(
    kind: OperationKind,
    len: usize,
    blocked: StepOutcome,
    n: nat,
    moved: usize,
)
    requires
        wait_direction(blocked) is Some,
        moved <= len,
    ensures
        ({
            let evs = seq![Event::Stepped(blocked)] + not_ready_then_ready(n) + seq![
                Event::Stepped(StepOutcome::Done(moved)),
            ];
            let d = wait_direction(blocked).unwrap();
            &&& run(fresh(kind, len), evs).1 == seq![Action::Poll(d)] + yields(n).push(
                Action::Attempt,
            ).push(Action::Finish(Ok(moved)))
            &&& run(fresh(kind, len), evs).0.phase == Phase::Finished(Ok(moved))
        }),
{
    let op = fresh(kind, len);
    let d = wait_direction(blocked).unwrap();
    let first = seq![Event::Stepped(blocked)];
    let mid = not_ready_then_ready(n);
    let last = seq![Event::Stepped(StepOutcome::Done(moved))];
    let awaiting = next_op(op, Event::Stepped(blocked));
    assert(awaiting.phase == Phase::Awaiting(d));
    lemma_run_one(op, Event::Stepped(blocked));
    lemma_await_ready(awaiting, d, n);
    let ready = PendingOperation { phase: Phase::Attempting, ..op };
    assert(ready == op);
    lemma_run_one(op, Event::Stepped(StepOutcome::Done(moved)));
    lemma_run_append(op, first, mid);
    lemma_run_append(op, first + mid, last);
    assert(seq![Action::Poll(d)] + yields(n).push(Action::Attempt) + seq![Action::Finish(Ok(moved))]
        =~= seq![Action::Poll(d)] + yields(n).push(Action::Attempt).push(Action::Finish(Ok(moved))));
}

/// Releasing the descriptor and then dropping the adapter closes nothing, so
/// the descriptor handed out is never closed a second time.
pub proof fn release_then_drop_closes_nothing(slot: Option<i32>)
    requires
        slot is Some,
    ensures
        closed_at_drop(after_release(slot)) is None,
{
}

/// A failed session refuses every read and write with the error that failed
/// it, and no report handed to it ever moves it out of that state.
pub proof fn failed_session_stays_rejecting(
    s: NegotiationState,
    kind: OperationKind,
    len: usize,
    op: PendingOperation,
    ev: Event,
)
    requires
        s is Failed,
    ensures
        transfer_start(s, kind, len) == Err::<PendingOperation, _>(s->Failed_0),
        state_after(s, op, next_phase(op, ev)) == s,
{
}

/// A read in progress completes with zero bytes only when the engine itself
/// reported zero bytes, that is at the end of the stream; an outcome that
/// would block never completes it, but asks to poll the socket.
pub proof fn zero_read_means_end_of_stream(op: PendingOperation, ev: Event)
    requires
        op.kind == OperationKind::Read,
        !(op.phase is Finished),
    ensures
        next_action(op, ev) == Action::Finish(Ok(0)) ==> op.phase == Phase::Attempting && ev
            == Event::Stepped(StepOutcome::Done(0)),
        ev matches Event::Stepped(o) ==> (wait_direction(o) is Some && op.phase
            == Phase::Attempting ==> next_action(op, ev) == Action::Poll(
            wait_direction(o).unwrap(),
        )),
{
}

} // verus!
