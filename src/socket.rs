use vstd::prelude::*;

verus! {

/// The one error code that every failure of the readiness-wait primitive is
/// reported under; its particular cause is of no use to callers.
pub const GENERIC_FAILURE: i32 = -1;

/// What the scheduler's readiness notifier said about one direction of the
/// socket.
#[derive(Clone, Copy, PartialEq, Eq, Debug)]
pub enum WaitReport {
    /// Not ready yet; interest has been registered and the task will be woken.
    NotReady,
    /// Ready: the operation can proceed without blocking.
    Ready,
    /// The wait primitive itself failed.
    Error,
}

/// The adapter's answer to a readiness poll.
#[derive(Clone, Copy, PartialEq, Eq, Debug)]
pub enum PollResult {
    Pending,
    Ready,
    Failed(i32),
}

/// How a readiness report is presented to the layers above.
pub open spec fn readiness_of(report: WaitReport) -> PollResult {
    match report {
        WaitReport::NotReady => PollResult::Pending,
        WaitReport::Ready => PollResult::Ready,
        WaitReport::Error => PollResult::Failed(GENERIC_FAILURE),
    }
}

fn present(report: WaitReport) -> (r: PollResult)
    ensures
        r == readiness_of(report),
{
    match report {
        WaitReport::NotReady => PollResult::Pending,
        WaitReport::Ready => PollResult::Ready,
        WaitReport::Error => PollResult::Failed(GENERIC_FAILURE),
    }
}

/// Owner of one OS socket descriptor, or of nothing once it has been
/// released.
///
/// The slot holds the descriptor while the adapter owns it. Releasing moves
/// the descriptor out, after which dropping the adapter closes nothing.
pub struct AsyncTcp {
    slot: Option<i32>,
}

impl View for AsyncTcp {
    type V = Option<i32>;

    closed spec fn view(&self) -> Option<i32> {
        self.slot
    }
}

/// The slot once its descriptor has been released: empty.
pub open spec fn after_release(slot: Option<i32>) -> Option<i32> {
    None
}

/// The descriptor that dropping an adapter with this slot closes.
pub open spec fn closed_at_drop(slot: Option<i32>) -> Option<i32> {
    slot
}

impl AsyncTcp {
    /// True while the adapter still owns its descriptor.
    pub open spec fn owns(&self) -> bool {
        self@ is Some
    }

    /// Takes ownership of a connected socket's descriptor.
    pub fn new(fd: i32) -> (r: AsyncTcp)
        ensures
            r@ == Some(fd),
    {
        AsyncTcp { slot: Some(fd) }
    }

    /// Whether the descriptor is still owned here.
    pub fn is_owned(&self) -> (r: bool)
        ensures
            r == self.owns(),
    {
        self.slot.is_some()
    }

    /// The raw descriptor. Asking after release is a logic error.
    pub fn handle(&self) -> (r: i32)
        requires
            self.owns(),
        ensures
            self@ == Some(r),
    {
        match self.slot {
            Some(fd) => fd,
            None => 0,
        }
    }

    /// Moves the descriptor out of the adapter and returns it; the caller's
    /// environment owns it from then on. Releasing twice is a logic error.
    pub fn release(&mut self) -> (r: i32)
        requires
            old(self).owns(),
        ensures
            old(self)@ == Some(r),
            final(self)@ == after_release(old(self)@),
    {
        match self.slot.take() {
            Some(fd) => fd,
            None => 0,
        }
    }

    /// Polls read readiness: `report` is what the notifier said for the read
    /// direction of the owned descriptor.
    pub fn poll_readable(&self, report: WaitReport) -> (r: PollResult)
        requires
            self.owns(),
        ensures
            r == readiness_of(report),
    {
        present(report)
    }

    /// Polls write readiness, symmetric to `poll_readable`.
    pub fn poll_writable(&self, report: WaitReport) -> (r: PollResult)
        requires
            self.owns(),
        ensures
            r == readiness_of(report),
    {
        present(report)
    }

    /// The descriptor that dropping the adapter must close: the owned one, or
    /// none once it has been released.
    pub fn close_on_drop(&self) -> (r: Option<i32>)
        ensures
            r == closed_at_drop(self@),
    {
        self.slot
    }
}

} // verus!
