//! Verified core of an asynchronous TLS stream over a readiness-polled socket.
//!
//! The library holds the decisions: who owns the OS descriptor, how a
//! readiness report becomes a suspension, and how a TLS negotiation and its
//! record reads and writes are driven through non-blocking steps. The caller
//! performs each requested action and reports back what happened.

pub mod laws;
pub mod operation;
pub mod session;
pub mod socket;

pub use operation::{
    Action, Direction, Event, OperationKind, PendingOperation, Phase, SessionError, StepOutcome,
};
pub use session::{first_address, AsyncTls, NegotiationState};
pub use socket::{AsyncTcp, PollResult, WaitReport, GENERIC_FAILURE};
pub use laws::{
    failed_session_stays_rejecting, release_then_drop_closes_nothing,
    suspends_once_per_not_ready, zero_read_means_end_of_stream,
};
