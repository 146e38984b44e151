//! Adapters between non-blocking polling operations and a cooperative
//! scheduler.
//!
//! A polling operation either produces a value now, asks to be retried
//! later, or fails for good. [`outcome::PollOutcome`] captures those three
//! shapes, and its methods let callers compose retry and filter logic
//! without hand-written retry loops. [`bridge`] turns such outcomes into a
//! scheduler's suspend/resolve protocol, one scheduler turn at a time, and
//! [`host`] classifies host I/O results into outcomes.
//!
//! The bridging here is deliberately simple: a suspended computation asks
//! to be woken again at once and re-polls on every scheduler turn. That is
//! valid but inefficient for operations that are expensive to call; no
//! readiness event is tracked.

pub mod bridge;
pub mod host;
pub mod outcome;

pub use bridge::SuspensionState;
pub use bridge::YieldOnce;
pub use outcome::PollOutcome;
