//! Retry logic for asynchronous operations and asynchronous sequences.
//!
//! Transient failures (connection resets, timeouts) are common in I/O-bound
//! code.  This crate provides the decision cores of two retry state machines:
//! one that drives a single retryable operation recreated by a factory after
//! every failure, and one that drives a retryable sequence in place.  On every
//! failure an [`ErrorHandler`] (or [`AttemptErrorHandler`]) is consulted and
//! answers with a [`RetryPolicy`]: forward the error, repeat at once, or wait
//! for a given delay and then repeat.
//!
//! The state machines here are purely synchronous and event-driven: an outer
//! driver owns the actual operation, sequence and timer resources, polls them,
//! and feeds their outcomes in as events.  Every transition, the attempt
//! accounting, and the mapping from a policy decision to the next state are
//! stated in contracts and verified.

pub mod backoff;
pub mod future;
pub mod policy;
pub mod stream;

pub use backoff::backoff_millis;
pub use future::{FutureRetry, FutureRetryState, RetryStep};
pub use policy::{AttemptErrorHandler, ErrorHandler, RetryPolicy};
pub use stream::{StreamRetry, StreamRetryState, StreamStep};
