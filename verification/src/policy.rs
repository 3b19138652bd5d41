//! The retry decision type and the error-handler capabilities that produce it.

use vstd::prelude::*;

verus! {

/// What to do when the underlying operation or sequence fails.
///
/// A handler inspects the error and answers with one of these; the state
/// machines never look at the error themselves, only at the decision.
/// Delays are expressed in milliseconds.
#[derive(Clone, Copy, PartialEq, Eq, Debug)]
pub enum RetryPolicy<E> {
    /// Give up: the error `E` is surfaced to the caller as-is.
    ForwardError(E),
    /// Try again immediately, with no delay.
    Repeat,
    /// Wait for the given number of milliseconds, then try again.
    WaitRetry(u64),
}

/// An error handler consulted by [`FutureRetry`](crate::FutureRetry).
///
/// `handle` is called synchronously on every failure and decides the retry
/// policy; `ok` is called on success so that a stateful handler can reset its
/// own bookkeeping.  This variant carries no attempt argument: a handler that
/// wants bounded retries counts attempts internally and answers
/// `ForwardError` once its budget is spent.
pub trait ErrorHandler<InError> {
    /// The error type surfaced to the caller on a `ForwardError` decision.
    type OutError;

    /// Decide what to do about the error `e`.  Must not block.
    fn handle(&mut self, e: InError) -> RetryPolicy<Self::OutError>;

    /// Note a success; used to reset internal counters.
    fn ok(&mut self);
}

/// An error handler consulted by [`StreamRetry`](crate::StreamRetry).
///
/// Like [`ErrorHandler`], but the state machine maintains the attempt counter
/// itself and passes the current attempt number to both methods.
pub trait AttemptErrorHandler<InError> {
    /// The error type surfaced to the caller on a `ForwardError` decision.
    type OutError;

    /// Decide what to do about the error `e`, seen at attempt `attempt`.
    /// Must not block.
    fn handle(&mut self, attempt: usize, e: InError) -> RetryPolicy<Self::OutError>;

    /// Note a success at attempt `attempt`; used to reset internal counters.
    fn ok(&mut self, attempt: usize);
}

} // verus!
