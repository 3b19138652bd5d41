//! The decision core of the operation-retry state machine.
//!
//! [`FutureRetry`] drives one retryable asynchronous operation to a single
//! terminal outcome.  A failed operation's internal state is unusable, so the
//! driver owns a factory and builds a fresh operation for every attempt; this
//! core only decides, on each event, which state comes next and what the
//! driver has to do: surface an error, recreate the operation, or start a
//! timer and wait.

use crate::policy::{ErrorHandler, RetryPolicy};
use vstd::prelude::*;

verus! {

/// The two states of the operation-retry machine.  Exactly one of the two
/// live resources (the current operation, or a pending timer) exists in the
/// driver at any time, and this tag says which.
#[derive(Clone, Copy, PartialEq, Eq, Debug)]
pub enum FutureRetryState {
    /// An operation is live and should be polled.
    WaitingForFuture,
    /// A retry timer for `millis` milliseconds is live and should be polled;
    /// the operation is not retried before it elapses.
    TimerActive { millis: u64 },
}

/// What the driver must do after the machine has consumed a failure event.
#[derive(Clone, Copy, PartialEq, Eq, Debug)]
pub enum RetryStep<E> {
    /// Terminal: surface `E` as the final outcome and stop polling.
    Forward(E),
    /// Ask the factory for a fresh operation and poll it, with no delay.
    Recreate,
    /// Start a timer for the given number of milliseconds and poll it.
    Suspend(u64),
}

/// The decision core of the operation-retry state machine.
///
/// The driver polls whichever resource the state names and reports the
/// events: a success is terminal and never reaches this core, a failure goes
/// through [`on_error`](FutureRetry::on_error), an elapsed timer through
/// [`on_timer_elapsed`](FutureRetry::on_timer_elapsed).  No attempt counter
/// is kept here; a handler that wants bounded retries counts internally.
pub struct FutureRetry<R> {
    /// The handler consulted on every failure.
    pub error_action: R,
    /// Which resource is currently live.
    pub state: FutureRetryState,
}

impl<R> FutureRetry<R> {
    /// Builds the machine in its initial state: the first operation is live.
    pub fn new(error_action: R) -> (retry: Self)
        ensures
            retry.state is WaitingForFuture,
            retry.error_action == error_action,
    {
        FutureRetry { error_action, state: FutureRetryState::WaitingForFuture }
    }

    /// Turns a policy decision into the next state and the driver's step.
    ///
    /// A `Repeat` decision never suspends: the step is `Recreate` and the
    /// machine stays in `WaitingForFuture`, so the next attempt happens in
    /// the same drive cycle.  A `WaitRetry(d)` decision always suspends for
    /// exactly `d`: the machine enters `TimerActive { millis: d }`, and no
    /// new attempt can start before the driver reports the timer elapsed.
    pub fn apply_policy<E>(&mut self, policy: RetryPolicy<E>) -> (step: RetryStep<E>)
        requires
            old(self).state is WaitingForFuture,
        ensures
            final(self).error_action == old(self).error_action,
            policy matches RetryPolicy::ForwardError(e) ==> {
                &&& step == RetryStep::Forward(e)
                &&& final(self).state is WaitingForFuture
            },
            policy is Repeat ==> {
                &&& step is Recreate
                &&& final(self).state is WaitingForFuture
            },
            policy matches RetryPolicy::WaitRetry(d) ==> {
                &&& step == RetryStep::<E>::Suspend(d)
                &&& final(self).state == (FutureRetryState::TimerActive { millis: d })
            },
    {
        match policy {
            RetryPolicy::ForwardError(error) => RetryStep::Forward(error),
            RetryPolicy::Repeat => RetryStep::Recreate,
            RetryPolicy::WaitRetry(millis) => {
                self.state = FutureRetryState::TimerActive { millis };
                RetryStep::Suspend(millis)
            },
        }
    }

    /// Consumes a failure of the live operation: consults the handler and
    /// applies its decision.
    ///
    /// Whatever the handler answers, the step and the new state correspond:
    /// `Forward` and `Recreate` leave the machine in `WaitingForFuture`
    /// (terminal, or retrying at once), and `Suspend(d)` puts it in
    /// `TimerActive { millis: d }`.
    pub fn on_error<E>(&mut self, error: E) -> (step: RetryStep<R::OutError>) where
        R: ErrorHandler<E>,

        requires
            old(self).state is WaitingForFuture,
        ensures
            step is Forward ==> final(self).state is WaitingForFuture,
            step is Recreate ==> final(self).state is WaitingForFuture,
            step matches RetryStep::Suspend(d) ==> final(self).state == (
            FutureRetryState::TimerActive { millis: d }),
    {
        let policy = self.error_action.handle(error);
        self.apply_policy(policy)
    }

    /// Consumes the elapse of the retry timer: the machine returns to
    /// `WaitingForFuture` and the driver builds a fresh operation.  A timer
    /// resource failure is fatal to the whole operation and never reaches
    /// this core.
    pub fn on_timer_elapsed(&mut self)
        requires
            old(self).state is TimerActive,
        ensures
            final(self).state is WaitingForFuture,
            final(self).error_action == old(self).error_action,
    {
        self.state = FutureRetryState::WaitingForFuture;
    }
}

} // verus!
