//! The decision core of the sequence-retry state machine.
//!
//! [`StreamRetry`] wraps one asynchronous sequence in place — a sequence is a
//! natural producer of further items, so nothing is recreated after a
//! failure — and retries failed item production according to the handler's
//! decisions.  Unlike the operation variant it keeps the attempt counter
//! itself and tags every emitted item, success or forwarded error, with the
//! attempt number at which it occurred.

use crate::policy::{AttemptErrorHandler, RetryPolicy};
use vstd::prelude::*;

verus! {

/// The two states of the sequence-retry machine.  Exactly one of the two
/// live resources (the wrapped sequence being listened to, or a pending
/// timer) is to be polled at any time, and this tag says which.
#[derive(Clone, Copy, PartialEq, Eq, Debug)]
pub enum StreamRetryState {
    /// The wrapped sequence should be polled for its next item.
    WaitingForStream,
    /// A retry timer for `millis` milliseconds is live and should be polled;
    /// the sequence is not polled again before it elapses.
    TimerActive { millis: u64 },
}

/// What the driver must do after the machine has consumed a sequence event.
#[derive(PartialEq, Eq, Debug)]
pub enum StreamStep<I, E> {
    /// Emit this item — a success or a forwarded error, tagged with the
    /// attempt number at which it occurred — and keep the sequence open.
    Emit(Result<(I, usize), (E, usize)>),
    /// The wrapped sequence is exhausted: propagate its end.
    Finished,
    /// Poll the wrapped sequence again at once, with no delay.
    PollAgain,
    /// Start a timer for the given number of milliseconds and poll it.
    Suspend(u64),
}

/// The decision core of the sequence-retry state machine.
///
/// The driver polls whichever resource the state names and reports the
/// events: every item (or the end) of the wrapped sequence goes through
/// [`on_source_item`](StreamRetry::on_source_item), an elapsed timer through
/// [`on_timer_elapsed`](StreamRetry::on_timer_elapsed).
///
/// The attempt counter is always at least 1.  It is incremented by exactly 1
/// on each failure, and the pre-increment value is what that failure reports;
/// it resets to 1 strictly after a success is recorded, before any later
/// failure is counted.  The ghost `fail_streak` counts the consecutive
/// failures since the last success (or since construction), and the ghost
/// `attempt_base` is the value the counter started that streak from — 1
/// after any success, so from then on the counter is exactly one plus the
/// streak.
pub struct StreamRetry<F> {
    /// The handler consulted on every failure and notified on every success.
    pub error_action: F,
    /// The 1-indexed number of the attempt the next item would belong to.
    pub attempt: usize,
    /// Which resource is currently live.
    pub state: StreamRetryState,
    /// Consecutive failures since the last success (or construction).
    pub fail_streak: Ghost<nat>,
    /// What the counter restarted from: the constructor's initial value
    /// until the first success, 1 from then on.
    pub attempt_base: Ghost<nat>,
}

impl<F> StreamRetry<F> {
    /// The counter accounting invariant: the attempt number is exactly the
    /// base plus the consecutive failures since the base was set, and the
    /// base is at least 1 — so the attempt number is always at least 1.
    pub open spec fn wf(self) -> bool {
        &&& self.attempt == self.attempt_base@ + self.fail_streak@
        &&& self.attempt_base@ >= 1
    }

    /// Builds the machine around a handler, with the attempt counter at 1.
    pub fn new(error_action: F) -> (retry: Self)
        ensures
            retry.wf(),
            retry.error_action == error_action,
            retry.attempt == 1,
            retry.state is WaitingForStream,
            retry.fail_streak@ == 0,
            retry.attempt_base@ == 1,
    {
        Self::with_counter(error_action, 1)
    }

    /// Like [`new`](StreamRetry::new), but the attempt counter starts at a
    /// caller-supplied value, which must be at least 1.
    pub fn with_counter(error_action: F, attempt_counter: usize) -> (retry: Self)
        requires
            attempt_counter >= 1,
        ensures
            retry.wf(),
            retry.error_action == error_action,
            retry.attempt == attempt_counter,
            retry.state is WaitingForStream,
            retry.fail_streak@ == 0,
            retry.attempt_base@ == attempt_counter,
    {
        StreamRetry {
            error_action,
            attempt: attempt_counter,
            state: StreamRetryState::WaitingForStream,
            fail_streak: Ghost(0),
            attempt_base: Ghost(attempt_counter as nat),
        }
    }

    /// Turns a policy decision about a failure into the next state and the
    /// driver's step.  `reported` is the attempt number that failure
    /// reports (its pre-increment counter value).
    ///
    /// A `Repeat` decision never suspends: the step is `PollAgain` and the
    /// machine stays in `WaitingForStream`, so the next attempt happens in
    /// the same drive cycle.  A `WaitRetry(d)` decision always suspends for
    /// exactly `d`: the machine enters `TimerActive { millis: d }`, and the
    /// sequence is not polled again before the driver reports the timer
    /// elapsed.  A `ForwardError(e)` decision emits `(e, reported)` as one
    /// error item and keeps listening: it does not close the sequence.
    pub fn apply_policy<I, E>(&mut self, reported: usize, policy: RetryPolicy<E>) -> (step:
        StreamStep<I, E>)
        requires
            old(self).state is WaitingForStream,
        ensures
            final(self).error_action == old(self).error_action,
            final(self).attempt == old(self).attempt,
            final(self).fail_streak == old(self).fail_streak,
            final(self).attempt_base == old(self).attempt_base,
            policy matches RetryPolicy::ForwardError(e) ==> {
                &&& step == StreamStep::<I, E>::Emit(Err((e, reported)))
                &&& final(self).state is WaitingForStream
            },
            policy is Repeat ==> {
                &&& step is PollAgain
                &&& final(self).state is WaitingForStream
            },
            policy matches RetryPolicy::WaitRetry(d) ==> {
                &&& step == StreamStep::<I, E>::Suspend(d)
                &&& final(self).state == (StreamRetryState::TimerActive { millis: d })
            },
    {
        match policy {
            RetryPolicy::ForwardError(error) => StreamStep::Emit(Err((error, reported))),
            RetryPolicy::Repeat => StreamStep::PollAgain,
            RetryPolicy::WaitRetry(millis) => {
                self.state = StreamRetryState::TimerActive { millis };
                StreamStep::Suspend(millis)
            },
        }
    }

    /// Consumes one poll outcome of the wrapped sequence: `None` when it is
    /// exhausted, `Some(Ok(v))` for a produced item, `Some(Err(e))` for a
    /// failed production.
    ///
    /// On a success the handler's `ok` is called exactly once, with the
    /// attempt number the emitted item is tagged with; that number equals
    /// the base plus the consecutive failures since the last success — one
    /// plus the streak, once any success has been recorded — and the counter
    /// then resets to 1.  On a failure the counter grows by exactly 1, the
    /// pre-increment value is what the handler is consulted with and what a
    /// `ForwardError` item is tagged with, and the step and the new state
    /// correspond: `Emit`/`PollAgain` keep listening, `Suspend(d)` starts a
    /// `d`-millisecond wait.
    pub fn on_source_item<I, E>(&mut self, item: Option<Result<I, E>>) -> (step: StreamStep<
        I,
        F::OutError,
    >) where F: AttemptErrorHandler<E>
        requires
            old(self).state is WaitingForStream,
            old(self).wf(),
            old(self).attempt < usize::MAX,
        ensures
            final(self).wf(),
            final(self).attempt >= 1,
            item is None ==> {
                &&& step is Finished
                &&& *final(self) == *old(self)
            },
            item matches Some(Ok(v)) ==> {
                &&& step == StreamStep::<I, F::OutError>::Emit(Ok((v, old(self).attempt)))
                &&& old(self).attempt == old(self).attempt_base@ + old(self).fail_streak@
                &&& final(self).attempt == 1
                &&& final(self).state is WaitingForStream
                &&& final(self).fail_streak@ == 0
                &&& final(self).attempt_base@ == 1
            },
            item matches Some(Err(_)) ==> {
                &&& final(self).attempt == old(self).attempt + 1
                &&& final(self).fail_streak@ == old(self).fail_streak@ + 1
                &&& final(self).attempt_base@ == old(self).attempt_base@
                &&& match step {
                    StreamStep::Emit(out) => {
                        &&& out matches Err((_, a)) && a == old(self).attempt
                        &&& final(self).state is WaitingForStream
                    },
                    StreamStep::Finished => false,
                    StreamStep::PollAgain => final(self).state is WaitingForStream,
                    StreamStep::Suspend(d) => final(self).state == (StreamRetryState::TimerActive {
                        millis: d,
                    }),
                }
            },
    {
        match item {
            None => StreamStep::Finished,
            Some(Ok(value)) => {
                let reported: usize = self.attempt;
                self.attempt = 1;
                self.fail_streak = Ghost(0);
                self.attempt_base = Ghost(1);
                self.error_action.ok(reported);
                StreamStep::Emit(Ok((value, reported)))
            },
            Some(Err(error)) => {
                let reported: usize = self.attempt;
                self.attempt = reported + 1;
                self.fail_streak = Ghost(self.fail_streak@ + 1);
                let policy = self.error_action.handle(reported, error);
                self.apply_policy(reported, policy)
            },
        }
    }

    /// The attempt counter is always at least 1: every constructor
    /// establishes the accounting invariant, every event preserves it, and
    /// the invariant bounds the counter from below by its base, which is
    /// itself at least 1.
    pub proof fn lemma_attempt_counter_positive(self)
        requires
            self.wf(),
        ensures
            self.attempt >= 1,
    {
    }

    /// Consumes the elapse of the retry timer: the machine goes back to
    /// listening on the wrapped sequence.  The attempt counter and the
    /// handler are untouched.
    pub fn on_timer_elapsed(&mut self)
        requires
            old(self).state is TimerActive,
        ensures
            final(self).error_action == old(self).error_action,
            final(self).attempt == old(self).attempt,
            final(self).fail_streak == old(self).fail_streak,
            final(self).attempt_base == old(self).attempt_base,
            final(self).state is WaitingForStream,
    {
        self.state = StreamRetryState::WaitingForStream;
    }
}

} // verus!
