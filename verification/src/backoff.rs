//! The bundled reference backoff curve.
//!
//! A handler that answers `WaitRetry` wants delays that grow with the number
//! of failed attempts but never reach a ceiling.  This curve starts at
//! [`BACKOFF_MIN_MILLIS`] on the first attempt, rises steeply, and approaches
//! [`BACKOFF_MAX_MILLIS`] from below without ever reaching it.  Any backoff
//! curve used with the retry machines must be defined for every attempt
//! number from 1 up, non-decreasing, and bounded strictly below its ceiling;
//! those three properties are proved of this one.

use vstd::arithmetic::div_mod::{
    lemma_div_is_ordered_by_denominator,
    lemma_div_nonincreasing,
    lemma_div_pos_is_pos,
};
use vstd::prelude::*;

verus! {

/// The delay of the first retry, in milliseconds.
pub const BACKOFF_MIN_MILLIS: u64 = 5;

/// The ceiling, in milliseconds: every delay stays strictly below it.
pub const BACKOFF_MAX_MILLIS: u64 = 1000;

/// The delay, in milliseconds, before retry number `attempt` (1-indexed):
/// the ceiling, lowered by the span of the curve divided by the attempt
/// number — but always lowered by at least one millisecond.
pub open spec fn backoff_spec(attempt: int) -> int
    recommends
        attempt >= 1,
{
    let cut = (BACKOFF_MAX_MILLIS - BACKOFF_MIN_MILLIS) / attempt;
    if cut < 1 {
        BACKOFF_MAX_MILLIS - 1
    } else {
        BACKOFF_MAX_MILLIS - cut
    }
}

/// Computes [`backoff_spec`] for a concrete attempt number.  The result is
/// never below the floor and always strictly below the ceiling.
pub fn backoff_millis(attempt: usize) -> (millis: u64)
    requires
        attempt >= 1,
    ensures
        millis == backoff_spec(attempt as int),
        BACKOFF_MIN_MILLIS <= millis < BACKOFF_MAX_MILLIS,
{
    let gap: u64 = BACKOFF_MAX_MILLIS - BACKOFF_MIN_MILLIS;
    let divisor: u64 = attempt as u64;
    let cut: u64 = gap / divisor;
    proof {
        lemma_div_nonincreasing(gap as int, divisor as int);
        lemma_div_pos_is_pos(gap as int, divisor as int);
    }
    if cut < 1 {
        BACKOFF_MAX_MILLIS - 1
    } else {
        BACKOFF_MAX_MILLIS - cut
    }
}

/// The curve stays within its band: at least the floor, strictly below the
/// ceiling, for every attempt number from 1 up.
pub proof fn lemma_backoff_below_ceiling(attempt: int)
    requires
        attempt >= 1,
    ensures
        BACKOFF_MIN_MILLIS <= backoff_spec(attempt) < BACKOFF_MAX_MILLIS,
{
    let gap = (BACKOFF_MAX_MILLIS - BACKOFF_MIN_MILLIS) as int;
    lemma_div_nonincreasing(gap, attempt);
    lemma_div_pos_is_pos(gap, attempt);
}

/// The curve is monotonically non-decreasing in the attempt number: a later
/// attempt never waits less than an earlier one.
pub proof fn lemma_backoff_monotonic(earlier: int, later: int)
    requires
        1 <= earlier <= later,
    ensures
        backoff_spec(earlier) <= backoff_spec(later),
{
    let gap = (BACKOFF_MAX_MILLIS - BACKOFF_MIN_MILLIS) as int;
    lemma_div_is_ordered_by_denominator(gap, earlier, later);
    lemma_div_pos_is_pos(gap, later);
}

} // verus!
