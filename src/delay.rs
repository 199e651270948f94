use vstd::prelude::*;

use crate::error::BotError;

verus! {

/// Seconds in one hour.
pub const SECONDS_PER_HOUR: u64 = 3600;

/// The wait that a drawn number of hours stands for: none for zero hours,
/// a configuration error when the seconds do not fit in a `u64`.
pub open spec fn delay_of_hours(hours: u64) -> Result<Option<u64>, BotError> {
    if hours == 0 {
        Ok(None)
    } else if hours * 3600 > u64::MAX {
        Err(BotError::Configuration)
    } else {
        Ok(Some((hours * 3600) as u64))
    }
}

/// What `icon_delay` may return for the bounds `min_hours` and `max_hours`:
/// disabled when the maximum is zero, an error when the bounds are out of
/// order, and otherwise the delay of some number of hours within the bounds.
pub open spec fn delay_allowed(min_hours: u64, max_hours: u64, r: Result<Option<u64>, BotError>) -> bool {
    if max_hours == 0 {
        r == Ok::<Option<u64>, BotError>(None)
    } else if min_hours > max_hours {
        r == Err::<Option<u64>, BotError>(BotError::Configuration)
    } else if min_hours == max_hours {
        r == delay_of_hours(min_hours)
    } else {
        exists|h: u64| #![trigger delay_of_hours(h)]
            min_hours <= h <= max_hours && r == delay_of_hours(h)
    }
}

/// Converts a number of hours into a wait in seconds.
pub fn delay_for_hours(hours: u64) -> (r: Result<Option<u64>, BotError>)
    ensures
        r == delay_of_hours(hours),
{
    if hours == 0 {
        Ok(None)
    } else {
        match hours.checked_mul(SECONDS_PER_HOUR) {
            Some(seconds) => Ok(Some(seconds)),
            None => Err(BotError::Configuration),
        }
    }
}

/// Relies on rand's `Rng::random_range` over the thread-local generator: it
/// returns a value of the inclusive range, and panics only on an empty range.
#[verifier::external_body]
fn random_hours(min_hours: u64, max_hours: u64) -> (r: u64)
    requires
        min_hours <= max_hours,
    ensures
        min_hours <= r <= max_hours,
{
    rand::Rng::random_range(&mut rand::rng(), min_hours..=max_hours)
}

/// Computes the wait before the next icon rotation, in seconds; `None`
/// disables rotation. A random whole number of hours is drawn from the
/// inclusive bounds unless they are equal.
pub fn icon_delay(min_hours: u64, max_hours: u64) -> (r: Result<Option<u64>, BotError>)
    ensures
        delay_allowed(min_hours, max_hours, r),
{
    if max_hours == 0 {
        return Ok(None);
    }
    if min_hours > max_hours {
        return Err(BotError::Configuration);
    }
    let hours = if min_hours == max_hours {
        min_hours
    } else {
        random_hours(min_hours, max_hours)
    };
    let r = delay_for_hours(hours);
    assert(delay_of_hours(hours) == r);
    r
}

/// With positive bounds in order whose seconds fit in a `u64`, every delay
/// that `icon_delay` may return is a wait between the bounds, in seconds;
/// with equal bounds it is exactly that many hours.
pub proof fn lemma_delay_within_bounds(min_hours: u64, max_hours: u64, r: Result<Option<u64>, BotError>)
    requires
        1 <= min_hours <= max_hours,
        max_hours * 3600 <= u64::MAX,
        delay_allowed(min_hours, max_hours, r),
    ensures
        r is Ok,
        r->Ok_0 is Some,
        min_hours * 3600 <= r->Ok_0->Some_0 <= max_hours * 3600,
        min_hours == max_hours ==> r->Ok_0->Some_0 == min_hours * 3600,
{
    if min_hours < max_hours {
        let h = choose|h: u64| min_hours <= h <= max_hours && r == delay_of_hours(h);
        assert(min_hours * 3600 <= h * 3600 <= max_hours * 3600) by (nonlinear_arith)
            requires min_hours <= h <= max_hours;
    }
}

/// A zero maximum disables rotation whatever the minimum.
pub proof fn lemma_zero_maximum_disables(min_hours: u64, r: Result<Option<u64>, BotError>)
    requires
        delay_allowed(min_hours, 0, r),
    ensures
        r == Ok::<Option<u64>, BotError>(None),
{
}

/// A minimum above a positive maximum is a configuration error.
pub proof fn lemma_bounds_out_of_order(min_hours: u64, max_hours: u64, r: Result<Option<u64>, BotError>)
    requires
        0 < max_hours < min_hours,
        delay_allowed(min_hours, max_hours, r),
    ensures
        r == Err::<Option<u64>, BotError>(BotError::Configuration),
{
}

} // verus!
