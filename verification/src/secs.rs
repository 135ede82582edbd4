//! Conversions between seconds, days and slots.

use crate::consts::{SECONDS_PER_DAY, SECONDS_PER_HOUR};
use crate::error::LendingError;
use crate::fraction::{ceil_int, scale, Fraction, FRACTION_ONE_SCALED};
use vstd::prelude::*;

verus! {

/// Days spanned by a number of seconds, as a fraction rounded down.
pub fn to_days_fractional(secs: u64) -> (r: Fraction)
    ensures
        r.val() == secs * scale() / 86400,
{
    Fraction::from_num(secs).div_int(SECONDS_PER_DAY as u128)
}

/// Seconds in a number of days; the result must fit in 64 bits.
pub fn from_days(days: u64) -> (r: u64)
    requires
        days * 86400 <= u64::MAX,
    ensures
        r == days * 86400,
{
    days * SECONDS_PER_DAY
}

/// Seconds in a number of hours; the result must fit in 64 bits.
pub fn from_hours(hours: u64) -> (r: u64)
    requires
        hours * 3600 <= u64::MAX,
    ensures
        r == hours * 3600,
{
    hours * SECONDS_PER_HOUR
}

/// Slots in a (fractional) number of seconds, rounded up; an error when the
/// slot count does not fit in 64 bits.
pub fn checked_secs_to_slots(secs: Fraction) -> (r: Result<u64, LendingError>)
    ensures
        ceil_int(secs.val() * 2) <= u64::MAX ==> r == Ok::<u64, LendingError>(
            ceil_int(secs.val() * 2) as u64,
        ),
        ceil_int(secs.val() * 2) > u64::MAX ==> r == Err::<u64, LendingError>(
            LendingError::MathOverflow,
        ),
{
    if secs.bits > u128::MAX / 2 {
        assert(ceil_int(secs.val() * 2) > u64::MAX);
        return Err(LendingError::MathOverflow);
    }
    let doubled = Fraction::from_bits(secs.bits * 2);
    match doubled.try_to_ceil() {
        Some(slots) => Ok(slots),
        None => Err(LendingError::MathOverflow),
    }
}

/// The slot expected after a (fractional) number of seconds; an error when it
/// does not fit in 64 bits.
pub fn estimate_slot_after_period(current_slot: u64, secs: Fraction) -> (r: Result<u64, LendingError>)
    ensures
        current_slot + ceil_int(secs.val() * 2) <= u64::MAX ==> r == Ok::<u64, LendingError>(
            (current_slot + ceil_int(secs.val() * 2)) as u64,
        ),
        current_slot + ceil_int(secs.val() * 2) > u64::MAX ==> r == Err::<u64, LendingError>(
            LendingError::MathOverflow,
        ),
{
    let slots = checked_secs_to_slots(secs)?;
    match current_slot.checked_add(slots) {
        Some(s) => Ok(s),
        None => Err(LendingError::MathOverflow),
    }
}

} // verus!
