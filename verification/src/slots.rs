//! Conversions between slot counts and wall-clock units.

use crate::consts::{SLOTS_PER_DAY, SLOTS_PER_HOUR, SLOTS_PER_MINUTE, SLOTS_PER_SECOND};
use crate::fraction::{scale, Fraction};
use vstd::prelude::*;

verus! {

/// Whole minutes spanned by a number of slots.
pub fn to_minutes(slots: u64) -> (r: u64)
    ensures
        r == slots / 120,
{
    slots / SLOTS_PER_MINUTE
}

/// Whole seconds spanned by a number of slots.
pub fn to_secs(slots: u64) -> (r: u64)
    ensures
        r == slots / 2,
{
    slots / SLOTS_PER_SECOND
}

/// Whole hours spanned by a number of slots.
pub fn to_hours(slots: u64) -> (r: u64)
    ensures
        r == slots / 7200,
{
    slots / SLOTS_PER_HOUR
}

/// Days spanned by a number of slots, as a fraction rounded down.
pub fn to_days_fractional(slots: u64) -> (r: Fraction)
    ensures
        r.val() == slots * scale() / 172800,
{
    Fraction::from_num(slots).div_int(SLOTS_PER_DAY as u128)
}

/// Slots in a number of seconds; the result must fit in 64 bits.
pub fn from_secs(seconds: u64) -> (r: u64)
    requires
        seconds * 2 <= u64::MAX,
    ensures
        r == seconds * 2,
{
    seconds * SLOTS_PER_SECOND
}

/// Slots in a number of hours; the result must fit in 64 bits.
pub fn from_hours(hours: u64) -> (r: u64)
    requires
        hours * 7200 <= u64::MAX,
    ensures
        r == hours * 7200,
{
    hours * SLOTS_PER_HOUR
}

/// Slots in a number of days; the result must fit in 64 bits.
pub fn from_days(days: u64) -> (r: u64)
    requires
        days * 172800 <= u64::MAX,
    ensures
        r == days * 172800,
{
    days * SLOTS_PER_DAY
}

} // verus!
