//! Checks on a price before it is used: its age, and its distance from the
//! time-weighted average price.

use crate::consts::FULL_BPS;
use crate::error::LendingError;
use crate::fraction::Fraction;
use crate::token_info::TokenInfo;
use vstd::prelude::*;

verus! {

/// `a - b`, or zero when `b` is larger.
pub open spec fn saturating_diff(a: int, b: int) -> int {
    if a >= b {
        a - b
    } else {
        0
    }
}

/// A price published at `price_timestamp` is too old at `current_timestamp`
/// when more than `max_age_seconds` have passed (a price from the future has
/// age zero).
pub fn check_price_age(price_timestamp: u64, max_age_seconds: u64, current_timestamp: u64) -> (r:
    Result<(), LendingError>)
    ensures
        saturating_diff(current_timestamp as int, price_timestamp as int) > max_age_seconds ==> r
            == Err::<(), LendingError>(LendingError::PriceTooOld),
        saturating_diff(current_timestamp as int, price_timestamp as int) <= max_age_seconds
            ==> r is Ok,
{
    let age_seconds = current_timestamp.saturating_sub(price_timestamp);
    if age_seconds > max_age_seconds {
        Err(LendingError::PriceTooOld)
    } else {
        Ok(())
    }
}

/// `|px - twap|` as a scaled value.
pub open spec fn distance(px: Fraction, twap: Fraction) -> int {
    if px.val() >= twap.val() {
        px.val() - twap.val()
    } else {
        twap.val() - px.val()
    }
}

/// Whether the products compared by the tolerance check fit in 128 bits.
pub open spec fn tolerance_computable(px: Fraction, twap: Fraction, tolerance_bps: u64) -> bool {
    &&& distance(px, twap) * 10000 <= u128::MAX
    &&& px.val() * tolerance_bps <= u128::MAX
}

/// Whether the price lies strictly closer to the average than
/// `acceptable_tolerance_bps` of the price: `|px - twap| * 10000 < px *
/// tolerance`.
pub fn is_within_tolerance(px: Fraction, twap: Fraction, acceptable_tolerance_bps: u64) -> (r: bool)
    requires
        tolerance_computable(px, twap, acceptable_tolerance_bps),
    ensures
        r == (distance(px, twap) * 10000 < px.val() * acceptable_tolerance_bps),
{
    let abs_diff = px.abs_diff(twap);
    let diff_bps_scaled = abs_diff.mul_int(FULL_BPS as u128);
    let tolerance_scaled = px.mul_int(acceptable_tolerance_bps as u128);
    diff_bps_scaled.bits < tolerance_scaled.bits
}

/// Refuses a price too far from its time-weighted average, by the token's
/// tolerance.
pub fn check_twap_in_tolerance(price: Fraction, twap: Fraction, token_info: &TokenInfo) -> (r:
    Result<(), LendingError>)
    requires
        tolerance_computable(price, twap, token_info.max_twap_divergence_bps),
    ensures
        r is Ok <==> distance(price, twap) * 10000 < price.val()
            * token_info.max_twap_divergence_bps,
        r is Err ==> r == Err::<(), LendingError>(LendingError::PriceTooDivergentFromTwap),
{
    let acceptable_twap_tolerance_bps = token_info.max_twap_divergence_bps;
    if !is_within_tolerance(price, twap, acceptable_twap_tolerance_bps) {
        return Err(LendingError::PriceTooDivergentFromTwap);
    }
    Ok(())
}

} // verus!
