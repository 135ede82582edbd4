//! The first generation of obligation orders: conditions on an obligation's
//! state, deleveraging opportunities, and the evaluation of a condition into
//! a hit with its distance from the threshold.

use crate::error::LendingError;
use crate::fraction::{bps_val, scale, spec_div, Fraction};
use crate::obligation::{take_active_borrows, take_active_deposits, Obligation, ObligationOrder};
use crate::reserve::Reserve;
use vstd::prelude::*;

verus! {

/// What an order waits for.
#[derive(Clone, Copy, Debug, PartialEq, Eq, Structural)]
pub enum ConditionType {
    Never,
    UserLtvAbove,
    UserLtvBelow,
    DebtCollPriceRatioAbove,
    DebtCollPriceRatioBelow,
    Always,
    LiquidationLtvCloserThan,
}

/// What an order offers.
#[derive(Clone, Copy, Debug, PartialEq, Eq, Structural)]
pub enum OpportunityType {
    DeleverageSingleDebtAmount,
    DeleverageAllDebt,
}

/// A satisfied condition, with how far past its threshold the obligation is,
/// where defined.
#[derive(Clone, Copy, Debug, PartialEq, Eq, Structural)]
pub struct ConditionHit {
    pub normalized_distance_from_threshold: Option<Fraction>,
}

/// The condition type stored as `code`, if any.
pub open spec fn condition_type_of(code: u8) -> Option<ConditionType> {
    if code == 0 {
        Some(ConditionType::Never)
    } else if code == 1 {
        Some(ConditionType::UserLtvAbove)
    } else if code == 2 {
        Some(ConditionType::UserLtvBelow)
    } else if code == 3 {
        Some(ConditionType::DebtCollPriceRatioAbove)
    } else if code == 4 {
        Some(ConditionType::DebtCollPriceRatioBelow)
    } else if code == 5 {
        Some(ConditionType::Always)
    } else if code == 6 {
        Some(ConditionType::LiquidationLtvCloserThan)
    } else {
        None
    }
}

/// The opportunity type stored as `code`, if any.
pub open spec fn opportunity_type_of(code: u8) -> Option<OpportunityType> {
    if code == 0 {
        Some(OpportunityType::DeleverageSingleDebtAmount)
    } else if code == 1 {
        Some(OpportunityType::DeleverageAllDebt)
    } else {
        None
    }
}

impl ConditionType {
    /// The condition type stored as `code`, if any.
    pub fn try_from_u8(code: u8) -> (r: Option<ConditionType>)
        ensures
            r == condition_type_of(code),
    {
        if code == 0 {
            Some(ConditionType::Never)
        } else if code == 1 {
            Some(ConditionType::UserLtvAbove)
        } else if code == 2 {
            Some(ConditionType::UserLtvBelow)
        } else if code == 3 {
            Some(ConditionType::DebtCollPriceRatioAbove)
        } else if code == 4 {
            Some(ConditionType::DebtCollPriceRatioBelow)
        } else if code == 5 {
            Some(ConditionType::Always)
        } else if code == 6 {
            Some(ConditionType::LiquidationLtvCloserThan)
        } else {
            None
        }
    }

    /// Whether an obligation can carry a condition of this type: price-ratio
    /// conditions need a single debt and a single collateral.
    pub fn is_supported_by(&self, obligation: &Obligation) -> (r: bool)
        ensures
            r == match *self {
                ConditionType::DebtCollPriceRatioAbove | ConditionType::DebtCollPriceRatioBelow => take_active_deposits(obligation.deposits@).len() == 1 && take_active_borrows(obligation.borrows@).len() == 1,
                _ => true,
            },
    {
        match self {
            ConditionType::Never => true,
            ConditionType::UserLtvAbove | ConditionType::UserLtvBelow => true,
            ConditionType::DebtCollPriceRatioAbove | ConditionType::DebtCollPriceRatioBelow => {
                obligation.is_single_debt_single_coll()
            },
            ConditionType::Always => true,
            ConditionType::LiquidationLtvCloserThan => true,
        }
    }

    /// Whether the condition depends on prices (every condition but `Never`
    /// and `Always`).
    pub fn is_price_triggered(&self) -> (r: bool)
        ensures
            r == !(*self == ConditionType::Never || *self == ConditionType::Always),
    {
        match self {
            ConditionType::Never | ConditionType::Always => false,
            ConditionType::UserLtvAbove
            | ConditionType::UserLtvBelow
            | ConditionType::DebtCollPriceRatioAbove
            | ConditionType::DebtCollPriceRatioBelow
            | ConditionType::LiquidationLtvCloserThan => true,
        }
    }
}

impl OpportunityType {
    /// The opportunity type stored as `code`, if any.
    pub fn try_from_u8(code: u8) -> (r: Option<OpportunityType>)
        ensures
            r == opportunity_type_of(code),
    {
        if code == 0 {
            Some(OpportunityType::DeleverageSingleDebtAmount)
        } else if code == 1 {
            Some(OpportunityType::DeleverageAllDebt)
        } else {
            None
        }
    }
}

impl ConditionHit {
    /// A hit at the given distance.
    pub fn with_distance(normalized_distance_from_threshold: Fraction) -> (r: Self)
        ensures
            r.normalized_distance_from_threshold == Some(normalized_distance_from_threshold),
    {
        ConditionHit { normalized_distance_from_threshold: Some(normalized_distance_from_threshold) }
    }

    /// A hit with no defined distance (an unconditional order).
    pub fn without_distance() -> (r: Self)
        ensures
            r.normalized_distance_from_threshold is None,
    {
        ConditionHit { normalized_distance_from_threshold: None }
    }
}

/// The hit of a "value rose above threshold" condition: `None` unless the
/// value is above the threshold; the distance is one when the threshold is
/// past the liquidation threshold, else the progress from the threshold
/// towards the liquidation threshold (not capped).
pub open spec fn spec_stop_loss(current: int, threshold: int, liquidation: int) -> Option<int> {
    if current <= threshold {
        None
    } else if threshold > liquidation {
        Some(scale())
    } else {
        Some(spec_div(current - threshold, liquidation - threshold))
    }
}

/// Whether a "value rose above threshold" condition can be evaluated: a
/// value above the threshold needs a threshold that differs from the
/// liquidation threshold, and a progress that fits.
pub open spec fn stop_loss_computable(current: int, threshold: int, liquidation: int) -> bool {
    current > threshold && threshold <= liquidation ==> threshold < liquidation && spec_div(
        current - threshold,
        liquidation - threshold,
    ) <= u128::MAX
}

/// Evaluates a "value rose above threshold" condition.
pub fn evaluate_stop_loss(
    current_value: Fraction,
    condition_threshold: Fraction,
    liquidation_threshold: Fraction,
) -> (r: Option<ConditionHit>)
    requires
        stop_loss_computable(
            current_value.val(),
            condition_threshold.val(),
            liquidation_threshold.val(),
        ),
    ensures
        match spec_stop_loss(
            current_value.val(),
            condition_threshold.val(),
            liquidation_threshold.val(),
        ) {
            None => r is None,
            Some(d) => r matches Some(h) && h.normalized_distance_from_threshold matches Some(f)
                && f.val() == d,
        },
{
    if current_value.bits <= condition_threshold.bits {
        return None;
    }
    let normalized_distance_towards_liquidation = if condition_threshold.bits
        > liquidation_threshold.bits {
        Fraction::one()
    } else {
        let current_distance = current_value.sub(condition_threshold);
        let maximum_distance = liquidation_threshold.sub(condition_threshold);
        current_distance.div(maximum_distance)
    };
    Some(ConditionHit::with_distance(normalized_distance_towards_liquidation))
}

/// The hit of a "value fell below threshold" condition: `None` unless the
/// value is below the threshold; the distance is the relative drop.
pub open spec fn spec_take_profit(current: int, threshold: int) -> Option<int> {
    if current >= threshold {
        None
    } else {
        Some(spec_div(threshold - current, threshold))
    }
}

/// Evaluates a "value fell below threshold" condition.
pub fn evaluate_take_profit(current_value: Fraction, condition_threshold: Fraction) -> (r: Option<
    ConditionHit,
>)
    ensures
        match spec_take_profit(current_value.val(), condition_threshold.val()) {
            None => r is None,
            Some(d) => r matches Some(h) && h.normalized_distance_from_threshold matches Some(f)
                && f.val() == d,
        },
{
    if current_value.bits >= condition_threshold.bits {
        return None;
    }
    let distance_towards_0 = condition_threshold.sub(current_value);
    proof {
        assert(0 <= (condition_threshold.val() - current_value.val()) * scale()
            / condition_threshold.val() <= scale()) by (nonlinear_arith)
            requires
                0 < condition_threshold.val() - current_value.val() <= condition_threshold.val(),
                scale() > 0,
        ;
    }
    Some(ConditionHit::with_distance(distance_towards_0.div(condition_threshold)))
}

/// Price of the numerator reserve's token over the denominator's; the
/// denominator price must be nonzero and the ratio must fit.
pub fn calculate_price_ratio(numerator_reserve: &Reserve, denominator_reserve: &Reserve) -> (r:
    Fraction)
    requires
        denominator_reserve.liquidity.market_price_sf > 0,
        spec_div(
            numerator_reserve.liquidity.market_price_sf as int,
            denominator_reserve.liquidity.market_price_sf as int,
        ) <= u128::MAX,
    ensures
        r.val() == spec_div(
            numerator_reserve.liquidity.market_price_sf as int,
            denominator_reserve.liquidity.market_price_sf as int,
        ),
{
    let numerator_price = numerator_reserve.liquidity.get_market_price();
    let denominator_price = denominator_reserve.liquidity.get_market_price();
    numerator_price.div(denominator_price)
}

/// Lowest accepted price-ratio threshold (1e-15, scaled).
pub const MIN_DEBT_COLL_PRICE_RATIO_SF: u128 = 1153u128;

/// Highest accepted price-ratio threshold (1e15, scaled).
pub const MAX_DEBT_COLL_PRICE_RATIO_SF: u128 = 1152921504606846976000000000000000u128;

/// Lowest accepted LTV threshold (0.01, scaled); thresholds stay below one.
pub const MIN_USER_LTV_SF: u128 = 11529215046068470u128;

/// Highest accepted execution bonus rate (0.1, scaled).
pub const EXECUTION_BONUS_SANITY_LIMIT_SF: u128 = 115292150460684698u128;

/// Whether an order is acceptable: a void order, or an order with a known
/// condition whose threshold is in its range (a constant bonus for an
/// unconditional order), a single-debt amount that is neither zero nor
/// unbounded or an all-debt opportunity of unbounded size, an ordered bonus
/// range below the sanity limit, and zero padding.
pub open spec fn spec_valid_order(o: ObligationOrder) -> bool {
    let th = o.condition_threshold_sf as int;
    let p = o.opportunity_parameter_sf as int;
    let condition_ok = match condition_type_of(o.condition_type) {
        None => false,
        Some(ConditionType::DebtCollPriceRatioAbove) | Some(
            ConditionType::DebtCollPriceRatioBelow,
        ) => MIN_DEBT_COLL_PRICE_RATIO_SF <= th <= MAX_DEBT_COLL_PRICE_RATIO_SF,
        Some(ConditionType::UserLtvAbove) | Some(ConditionType::UserLtvBelow) | Some(
            ConditionType::LiquidationLtvCloserThan,
        ) => MIN_USER_LTV_SF <= th < scale(),
        Some(ConditionType::Always) => th == 0 && bps_val(o.min_execution_bonus_bps as int)
            == bps_val(o.max_execution_bonus_bps as int),
        Some(ConditionType::Never) => o.is_zeroed(),
    };
    &&& condition_ok
    &&& o.condition_type != 0 ==> {
        &&& match opportunity_type_of(o.opportunity_type) {
            None => false,
            Some(OpportunityType::DeleverageSingleDebtAmount) => p != 0 && p != u128::MAX,
            Some(OpportunityType::DeleverageAllDebt) => p == u128::MAX,
        }
        &&& bps_val(o.min_execution_bonus_bps as int) <= bps_val(o.max_execution_bonus_bps as int)
        &&& bps_val(o.max_execution_bonus_bps as int) <= EXECUTION_BONUS_SANITY_LIMIT_SF
        &&& o.padding1@[0] == 0u8 && o.padding1@[1] == 0u8
        &&& o.padding2@[0] == 0u128
    }
}

/// Checks an order's configuration; any violation is an
/// invalid-configuration error.
pub fn validate_order(order: ObligationOrder) -> (r: Result<(), LendingError>)
    ensures
        spec_valid_order(order) ==> r is Ok,
        !spec_valid_order(order) ==> r == Err::<(), LendingError>(
            LendingError::InvalidOrderConfiguration,
        ),
{
    let threshold = order.condition_threshold();
    match ConditionType::try_from_u8(order.condition_type) {
        Some(ConditionType::DebtCollPriceRatioAbove) | Some(
            ConditionType::DebtCollPriceRatioBelow,
        ) => {
            if !(MIN_DEBT_COLL_PRICE_RATIO_SF <= threshold.bits && threshold.bits
                <= MAX_DEBT_COLL_PRICE_RATIO_SF) {
                return Err(LendingError::InvalidOrderConfiguration);
            }
        },
        Some(ConditionType::UserLtvAbove) | Some(ConditionType::UserLtvBelow) => {
            if !(MIN_USER_LTV_SF <= threshold.bits && threshold.bits < Fraction::one().bits) {
                return Err(LendingError::InvalidOrderConfiguration);
            }
        },
        Some(ConditionType::Always) => {
            if threshold.bits != 0 {
                return Err(LendingError::InvalidOrderConfiguration);
            }
            let (start, end) = order.execution_bonus_rate_range();
            if start.bits != end.bits {
                return Err(LendingError::InvalidOrderConfiguration);
            }
        },
        Some(ConditionType::Never) => {
            if !order.is_void() {
                return Err(LendingError::InvalidOrderConfiguration);
            }
            return Ok(());
        },
        Some(ConditionType::LiquidationLtvCloserThan) => {
            if !(MIN_USER_LTV_SF <= threshold.bits && threshold.bits < Fraction::one().bits) {
                return Err(LendingError::InvalidOrderConfiguration);
            }
        },
        None => {
            return Err(LendingError::InvalidOrderConfiguration);
        },
    }
    let parameter = order.opportunity_parameter();
    match OpportunityType::try_from_u8(order.opportunity_type) {
        Some(OpportunityType::DeleverageSingleDebtAmount) => {
            if parameter.is_zero() {
                return Err(LendingError::InvalidOrderConfiguration);
            }
            if parameter.bits == Fraction::max_value().bits {
                return Err(LendingError::InvalidOrderConfiguration);
            }
        },
        Some(OpportunityType::DeleverageAllDebt) => {
            if parameter.bits != Fraction::max_value().bits {
                return Err(LendingError::InvalidOrderConfiguration);
            }
        },
        None => {
            return Err(LendingError::InvalidOrderConfiguration);
        },
    }
    let (bonus_start, bonus_end) = order.execution_bonus_rate_range();
    if bonus_start.bits > bonus_end.bits {
        return Err(LendingError::InvalidOrderConfiguration);
    }
    if bonus_end.bits > EXECUTION_BONUS_SANITY_LIMIT_SF {
        return Err(LendingError::InvalidOrderConfiguration);
    }
    if !crate::accounts::is_zeroed_bytes(&order.padding1) || order.padding2[0] != 0 {
        return Err(LendingError::InvalidOrderConfiguration);
    }
    Ok(())
}

} // verus!
