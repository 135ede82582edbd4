//! Orders attached to an obligation: a condition on the obligation's state and
//! an opportunity (deleverage or lever up) that an executor may take when the
//! condition holds, in exchange for a bonus.

use crate::error::LendingError;
use crate::fraction::{bps_val, ceil_int, pct_val, scale, spec_div, spec_mul, Fraction};
use crate::lending_market::LendingMarket;
use crate::obligation::{spec_saturating_sub, Obligation, ObligationOrder};
use crate::pubkey::is_default_key;
use crate::reserve::Reserve;
use vstd::prelude::*;

verus! {

/// What an order waits for.
#[derive(Clone, Copy, Debug, PartialEq, Eq, Structural)]
pub enum ConditionType {
    Never,
    UserLtvAbove,
    UserLtvBelow,
    DebtCollPriceRatioAbove,
    DebtCollPriceRatioBelow,
    Always,
    LiquidationLtvCloserThan,
}

/// A condition together with its threshold.
#[derive(Clone, Copy, Debug, PartialEq, Eq, Structural)]
pub enum OrderCondition {
    Never,
    UserLtvAbove(Fraction),
    UserLtvBelow(Fraction),
    DebtCollPriceRatioAbove(Fraction),
    DebtCollPriceRatioBelow(Fraction),
    Always,
    LiquidationLtvCloserThan(Fraction),
}

/// What an order offers.
#[derive(Clone, Copy, Debug, PartialEq, Eq, Structural)]
pub enum OpportunityType {
    DeleverageDebtAmount,
    LeverUpDebtAmount,
    DeleverageToTargetLtv,
    LeverUpToTargetLtv,
}

/// How much of an opportunity an order offers.
#[derive(Clone, Copy, Debug, PartialEq, Eq, Structural)]
pub enum OrderSize {
    DebtAmount(Fraction),
    ToTargetLtv(Fraction),
}

/// An opportunity together with its size.
#[derive(Clone, Copy, Debug, PartialEq, Eq, Structural)]
pub enum OrderOpportunity {
    Deleverage(OrderSize),
    LeverUp(OrderSize),
}

/// Whether an execution increases or decreases the debt, with the factors
/// that price it.
#[derive(Clone, Copy, Debug, PartialEq, Eq, Structural)]
pub enum DebtMovementDirection {
    Increase { bonus_factor: Fraction },
    Decrease { bonus_factor: Fraction, penalty_factor: Fraction },
}

/// A satisfied condition, with how far past its threshold the obligation is,
/// normalized to `0..=1` where defined.
#[derive(Clone, Copy, Debug, PartialEq, Eq, Structural)]
pub struct ConditionHit {
    pub normalized_distance_from_threshold: Option<Fraction>,
}

/// The condition type stored as `code`, if any.
pub open spec fn condition_type_of(code: u8) -> Option<ConditionType> {
    if code == 0 {
        Some(ConditionType::Never)
    } else if code == 1 {
        Some(ConditionType::UserLtvAbove)
    } else if code == 2 {
        Some(ConditionType::UserLtvBelow)
    } else if code == 3 {
        Some(ConditionType::DebtCollPriceRatioAbove)
    } else if code == 4 {
        Some(ConditionType::DebtCollPriceRatioBelow)
    } else if code == 5 {
        Some(ConditionType::Always)
    } else if code == 6 {
        Some(ConditionType::LiquidationLtvCloserThan)
    } else {
        None
    }
}

/// The opportunity type stored as `code`, if any.
pub open spec fn opportunity_type_of(code: u8) -> Option<OpportunityType> {
    if code == 0 {
        Some(OpportunityType::DeleverageDebtAmount)
    } else if code == 1 {
        Some(OpportunityType::LeverUpDebtAmount)
    } else if code == 2 {
        Some(OpportunityType::DeleverageToTargetLtv)
    } else if code == 3 {
        Some(OpportunityType::LeverUpToTargetLtv)
    } else {
        None
    }
}

impl ConditionType {
    /// The condition type stored as `code`, if any.
    pub fn try_from_u8(code: u8) -> (r: Option<ConditionType>)
        ensures
            r == condition_type_of(code),
    {
        if code == 0 {
            Some(ConditionType::Never)
        } else if code == 1 {
            Some(ConditionType::UserLtvAbove)
        } else if code == 2 {
            Some(ConditionType::UserLtvBelow)
        } else if code == 3 {
            Some(ConditionType::DebtCollPriceRatioAbove)
        } else if code == 4 {
            Some(ConditionType::DebtCollPriceRatioBelow)
        } else if code == 5 {
            Some(ConditionType::Always)
        } else if code == 6 {
            Some(ConditionType::LiquidationLtvCloserThan)
        } else {
            None
        }
    }

    /// The stored code of this condition type.
    pub fn to_u8(&self) -> (r: u8)
        ensures
            condition_type_of(r) == Some(*self),
    {
        match self {
            ConditionType::Never => 0,
            ConditionType::UserLtvAbove => 1,
            ConditionType::UserLtvBelow => 2,
            ConditionType::DebtCollPriceRatioAbove => 3,
            ConditionType::DebtCollPriceRatioBelow => 4,
            ConditionType::Always => 5,
            ConditionType::LiquidationLtvCloserThan => 6,
        }
    }

    /// Every condition type but `Never`, in code order.
    pub fn iter_active() -> (r: Vec<ConditionType>)
        ensures
            r@ == seq![
                ConditionType::UserLtvAbove,
                ConditionType::UserLtvBelow,
                ConditionType::DebtCollPriceRatioAbove,
                ConditionType::DebtCollPriceRatioBelow,
                ConditionType::Always,
                ConditionType::LiquidationLtvCloserThan,
            ],
    {
        let mut r: Vec<ConditionType> = Vec::new();
        let mut code: u8 = 1;
        while code <= 6
            invariant
                1 <= code <= 7,
                r@.len() == code - 1,
                forall|i: int| 0 <= i < r@.len() ==> condition_type_of((i + 1) as u8) == Some(
                    #[trigger] r@[i],
                ),
            decreases 7 - code,
        {
            let t = ConditionType::try_from_u8(code).unwrap();
            r.push(t);
            code = code + 1;
        }
        assert(r@ =~= seq![
            ConditionType::UserLtvAbove,
            ConditionType::UserLtvBelow,
            ConditionType::DebtCollPriceRatioAbove,
            ConditionType::DebtCollPriceRatioBelow,
            ConditionType::Always,
            ConditionType::LiquidationLtvCloserThan,
        ]) by {
            assert(condition_type_of(1u8) == Some(r@[0]));
            assert(condition_type_of(2u8) == Some(r@[1]));
            assert(condition_type_of(3u8) == Some(r@[2]));
            assert(condition_type_of(4u8) == Some(r@[3]));
            assert(condition_type_of(5u8) == Some(r@[4]));
            assert(condition_type_of(6u8) == Some(r@[5]));
        }
        r
    }
}

impl OpportunityType {
    /// The opportunity type stored as `code`, if any.
    pub fn try_from_u8(code: u8) -> (r: Option<OpportunityType>)
        ensures
            r == opportunity_type_of(code),
    {
        if code == 0 {
            Some(OpportunityType::DeleverageDebtAmount)
        } else if code == 1 {
            Some(OpportunityType::LeverUpDebtAmount)
        } else if code == 2 {
            Some(OpportunityType::DeleverageToTargetLtv)
        } else if code == 3 {
            Some(OpportunityType::LeverUpToTargetLtv)
        } else {
            None
        }
    }
}

impl ConditionHit {
    /// A hit at the given normalized distance.
    pub fn with_distance(normalized_distance_from_threshold: Fraction) -> (r: Self)
        ensures
            r.normalized_distance_from_threshold == Some(normalized_distance_from_threshold),
    {
        ConditionHit { normalized_distance_from_threshold: Some(normalized_distance_from_threshold) }
    }

    /// A hit with no defined distance (an unconditional order).
    pub fn without_distance() -> (r: Self)
        ensures
            r.normalized_distance_from_threshold is None,
    {
        ConditionHit { normalized_distance_from_threshold: None }
    }
}

/// The hit of a "value rose above threshold" condition: `None` unless the
/// value is above the threshold; the distance is the progress from the
/// threshold towards the liquidation threshold, at most one, and one when the
/// threshold is at or past the liquidation threshold.
pub open spec fn spec_stop_loss(current: int, threshold: int, liquidation: int) -> Option<int> {
    if current <= threshold {
        None
    } else if threshold >= liquidation {
        Some(scale())
    } else {
        let d = spec_div(current - threshold, liquidation - threshold);
        Some(
            if d <= scale() {
                d
            } else {
                scale()
            },
        )
    }
}

/// The hit of a "value fell below threshold" condition: `None` unless the
/// value is below the threshold; the distance is the relative drop.
pub open spec fn spec_take_profit(current: int, threshold: int) -> Option<int> {
    if current >= threshold {
        None
    } else {
        Some(spec_div(threshold - current, threshold))
    }
}

/// Whether a "value rose above threshold" condition can be evaluated: the
/// progress towards the liquidation threshold must fit.
pub open spec fn stop_loss_computable(current: int, threshold: int, liquidation: int) -> bool {
    current > threshold && threshold < liquidation ==> spec_div(
        current - threshold,
        liquidation - threshold,
    ) <= u128::MAX
}

/// Evaluates a "value rose above threshold" condition.
pub fn evaluate_stop_loss(
    current_value: Fraction,
    condition_threshold: Fraction,
    liquidation_threshold: Fraction,
) -> (r: Option<ConditionHit>)
    requires
        stop_loss_computable(
            current_value.val(),
            condition_threshold.val(),
            liquidation_threshold.val(),
        ),
    ensures
        match spec_stop_loss(
            current_value.val(),
            condition_threshold.val(),
            liquidation_threshold.val(),
        ) {
            None => r is None,
            Some(d) => r matches Some(h) && h.normalized_distance_from_threshold matches Some(f)
                && f.val() == d,
        },
{
    if current_value.bits <= condition_threshold.bits {
        return None;
    }
    let normalized_distance_towards_liquidation = if condition_threshold.bits
        >= liquidation_threshold.bits {
        Fraction::one()
    } else {
        let current_distance = current_value.sub(condition_threshold);
        let maximum_distance = liquidation_threshold.sub(condition_threshold);
        current_distance.div(maximum_distance).min(Fraction::one())
    };
    Some(ConditionHit::with_distance(normalized_distance_towards_liquidation))
}

/// Evaluates a "value fell below threshold" condition.
pub fn evaluate_take_profit(current_value: Fraction, condition_threshold: Fraction) -> (r: Option<
    ConditionHit,
>)
    ensures
        match spec_take_profit(current_value.val(), condition_threshold.val()) {
            None => r is None,
            Some(d) => r matches Some(h) && h.normalized_distance_from_threshold matches Some(f)
                && f.val() == d,
        },
{
    if current_value.bits >= condition_threshold.bits {
        return None;
    }
    let distance_towards_0 = condition_threshold.sub(current_value);
    proof {
        assert(0 <= (condition_threshold.val() - current_value.val()) * scale()
            / condition_threshold.val() <= scale()) by (nonlinear_arith)
            requires
                0 < condition_threshold.val() - current_value.val() <= condition_threshold.val(),
                scale() > 0,
        ;
    }
    Some(ConditionHit::with_distance(distance_towards_0.div(condition_threshold)))
}

/// The bonus rate at a normalized distance between the range's ends.
pub open spec fn spec_interpolate(distance: int, start: int, end: int) -> int {
    start + spec_mul(distance, end - start)
}

/// Linear interpolation of the bonus rate range at a normalized distance.
pub fn interpolate_bonus_rate(
    normalized_distance_from_threshold: Fraction,
    bonus_rate_start: Fraction,
    bonus_rate_end: Fraction,
) -> (r: Fraction)
    requires
        bonus_rate_start.val() <= bonus_rate_end.val(),
        spec_mul(normalized_distance_from_threshold.val(), bonus_rate_end.val() - bonus_rate_start.val())
            <= u128::MAX,
        spec_interpolate(
            normalized_distance_from_threshold.val(),
            bonus_rate_start.val(),
            bonus_rate_end.val(),
        ) <= u128::MAX,
    ensures
        r.val() == spec_interpolate(
            normalized_distance_from_threshold.val(),
            bonus_rate_start.val(),
            bonus_rate_end.val(),
        ),
{
    bonus_rate_start.add(
        normalized_distance_from_threshold.mul(bonus_rate_end.sub(bonus_rate_start)),
    )
}

/// The bonus of a bonus-priced total: `total * (factor - 1) / factor`.
pub open spec fn spec_bonus_amount(total: int, bonus_factor: int) -> int {
    total * (bonus_factor - scale()) / bonus_factor
}

/// The bonus contained in a bonus-priced total amount, rounded down: the
/// total times `(bonus_factor - 1) / bonus_factor`, computed in full
/// precision.
pub fn calculate_bonus_amount(total_amount: Fraction, bonus_factor: Fraction) -> (r: Fraction)
    requires
        bonus_factor.val() >= scale(),
    ensures
        r.val() == spec_bonus_amount(total_amount.val(), bonus_factor.val()),
{
    let numer = crate::wide::mul_u128(total_amount.bits, bonus_factor.bits - Fraction::one().bits);
    let denom = crate::wide::U256::from_u128(bonus_factor.bits);
    let (q, _r) = crate::wide::div_rem(&numer, &denom);
    proof {
        assert(total_amount.val() * (bonus_factor.val() - scale()) / bonus_factor.val()
            <= total_amount.val()) by (nonlinear_arith)
            requires
                0 <= total_amount.val(),
                scale() <= bonus_factor.val(),
                scale() > 0,
        ;
        assert(0 <= total_amount.val() * (bonus_factor.val() - scale()) / bonus_factor.val())
            by (nonlinear_arith)
            requires
                0 <= total_amount.val(),
                scale() <= bonus_factor.val(),
                scale() > 0,
        ;
    }
    Fraction::from_bits(q.to_u128().unwrap())
}

/// Whether an offered term satisfies a requested minimum: no requirement is
/// satisfied only by an open-ended term; a requirement is satisfied by an
/// open-ended term or a long enough one.
pub fn is_term_satisfied(min_requested_seconds: Option<u64>, max_offered_seconds: Option<u64>) -> (r:
    bool)
    ensures
        r == match (min_requested_seconds, max_offered_seconds) {
            (None, None) => true,
            (None, Some(_)) => false,
            (Some(_), None) => true,
            (Some(a), Some(b)) => a <= b,
        },
{
    match (min_requested_seconds, max_offered_seconds) {
        (None, None) => true,
        (None, Some(_)) => false,
        (Some(_), None) => true,
        (Some(min_requested), Some(max_offered)) => min_requested <= max_offered,
    }
}

impl ConditionType {
    /// Whether an obligation can carry a condition of this type: price-ratio
    /// conditions need a single debt and a single collateral.
    pub fn is_supported_by(&self, obligation: &Obligation) -> (r: bool)
        ensures
            r == match *self {
                ConditionType::DebtCollPriceRatioAbove | ConditionType::DebtCollPriceRatioBelow => obligation.spec_single_debt_single_coll(),
                _ => true,
            },
    {
        match self {
            ConditionType::Never => true,
            ConditionType::UserLtvAbove | ConditionType::UserLtvBelow => true,
            ConditionType::DebtCollPriceRatioAbove | ConditionType::DebtCollPriceRatioBelow => {
                obligation.is_single_debt_single_coll()
            },
            ConditionType::Always => true,
            ConditionType::LiquidationLtvCloserThan => true,
        }
    }
}

impl OpportunityType {
    /// Whether an obligation can carry an opportunity of this type: always.
    pub fn is_supported_by(&self, _obligation: &Obligation) -> (r: bool)
        ensures
            r,
    {
        match self {
            OpportunityType::DeleverageDebtAmount => true,
            OpportunityType::LeverUpDebtAmount => true,
            OpportunityType::DeleverageToTargetLtv | OpportunityType::LeverUpToTargetLtv => true,
        }
    }
}

/// Lowest accepted price-ratio threshold (1e-15, scaled).
pub const MIN_DEBT_COLL_PRICE_RATIO_SF: u128 = 1153u128;

/// Highest accepted price-ratio threshold (1e15, scaled).
pub const MAX_DEBT_COLL_PRICE_RATIO_SF: u128 = 1152921504606846976000000000000000u128;

/// Lowest accepted LTV threshold (0.01, scaled); thresholds stay below one.
pub const MIN_CONDITION_LTV_SF: u128 = 11529215046068470u128;

/// Highest accepted execution bonus rate (0.1, scaled).
pub const EXECUTION_BONUS_SANITY_LIMIT_SF: u128 = 115292150460684698u128;

/// Whether an LTV threshold lies in `[0.01, 1)`.
pub open spec fn ltv_threshold_ok(t: int) -> bool {
    MIN_CONDITION_LTV_SF <= t < scale()
}

/// Whether the condition part of an order is acceptable.
pub open spec fn condition_part_ok(o: ObligationOrder) -> bool {
    let th = o.condition_threshold_sf as int;
    match condition_type_of(o.condition_type) {
        None => false,
        Some(ConditionType::DebtCollPriceRatioAbove) | Some(
            ConditionType::DebtCollPriceRatioBelow,
        ) => MIN_DEBT_COLL_PRICE_RATIO_SF <= th <= MAX_DEBT_COLL_PRICE_RATIO_SF,
        Some(ConditionType::UserLtvAbove) | Some(ConditionType::UserLtvBelow) => ltv_threshold_ok(
            th,
        ),
        Some(ConditionType::Always) => th == 0 && bps_val(o.min_execution_bonus_bps as int)
            == bps_val(o.max_execution_bonus_bps as int),
        Some(ConditionType::Never) => o.is_zeroed(),
        Some(ConditionType::LiquidationLtvCloserThan) => ltv_threshold_ok(th),
    }
}

/// Whether a lever-up order's condition is one that does not signal growing
/// risk (LTV above, liquidation closer, price ratio above are refused).
pub open spec fn lever_up_condition_ok(t: ConditionType) -> bool {
    !(t == ConditionType::UserLtvAbove || t == ConditionType::LiquidationLtvCloserThan || t
        == ConditionType::DebtCollPriceRatioAbove)
}

/// Whether a target LTV can ever be meaningfully executed under an LTV
/// condition: a lever-up on "LTV below" must target at least the threshold;
/// a deleverage on "LTV above" at most the threshold, on "LTV below" strictly
/// less.
pub open spec fn target_ltv_ok(opp: OpportunityType, cond: ConditionType, target: int, threshold: int) -> bool {
    match (opp, cond) {
        (OpportunityType::LeverUpToTargetLtv, ConditionType::UserLtvBelow) => target >= threshold,
        (OpportunityType::DeleverageToTargetLtv, ConditionType::UserLtvAbove) => target <= threshold,
        (OpportunityType::DeleverageToTargetLtv, ConditionType::UserLtvBelow) => target < threshold,
        _ => true,
    }
}

/// Whether the opportunity part of an order (with a known, non-void
/// condition) is acceptable.
pub open spec fn opportunity_part_ok(o: ObligationOrder) -> bool {
    let p = o.opportunity_parameter_sf as int;
    let cond = o.spec_condition_type();
    let th = o.condition_threshold_sf as int;
    match opportunity_type_of(o.opportunity_type) {
        None => false,
        Some(OpportunityType::DeleverageDebtAmount) => p != 0 && p != u128::MAX
            && !is_default_key(o.debt_mint_address.bytes@) && o.max_borrow_rate_bps == 0
            && o.min_debt_term_seconds == 0,
        Some(OpportunityType::LeverUpDebtAmount) => p != 0 && p != u128::MAX && !is_default_key(
            o.debt_mint_address.bytes@,
        ) && !is_default_key(o.collateral_mint_address.bytes@) && o.max_borrow_rate_bps != 0
            && lever_up_condition_ok(cond),
        Some(OpportunityType::DeleverageToTargetLtv) => p <= scale() && o.max_borrow_rate_bps == 0
            && o.min_debt_term_seconds == 0 && target_ltv_ok(
            OpportunityType::DeleverageToTargetLtv,
            cond,
            p,
            th,
        ),
        Some(OpportunityType::LeverUpToTargetLtv) => p <= scale() && !is_default_key(
            o.debt_mint_address.bytes@,
        ) && !is_default_key(o.collateral_mint_address.bytes@) && o.max_borrow_rate_bps != 0
            && lever_up_condition_ok(cond) && target_ltv_ok(
            OpportunityType::LeverUpToTargetLtv,
            cond,
            p,
            th,
        ),
    }
}

/// Whether an order is acceptable: a void order, or an order whose
/// condition and opportunity are both acceptable, whose bonus range is
/// ordered and below the sanity limit, and whose padding is zero.
pub open spec fn spec_valid_order(o: ObligationOrder) -> bool {
    &&& condition_part_ok(o)
    &&& o.condition_type != 0 ==> {
        &&& opportunity_part_ok(o)
        &&& bps_val(o.min_execution_bonus_bps as int) <= bps_val(o.max_execution_bonus_bps as int)
        &&& bps_val(o.max_execution_bonus_bps as int) <= EXECUTION_BONUS_SANITY_LIMIT_SF
        &&& o.padding1@[0] == 0u8 && o.padding1@[1] == 0u8
        &&& o.padding2@[0] == 0u128
    }
}

/// Checks an order's configuration; any violation is an
/// invalid-configuration error.
pub fn validate_order(order: &ObligationOrder) -> (r: Result<(), LendingError>)
    ensures
        spec_valid_order(*order) ==> r is Ok,
        !spec_valid_order(*order) ==> r == Err::<(), LendingError>(
            LendingError::InvalidOrderConfiguration,
        ),
{
    let threshold = order.condition_threshold();
    match ConditionType::try_from_u8(order.condition_type) {
        Some(ConditionType::DebtCollPriceRatioAbove) | Some(
            ConditionType::DebtCollPriceRatioBelow,
        ) => {
            if !(MIN_DEBT_COLL_PRICE_RATIO_SF <= threshold.bits && threshold.bits
                <= MAX_DEBT_COLL_PRICE_RATIO_SF) {
                return Err(LendingError::InvalidOrderConfiguration);
            }
        },
        Some(ConditionType::UserLtvAbove) | Some(ConditionType::UserLtvBelow) => {
            if !(MIN_CONDITION_LTV_SF <= threshold.bits && threshold.bits < Fraction::one().bits) {
                return Err(LendingError::InvalidOrderConfiguration);
            }
        },
        Some(ConditionType::Always) => {
            if threshold.bits != 0 {
                return Err(LendingError::InvalidOrderConfiguration);
            }
            let (start, end) = order.execution_bonus_rate_range();
            if start.bits != end.bits {
                return Err(LendingError::InvalidOrderConfiguration);
            }
        },
        Some(ConditionType::Never) => {
            if !order.is_void() {
                return Err(LendingError::InvalidOrderConfiguration);
            }
            return Ok(());
        },
        Some(ConditionType::LiquidationLtvCloserThan) => {
            if !(MIN_CONDITION_LTV_SF <= threshold.bits && threshold.bits < Fraction::one().bits) {
                return Err(LendingError::InvalidOrderConfiguration);
            }
        },
        None => {
            return Err(LendingError::InvalidOrderConfiguration);
        },
    }
    let parameter = order.opportunity_parameter();
    match OpportunityType::try_from_u8(order.opportunity_type) {
        Some(OpportunityType::DeleverageDebtAmount) => {
            if parameter.is_zero() {
                return Err(LendingError::InvalidOrderConfiguration);
            }
            if parameter.bits == Fraction::max_value().bits {
                return Err(LendingError::InvalidOrderConfiguration);
            }
            if order.debt_mint_address.is_default() {
                return Err(LendingError::InvalidOrderConfiguration);
            }
            if order.max_borrow_rate_bps != 0 || order.min_debt_term_seconds != 0 {
                return Err(LendingError::InvalidOrderConfiguration);
            }
        },
        Some(OpportunityType::LeverUpDebtAmount) => {
            if parameter.is_zero() {
                return Err(LendingError::InvalidOrderConfiguration);
            }
            if parameter.bits == Fraction::max_value().bits {
                return Err(LendingError::InvalidOrderConfiguration);
            }
            if order.debt_mint_address.is_default() {
                return Err(LendingError::InvalidOrderConfiguration);
            }
            if order.collateral_mint_address.is_default() {
                return Err(LendingError::InvalidOrderConfiguration);
            }
            if order.max_borrow_rate_bps == 0 {
                return Err(LendingError::InvalidOrderConfiguration);
            }
            check_lever_up_condition_not_risk_increasing(order)?;
        },
        Some(OpportunityType::DeleverageToTargetLtv) => {
            if parameter.bits > Fraction::one().bits {
                return Err(LendingError::InvalidOrderConfiguration);
            }
            if order.max_borrow_rate_bps != 0 || order.min_debt_term_seconds != 0 {
                return Err(LendingError::InvalidOrderConfiguration);
            }
            check_target_ltv_against_ltv_condition(order, OpportunityType::DeleverageToTargetLtv)?;
        },
        Some(OpportunityType::LeverUpToTargetLtv) => {
            if parameter.bits > Fraction::one().bits {
                return Err(LendingError::InvalidOrderConfiguration);
            }
            if order.debt_mint_address.is_default() {
                return Err(LendingError::InvalidOrderConfiguration);
            }
            if order.collateral_mint_address.is_default() {
                return Err(LendingError::InvalidOrderConfiguration);
            }
            if order.max_borrow_rate_bps == 0 {
                return Err(LendingError::InvalidOrderConfiguration);
            }
            check_lever_up_condition_not_risk_increasing(order)?;
            check_target_ltv_against_ltv_condition(order, OpportunityType::LeverUpToTargetLtv)?;
        },
        None => {
            return Err(LendingError::InvalidOrderConfiguration);
        },
    }
    let (bonus_start, bonus_end) = order.execution_bonus_rate_range();
    if bonus_start.bits > bonus_end.bits {
        return Err(LendingError::InvalidOrderConfiguration);
    }
    if bonus_end.bits > EXECUTION_BONUS_SANITY_LIMIT_SF {
        return Err(LendingError::InvalidOrderConfiguration);
    }
    if !crate::accounts::is_zeroed_bytes(&order.padding1) || order.padding2[0] != 0 {
        return Err(LendingError::InvalidOrderConfiguration);
    }
    Ok(())
}

/// Refuses a lever-up under a condition that signals growing risk.
fn check_lever_up_condition_not_risk_increasing(order: &ObligationOrder) -> (r: Result<
    (),
    LendingError,
>)
    requires
        condition_type_of(order.condition_type) is Some,
    ensures
        lever_up_condition_ok(order.spec_condition_type()) ==> r is Ok,
        !lever_up_condition_ok(order.spec_condition_type()) ==> r == Err::<(), LendingError>(
            LendingError::InvalidOrderConfiguration,
        ),
{
    match order.condition_type() {
        ConditionType::UserLtvAbove
        | ConditionType::LiquidationLtvCloserThan
        | ConditionType::DebtCollPriceRatioAbove => Err(LendingError::InvalidOrderConfiguration),
        ConditionType::Always
        | ConditionType::Never
        | ConditionType::UserLtvBelow
        | ConditionType::DebtCollPriceRatioBelow => Ok(()),
    }
}

/// Refuses a target LTV that the order's LTV condition would never let be
/// meaningfully executed.
fn check_target_ltv_against_ltv_condition(
    order: &ObligationOrder,
    opportunity_type: OpportunityType,
) -> (r: Result<(), LendingError>)
    requires
        condition_type_of(order.condition_type) is Some,
    ensures
        target_ltv_ok(
            opportunity_type,
            order.spec_condition_type(),
            order.opportunity_parameter_sf as int,
            order.condition_threshold_sf as int,
        ) ==> r is Ok,
        !target_ltv_ok(
            opportunity_type,
            order.spec_condition_type(),
            order.opportunity_parameter_sf as int,
            order.condition_threshold_sf as int,
        ) ==> r == Err::<(), LendingError>(LendingError::InvalidOrderConfiguration),
{
    let target_ltv = order.opportunity_parameter();
    let threshold = order.condition_threshold();
    let valid = match (opportunity_type, order.condition_type()) {
        (OpportunityType::LeverUpToTargetLtv, ConditionType::UserLtvBelow) => {
            target_ltv.bits >= threshold.bits
        },
        (OpportunityType::DeleverageToTargetLtv, ConditionType::UserLtvAbove) => {
            target_ltv.bits <= threshold.bits
        },
        (OpportunityType::DeleverageToTargetLtv, ConditionType::UserLtvBelow) => {
            target_ltv.bits < threshold.bits
        },
        _ => true,
    };
    if !valid {
        return Err(LendingError::InvalidOrderConfiguration);
    }
    Ok(())
}

/// Fails when an obligation carries an order it no longer supports (after a
/// user operation changed its deposits or borrows); the orders are void or
/// have known type codes.
pub fn check_orders_supported_after_user_operation(obligation: &mut Obligation) -> (r: Result<
    (),
    LendingError,
>)
    requires
        forall|i: int|
            0 <= i < 2 ==> (#[trigger] old(obligation).obligation_orders@[i]).is_zeroed() || old(obligation).obligation_orders@[i].has_valid_types(),
    ensures
        *final(obligation) == *old(obligation),
        (forall|i: int|
            0 <= i < 2 ==> (#[trigger] old(obligation).obligation_orders@[i]).spec_is_supported_by(
                *old(obligation),
            )) ==> r is Ok,
        !(forall|i: int|
            0 <= i < 2 ==> (#[trigger] old(obligation).obligation_orders@[i]).spec_is_supported_by(
                *old(obligation),
            )) ==> r == Err::<(), LendingError>(
            LendingError::OperationNotPermittedWithCurrentObligationOrders,
        ),
{
    let first = obligation.obligation_orders[0];
    let second = obligation.obligation_orders[1];
    let supported = first.is_supported_by(obligation) && second.is_supported_by(obligation);
    proof {
        assert forall|i: int| 0 <= i < 2 implies (#[trigger] obligation.obligation_orders@[i]).spec_is_supported_by(
            *obligation,
        ) == (if i == 0 {
            first.spec_is_supported_by(*obligation)
        } else {
            second.spec_is_supported_by(*obligation)
        }) by {}
    }
    if !supported {
        return Err(LendingError::OperationNotPermittedWithCurrentObligationOrders);
    }
    Ok(())
}

/// Clears every order of the obligation; returns whether any was set.
pub fn remove_all_orders(obligation: &mut Obligation) -> (r: bool)
    ensures
        r == (exists|i: int| 0 <= i < 2 && !(#[trigger] old(obligation).obligation_orders@[i]).is_zeroed()),
        forall|i: int| 0 <= i < 2 ==> (#[trigger] final(obligation).obligation_orders@[i]).is_zeroed(),
        *final(obligation) == (Obligation {
            obligation_orders: final(obligation).obligation_orders,
            ..*old(obligation)
        }),
{
    let mut had_orders = false;
    let mut i: usize = 0;
    while i < 2
        invariant
            0 <= i <= 2,
            had_orders == (exists|j: int| 0 <= j < i && !(#[trigger] old(obligation).obligation_orders@[j]).is_zeroed()),
            forall|j: int| 0 <= j < i ==> (#[trigger] obligation.obligation_orders@[j]).is_zeroed(),
            forall|j: int| i <= j < 2 ==> obligation.obligation_orders@[j] == old(obligation).obligation_orders@[j],
            *obligation == (Obligation {
                obligation_orders: obligation.obligation_orders,
                ..*old(obligation)
            }),
        decreases 2 - i,
    {
        if !obligation.obligation_orders[i].is_void() {
            obligation.obligation_orders[i] = ObligationOrder::default();
            had_orders = true;
        }
        i = i + 1;
    }
    had_orders
}

/// The errors, in order of precedence, that setting `order` at slot `index`
/// meets: an invalid order; an order the obligation cannot carry; a slot past
/// the last; creating an order where the market forbids creation; a current
/// order smaller than the caller expects. `None` when the order can be set.
pub open spec fn spec_set_order_error(
    lending_market: LendingMarket,
    obligation: Obligation,
    index: int,
    order: ObligationOrder,
    min_expected: int,
) -> Option<LendingError> {
    if !spec_valid_order(order) {
        Some(LendingError::InvalidOrderConfiguration)
    } else if !order.spec_is_supported_by(obligation) {
        Some(LendingError::OrderConfigurationNotSupportedByObligation)
    } else if index >= 2 {
        Some(LendingError::OrderIndexOutOfBounds)
    } else if obligation.obligation_orders@[index].condition_type == 0 && order.condition_type != 0
        && lending_market.obligation_order_creation_enabled == 0 {
        Some(LendingError::OrderCreationDisabled)
    } else if obligation.obligation_orders@[index].opportunity_parameter_sf < min_expected {
        Some(LendingError::ExpectationNotMet)
    } else {
        None
    }
}

/// Validates `order` and stores it at slot `index` of the obligation,
/// replacing the order there; see [`spec_set_order_error`] for the errors,
/// which leave the obligation unchanged.
pub fn set_order_on_obligation(
    lending_market: &LendingMarket,
    obligation: &mut Obligation,
    index: u8,
    order: ObligationOrder,
    min_expected_current_opportunity_parameter: Fraction,
) -> (r: Result<(), LendingError>)
    ensures
        ({
            let e = spec_set_order_error(
                *lending_market,
                *old(obligation),
                index as int,
                order,
                min_expected_current_opportunity_parameter.val(),
            );
            &&& e matches Some(err) ==> r == Err::<(), LendingError>(err) && *final(obligation)
                == *old(obligation)
            &&& e is None ==> r is Ok && final(obligation).obligation_orders@ == old(obligation).obligation_orders@.update(index as int, order) && *final(obligation) == (
            Obligation { obligation_orders: final(obligation).obligation_orders, ..*old(obligation) })
        }),
{
    validate_order(&order)?;
    if !order.is_supported_by(obligation) {
        return Err(LendingError::OrderConfigurationNotSupportedByObligation);
    }
    let index = index as usize;
    if index >= 2 {
        return Err(LendingError::OrderIndexOutOfBounds);
    }
    let previous_order = obligation.obligation_orders[index];
    if !previous_order.is_active() && order.is_active()
        && !lending_market.is_obligation_order_creation_enabled() {
        return Err(LendingError::OrderCreationDisabled);
    }
    if previous_order.opportunity_parameter().bits < min_expected_current_opportunity_parameter.bits {
        return Err(LendingError::ExpectationNotMet);
    }
    obligation.obligation_orders[index] = order;
    Ok(())
}

/// The price of the numerator reserve's token in units of the denominator
/// reserve's token.
pub open spec fn spec_price_ratio(numerator: Reserve, denominator: Reserve) -> int {
    spec_div(
        numerator.liquidity.market_price_sf as int,
        denominator.liquidity.market_price_sf as int,
    )
}

/// Whether a price ratio can be computed: a nonzero denominator price and a
/// ratio that fits.
pub open spec fn price_ratio_computable(numerator: Reserve, denominator: Reserve) -> bool {
    denominator.liquidity.market_price_sf > 0 && spec_price_ratio(numerator, denominator)
        <= u128::MAX
}

/// Price of the numerator reserve's token over the denominator's.
fn calculate_price_ratio(numerator_reserve: &Reserve, denominator_reserve: &Reserve) -> (r:
    Fraction)
    requires
        price_ratio_computable(*numerator_reserve, *denominator_reserve),
    ensures
        r.val() == spec_price_ratio(*numerator_reserve, *denominator_reserve),
{
    let numerator_price = numerator_reserve.liquidity.get_market_price();
    let denominator_price = denominator_reserve.liquidity.get_market_price();
    numerator_price.div(denominator_price)
}

/// The liquidation point of a "price ratio above" condition: the price ratio
/// at which the obligation's LTV would reach its unhealthy LTV.
pub open spec fn spec_ratio_liquidation_point(ratio: int, o: Obligation) -> int {
    spec_div(spec_mul(ratio, o.spec_unhealthy_ltv()), o.spec_ltv())
}

/// Whether a condition can be evaluated on the obligation and reserves: the
/// ratios it reads exist and fit, and so do the intermediate values.
pub open spec fn condition_evaluable(
    c: OrderCondition,
    collateral_reserve: Reserve,
    debt_reserve: Reserve,
    o: Obligation,
) -> bool {
    match c {
        OrderCondition::Never | OrderCondition::Always => true,
        OrderCondition::UserLtvAbove(t) => o.ltvs_computable() && stop_loss_computable(
            o.spec_ltv(),
            t.val(),
            o.spec_unhealthy_ltv(),
        ),
        OrderCondition::UserLtvBelow(t) => o.ltvs_computable(),
        OrderCondition::DebtCollPriceRatioAbove(t) => {
            let ratio = spec_price_ratio(debt_reserve, collateral_reserve);
            &&& price_ratio_computable(debt_reserve, collateral_reserve)
            &&& o.ltvs_computable()
            &&& o.spec_ltv() > 0
            &&& spec_mul(ratio, o.spec_unhealthy_ltv()) <= u128::MAX
            &&& spec_ratio_liquidation_point(ratio, o) <= u128::MAX
            &&& stop_loss_computable(ratio, t.val(), spec_ratio_liquidation_point(ratio, o))
        },
        OrderCondition::DebtCollPriceRatioBelow(t) => price_ratio_computable(
            debt_reserve,
            collateral_reserve,
        ),
        OrderCondition::LiquidationLtvCloserThan(t) => o.ltvs_computable() && stop_loss_computable(
            o.spec_ltv(),
            spec_saturating_sub(o.spec_unhealthy_ltv(), t.val()),
            o.spec_unhealthy_ltv(),
        ),
    }
}

/// The outcome of evaluating a condition: `None` when it is not met, else
/// the hit's normalized distance from the threshold, when defined.
pub open spec fn spec_evaluate(
    c: OrderCondition,
    collateral_reserve: Reserve,
    debt_reserve: Reserve,
    o: Obligation,
) -> Option<Option<int>> {
    let as_hit = |d: Option<int>|
        match d {
            Some(v) => Some(Some(v)),
            None => None,
        };
    match c {
        OrderCondition::Always => Some(None),
        OrderCondition::Never => None,
        OrderCondition::UserLtvAbove(t) => as_hit(
            spec_stop_loss(o.spec_ltv(), t.val(), o.spec_unhealthy_ltv()),
        ),
        OrderCondition::UserLtvBelow(t) => as_hit(spec_take_profit(o.spec_ltv(), t.val())),
        OrderCondition::DebtCollPriceRatioAbove(t) => {
            let ratio = spec_price_ratio(debt_reserve, collateral_reserve);
            as_hit(spec_stop_loss(ratio, t.val(), spec_ratio_liquidation_point(ratio, o)))
        },
        OrderCondition::DebtCollPriceRatioBelow(t) => as_hit(
            spec_take_profit(spec_price_ratio(debt_reserve, collateral_reserve), t.val()),
        ),
        OrderCondition::LiquidationLtvCloserThan(t) => as_hit(
            spec_stop_loss(
                o.spec_ltv(),
                spec_saturating_sub(o.spec_unhealthy_ltv(), t.val()),
                o.spec_unhealthy_ltv(),
            ),
        ),
    }
}

impl OrderCondition {
    /// Evaluates the condition on the obligation (and, for price-ratio
    /// conditions, on the debt and collateral reserves' prices); a condition
    /// that is not met is an error.
    pub fn evaluate(&self, collateral_reserve: &Reserve, debt_reserve: &Reserve, obligation: &Obligation) -> (r: Result<ConditionHit, LendingError>)
        requires
            condition_evaluable(*self, *collateral_reserve, *debt_reserve, *obligation),
        ensures
            match spec_evaluate(*self, *collateral_reserve, *debt_reserve, *obligation) {
                None => r == Err::<ConditionHit, LendingError>(LendingError::ObligationOrderConditionNotMet),
                Some(None) => r matches Ok(h) && h.normalized_distance_from_threshold is None,
                Some(Some(d)) => r matches Ok(h) && h.normalized_distance_from_threshold matches Some(f) && f.val() == d,
            },
    {
        let hit = match self {
            OrderCondition::Always => Some(ConditionHit::without_distance()),
            OrderCondition::Never => None,
            OrderCondition::UserLtvAbove(threshold) => evaluate_stop_loss(
                obligation.loan_to_value(),
                *threshold,
                obligation.unhealthy_loan_to_value(),
            ),
            OrderCondition::UserLtvBelow(threshold) => {
                evaluate_take_profit(obligation.loan_to_value(), *threshold)
            },
            OrderCondition::DebtCollPriceRatioAbove(threshold) => {
                let price_ratio = calculate_price_ratio(debt_reserve, collateral_reserve);
                let liquidation_point = price_ratio.mul(obligation.unhealthy_loan_to_value()).div(
                    obligation.loan_to_value(),
                );
                evaluate_stop_loss(price_ratio, *threshold, liquidation_point)
            },
            OrderCondition::DebtCollPriceRatioBelow(threshold) => evaluate_take_profit(
                calculate_price_ratio(debt_reserve, collateral_reserve),
                *threshold,
            ),
            OrderCondition::LiquidationLtvCloserThan(threshold) => {
                let unhealthy_ltv = obligation.unhealthy_loan_to_value();
                evaluate_stop_loss(
                    obligation.loan_to_value(),
                    unhealthy_ltv.saturating_sub(*threshold),
                    unhealthy_ltv,
                )
            },
        };
        match hit {
            Some(h) => Ok(h),
            None => Err(LendingError::ObligationOrderConditionNotMet),
        }
    }
}

/// The bonus rate before capping: interpolated across the order's range at
/// the hit's distance, or the order's constant rate when the distance is
/// undefined.
pub open spec fn spec_theoretic_bonus_rate(order: ObligationOrder, hit: ConditionHit) -> int {
    let start = bps_val(order.min_execution_bonus_bps as int);
    let end = bps_val(order.max_execution_bonus_bps as int);
    match hit.normalized_distance_from_threshold {
        Some(d) => spec_interpolate(d.val(), start, end),
        None => start,
    }
}

/// The highest bonus rate that keeps the executor from pushing the
/// obligation into bad debt once the early-repay penalty is paid:
/// `(1 - no_bf_ltv - penalty) / (1 + penalty)`, each difference at least
/// zero.
pub open spec fn spec_max_bonus_rate(user_no_bf_ltv: int, penalty_rate: int) -> int {
    spec_div(
        spec_saturating_sub(spec_saturating_sub(scale(), user_no_bf_ltv), penalty_rate),
        scale() + penalty_rate,
    )
}

/// The executor's bonus rate: the theoretic rate capped at the highest rate
/// that keeps the obligation out of bad debt.
pub open spec fn spec_order_execution_bonus_rate(
    order: ObligationOrder,
    hit: ConditionHit,
    user_no_bf_ltv: int,
    penalty_rate: int,
) -> int {
    let theoretic = spec_theoretic_bonus_rate(order, hit);
    let max_rate = spec_max_bonus_rate(user_no_bf_ltv, penalty_rate);
    if theoretic > max_rate {
        max_rate
    } else {
        theoretic
    }
}

/// The executor's bonus rate for an order whose condition was hit; see
/// [`spec_order_execution_bonus_rate`]. An undefined distance needs a
/// constant bonus range; a defined one an ordered range.
pub fn calculate_order_execution_bonus_rate(
    order: &ObligationOrder,
    condition_hit: &ConditionHit,
    user_no_bf_ltv: Fraction,
    early_repay_penalty_rate: Fraction,
) -> (r: Fraction)
    requires
        scale() + early_repay_penalty_rate.val() <= u128::MAX,
        match condition_hit.normalized_distance_from_threshold {
            Some(d) => order.min_execution_bonus_bps <= order.max_execution_bonus_bps && spec_interpolate(
                d.val(),
                bps_val(order.min_execution_bonus_bps as int),
                bps_val(order.max_execution_bonus_bps as int),
            ) <= u128::MAX && spec_mul(
                d.val(),
                bps_val(order.max_execution_bonus_bps as int) - bps_val(
                    order.min_execution_bonus_bps as int,
                ),
            ) <= u128::MAX,
            None => bps_val(order.min_execution_bonus_bps as int) == bps_val(
                order.max_execution_bonus_bps as int,
            ),
        },
    ensures
        r.val() == spec_order_execution_bonus_rate(
            *order,
            *condition_hit,
            user_no_bf_ltv.val(),
            early_repay_penalty_rate.val(),
        ),
{
    let theoretic_bonus_rate = match condition_hit.normalized_distance_from_threshold {
        Some(normalized_distance_from_threshold) => {
            let (start, end) = order.execution_bonus_rate_range();
            proof {
                lemma_bps_monotonic(
                    order.min_execution_bonus_bps as int,
                    order.max_execution_bonus_bps as int,
                );
            }
            interpolate_bonus_rate(normalized_distance_from_threshold, start, end)
        },
        None => get_constant_bonus_rate(order),
    };
    let diff_to_bad_debt = Fraction::one().saturating_sub(user_no_bf_ltv);
    let penalty_factor = Fraction::one().add(early_repay_penalty_rate);
    let numerator = diff_to_bad_debt.saturating_sub(early_repay_penalty_rate);
    proof {
        assert(numerator.val() * scale() / penalty_factor.val() <= scale()) by (nonlinear_arith)
            requires
                0 <= numerator.val() <= scale(),
                penalty_factor.val() >= scale(),
                scale() > 0,
        ;
        assert(0 <= numerator.val() * scale() / penalty_factor.val()) by (nonlinear_arith)
            requires
                0 <= numerator.val(),
                penalty_factor.val() >= scale(),
                scale() > 0,
        ;
    }
    let max_bonus_rate = numerator.div(penalty_factor);
    if theoretic_bonus_rate.bits > max_bonus_rate.bits {
        max_bonus_rate
    } else {
        theoretic_bonus_rate
    }
}

proof fn lemma_bps_monotonic(a: int, b: int)
    requires
        0 <= a <= b,
    ensures
        bps_val(a) <= bps_val(b),
{
    assert(a * scale() <= b * scale()) by (nonlinear_arith)
        requires
            a <= b,
            scale() > 0,
    ;
    vstd::arithmetic::div_mod::lemma_div_is_ordered(a * scale(), b * scale(), 10000);
}

/// The constant bonus rate of an order whose range is a single value.
fn get_constant_bonus_rate(order: &ObligationOrder) -> (r: Fraction)
    requires
        bps_val(order.min_execution_bonus_bps as int) == bps_val(
            order.max_execution_bonus_bps as int,
        ),
    ensures
        r.val() == bps_val(order.min_execution_bonus_bps as int),
{
    let (start, _end) = order.execution_bonus_rate_range();
    start
}

/// The protocol's cut of an execution bonus, rounded up.
pub fn calculate_protocol_obligation_order_execution_fee(bonus_amount: Fraction, reserve: &Reserve) -> (r: u64)
    requires
        spec_mul(bonus_amount.val(), pct_val(reserve.config.protocol_order_execution_fee_pct as int))
            <= u128::MAX,
        ceil_int(
            spec_mul(bonus_amount.val(), pct_val(reserve.config.protocol_order_execution_fee_pct as int)),
        ) <= u64::MAX,
    ensures
        r == ceil_int(
            spec_mul(bonus_amount.val(), pct_val(reserve.config.protocol_order_execution_fee_pct as int)),
        ),
{
    bonus_amount.mul(reserve.config.protocol_order_execution_fee_rate()).to_ceil()
}

} // verus!



