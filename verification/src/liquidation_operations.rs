//! When an obligation may be liquidated or auto-deleveraged, with which bonus,
//! and how much debt is repaid and collateral seized.

use crate::consts::{DUST_LAMPORT_THRESHOLD, ELEVATION_GROUP_NONE, MIN_AUTODELEVERAGE_BONUS_BPS};
use crate::error::LendingError;
use crate::fraction::{bps_val, ceil_int, floor_int, pct_val, scale, spec_div, spec_mul, Fraction};
use crate::lending_market::LendingMarket;
use crate::obligation::{spec_saturating_sub, Obligation, ObligationCollateral, ObligationLiquidity};
use crate::reserve::{supply_computable, total_supply_val, Reserve, ReserveConfig};
use crate::types::{CalculateLiquidationResult, LiquidationParams, LiquidationReason};
use vstd::prelude::*;

verus! {

/// No-bf LTV (0.99, scaled) from which an obligation counts as bad debt.
pub const BAD_DEBT_LTV_THRESHOLD_SF: u128 = 1141392289560778506u128;

/// The smaller of two integers.
pub open spec fn min_int(a: int, b: int) -> int {
    if a <= b {
        a
    } else {
        b
    }
}

/// The larger of two integers.
pub open spec fn max_int(a: int, b: int) -> int {
    if a >= b {
        a
    } else {
        b
    }
}

/// `a / b` of scaled values is at most one when `a <= b`.
pub(crate) proof fn lemma_ratio_at_most_one(a: int, b: int)
    requires
        0 <= a <= b,
        b > 0,
    ensures
        0 <= spec_div(a, b) <= scale(),
{
    assert(0 <= a * scale() / b <= scale()) by (nonlinear_arith)
        requires
            0 <= a <= b,
            b > 0,
            scale() > 0,
    ;
}

/// Multiplying by a scaled value of at most one does not grow a value.
pub(crate) proof fn lemma_scaled_at_most(a: int, f: int)
    requires
        0 <= a,
        0 <= f <= scale(),
    ensures
        0 <= spec_mul(a, f) <= a,
{
    assert(0 <= a * f / scale() <= a) by (nonlinear_arith)
        requires
            0 <= a,
            0 <= f <= scale(),
            scale() > 0,
    ;
}

/// Rounding up a scaled value of at most `m` gives at most `m`.
pub(crate) proof fn lemma_ceil_at_most(x: int, m: int)
    requires
        0 <= x <= m * scale(),
        0 <= m,
    ensures
        0 <= ceil_int(x) <= m,
{
    vstd::arithmetic::div_mod::lemma_fundamental_div_mod(x, scale());
    assert(0 <= x / scale() <= m) by (nonlinear_arith)
        requires
            0 <= x <= m * scale(),
            scale() > 0,
    ;
    if x % scale() != 0 && x / scale() == m {
        assert(x == scale() * m + x % scale());
        assert(false);
    }
}

// ---------------------------------------------------------------------------
// Auto-deleveraging
// ---------------------------------------------------------------------------

/// Seconds since deleveraging started: the time since the margin call less
/// the margin call period, or `None` while the period runs.
pub fn get_secs_since_deleveraging_started(
    deleveraging_margin_call_period_secs: u64,
    secs_since_margin_call_started: u64,
) -> (r: Option<u64>)
    ensures
        secs_since_margin_call_started >= deleveraging_margin_call_period_secs ==> r == Some(
            (secs_since_margin_call_started - deleveraging_margin_call_period_secs) as u64,
        ),
        secs_since_margin_call_started < deleveraging_margin_call_period_secs ==> r is None,
{
    secs_since_margin_call_started.checked_sub(deleveraging_margin_call_period_secs)
}

/// The auto-deleveraging bonus: 50 bps plus the daily increase for every
/// day of deleveraging, capped by the configured maximum (the reserve's and
/// the elevation group's, whichever is lower) and by the distance to bad
/// debt.
pub open spec fn spec_autodeleverage_bonus(
    increase_bps_per_day: int,
    reserve_max_bonus_bps: int,
    emode_max_bonus_bps: int,
    days: int,
    user_no_bf_ltv: int,
) -> int {
    let bonus = bps_val(MIN_AUTODELEVERAGE_BONUS_BPS as int) + spec_mul(
        bps_val(increase_bps_per_day),
        days,
    );
    let effective_max = min_int(
        bps_val(min_int(reserve_max_bonus_bps, emode_max_bonus_bps)),
        spec_saturating_sub(scale(), user_no_bf_ltv),
    );
    if bonus > effective_max {
        effective_max
    } else {
        bonus
    }
}

/// Whether the uncapped auto-deleveraging bonus fits.
pub open spec fn autodeleverage_bonus_fits(increase_bps_per_day: int, days: int) -> bool {
    bps_val(MIN_AUTODELEVERAGE_BONUS_BPS as int) + spec_mul(bps_val(increase_bps_per_day), days)
        <= u128::MAX
}

/// The auto-deleveraging bonus after `days_since_deleveraging_started`; see
/// [`spec_autodeleverage_bonus`].
pub fn calculate_autodeleverage_bonus(
    deleveraging_bonus_increase_bps_per_day: u64,
    reserve_max_bonus_bps: u16,
    emode_max_liquidation_bonus_bps: u16,
    days_since_deleveraging_started: Fraction,
    user_no_bf_ltv: &Fraction,
) -> (r: Fraction)
    requires
        autodeleverage_bonus_fits(
            deleveraging_bonus_increase_bps_per_day as int,
            days_since_deleveraging_started.val(),
        ),
    ensures
        r.val() == spec_autodeleverage_bonus(
            deleveraging_bonus_increase_bps_per_day as int,
            reserve_max_bonus_bps as int,
            emode_max_liquidation_bonus_bps as int,
            days_since_deleveraging_started.val(),
            user_no_bf_ltv.val(),
        ),
{
    let static_min_bonus = Fraction::from_bps(MIN_AUTODELEVERAGE_BONUS_BPS);
    let daily_bonus_increase = Fraction::from_bps(deleveraging_bonus_increase_bps_per_day);
    proof {
        assert(0 <= daily_bonus_increase.val() * days_since_deleveraging_started.val())
            by (nonlinear_arith)
            requires
                0 <= daily_bonus_increase.val(),
                0 <= days_since_deleveraging_started.val(),
        ;
    }
    let liquidation_bonus = static_min_bonus.add(
        daily_bonus_increase.mul(days_since_deleveraging_started),
    );
    let max_bps = if reserve_max_bonus_bps <= emode_max_liquidation_bonus_bps {
        reserve_max_bonus_bps
    } else {
        emode_max_liquidation_bonus_bps
    };
    let configured_max_bonus = Fraction::from_bps(max_bps as u64);
    let diff_to_bad_debt = Fraction::one().saturating_sub(*user_no_bf_ltv);
    let effective_max_bonus = configured_max_bonus.min(diff_to_bad_debt);
    if liquidation_bonus.bits > effective_max_bonus.bits {
        effective_max_bonus
    } else {
        liquidation_bonus
    }
}

/// The auto-deleveraging LTV threshold: one, lowered by the reserve's daily
/// decrease for every day of deleveraging, zero at least.
pub open spec fn spec_autodeleverage_threshold(decrease_bps_per_day: int, days: int) -> int {
    spec_saturating_sub(scale(), spec_mul(bps_val(decrease_bps_per_day), days))
}

/// Whether the auto-deleveraging threshold reduction fits.
pub open spec fn autodeleverage_threshold_fits(decrease_bps_per_day: int, days: int) -> bool {
    spec_mul(bps_val(decrease_bps_per_day), days) <= u128::MAX
}

/// The reserve's auto-deleveraging LTV threshold after
/// `days_since_deleveraging_started`.
fn calculate_autodeleverage_threshold(
    autodeleverage_reserve: &Reserve,
    days_since_deleveraging_started: Fraction,
) -> (r: Fraction)
    requires
        autodeleverage_threshold_fits(
            autodeleverage_reserve.config.deleveraging_threshold_decrease_bps_per_day as int,
            days_since_deleveraging_started.val(),
        ),
    ensures
        r.val() == spec_autodeleverage_threshold(
            autodeleverage_reserve.config.deleveraging_threshold_decrease_bps_per_day as int,
            days_since_deleveraging_started.val(),
        ),
{
    let daily_ltv_threshold_decrease = Fraction::from_bps(
        autodeleverage_reserve.config.deleveraging_threshold_decrease_bps_per_day,
    );
    let ltv_threshold_reduction = daily_ltv_threshold_decrease.mul(days_since_deleveraging_started);
    Fraction::one().saturating_sub(ltv_threshold_reduction)
}

// ---------------------------------------------------------------------------
// Liquidation bonus
// ---------------------------------------------------------------------------

/// Whether a reserve's configuration lists the elevation group.
fn config_has_elevation_group(config: &ReserveConfig, group: u8) -> (r: bool)
    ensures
        r == config.elevation_groups@.contains(group),
{
    let mut i: usize = 0;
    while i < 20
        invariant
            0 <= i <= 20,
            forall|j: int| 0 <= j < i ==> config.elevation_groups@[j] != group,
        decreases 20 - i,
    {
        if config.elevation_groups[i] == group {
            assert(config.elevation_groups@[i as int] == group);
            return true;
        }
        i = i + 1;
    }
    false
}

/// Whether the obligation's elevation group applies to both reserves.
pub open spec fn emode_applies(
    collateral_config: ReserveConfig,
    debt_config: ReserveConfig,
    obligation: Obligation,
) -> bool {
    &&& obligation.elevation_group != ELEVATION_GROUP_NONE
    &&& collateral_config.elevation_groups@.contains(obligation.elevation_group)
    &&& debt_config.elevation_groups@.contains(obligation.elevation_group)
}

/// The elevation group's cap on the liquidation bonus: none (`u16::MAX`)
/// unless the group applies to both reserves and sets a nonzero cap below
/// both reserves' maximum bonuses.
pub open spec fn spec_emode_max_liquidation_bonus(
    lending_market: LendingMarket,
    collateral_config: ReserveConfig,
    debt_config: ReserveConfig,
    obligation: Obligation,
) -> int {
    if emode_applies(collateral_config, debt_config, obligation) {
        let g = lending_market.elevation_groups@[obligation.elevation_group - 1];
        if g.max_liquidation_bonus_bps > collateral_config.max_liquidation_bonus_bps
            || g.max_liquidation_bonus_bps > debt_config.max_liquidation_bonus_bps
            || g.max_liquidation_bonus_bps == 0 {
            u16::MAX as int
        } else {
            g.max_liquidation_bonus_bps as int
        }
    } else {
        u16::MAX as int
    }
}

/// Whether the elevation group cap can be looked up: an applying group is
/// within the market's table.
pub open spec fn emode_lookup_ok(
    collateral_config: ReserveConfig,
    debt_config: ReserveConfig,
    obligation: Obligation,
) -> bool {
    emode_applies(collateral_config, debt_config, obligation) ==> obligation.elevation_group <= 32
}

/// The elevation group's cap on the liquidation bonus; see
/// [`spec_emode_max_liquidation_bonus`].
fn get_emode_max_liquidation_bonus(
    lending_market: &LendingMarket,
    collateral_reserve: &ReserveConfig,
    debt_reserve: &ReserveConfig,
    obligation: &Obligation,
) -> (r: u16)
    requires
        emode_lookup_ok(*collateral_reserve, *debt_reserve, *obligation),
    ensures
        r == spec_emode_max_liquidation_bonus(
            *lending_market,
            *collateral_reserve,
            *debt_reserve,
            *obligation,
        ),
{
    if obligation.elevation_group != ELEVATION_GROUP_NONE && config_has_elevation_group(
        collateral_reserve,
        obligation.elevation_group,
    ) && config_has_elevation_group(debt_reserve, obligation.elevation_group) {
        let elevation_group = lending_market.get_elevation_group(
            obligation.elevation_group,
        ).unwrap().unwrap();
        if elevation_group.max_liquidation_bonus_bps > collateral_reserve.max_liquidation_bonus_bps
            || elevation_group.max_liquidation_bonus_bps > debt_reserve.max_liquidation_bonus_bps
            || elevation_group.max_liquidation_bonus_bps == 0 {
            u16::MAX
        } else {
            elevation_group.max_liquidation_bonus_bps
        }
    } else {
        u16::MAX
    }
}

/// The liquidation bonus rate. A bad-debt obligation (no-bf LTV of at
/// least 0.99) gets the lower of the reserves' bad-debt bonuses, raised to
/// the distance to bad debt while below one. Otherwise the bonus is how far
/// the LTV is past the allowed one, kept between the higher minimum bonus of
/// the reserves and the higher maximum (itself capped by the elevation
/// group), and capped by the distance to bad debt.
pub open spec fn spec_liquidation_bonus(
    collateral_config: ReserveConfig,
    debt_config: ReserveConfig,
    max_allowed_ltv: int,
    user_ltv: int,
    user_no_bf_ltv: int,
    emode_max_bonus_bps: int,
) -> int {
    if user_no_bf_ltv >= BAD_DEBT_LTV_THRESHOLD_SF {
        let bad_debt_bonus = bps_val(
            min_int(
                collateral_config.bad_debt_liquidation_bonus_bps as int,
                debt_config.bad_debt_liquidation_bonus_bps as int,
            ),
        );
        if user_no_bf_ltv < scale() {
            max_int(bad_debt_bonus, scale() - user_no_bf_ltv)
        } else {
            bad_debt_bonus
        }
    } else {
        let unhealthy_factor = user_ltv - max_allowed_ltv;
        let max_bonus = bps_val(
            min_int(
                max_int(
                    collateral_config.max_liquidation_bonus_bps as int,
                    debt_config.max_liquidation_bonus_bps as int,
                ),
                emode_max_bonus_bps,
            ),
        );
        let min_reserve_bonus = bps_val(
            max_int(
                collateral_config.min_liquidation_bonus_bps as int,
                debt_config.min_liquidation_bonus_bps as int,
            ),
        );
        let min_bonus = max_int(min_reserve_bonus, unhealthy_factor);
        let collared_bonus = min_int(min_bonus, max_bonus);
        min_int(collared_bonus, scale() - user_no_bf_ltv)
    }
}

/// The liquidation bonus rate of an obligation whose LTV reached the
/// allowed one; see [`spec_liquidation_bonus`].
fn calculate_liquidation_bonus(
    collateral_reserve_config: &ReserveConfig,
    debt_reserve_config: &ReserveConfig,
    max_allowed_ltv: Fraction,
    user_ltv: Fraction,
    user_no_bf_ltv: Fraction,
    emode_max_liquidation_bonus_bps: u16,
) -> (r: Fraction)
    requires
        user_ltv.val() >= max_allowed_ltv.val(),
    ensures
        r.val() == spec_liquidation_bonus(
            *collateral_reserve_config,
            *debt_reserve_config,
            max_allowed_ltv.val(),
            user_ltv.val(),
            user_no_bf_ltv.val(),
            emode_max_liquidation_bonus_bps as int,
        ),
{
    let bad_debt_ltv = Fraction::one();
    if user_no_bf_ltv.bits >= BAD_DEBT_LTV_THRESHOLD_SF {
        let bad_debt_bps = if collateral_reserve_config.bad_debt_liquidation_bonus_bps
            <= debt_reserve_config.bad_debt_liquidation_bonus_bps {
            collateral_reserve_config.bad_debt_liquidation_bonus_bps
        } else {
            debt_reserve_config.bad_debt_liquidation_bonus_bps
        };
        let liquidation_bonus_bad_debt = Fraction::from_bps(bad_debt_bps as u64);
        let capped_bonus = if user_no_bf_ltv.bits < bad_debt_ltv.bits {
            let diff_to_bad_debt = bad_debt_ltv.sub(user_no_bf_ltv);
            liquidation_bonus_bad_debt.max(diff_to_bad_debt)
        } else {
            liquidation_bonus_bad_debt
        };
        return capped_bonus;
    }
    let unhealthy_factor = user_ltv.sub(max_allowed_ltv);
    let higher_max_bps = if collateral_reserve_config.max_liquidation_bonus_bps
        >= debt_reserve_config.max_liquidation_bonus_bps {
        collateral_reserve_config.max_liquidation_bonus_bps
    } else {
        debt_reserve_config.max_liquidation_bonus_bps
    };
    let max_bonus_bps = if higher_max_bps <= emode_max_liquidation_bonus_bps {
        higher_max_bps
    } else {
        emode_max_liquidation_bonus_bps
    };
    let max_bonus = Fraction::from_bps(max_bonus_bps as u64);
    let min_reserve_bonus_bps = if collateral_reserve_config.min_liquidation_bonus_bps
        >= debt_reserve_config.min_liquidation_bonus_bps {
        collateral_reserve_config.min_liquidation_bonus_bps
    } else {
        debt_reserve_config.min_liquidation_bonus_bps
    };
    let min_reserve_bonus = Fraction::from_bps(min_reserve_bonus_bps as u64);
    let min_bonus = min_reserve_bonus.max(unhealthy_factor);
    let collared_bonus = min_bonus.min(max_bonus);
    let diff_to_bad_debt = bad_debt_ltv.sub(user_no_bf_ltv);
    collared_bonus.min(diff_to_bad_debt)
}

/// The protocol's fee on a liquidation: its percentage of the bonus part of
/// the liquidated amount (the amount less the amount over the bonus
/// factor), rounded up, and at least one.
pub open spec fn spec_protocol_liquidation_fee(
    amount_liquidated: int,
    liquidation_bonus: int,
    protocol_liquidation_fee_pct: int,
) -> int {
    let amount = amount_liquidated * scale();
    let bonus = amount - spec_div(amount, liquidation_bonus + scale());
    max_int(ceil_int(spec_mul(bonus, pct_val(protocol_liquidation_fee_pct))), 1)
}

/// The protocol's fee on a liquidation; see [`spec_protocol_liquidation_fee`].
pub fn calculate_protocol_liquidation_fee(
    amount_liquidated: u64,
    liquidation_bonus: Fraction,
    protocol_liquidation_fee_pct: u8,
) -> (r: u64)
    requires
        liquidation_bonus.val() + scale() <= u128::MAX,
        ceil_int(
            spec_mul(
                amount_liquidated * scale() - spec_div(
                    amount_liquidated * scale(),
                    liquidation_bonus.val() + scale(),
                ),
                pct_val(protocol_liquidation_fee_pct as int),
            ),
        ) <= u64::MAX,
    ensures
        r == spec_protocol_liquidation_fee(
            amount_liquidated as int,
            liquidation_bonus.val(),
            protocol_liquidation_fee_pct as int,
        ),
{
    let protocol_liquidation_fee_rate = Fraction::from_percent(protocol_liquidation_fee_pct as u64);
    let amount = Fraction::from_num(amount_liquidated);
    let bonus_rate = liquidation_bonus.add(Fraction::one());
    proof {
        assert(0 <= amount.val() * scale() / bonus_rate.val() <= amount.val()) by (nonlinear_arith)
            requires
                0 <= amount.val(),
                bonus_rate.val() >= scale(),
                scale() > 0,
        ;
    }
    let bonus = amount.sub(amount.div(bonus_rate));
    proof {
        assert(bonus.val() <= u64::MAX * scale());
        assert(0 <= bonus.val() * protocol_liquidation_fee_rate.val() / scale() <= u128::MAX)
            by (nonlinear_arith)
            requires
                0 <= bonus.val() <= u64::MAX * scale(),
                0 <= protocol_liquidation_fee_rate.val() <= 3 * scale(),
                scale() == 1152921504606846976,
        ;
    }
    let protocol_fee: u64 = bonus.mul(protocol_liquidation_fee_rate).to_ceil();
    if protocol_fee >= 1 {
        protocol_fee
    } else {
        1
    }
}

// ---------------------------------------------------------------------------
// Liquidation amounts
// ---------------------------------------------------------------------------

/// The share of the obligation's debt value that one liquidation may close:
/// all of it past the insolvency-risk LTV, else the close factor.
pub open spec fn spec_close_factor_rate(user_ltv: int, close_factor_pct: int, insolvency_risk_ltv_pct: int) -> int {
    if user_ltv > pct_val(insolvency_risk_ltv_pct) {
        scale()
    } else {
        pct_val(close_factor_pct)
    }
}

/// The largest value of one borrow that one liquidation may repay: the
/// closable share of the total debt value, at most the borrow's value and the
/// market's per-liquidation cap.
pub open spec fn spec_max_liquidatable_value(
    total_debt_value: int,
    borrow_value: int,
    rate: int,
    market_max_value: int,
) -> int {
    min_int(min_int(spec_mul(total_debt_value, rate), borrow_value), market_max_value * scale())
}

/// The largest amount of a borrow that one liquidation may repay: the
/// borrowed amount times the share of the borrow's value that may be repaid.
pub open spec fn spec_max_liquidatable_amount(
    obligation: Obligation,
    close_factor_pct: int,
    market_max_value: int,
    liquidity: ObligationLiquidity,
    user_ltv: int,
    insolvency_risk_ltv_pct: int,
) -> int {
    let rate = spec_close_factor_rate(user_ltv, close_factor_pct, insolvency_risk_ltv_pct);
    let max_value = spec_max_liquidatable_value(
        obligation.borrowed_assets_market_value_sf as int,
        liquidity.market_value_sf as int,
        rate,
        market_max_value,
    );
    spec_mul(liquidity.borrowed_amount_sf as int, spec_div(max_value, liquidity.market_value_sf as int))
}

/// Whether the closable share of the debt value fits.
pub open spec fn max_liquidatable_fits(
    obligation: Obligation,
    close_factor_pct: int,
    user_ltv: int,
    insolvency_risk_ltv_pct: int,
) -> bool {
    spec_mul(
        obligation.borrowed_assets_market_value_sf as int,
        spec_close_factor_rate(user_ltv, close_factor_pct, insolvency_risk_ltv_pct),
    ) <= u128::MAX
}

/// The largest amount of `liquidity` that one liquidation may repay; see
/// [`spec_max_liquidatable_amount`]. The borrow must have a market value.
pub fn max_liquidatable_borrowed_amount(
    obligation: &Obligation,
    liquidation_max_debt_close_factor_pct: u8,
    market_max_liquidatable_debt_value_at_once: u64,
    liquidity: &ObligationLiquidity,
    user_ltv: Fraction,
    insolvency_risk_ltv_pct: u8,
) -> (r: Fraction)
    requires
        liquidity.market_value_sf > 0,
        max_liquidatable_fits(
            *obligation,
            liquidation_max_debt_close_factor_pct as int,
            user_ltv.val(),
            insolvency_risk_ltv_pct as int,
        ),
    ensures
        r.val() == spec_max_liquidatable_amount(
            *obligation,
            liquidation_max_debt_close_factor_pct as int,
            market_max_liquidatable_debt_value_at_once as int,
            *liquidity,
            user_ltv.val(),
            insolvency_risk_ltv_pct as int,
        ),
        r.val() <= liquidity.borrowed_amount_sf,
{
    let obligation_debt_for_liquidity_mv = Fraction::from_bits(liquidity.market_value_sf);
    let total_obligation_debt_mv = Fraction::from_bits(obligation.borrowed_assets_market_value_sf);
    let liquidation_max_debt_close_factor_rate = if user_ltv.bits > Fraction::from_percent(
        insolvency_risk_ltv_pct as u64,
    ).bits {
        Fraction::one()
    } else {
        Fraction::from_percent(liquidation_max_debt_close_factor_pct as u64)
    };
    let market_max = Fraction::from_num(market_max_liquidatable_debt_value_at_once);
    let calculated_liquidatable_mv = total_obligation_debt_mv.mul(
        liquidation_max_debt_close_factor_rate,
    );
    let max_liquidatable_mv = calculated_liquidatable_mv.min(obligation_debt_for_liquidity_mv).min(
        market_max,
    );
    proof {
        lemma_ratio_at_most_one(max_liquidatable_mv.val(), obligation_debt_for_liquidity_mv.val());
    }
    let max_liquidation_ratio = max_liquidatable_mv.div(obligation_debt_for_liquidity_mv);
    let borrowed_amount = Fraction::from_bits(liquidity.borrowed_amount_sf);
    proof {
        lemma_scaled_at_most(borrowed_amount.val(), max_liquidation_ratio.val());
    }
    borrowed_amount.mul(max_liquidation_ratio)
}

/// What a liquidation settles, repays and seizes, given the value to seize
/// (bonus included). When that value exceeds the collateral's, all of the
/// collateral is seized and the debt settled shrinks in proportion (unless
/// the whole borrow must go); otherwise the whole liquidated debt is settled
/// and the collateral seized in proportion to the value, rounded down (at
/// least one unit on a full liquidation).
pub open spec fn spec_liquidation_amounts(
    total_value: int,
    collateral: ObligationCollateral,
    debt_liquidation_amount: int,
    is_below_min_full_liquidation_value_threshold: bool,
) -> (int, int, int) {
    let collateral_value = collateral.market_value_sf as int;
    if total_value > collateral_value {
        let repay_amount_f = spec_mul(
            debt_liquidation_amount,
            spec_div(collateral_value, total_value),
        );
        let settle = if is_below_min_full_liquidation_value_threshold {
            debt_liquidation_amount
        } else {
            repay_amount_f
        };
        (settle, ceil_int(settle), collateral.deposited_amount as int)
    } else if total_value == collateral_value {
        (
            debt_liquidation_amount,
            ceil_int(debt_liquidation_amount),
            collateral.deposited_amount as int,
        )
    } else {
        let withdraw_f = spec_mul(
            collateral.deposited_amount * scale(),
            spec_div(total_value, collateral_value),
        );
        let withdraw = if is_below_min_full_liquidation_value_threshold && withdraw_f
            < DUST_LAMPORT_THRESHOLD * scale() {
            DUST_LAMPORT_THRESHOLD as int
        } else {
            floor_int(withdraw_f)
        };
        (debt_liquidation_amount, ceil_int(debt_liquidation_amount), withdraw)
    }
}

/// What a liquidation settles, repays and seizes; see
/// [`spec_liquidation_amounts`]. The liquidated debt amount is at most
/// `u64::MAX` units.
fn calculate_liquidation_amounts(
    total_liquidation_value_including_bonus: Fraction,
    collateral: &ObligationCollateral,
    debt_liquidation_amount: Fraction,
    is_below_min_full_liquidation_value_threshold: bool,
) -> (r: (Fraction, u64, u64))
    requires
        debt_liquidation_amount.val() <= u64::MAX * scale(),
    ensures
        (r.0.val(), r.1 as int, r.2 as int) == spec_liquidation_amounts(
            total_liquidation_value_including_bonus.val(),
            *collateral,
            debt_liquidation_amount.val(),
            is_below_min_full_liquidation_value_threshold,
        ),
        r.0.val() <= debt_liquidation_amount.val(),
{
    let collateral_value = Fraction::from_bits(collateral.market_value_sf);
    proof {
        lemma_ceil_at_most(debt_liquidation_amount.val(), u64::MAX as int);
    }
    if total_liquidation_value_including_bonus.bits > collateral_value.bits {
        proof {
            lemma_ratio_at_most_one(collateral_value.val(), total_liquidation_value_including_bonus.val());
        }
        let repay_ratio = collateral_value.div(total_liquidation_value_including_bonus);
        proof {
            lemma_scaled_at_most(debt_liquidation_amount.val(), repay_ratio.val());
        }
        let repay_amount_f = debt_liquidation_amount.mul(repay_ratio);
        let settle_amount = if is_below_min_full_liquidation_value_threshold {
            debt_liquidation_amount
        } else {
            repay_amount_f
        };
        proof {
            lemma_ceil_at_most(settle_amount.val(), u64::MAX as int);
        }
        let repay_amount = settle_amount.to_ceil();
        let withdraw_amount = collateral.deposited_amount;
        (settle_amount, repay_amount, withdraw_amount)
    } else if total_liquidation_value_including_bonus.bits == collateral_value.bits {
        let settle_amount = debt_liquidation_amount;
        let repay_amount = settle_amount.to_ceil();
        let withdraw_amount = collateral.deposited_amount;
        (settle_amount, repay_amount, withdraw_amount)
    } else {
        let settle_amount = debt_liquidation_amount;
        let repay_amount = settle_amount.to_ceil();
        proof {
            lemma_ratio_at_most_one(total_liquidation_value_including_bonus.val(), collateral_value.val());
        }
        let withdraw_pct = total_liquidation_value_including_bonus.div(collateral_value);
        let deposited = Fraction::from_num(collateral.deposited_amount);
        proof {
            lemma_scaled_at_most(deposited.val(), withdraw_pct.val());
            assert(floor_int(deposited.val()) == collateral.deposited_amount) by (nonlinear_arith)
                requires
                    deposited.val() == collateral.deposited_amount * scale(),
                    scale() > 0,
            ;
            vstd::arithmetic::div_mod::lemma_div_is_ordered(
                deposited.val() * withdraw_pct.val() / scale(),
                deposited.val(),
                scale(),
            );
        }
        let withdraw_amount_f = deposited.mul(withdraw_pct);
        let withdraw_amount = if is_below_min_full_liquidation_value_threshold
            && withdraw_amount_f.bits < Fraction::from_num(DUST_LAMPORT_THRESHOLD).bits {
            DUST_LAMPORT_THRESHOLD
        } else {
            withdraw_amount_f.to_floor()
        };
        (settle_amount, repay_amount, withdraw_amount)
    }
}

// ---------------------------------------------------------------------------
// Eligibility
// ---------------------------------------------------------------------------

/// Whether the obligation's three LTV ratios can be computed.
pub open spec fn obligation_ratios_ok(o: Obligation) -> bool {
    &&& o.deposited_value_sf > 0
    &&& o.spec_ltv() <= u128::MAX
    &&& o.spec_no_bf_ltv() <= u128::MAX
    &&& o.spec_unhealthy_ltv() <= u128::MAX
}

/// The LTV at which liquidation starts: the override percentage if given,
/// else the obligation's unhealthy LTV.
pub open spec fn spec_max_allowed_ltv(o: Obligation, max_allowed_ltv_override_pct_opt: Option<u64>) -> int {
    match max_allowed_ltv_override_pct_opt {
        Some(p) => pct_val(p as int),
        None => o.spec_unhealthy_ltv(),
    }
}

/// A liquidation's parameters from its LTV, bonus and reason.
pub open spec fn params_of(user_ltv: int, bonus: int, reason: LiquidationReason) -> LiquidationParams {
    LiquidationParams {
        user_ltv: Fraction { bits: user_ltv as u128 },
        liquidation_bonus_rate: Fraction { bits: bonus as u128 },
        liquidation_reason: reason,
    }
}

/// Liquidation parameters when the obligation's LTV reached the allowed
/// one, else `None`.
pub open spec fn spec_check_liquidate(
    lending_market: LendingMarket,
    collateral_reserve: Reserve,
    debt_reserve: Reserve,
    o: Obligation,
    max_allowed_ltv_override_pct_opt: Option<u64>,
) -> Option<LiquidationParams> {
    let user_ltv = o.spec_ltv();
    let max_allowed_ltv = spec_max_allowed_ltv(o, max_allowed_ltv_override_pct_opt);
    if user_ltv >= max_allowed_ltv {
        Some(
            params_of(
                user_ltv,
                spec_liquidation_bonus(
                    collateral_reserve.config,
                    debt_reserve.config,
                    max_allowed_ltv,
                    user_ltv,
                    o.spec_no_bf_ltv(),
                    spec_emode_max_liquidation_bonus(
                        lending_market,
                        collateral_reserve.config,
                        debt_reserve.config,
                        o,
                    ),
                ),
                LiquidationReason::LtvExceeded,
            ),
        )
    } else {
        None
    }
}

/// Liquidation parameters when the obligation's LTV reached the allowed one
/// (the override percentage, if given, else its unhealthy LTV); see
/// [`spec_check_liquidate`].
pub fn check_liquidate_obligation(
    lending_market: &LendingMarket,
    collateral_reserve: &Reserve,
    debt_reserve: &Reserve,
    obligation: &Obligation,
    max_allowed_ltv_override_pct_opt: Option<u64>,
) -> (r: Option<LiquidationParams>)
    requires
        obligation_ratios_ok(*obligation),
        emode_lookup_ok(collateral_reserve.config, debt_reserve.config, *obligation),
    ensures
        r == spec_check_liquidate(
            *lending_market,
            *collateral_reserve,
            *debt_reserve,
            *obligation,
            max_allowed_ltv_override_pct_opt,
        ),
{
    let user_ltv = obligation.loan_to_value();
    let user_no_bf_ltv = obligation.no_bf_loan_to_value();
    let max_allowed_ltv_user = obligation.unhealthy_loan_to_value();
    let max_allowed_ltv = match max_allowed_ltv_override_pct_opt {
        Some(p) => Fraction::from_percent(p),
        None => max_allowed_ltv_user,
    };
    if user_ltv.bits >= max_allowed_ltv.bits {
        let emode_max_liquidation_bonus_bps = get_emode_max_liquidation_bonus(
            lending_market,
            &collateral_reserve.config,
            &debt_reserve.config,
            obligation,
        );
        let bonus = calculate_liquidation_bonus(
            &collateral_reserve.config,
            &debt_reserve.config,
            max_allowed_ltv,
            user_ltv,
            user_no_bf_ltv,
            emode_max_liquidation_bonus_bps,
        );
        return Some(
            LiquidationParams {
                user_ltv,
                liquidation_bonus_rate: bonus,
                liquidation_reason: LiquidationReason::LtvExceeded,
            },
        );
    }
    None
}

/// Days spanned by a number of seconds, scaled and rounded down.
pub open spec fn days_of(secs: int) -> int {
    secs * scale() / 86400
}

/// Of two reserve configurations, the one with the higher maximum
/// liquidation bonus, then the higher daily bonus increase; the second on a
/// tie.
pub open spec fn spec_selected_config(c: ReserveConfig, d: ReserveConfig) -> ReserveConfig {
    if c.max_liquidation_bonus_bps > d.max_liquidation_bonus_bps || (c.max_liquidation_bonus_bps
        == d.max_liquidation_bonus_bps && c.deleveraging_bonus_increase_bps_per_day
        > d.deleveraging_bonus_increase_bps_per_day) {
        c
    } else {
        d
    }
}

/// Seconds since an obligation's own deleveraging started, when its margin
/// call period has run out.
pub open spec fn spec_individual_secs(lending_market: LendingMarket, o: Obligation, timestamp: u64) -> Option<int> {
    let since_margin_call = spec_saturating_sub(
        timestamp as int,
        o.autodeleverage_margin_call_started_timestamp as int,
    );
    if since_margin_call >= lending_market.individual_autodeleverage_margin_call_period_secs {
        Some(since_margin_call - lending_market.individual_autodeleverage_margin_call_period_secs)
    } else {
        None
    }
}

/// Parameters of an obligation's own auto-deleveraging: it must be marked,
/// the feature enabled and configured, its LTV above its target, and its
/// margin call period over; the bonus grows with the days of deleveraging,
/// from the reserve configuration chosen by [`spec_selected_config`].
pub open spec fn spec_check_individual(
    lending_market: LendingMarket,
    collateral_reserve: Reserve,
    debt_reserve: Reserve,
    o: Obligation,
    timestamp: u64,
) -> Option<LiquidationParams> {
    if o.autodeleverage_margin_call_started_timestamp == 0 || lending_market.autodeleverage_enabled
        == 0 || lending_market.individual_autodeleverage_margin_call_period_secs == 0 {
        None
    } else if o.spec_ltv() <= pct_val(o.autodeleverage_target_ltv_pct as int) {
        None
    } else {
        match spec_individual_secs(lending_market, o, timestamp) {
            None => None,
            Some(secs) => {
                let sel = spec_selected_config(collateral_reserve.config, debt_reserve.config);
                Some(
                    params_of(
                        o.spec_ltv(),
                        spec_autodeleverage_bonus(
                            sel.deleveraging_bonus_increase_bps_per_day as int,
                            sel.max_liquidation_bonus_bps as int,
                            spec_emode_max_liquidation_bonus(
                                lending_market,
                                collateral_reserve.config,
                                debt_reserve.config,
                                o,
                            ),
                            days_of(secs),
                            o.spec_no_bf_ltv(),
                        ),
                        LiquidationReason::IndividualDeleveraging,
                    ),
                )
            },
        }
    }
}

/// Whether the individual auto-deleveraging bonus fits, when reached.
pub open spec fn individual_fits(
    lending_market: LendingMarket,
    collateral_reserve: Reserve,
    debt_reserve: Reserve,
    o: Obligation,
    timestamp: u64,
) -> bool {
    match spec_individual_secs(lending_market, o, timestamp) {
        None => true,
        Some(secs) => autodeleverage_bonus_fits(
            spec_selected_config(
                collateral_reserve.config,
                debt_reserve.config,
            ).deleveraging_bonus_increase_bps_per_day as int,
            days_of(secs),
        ),
    }
}

/// Parameters of an obligation's own auto-deleveraging; see
/// [`spec_check_individual`].
fn check_individual_autodeleverage_obligation(
    lending_market: &LendingMarket,
    collateral_reserve: &Reserve,
    debt_reserve: &Reserve,
    obligation: &Obligation,
    timestamp: u64,
) -> (r: Option<LiquidationParams>)
    requires
        obligation_ratios_ok(*obligation),
        emode_lookup_ok(collateral_reserve.config, debt_reserve.config, *obligation),
        individual_fits(*lending_market, *collateral_reserve, *debt_reserve, *obligation, timestamp),
    ensures
        r == spec_check_individual(
            *lending_market,
            *collateral_reserve,
            *debt_reserve,
            *obligation,
            timestamp,
        ),
{
    if !obligation.is_marked_for_deleveraging() {
        return None;
    }
    if !lending_market.is_autodeleverage_enabled() {
        return None;
    }
    if lending_market.individual_autodeleverage_margin_call_period_secs == 0 {
        return None;
    }
    let user_ltv = obligation.loan_to_value();
    let autodeleverage_target_ltv = Fraction::from_percent(
        obligation.autodeleverage_target_ltv_pct as u64,
    );
    if user_ltv.bits <= autodeleverage_target_ltv.bits {
        return None;
    }
    let secs_since_margin_call_started = timestamp.saturating_sub(
        obligation.autodeleverage_margin_call_started_timestamp,
    );
    let secs_since_deleveraging_started = get_secs_since_deleveraging_started(
        lending_market.individual_autodeleverage_margin_call_period_secs,
        secs_since_margin_call_started,
    )?;
    let days_since_deleveraging_started = crate::secs::to_days_fractional(
        secs_since_deleveraging_started,
    );
    let collateral_config = &collateral_reserve.config;
    let debt_config = &debt_reserve.config;
    let selected_reserve_config = if collateral_config.max_liquidation_bonus_bps
        > debt_config.max_liquidation_bonus_bps || (collateral_config.max_liquidation_bonus_bps
        == debt_config.max_liquidation_bonus_bps
        && collateral_config.deleveraging_bonus_increase_bps_per_day
        > debt_config.deleveraging_bonus_increase_bps_per_day) {
        collateral_config
    } else {
        debt_config
    };
    let emode_max = get_emode_max_liquidation_bonus(
        lending_market,
        &collateral_reserve.config,
        &debt_reserve.config,
        obligation,
    );
    let liquidation_bonus_rate = calculate_autodeleverage_bonus(
        selected_reserve_config.deleveraging_bonus_increase_bps_per_day,
        selected_reserve_config.max_liquidation_bonus_bps,
        emode_max,
        days_since_deleveraging_started,
        &obligation.no_bf_loan_to_value(),
    );
    Some(
        LiquidationParams {
            user_ltv,
            liquidation_bonus_rate,
            liquidation_reason: LiquidationReason::IndividualDeleveraging,
        },
    )
}

/// Seconds since a reserve's deposit-limit deleveraging started: the
/// deposit limit must be crossed, the crossing time recorded, and the margin
/// call period over.
pub open spec fn spec_collateral_deleveraging_secs(reserve: Reserve, timestamp: u64) -> Option<int> {
    if total_supply_val(reserve.liquidity) > reserve.config.deposit_limit * scale() {
        if reserve.liquidity.deposit_limit_crossed_timestamp == 0 {
            None
        } else {
            let since = spec_saturating_sub(
                timestamp as int,
                reserve.liquidity.deposit_limit_crossed_timestamp as int,
            );
            if since >= reserve.config.deleveraging_margin_call_period_secs {
                Some(since - reserve.config.deleveraging_margin_call_period_secs)
            } else {
                None
            }
        }
    } else {
        None
    }
}

/// Seconds since a reserve's borrow-limit deleveraging started: the borrow
/// limit must be crossed, the crossing time recorded, and the margin call
/// period over.
pub open spec fn spec_debt_deleveraging_secs(reserve: Reserve, timestamp: u64) -> Option<int> {
    if reserve.liquidity.borrowed_amount_sf > reserve.config.borrow_limit * scale() {
        if reserve.liquidity.borrow_limit_crossed_timestamp == 0 {
            None
        } else {
            let since = spec_saturating_sub(
                timestamp as int,
                reserve.liquidity.borrow_limit_crossed_timestamp as int,
            );
            if since >= reserve.config.deleveraging_margin_call_period_secs {
                Some(since - reserve.config.deleveraging_margin_call_period_secs)
            } else {
                None
            }
        }
    } else {
        None
    }
}

/// Seconds since a reserve's deposit-limit deleveraging started; see
/// [`spec_collateral_deleveraging_secs`].
fn get_secs_since_autodeleverage_obligation_collateral_deposit_limit_crossed(
    collateral_reserve: &Reserve,
    timestamp: u64,
) -> (r: Option<u64>)
    requires
        supply_computable(collateral_reserve.liquidity),
    ensures
        r matches Some(v) ==> spec_collateral_deleveraging_secs(*collateral_reserve, timestamp)
            == Some(v as int),
        r is None ==> spec_collateral_deleveraging_secs(*collateral_reserve, timestamp) is None,
{
    if collateral_reserve.deposit_limit_crossed() {
        if collateral_reserve.liquidity.deposit_limit_crossed_timestamp == 0 {
            None
        } else {
            let secs_since_margin_call_started = timestamp.saturating_sub(
                collateral_reserve.liquidity.deposit_limit_crossed_timestamp,
            );
            get_secs_since_deleveraging_started(
                collateral_reserve.config.deleveraging_margin_call_period_secs,
                secs_since_margin_call_started,
            )
        }
    } else {
        None
    }
}

/// Seconds since a reserve's borrow-limit deleveraging started; see
/// [`spec_debt_deleveraging_secs`].
fn get_secs_since_autodeleverage_obligation_debt_borrow_limit_crossed(
    debt_reserve: &Reserve,
    timestamp: u64,
) -> (r: Option<u64>)
    ensures
        r matches Some(v) ==> spec_debt_deleveraging_secs(*debt_reserve, timestamp) == Some(
            v as int,
        ),
        r is None ==> spec_debt_deleveraging_secs(*debt_reserve, timestamp) is None,
{
    if debt_reserve.borrow_limit_crossed() {
        if debt_reserve.liquidity.borrow_limit_crossed_timestamp == 0 {
            None
        } else {
            let secs_since_margin_call_started = timestamp.saturating_sub(
                debt_reserve.liquidity.borrow_limit_crossed_timestamp,
            );
            get_secs_since_deleveraging_started(
                debt_reserve.config.deleveraging_margin_call_period_secs,
                secs_since_margin_call_started,
            )
        }
    } else {
        None
    }
}

/// Market-wide auto-deleveraging parameters for a reserve whose
/// deleveraging started `secs` ago: the obligation qualifies once its LTV
/// reaches the reserve's lowered threshold.
pub open spec fn spec_autodeleverage_params(reserve: Reserve, o: Obligation, secs: int) -> Option<LiquidationParams> {
    let days = days_of(secs);
    let threshold = spec_autodeleverage_threshold(
        reserve.config.deleveraging_threshold_decrease_bps_per_day as int,
        days,
    );
    if o.spec_ltv() >= threshold {
        Some(
            params_of(
                o.spec_ltv(),
                spec_autodeleverage_bonus(
                    reserve.config.deleveraging_bonus_increase_bps_per_day as int,
                    reserve.config.max_liquidation_bonus_bps as int,
                    u16::MAX as int,
                    days,
                    o.spec_no_bf_ltv(),
                ),
                LiquidationReason::MarketWideDeleveraging,
            ),
        )
    } else {
        None
    }
}

/// Whether a reserve's market-wide deleveraging values fit after `secs`.
pub open spec fn autodeleverage_params_fit(reserve: Reserve, secs: int) -> bool {
    &&& autodeleverage_threshold_fits(
        reserve.config.deleveraging_threshold_decrease_bps_per_day as int,
        days_of(secs),
    )
    &&& autodeleverage_bonus_fits(
        reserve.config.deleveraging_bonus_increase_bps_per_day as int,
        days_of(secs),
    )
}

/// Market-wide auto-deleveraging parameters for a reserve; see
/// [`spec_autodeleverage_params`].
fn get_autodeleverage_liquidation_params(
    autodeleverage_reserve: &Reserve,
    obligation: &Obligation,
    secs_since_deleveraging_started: u64,
) -> (r: Option<LiquidationParams>)
    requires
        obligation_ratios_ok(*obligation),
        autodeleverage_params_fit(*autodeleverage_reserve, secs_since_deleveraging_started as int),
    ensures
        r == spec_autodeleverage_params(
            *autodeleverage_reserve,
            *obligation,
            secs_since_deleveraging_started as int,
        ),
{
    let days_since_deleveraging_started = crate::secs::to_days_fractional(
        secs_since_deleveraging_started,
    );
    let autodeleverage_ltv_threshold = calculate_autodeleverage_threshold(
        autodeleverage_reserve,
        days_since_deleveraging_started,
    );
    let user_ltv = obligation.loan_to_value();
    if user_ltv.bits >= autodeleverage_ltv_threshold.bits {
        let liquidation_bonus_rate = calculate_autodeleverage_bonus(
            autodeleverage_reserve.config.deleveraging_bonus_increase_bps_per_day,
            autodeleverage_reserve.config.max_liquidation_bonus_bps,
            u16::MAX,
            days_since_deleveraging_started,
            &obligation.no_bf_loan_to_value(),
        );
        Some(
            LiquidationParams {
                user_ltv,
                liquidation_bonus_rate,
                liquidation_reason: LiquidationReason::MarketWideDeleveraging,
            },
        )
    } else {
        None
    }
}

/// Market-wide auto-deleveraging parameters: with the feature enabled, from
/// the collateral reserve (if it deleverages and the obligation qualifies),
/// else from the debt reserve.
pub open spec fn spec_check_market_wide(
    lending_market: LendingMarket,
    collateral_reserve: Reserve,
    debt_reserve: Reserve,
    o: Obligation,
    timestamp: u64,
) -> Option<LiquidationParams> {
    if lending_market.autodeleverage_enabled == 0 {
        None
    } else {
        let from_collateral = if collateral_reserve.config.autodeleverage_enabled != 0 {
            match spec_collateral_deleveraging_secs(collateral_reserve, timestamp) {
                Some(secs) => spec_autodeleverage_params(collateral_reserve, o, secs),
                None => None,
            }
        } else {
            None
        };
        if from_collateral is Some {
            from_collateral
        } else if debt_reserve.config.autodeleverage_enabled != 0 {
            match spec_debt_deleveraging_secs(debt_reserve, timestamp) {
                Some(secs) => spec_autodeleverage_params(debt_reserve, o, secs),
                None => None,
            }
        } else {
            None
        }
    }
}

/// Whether the market-wide checks can be computed: the collateral reserve's
/// supply when it may deleverage, and each reserve's values once its
/// deleveraging started.
pub open spec fn market_wide_fits(collateral_reserve: Reserve, debt_reserve: Reserve, timestamp: u64) -> bool {
    &&& collateral_reserve.config.autodeleverage_enabled != 0 ==> supply_computable(
        collateral_reserve.liquidity,
    )
    &&& (spec_collateral_deleveraging_secs(collateral_reserve, timestamp) matches Some(secs)
        ==> autodeleverage_params_fit(collateral_reserve, secs))
    &&& (spec_debt_deleveraging_secs(debt_reserve, timestamp) matches Some(secs)
        ==> autodeleverage_params_fit(debt_reserve, secs))
}

/// Market-wide auto-deleveraging parameters; see [`spec_check_market_wide`].
fn check_market_wide_autodeleverage_obligation(
    lending_market: &LendingMarket,
    collateral_reserve: &Reserve,
    debt_reserve: &Reserve,
    obligation: &Obligation,
    timestamp: u64,
) -> (r: Option<LiquidationParams>)
    requires
        obligation_ratios_ok(*obligation),
        lending_market.autodeleverage_enabled != 0 ==> market_wide_fits(
            *collateral_reserve,
            *debt_reserve,
            timestamp,
        ),
    ensures
        r == spec_check_market_wide(
            *lending_market,
            *collateral_reserve,
            *debt_reserve,
            *obligation,
            timestamp,
        ),
{
    if !lending_market.is_autodeleverage_enabled() {
        return None;
    }
    if collateral_reserve.config.is_autodeleverage_enabled() {
        let params = match get_secs_since_autodeleverage_obligation_collateral_deposit_limit_crossed(
            collateral_reserve,
            timestamp,
        ) {
            Some(secs) => get_autodeleverage_liquidation_params(collateral_reserve, obligation, secs),
            None => None,
        };
        if params.is_some() {
            return params;
        }
    }
    if debt_reserve.config.is_autodeleverage_enabled() {
        let params = match get_secs_since_autodeleverage_obligation_debt_borrow_limit_crossed(
            debt_reserve,
            timestamp,
        ) {
            Some(secs) => get_autodeleverage_liquidation_params(debt_reserve, obligation, secs),
            None => None,
        };
        if params.is_some() {
            return params;
        }
    }
    None
}

// ---------------------------------------------------------------------------
// Liquidation
// ---------------------------------------------------------------------------

/// The parameters a liquidation proceeds under: a plain liquidation when the
/// LTV reached the allowed one (the debt reserve must be the one with the
/// highest borrow factor and the collateral reserve the one with the lowest
/// liquidation LTV), else an individual, else a market-wide
/// auto-deleveraging; a healthy obligation is an error.
pub open spec fn spec_liquidation_params(
    lending_market: LendingMarket,
    collateral_reserve: Reserve,
    debt_reserve: Reserve,
    o: Obligation,
    timestamp: u64,
    is_debt_reserve_highest_borrow_factor: bool,
    is_collateral_reserve_lowest_liquidation_ltv: bool,
    max_allowed_ltv_override_pct_opt: Option<u64>,
) -> Result<LiquidationParams, LendingError> {
    match spec_check_liquidate(
        lending_market,
        collateral_reserve,
        debt_reserve,
        o,
        max_allowed_ltv_override_pct_opt,
    ) {
        Some(p) => if !is_debt_reserve_highest_borrow_factor {
            Err(LendingError::LiquidationBorrowFactorPriority)
        } else if !is_collateral_reserve_lowest_liquidation_ltv {
            Err(LendingError::LiquidationLowestLTVPriority)
        } else {
            Ok(p)
        },
        None => match spec_check_individual(
            lending_market,
            collateral_reserve,
            debt_reserve,
            o,
            timestamp,
        ) {
            Some(p) => Ok(p),
            None => match spec_check_market_wide(
                lending_market,
                collateral_reserve,
                debt_reserve,
                o,
                timestamp,
            ) {
                Some(p) => Ok(p),
                None => Err(LendingError::ObligationHealthy),
            },
        },
    }
}

/// Whether the liquidation parameters can be computed along the checks
/// that are reached.
pub open spec fn liquidation_params_computable(
    lending_market: LendingMarket,
    collateral_reserve: Reserve,
    debt_reserve: Reserve,
    o: Obligation,
    timestamp: u64,
    max_allowed_ltv_override_pct_opt: Option<u64>,
) -> bool {
    &&& obligation_ratios_ok(o)
    &&& emode_lookup_ok(collateral_reserve.config, debt_reserve.config, o)
    &&& spec_check_liquidate(
        lending_market,
        collateral_reserve,
        debt_reserve,
        o,
        max_allowed_ltv_override_pct_opt,
    ) is None ==> individual_fits(lending_market, collateral_reserve, debt_reserve, o, timestamp)
    &&& spec_check_liquidate(
        lending_market,
        collateral_reserve,
        debt_reserve,
        o,
        max_allowed_ltv_override_pct_opt,
    ) is None && spec_check_individual(lending_market, collateral_reserve, debt_reserve, o, timestamp)
        is None && lending_market.autodeleverage_enabled != 0 ==> market_wide_fits(
        collateral_reserve,
        debt_reserve,
        timestamp,
    )
}

/// The parameters a liquidation proceeds under; see
/// [`spec_liquidation_params`].
pub fn get_liquidation_params(
    lending_market: &LendingMarket,
    collateral_reserve: &Reserve,
    debt_reserve: &Reserve,
    obligation: &Obligation,
    timestamp: u64,
    is_debt_reserve_highest_borrow_factor: bool,
    is_collateral_reserve_lowest_liquidation_ltv: bool,
    max_allowed_ltv_override_pct_opt: Option<u64>,
) -> (r: Result<LiquidationParams, LendingError>)
    requires
        liquidation_params_computable(
            *lending_market,
            *collateral_reserve,
            *debt_reserve,
            *obligation,
            timestamp,
            max_allowed_ltv_override_pct_opt,
        ),
    ensures
        r == spec_liquidation_params(
            *lending_market,
            *collateral_reserve,
            *debt_reserve,
            *obligation,
            timestamp,
            is_debt_reserve_highest_borrow_factor,
            is_collateral_reserve_lowest_liquidation_ltv,
            max_allowed_ltv_override_pct_opt,
        ),
{
    if let Some(params) = check_liquidate_obligation(
        lending_market,
        collateral_reserve,
        debt_reserve,
        obligation,
        max_allowed_ltv_override_pct_opt,
    ) {
        if !is_debt_reserve_highest_borrow_factor {
            return Err(LendingError::LiquidationBorrowFactorPriority);
        }
        if !is_collateral_reserve_lowest_liquidation_ltv {
            return Err(LendingError::LiquidationLowestLTVPriority);
        }
        Ok(params)
    } else if let Some(params) = check_individual_autodeleverage_obligation(
        lending_market,
        collateral_reserve,
        debt_reserve,
        obligation,
        timestamp,
    ) {
        Ok(params)
    } else if let Some(params) = check_market_wide_autodeleverage_obligation(
        lending_market,
        collateral_reserve,
        debt_reserve,
        obligation,
        timestamp,
    ) {
        Ok(params)
    } else {
        Err(LendingError::ObligationHealthy)
    }
}

/// Whether the borrow's value is below the market's full-liquidation
/// threshold, in which case the whole borrow must be liquidated at once.
pub open spec fn below_full_liquidation_threshold(
    lending_market: LendingMarket,
    liquidity: ObligationLiquidity,
) -> bool {
    liquidity.market_value_sf < lending_market.min_full_liquidation_value_threshold * scale()
}

/// The debt amount a liquidation repays, given what the liquidator offers
/// (capped at the borrowed amount): the whole borrow below the
/// full-liquidation threshold, else at most what one liquidation may repay.
pub open spec fn spec_debt_liquidation_amount(
    lending_market: LendingMarket,
    o: Obligation,
    liquidity: ObligationLiquidity,
    debt_amount_to_liquidate: int,
    user_ltv: int,
) -> int {
    if below_full_liquidation_threshold(lending_market, liquidity) {
        liquidity.borrowed_amount_sf as int
    } else {
        min_int(
            spec_max_liquidatable_amount(
                o,
                lending_market.liquidation_max_debt_close_factor_pct as int,
                lending_market.max_liquidatable_debt_market_value_at_once as int,
                liquidity,
                user_ltv,
                lending_market.insolvency_risk_unhealthy_ltv_pct as int,
            ),
            debt_amount_to_liquidate,
        )
    }
}

/// The value to seize for a liquidated debt amount, bonus included: the
/// borrow's value times the liquidated share of the borrow, times one plus
/// the bonus rate.
pub open spec fn spec_total_liquidation_value(
    liquidity: ObligationLiquidity,
    debt_liquidation_amount: int,
    bonus: int,
) -> int {
    spec_mul(
        spec_mul(
            liquidity.market_value_sf as int,
            spec_div(debt_liquidation_amount, liquidity.borrowed_amount_sf as int),
        ),
        bonus + scale(),
    )
}

/// The outcome of liquidating up to `debt_amount_to_liquidate` of a borrow
/// against a collateral: an obligation with no deposited value is an error;
/// so is a healthy one (see [`spec_liquidation_params`]), and an offer
/// smaller than the whole borrow when the whole borrow must go.
pub open spec fn spec_calculate_liquidation(
    collateral_reserve: Reserve,
    debt_reserve: Reserve,
    debt_amount_to_liquidate: u64,
    lending_market: LendingMarket,
    o: Obligation,
    liquidity: ObligationLiquidity,
    collateral: ObligationCollateral,
    timestamp: u64,
    is_debt_reserve_highest_borrow_factor: bool,
    is_collateral_reserve_lowest_liquidation_ltv: bool,
    max_allowed_ltv_override_pct_opt: Option<u64>,
) -> Result<CalculateLiquidationResult, LendingError> {
    if o.deposited_value_sf == 0 {
        Err(LendingError::InvalidObligationCollateral)
    } else {
        match spec_liquidation_params(
            lending_market,
            collateral_reserve,
            debt_reserve,
            o,
            timestamp,
            is_debt_reserve_highest_borrow_factor,
            is_collateral_reserve_lowest_liquidation_ltv,
            max_allowed_ltv_override_pct_opt,
        ) {
            Err(e) => Err(e),
            Ok(p) => {
                let to_liquidate = min_int(
                    debt_amount_to_liquidate * scale(),
                    liquidity.borrowed_amount_sf as int,
                );
                if below_full_liquidation_threshold(lending_market, liquidity) && to_liquidate
                    < liquidity.borrowed_amount_sf {
                    Err(LendingError::RepayTooSmallForFullLiquidation)
                } else {
                    let debt_liquidation_amount = spec_debt_liquidation_amount(
                        lending_market,
                        o,
                        liquidity,
                        to_liquidate,
                        p.user_ltv.val(),
                    );
                    let total = spec_total_liquidation_value(
                        liquidity,
                        debt_liquidation_amount,
                        p.liquidation_bonus_rate.val(),
                    );
                    let amounts = spec_liquidation_amounts(
                        total,
                        collateral,
                        debt_liquidation_amount,
                        below_full_liquidation_threshold(lending_market, liquidity),
                    );
                    Ok(
                        CalculateLiquidationResult {
                            settle_amount: Fraction { bits: amounts.0 as u128 },
                            repay_amount: amounts.1 as u64,
                            withdraw_amount: amounts.2 as u64,
                            liquidation_bonus_rate: p.liquidation_bonus_rate,
                            liquidation_reason: p.liquidation_reason,
                        },
                    )
                }
            },
        }
    }
}

/// Whether a liquidation can be computed: the parameters can (when the
/// obligation has deposited value), and once they are known, the borrow has
/// an amount (and a value, unless it is liquidated whole), one plus the
/// bonus rate fits, and so do the closable debt value and the value to
/// seize.
pub open spec fn liquidation_computable(
    collateral_reserve: Reserve,
    debt_reserve: Reserve,
    debt_amount_to_liquidate: u64,
    lending_market: LendingMarket,
    o: Obligation,
    liquidity: ObligationLiquidity,
    timestamp: u64,
    is_debt_reserve_highest_borrow_factor: bool,
    is_collateral_reserve_lowest_liquidation_ltv: bool,
    max_allowed_ltv_override_pct_opt: Option<u64>,
) -> bool {
    o.deposited_value_sf > 0 ==> {
        &&& liquidation_params_computable(
            lending_market,
            collateral_reserve,
            debt_reserve,
            o,
            timestamp,
            max_allowed_ltv_override_pct_opt,
        )
        &&& (spec_liquidation_params(
            lending_market,
            collateral_reserve,
            debt_reserve,
            o,
            timestamp,
            is_debt_reserve_highest_borrow_factor,
            is_collateral_reserve_lowest_liquidation_ltv,
            max_allowed_ltv_override_pct_opt,
        ) matches Ok(p) ==> {
            let to_liquidate = min_int(
                debt_amount_to_liquidate * scale(),
                liquidity.borrowed_amount_sf as int,
            );
            let below = below_full_liquidation_threshold(lending_market, liquidity);
            !(below && to_liquidate < liquidity.borrowed_amount_sf) ==> {
                &&& liquidity.borrowed_amount_sf > 0
                &&& p.liquidation_bonus_rate.val() + scale() <= u128::MAX
                &&& !below ==> liquidity.market_value_sf > 0 && max_liquidatable_fits(
                    o,
                    lending_market.liquidation_max_debt_close_factor_pct as int,
                    p.user_ltv.val(),
                    lending_market.insolvency_risk_unhealthy_ltv_pct as int,
                )
                &&& spec_total_liquidation_value(
                    liquidity,
                    spec_debt_liquidation_amount(
                        lending_market,
                        o,
                        liquidity,
                        to_liquidate,
                        p.user_ltv.val(),
                    ),
                    p.liquidation_bonus_rate.val(),
                ) <= u128::MAX
            }
        })
    }
}

/// Liquidates up to `debt_amount_to_liquidate` of a borrow against a
/// collateral; see [`spec_calculate_liquidation`].
pub fn calculate_liquidation(
    collateral_reserve: &Reserve,
    debt_reserve: &Reserve,
    debt_amount_to_liquidate: u64,
    lending_market: &LendingMarket,
    obligation: &Obligation,
    liquidity: &ObligationLiquidity,
    collateral: &ObligationCollateral,
    timestamp: u64,
    is_debt_reserve_highest_borrow_factor: bool,
    is_collateral_reserve_lowest_liquidation_ltv: bool,
    max_allowed_ltv_override_pct_opt: Option<u64>,
) -> (r: Result<CalculateLiquidationResult, LendingError>)
    requires
        liquidation_computable(
            *collateral_reserve,
            *debt_reserve,
            debt_amount_to_liquidate,
            *lending_market,
            *obligation,
            *liquidity,
            timestamp,
            is_debt_reserve_highest_borrow_factor,
            is_collateral_reserve_lowest_liquidation_ltv,
            max_allowed_ltv_override_pct_opt,
        ),
    ensures
        r == spec_calculate_liquidation(
            *collateral_reserve,
            *debt_reserve,
            debt_amount_to_liquidate,
            *lending_market,
            *obligation,
            *liquidity,
            *collateral,
            timestamp,
            is_debt_reserve_highest_borrow_factor,
            is_collateral_reserve_lowest_liquidation_ltv,
            max_allowed_ltv_override_pct_opt,
        ),
{
    if obligation.deposited_value_sf == 0 {
        return Err(LendingError::InvalidObligationCollateral);
    }
    let params = get_liquidation_params(
        lending_market,
        collateral_reserve,
        debt_reserve,
        obligation,
        timestamp,
        is_debt_reserve_highest_borrow_factor,
        is_collateral_reserve_lowest_liquidation_ltv,
        max_allowed_ltv_override_pct_opt,
    )?;
    let user_ltv = params.user_ltv;
    let liquidation_bonus_rate = params.liquidation_bonus_rate;
    let borrowed_amount_f = Fraction::from_bits(liquidity.borrowed_amount_sf);
    let borrowed_value_f = Fraction::from_bits(liquidity.market_value_sf);
    let debt_amount_to_liquidate = Fraction::from_num(debt_amount_to_liquidate).min(
        borrowed_amount_f,
    );
    let is_below_min_full_liquidation_value_threshold = borrowed_value_f.bits < Fraction::from_num(
        lending_market.min_full_liquidation_value_threshold,
    ).bits;
    let debt_liquidation_amount_f = if is_below_min_full_liquidation_value_threshold {
        if debt_amount_to_liquidate.bits < borrowed_amount_f.bits {
            return Err(LendingError::RepayTooSmallForFullLiquidation);
        }
        borrowed_amount_f
    } else {
        max_liquidatable_borrowed_amount(
            obligation,
            lending_market.liquidation_max_debt_close_factor_pct,
            lending_market.max_liquidatable_debt_market_value_at_once,
            liquidity,
            user_ltv,
            lending_market.insolvency_risk_unhealthy_ltv_pct,
        ).min(debt_amount_to_liquidate)
    };
    let bonus_rate = liquidation_bonus_rate.add(Fraction::one());
    proof {
        lemma_ratio_at_most_one(debt_liquidation_amount_f.val(), borrowed_amount_f.val());
    }
    let liquidation_ratio = debt_liquidation_amount_f.div(borrowed_amount_f);
    proof {
        lemma_scaled_at_most(borrowed_value_f.val(), liquidation_ratio.val());
    }
    let total_liquidation_value_including_bonus = borrowed_value_f.mul(liquidation_ratio).mul(
        bonus_rate,
    );
    let (settle_amount, repay_amount, withdraw_amount) = calculate_liquidation_amounts(
        total_liquidation_value_including_bonus,
        collateral,
        debt_liquidation_amount_f,
        is_below_min_full_liquidation_value_threshold,
    );
    Ok(
        CalculateLiquidationResult {
            settle_amount,
            repay_amount,
            withdraw_amount,
            liquidation_bonus_rate,
            liquidation_reason: params.liquidation_reason,
        },
    )
}

} // verus!
