//! Properties of the lending protocol that span several operations: that
//! rounding never creates value, that caps, bonuses and liquidations stay
//! within their bounds, and that what one operation records another finds.

use crate::fraction::{bps_val, ceil_int, floor_int, scale, spec_div, spec_mul, Fraction};
use crate::lending_market::LendingMarket;
use crate::liquidation_operations::{
    lemma_ceil_at_most, lemma_ratio_at_most_one, lemma_scaled_at_most, max_int, min_int,
    spec_calculate_liquidation, spec_debt_liquidation_amount, spec_liquidation_amounts,
    spec_liquidation_params, spec_max_liquidatable_amount, spec_total_liquidation_value,
    below_full_liquidation_threshold, spec_liquidation_bonus, spec_autodeleverage_bonus,
    spec_protocol_liquidation_fee, BAD_DEBT_LTV_THRESHOLD_SF,
};
use crate::obligation::{spec_saturating_sub, Obligation, ObligationCollateral, ObligationLiquidity};
use crate::reserve::{Reserve, ReserveConfig, spec_compounded};
use crate::reserve_operations::{spec_minted_collateral, spec_redeemed_liquidity};
use crate::reserve::{spec_accrue_outcome, spec_exchange_rate, utilization_val};
use crate::reserve::ReserveLiquidity;
use crate::fraction::pct_val;
use vstd::arithmetic::div_mod::lemma_div_denominator;
use crate::borrow_rate_curve::{spec_borrow_rate, clamped_utilization_bps, CurvePoint, MAX_UTILIZATION_RATE_BPS};
use crate::borrow_rate_curve::{
    first_segment_from, lemma_bps_val_monotone, lemma_first_segment_covers, lemma_points_ordered,
    lemma_rate_in_segment, lemma_round_monotone, segment_covers, valid_points,
};
use crate::obligation::{spec_accrued_amount, same_key, ObligationOrder};
use crate::last_update::{spec_is_stale, LastUpdate, PriceStatusFlags};
use crate::pubkey::Pubkey;
use crate::obligation_order_operations::{
    spec_interpolate, spec_stop_loss, spec_take_profit, spec_valid_order,
    spec_order_execution_bonus_rate, spec_max_bonus_rate,
};
use crate::obligation_order_operations::{spec_evaluate, ConditionHit, OrderCondition};
use crate::reserve::{spec_c2l_frac, spec_l2c_amount_frac, CollateralExchangeRate};
use crate::withdrawal_caps::{spec_check_and_update, spec_remaining, spec_rolled_caps, WithdrawalCaps};
use vstd::arithmetic::div_mod::{lemma_div_is_ordered, lemma_fundamental_div_mod};
use crate::reserve_updates::{reserve_config_updated, UpdateConfigMode, UpdateReserveConfigValue};
use crate::market_updates::{
    market_update_error, market_updated, UpdateLendingMarketConfigValue, UpdateLendingMarketMode,
};
use crate::global_config::{global_config_updated, GlobalConfig, UpdateGlobalConfigMode};
use crate::error::LendingError;
use vstd::prelude::*;

verus! {

/// `(a * k) / k == a` for positive `k`.
proof fn lemma_mul_div_cancel(a: int, k: int)
    requires
        k > 0,
    ensures
        (a * k) / k == a,
{
    vstd::arithmetic::div_mod::lemma_div_multiples_vanish(a, k);
    assert(a * k == k * a) by (nonlinear_arith);
}

/// `(x / d) * d <= x` for positive `d`.
proof fn lemma_floor_mul_le(x: int, d: int)
    requires
        d > 0,
    ensures
        (x / d) * d <= x,
{
    lemma_fundamental_div_mod(x, d);
    assert(x % d >= 0);
    assert((x / d) * d == d * (x / d)) by (nonlinear_arith);
}

/// Converting a liquidity amount to collateral and the collateral back to
/// liquidity, each rounded down to whole tokens, never gives back more
/// liquidity than went in.
pub proof fn law_liquidity_collateral_round_trip(rate: CollateralExchangeRate, liquidity_amount: u64)
    requires
        rate.collateral_supply > 0,
        rate.liquidity.val() > 0,
    ensures
        floor_int(
            spec_c2l_frac(
                rate,
                floor_int(spec_l2c_amount_frac(rate, liquidity_amount as int)) * scale(),
            ),
        ) <= liquidity_amount,
{
    let s = scale();
    let supply = rate.collateral_supply as int;
    let l = rate.liquidity.val();
    let x = liquidity_amount as int;
    assert(0 <= supply * x * s * s) by (nonlinear_arith)
        requires
            supply > 0,
            x >= 0,
            s > 0,
    ;
    let a = spec_l2c_amount_frac(rate, x);
    assert(a == supply * x * s * s / l);
    let c = a / s;
    lemma_floor_mul_le(a, s);
    lemma_floor_mul_le(supply * x * s * s, l);
    assert(0 <= a) by (nonlinear_arith)
        requires
            a == supply * x * s * s / l,
            0 <= supply * x * s * s,
            l > 0,
    ;
    assert(0 <= c) by (nonlinear_arith)
        requires
            c == a / s,
            0 <= a,
            s > 0,
    ;
    assert(c * l <= supply * x * s) by (nonlinear_arith)
        requires
            c * s <= a,
            a * l <= supply * x * s * s,
            l > 0,
            s > 0,
            c >= 0,
    ;
    lemma_mul_div_cancel(c * l, s);
    assert(c * s * l / s == c * l) by (nonlinear_arith)
        requires
            (c * l * s) / s == c * l,
    ;
    assert(spec_c2l_frac(rate, c * s) == c * l / supply);
    lemma_div_is_ordered(c * l, supply * x * s, supply);
    lemma_mul_div_cancel(x * s, supply);
    assert(supply * x * s == x * s * supply) by (nonlinear_arith);
    lemma_div_is_ordered(c * l / supply, x * s, s);
    lemma_mul_div_cancel(x, s);
}

/// Converting a collateral amount to liquidity and the liquidity back to
/// collateral, each rounded down to whole tokens, never gives back more
/// collateral than went in.
pub proof fn law_collateral_liquidity_round_trip(rate: CollateralExchangeRate, collateral_amount: u64)
    requires
        rate.collateral_supply > 0,
        rate.liquidity.val() > 0,
    ensures
        floor_int(
            spec_l2c_amount_frac(
                rate,
                floor_int(spec_c2l_frac(rate, collateral_amount * scale())),
            ),
        ) <= collateral_amount,
{
    let s = scale();
    let supply = rate.collateral_supply as int;
    let l = rate.liquidity.val();
    let c = collateral_amount as int;
    lemma_mul_div_cancel(c * l, s);
    assert(c * s * l / s == c * l) by (nonlinear_arith)
        requires
            (c * l * s) / s == c * l,
    ;
    let b = spec_c2l_frac(rate, c * s);
    assert(b == c * l / supply);
    assert(0 <= c * l) by (nonlinear_arith)
        requires
            c >= 0,
            l > 0,
    ;
    assert(0 <= b) by (nonlinear_arith)
        requires
            b == c * l / supply,
            0 <= c * l,
            supply > 0,
    ;
    let liq = b / s;
    lemma_floor_mul_le(b, s);
    lemma_floor_mul_le(c * l, supply);
    assert(0 <= liq) by (nonlinear_arith)
        requires
            liq == b / s,
            0 <= b,
            s > 0,
    ;
    assert(supply * liq * s * s <= c * l * s) by (nonlinear_arith)
        requires
            liq * s <= b,
            b * supply <= c * l,
            supply > 0,
            s > 0,
            liq >= 0,
    ;
    assert(spec_l2c_amount_frac(rate, liq) == supply * liq * s * s / l);
    lemma_div_is_ordered(supply * liq * s * s, c * l * s, l);
    lemma_mul_div_cancel(c * s, l);
    assert(c * l * s == c * s * l) by (nonlinear_arith);
    lemma_div_is_ordered(supply * liq * s * s / l, c * s, s);
    lemma_mul_div_cancel(c, s);
}

/// Starting a new interval does not change what may still be withdrawn.
proof fn lemma_rolled_remaining(caps: WithdrawalCaps, t: u64)
    requires
        caps.config_interval_length_seconds > 0,
        caps.last_interval_start_timestamp <= t,
    ensures
        spec_remaining(spec_rolled_caps(caps, t), t) == spec_remaining(caps, t),
{
}

/// A withdrawal that the cap accepts lowers what may still be withdrawn in
/// the interval by exactly its amount.
pub proof fn law_withdrawal_uses_capacity(caps: WithdrawalCaps, amount: u64, timestamp: u64)
    requires
        spec_check_and_update(caps, amount, timestamp, true).1 is Ok,
    ensures
        caps.config_interval_length_seconds > 0 ==> spec_remaining(
            spec_check_and_update(caps, amount, timestamp, true).0,
            timestamp,
        ) == spec_remaining(caps, timestamp) - amount,
        caps.config_interval_length_seconds == 0 ==> spec_remaining(
            spec_check_and_update(caps, amount, timestamp, true).0,
            timestamp,
        ) == u64::MAX,
{
    if caps.config_interval_length_seconds > 0 {
        lemma_rolled_remaining(caps, timestamp);
    }
}

/// Recording a withdrawal and then a deposit of the same amount at the same
/// time is accepted and leaves what may still be withdrawn unchanged.
pub proof fn law_withdraw_then_deposit_restores_capacity(caps: WithdrawalCaps, amount: u64, timestamp: u64)
    requires
        spec_check_and_update(caps, amount, timestamp, true).1 is Ok,
    ensures
        ({
            let mid = spec_check_and_update(caps, amount, timestamp, true).0;
            let (after, r) = spec_check_and_update(mid, amount, timestamp, false);
            &&& r is Ok
            &&& spec_remaining(after, timestamp) == spec_remaining(caps, timestamp)
        }),
{
    if caps.config_interval_length_seconds > 0 {
        lemma_rolled_remaining(caps, timestamp);
    }
}

/// The closable amount of a borrow is never negative.
proof fn lemma_max_liquidatable_nonneg(
    o: Obligation,
    close_factor_pct: int,
    market_max_value: int,
    l: ObligationLiquidity,
    user_ltv: int,
    insolvency_pct: int,
)
    requires
        l.market_value_sf > 0,
        0 <= close_factor_pct,
        0 <= market_max_value,
    ensures
        0 <= spec_max_liquidatable_amount(o, close_factor_pct, market_max_value, l, user_ltv, insolvency_pct),
{
    let rate = crate::liquidation_operations::spec_close_factor_rate(user_ltv, close_factor_pct, insolvency_pct);
    assert(0 <= rate) by (nonlinear_arith)
        requires
            rate == crate::liquidation_operations::spec_close_factor_rate(user_ltv, close_factor_pct, insolvency_pct),
            0 <= close_factor_pct,
    {
        assert(0 <= close_factor_pct * scale() / 100) by (nonlinear_arith)
            requires 0 <= close_factor_pct;
    }
    let mv = crate::liquidation_operations::spec_max_liquidatable_value(
        o.borrowed_assets_market_value_sf as int,
        l.market_value_sf as int,
        rate,
        market_max_value,
    );
    lemma_scaled_at_most(o.borrowed_assets_market_value_sf as int, 0);
    assert(0 <= (o.borrowed_assets_market_value_sf as int) * rate / scale()) by (nonlinear_arith)
        requires
            0 <= rate,
            0 <= o.borrowed_assets_market_value_sf,
    ;
    assert(0 <= market_max_value * scale()) by (nonlinear_arith)
        requires 0 <= market_max_value;
    assert(0 <= mv);
    assert(0 <= mv * scale() / (l.market_value_sf as int)) by (nonlinear_arith)
        requires
            0 <= mv,
            l.market_value_sf > 0,
    ;
    let ratio = spec_div(mv, l.market_value_sf as int);
    assert(0 <= (l.borrowed_amount_sf as int) * ratio / scale()) by (nonlinear_arith)
        requires
            0 <= ratio,
            0 <= l.borrowed_amount_sf,
    ;
}

/// A liquidation never settles more debt than the borrow holds, never makes
/// the liquidator repay more than they offered, and, when the collateral
/// holds any tokens, never seizes more of them than are deposited.
pub proof fn law_liquidation_within_bounds(
    collateral_reserve: Reserve,
    debt_reserve: Reserve,
    debt_amount_to_liquidate: u64,
    lending_market: LendingMarket,
    o: Obligation,
    liquidity: ObligationLiquidity,
    collateral: ObligationCollateral,
    timestamp: u64,
    is_debt_reserve_highest_borrow_factor: bool,
    is_collateral_reserve_lowest_liquidation_ltv: bool,
    max_allowed_ltv_override_pct_opt: Option<u64>,
)
    requires
        liquidity.borrowed_amount_sf > 0,
        !below_full_liquidation_threshold(lending_market, liquidity) ==> liquidity.market_value_sf > 0,
    ensures
        spec_calculate_liquidation(
            collateral_reserve,
            debt_reserve,
            debt_amount_to_liquidate,
            lending_market,
            o,
            liquidity,
            collateral,
            timestamp,
            is_debt_reserve_highest_borrow_factor,
            is_collateral_reserve_lowest_liquidation_ltv,
            max_allowed_ltv_override_pct_opt,
        ) matches Ok(res) ==> {
            &&& res.settle_amount.val() <= liquidity.borrowed_amount_sf
            &&& res.repay_amount <= debt_amount_to_liquidate
            &&& collateral.deposited_amount > 0 ==> res.withdraw_amount <= collateral.deposited_amount
        },
{
    let r = spec_calculate_liquidation(
        collateral_reserve,
        debt_reserve,
        debt_amount_to_liquidate,
        lending_market,
        o,
        liquidity,
        collateral,
        timestamp,
        is_debt_reserve_highest_borrow_factor,
        is_collateral_reserve_lowest_liquidation_ltv,
        max_allowed_ltv_override_pct_opt,
    );
    if r is Ok {
        let p = spec_liquidation_params(
            lending_market,
            collateral_reserve,
            debt_reserve,
            o,
            timestamp,
            is_debt_reserve_highest_borrow_factor,
            is_collateral_reserve_lowest_liquidation_ltv,
            max_allowed_ltv_override_pct_opt,
        )->Ok_0;
        let borrowed = liquidity.borrowed_amount_sf as int;
        let to_liquidate = min_int(debt_amount_to_liquidate * scale(), borrowed);
        let below = below_full_liquidation_threshold(lending_market, liquidity);
        let debt_liq = spec_debt_liquidation_amount(
            lending_market,
            o,
            liquidity,
            to_liquidate,
            p.user_ltv.val(),
        );
        assert(0 <= debt_amount_to_liquidate * scale()) by (nonlinear_arith);
        if !below {
            lemma_max_liquidatable_nonneg(
                o,
                lending_market.liquidation_max_debt_close_factor_pct as int,
                lending_market.max_liquidatable_debt_market_value_at_once as int,
                liquidity,
                p.user_ltv.val(),
                lending_market.insolvency_risk_unhealthy_ltv_pct as int,
            );
        }
        assert(0 <= debt_liq <= to_liquidate);
        assert(debt_liq <= debt_amount_to_liquidate * scale());
        lemma_ratio_at_most_one(debt_liq, borrowed);
        let ratio = spec_div(debt_liq, borrowed);
        lemma_scaled_at_most(liquidity.market_value_sf as int, ratio);
        let v = spec_mul(liquidity.market_value_sf as int, ratio);
        let total = spec_total_liquidation_value(liquidity, debt_liq, p.liquidation_bonus_rate.val());
        assert(0 <= total) by (nonlinear_arith)
            requires
                total == v * (p.liquidation_bonus_rate.val() + scale()) / scale(),
                0 <= v,
                0 <= p.liquidation_bonus_rate.val(),
        ;
        let amounts = spec_liquidation_amounts(total, collateral, debt_liq, below);
        let cv = collateral.market_value_sf as int;
        if total > cv {
            lemma_ratio_at_most_one(cv, total);
            lemma_scaled_at_most(debt_liq, spec_div(cv, total));
        } else if total < cv {
            lemma_ratio_at_most_one(total, cv);
            let dep = collateral.deposited_amount * scale();
            lemma_scaled_at_most(dep, spec_div(total, cv));
            let wf = spec_mul(dep, spec_div(total, cv));
            lemma_div_is_ordered(wf, dep, scale());
            lemma_mul_div_cancel(collateral.deposited_amount as int, scale());
            assert(0 <= wf / scale()) by (nonlinear_arith)
                requires 0 <= wf;
        }
        assert(0 <= amounts.0 <= debt_liq);
        lemma_ceil_at_most(amounts.0, debt_amount_to_liquidate as int);
    }
}

/// Outside bad debt, the liquidation bonus never exceeds the distance to
/// bad debt, nor the higher of the reserves' maximum bonuses (as capped by
/// the elevation group).
pub proof fn law_liquidation_bonus_capped(
    collateral_config: ReserveConfig,
    debt_config: ReserveConfig,
    max_allowed_ltv: int,
    user_ltv: int,
    user_no_bf_ltv: int,
    emode_max_bonus_bps: int,
)
    requires
        user_no_bf_ltv < BAD_DEBT_LTV_THRESHOLD_SF,
    ensures
        spec_liquidation_bonus(
            collateral_config,
            debt_config,
            max_allowed_ltv,
            user_ltv,
            user_no_bf_ltv,
            emode_max_bonus_bps,
        ) <= scale() - user_no_bf_ltv,
        spec_liquidation_bonus(
            collateral_config,
            debt_config,
            max_allowed_ltv,
            user_ltv,
            user_no_bf_ltv,
            emode_max_bonus_bps,
        ) <= bps_val(
            min_int(
                max_int(
                    collateral_config.max_liquidation_bonus_bps as int,
                    debt_config.max_liquidation_bonus_bps as int,
                ),
                emode_max_bonus_bps,
            ),
        ),
{
}

/// The auto-deleveraging bonus never exceeds the distance to bad debt, nor
/// the lower of the reserve's and the elevation group's maximum bonus.
pub proof fn law_autodeleverage_bonus_capped(
    increase_bps_per_day: int,
    reserve_max_bonus_bps: int,
    emode_max_bonus_bps: int,
    days: int,
    user_no_bf_ltv: int,
)
    ensures
        spec_autodeleverage_bonus(
            increase_bps_per_day,
            reserve_max_bonus_bps,
            emode_max_bonus_bps,
            days,
            user_no_bf_ltv,
        ) <= spec_saturating_sub(scale(), user_no_bf_ltv),
        spec_autodeleverage_bonus(
            increase_bps_per_day,
            reserve_max_bonus_bps,
            emode_max_bonus_bps,
            days,
            user_no_bf_ltv,
        ) <= bps_val(min_int(reserve_max_bonus_bps, emode_max_bonus_bps)),
{
}

/// The protocol takes at least one token of every liquidation.
pub proof fn law_protocol_liquidation_fee_positive(
    amount_liquidated: int,
    liquidation_bonus: int,
    protocol_liquidation_fee_pct: int,
)
    ensures
        spec_protocol_liquidation_fee(amount_liquidated, liquidation_bonus, protocol_liquidation_fee_pct) >= 1,
{
}

/// A void order is always accepted, by both generations of order checks.
pub proof fn law_void_order_is_valid(order: ObligationOrder)
    requires
        order.is_zeroed(),
    ensures
        spec_valid_order(order),
        crate::order_operations::spec_valid_order(order),
{
}

/// An obligation whose orders were all removed carries only orders it
/// supports, so no later operation is refused for them.
pub proof fn law_removed_orders_are_supported(o: Obligation)
    requires
        forall|i: int| 0 <= i < 2 ==> (#[trigger] o.obligation_orders@[i]).is_zeroed(),
    ensures
        forall|i: int| 0 <= i < 2 ==> (#[trigger] o.obligation_orders@[i]).spec_is_supported_by(o),
{
}

/// The distance of a hit "value rose above threshold" condition lies
/// between zero and one.
pub proof fn law_stop_loss_distance_normalized(current: int, threshold: int, liquidation: int)
    requires
        0 <= threshold,
        0 <= liquidation,
    ensures
        spec_stop_loss(current, threshold, liquidation) matches Some(d) ==> 0 <= d <= scale(),
{
    if current > threshold && threshold < liquidation {
        assert(0 <= (current - threshold) * scale() / (liquidation - threshold)) by (nonlinear_arith)
            requires
                current > threshold,
                threshold < liquidation,
        ;
    }
}

/// The distance of a hit "value fell below threshold" condition, for a
/// value that is not negative, lies between zero and one.
pub proof fn law_take_profit_distance_normalized(current: int, threshold: int)
    requires
        0 <= current,
    ensures
        spec_take_profit(current, threshold) matches Some(d) ==> 0 <= d <= scale(),
{
    if current < threshold {
        assert(0 <= (threshold - current) * scale() / threshold <= scale()) by (nonlinear_arith)
            requires
                0 <= current < threshold,
        ;
    }
}

/// An interpolated bonus rate lies within the order's bonus range.
pub proof fn law_interpolated_bonus_within_range(distance: int, start: int, end: int)
    requires
        0 <= distance <= scale(),
        0 <= start <= end,
    ensures
        start <= spec_interpolate(distance, start, end) <= end,
{
    lemma_scaled_at_most(end - start, distance);
    assert(spec_mul(distance, end - start) == spec_mul(end - start, distance)) by (nonlinear_arith);
}

/// The executor's bonus never exceeds the rate that keeps the obligation out
/// of bad debt once the early-repay penalty is paid.
pub proof fn law_execution_bonus_capped(
    order: ObligationOrder,
    hit: ConditionHit,
    user_no_bf_ltv: int,
    penalty_rate: int,
)
    ensures
        spec_order_execution_bonus_rate(order, hit, user_no_bf_ltv, penalty_rate)
            <= spec_max_bonus_rate(user_no_bf_ltv, penalty_rate),
{
}

/// Accruing interest at a cumulative rate no lower than the one last
/// accrued at never lowers a borrowed amount.
pub proof fn law_accrual_never_lowers_debt(amount: int, former_rate: int, new_rate: int)
    requires
        0 <= amount,
        0 < former_rate <= new_rate,
    ensures
        spec_accrued_amount(amount, former_rate, new_rate) >= amount,
{
    assert(amount * new_rate / former_rate >= amount) by (nonlinear_arith)
        requires
            0 <= amount,
            0 < former_rate <= new_rate,
    {
        assert(amount * new_rate >= amount * former_rate) by (nonlinear_arith)
            requires
                0 <= amount,
                former_rate <= new_rate,
        ;
        vstd::arithmetic::div_mod::lemma_div_is_ordered(amount * former_rate, amount * new_rate, former_rate);
        lemma_mul_div_cancel(amount, former_rate);
    }
}

/// The compound interest factor over any number of slots, at a rate that is
/// not negative, is at least one.
pub proof fn law_compounded_factor_at_least_one(rate: int, slots: int)
    requires
        0 <= rate,
        0 <= slots,
    ensures
        spec_compounded(rate, slots) >= scale(),
{
    let b = rate / (crate::consts::SLOTS_PER_YEAR as int);
    let o = scale() + b;
    assert(0 <= b);
    assert(o * o / scale() >= scale()) by (nonlinear_arith)
        requires
            o >= scale(),
            scale() > 0,
    {
        assert(o * o >= scale() * scale()) by (nonlinear_arith)
            requires o >= scale(), scale() > 0;
        vstd::arithmetic::div_mod::lemma_div_is_ordered(scale() * scale(), o * o, scale());
        lemma_mul_div_cancel(scale(), scale());
    }
    let oo = o * o / scale();
    assert(oo * o / scale() >= scale()) by (nonlinear_arith)
        requires
            oo >= scale(),
            o >= scale(),
            scale() > 0,
    {
        assert(oo * o >= scale() * scale()) by (nonlinear_arith)
            requires oo >= scale(), o >= scale(), scale() > 0;
        vstd::arithmetic::div_mod::lemma_div_is_ordered(scale() * scale(), oo * o, scale());
        lemma_mul_div_cancel(scale(), scale());
    }
    assert(oo * oo / scale() >= scale()) by (nonlinear_arith)
        requires
            oo >= scale(),
            scale() > 0,
    {
        assert(oo * oo >= scale() * scale()) by (nonlinear_arith)
            requires oo >= scale(), scale() > 0;
        vstd::arithmetic::div_mod::lemma_div_is_ordered(scale() * scale(), oo * oo, scale());
        lemma_mul_div_cancel(scale(), scale());
    }
    if slots > 4 {
        let b2 = b * b / scale();
        let b3 = b2 * b / scale();
        assert(0 <= b2 && 0 <= b3) by (nonlinear_arith)
            requires
                b2 == b * b / scale(),
                b3 == b2 * b / scale(),
                0 <= b,
                scale() > 0,
        ;
        assert(0 <= b * slots + b2 * slots * (slots - 1) / 2 + b3 * slots * (slots - 1) * (slots - 2) / 6)
            by (nonlinear_arith)
            requires
                0 <= b,
                0 <= b2,
                0 <= b3,
                slots > 4,
        ;
    }
}

/// A flat curve charges its rate at every utilization.
pub proof fn law_flat_curve_rate(points: Seq<CurvePoint>, borrow_rate_bps: u32, utilization: int)
    requires
        points.len() == 11,
        points[0].utilization_rate_bps == 0,
        forall|i: int| 1 <= i < 11 ==> (#[trigger] points[i]).utilization_rate_bps == MAX_UTILIZATION_RATE_BPS,
        forall|i: int| 0 <= i < 11 ==> (#[trigger] points[i]).borrow_rate_bps == borrow_rate_bps,
        0 <= utilization,
    ensures
        spec_borrow_rate(points, utilization) == Ok::<int, crate::error::LendingError>(
            bps_val(borrow_rate_bps as int),
        ),
{
    let u = if utilization > scale() { scale() } else { utilization };
    let bps = clamped_utilization_bps(utilization);
    assert(0 <= bps <= 10000) by {
        assert(0 <= u * 10000 <= scale() * 10000) by (nonlinear_arith)
            requires 0 <= u <= scale();
        vstd::arithmetic::div_mod::lemma_div_is_ordered(u * 10000, scale() * 10000, scale());
        lemma_mul_div_cancel(10000, scale());
        assert(scale() * 10000 == 10000 * scale()) by (nonlinear_arith);
        lemma_fundamental_div_mod(u * 10000, scale());
        if (u * 10000) / scale() == 10000 {
            assert((u * 10000) % scale() == 0) by (nonlinear_arith)
                requires
                    u * 10000 == scale() * ((u * 10000) / scale()) + (u * 10000) % scale(),
                    (u * 10000) / scale() == 10000,
                    u * 10000 <= scale() * 10000,
                    0 <= (u * 10000) % scale(),
            ;
        }
        assert(0 <= (u * 10000) / scale()) by (nonlinear_arith)
            requires 0 <= u * 10000, scale() > 0;
    }
    assert(crate::borrow_rate_curve::segment_covers(points, 0, bps));
    assert(crate::borrow_rate_curve::first_segment_from(points, bps, 0) == 0);
    assert(points[1].utilization_rate_bps == 10000);
    assert(points[1].borrow_rate_bps - points[0].borrow_rate_bps == 0);
    assert(bps_val(points[0].utilization_rate_bps as int) == 0);
    assert((u - 0) * 0 / 10000 == 0) by (nonlinear_arith);
}

/// A reserve added to an obligation that did not hold it is found in the
/// slot it was added to, and in no earlier slot.
pub proof fn law_added_deposit_is_found(
    o: Obligation,
    deposit_reserve: Pubkey,
    slot: int,
    added: ObligationCollateral,
    after: Obligation,
)
    requires
        !o.has_deposit_of(deposit_reserve),
        0 <= slot < 8,
        added.deposit_reserve == deposit_reserve,
        after.deposits@ == o.deposits@.update(slot, added),
    ensures
        after.is_first_deposit_of(deposit_reserve, slot),
        after.has_deposit_of(deposit_reserve),
{
    assert forall|j: int| 0 <= j < slot implies !same_key(after.deposits@[j].deposit_reserve, deposit_reserve) by {
        assert(after.deposits@[j] == o.deposits@[j]);
    }
    assert(same_key(after.deposits@[slot].deposit_reserve, deposit_reserve));
}

/// A reserve added to the borrows of an obligation that did not owe it is
/// found in the slot it was added to, and in no earlier slot.
pub proof fn law_added_borrow_is_found(
    o: Obligation,
    borrow_reserve: Pubkey,
    slot: int,
    added: ObligationLiquidity,
    after: Obligation,
)
    requires
        !o.has_borrow_of(borrow_reserve),
        0 <= slot < 5,
        added.borrow_reserve == borrow_reserve,
        after.borrows@ == o.borrows@.update(slot, added),
    ensures
        after.is_first_borrow_of(borrow_reserve, slot),
        after.has_borrow_of(borrow_reserve),
{
    assert forall|j: int| 0 <= j < slot implies !same_key(after.borrows@[j].borrow_reserve, borrow_reserve) by {
        assert(after.borrows@[j] == o.borrows@[j]);
    }
    assert(same_key(after.borrows@[slot].borrow_reserve, borrow_reserve));
}

/// An account refreshed in the current slot with every price check recorded
/// is fresh, whatever checks are required; once marked stale it is stale.
pub proof fn law_refresh_then_stale(lu: LastUpdate, slot: u64, required: PriceStatusFlags)
    requires
        required.bits <= 63,
    ensures
        spec_is_stale(LastUpdate { slot, stale: 0, price_status: 63, ..lu }, slot, required) == Ok::<bool, crate::error::LendingError>(false),
        spec_is_stale(LastUpdate { stale: 1, ..lu }, slot, required) == Ok::<bool, crate::error::LendingError>(true),
{
    let m = required.bits;
    assert((63u8 & 63u8) & m == m) by (bit_vector)
        requires m <= 63u8;
}

/// Depositing and then withdrawing the same amount of collateral leaves the
/// deposit as it was.
pub proof fn law_collateral_deposit_withdraw_inverse(c: ObligationCollateral, amount: u64)
    requires
        c.deposited_amount + amount <= u64::MAX,
    ensures
        ({
            let deposited = ObligationCollateral { deposited_amount: (c.deposited_amount + amount) as u64, ..c };
            &&& amount <= deposited.deposited_amount
            &&& (ObligationCollateral { deposited_amount: (deposited.deposited_amount - amount) as u64, ..deposited }) == c
        }),
{
}

/// Borrowing an amount and then settling the same amount leaves the borrowed
/// amount as it was.
pub proof fn law_borrow_repay_inverse(l: ObligationLiquidity, amount: int, timestamp: u64)
    requires
        0 <= amount,
        l.borrowed_amount_sf + amount <= u128::MAX,
    ensures
        ({
            let borrowed = ObligationLiquidity {
                borrowed_amount_sf: (l.borrowed_amount_sf + amount) as u128,
                last_borrowed_at_timestamp: timestamp,
                ..l
            };
            &&& amount <= borrowed.borrowed_amount_sf
            &&& (ObligationLiquidity { borrowed_amount_sf: (borrowed.borrowed_amount_sf - amount) as u128, ..borrowed }).borrowed_amount_sf == l.borrowed_amount_sf
        }),
{
}

/// A frozen market refuses every update of its configuration.
pub proof fn law_frozen_market_refuses_updates(
    m: LendingMarket,
    mode: UpdateLendingMarketMode,
    v: Seq<u8>,
)
    requires
        m.immutable != 0,
    ensures
        market_update_error(m, mode, v) == Some(LendingError::OperationNotPermittedMarketImmutable),
{
}

/// Once an update has set the market's immutable flag, every later update is
/// refused.
pub proof fn law_freezing_is_final(
    m: LendingMarket,
    frozen: LendingMarket,
    v: Seq<u8>,
    mode: UpdateLendingMarketMode,
    later: Seq<u8>,
)
    requires
        v.len() == 72,
        v[0] == 1,
        market_update_error(m, UpdateLendingMarketMode::UpdateImmutableFlag, v) is None,
        market_updated(m, frozen, UpdateLendingMarketMode::UpdateImmutableFlag, v),
    ensures
        market_update_error(frozen, mode, later) == Some(
            LendingError::OperationNotPermittedMarketImmutable,
        ),
{
}

/// An accepted update whose value buffer was laid out by `to_bytes` stores
/// exactly the value that was laid out.
pub proof fn law_encoded_update_stores_value(
    m: LendingMarket,
    new: LendingMarket,
    mode: UpdateLendingMarketMode,
    value: UpdateLendingMarketConfigValue,
    v: Seq<u8>,
)
    requires
        value.encoded_in(v),
        market_update_error(m, mode, v) is None,
        market_updated(m, new, mode, v),
    ensures
        mode is UpdateOwner ==> (value matches UpdateLendingMarketConfigValue::Pubkey(k) ==> new.lending_market_owner_cached.bytes@ == k.bytes@),
        mode is UpdateRiskCouncil ==> (value matches UpdateLendingMarketConfigValue::Pubkey(k) ==> new.risk_council.bytes@ == k.bytes@),
        mode is UpdateLiquidationMaxValue ==> (value matches UpdateLendingMarketConfigValue::U64(x) ==> new.max_liquidatable_debt_market_value_at_once == x),
        mode is UpdateGlobalAllowedBorrow ==> (value matches UpdateLendingMarketConfigValue::U64(x) ==> new.global_allowed_borrow_value == x),
        mode is UpdateReferralFeeBps ==> (value matches UpdateLendingMarketConfigValue::U16(x) ==> new.referral_fee_bps == x),
        mode is UpdateMinNetValueObligationPostAction ==> (value matches UpdateLendingMarketConfigValue::U128(x) ==> new.min_net_value_in_obligation_sf == x),
        mode is UpdateEmergencyMode ==> (value matches UpdateLendingMarketConfigValue::Bool(b) ==> new.emergency_mode == (if b { 1u8 } else { 0u8 })),
        mode is UpdateName ==> (value matches UpdateLendingMarketConfigValue::Name(n) ==> new.name@ == n@),
        mode is UpdateElevationGroup ==> (value matches UpdateLendingMarketConfigValue::ElevationGroup(g) ==> ({
            let stored = new.elevation_groups@[g.id - 1];
            &&& stored.max_liquidation_bonus_bps == g.max_liquidation_bonus_bps
            &&& stored.id == g.id
            &&& stored.ltv_pct == g.ltv_pct
            &&& stored.liquidation_threshold_pct == g.liquidation_threshold_pct
            &&& stored.allow_new_loans == g.allow_new_loans
            &&& stored.max_reserves_as_collateral == g.max_reserves_as_collateral
            &&& stored.padding_0 == g.padding_0
            &&& stored.debt_reserve.bytes@ == g.debt_reserve.bytes@
            &&& stored.padding_1@ == g.padding_1@
        })),
{
    if mode is UpdateName && value is Name {
        assert(new.name@ =~= v.subrange(0, 32));
    }
    if mode is UpdateElevationGroup {
        if let UpdateLendingMarketConfigValue::ElevationGroup(g) = value {
            let stored = new.elevation_groups@[g.id - 1];
            assert(stored.padding_1@ =~= g.padding_1@);
        }
    }
}

/// Naming a pending admin and then applying it makes that address the admin,
/// and leaves the fee collector as it was.
pub proof fn law_admin_handover(
    c0: GlobalConfig,
    c1: GlobalConfig,
    c2: GlobalConfig,
    v: Seq<u8>,
)
    requires
        v.len() >= 32,
        global_config_updated(c0, c1, UpdateGlobalConfigMode::PendingAdmin, v),
        c2 == (GlobalConfig { global_admin: c1.pending_admin, ..c1 }),
    ensures
        c2.global_admin.bytes@ == v.subrange(0, 32),
        c2.fee_collector == c0.fee_collector,
{
}

/// A reserve setting updated with the raw bytes of a value (see
/// [`UpdateReserveConfigValue::to_raw_bytes`]) holds exactly that value.
pub proof fn law_reserve_encoded_update_stores_value(
    old: Reserve,
    new: Reserve,
    mode: UpdateConfigMode,
    value: UpdateReserveConfigValue,
    v: Seq<u8>,
)
    requires
        value.encoded_in(v),
        reserve_config_updated(old, new, mode, v),
    ensures
        mode is UpdateLoanToValuePct ==> (value matches UpdateReserveConfigValue::U8(x) ==> new.config.loan_to_value_pct == x),
        mode is UpdateLiquidationThresholdPct ==> (value matches UpdateReserveConfigValue::U8(x) ==> new.config.liquidation_threshold_pct == x),
        mode is UpdateMaxLiquidationBonusBps ==> (value matches UpdateReserveConfigValue::U16(x) ==> new.config.max_liquidation_bonus_bps == x),
        mode is UpdateHostFixedInterestRateBps ==> (value matches UpdateReserveConfigValue::U16(x) ==> new.config.host_fixed_interest_rate_bps == x),
        mode is UpdateDepositLimit ==> (value matches UpdateReserveConfigValue::U64(x) ==> new.config.deposit_limit == x),
        mode is UpdateBorrowLimit ==> (value matches UpdateReserveConfigValue::U64(x) ==> new.config.borrow_limit == x),
        mode is UpdateFeesOriginationFee ==> (value matches UpdateReserveConfigValue::U64(x) ==> new.config.fees.origination_fee_sf == x),
        mode is UpdateFeesFlashLoanFee ==> (value matches UpdateReserveConfigValue::U64(x) ==> new.config.fees.flash_loan_fee_sf == x),
        mode is UpdateDeleveragingMarginCallPeriod ==> (value matches UpdateReserveConfigValue::U64(x) ==> new.config.deleveraging_margin_call_period_secs == x),
        mode is UpdateDeleveragingThresholdDecreaseBpsPerDay ==> (value matches UpdateReserveConfigValue::U64(x) ==> new.config.deleveraging_threshold_decrease_bps_per_day == x),
        mode is UpdateScopePriceFeed ==> (value matches UpdateReserveConfigValue::Pubkey(k) ==> new.config.token_info.scope_configuration.price_feed.bytes@ == k.bytes@),
        mode is UpdateTokenInfoName ==> (value matches UpdateReserveConfigValue::Name(n) ==> new.config.token_info.name@ == n@),
        mode is UpdateTokenInfoScopeChain ==> (value matches UpdateReserveConfigValue::ScopeChain(c) ==> new.config.token_info.scope_configuration.price_chain@ == c@),
        mode is UpdateBorrowRateCurve ==> (value matches UpdateReserveConfigValue::BorrowRateCurve(c) ==> new.config.borrow_rate_curve.points@ == c.points@),
        mode is UpdateDebtWithdrawalCap ==> (value matches UpdateReserveConfigValue::WithdrawalCap(cap, interval) ==> cap <= i64::MAX ==> new.config.debt_withdrawal_cap.config_capacity == cap && new.config.debt_withdrawal_cap.config_interval_length_seconds == interval),
        mode is UpdateElevationGroup ==> (value matches UpdateReserveConfigValue::ElevationGroups(g) ==> new.config.elevation_groups@ == g@),
        mode is UpdateBorrowLimitsInElevationGroupAgainstThisReserve ==> (value matches UpdateReserveConfigValue::ElevationGroupBorrowLimits(l) ==> new.config.borrow_limit_against_this_collateral_in_elevation_group@ == l@),
{
    if mode is UpdateScopePriceFeed && value is Pubkey {
        assert(v.subrange(0, 32) =~= v);
    }
    if mode is UpdateTokenInfoName && value is Name {
        assert(v.subrange(0, 32) =~= v);
    }
    if mode is UpdateElevationGroup && value is ElevationGroups {
        assert(v.subrange(0, 20) =~= v);
    }
    if mode is UpdateTokenInfoScopeChain {
        if let UpdateReserveConfigValue::ScopeChain(c) = value {
            assert(new.config.token_info.scope_configuration.price_chain@ =~= c@);
        }
    }
    if mode is UpdateBorrowRateCurve {
        if let UpdateReserveConfigValue::BorrowRateCurve(c) = value {
            assert(new.config.borrow_rate_curve.points@ =~= c.points@);
        }
    }
    if mode is UpdateBorrowLimitsInElevationGroupAgainstThisReserve {
        if let UpdateReserveConfigValue::ElevationGroupBorrowLimits(l) = value {
            assert(new.config.borrow_limit_against_this_collateral_in_elevation_group@ =~= l@);
        }
    }
}

/// On a well-formed curve the borrow rate is defined at every utilization
/// and never falls as utilization rises; from 100% utilization on it stays
/// at its value at 100%.
pub proof fn law_borrow_rate_monotone(pts: Seq<CurvePoint>, u1: int, u2: int)
    requires
        valid_points(pts),
        0 <= u1 <= u2,
    ensures
        spec_borrow_rate(pts, u1) is Ok,
        spec_borrow_rate(pts, u2) is Ok,
        spec_borrow_rate(pts, u1)->Ok_0 <= spec_borrow_rate(pts, u2)->Ok_0,
        u1 >= scale() ==> spec_borrow_rate(pts, u1) == spec_borrow_rate(pts, scale()),
{
    let s = scale();
    lemma_rate_in_segment(pts, u1);
    lemma_rate_in_segment(pts, u2);
    let uc1 = if u1 > s { s } else { u1 };
    let uc2 = if u2 > s { s } else { u2 };
    lemma_round_monotone(uc1 * 10000, uc2 * 10000);
    let b1 = clamped_utilization_bps(u1);
    let b2 = clamped_utilization_bps(u2);
    assert(b1 <= b2);
    lemma_first_segment_covers(pts, b1, 0);
    lemma_first_segment_covers(pts, b2, 0);
    let i1 = first_segment_from(pts, b1, 0);
    let i2 = first_segment_from(pts, b2, 0);
    if i2 < i1 {
        lemma_points_ordered(pts, i2, i1);
        assert(!segment_covers(pts, i2, b1));
        assert(false);
    }
    let r1 = spec_borrow_rate(pts, u1)->Ok_0;
    let r2 = spec_borrow_rate(pts, u2)->Ok_0;
    if i1 < i2 {
        lemma_points_ordered(pts, i1 + 1, i2);
        lemma_bps_val_monotone(
            pts[i1 + 1].borrow_rate_bps as int,
            pts[i2].borrow_rate_bps as int,
        );
    } else {
        let st = pts[i1];
        let en = pts[i1 + 1];
        if b1 != st.utilization_rate_bps && b1 != en.utilization_rate_bps
            && b2 != st.utilization_rate_bps && b2 != en.utilization_rate_bps {
            let su = bps_val(st.utilization_rate_bps as int);
            let rr = en.borrow_rate_bps - st.borrow_rate_bps;
            let d = en.utilization_rate_bps - st.utilization_rate_bps;
            lemma_points_ordered(pts, i1, i1 + 1);
            assert((uc1 - su) * rr <= (uc2 - su) * rr) by (nonlinear_arith)
                requires
                    0 <= uc1 - su <= uc2 - su,
                    rr >= 0,
            ;
            lemma_div_is_ordered((uc1 - su) * rr, (uc2 - su) * rr, d);
        }
    }
}

/// On a well-formed curve the rate at 100% utilization is the rate of the
/// first point at 100% utilization.
pub proof fn law_borrow_rate_at_full_utilization(pts: Seq<CurvePoint>, k: int)
    requires
        valid_points(pts),
        0 <= k < 11,
        pts[k].utilization_rate_bps == MAX_UTILIZATION_RATE_BPS,
        forall|j: int| 0 <= j < k ==> pts[j].utilization_rate_bps != MAX_UTILIZATION_RATE_BPS,
    ensures
        spec_borrow_rate(pts, scale()) == Ok::<int, LendingError>(bps_val(pts[k].borrow_rate_bps as int)),
{
    lemma_rate_in_segment(pts, scale());
    let b = clamped_utilization_bps(scale());
    lemma_round_monotone(scale() * 10000, scale() * 10000);
    assert(b == 10000) by (nonlinear_arith)
        requires
            b == clamped_utilization_bps(scale()),
            scale() == 1152921504606846976,
    {
        assert((scale() * 10000) % scale() == 0 && (scale() * 10000) / scale() == 10000);
    }
    lemma_first_segment_covers(pts, b, 0);
    let i = first_segment_from(pts, b, 0);
    lemma_points_ordered(pts, i + 1, 10);
    if pts[i].utilization_rate_bps == MAX_UTILIZATION_RATE_BPS {
        if i > k {
            lemma_points_ordered(pts, k, k + 1);
            lemma_points_ordered(pts, k + 1, 10);
            assert(!segment_covers(pts, k, b));
        }
        assert(i == k);
    } else {
        if k <= i {
            lemma_points_ordered(pts, k, i);
        }
        assert(k == i + 1);
    }
}

/// When the value to seize, bonus included, exceeds the collateral's value
/// (and the borrow is not small enough to go whole), a liquidation settles
/// only the share of the liquidated debt that the collateral covers: the
/// settled debt times the value to seize is at most the liquidated debt
/// times the collateral's value, and short of it by no more than the
/// fixed-point rounding, all the collateral is seized, and the
/// liquidator repays the settled debt rounded up. When the collateral
/// covers the value to seize, the whole liquidated debt is settled.
pub proof fn law_liquidation_settles_what_the_collateral_covers(
    collateral_reserve: Reserve,
    debt_reserve: Reserve,
    debt_amount_to_liquidate: u64,
    lending_market: LendingMarket,
    o: Obligation,
    liquidity: ObligationLiquidity,
    collateral: ObligationCollateral,
    timestamp: u64,
    is_debt_reserve_highest_borrow_factor: bool,
    is_collateral_reserve_lowest_liquidation_ltv: bool,
    max_allowed_ltv_override_pct_opt: Option<u64>,
)
    requires
        liquidity.borrowed_amount_sf > 0,
        !below_full_liquidation_threshold(lending_market, liquidity) ==> liquidity.market_value_sf > 0,
    ensures
        spec_calculate_liquidation(
            collateral_reserve,
            debt_reserve,
            debt_amount_to_liquidate,
            lending_market,
            o,
            liquidity,
            collateral,
            timestamp,
            is_debt_reserve_highest_borrow_factor,
            is_collateral_reserve_lowest_liquidation_ltv,
            max_allowed_ltv_override_pct_opt,
        ) matches Ok(res) ==> ({
            let p = spec_liquidation_params(
                lending_market,
                collateral_reserve,
                debt_reserve,
                o,
                timestamp,
                is_debt_reserve_highest_borrow_factor,
                is_collateral_reserve_lowest_liquidation_ltv,
                max_allowed_ltv_override_pct_opt,
            )->Ok_0;
            let liquidated = spec_debt_liquidation_amount(
                lending_market,
                o,
                liquidity,
                min_int(debt_amount_to_liquidate * scale(), liquidity.borrowed_amount_sf as int),
                p.user_ltv.val(),
            );
            let to_seize = spec_total_liquidation_value(
                liquidity,
                liquidated,
                res.liquidation_bonus_rate.val(),
            );
            let cv = collateral.market_value_sf as int;
            &&& to_seize > cv && !below_full_liquidation_threshold(lending_market, liquidity) ==> {
                &&& res.settle_amount.val() * to_seize <= liquidated * cv
                &&& liquidated * cv * scale() < (res.settle_amount.val() + 1) * scale() * to_seize
                    + liquidated * to_seize
                &&& res.withdraw_amount == collateral.deposited_amount
                &&& res.repay_amount == ceil_int(res.settle_amount.val())
            }
            &&& to_seize <= cv ==> res.settle_amount.val() == liquidated
        }),
{
    law_liquidation_within_bounds(
        collateral_reserve,
        debt_reserve,
        debt_amount_to_liquidate,
        lending_market,
        o,
        liquidity,
        collateral,
        timestamp,
        is_debt_reserve_highest_borrow_factor,
        is_collateral_reserve_lowest_liquidation_ltv,
        max_allowed_ltv_override_pct_opt,
    );
    let r = spec_calculate_liquidation(
        collateral_reserve,
        debt_reserve,
        debt_amount_to_liquidate,
        lending_market,
        o,
        liquidity,
        collateral,
        timestamp,
        is_debt_reserve_highest_borrow_factor,
        is_collateral_reserve_lowest_liquidation_ltv,
        max_allowed_ltv_override_pct_opt,
    );
    if r is Ok {
        let p = spec_liquidation_params(
            lending_market,
            collateral_reserve,
            debt_reserve,
            o,
            timestamp,
            is_debt_reserve_highest_borrow_factor,
            is_collateral_reserve_lowest_liquidation_ltv,
            max_allowed_ltv_override_pct_opt,
        )->Ok_0;
        let borrowed = liquidity.borrowed_amount_sf as int;
        let to_liquidate = min_int(debt_amount_to_liquidate * scale(), borrowed);
        let below = below_full_liquidation_threshold(lending_market, liquidity);
        let debt_liq = spec_debt_liquidation_amount(
            lending_market,
            o,
            liquidity,
            to_liquidate,
            p.user_ltv.val(),
        );
        assert(0 <= debt_amount_to_liquidate * scale()) by (nonlinear_arith);
        if !below {
            lemma_max_liquidatable_nonneg(
                o,
                lending_market.liquidation_max_debt_close_factor_pct as int,
                lending_market.max_liquidatable_debt_market_value_at_once as int,
                liquidity,
                p.user_ltv.val(),
                lending_market.insolvency_risk_unhealthy_ltv_pct as int,
            );
        }
        assert(0 <= debt_liq <= to_liquidate);
        lemma_ratio_at_most_one(debt_liq, borrowed);
        let ratio = spec_div(debt_liq, borrowed);
        lemma_scaled_at_most(liquidity.market_value_sf as int, ratio);
        let v = spec_mul(liquidity.market_value_sf as int, ratio);
        let total = spec_total_liquidation_value(liquidity, debt_liq, p.liquidation_bonus_rate.val());
        assert(0 <= total) by (nonlinear_arith)
            requires
                total == v * (p.liquidation_bonus_rate.val() + scale()) / scale(),
                0 <= v,
                0 <= p.liquidation_bonus_rate.val(),
        ;
        let cv = collateral.market_value_sf as int;
        let amounts = spec_liquidation_amounts(total, collateral, debt_liq, below);
        if total > cv && !below {
            lemma_ratio_at_most_one(cv, total);
            lemma_scaled_at_most(debt_liq, spec_div(cv, total));
            let q = spec_div(cv, total);
            let settle = spec_mul(debt_liq, q);
            assert(settle * total <= debt_liq * cv) by (nonlinear_arith)
                requires
                    q == cv * scale() / total,
                    settle == debt_liq * q / scale(),
                    total > 0,
                    cv >= 0,
                    debt_liq >= 0,
                    q >= 0,
                    scale() > 0,
            {
                assert(q * total <= cv * scale());
                assert(settle * scale() <= debt_liq * q);
                assert(settle * scale() * total <= debt_liq * q * total);
                assert(debt_liq * (q * total) <= debt_liq * (cv * scale()));
                assert(settle * total * scale() <= debt_liq * cv * scale());
            }
            assert(debt_liq * cv * scale() < (settle + 1) * scale() * total + debt_liq * total)
                by (nonlinear_arith)
                requires
                    q == cv * scale() / total,
                    settle == debt_liq * q / scale(),
                    total > 0,
                    cv >= 0,
                    debt_liq >= 0,
                    q >= 0,
                    scale() > 0,
            {
                assert(q * total > cv * scale() - total);
                assert((settle + 1) * scale() > debt_liq * q);
                assert((settle + 1) * scale() * total > debt_liq * q * total);
                assert(debt_liq * (q * total) >= debt_liq * (cv * scale() - total));
            }
            assert(amounts.0 == settle);
        }
    }
}

/// Which order conditions are hit: a price-ratio condition compares the debt
/// reserve's price over the collateral reserve's price with its threshold,
/// "below" when strictly under it and "above" when strictly over it; an LTV
/// condition compares the obligation's LTV likewise. A "below" hit reports
/// its relative distance under the threshold, between zero and one.
pub proof fn law_order_conditions_hit_on_the_right_side(
    t: Fraction,
    collateral_reserve: Reserve,
    debt_reserve: Reserve,
    o: Obligation,
)
    requires
        collateral_reserve.liquidity.market_price_sf > 0,
    ensures
        ({
            let ratio = (debt_reserve.liquidity.market_price_sf as int) * scale()
                / (collateral_reserve.liquidity.market_price_sf as int);
            &&& spec_evaluate(OrderCondition::DebtCollPriceRatioBelow(t), collateral_reserve, debt_reserve, o) is Some
                <==> ratio < t.val()
            &&& spec_evaluate(OrderCondition::DebtCollPriceRatioAbove(t), collateral_reserve, debt_reserve, o) is Some
                <==> ratio > t.val()
            &&& spec_evaluate(OrderCondition::DebtCollPriceRatioBelow(t), collateral_reserve, debt_reserve, o)
                matches Some(Some(d)) ==> 0 <= d <= scale() && d * t.val() <= (t.val() - ratio) * scale()
        }),
        spec_evaluate(OrderCondition::UserLtvBelow(t), collateral_reserve, debt_reserve, o) is Some
            <==> o.spec_ltv() < t.val(),
        spec_evaluate(OrderCondition::UserLtvAbove(t), collateral_reserve, debt_reserve, o) is Some
            <==> o.spec_ltv() > t.val(),
        spec_evaluate(OrderCondition::Always, collateral_reserve, debt_reserve, o) is Some,
        spec_evaluate(OrderCondition::Never, collateral_reserve, debt_reserve, o) is None,
{
    let ratio = (debt_reserve.liquidity.market_price_sf as int) * scale()
        / (collateral_reserve.liquidity.market_price_sf as int);
    assert(ratio >= 0) by (nonlinear_arith)
        requires
            ratio == (debt_reserve.liquidity.market_price_sf as int) * scale()
                / (collateral_reserve.liquidity.market_price_sf as int),
            collateral_reserve.liquidity.market_price_sf > 0,
            scale() > 0,
    ;
    let tv = t.val();
    if ratio < tv {
        let d = (tv - ratio) * scale() / tv;
        assert(0 <= d <= scale() && d * tv <= (tv - ratio) * scale()) by (nonlinear_arith)
            requires
                d == (tv - ratio) * scale() / tv,
                0 <= ratio < tv,
                scale() > 0,
        ;
    }
}

/// Deposits and redemptions run at the reserve's exchange rate: the
/// collateral tokens in circulation over the reserve's total supply, which
/// counts the available and the borrowed liquidity less the fees set aside
/// for the protocol and the referrers. A deposit of `liquidity_amount`
/// tokens mints the collateral they are worth at that rate, rounded down;
/// a redemption of `collateral_amount` collateral tokens pays the liquidity
/// they are worth, rounded down.
pub proof fn law_exchange_rate_counts_the_total_supply(
    r: Reserve,
    liquidity_amount: u64,
    collateral_amount: u64,
)
    requires
        r.collateral.mint_total_supply > 0,
        r.liquidity.available_amount * scale() + r.liquidity.borrowed_amount_sf <= u128::MAX,
        r.liquidity.available_amount * scale() + r.liquidity.borrowed_amount_sf
            - r.liquidity.accumulated_protocol_fees_sf - r.liquidity.accumulated_referrer_fees_sf
            - r.liquidity.pending_referrer_fees_sf > 0,
    ensures
        ({
            let supply = r.liquidity.available_amount * scale() + r.liquidity.borrowed_amount_sf
                - r.liquidity.accumulated_protocol_fees_sf
                - r.liquidity.accumulated_referrer_fees_sf - r.liquidity.pending_referrer_fees_sf;
            let mint = r.collateral.mint_total_supply as int;
            let minted = spec_minted_collateral(r, liquidity_amount);
            let paid = spec_redeemed_liquidity(r, collateral_amount);
            &&& minted * supply <= liquidity_amount * mint * scale() < (minted + 1) * supply
            &&& paid * mint * scale() <= collateral_amount * supply < (paid + 1) * mint * scale()
        }),
{
    let s = scale();
    let supply = r.liquidity.available_amount * s + r.liquidity.borrowed_amount_sf
        - r.liquidity.accumulated_protocol_fees_sf - r.liquidity.accumulated_referrer_fees_sf
        - r.liquidity.pending_referrer_fees_sf;
    let mint = r.collateral.mint_total_supply as int;
    let l = liquidity_amount as int;
    let c = collateral_amount as int;
    let x = mint * l * s * s;
    assert(x >= 0) by (nonlinear_arith)
        requires
            x == mint * l * s * s,
            mint >= 0,
            l >= 0,
            s > 0,
    ;
    let rate = spec_exchange_rate(r);
    assert(rate.collateral_supply == mint && rate.liquidity.val() == supply);
    lemma_div_denominator(x, supply, s);
    let minted = x / (supply * s);
    assert(spec_l2c_amount_frac(rate, l) == x / supply);
    assert(minted == spec_minted_collateral(r, liquidity_amount));
    assert(minted * supply <= l * mint * s < (minted + 1) * supply) by (nonlinear_arith)
        requires
            minted == x / (supply * s),
            x == mint * l * s * s,
            supply > 0,
            s > 0,
    {
        lemma_fundamental_div_mod(x, supply * s);
        assert(minted * (supply * s) <= x < (minted + 1) * (supply * s));
        assert((minted * supply) * s <= (l * mint * s) * s);
        assert((l * mint * s) * s < ((minted + 1) * supply) * s);
    }
    let y = c * s * supply;
    assert(y / s == c * supply) by (nonlinear_arith)
        requires
            y == c * s * supply,
            s > 0,
    ;
    let z = c * supply;
    assert(z >= 0) by (nonlinear_arith)
        requires
            z == c * supply,
            c >= 0,
            supply > 0,
    ;
    lemma_div_denominator(z, mint, s);
    let paid = z / (mint * s);
    assert(spec_c2l_frac(rate, c * s) == z / mint);
    assert(paid == spec_redeemed_liquidity(r, collateral_amount));
    assert(paid * mint * s <= z < (paid + 1) * mint * s) by (nonlinear_arith)
        requires
            paid == z / (mint * s),
            mint > 0,
            s > 0,
    {
        lemma_fundamental_div_mod(z, mint * s);
    }
}

/// An accrual of interest credits the protocol with its share of the new
/// debt: the protocol's fees plus the referrers' pending fees grow by exactly
/// the host's fixed-rate interest plus the protocol's take rate times the
/// rest of the new interest (the new debt less the old debt and the fixed
/// part). Without referral fees, once that share reaches a scaled unit the
/// protocol's fees strictly grow.
pub proof fn law_accrual_credits_the_protocol(
    reserve: Reserve,
    new_liquidity: ReserveLiquidity,
    current_slot: u64,
    referral_fee_bps: u16,
    r: Result<(), LendingError>,
)
    requires
        spec_accrue_outcome(reserve, new_liquidity, current_slot, referral_fee_bps, r),
        current_slot > reserve.last_update.slot,
        spec_borrow_rate(
            reserve.config.borrow_rate_curve.points@,
            utilization_val(reserve.liquidity),
        ) is Ok,
    ensures
        ({
            let old = reserve.liquidity;
            let prev = old.borrowed_amount_sf as int;
            let slots = current_slot - reserve.last_update.slot;
            let fixed = spec_mul(
                prev,
                spec_compounded(bps_val(reserve.config.host_fixed_interest_rate_bps as int), slots),
            ) - prev;
            let net = new_liquidity.borrowed_amount_sf - prev - fixed;
            let take = pct_val(reserve.config.protocol_take_rate_pct as int);
            &&& new_liquidity.accumulated_protocol_fees_sf + new_liquidity.pending_referrer_fees_sf
                == old.accumulated_protocol_fees_sf + old.pending_referrer_fees_sf + fixed
                + spec_mul(net, take)
            &&& referral_fee_bps == 0 && net * take >= scale()
                ==> new_liquidity.accumulated_protocol_fees_sf > old.accumulated_protocol_fees_sf
        }),
{
    let old = reserve.liquidity;
    let prev = old.borrowed_amount_sf as int;
    let slots = current_slot - reserve.last_update.slot;
    let host = bps_val(reserve.config.host_fixed_interest_rate_bps as int);
    let cf = spec_compounded(host, slots);
    let fixed = spec_mul(prev, cf) - prev;
    let net = new_liquidity.borrowed_amount_sf - prev - fixed;
    let take = pct_val(reserve.config.protocol_take_rate_pct as int);
    if referral_fee_bps == 0 && net * take >= scale() {
        assert(host >= 0) by (nonlinear_arith)
            requires
                host == (reserve.config.host_fixed_interest_rate_bps as int) * scale() / 10000,
                scale() > 0,
        ;
        law_compounded_factor_at_least_one(host, slots);
        assert(spec_mul(prev, cf) >= prev) by (nonlinear_arith)
            requires
                cf >= scale(),
                prev >= 0,
                scale() > 0,
        {
            assert(prev * cf >= prev * scale());
        }
        assert(spec_mul(net, take) >= 1) by (nonlinear_arith)
            requires
                net * take >= scale(),
                scale() > 0,
        ;
        assert(bps_val(0) == 0);
        assert(spec_mul(take, 0) == 0);
        assert(spec_mul(net, 0) == 0);
    }
}

} // verus!
