use klend::token_info::TokenInfo;
use klend::borrow_rate_curve::BorrowRateCurve;
use klend::error::LendingError;
use klend::fraction::Fraction;
use klend::lending_market::{ElevationGroup, LendingMarket};
use klend::last_update::LastUpdate;
use klend::liquidation_operations::{
    calculate_autodeleverage_bonus, calculate_liquidation, calculate_protocol_liquidation_fee,
    check_liquidate_obligation, get_liquidation_params, get_secs_since_deleveraging_started,
    max_liquidatable_borrowed_amount,
};
use klend::big_fraction::BigFraction;
use klend::obligation::{Obligation, ObligationCollateral, ObligationLiquidity};
use klend::pubkey::Pubkey;
use klend::reserve::{
    NewReserveCollateralParams, NewReserveLiquidityParams, Reserve, ReserveCollateral, ReserveConfig,
    ReserveFees, ReserveLiquidity,
};
use klend::types::LiquidationReason;
use klend::withdrawal_caps::WithdrawalCaps;

const ONE: u128 = 1u128 << 60;

fn key(n: u8) -> Pubkey {
    Pubkey::new_from_array([n; 32])
}

fn caps() -> WithdrawalCaps {
    WithdrawalCaps {
        config_capacity: 0,
        current_total: 0,
        last_interval_start_timestamp: 0,
        config_interval_length_seconds: 0,
    }
}

fn config() -> ReserveConfig {
    ReserveConfig {
        status: 0,
        asset_tier: 0,
        host_fixed_interest_rate_bps: 0,
        min_deleveraging_bonus_bps: 0,
        reserved_1: [0; 7],
        protocol_order_execution_fee_pct: 0,
        protocol_take_rate_pct: 0,
        protocol_liquidation_fee_pct: 0,
        loan_to_value_pct: 75,
        liquidation_threshold_pct: 80,
        min_liquidation_bonus_bps: 200,
        max_liquidation_bonus_bps: 1000,
        bad_debt_liquidation_bonus_bps: 99,
        deleveraging_margin_call_period_secs: 0,
        deleveraging_threshold_decrease_bps_per_day: 0,
        fees: ReserveFees { origination_fee_sf: 0, flash_loan_fee_sf: 0, padding: [0; 8] },
        borrow_rate_curve: BorrowRateCurve::new_flat(0),
        borrow_factor_pct: 100,
        deposit_limit: u64::MAX,
        borrow_limit: u64::MAX,
        token_info: TokenInfo::default(),
        deposit_withdrawal_cap: caps(),
        debt_withdrawal_cap: caps(),
        elevation_groups: [0; 20],
        disable_usage_as_coll_outside_emode: 0,
        utilization_limit_block_borrowing_above_pct: 0,
        autodeleverage_enabled: 0,
        proposer_authority_locked: 0,
        borrow_limit_outside_elevation_group: u64::MAX,
        borrow_limit_against_this_collateral_in_elevation_group: [0; 32],
        deleveraging_bonus_increase_bps_per_day: 0,
    }
}

fn reserve(price: u128) -> Reserve {
    Reserve {
        version: 1,
        last_update: LastUpdate::new(0),
        lending_market: key(1),
        farm_collateral: Pubkey::default_key(),
        farm_debt: Pubkey::default_key(),
        liquidity: ReserveLiquidity::new(NewReserveLiquidityParams {
            mint_pubkey: key(2),
            mint_decimals: 6,
            mint_token_program: key(3),
            supply_vault: key(4),
            fee_vault: key(5),
            market_price_sf: price,
            initial_amount_deposited_in_reserve: 1000,
        }),
        collateral: ReserveCollateral::new(NewReserveCollateralParams {
            mint_pubkey: key(6),
            supply_vault: key(7),
            initial_collateral_supply: 1000,
        }),
        config: config(),
        borrowed_amount_outside_elevation_group: 0,
        borrowed_amounts_against_this_reserve_in_elevation_groups: [0; 32],
    }
}

fn market() -> LendingMarket {
    let g = ElevationGroup::default();
    LendingMarket {
        version: 1,
        bump_seed: 0,
        lending_market_owner: key(1),
        lending_market_owner_cached: key(1),
        quote_currency: [0; 32],
        referral_fee_bps: 0,
        emergency_mode: 0,
        autodeleverage_enabled: 0,
        borrow_disabled: 0,
        price_refresh_trigger_to_max_age_pct: 0,
        liquidation_max_debt_close_factor_pct: 20,
        insolvency_risk_unhealthy_ltv_pct: 95,
        min_full_liquidation_value_threshold: 2,
        max_liquidatable_debt_market_value_at_once: 500000,
        reserved0: [0; 8],
        global_allowed_borrow_value: 45000000,
        risk_council: key(1),
        reserved1: [0; 8],
        elevation_groups: [g; 32],
        elevation_group_padding: [0; 90],
        min_net_value_in_obligation_sf: 0,
        min_value_skip_liquidation_ltv_checks: 0,
        name: [0; 32],
        min_value_skip_liquidation_bf_checks: 0,
        individual_autodeleverage_margin_call_period_secs: 0,
        min_initial_deposit_amount: 0,
        obligation_order_execution_enabled: 0,
        immutable: 0,
        obligation_order_creation_enabled: 0,
        padding2: [0; 5],
        padding1: [0; 169],
    }
}

/// An obligation with 100 of deposited value, 85 of debt value and an
/// unhealthy value of 80: its LTV (0.85) is past the allowed 0.8.
fn unhealthy_obligation() -> (Obligation, ObligationLiquidity, ObligationCollateral) {
    let mut o = Obligation::default();
    o.deposited_value_sf = 100 * ONE;
    o.borrow_factor_adjusted_debt_value_sf = 85 * ONE;
    o.borrowed_assets_market_value_sf = 85 * ONE;
    o.unhealthy_borrow_value_sf = 80 * ONE;
    o.allowed_borrow_value_sf = 75 * ONE;
    let mut l = ObligationLiquidity::new(key(20), BigFraction::from_num(1));
    l.borrowed_amount_sf = 85 * ONE;
    l.market_value_sf = 85 * ONE;
    let mut c = ObligationCollateral::new(key(21));
    c.deposited_amount = 100;
    c.market_value_sf = 100 * ONE;
    o.borrows[0] = l;
    o.deposits[0] = c;
    (o, l, c)
}

#[test]
fn deleveraging_start() {
    assert_eq!(get_secs_since_deleveraging_started(100, 150), Some(50));
    assert_eq!(get_secs_since_deleveraging_started(100, 100), Some(0));
    assert_eq!(get_secs_since_deleveraging_started(100, 99), None);
}

#[test]
fn autodeleverage_bonus_grows_and_is_capped() {
    let no_bf = Fraction::from_bits(ONE / 2);
    // 50 bps + 100 bps per day over two days = 250 bps
    let b = calculate_autodeleverage_bonus(100, 1000, u16::MAX, Fraction::from_num(2), &no_bf);
    assert_eq!(b.to_bits(), Fraction::from_bps(50).to_bits() + 2 * Fraction::from_bps(100).to_bits());
    // capped by the reserve maximum
    let capped = calculate_autodeleverage_bonus(100, 100, u16::MAX, Fraction::from_num(2), &no_bf);
    assert_eq!(capped.to_bits(), Fraction::from_bps(100).to_bits());
    // capped by the distance to bad debt
    let near = Fraction::from_bits(ONE - ONE / 1000);
    let bd = calculate_autodeleverage_bonus(100, 1000, u16::MAX, Fraction::from_num(2), &near);
    assert_eq!(bd.to_bits(), ONE / 1000);
}

#[test]
fn protocol_liquidation_fee_values() {
    // 1100 liquidated with a 10% bonus: the bonus part is 100, 50% of it is 50.
    let fee = calculate_protocol_liquidation_fee(1100, Fraction::from_percent(10), 50);
    assert!(fee == 50 || fee == 51);
    // at least one token
    assert_eq!(calculate_protocol_liquidation_fee(1, Fraction::from_percent(1), 1), 1);
    assert_eq!(calculate_protocol_liquidation_fee(0, Fraction::zero(), 0), 1);
}

#[test]
fn max_liquidatable_amount_uses_close_factor() {
    let (o, l, _) = unhealthy_obligation();
    // 20% of 85 of debt value is 17, of a borrow worth 85 holding 85 tokens.
    let m = max_liquidatable_borrowed_amount(&o, 20, 500000, &l, Fraction::from_bits(ONE * 85 / 100), 95);
    assert!(m.to_bits() <= 17 * ONE && m.to_bits() >= 17 * ONE - 100);
    // past the insolvency-risk LTV the whole borrow may go
    let all = max_liquidatable_borrowed_amount(&o, 20, 500000, &l, Fraction::from_bits(ONE * 96 / 100), 95);
    assert_eq!(all.to_bits(), 85 * ONE);
    // the market cap limits it too
    let capped = max_liquidatable_borrowed_amount(&o, 100, 5, &l, Fraction::from_bits(ONE / 2), 95);
    assert_eq!(capped.to_bits(), 5 * ONE - 80);
}

#[test]
fn unhealthy_obligation_is_liquidatable() {
    let (o, _, _) = unhealthy_obligation();
    let coll = reserve(ONE);
    let debt = reserve(ONE);
    let p = check_liquidate_obligation(&market(), &coll, &debt, &o, None).unwrap();
    assert_eq!(p.liquidation_reason, LiquidationReason::LtvExceeded);
    let ltv = Fraction::from_bits(85 * ONE).div(Fraction::from_bits(100 * ONE));
    let allowed = Fraction::from_bits(80 * ONE).div(Fraction::from_bits(100 * ONE));
    assert_eq!(p.user_ltv.to_bits(), ltv.to_bits());
    // the bonus is the LTV excess (0.05) kept between 2% and 10%
    let excess = ltv.to_bits() - allowed.to_bits();
    assert_eq!(p.liquidation_bonus_rate.to_bits(), excess);
    // a healthy override is not liquidatable through the LTV path
    assert!(check_liquidate_obligation(&market(), &coll, &debt, &o, Some(90)).is_none());
}

#[test]
fn liquidation_priority_errors() {
    let (o, _, _) = unhealthy_obligation();
    let coll = reserve(ONE);
    let debt = reserve(ONE);
    let r = get_liquidation_params(&market(), &coll, &debt, &o, 0, false, true, None);
    assert_eq!(r.err(), Some(LendingError::LiquidationBorrowFactorPriority));
    let r2 = get_liquidation_params(&market(), &coll, &debt, &o, 0, true, false, None);
    assert_eq!(r2.err(), Some(LendingError::LiquidationLowestLTVPriority));
    let r3 = get_liquidation_params(&market(), &coll, &debt, &o, 0, true, true, Some(90));
    assert_eq!(r3.err(), Some(LendingError::ObligationHealthy));
}

#[test]
fn liquidation_amounts() {
    let (o, l, c) = unhealthy_obligation();
    let coll = reserve(ONE);
    let debt = reserve(ONE);
    let res = calculate_liquidation(&coll, &debt, 10, &market(), &o, &l, &c, 0, true, true, None).unwrap();
    // the liquidator offered 10 tokens, below the close factor limit of 17
    assert_eq!(res.settle_amount.to_bits(), 10 * ONE);
    assert_eq!(res.repay_amount, 10);
    assert!(res.withdraw_amount <= 11 && res.withdraw_amount >= 10);
    assert_eq!(res.liquidation_reason, LiquidationReason::LtvExceeded);
}

#[test]
fn liquidation_errors() {
    let (mut o, l, c) = unhealthy_obligation();
    let coll = reserve(ONE);
    let debt = reserve(ONE);
    let mut small = l;
    small.market_value_sf = ONE;
    let r = calculate_liquidation(&coll, &debt, 10, &market(), &o, &small, &c, 0, true, true, None);
    assert_eq!(r.err(), Some(LendingError::RepayTooSmallForFullLiquidation));
    o.deposited_value_sf = 0;
    let r2 = calculate_liquidation(&coll, &debt, 10, &market(), &o, &l, &c, 0, true, true, None);
    assert_eq!(r2.err(), Some(LendingError::InvalidObligationCollateral));
}
