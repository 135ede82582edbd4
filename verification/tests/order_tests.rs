use klend::token_info::TokenInfo;
use klend::error::LendingError;
use klend::fraction::Fraction;
use klend::lending_market::{ElevationGroup, LendingMarket};
use klend::obligation::{Obligation, ObligationCollateral, ObligationLiquidity, ObligationOrder};
use klend::big_fraction::BigFraction;
use klend::obligation_order_operations::{
    calculate_bonus_amount, calculate_order_execution_bonus_rate, check_orders_supported_after_user_operation,
    evaluate_stop_loss, evaluate_take_profit, interpolate_bonus_rate, is_term_satisfied,
    remove_all_orders, set_order_on_obligation, validate_order, ConditionHit, ConditionType,
    OrderCondition,
};
use klend::order_operations;
use klend::pubkey::Pubkey;
use klend::borrow_rate_curve::BorrowRateCurve;
use klend::last_update::LastUpdate;
use klend::reserve::{
    NewReserveCollateralParams, NewReserveLiquidityParams, Reserve, ReserveCollateral, ReserveConfig,
    ReserveFees, ReserveLiquidity,
};
use klend::withdrawal_caps::WithdrawalCaps;

const ONE: u128 = 1u128 << 60;

fn key(n: u8) -> Pubkey {
    Pubkey::new_from_array([n; 32])
}

fn market(creation_enabled: bool) -> LendingMarket {
    let g = ElevationGroup::default();
    LendingMarket {
        version: 1,
        bump_seed: 0,
        lending_market_owner: key(1),
        lending_market_owner_cached: key(1),
        quote_currency: [0; 32],
        referral_fee_bps: 0,
        emergency_mode: 0,
        autodeleverage_enabled: 0,
        borrow_disabled: 0,
        price_refresh_trigger_to_max_age_pct: 0,
        liquidation_max_debt_close_factor_pct: 20,
        insolvency_risk_unhealthy_ltv_pct: 95,
        min_full_liquidation_value_threshold: 2,
        max_liquidatable_debt_market_value_at_once: 500000,
        reserved0: [0; 8],
        global_allowed_borrow_value: 0,
        risk_council: key(1),
        reserved1: [0; 8],
        elevation_groups: [g; 32],
        elevation_group_padding: [0; 90],
        min_net_value_in_obligation_sf: 0,
        min_value_skip_liquidation_ltv_checks: 0,
        name: [0; 32],
        min_value_skip_liquidation_bf_checks: 0,
        individual_autodeleverage_margin_call_period_secs: 0,
        min_initial_deposit_amount: 0,
        obligation_order_execution_enabled: 0,
        immutable: 0,
        obligation_order_creation_enabled: if creation_enabled { 1 } else { 0 },
        padding2: [0; 5],
        padding1: [0; 169],
    }
}

/// A stop-loss order: when the LTV rises above 0.7, deleverage down to 0.5.
fn stop_loss_order() -> ObligationOrder {
    let mut o = ObligationOrder::default();
    o.condition_type = 1;
    o.condition_threshold_sf = ONE * 7 / 10;
    o.opportunity_type = 2;
    o.opportunity_parameter_sf = ONE / 2;
    o.min_execution_bonus_bps = 50;
    o.max_execution_bonus_bps = 100;
    o
}

#[test]
fn iter_active_lists_six_conditions() {
    let all = ConditionType::iter_active();
    assert_eq!(all.len(), 6);
    assert_eq!(all[0], ConditionType::UserLtvAbove);
    assert_eq!(all[5], ConditionType::LiquidationLtvCloserThan);
}

#[test]
fn term_satisfaction() {
    assert!(is_term_satisfied(None, None));
    assert!(!is_term_satisfied(None, Some(5)));
    assert!(is_term_satisfied(Some(5), None));
    assert!(is_term_satisfied(Some(5), Some(5)));
    assert!(!is_term_satisfied(Some(6), Some(5)));
}

#[test]
fn stop_loss_distance() {
    // LTV 0.75 between threshold 0.5 and liquidation 1: halfway.
    let h = evaluate_stop_loss(
        Fraction::from_bits(ONE * 3 / 4),
        Fraction::from_bits(ONE / 2),
        Fraction::from_bits(ONE),
    )
    .unwrap();
    assert_eq!(h.normalized_distance_from_threshold.map(|f| f.to_bits()), Some(ONE / 2));
    // past the liquidation threshold the distance is capped at one
    let capped = evaluate_stop_loss(Fraction::from_num(2), Fraction::from_bits(ONE / 2), Fraction::from_num(1)).unwrap();
    assert_eq!(capped.normalized_distance_from_threshold.map(|f| f.to_bits()), Some(ONE));
    assert!(evaluate_stop_loss(Fraction::from_bits(ONE / 2), Fraction::from_bits(ONE / 2), Fraction::one()).is_none());
}

#[test]
fn take_profit_distance() {
    let h = evaluate_take_profit(Fraction::from_bits(ONE / 4), Fraction::from_bits(ONE / 2)).unwrap();
    assert_eq!(h.normalized_distance_from_threshold.map(|f| f.to_bits()), Some(ONE / 2));
    assert!(evaluate_take_profit(Fraction::from_bits(ONE), Fraction::from_bits(ONE / 2)).is_none());
}

#[test]
fn older_stop_loss_is_not_capped() {
    let h = order_operations::evaluate_stop_loss(Fraction::from_num(3), Fraction::from_num(1), Fraction::from_num(2)).unwrap();
    assert_eq!(h.normalized_distance_from_threshold.map(|f| f.to_bits()), Some(2 * ONE));
    assert!(order_operations::ConditionType::UserLtvAbove.is_price_triggered());
    assert!(!order_operations::ConditionType::Always.is_price_triggered());
    assert!(order_operations::ConditionHit::without_distance().normalized_distance_from_threshold.is_none());
}

#[test]
fn interpolation_and_bonus_amount() {
    let r = interpolate_bonus_rate(Fraction::from_bits(ONE / 2), Fraction::from_bits(ONE / 10), Fraction::from_bits(ONE * 3 / 10));
    let expected = ONE / 10 + (ONE * 3 / 10 - ONE / 10) / 2;
    assert!(r.to_bits() + 1 >= expected && r.to_bits() <= expected);
    // 110 with a bonus factor of 1.1 holds a bonus of 10
    let b = calculate_bonus_amount(Fraction::from_num(110), Fraction::from_bits(ONE + ONE / 10));
    assert!(b.to_bits() <= 10 * ONE && b.to_bits() >= 10 * ONE - 200);
}

#[test]
fn validate_accepts_good_and_void_orders() {
    assert_eq!(validate_order(&ObligationOrder::default()), Ok(()));
    assert_eq!(validate_order(&stop_loss_order()), Ok(()));
    assert_eq!(order_operations::validate_order(ObligationOrder::default()), Ok(()));
}

#[test]
fn validate_rejects_bad_orders() {
    let mut o = stop_loss_order();
    o.condition_threshold_sf = ONE;
    assert_eq!(validate_order(&o), Err(LendingError::InvalidOrderConfiguration));
    let mut o2 = stop_loss_order();
    o2.opportunity_parameter_sf = ONE * 8 / 10; // target above an "LTV above 0.7" threshold
    assert_eq!(validate_order(&o2), Err(LendingError::InvalidOrderConfiguration));
    let mut o3 = stop_loss_order();
    o3.max_execution_bonus_bps = 2000; // beyond the sanity limit
    assert_eq!(validate_order(&o3), Err(LendingError::InvalidOrderConfiguration));
    let mut o4 = stop_loss_order();
    o4.condition_type = 9;
    assert_eq!(validate_order(&o4), Err(LendingError::InvalidOrderConfiguration));
    let mut o5 = stop_loss_order();
    o5.opportunity_type = 1; // lever up on a risk-increasing condition
    o5.opportunity_parameter_sf = 5 * ONE;
    o5.debt_mint_address = key(1);
    o5.collateral_mint_address = key(2);
    o5.max_borrow_rate_bps = 100;
    assert_eq!(validate_order(&o5), Err(LendingError::InvalidOrderConfiguration));
    let mut o6 = ObligationOrder::default();
    o6.padding1[0] = 1;
    assert_eq!(validate_order(&o6), Err(LendingError::InvalidOrderConfiguration));
}

#[test]
fn set_and_remove_orders() {
    let mut o = Obligation::default();
    let order = stop_loss_order();
    assert_eq!(
        set_order_on_obligation(&market(false), &mut o, 0, order, Fraction::zero()),
        Err(LendingError::OrderCreationDisabled)
    );
    assert_eq!(
        set_order_on_obligation(&market(true), &mut o, 2, order, Fraction::zero()),
        Err(LendingError::OrderIndexOutOfBounds)
    );
    assert_eq!(
        set_order_on_obligation(&market(true), &mut o, 0, order, Fraction::from_num(1)),
        Err(LendingError::ExpectationNotMet)
    );
    assert_eq!(set_order_on_obligation(&market(true), &mut o, 1, order, Fraction::zero()), Ok(()));
    assert_eq!(o.obligation_orders[1].condition_type, 1);
    assert_eq!(o.active_obligation_orders().len(), 1);
    let mut bad = order;
    bad.condition_type = 42;
    assert_eq!(
        set_order_on_obligation(&market(true), &mut o, 0, bad, Fraction::zero()),
        Err(LendingError::InvalidOrderConfiguration)
    );
    assert!(remove_all_orders(&mut o));
    assert!(!remove_all_orders(&mut o));
    assert_eq!(check_orders_supported_after_user_operation(&mut o), Ok(()));
}

#[test]
fn price_ratio_order_needs_single_debt_and_collateral() {
    let mut o = Obligation::default();
    let mut order = ObligationOrder::default();
    order.condition_type = 4;
    order.condition_threshold_sf = ONE;
    order.opportunity_type = 2;
    order.opportunity_parameter_sf = ONE / 2;
    assert_eq!(
        set_order_on_obligation(&market(true), &mut o, 0, order, Fraction::zero()),
        Err(LendingError::OrderConfigurationNotSupportedByObligation)
    );
    o.deposits[0] = ObligationCollateral::new(key(3));
    o.borrows[0] = ObligationLiquidity::new(key(4), BigFraction::from_num(1));
    assert_eq!(set_order_on_obligation(&market(true), &mut o, 0, order, Fraction::zero()), Ok(()));
    o.borrows[1] = ObligationLiquidity::new(key(5), BigFraction::from_num(1));
    assert_eq!(
        check_orders_supported_after_user_operation(&mut o),
        Err(LendingError::OperationNotPermittedWithCurrentObligationOrders)
    );
}

#[test]
fn execution_bonus_rate() {
    let order = stop_loss_order();
    let hit = ConditionHit::with_distance(Fraction::from_bits(ONE / 2));
    let r = calculate_order_execution_bonus_rate(&order, &hit, Fraction::from_bits(ONE / 2), Fraction::zero());
    // halfway between 50 and 100 bps
    let lo = Fraction::from_bps(50).to_bits();
    let hi = Fraction::from_bps(100).to_bits();
    assert_eq!(r.to_bits(), lo + (hi - lo) / 2);
    // capped near bad debt: 1 - 0.999 = 0.001
    let capped = calculate_order_execution_bonus_rate(&order, &hit, Fraction::from_bits(ONE - ONE / 1000), Fraction::zero());
    assert_eq!(capped.to_bits(), ONE / 1000);
}

#[test]
fn condition_evaluation_on_obligation() {
    let mut o = Obligation::default();
    o.deposited_value_sf = 100 * ONE;
    o.borrow_factor_adjusted_debt_value_sf = 80 * ONE;
    o.unhealthy_borrow_value_sf = 90 * ONE;
    let never = OrderCondition::Never;
    let res = klend_reserve_pair();
    assert_eq!(never.evaluate(&res.0, &res.1, &o).err(), Some(LendingError::ObligationOrderConditionNotMet));
    let above = OrderCondition::UserLtvAbove(Fraction::from_bits(ONE * 7 / 10));
    let hit = above.evaluate(&res.0, &res.1, &o).unwrap();
    assert!(hit.normalized_distance_from_threshold.is_some());
    let below = OrderCondition::UserLtvBelow(Fraction::from_bits(ONE * 7 / 10));
    assert_eq!(below.evaluate(&res.0, &res.1, &o).err(), Some(LendingError::ObligationOrderConditionNotMet));
    let always = OrderCondition::Always;
    assert!(always.evaluate(&res.0, &res.1, &o).unwrap().normalized_distance_from_threshold.is_none());
}

fn klend_reserve_pair() -> (Reserve, Reserve) {
    let caps = WithdrawalCaps { config_capacity: 0, current_total: 0, last_interval_start_timestamp: 0, config_interval_length_seconds: 0 };
    let config = ReserveConfig {
        status: 0,
        asset_tier: 0,
        host_fixed_interest_rate_bps: 0,
        min_deleveraging_bonus_bps: 0,
        reserved_1: [0; 7],
        protocol_order_execution_fee_pct: 0,
        protocol_take_rate_pct: 0,
        protocol_liquidation_fee_pct: 0,
        loan_to_value_pct: 75,
        liquidation_threshold_pct: 80,
        min_liquidation_bonus_bps: 200,
        max_liquidation_bonus_bps: 1000,
        bad_debt_liquidation_bonus_bps: 99,
        deleveraging_margin_call_period_secs: 0,
        deleveraging_threshold_decrease_bps_per_day: 0,
        fees: ReserveFees { origination_fee_sf: 0, flash_loan_fee_sf: 0, padding: [0; 8] },
        borrow_rate_curve: BorrowRateCurve::new_flat(0),
        borrow_factor_pct: 100,
        deposit_limit: u64::MAX,
        borrow_limit: u64::MAX,
        token_info: TokenInfo::default(),
        deposit_withdrawal_cap: caps,
        debt_withdrawal_cap: caps,
        elevation_groups: [0; 20],
        disable_usage_as_coll_outside_emode: 0,
        utilization_limit_block_borrowing_above_pct: 0,
        autodeleverage_enabled: 0,
        proposer_authority_locked: 0,
        borrow_limit_outside_elevation_group: u64::MAX,
        borrow_limit_against_this_collateral_in_elevation_group: [0; 32],
        deleveraging_bonus_increase_bps_per_day: 0,
    };
    let make = |price: u128| Reserve {
        version: 1,
        last_update: LastUpdate::new(0),
        lending_market: key(1),
        farm_collateral: Pubkey::default_key(),
        farm_debt: Pubkey::default_key(),
        liquidity: ReserveLiquidity::new(NewReserveLiquidityParams {
            mint_pubkey: key(2),
            mint_decimals: 6,
            mint_token_program: key(3),
            supply_vault: key(4),
            fee_vault: key(5),
            market_price_sf: price,
            initial_amount_deposited_in_reserve: 1000,
        }),
        collateral: ReserveCollateral::new(NewReserveCollateralParams {
            mint_pubkey: key(6),
            supply_vault: key(7),
            initial_collateral_supply: 1000,
        }),
        config,
        borrowed_amount_outside_elevation_group: 0,
        borrowed_amounts_against_this_reserve_in_elevation_groups: [0; 32],
    };
    (make(ONE), make(2 * ONE))
}
