use klend::token_info::TokenInfo;
use klend::borrow_rate_curve::{BorrowRateCurve, CurvePoint};
use klend::error::LendingError;
use klend::fraction::Fraction;
use klend::last_update::LastUpdate;
use klend::pubkey::Pubkey;
use klend::reserve::{
    approximate_compounded_interest, CollateralExchangeRate, FeeCalculation,
    NewReserveCollateralParams, NewReserveLiquidityParams, Reserve, ReserveCollateral, ReserveConfig,
    ReserveFees, ReserveLiquidity,
};
use klend::withdrawal_caps::WithdrawalCaps;

const ONE: u128 = 1u128 << 60;

fn rkey(n: u8) -> Pubkey {
    Pubkey::new_from_array([n; 32])
}

fn no_caps() -> WithdrawalCaps {
    WithdrawalCaps { config_capacity: 0, current_total: 0, last_interval_start_timestamp: 0, config_interval_length_seconds: 0 }
}

fn test_reserve(available: u64, collateral_supply: u64) -> Reserve {
    let config = ReserveConfig {
        status: 0,
        asset_tier: 0,
        host_fixed_interest_rate_bps: 0,
        min_deleveraging_bonus_bps: 0,
        reserved_1: [0; 7],
        protocol_order_execution_fee_pct: 0,
        protocol_take_rate_pct: 0,
        protocol_liquidation_fee_pct: 0,
        loan_to_value_pct: 75,
        liquidation_threshold_pct: 80,
        min_liquidation_bonus_bps: 200,
        max_liquidation_bonus_bps: 1000,
        bad_debt_liquidation_bonus_bps: 99,
        deleveraging_margin_call_period_secs: 0,
        deleveraging_threshold_decrease_bps_per_day: 0,
        fees: ReserveFees { origination_fee_sf: 0, flash_loan_fee_sf: 0, padding: [0; 8] },
        borrow_rate_curve: BorrowRateCurve::new_flat(1000),
        borrow_factor_pct: 150,
        deposit_limit: u64::MAX,
        borrow_limit: u64::MAX,
        token_info: TokenInfo::default(),
        deposit_withdrawal_cap: no_caps(),
        debt_withdrawal_cap: no_caps(),
        elevation_groups: [0; 20],
        disable_usage_as_coll_outside_emode: 0,
        utilization_limit_block_borrowing_above_pct: 0,
        autodeleverage_enabled: 0,
        proposer_authority_locked: 0,
        borrow_limit_outside_elevation_group: u64::MAX,
        borrow_limit_against_this_collateral_in_elevation_group: [0; 32],
        deleveraging_bonus_increase_bps_per_day: 0,
    };
    Reserve {
        version: 1,
        last_update: LastUpdate::new(0),
        lending_market: rkey(1),
        farm_collateral: Pubkey::default_key(),
        farm_debt: Pubkey::default_key(),
        liquidity: ReserveLiquidity::new(NewReserveLiquidityParams {
            mint_pubkey: rkey(2),
            mint_decimals: 6,
            mint_token_program: rkey(3),
            supply_vault: rkey(4),
            fee_vault: rkey(5),
            market_price_sf: ONE,
            initial_amount_deposited_in_reserve: available,
        }),
        collateral: ReserveCollateral::new(NewReserveCollateralParams {
            mint_pubkey: rkey(6),
            supply_vault: rkey(7),
            initial_collateral_supply: collateral_supply,
        }),
        config,
        borrowed_amount_outside_elevation_group: 0,
        borrowed_amounts_against_this_reserve_in_elevation_groups: [0; 32],
    }
}

#[test]
fn exchange_rate_two_liquidity_per_collateral() {
    let r = test_reserve(2000, 1000);
    let rate = r.collateral_exchange_rate();
    assert_eq!(rate.collateral_supply, 1000);
    assert_eq!(rate.liquidity.to_bits(), 2000 * ONE);
    assert_eq!(rate.liquidity_to_collateral(100), 50);
    assert_eq!(rate.collateral_to_liquidity(50), 100);
    assert_eq!(rate.liquidity_to_collateral(101), 50);
    assert_eq!(rate.liquidity_to_collateral_ceil(101), 51);
}

#[test]
fn exchange_rate_round_trips_never_gain() {
    let rate = CollateralExchangeRate::from_supply_and_liquidity(3, Fraction::from_num(7));
    for x in [0u64, 1, 2, 5, 99, 1000, 12345] {
        let c = rate.liquidity_to_collateral(x);
        assert!(rate.collateral_to_liquidity(c) <= x);
        let l = rate.collateral_to_liquidity(x);
        assert!(rate.liquidity_to_collateral(l) <= x);
    }
}

#[test]
fn deposit_mints_and_redeem_burns() {
    let mut r = test_reserve(2000, 1000);
    let d = r.compute_depositable_amount_and_minted_collateral(101).unwrap();
    assert_eq!(d.collateral_amount, 50);
    assert_eq!(d.liquidity_amount, 100);
    assert_eq!(r.deposit_liquidity(d.liquidity_amount, d.collateral_amount), Ok(()));
    assert_eq!(r.liquidity.available_amount, 2100);
    assert_eq!(r.collateral.mint_total_supply, 1050);
    assert_eq!(r.redeem_collateral(50), Ok(100));
    assert_eq!(r.liquidity.available_amount, 2000);
    assert_eq!(r.redeem_collateral(5000), Err(LendingError::MathOverflow));
}

#[test]
fn empty_reserve_rate_is_one() {
    let r = test_reserve(0, 0);
    let rate = r.collateral_exchange_rate();
    assert_eq!(rate.collateral_supply, 1);
    assert_eq!(rate.liquidity.to_bits(), ONE);
}

#[test]
fn liquidity_borrow_and_repay() {
    let mut l = test_reserve(100, 100).liquidity;
    assert_eq!(l.borrow(Fraction::from_num(200)), Err(LendingError::InsufficientLiquidity));
    assert_eq!(l.borrow(Fraction::from_num(40)), Ok(()));
    assert_eq!(l.available_amount, 60);
    assert_eq!(l.borrowed_amount_sf, 40 * ONE);
    assert_eq!(l.repay(40, Fraction::from_num(40)), Ok(()));
    assert_eq!(l.available_amount, 100);
    assert_eq!(l.borrowed_amount_sf, 0);
    assert_eq!(l.withdraw(101), Err(LendingError::InsufficientLiquidity));
    assert_eq!(l.withdraw(100), Ok(()));
    assert_eq!(l.deposit(u64::MAX), Ok(()));
    assert_eq!(l.deposit(1), Err(LendingError::MathOverflow));
}

#[test]
fn utilization_of_half_borrowed_reserve() {
    let mut l = test_reserve(100, 100).liquidity;
    assert_eq!(l.borrow(Fraction::from_num(50)), Ok(()));
    assert_eq!(l.total_supply().to_bits(), 100 * ONE);
    assert_eq!(l.utilization_rate().to_bits(), ONE / 2);
}

#[test]
fn flat_curve_rate_everywhere() {
    let curve = BorrowRateCurve::new_flat(1000);
    for u in [0u128, ONE / 3, ONE / 2, ONE, 2 * ONE] {
        assert_eq!(curve.get_borrow_rate(Fraction::from_bits(u)).unwrap().to_bits(), Fraction::from_bps(1000).to_bits());
    }
}

#[test]
fn curve_from_points() {
    let pts = [CurvePoint::new(0, 100), CurvePoint::new(5000, 1000), CurvePoint::new(10000, 3000)];
    let curve = BorrowRateCurve::from_points(&pts).unwrap();
    assert_eq!(curve.validate(), Ok(()));
    assert_eq!(curve.get_borrow_rate(Fraction::from_bits(ONE / 2)).unwrap().to_bits(), Fraction::from_bps(1000).to_bits());
    assert_eq!(curve.get_borrow_rate(Fraction::one()).unwrap().to_bits(), Fraction::from_bps(3000).to_bits());
    assert_eq!(curve.get_borrow_rate(Fraction::zero()).unwrap().to_bits(), Fraction::from_bps(100).to_bits());
    let bad = [CurvePoint::new(0, 100), CurvePoint::new(5000, 50), CurvePoint::new(10000, 3000)];
    assert_eq!(BorrowRateCurve::from_points(&bad).err(), Some(LendingError::InvalidBorrowRateCurvePoint));
    let short = [CurvePoint::new(0, 100)];
    assert_eq!(BorrowRateCurve::from_points(&short).err(), Some(LendingError::InvalidBorrowRateCurvePoint));
}

#[test]
fn compounding_values() {
    assert_eq!(approximate_compounded_interest(Fraction::from_num(1), 0).to_bits(), ONE);
    let per_slot = Fraction::from_num(1).div_int(63072000);
    assert_eq!(approximate_compounded_interest(Fraction::from_num(1), 1).to_bits(), ONE + per_slot.to_bits());
    let many = approximate_compounded_interest(Fraction::from_bits(ONE / 10), 63072000);
    // one year at 10% compounds to about 1.105
    assert!(many.to_bits() > ONE + ONE / 10 && many.to_bits() < ONE + ONE * 106 / 1000);
}

#[test]
fn borrow_factor_and_fees() {
    let r = test_reserve(100, 100);
    assert_eq!(r.borrow_factor_f(false).to_bits(), ONE + ONE / 2);
    assert_eq!(r.borrow_factor_f(true).to_bits(), ONE);
    let fees = ReserveFees { origination_fee_sf: (ONE / 100) as u64, flash_loan_fee_sf: 0, padding: [0; 8] };
    // 1% of 1000, no referrer
    assert_eq!(fees.calculate_borrow_fees(Fraction::from_num(1000), FeeCalculation::Exclusive, 0, false), Ok((10, 0)));
}

#[test]
fn borrow_rate_never_falls_as_utilization_rises() {
    let pts = [
        CurvePoint::new(0, 100),
        CurvePoint::new(3333, 700),
        CurvePoint::new(8000, 1500),
        CurvePoint::new(10000, 9000),
    ];
    let curve = BorrowRateCurve::from_points(&pts).unwrap();
    let mut last = 0u128;
    let mut u = 0u128;
    while u <= ONE + ONE / 4 {
        let rate = curve.get_borrow_rate(Fraction::from_bits(u)).unwrap().to_bits();
        assert!(rate >= last);
        last = rate;
        u += ONE / 997;
    }
    let full = curve.get_borrow_rate(Fraction::one()).unwrap().to_bits();
    assert_eq!(full, Fraction::from_bps(9000).to_bits());
    assert_eq!(curve.get_borrow_rate(Fraction::from_bits(3 * ONE)).unwrap().to_bits(), full);
}
