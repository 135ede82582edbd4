use klend::big_fraction::BigFraction;
use klend::borrow_rate_curve::BorrowRateCurve;
use klend::error::LendingError;
use klend::fraction::Fraction;
use klend::last_update::{LastUpdate, PriceStatusFlags};
use klend::lending_market::{ElevationGroup, LendingMarket};
use klend::lending_operations::flash_borrow_reserve_liquidity;
use klend::lending_utils::{DebtTrackerError, ReserveAccount};
use klend::liquidation_flow::liquidate_obligation;
use klend::elevation_request::request_elevation_group;
use klend::liquidation_operations::calculate_liquidation;
use klend::obligation::{Obligation, ObligationCollateral, ObligationLiquidity};
use klend::obligation_operations::{
    borrow_obligation_liquidity, deposit_obligation_collateral, repay_obligation_liquidity,
    socialize_loss, withdraw_obligation_collateral,
};
use klend::obligation_refresh::{
    refresh_obligation, refresh_obligation_borrows, refresh_obligation_deposits,
};
use klend::pubkey::Pubkey;
use klend::reserve::{
    NewReserveCollateralParams, NewReserveLiquidityParams, Reserve, ReserveCollateral, ReserveConfig,
    ReserveFees, ReserveLiquidity,
};
use klend::reserve_operations::{
    deposit_reserve_liquidity, flash_repay_reserve_liquidity, post_liquidate_redeem,
    redeem_reserve_collateral, refresh_reserve, refresh_reserve_limit_timestamps,
};
use klend::reserve_updates::validate_reserve_config;
use klend::token_info::TokenInfo;
use klend::types::GetPriceResult;
use klend::withdrawal_caps::WithdrawalCaps;

const ONE: u128 = 1u128 << 60;

fn key(n: u8) -> Pubkey {
    Pubkey::new_from_array([n; 32])
}

fn caps() -> WithdrawalCaps {
    WithdrawalCaps {
        config_capacity: 0,
        current_total: 0,
        last_interval_start_timestamp: 0,
        config_interval_length_seconds: 0,
    }
}

fn config() -> ReserveConfig {
    ReserveConfig {
        status: 0,
        asset_tier: 0,
        host_fixed_interest_rate_bps: 0,
        min_deleveraging_bonus_bps: 0,
        reserved_1: [0; 7],
        protocol_order_execution_fee_pct: 0,
        protocol_take_rate_pct: 0,
        protocol_liquidation_fee_pct: 0,
        loan_to_value_pct: 75,
        liquidation_threshold_pct: 80,
        min_liquidation_bonus_bps: 200,
        max_liquidation_bonus_bps: 1000,
        bad_debt_liquidation_bonus_bps: 99,
        deleveraging_margin_call_period_secs: 0,
        deleveraging_threshold_decrease_bps_per_day: 0,
        fees: ReserveFees { origination_fee_sf: 0, flash_loan_fee_sf: 0, padding: [0; 8] },
        borrow_rate_curve: BorrowRateCurve::new_flat(0),
        borrow_factor_pct: 100,
        deposit_limit: u64::MAX,
        borrow_limit: u64::MAX,
        token_info: TokenInfo::default(),
        deposit_withdrawal_cap: caps(),
        debt_withdrawal_cap: caps(),
        elevation_groups: [0; 20],
        disable_usage_as_coll_outside_emode: 0,
        utilization_limit_block_borrowing_above_pct: 0,
        autodeleverage_enabled: 0,
        proposer_authority_locked: 0,
        borrow_limit_outside_elevation_group: u64::MAX,
        borrow_limit_against_this_collateral_in_elevation_group: [0; 32],
        deleveraging_bonus_increase_bps_per_day: 0,
    }
}

/// A reserve of a 6-decimal token priced `price` (scaled), with 1000
/// tokens deposited and fresh at slot 10.
fn reserve(price: u128) -> Reserve {
    let mut last_update = LastUpdate::new(10);
    last_update.update_slot(10, Some(PriceStatusFlags::all()));
    Reserve {
        version: 1,
        last_update,
        lending_market: key(1),
        farm_collateral: Pubkey::default_key(),
        farm_debt: Pubkey::default_key(),
        liquidity: ReserveLiquidity::new(NewReserveLiquidityParams {
            mint_pubkey: key(2),
            mint_decimals: 6,
            mint_token_program: key(3),
            supply_vault: key(4),
            fee_vault: key(5),
            market_price_sf: price,
            initial_amount_deposited_in_reserve: 1000,
        }),
        collateral: ReserveCollateral::new(NewReserveCollateralParams {
            mint_pubkey: key(6),
            supply_vault: key(7),
            initial_collateral_supply: 1000,
        }),
        config: config(),
        borrowed_amount_outside_elevation_group: 0,
        borrowed_amounts_against_this_reserve_in_elevation_groups: [0; 32],
    }
}

fn group(id: u8) -> ElevationGroup {
    ElevationGroup {
        max_liquidation_bonus_bps: 500,
        id,
        ltv_pct: 80,
        liquidation_threshold_pct: 90,
        allow_new_loans: 1,
        max_reserves_as_collateral: 2,
        padding_0: 0,
        debt_reserve: key(50),
        padding_1: [0; 4],
    }
}

fn market() -> LendingMarket {
    let mut groups = [ElevationGroup::default(); 32];
    groups[0] = group(1);
    let mut closed = group(2);
    closed.allow_new_loans = 0;
    groups[1] = closed;
    let mut broken = group(3);
    broken.ltv_pct = 0;
    groups[2] = broken;
    LendingMarket {
        version: 1,
        bump_seed: 0,
        lending_market_owner: key(1),
        lending_market_owner_cached: key(1),
        quote_currency: [0; 32],
        referral_fee_bps: 0,
        emergency_mode: 0,
        autodeleverage_enabled: 0,
        borrow_disabled: 0,
        price_refresh_trigger_to_max_age_pct: 50,
        liquidation_max_debt_close_factor_pct: 20,
        insolvency_risk_unhealthy_ltv_pct: 95,
        min_full_liquidation_value_threshold: 2,
        max_liquidatable_debt_market_value_at_once: 500000,
        reserved0: [0; 8],
        global_allowed_borrow_value: 45000000,
        risk_council: key(1),
        reserved1: [0; 8],
        elevation_groups: groups,
        elevation_group_padding: [0; 90],
        min_net_value_in_obligation_sf: 0,
        min_value_skip_liquidation_ltv_checks: 0,
        name: [0; 32],
        min_value_skip_liquidation_bf_checks: 0,
        individual_autodeleverage_margin_call_period_secs: 0,
        min_initial_deposit_amount: 0,
        obligation_order_execution_enabled: 0,
        immutable: 0,
        obligation_order_creation_enabled: 0,
        padding2: [0; 5],
        padding1: [0; 169],
    }
}

/// An obligation with two deposits (slots 0 and 2) and one borrow (slot 1).
fn obligation() -> Obligation {
    let mut o = Obligation::default();
    let mut c0 = ObligationCollateral::new(key(30));
    c0.deposited_amount = 100;
    c0.borrowed_amount_against_this_collateral_in_elevation_group = 40;
    let mut c2 = ObligationCollateral::new(key(32));
    c2.deposited_amount = 50;
    c2.borrowed_amount_against_this_collateral_in_elevation_group = 40;
    o.deposits[0] = c0;
    o.deposits[2] = c2;
    let mut l = ObligationLiquidity::new(key(50), BigFraction::from_num(1));
    l.borrowed_amount_sf = 40 * ONE;
    l.borrowed_amount_outside_elevation_groups = 40;
    o.borrows[1] = l;
    o.deposited_value_sf = 100 * ONE;
    o.borrow_factor_adjusted_debt_value_sf = 40 * ONE;
    o.borrowed_assets_market_value_sf = 40 * ONE;
    o.unhealthy_borrow_value_sf = 80 * ONE;
    o.allowed_borrow_value_sf = 75 * ONE;
    o.last_update.update_slot(10, Some(PriceStatusFlags::all()));
    o
}

fn account(k: u8, r: Reserve) -> ReserveAccount {
    ReserveAccount { key: key(k), reserve: r }
}


fn capped(capacity: i64, interval: u64) -> WithdrawalCaps {
    WithdrawalCaps {
        config_capacity: capacity,
        current_total: 0,
        last_interval_start_timestamp: 0,
        config_interval_length_seconds: interval,
    }
}

#[test]
fn liquidity_deposit_mints_collateral_at_the_exchange_rate() {
    let mut r = reserve(ONE);
    assert_eq!(deposit_reserve_liquidity(&mut r, 10, 100, 500), Ok(500));
    assert_eq!(r.liquidity.available_amount, 1500);
    assert_eq!(r.collateral.mint_total_supply, 1500);
    assert_eq!(r.last_update.stale, 1);
    assert_eq!(r.config.deposit_withdrawal_cap.current_total, -500);
}

#[test]
fn liquidity_deposit_refusals() {
    let mut r = reserve(ONE);
    assert_eq!(deposit_reserve_liquidity(&mut r, 10, 100, 0), Err(LendingError::InvalidAmount));
    assert_eq!(deposit_reserve_liquidity(&mut r, 11, 100, 5), Err(LendingError::ReserveStale));
    r.config.deposit_limit = 1200;
    assert_eq!(
        deposit_reserve_liquidity(&mut r, 10, 100, 500),
        Err(LendingError::DepositLimitExceeded)
    );
    assert_eq!(r.liquidity.available_amount, 1000);
    assert_eq!(r.last_update.stale, 0);
    assert_eq!(deposit_reserve_liquidity(&mut r, 10, 100, 200), Ok(200));
}

#[test]
fn collateral_redemption_pays_liquidity() {
    let mut r = reserve(ONE);
    assert_eq!(redeem_reserve_collateral(&mut r, 200, 10, 100, false), Ok(200));
    assert_eq!(r.liquidity.available_amount, 800);
    assert_eq!(r.collateral.mint_total_supply, 800);
    assert_eq!(r.last_update.stale, 1);
}

#[test]
fn collateral_redemption_refusals() {
    let mut r = reserve(ONE);
    assert_eq!(redeem_reserve_collateral(&mut r, 0, 10, 100, false), Err(LendingError::InvalidAmount));
    assert_eq!(redeem_reserve_collateral(&mut r, 5, 12, 100, false), Err(LendingError::ReserveStale));
    assert_eq!(
        redeem_reserve_collateral(&mut r, 2000, 10, 100, false),
        Err(LendingError::MathOverflow)
    );
    let mut r = reserve(ONE);
    r.config.deposit_withdrawal_cap = capped(100, 1000);
    assert_eq!(
        redeem_reserve_collateral(&mut r, 200, 10, 100, true),
        Err(LendingError::WithdrawalCapReached)
    );
    let mut r = reserve(ONE);
    r.config.deposit_withdrawal_cap = capped(100, 1000);
    assert_eq!(redeem_reserve_collateral(&mut r, 60, 10, 100, true), Ok(60));
    assert_eq!(r.config.deposit_withdrawal_cap.current_total, 60);
}

#[test]
fn deposit_then_redeem_returns_the_liquidity() {
    let mut r = reserve(ONE);
    let minted = deposit_reserve_liquidity(&mut r, 10, 100, 300).unwrap();
    r.last_update.update_slot(10, None);
    assert_eq!(redeem_reserve_collateral(&mut r, minted, 10, 100, false), Ok(300));
    assert_eq!(r.liquidity.available_amount, 1000);
    assert_eq!(r.collateral.mint_total_supply, 1000);
}

#[test]
fn reserve_refresh_takes_the_new_price() {
    let mut r = reserve(ONE);
    let price = GetPriceResult {
        price: Fraction::from_num(2),
        status: PriceStatusFlags::all(),
        timestamp: 90,
    };
    assert_eq!(refresh_reserve(&mut r, 20, 100, Some(price), 0), Ok(()));
    assert_eq!(r.liquidity.market_price_sf, 2 * ONE);
    assert_eq!(r.liquidity.market_price_last_updated_ts, 90);
    assert_eq!(r.last_update.slot, 20);
    assert_eq!(r.last_update.stale, 0);
    assert_eq!(r.last_update.price_status, 63);
}

#[test]
fn reserve_refresh_without_price_drops_an_old_one() {
    let mut r = reserve(ONE);
    r.last_update.mark_stale();
    assert_eq!(refresh_reserve(&mut r, 20, 100, None, 0), Ok(()));
    assert_eq!(r.last_update.slot, 20);
    assert_eq!(r.last_update.stale, 0);
    assert_eq!(r.last_update.price_status, 0);
    assert_eq!(r.liquidity.market_price_sf, ONE);
    let mut fresh = reserve(ONE);
    fresh.config.token_info.max_age_price_seconds = 1000;
    assert_eq!(refresh_reserve(&mut fresh, 20, 100, None, 0), Ok(()));
    assert_eq!(fresh.last_update.price_status, 63);
    let mut early = reserve(ONE);
    assert_eq!(refresh_reserve(&mut early, 5, 100, None, 0), Err(LendingError::MathOverflow));
    assert_eq!(early.last_update.slot, 10);
}

#[test]
fn limit_timestamps_follow_the_limits() {
    let mut r = reserve(ONE);
    r.config.deposit_limit = 500;
    r.config.borrow_limit = 0;
    r.liquidity.borrow_limit_crossed_timestamp = 9;
    refresh_reserve_limit_timestamps(&mut r, 77);
    assert_eq!(r.liquidity.deposit_limit_crossed_timestamp, 77);
    assert_eq!(r.liquidity.borrow_limit_crossed_timestamp, 0);
    refresh_reserve_limit_timestamps(&mut r, 88);
    assert_eq!(r.liquidity.deposit_limit_crossed_timestamp, 77);
}

#[test]
fn flash_loan_round_trip() {
    let mut r = reserve(ONE);
    let m = market();
    assert_eq!(flash_borrow_reserve_liquidity(&mut r, 100), Ok(()));
    assert_eq!(r.liquidity.available_amount, 900);
    let mut none = None;
    assert_eq!(flash_repay_reserve_liquidity(&m, &mut r, 100, 5, &mut none), Ok((100, 0)));
    assert_eq!(r.liquidity.available_amount, 1000);
    assert_eq!(r.liquidity.borrowed_amount_sf, 0);
    assert_eq!(r.last_update.stale, 1);
}

#[test]
fn flash_loan_fee_and_referrer_share() {
    let mut r = reserve(ONE);
    r.config.fees.flash_loan_fee_sf = (ONE / 100) as u64;
    let mut m = market();
    let mut none = None;
    assert_eq!(flash_repay_reserve_liquidity(&m, &mut r, 1000, 5, &mut none), Ok((1000, 10)));
    m.referral_fee_bps = 5000;
    let mut r = reserve(ONE);
    r.config.fees.flash_loan_fee_sf = (ONE / 100) as u64;
    let mut state = Some(klend::referral::ReferrerTokenState {
        referrer: key(9),
        mint: key(2),
        amount_unclaimed_sf: 0,
        amount_cumulative_sf: 0,
        bump: 255,
        padding: [0; 31],
    });
    assert_eq!(flash_repay_reserve_liquidity(&m, &mut r, 1000, 5, &mut state), Ok((1004, 6)));
    assert_eq!(state.unwrap().amount_unclaimed_sf, 4 * ONE);
    assert_eq!(r.liquidity.accumulated_referrer_fees_sf, 4 * ONE);
    assert_eq!(r.liquidity.available_amount, 2004);
    let mut tiny = reserve(ONE);
    tiny.config.fees.flash_loan_fee_sf = (ONE / 100) as u64;
    let mut none = None;
    assert_eq!(
        flash_repay_reserve_liquidity(&m, &mut tiny, 1, 5, &mut none),
        Err(LendingError::BorrowTooSmall)
    );
}

#[test]
fn liquidation_redemption_pays_net_of_the_protocol_fee() {
    let mut r = reserve(ONE);
    let bonus = Fraction::from_bps(500);
    assert_eq!(post_liquidate_redeem(&mut r, 10, 100, 0, bonus, 50, 10, 100), Ok(None));
    assert_eq!(
        post_liquidate_redeem(&mut r, 10, 100, 0, bonus, 150, 10, 100),
        Err(LendingError::LiquidationRewardTooSmall)
    );
    assert_eq!(post_liquidate_redeem(&mut r, 10, 100, 100, bonus, 50, 10, 100), Ok(Some((100, 1))));
    assert_eq!(r.liquidity.available_amount, 900);
    let mut r = reserve(ONE);
    assert_eq!(
        post_liquidate_redeem(&mut r, 10, 100, 100, bonus, 100, 10, 100),
        Err(LendingError::LiquidationRewardTooSmall)
    );
}

#[test]
fn collateral_deposit_into_a_new_and_an_existing_slot() {
    let m = market();
    let mut o = obligation();
    let mut r = reserve(ONE);
    assert_eq!(deposit_obligation_collateral(&m, &mut r, &mut o, 10, 10, key(33)), Ok(()));
    assert!(o.deposits[1].deposit_reserve.key_eq(&key(33)));
    assert_eq!(o.deposits[1].deposited_amount, 10);
    assert_eq!(o.last_update.stale, 1);
    assert_eq!(r.last_update.stale, 1);
    let mut r = reserve(ONE);
    assert_eq!(deposit_obligation_collateral(&m, &mut r, &mut o, 10, 5, key(30)), Ok(()));
    assert_eq!(o.deposits[0].deposited_amount, 105);
}

#[test]
fn collateral_deposit_refusals() {
    let m = market();
    let mut o = obligation();
    let mut r = reserve(ONE);
    assert_eq!(
        deposit_obligation_collateral(&m, &mut r, &mut o, 10, 0, key(33)),
        Err(LendingError::InvalidAmount)
    );
    assert_eq!(
        deposit_obligation_collateral(&m, &mut r, &mut o, 11, 5, key(33)),
        Err(LendingError::ReserveStale)
    );
    r.config.disable_usage_as_coll_outside_emode = 1;
    assert_eq!(
        deposit_obligation_collateral(&m, &mut r, &mut o, 10, 5, key(33)),
        Err(LendingError::DepositDisabledOutsideElevationGroup)
    );
    let mut grouped = obligation();
    grouped.elevation_group = 1;
    let mut r = reserve(ONE);
    assert_eq!(
        deposit_obligation_collateral(&m, &mut r, &mut grouped, 10, 5, key(33)),
        Err(LendingError::InconsistentElevationGroup)
    );
    r.config.elevation_groups[0] = 1;
    assert_eq!(
        deposit_obligation_collateral(&m, &mut r, &mut grouped, 10, 5, key(33)),
        Err(LendingError::ObligationCollateralExceedsElevationGroupLimit)
    );
    assert_eq!(deposit_obligation_collateral(&m, &mut r, &mut grouped, 10, 5, key(30)), Ok(()));
}

#[test]
fn repayment_settles_debt() {
    let m = market();
    let mut o = obligation();
    let mut r = reserve(ONE);
    let mut deposits: Vec<ReserveAccount> = Vec::new();
    assert_eq!(
        repay_obligation_liquidity(&mut r, &mut o, 10, 100, 10, key(50), &m, &mut deposits),
        Ok(10)
    );
    assert_eq!(o.borrows[1].borrowed_amount_sf, 30 * ONE);
    assert_eq!(o.borrows[1].borrowed_amount_outside_elevation_groups, 30);
    assert_eq!(r.liquidity.available_amount, 1010);
    assert_eq!(o.has_debt, 1);
    let mut r = reserve(ONE);
    assert_eq!(
        repay_obligation_liquidity(&mut r, &mut o, 10, 100, u64::MAX, key(50), &m, &mut deposits),
        Ok(30)
    );
    assert!(!o.borrows[1].is_active());
    assert_eq!(o.has_debt, 0);
}

#[test]
fn repayment_refusals() {
    let m = market();
    let mut o = obligation();
    let mut r = reserve(ONE);
    let mut deposits: Vec<ReserveAccount> = Vec::new();
    assert_eq!(
        repay_obligation_liquidity(&mut r, &mut o, 10, 100, 0, key(50), &m, &mut deposits),
        Err(DebtTrackerError::Lending(LendingError::InvalidAmount))
    );
    assert_eq!(
        repay_obligation_liquidity(&mut r, &mut o, 10, 100, 5, key(51), &m, &mut deposits),
        Err(DebtTrackerError::Lending(LendingError::InvalidObligationLiquidity))
    );
    o.elevation_group = 1;
    assert_eq!(
        repay_obligation_liquidity(&mut r, &mut o, 10, 100, 5, key(50), &m, &mut deposits),
        Err(DebtTrackerError::Lending(LendingError::InvalidAccountInput))
    );
}

#[test]
fn repayment_in_a_group_releases_debt_against_each_deposit() {
    let m = market();
    let mut o = obligation();
    o.elevation_group = 1;
    let mut r = reserve(ONE);
    let mut c30 = reserve(ONE);
    c30.borrowed_amounts_against_this_reserve_in_elevation_groups[0] = 40;
    let mut c32 = reserve(ONE);
    c32.borrowed_amounts_against_this_reserve_in_elevation_groups[0] = 40;
    let mut deposits = vec![account(30, c30), account(32, c32)];
    assert_eq!(
        repay_obligation_liquidity(&mut r, &mut o, 10, 100, 15, key(50), &m, &mut deposits),
        Ok(15)
    );
    assert_eq!(o.deposits[0].borrowed_amount_against_this_collateral_in_elevation_group, 25);
    assert_eq!(o.deposits[2].borrowed_amount_against_this_collateral_in_elevation_group, 25);
    assert_eq!(deposits[0].reserve.borrowed_amounts_against_this_reserve_in_elevation_groups[0], 25);
    assert_eq!(deposits[1].reserve.borrowed_amounts_against_this_reserve_in_elevation_groups[0], 25);
}

fn debt_free() -> Obligation {
    let mut o = obligation();
    o.borrows[1] = ObligationLiquidity::default();
    o.borrow_factor_adjusted_debt_value_sf = 0;
    o.borrowed_assets_market_value_sf = 0;
    o
}

#[test]
fn withdrawal_without_debt() {
    let m = market();
    let mut o = debt_free();
    let mut r = reserve(ONE);
    assert_eq!(withdraw_obligation_collateral(&m, &mut r, &mut o, 30, 10, key(30)), Ok(30));
    assert_eq!(o.deposits[0].deposited_amount, 70);
    assert_eq!(o.last_update.stale, 1);
    let mut o = debt_free();
    assert_eq!(withdraw_obligation_collateral(&m, &mut r, &mut o, u64::MAX, 10, key(30)), Ok(100));
    assert!(!o.deposits[0].is_active());
}

#[test]
fn withdrawal_with_debt_is_capped_by_the_allowed_borrow_value() {
    let m = market();
    let mut o = obligation();
    o.deposits[0].market_value_sf = 100 * ONE;
    let mut r = reserve(ONE);
    assert_eq!(withdraw_obligation_collateral(&m, &mut r, &mut o, 10, 10, key(30)), Ok(10));
    let mut o = obligation();
    o.deposits[0].market_value_sf = 100 * ONE;
    assert_eq!(
        withdraw_obligation_collateral(&m, &mut r, &mut o, 60, 10, key(30)),
        Err(LendingError::WithdrawTooLarge)
    );
    assert_eq!(o.deposits[0].deposited_amount, 100);
    assert_eq!(withdraw_obligation_collateral(&m, &mut r, &mut o, u64::MAX, 10, key(30)), Ok(46));
}

#[test]
fn withdrawal_refusals() {
    let m = market();
    let mut o = obligation();
    let mut r = reserve(ONE);
    assert_eq!(
        withdraw_obligation_collateral(&m, &mut r, &mut o, 0, 10, key(30)),
        Err(LendingError::InvalidAmount)
    );
    assert_eq!(
        withdraw_obligation_collateral(&m, &mut r, &mut o, 5, 10, key(31)),
        Err(LendingError::InvalidObligationCollateral)
    );
    o.last_update.mark_stale();
    assert_eq!(
        withdraw_obligation_collateral(&m, &mut r, &mut o, 5, 10, key(30)),
        Err(LendingError::ObligationStale)
    );
}

#[test]
fn borrowing_lends_liquidity_to_the_obligation() {
    let m = market();
    let mut o = obligation();
    let mut r = reserve(ONE);
    let mut none = None;
    let mut deposits: Vec<ReserveAccount> = Vec::new();
    let result =
        borrow_obligation_liquidity(&m, &mut r, &mut o, 10, 10, 100, key(50), &mut none, &mut deposits)
            .unwrap();
    assert_eq!(result.borrow_amount_f.to_bits(), 10 * ONE);
    assert_eq!(result.receive_amount, 10);
    assert_eq!(result.origination_fee, 0);
    assert_eq!(r.liquidity.available_amount, 990);
    assert_eq!(r.liquidity.borrowed_amount_sf, 10 * ONE);
    assert_eq!(r.borrowed_amount_outside_elevation_group, 10);
    assert_eq!(o.borrows[1].borrowed_amount_sf, 50 * ONE);
    assert_eq!(o.borrows[1].borrowed_amount_outside_elevation_groups, 50);
    assert_eq!(o.borrows[1].last_borrowed_at_timestamp, 100);
    assert_eq!(o.has_debt, 1);
}

#[test]
fn borrowing_from_a_new_reserve_takes_a_free_slot() {
    let m = market();
    let mut o = obligation();
    let mut r = reserve(ONE);
    let mut none = None;
    let mut deposits: Vec<ReserveAccount> = Vec::new();
    assert!(borrow_obligation_liquidity(&m, &mut r, &mut o, 7, 10, 100, key(51), &mut none, &mut deposits)
        .is_ok());
    assert!(o.borrows[0].borrow_reserve.key_eq(&key(51)));
    assert_eq!(o.borrows[0].borrowed_amount_sf, 7 * ONE);
}

#[test]
fn borrowing_refusals() {
    let mut m = market();
    let mut o = obligation();
    let mut r = reserve(ONE);
    let mut none = None;
    let mut deposits: Vec<ReserveAccount> = Vec::new();
    assert_eq!(
        borrow_obligation_liquidity(&m, &mut r, &mut o, 0, 10, 100, key(50), &mut none, &mut deposits)
            .err(),
        Some(DebtTrackerError::Lending(LendingError::InvalidAmount))
    );
    r.config.borrow_limit = 5;
    assert_eq!(
        borrow_obligation_liquidity(&m, &mut r, &mut o, 10, 10, 100, key(50), &mut none, &mut deposits)
            .err(),
        Some(DebtTrackerError::Lending(LendingError::BorrowLimitExceeded))
    );
    r.config.borrow_limit = u64::MAX;
    r.config.utilization_limit_block_borrowing_above_pct = 1;
    assert_eq!(
        borrow_obligation_liquidity(&m, &mut r, &mut o, 20, 10, 100, key(50), &mut none, &mut deposits)
            .err(),
        Some(DebtTrackerError::Lending(LendingError::BorrowingAboveUtilizationRateDisabled))
    );
    m.borrow_disabled = 1;
    let mut r = reserve(ONE);
    assert_eq!(
        borrow_obligation_liquidity(&m, &mut r, &mut o, 10, 10, 100, key(50), &mut none, &mut deposits)
            .err(),
        Some(DebtTrackerError::Lending(LendingError::BorrowingDisabled))
    );
}

#[test]
fn borrowing_then_repaying_restores_the_debt() {
    let m = market();
    let mut o = obligation();
    let mut r = reserve(ONE);
    let mut none = None;
    let mut deposits: Vec<ReserveAccount> = Vec::new();
    borrow_obligation_liquidity(&m, &mut r, &mut o, 10, 10, 100, key(50), &mut none, &mut deposits)
        .unwrap();
    r.last_update.update_slot(10, None);
    assert_eq!(
        repay_obligation_liquidity(&mut r, &mut o, 10, 100, 10, key(50), &m, &mut deposits),
        Ok(10)
    );
    assert_eq!(o.borrows[1].borrowed_amount_sf, 40 * ONE);
    assert_eq!(r.liquidity.available_amount, 1000);
    assert_eq!(r.liquidity.borrowed_amount_sf, 0);
}

fn insolvent() -> Obligation {
    let mut o = obligation();
    o.deposits[0] = ObligationCollateral::default();
    o.deposits[2] = ObligationCollateral::default();
    o
}

#[test]
fn uncovered_debt_is_written_off() {
    let mut o = insolvent();
    let mut r = reserve(ONE);
    r.liquidity.borrowed_amount_sf = 40 * ONE;
    let mut deposits: Vec<ReserveAccount> = Vec::new();
    assert_eq!(
        socialize_loss(&mut r, &key(50), &mut o, 10, 10, &mut deposits).map(|f| f.to_bits()),
        Ok(10 * ONE)
    );
    assert_eq!(o.borrows[1].borrowed_amount_sf, 30 * ONE);
    assert_eq!(r.liquidity.borrowed_amount_sf, 30 * ONE);
    assert_eq!(r.version, 1);
    let mut big = reserve(ONE);
    big.liquidity.borrowed_amount_sf = 40 * ONE;
    big.liquidity.available_amount = 0;
    let mut o = insolvent();
    assert_eq!(
        socialize_loss(&mut big, &key(50), &mut o, u64::MAX, 10, &mut deposits).map(|f| f.to_bits()),
        Ok(40 * ONE)
    );
    assert_eq!(big.version, u64::MAX);
    assert!(!o.borrows[1].is_active());
    assert_eq!(o.has_debt, 0);
}

#[test]
fn write_off_refusals() {
    let mut o = obligation();
    let mut r = reserve(ONE);
    let mut deposits: Vec<ReserveAccount> = Vec::new();
    assert_eq!(
        socialize_loss(&mut r, &key(50), &mut o, 10, 10, &mut deposits).map(|f| f.to_bits()),
        Err(DebtTrackerError::Lending(LendingError::CannotSocializeObligationWithCollateral))
    );
    let mut o = insolvent();
    o.borrows[1] = ObligationLiquidity::default();
    assert_eq!(
        socialize_loss(&mut r, &key(50), &mut o, 10, 10, &mut deposits).map(|f| f.to_bits()),
        Err(DebtTrackerError::Lending(LendingError::ObligationEmpty))
    );
}

#[test]
fn deposits_refresh_values_each_deposit() {
    let m = market();
    let mut o = obligation();
    let mut accounts = vec![account(30, reserve(ONE)), account(32, reserve(ONE))];
    let result = refresh_obligation_deposits(&mut o, &m, 10, None, &mut accounts, None).unwrap();
    assert_eq!(o.deposits[0].market_value_sf, 115292150460684);
    assert_eq!(o.deposits[2].market_value_sf, 57646075230342);
    assert_eq!(result.deposited_value_f.to_bits(), 172938225691026);
    assert_eq!(result.allowed_borrow_value_f.to_bits(), 129703669268269);
    assert_eq!(result.unhealthy_borrow_value_f.to_bits(), 138350580552820);
    assert_eq!(result.lowest_deposit_liquidation_ltv_threshold_pct, 80);
    assert_eq!(result.lowest_deposit_max_ltv_pct, 75);
    assert_eq!(result.num_of_obsolete_reserves, 0);
    assert!(!result.borrowing_disabled);
}

#[test]
fn deposits_refresh_refusals() {
    let m = market();
    let mut o = obligation();
    let mut missing = vec![account(30, reserve(ONE))];
    assert_eq!(
        refresh_obligation_deposits(&mut o, &m, 10, None, &mut missing, None).err(),
        Some(LendingError::InvalidAccountInput)
    );
    let mut o = obligation();
    let mut swapped = vec![account(32, reserve(ONE)), account(30, reserve(ONE))];
    assert_eq!(
        refresh_obligation_deposits(&mut o, &m, 10, None, &mut swapped, None).err(),
        Some(LendingError::InvalidAccountInput)
    );
    let mut o = obligation();
    let mut stale = vec![account(30, reserve(ONE)), account(32, reserve(ONE))];
    assert_eq!(
        refresh_obligation_deposits(&mut o, &m, 11, None, &mut stale, None).err(),
        Some(LendingError::ReserveStale)
    );
}

#[test]
fn deposits_refresh_in_a_group_records_the_debt() {
    let m = market();
    let g = m.elevation_groups[0];
    let mut o = obligation();
    let mut r30 = reserve(ONE);
    r30.config.elevation_groups[0] = 1;
    r30.borrowed_amounts_against_this_reserve_in_elevation_groups[0] = 100;
    let mut r32 = reserve(ONE);
    r32.config.elevation_groups[0] = 1;
    let mut accounts = vec![account(30, r30), account(32, r32)];
    let result = refresh_obligation_deposits(&mut o, &m, 10, Some(&g), &mut accounts, Some(25)).unwrap();
    assert_eq!(o.deposits[0].borrowed_amount_against_this_collateral_in_elevation_group, 25);
    assert_eq!(accounts[0].reserve.borrowed_amounts_against_this_reserve_in_elevation_groups[0], 85);
    assert_eq!(accounts[1].reserve.borrowed_amounts_against_this_reserve_in_elevation_groups[0], 25);
    assert_eq!(result.lowest_deposit_max_ltv_pct, 80);
}

#[test]
fn borrows_refresh_values_the_debt() {
    let m = market();
    let mut o = obligation();
    let mut accounts = vec![account(50, reserve(ONE))];
    let mut states = Vec::new();
    let mut cursor = 0usize;
    let result =
        refresh_obligation_borrows(&mut o, &m, 10, None, &mut accounts, &mut states, &mut cursor)
            .unwrap();
    assert_eq!(o.borrows[1].market_value_sf, 46116860184273);
    assert_eq!(o.borrows[1].borrow_factor_adjusted_market_value_sf, 46116860184273);
    assert_eq!(result.borrowed_assets_market_value_f.to_bits(), 46116860184273);
    assert_eq!(result.borrow_factor_adjusted_debt_value_f.to_bits(), 46116860184273);
    assert_eq!(result.highest_borrow_factor_pct, 100);
    assert_eq!(result.borrowed_amount_in_elevation_group, None);
    assert_eq!(accounts[0].reserve.borrowed_amount_outside_elevation_group, 40);
    assert_eq!(o.has_debt, 1);
}

#[test]
fn borrows_refresh_refusals() {
    let m = market();
    let mut o = obligation();
    let mut none: Vec<ReserveAccount> = Vec::new();
    let mut states = Vec::new();
    let mut cursor = 0usize;
    assert_eq!(
        refresh_obligation_borrows(&mut o, &m, 10, None, &mut none, &mut states, &mut cursor).err(),
        Some(LendingError::InvalidAccountInput)
    );
    let g = m.elevation_groups[0];
    let mut o = obligation();
    let mut accounts = vec![account(50, reserve(ONE))];
    assert_eq!(
        refresh_obligation_borrows(&mut o, &m, 10, Some(&g), &mut accounts, &mut states, &mut cursor)
            .err(),
        Some(LendingError::InconsistentElevationGroup)
    );
}

#[test]
fn obligation_refresh_records_the_totals() {
    let m = market();
    let mut o = obligation();
    o.last_update.mark_stale();
    let mut deposits = vec![account(30, reserve(ONE)), account(32, reserve(ONE))];
    let mut borrows = vec![account(50, reserve(ONE))];
    let mut states = Vec::new();
    assert_eq!(refresh_obligation(&mut o, &m, 10, &mut deposits, &mut borrows, &mut states), Ok(()));
    assert_eq!(o.deposited_value_sf, 172938225691026);
    assert_eq!(o.allowed_borrow_value_sf, 129703669268269);
    assert_eq!(o.unhealthy_borrow_value_sf, 138350580552820);
    assert_eq!(o.borrow_factor_adjusted_debt_value_sf, 46116860184273);
    assert_eq!(o.borrowed_assets_market_value_sf, 46116860184273);
    assert_eq!(o.lowest_reserve_deposit_liquidation_ltv, 80);
    assert_eq!(o.lowest_reserve_deposit_max_ltv_pct, 75);
    assert_eq!(o.highest_borrow_factor_pct, 100);
    assert_eq!(o.last_update.slot, 10);
    assert_eq!(o.last_update.stale, 0);
    assert_eq!(o.last_update.price_status, 63);
}

#[test]
fn reserve_config_validation() {
    let m = market();
    let mut c = config();
    assert_eq!(validate_reserve_config(&c, &m, key(40)), Err(LendingError::InvalidOracleConfig));
    c.token_info.pyth_configuration.price = key(77);
    assert_eq!(validate_reserve_config(&c, &m, key(40)), Err(LendingError::InvalidConfig));
    c.deleveraging_threshold_decrease_bps_per_day = 10;
    assert_eq!(validate_reserve_config(&c, &m, key(40)), Ok(()));
    c.loan_to_value_pct = 100;
    assert_eq!(validate_reserve_config(&c, &m, key(40)), Err(LendingError::InvalidConfig));
    c.loan_to_value_pct = 75;
    c.elevation_groups[0] = 3;
    assert_eq!(
        validate_reserve_config(&c, &m, key(40)),
        Err(LendingError::InvalidElevationGroup)
    );
    c.elevation_groups[0] = 1;
    assert_eq!(validate_reserve_config(&c, &m, key(40)), Ok(()));
    c.max_liquidation_bonus_bps = 400;
    c.min_liquidation_bonus_bps = 100;
    assert_eq!(validate_reserve_config(&c, &m, key(40)), Err(LendingError::InvalidConfig));
    assert_eq!(validate_reserve_config(&c, &m, key(50)), Ok(()));
}

/// The obligation of [`obligation`] with its borrow grown to 85 against an
/// unhealthy value of 80: liquidatable.
fn unhealthy() -> Obligation {
    let mut o = obligation();
    o.borrows[1].borrowed_amount_sf = 85 * ONE;
    o.borrows[1].market_value_sf = 85 * ONE;
    o.borrows[1].borrow_factor_adjusted_market_value_sf = 85 * ONE;
    o.deposits[0].market_value_sf = 100 * ONE;
    o.borrow_factor_adjusted_debt_value_sf = 85 * ONE;
    o.borrowed_assets_market_value_sf = 85 * ONE;
    o.lowest_reserve_deposit_liquidation_ltv = 80;
    o.highest_borrow_factor_pct = 100;
    o
}

#[test]
fn liquidation_settles_debt_and_seizes_collateral() {
    let m = market();
    let before = unhealthy();
    let mut o = unhealthy();
    let mut repay = account(50, reserve(ONE));
    let mut withdraw = account(30, reserve(ONE));
    let mut deposits = vec![account(30, reserve(ONE))];
    let expected = calculate_liquidation(
        &withdraw.reserve,
        &repay.reserve,
        10,
        &m,
        &before,
        &before.borrows[1],
        &before.deposits[0],
        10,
        true,
        true,
        None,
    )
    .unwrap();
    let res = liquidate_obligation(&m, &mut repay, &mut withdraw, &mut o, 10, 10, 10, None, &mut deposits)
        .unwrap();
    assert_eq!(res.settle_amount.to_bits(), 10 * ONE);
    assert_eq!(res.repay_amount, 10);
    assert_eq!(res.withdraw_amount, expected.withdraw_amount);
    assert_eq!(res.withdraw_collateral_amount, expected.withdraw_amount);
    assert_eq!(res.liquidation_bonus_rate.to_bits(), expected.liquidation_bonus_rate.to_bits());
    assert_eq!(o.borrows[1].borrowed_amount_sf, 75 * ONE);
    assert_eq!(o.borrows[1].borrowed_amount_outside_elevation_groups, 30);
    assert_eq!(o.deposits[0].deposited_amount, 100 - expected.withdraw_amount);
    assert_eq!(o.last_update.stale, 1);
    assert_eq!(repay.reserve.liquidity.available_amount, 1010);
    assert_eq!(repay.reserve.last_update.stale, 1);
    assert_eq!(withdraw.reserve.last_update.stale, 0);
    assert_eq!(withdraw.reserve.liquidity.available_amount, 1000);
    assert_eq!(deposits[0].reserve.last_update.stale, 0);
    assert_eq!(deposits[0].reserve.last_update.slot, withdraw.reserve.last_update.slot);
}

#[test]
fn liquidation_refusals() {
    let m = market();
    let mut repay = account(50, reserve(ONE));
    let mut withdraw = account(30, reserve(ONE));
    let mut deposits: Vec<ReserveAccount> = Vec::new();
    let mut o = unhealthy();
    assert_eq!(
        liquidate_obligation(&m, &mut repay, &mut withdraw, &mut o, 10, 10, 0, None, &mut deposits).err(),
        Some(DebtTrackerError::Lending(LendingError::InvalidAmount))
    );
    let mut elsewhere = account(31, reserve(ONE));
    assert_eq!(
        liquidate_obligation(&m, &mut repay, &mut elsewhere, &mut o, 10, 10, 10, None, &mut deposits).err(),
        Some(DebtTrackerError::Lending(LendingError::InvalidObligationCollateral))
    );
    let mut no_ltv = account(30, reserve(ONE));
    no_ltv.reserve.config.loan_to_value_pct = 0;
    assert_eq!(
        liquidate_obligation(&m, &mut repay, &mut no_ltv, &mut o, 10, 10, 10, None, &mut deposits).err(),
        Some(DebtTrackerError::Lending(LendingError::CollateralNonLiquidatable))
    );
    let mut healthy = unhealthy();
    healthy.unhealthy_borrow_value_sf = 90 * ONE;
    assert_eq!(
        liquidate_obligation(&m, &mut repay, &mut withdraw, &mut healthy, 10, 10, 10, None, &mut deposits).err(),
        Some(DebtTrackerError::Lending(LendingError::ObligationHealthy))
    );
    assert_eq!(healthy.borrows[1].borrowed_amount_sf, 85 * ONE);
    assert_eq!(repay.reserve.liquidity.available_amount, 1000);
}

#[test]
fn reserve_config_with_an_unknown_tier_fails_the_earlier_checks_first() {
    let m = market();
    let mut c = config();
    c.asset_tier = 7;
    c.loan_to_value_pct = 100;
    assert_eq!(validate_reserve_config(&c, &m, key(40)), Err(LendingError::InvalidConfig));
}

/// A reserve of [`reserve`] that belongs to group 1 and lets that group
/// borrow against it.
fn group_reserve() -> Reserve {
    let mut r = reserve(ONE);
    r.config.elevation_groups[0] = 1;
    r.config.borrow_limit_against_this_collateral_in_elevation_group[0] = u64::MAX;
    r
}

#[test]
fn elevation_group_request_moves_the_obligation() {
    let m = market();
    let mut o = obligation();
    let mut deposits = vec![account(30, group_reserve()), account(32, group_reserve())];
    let mut borrows = vec![account(50, group_reserve())];
    let mut states = Vec::new();
    let r = request_elevation_group(&mut o, &m, 10, 1, &mut deposits, &mut borrows, &mut states);
    assert_eq!(r, Ok(()));
    assert_eq!(o.elevation_group, 1);
    assert_eq!(o.last_update.stale, 1);
    assert_eq!(o.borrows[1].borrowed_amount_outside_elevation_groups, 0);
    assert_eq!(o.deposits[0].borrowed_amount_against_this_collateral_in_elevation_group, 40);
    assert_eq!(deposits[0].reserve.borrowed_amounts_against_this_reserve_in_elevation_groups[0], 40);
}

#[test]
fn elevation_group_request_refusals() {
    let m = market();
    let mut deposits = vec![account(30, group_reserve()), account(32, group_reserve())];
    let mut borrows = vec![account(50, group_reserve())];
    let mut states = Vec::new();
    let mut o = obligation();
    assert_eq!(
        request_elevation_group(&mut o, &m, 10, 0, &mut deposits, &mut borrows, &mut states),
        Err(LendingError::ElevationGroupAlreadyActivated)
    );
    let mut o = obligation();
    assert_eq!(
        request_elevation_group(&mut o, &m, 10, 2, &mut deposits, &mut borrows, &mut states),
        Err(LendingError::ElevationGroupNewLoansDisabled)
    );
    let mut o = obligation();
    assert_eq!(
        request_elevation_group(&mut o, &m, 10, 3, &mut deposits, &mut borrows, &mut states),
        Err(LendingError::InvalidElevationGroup)
    );
    let mut o = obligation();
    o.last_update.mark_stale();
    assert_eq!(
        request_elevation_group(&mut o, &m, 10, 1, &mut deposits, &mut borrows, &mut states),
        Err(LendingError::ObligationStale)
    );
}
