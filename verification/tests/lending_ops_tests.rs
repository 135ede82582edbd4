use klend::big_fraction::BigFraction;
use klend::borrow_rate_curve::BorrowRateCurve;
use klend::error::LendingError;
use klend::fraction::Fraction;
use klend::last_update::{LastUpdate, PriceStatusFlags};
use klend::lending_market::{ElevationGroup, LendingMarket};
use klend::lending_operations::{
    accumulate_referrer_fees, add_referrer_fee, flash_borrow_reserve_liquidity,
    is_price_refresh_needed, is_saved_price_age_valid, redeem_fees, validate_referrer_token_state,
    withdraw_referrer_fees, ReferrerTokenAccount,
};
use klend::lending_utils::{
    assert_obligation_liquidatable, calculate_market_value_from_liquidity_amount,
    calculate_obligation_collateral_market_value, calculate_obligation_liquidity_market_value,
    check_elevation_group_borrow_limit_constraints, check_elevation_group_borrowing_enabled,
    check_non_elevation_group_borrowing_enabled, check_obligation_collateral_deposit_reserve,
    check_obligation_fully_refreshed_and_not_null, check_obligation_liquidity_borrow_reserve,
    check_same_elevation_group, get_elevation_group, get_max_ltv_and_liquidation_threshold,
    post_borrow_obligation_invariants, post_deposit_obligation_invariants,
    post_repay_obligation_invariants, post_withdraw_obligation_invariants,
    repay_and_withdraw_from_obligation_post_liquidation, reset_elevation_group_debts,
    update_elevation_group_debt_trackers_on_borrow,
    update_elevation_group_debt_trackers_on_full_withdraw,
    update_elevation_group_debt_trackers_on_new_deposit,
    update_elevation_group_debt_trackers_on_repay, DebtTrackerError, ReserveAccount,
};
use klend::obligation::{Obligation, ObligationCollateral, ObligationLiquidity};
use klend::pubkey::Pubkey;
use klend::referral::ReferrerTokenState;
use klend::reserve::{
    NewReserveCollateralParams, NewReserveLiquidityParams, Reserve, ReserveCollateral, ReserveConfig,
    ReserveFees, ReserveLiquidity,
};
use klend::token_info::TokenInfo;
use klend::withdrawal_caps::WithdrawalCaps;

const ONE: u128 = 1u128 << 60;

fn key(n: u8) -> Pubkey {
    Pubkey::new_from_array([n; 32])
}

fn caps() -> WithdrawalCaps {
    WithdrawalCaps {
        config_capacity: 0,
        current_total: 0,
        last_interval_start_timestamp: 0,
        config_interval_length_seconds: 0,
    }
}

fn config() -> ReserveConfig {
    ReserveConfig {
        status: 0,
        asset_tier: 0,
        host_fixed_interest_rate_bps: 0,
        min_deleveraging_bonus_bps: 0,
        reserved_1: [0; 7],
        protocol_order_execution_fee_pct: 0,
        protocol_take_rate_pct: 0,
        protocol_liquidation_fee_pct: 0,
        loan_to_value_pct: 75,
        liquidation_threshold_pct: 80,
        min_liquidation_bonus_bps: 200,
        max_liquidation_bonus_bps: 1000,
        bad_debt_liquidation_bonus_bps: 99,
        deleveraging_margin_call_period_secs: 0,
        deleveraging_threshold_decrease_bps_per_day: 0,
        fees: ReserveFees { origination_fee_sf: 0, flash_loan_fee_sf: 0, padding: [0; 8] },
        borrow_rate_curve: BorrowRateCurve::new_flat(0),
        borrow_factor_pct: 100,
        deposit_limit: u64::MAX,
        borrow_limit: u64::MAX,
        token_info: TokenInfo::default(),
        deposit_withdrawal_cap: caps(),
        debt_withdrawal_cap: caps(),
        elevation_groups: [0; 20],
        disable_usage_as_coll_outside_emode: 0,
        utilization_limit_block_borrowing_above_pct: 0,
        autodeleverage_enabled: 0,
        proposer_authority_locked: 0,
        borrow_limit_outside_elevation_group: u64::MAX,
        borrow_limit_against_this_collateral_in_elevation_group: [0; 32],
        deleveraging_bonus_increase_bps_per_day: 0,
    }
}

/// A reserve of a 6-decimal token priced `price` (scaled), with 1000
/// tokens deposited and fresh at slot 10.
fn reserve(price: u128) -> Reserve {
    let mut last_update = LastUpdate::new(10);
    last_update.update_slot(10, Some(PriceStatusFlags::all()));
    Reserve {
        version: 1,
        last_update,
        lending_market: key(1),
        farm_collateral: Pubkey::default_key(),
        farm_debt: Pubkey::default_key(),
        liquidity: ReserveLiquidity::new(NewReserveLiquidityParams {
            mint_pubkey: key(2),
            mint_decimals: 6,
            mint_token_program: key(3),
            supply_vault: key(4),
            fee_vault: key(5),
            market_price_sf: price,
            initial_amount_deposited_in_reserve: 1000,
        }),
        collateral: ReserveCollateral::new(NewReserveCollateralParams {
            mint_pubkey: key(6),
            supply_vault: key(7),
            initial_collateral_supply: 1000,
        }),
        config: config(),
        borrowed_amount_outside_elevation_group: 0,
        borrowed_amounts_against_this_reserve_in_elevation_groups: [0; 32],
    }
}

fn group(id: u8) -> ElevationGroup {
    ElevationGroup {
        max_liquidation_bonus_bps: 500,
        id,
        ltv_pct: 80,
        liquidation_threshold_pct: 90,
        allow_new_loans: 1,
        max_reserves_as_collateral: 2,
        padding_0: 0,
        debt_reserve: key(50),
        padding_1: [0; 4],
    }
}

fn market() -> LendingMarket {
    let mut groups = [ElevationGroup::default(); 32];
    groups[0] = group(1);
    let mut closed = group(2);
    closed.allow_new_loans = 0;
    groups[1] = closed;
    let mut broken = group(3);
    broken.ltv_pct = 0;
    groups[2] = broken;
    LendingMarket {
        version: 1,
        bump_seed: 0,
        lending_market_owner: key(1),
        lending_market_owner_cached: key(1),
        quote_currency: [0; 32],
        referral_fee_bps: 0,
        emergency_mode: 0,
        autodeleverage_enabled: 0,
        borrow_disabled: 0,
        price_refresh_trigger_to_max_age_pct: 50,
        liquidation_max_debt_close_factor_pct: 20,
        insolvency_risk_unhealthy_ltv_pct: 95,
        min_full_liquidation_value_threshold: 2,
        max_liquidatable_debt_market_value_at_once: 500000,
        reserved0: [0; 8],
        global_allowed_borrow_value: 45000000,
        risk_council: key(1),
        reserved1: [0; 8],
        elevation_groups: groups,
        elevation_group_padding: [0; 90],
        min_net_value_in_obligation_sf: 0,
        min_value_skip_liquidation_ltv_checks: 0,
        name: [0; 32],
        min_value_skip_liquidation_bf_checks: 0,
        individual_autodeleverage_margin_call_period_secs: 0,
        min_initial_deposit_amount: 0,
        obligation_order_execution_enabled: 0,
        immutable: 0,
        obligation_order_creation_enabled: 0,
        padding2: [0; 5],
        padding1: [0; 169],
    }
}

fn referrer_state(referrer: u8, mint: u8) -> ReferrerTokenState {
    ReferrerTokenState {
        referrer: key(referrer),
        mint: key(mint),
        amount_unclaimed_sf: 0,
        amount_cumulative_sf: 0,
        bump: 255,
        padding: [0; 31],
    }
}

/// An obligation with two deposits (slots 0 and 2) and one borrow (slot 1).
fn obligation() -> Obligation {
    let mut o = Obligation::default();
    let mut c0 = ObligationCollateral::new(key(30));
    c0.deposited_amount = 100;
    c0.borrowed_amount_against_this_collateral_in_elevation_group = 40;
    let mut c2 = ObligationCollateral::new(key(32));
    c2.deposited_amount = 50;
    c2.borrowed_amount_against_this_collateral_in_elevation_group = 40;
    o.deposits[0] = c0;
    o.deposits[2] = c2;
    let mut l = ObligationLiquidity::new(key(50), BigFraction::from_num(1));
    l.borrowed_amount_sf = 40 * ONE;
    l.borrowed_amount_outside_elevation_groups = 40;
    o.borrows[1] = l;
    o.deposited_value_sf = 100 * ONE;
    o.borrow_factor_adjusted_debt_value_sf = 40 * ONE;
    o.borrowed_assets_market_value_sf = 40 * ONE;
    o.unhealthy_borrow_value_sf = 80 * ONE;
    o.allowed_borrow_value_sf = 75 * ONE;
    o.last_update.update_slot(10, Some(PriceStatusFlags::all()));
    o
}

fn account(k: u8, r: Reserve) -> ReserveAccount {
    ReserveAccount { key: key(k), reserve: r }
}

#[test]
fn stored_price_age() {
    let mut r = reserve(ONE);
    r.liquidity.market_price_last_updated_ts = 100;
    r.config.token_info.max_age_price_seconds = 60;
    assert!(is_saved_price_age_valid(&r, 159));
    assert!(!is_saved_price_age_valid(&r, 160));
    assert!(is_saved_price_age_valid(&r, 50));
    // The market asks for a new price at half of the maximal age.
    let m = market();
    assert!(!is_price_refresh_needed(&r, &m, 129));
    assert!(is_price_refresh_needed(&r, &m, 130));
}

#[test]
fn redeeming_protocol_fees() {
    let mut r = reserve(ONE);
    r.liquidity.accumulated_protocol_fees_sf = 5 * ONE + ONE / 2;
    assert_eq!(redeem_fees(&mut r, 10), Ok(5));
    assert_eq!(r.liquidity.available_amount, 995);
    assert_eq!(r.liquidity.accumulated_protocol_fees_sf, ONE / 2);
    assert_eq!(r.last_update.stale, 1);
    assert_eq!(redeem_fees(&mut r, 10), Err(LendingError::ReserveStale));
    let mut fresh = reserve(ONE);
    assert_eq!(redeem_fees(&mut fresh, 10), Err(LendingError::InsufficientProtocolFeesToRedeem));
    assert_eq!(redeem_fees(&mut fresh, 9), Err(LendingError::MathOverflow));
}

#[test]
fn flash_loans() {
    let mut r = reserve(ONE);
    assert_eq!(flash_borrow_reserve_liquidity(&mut r, 300), Ok(()));
    assert_eq!(r.liquidity.available_amount, 700);
    assert_eq!(r.liquidity.borrowed_amount_sf, 300 * ONE);
    assert_eq!(r.last_update.stale, 1);
    assert_eq!(
        flash_borrow_reserve_liquidity(&mut r, 701),
        Err(LendingError::InsufficientLiquidity)
    );
    let mut disabled = reserve(ONE);
    disabled.config.fees.flash_loan_fee_sf = u64::MAX;
    assert_eq!(
        flash_borrow_reserve_liquidity(&mut disabled, 1),
        Err(LendingError::FlashLoansDisabled)
    );
}

#[test]
fn referral_fees_are_credited_and_withdrawn() {
    let mut r = reserve(ONE);
    let mut s = referrer_state(8, 2);
    assert_eq!(add_referrer_fee(&mut r, &mut s, Fraction::from_bits(3 * ONE)), Ok(()));
    assert_eq!(s.amount_cumulative_sf, 3 * ONE);
    assert_eq!(s.amount_unclaimed_sf, 3 * ONE);
    assert_eq!(r.liquidity.accumulated_referrer_fees_sf, 3 * ONE);
    assert_eq!(withdraw_referrer_fees(&mut r, 10, &mut s), Ok(3));
    assert_eq!(s.amount_unclaimed_sf, 0);
    assert_eq!(s.amount_cumulative_sf, 3 * ONE);
    assert_eq!(r.liquidity.available_amount, 997);
    let mut fresh = reserve(ONE);
    assert_eq!(
        withdraw_referrer_fees(&mut fresh, 10, &mut s),
        Err(LendingError::InsufficientReferralFeesToRedeem)
    );
}

#[test]
fn referrer_account_checks() {
    let s = referrer_state(8, 2);
    assert_eq!(validate_referrer_token_state(&s, key(9), key(2), key(8), key(1), key(9)), Ok(()));
    assert_eq!(
        validate_referrer_token_state(&s, key(9), key(3), key(8), key(1), key(9)),
        Err(LendingError::ReferrerAccountMintMissmatch)
    );
    assert_eq!(
        validate_referrer_token_state(&s, key(9), key(2), key(8), key(1), key(10)),
        Err(LendingError::ReferrerAccountWrongAddress)
    );
    assert_eq!(
        validate_referrer_token_state(&s, key(9), key(2), key(7), key(1), key(9)),
        Err(LendingError::ReferrerAccountReferrerMissmatch)
    );
    let empty = referrer_state(0, 2);
    assert_eq!(
        validate_referrer_token_state(&empty, key(9), key(2), key(0), key(1), key(9)),
        Err(LendingError::ReferrerAccountNotInitialized)
    );
}

#[test]
fn referral_share_of_new_debt() {
    // A 10% absolute referral rate on 50 of new variable debt gives 5.
    let mut r = reserve(ONE);
    r.liquidity.absolute_referral_rate_sf = ONE / 10;
    r.liquidity.pending_referrer_fees_sf = 100 * ONE;
    let mut accounts = vec![ReferrerTokenAccount {
        key: key(9),
        expected_address: key(9),
        state: referrer_state(8, 2),
    }];
    let mut cursor = 0usize;
    let borrowed = Fraction::from_bits(150 * ONE);
    let previous = Fraction::from_bits(100 * ONE);
    assert_eq!(
        accumulate_referrer_fees(key(1), &mut r, &key(8), 10, 0, borrowed, previous, true, &mut accounts, &mut cursor),
        Ok(())
    );
    assert_eq!(cursor, 1);
    let fee = (50 * ONE / 10) as u128;
    assert!(accounts[0].state.amount_unclaimed_sf >= fee - 64 && accounts[0].state.amount_unclaimed_sf <= fee);
    assert_eq!(r.liquidity.pending_referrer_fees_sf, 100 * ONE - accounts[0].state.amount_unclaimed_sf);
    assert_eq!(r.liquidity.accumulated_referrer_fees_sf, accounts[0].state.amount_unclaimed_sf);
    // Without a referrer the share goes to the protocol.
    let mut r2 = reserve(ONE);
    r2.liquidity.absolute_referral_rate_sf = ONE / 10;
    r2.liquidity.pending_referrer_fees_sf = 2 * ONE;
    assert_eq!(
        accumulate_referrer_fees(key(1), &mut r2, &key(8), 10, 0, borrowed, previous, false, &mut accounts, &mut cursor),
        Ok(())
    );
    assert_eq!(r2.liquidity.pending_referrer_fees_sf, 0);
    assert_eq!(r2.liquidity.accumulated_protocol_fees_sf, 2 * ONE);
    // A referrer whose account is missing.
    let mut r3 = reserve(ONE);
    r3.liquidity.absolute_referral_rate_sf = ONE / 10;
    assert_eq!(
        accumulate_referrer_fees(key(1), &mut r3, &key(8), 10, 0, borrowed, previous, true, &mut accounts, &mut cursor),
        Err(LendingError::InvalidAccountInput)
    );
    // Fixed-rate growth larger than the debt's growth.
    let mut r4 = reserve(ONE);
    r4.liquidity.absolute_referral_rate_sf = ONE / 10;
    r4.config.host_fixed_interest_rate_bps = 10000;
    assert_eq!(
        accumulate_referrer_fees(key(1), &mut r4, &key(8), 10, 100_000_000, previous, previous, false, &mut accounts, &mut cursor),
        Err(LendingError::CannotCalculateReferralAmountDueToSlotsMismatch)
    );
}

#[test]
fn market_values() {
    // 2.5 tokens of 6 decimals at a price of 4: 2_500_000 units are worth 10.
    let r = reserve(4 * ONE);
    let v = calculate_market_value_from_liquidity_amount(&r, Fraction::from_num(2_500_000)).unwrap();
    assert_eq!(v.to_bits(), 10 * ONE);
    let mut borrow = ObligationLiquidity::new(key(50), BigFraction::from_num(1));
    borrow.borrowed_amount_sf = 1_000_000 * ONE;
    assert_eq!(calculate_obligation_liquidity_market_value(&r, &borrow).unwrap().to_bits(), 4 * ONE);
    let mut deposit = ObligationCollateral::new(key(30));
    deposit.deposited_amount = 500;
    // One collateral token is worth one liquidity token here.
    assert_eq!(
        calculate_obligation_collateral_market_value(&r, &deposit).unwrap().to_bits(),
        4 * ONE * 500 / 1_000_000
    );
}

#[test]
fn slot_reserve_checks() {
    let o = obligation();
    let r = reserve(ONE);
    assert_eq!(check_obligation_collateral_deposit_reserve(&o.deposits[0], &r, key(30), 0, 10), Ok(()));
    assert_eq!(
        check_obligation_collateral_deposit_reserve(&o.deposits[0], &r, key(31), 0, 10),
        Err(LendingError::InvalidAccountInput)
    );
    assert_eq!(
        check_obligation_collateral_deposit_reserve(&o.deposits[0], &r, key(30), 0, 11),
        Err(LendingError::ReserveStale)
    );
    assert_eq!(
        check_obligation_collateral_deposit_reserve(&o.deposits[0], &r, key(30), 0, 9),
        Err(LendingError::MathOverflow)
    );
    let mut old = reserve(ONE);
    old.version = 0;
    assert_eq!(
        check_obligation_liquidity_borrow_reserve(&o.borrows[1], &old, key(50), 1, 10),
        Err(LendingError::ReserveDeprecated)
    );
    assert_eq!(check_obligation_liquidity_borrow_reserve(&o.borrows[1], &r, key(50), 1, 10), Ok(()));
}

#[test]
fn elevation_group_lookup_and_checks() {
    let m = market();
    assert_eq!(get_elevation_group(0, &m).map(|g| g.is_none()), Ok(true));
    assert_eq!(get_elevation_group(1, &m).map(|g| g.map(|g| g.id)), Ok(Some(1)));
    assert_eq!(get_elevation_group(3, &m).map(|_| ()), Err(LendingError::InvalidElevationGroup));
    assert_eq!(get_elevation_group(11, &m).map(|_| ()), Err(LendingError::InvalidElevationGroup));
    let mut o = obligation();
    o.elevation_group = 2;
    assert_eq!(
        check_elevation_group_borrowing_enabled(&m, &o),
        Err(LendingError::ElevationGroupNewLoansDisabled)
    );
    o.elevation_group = 1;
    assert_eq!(check_elevation_group_borrowing_enabled(&m, &o), Ok(()));
    let mut r = reserve(ONE);
    assert_eq!(check_same_elevation_group(&o, &r), Err(LendingError::InconsistentElevationGroup));
    r.config.elevation_groups[3] = 1;
    assert_eq!(check_same_elevation_group(&o, &r), Ok(()));
    o.elevation_group = 0;
    o.borrowing_disabled = 1;
    assert_eq!(
        check_non_elevation_group_borrowing_enabled(&o),
        Err(LendingError::BorrowingDisabledOutsideElevationGroup)
    );
    assert_eq!(get_max_ltv_and_liquidation_threshold(&r, None), Ok((75, 80)));
    let g = group(1);
    assert_eq!(get_max_ltv_and_liquidation_threshold(&r, Some(&g)), Ok((80, 90)));
}

#[test]
fn refresh_and_liquidation_preconditions() {
    let o = obligation();
    let r = reserve(ONE);
    assert_eq!(check_obligation_fully_refreshed_and_not_null(&o, 10), Ok(()));
    assert_eq!(check_obligation_fully_refreshed_and_not_null(&o, 11), Err(LendingError::ObligationStale));
    let empty = {
        let mut e = Obligation::default();
        e.last_update.update_slot(10, Some(PriceStatusFlags::all()));
        e
    };
    assert_eq!(
        check_obligation_fully_refreshed_and_not_null(&empty, 10),
        Err(LendingError::ObligationDepositsEmpty)
    );
    assert_eq!(assert_obligation_liquidatable(&r, &r, &o, 5, 10), Ok(()));
    assert_eq!(assert_obligation_liquidatable(&r, &r, &o, 0, 10), Err(LendingError::InvalidAmount));
    let mut stale = reserve(ONE);
    stale.last_update.mark_stale();
    assert_eq!(assert_obligation_liquidatable(&stale, &r, &o, 5, 10), Err(LendingError::ReserveStale));
    let mut no_debt = obligation();
    no_debt.borrow_factor_adjusted_debt_value_sf = 0;
    assert_eq!(
        assert_obligation_liquidatable(&r, &r, &no_debt, 5, 10),
        Err(LendingError::ObligationBorrowsZero)
    );
}

#[test]
fn limits_after_an_operation() {
    let o = obligation();
    // A price of one with 6 decimals: 1_000_000 units are worth 1.
    let r = reserve(ONE);
    let one_token = Fraction::from_num(1_000_000);
    let min = Fraction::from_num(1);
    let zero = Fraction::from_num(0);
    assert_eq!(post_deposit_obligation_invariants(one_token, &o, &r, zero, min), Ok(()));
    assert_eq!(
        post_deposit_obligation_invariants(Fraction::from_num(500_000), &o, &r, zero, min),
        Err(LendingError::NetValueRemainingTooSmall)
    );
    // Withdrawing 30 of the 100 deposited leaves an LTV of 40/70, within 80/100.
    assert_eq!(post_withdraw_obligation_invariants(Fraction::from_num(30_000_000), &o, &r, zero, min), Ok(()));
    // Withdrawing 55 leaves 45: LTV 40/45 passes the unhealthy 0.8.
    assert_eq!(
        post_withdraw_obligation_invariants(Fraction::from_num(55_000_000), &o, &r, zero, min),
        Err(LendingError::WorseLTVBlocked)
    );
    assert_eq!(
        post_withdraw_obligation_invariants(Fraction::from_num(60_000_000), &o, &r, zero, min),
        Err(LendingError::LiabilitiesBiggerThanAssets)
    );
    // Borrowing 30 more gives an LTV of 0.7; 50 more gives 0.9.
    assert_eq!(post_borrow_obligation_invariants(Fraction::from_num(30_000_000), &o, &r, zero, min), Ok(()));
    assert_eq!(
        post_borrow_obligation_invariants(Fraction::from_num(50_000_000), &o, &r, zero, min),
        Err(LendingError::WorseLTVBlocked)
    );
    assert_eq!(post_repay_obligation_invariants(Fraction::from_num(10_000_000), &o, &r, Fraction::from_num(40), min), Ok(()));
    assert_eq!(
        post_repay_obligation_invariants(
            Fraction::from_bits(39_500_000 * ONE),
            &o,
            &r,
            Fraction::from_num(40),
            min
        ),
        Err(LendingError::NetValueRemainingTooSmall)
    );
}

#[test]
fn debt_trackers_on_deposit_and_withdrawal() {
    let g = group(1);
    let mut c = ObligationCollateral::new(key(30));
    let mut r = reserve(ONE);
    assert_eq!(
        update_elevation_group_debt_trackers_on_new_deposit(Some(25), &mut c, 0, Some(&g), &key(30), &mut r),
        Ok(())
    );
    assert_eq!(r.borrowed_amounts_against_this_reserve_in_elevation_groups[0], 25);
    assert_eq!(c.borrowed_amount_against_this_collateral_in_elevation_group, 25);
    assert_eq!(
        update_elevation_group_debt_trackers_on_new_deposit(Some(25), &mut c, 2, Some(&g), &key(30), &mut r),
        Err(LendingError::ObligationCollateralExceedsElevationGroupLimit)
    );
    assert_eq!(
        update_elevation_group_debt_trackers_on_new_deposit(Some(25), &mut c, 0, Some(&g), &key(50), &mut r),
        Err(LendingError::ElevationGroupDebtReserveAsCollateral)
    );
    assert_eq!(
        update_elevation_group_debt_trackers_on_new_deposit(None, &mut c, 0, Some(&g), &key(30), &mut r),
        Err(LendingError::ObligationElevationGroupMultipleDebtReserve)
    );
    assert_eq!(update_elevation_group_debt_trackers_on_full_withdraw(30, 1, &mut r), Ok(()));
    assert_eq!(r.borrowed_amounts_against_this_reserve_in_elevation_groups[0], 0);
}

#[test]
fn debt_trackers_on_borrow_and_repay() {
    let g = group(1);
    let mut o = obligation();
    o.elevation_group = 1;
    let mut limited = reserve(ONE);
    limited.config.borrow_limit_against_this_collateral_in_elevation_group[0] = 100;
    let mut deposits = vec![account(30, limited), account(32, limited)];
    let mut debt_reserve = reserve(ONE);
    assert_eq!(
        update_elevation_group_debt_trackers_on_borrow(60, &mut o, 1, Some(&g), &key(50), &mut debt_reserve, &mut deposits),
        Ok(())
    );
    assert_eq!(deposits[0].reserve.borrowed_amounts_against_this_reserve_in_elevation_groups[0], 60);
    assert_eq!(deposits[1].reserve.borrowed_amounts_against_this_reserve_in_elevation_groups[0], 60);
    assert_eq!(o.deposits[0].borrowed_amount_against_this_collateral_in_elevation_group, 100);
    assert_eq!(o.deposits[2].borrowed_amount_against_this_collateral_in_elevation_group, 100);
    assert_eq!(
        update_elevation_group_debt_trackers_on_borrow(41, &mut o, 1, Some(&g), &key(50), &mut debt_reserve, &mut deposits),
        Err(DebtTrackerError::Lending(LendingError::ElevationGroupBorrowLimitExceeded))
    );
    assert_eq!(
        update_elevation_group_debt_trackers_on_borrow(1, &mut o, 1, Some(&g), &key(51), &mut debt_reserve, &mut deposits),
        Err(DebtTrackerError::Lending(LendingError::ElevationGroupHasAnotherDebtReserve))
    );
    let mut wrong = vec![account(31, limited), account(32, limited)];
    assert_eq!(
        update_elevation_group_debt_trackers_on_borrow(1, &mut o, 1, Some(&g), &key(50), &mut debt_reserve, &mut wrong),
        Err(DebtTrackerError::ReserveKeyMismatch)
    );
    let mut short = vec![account(30, limited)];
    assert_eq!(
        update_elevation_group_debt_trackers_on_borrow(1, &mut o, 1, Some(&g), &key(50), &mut debt_reserve, &mut short),
        Err(DebtTrackerError::Lending(LendingError::InvalidAccountInput))
    );
    assert_eq!(
        update_elevation_group_debt_trackers_on_repay(70, &mut o, 1, &mut debt_reserve, &mut deposits),
        Ok(())
    );
    assert_eq!(deposits[0].reserve.borrowed_amounts_against_this_reserve_in_elevation_groups[0], 0);
    assert_eq!(o.deposits[2].borrowed_amount_against_this_collateral_in_elevation_group, 30);
    // Outside groups the borrowed reserve's own limit applies.
    let mut outside = obligation();
    let mut capped_reserve = reserve(ONE);
    capped_reserve.config.borrow_limit_outside_elevation_group = 100;
    assert_eq!(
        update_elevation_group_debt_trackers_on_borrow(80, &mut outside, 1, None, &key(50), &mut capped_reserve, &mut deposits),
        Ok(())
    );
    assert_eq!(capped_reserve.borrowed_amount_outside_elevation_group, 80);
    assert_eq!(outside.borrows[1].borrowed_amount_outside_elevation_groups, 120);
    assert_eq!(
        update_elevation_group_debt_trackers_on_borrow(21, &mut outside, 1, None, &key(50), &mut capped_reserve, &mut deposits),
        Err(DebtTrackerError::Lending(LendingError::BorrowLimitExceeded))
    );
    assert_eq!(
        update_elevation_group_debt_trackers_on_repay(100, &mut outside, 1, &mut capped_reserve, &mut deposits),
        Ok(())
    );
    assert_eq!(capped_reserve.borrowed_amount_outside_elevation_group, 0);
    assert_eq!(outside.borrows[1].borrowed_amount_outside_elevation_groups, 20);
}

#[test]
fn borrow_limit_constraints() {
    let g = group(1);
    let mut o = obligation();
    o.elevation_group = 1;
    let mut in_group = reserve(ONE);
    in_group.config.elevation_groups[0] = 1;
    in_group.config.borrow_limit_against_this_collateral_in_elevation_group[0] = 100;
    let deposits = vec![account(30, in_group), account(32, in_group)];
    let borrows = vec![account(50, in_group)];
    assert_eq!(check_elevation_group_borrow_limit_constraints(&o, Some(&g), &deposits, &borrows), Ok(()));
    let outside_group = reserve(ONE);
    let bad_deposits = vec![account(30, in_group), account(32, outside_group)];
    assert_eq!(
        check_elevation_group_borrow_limit_constraints(&o, Some(&g), &bad_deposits, &borrows),
        Err(LendingError::InconsistentElevationGroup)
    );
    let other_debt = vec![account(51, in_group)];
    assert_eq!(
        check_elevation_group_borrow_limit_constraints(&o, Some(&g), &deposits, &other_debt),
        Err(LendingError::InvalidAccountInput)
    );
    let extra = vec![account(30, in_group), account(32, in_group), account(33, in_group)];
    assert_eq!(
        check_elevation_group_borrow_limit_constraints(&o, Some(&g), &extra, &borrows),
        Err(LendingError::InvalidAccountInput)
    );
    let mut over = in_group;
    over.borrowed_amounts_against_this_reserve_in_elevation_groups[0] = 101;
    let over_deposits = vec![account(30, over), account(32, in_group)];
    assert_eq!(
        check_elevation_group_borrow_limit_constraints(&o, Some(&g), &over_deposits, &borrows),
        Err(LendingError::ElevationGroupBorrowLimitExceeded)
    );
    let mut outside = obligation();
    outside.elevation_group = 0;
    let mut full = reserve(ONE);
    full.config.borrow_limit_outside_elevation_group = 10;
    full.borrowed_amount_outside_elevation_group = 11;
    assert_eq!(
        check_elevation_group_borrow_limit_constraints(&outside, None, &deposits, &vec![account(50, full)]),
        Err(LendingError::ElevationGroupBorrowLimitExceeded)
    );
}

#[test]
fn resetting_group_debts() {
    let g = group(1);
    let mut o = obligation();
    let mut with_debt = reserve(ONE);
    with_debt.borrowed_amounts_against_this_reserve_in_elevation_groups[0] = 50;
    let mut deposits = vec![account(30, with_debt), account(32, with_debt)];
    let mut borrows = vec![account(50, reserve(ONE))];
    assert_eq!(reset_elevation_group_debts(&mut o, Some(&g), &mut deposits, &mut borrows), Ok(()));
    assert_eq!(deposits[0].reserve.borrowed_amounts_against_this_reserve_in_elevation_groups[0], 10);
    assert_eq!(o.deposits[0].borrowed_amount_against_this_collateral_in_elevation_group, 0);
    assert_eq!(o.deposits[2].borrowed_amount_against_this_collateral_in_elevation_group, 0);
    // Outside groups the borrows' debts are reset.
    let mut o2 = obligation();
    let mut debt = reserve(ONE);
    debt.borrowed_amount_outside_elevation_group = 100;
    let mut borrows2 = vec![account(50, debt)];
    assert_eq!(reset_elevation_group_debts(&mut o2, None, &mut deposits, &mut borrows2), Ok(()));
    assert_eq!(borrows2[0].reserve.borrowed_amount_outside_elevation_group, 60);
    assert_eq!(o2.borrows[1].borrowed_amount_outside_elevation_groups, 0);
    // An account left over is refused.
    let mut o3 = obligation();
    let mut extra = vec![account(50, debt), account(51, debt)];
    assert_eq!(
        reset_elevation_group_debts(&mut o3, None, &mut deposits, &mut extra),
        Err(LendingError::InvalidAccountInput)
    );
}

#[test]
fn settling_a_liquidation() {
    let mut o = obligation();
    let mut r = reserve(ONE);
    r.liquidity.borrowed_amount_sf = 40 * ONE;
    assert_eq!(
        repay_and_withdraw_from_obligation_post_liquidation(&mut o, &mut r, Fraction::from_num(10), 20, 10, 1, 0),
        Ok(())
    );
    assert_eq!(o.borrows[1].borrowed_amount_sf, 30 * ONE);
    assert_eq!(o.deposits[0].deposited_amount, 80);
    assert_eq!(r.liquidity.available_amount, 1010);
    assert_eq!(r.liquidity.borrowed_amount_sf, 30 * ONE);
    assert_eq!(o.last_update.stale, 1);
    assert_eq!(r.last_update.stale, 1);
    assert_eq!(
        repay_and_withdraw_from_obligation_post_liquidation(&mut o, &mut r, Fraction::from_num(10), 0, 10, 1, 0),
        Err(LendingError::LiquidationTooSmall)
    );
    assert_eq!(
        repay_and_withdraw_from_obligation_post_liquidation(&mut o, &mut r, Fraction::from_num(10), 81, 10, 1, 0),
        Err(LendingError::MathOverflow)
    );
}

#[test]
fn refresh_records_compare_by_slot() {
    let a = LastUpdate::new(5);
    let mut b = LastUpdate::new(5);
    b.update_slot(5, Some(PriceStatusFlags::all()));
    assert!(a == b);
    assert!(LastUpdate::new(4) < LastUpdate::new(5));
    assert_eq!(LastUpdate::new(6).partial_cmp(&LastUpdate::new(5)), Some(std::cmp::Ordering::Greater));
}
