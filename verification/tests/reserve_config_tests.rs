use klend::borrow_order_operations::{
    check_not_updated, initialize_borrow_order, is_term_satisfied, update_borrow_order_config,
};
use klend::borrow_rate_curve::BorrowRateCurve;
use klend::error::LendingError;
use klend::fraction::Fraction;
use klend::last_update::{LastUpdate, PriceStatusFlags};
use klend::market_updates::UpdateLendingMarketMode;
use klend::obligation::{BorrowOrder, BorrowOrderConfig, DebtReserveConstraint};
use klend::permissioning::PermissionedOp;
use klend::price_checks::{check_price_age, check_twap_in_tolerance, is_within_tolerance};
use klend::pubkey::Pubkey;
use klend::referral::{ReferrerTokenState, UserMetadata};
use klend::reserve::{
    NewReserveCollateralParams, NewReserveLiquidityParams, Reserve, ReserveCollateral, ReserveConfig,
    ReserveFees, ReserveLiquidity,
};
use klend::reserve_updates::{update_reserve_config, UpdateConfigMode, UpdateReserveConfigValue};
use klend::borrow_rate_curve::CurvePoint;
use klend::token_info::{ScopeConfiguration, TokenInfo};
use klend::withdraw_ticket::{ProgressCallbackType, WithdrawTicket};
use klend::withdrawal_caps::WithdrawalCaps;

const ONE: u128 = 1u128 << 60;

fn key(n: u8) -> Pubkey {
    Pubkey::new_from_array([n; 32])
}

fn caps() -> WithdrawalCaps {
    WithdrawalCaps {
        config_capacity: 0,
        current_total: 0,
        last_interval_start_timestamp: 0,
        config_interval_length_seconds: 0,
    }
}

fn config() -> ReserveConfig {
    ReserveConfig {
        status: 0,
        asset_tier: 0,
        host_fixed_interest_rate_bps: 0,
        min_deleveraging_bonus_bps: 0,
        reserved_1: [0; 7],
        protocol_order_execution_fee_pct: 0,
        protocol_take_rate_pct: 0,
        protocol_liquidation_fee_pct: 0,
        loan_to_value_pct: 75,
        liquidation_threshold_pct: 80,
        min_liquidation_bonus_bps: 200,
        max_liquidation_bonus_bps: 1000,
        bad_debt_liquidation_bonus_bps: 99,
        deleveraging_margin_call_period_secs: 0,
        deleveraging_threshold_decrease_bps_per_day: 0,
        fees: ReserveFees { origination_fee_sf: 0, flash_loan_fee_sf: 0, padding: [0; 8] },
        borrow_rate_curve: BorrowRateCurve::new_flat(0),
        borrow_factor_pct: 100,
        deposit_limit: u64::MAX,
        borrow_limit: u64::MAX,
        token_info: TokenInfo::default(),
        deposit_withdrawal_cap: caps(),
        debt_withdrawal_cap: caps(),
        elevation_groups: [0; 20],
        disable_usage_as_coll_outside_emode: 0,
        utilization_limit_block_borrowing_above_pct: 0,
        autodeleverage_enabled: 0,
        proposer_authority_locked: 0,
        borrow_limit_outside_elevation_group: u64::MAX,
        borrow_limit_against_this_collateral_in_elevation_group: [0; 32],
        deleveraging_bonus_increase_bps_per_day: 0,
    }
}

fn reserve() -> Reserve {
    let mut last_update = LastUpdate::new(10);
    last_update.update_slot(10, Some(PriceStatusFlags::all()));
    Reserve {
        version: 1,
        last_update,
        lending_market: key(1),
        farm_collateral: Pubkey::default_key(),
        farm_debt: Pubkey::default_key(),
        liquidity: ReserveLiquidity::new(NewReserveLiquidityParams {
            mint_pubkey: key(2),
            mint_decimals: 6,
            mint_token_program: key(3),
            supply_vault: key(4),
            fee_vault: key(5),
            market_price_sf: ONE,
            initial_amount_deposited_in_reserve: 1000,
        }),
        collateral: ReserveCollateral::new(NewReserveCollateralParams {
            mint_pubkey: key(6),
            supply_vault: key(7),
            initial_collateral_supply: 1000,
        }),
        config: config(),
        borrowed_amount_outside_elevation_group: 0,
        borrowed_amounts_against_this_reserve_in_elevation_groups: [0; 32],
    }
}

#[test]
fn reserve_setting_updates() {
    let mut r = reserve();
    update_reserve_config(&mut r, UpdateConfigMode::UpdateLoanToValuePct, &[60]);
    assert_eq!(r.config.loan_to_value_pct, 60);
    assert_eq!(r.last_update.stale, 1);
    update_reserve_config(&mut r, UpdateConfigMode::UpdateMaxLiquidationBonusBps, &[0x34, 0x12]);
    assert_eq!(r.config.max_liquidation_bonus_bps, 0x1234);
    update_reserve_config(&mut r, UpdateConfigMode::UpdateDepositLimit, &500u64.to_le_bytes());
    assert_eq!(r.config.deposit_limit, 500);
    update_reserve_config(&mut r, UpdateConfigMode::UpdateTokenInfoLowerHeuristic, &7u64.to_le_bytes());
    assert_eq!(r.config.token_info.heuristic.lower, 7);
    update_reserve_config(&mut r, UpdateConfigMode::UpdateFeesFlashLoanFee, &9u64.to_le_bytes());
    assert_eq!(r.config.fees.flash_loan_fee_sf, 9);
    update_reserve_config(&mut r, UpdateConfigMode::UpdateTokenInfoScopeChain, &[1, 0, 2, 0, 3, 0, 0xff, 0xff]);
    assert_eq!(r.config.token_info.scope_configuration.price_chain, [1, 2, 3, u16::MAX]);
    update_reserve_config(&mut r, UpdateConfigMode::UpdateScopePriceFeed, &[4u8; 32]);
    assert_eq!(r.config.token_info.scope_configuration.price_feed.bytes, [4; 32]);
    update_reserve_config(&mut r, UpdateConfigMode::UpdateFarmDebt, &[5u8; 32]);
    assert_eq!(r.farm_debt.bytes, [5; 32]);
    let mut name = [0u8; 32];
    name[..3].copy_from_slice(b"SOL");
    update_reserve_config(&mut r, UpdateConfigMode::UpdateTokenInfoName, &name);
    assert_eq!(r.token_symbol(), "SOL");
    let mut cap = Vec::new();
    cap.extend_from_slice(&1000u64.to_le_bytes());
    cap.extend_from_slice(&3600u64.to_le_bytes());
    update_reserve_config(&mut r, UpdateConfigMode::UpdateDebtWithdrawalCap, &cap);
    assert_eq!(r.config.debt_withdrawal_cap.config_capacity, 1000);
    assert_eq!(r.config.debt_withdrawal_cap.config_interval_length_seconds, 3600);
    let mut ids = [0u8; 20];
    ids[0] = 3;
    update_reserve_config(&mut r, UpdateConfigMode::UpdateElevationGroup, &ids);
    assert_eq!(r.config.elevation_groups[0], 3);
    let mut limits = Vec::new();
    for i in 0..32u64 {
        limits.extend_from_slice(&(i * 10).to_le_bytes());
    }
    update_reserve_config(&mut r, UpdateConfigMode::UpdateBorrowLimitsInElevationGroupAgainstThisReserve, &limits);
    assert_eq!(r.config.borrow_limit_against_this_collateral_in_elevation_group[31], 310);
    let mut curve = Vec::new();
    for i in 0..11u32 {
        curve.extend_from_slice(&(i * 1000).to_le_bytes());
        curve.extend_from_slice(&(i * 50).to_le_bytes());
    }
    update_reserve_config(&mut r, UpdateConfigMode::UpdateBorrowRateCurve, &curve);
    assert_eq!(r.config.borrow_rate_curve.points[10].utilization_rate_bps, 10000);
    assert_eq!(r.config.borrow_rate_curve.points[10].borrow_rate_bps, 500);
    update_reserve_config(&mut r, UpdateConfigMode::UpdateReserveStatus, &[2]);
    assert_eq!(r.config.status, 2);
    assert_eq!(UpdateConfigMode::try_from_u64(35), Some(UpdateConfigMode::UpdateElevationGroup));
    assert_eq!(UpdateConfigMode::try_from_u64(0), None);
}

#[test]
fn token_info_checks() {
    let mut t = TokenInfo::default();
    assert!(!t.is_valid());
    t.pyth_configuration.price = key(9);
    assert!(t.is_valid());
    assert!(t.is_twap_config_valid());
    t.max_twap_divergence_bps = 100;
    assert!(!t.is_twap_config_valid());
    t.max_age_twap_seconds = 60;
    assert!(t.is_twap_config_valid());
    assert_eq!(t.validate_token_info_config(&Some(key(9)), &None, &None, &None), Ok(()));
    assert_eq!(
        t.validate_token_info_config(&Some(key(8)), &None, &None, &None),
        Err(LendingError::InvalidPythPriceAccount)
    );
    assert_eq!(
        t.validate_token_info_config(&Some(key(9)), &Some(key(1)), &None, &None),
        Err(LendingError::InvalidSwitchboardAccount)
    );
    t.scope_configuration.price_feed = key(7);
    assert_eq!(
        t.validate_token_info_config(&Some(key(9)), &None, &None, &Some(key(7))),
        Err(LendingError::InvalidOracleConfig)
    );
    t.scope_configuration.price_chain = [1, u16::MAX, u16::MAX, u16::MAX];
    assert_eq!(
        t.validate_token_info_config(&Some(key(9)), &None, &None, &Some(key(7))),
        Err(LendingError::InvalidTwapConfig)
    );
    t.scope_configuration.twap_chain = [2, u16::MAX, u16::MAX, u16::MAX];
    assert_eq!(t.validate_token_info_config(&Some(key(9)), &None, &None, &Some(key(7))), Ok(()));
    let s = ScopeConfiguration::default();
    assert!(!s.is_enabled());
    let mut bad = TokenInfo::default();
    bad.name = [0xff; 32];
    assert_eq!(bad.symbol(), "InvalidTokenName");
}

#[test]
fn price_checks() {
    assert_eq!(check_price_age(100, 60, 160), Ok(()));
    assert_eq!(check_price_age(100, 60, 161), Err(LendingError::PriceTooOld));
    assert_eq!(check_price_age(200, 0, 100), Ok(()));
    let px = Fraction::from_num(100);
    assert!(is_within_tolerance(px, Fraction::from_num(101), 200));
    assert!(!is_within_tolerance(px, Fraction::from_num(102), 200));
    let mut t = TokenInfo::default();
    t.max_twap_divergence_bps = 100;
    assert_eq!(check_twap_in_tolerance(px, Fraction::from_num(100), &t), Ok(()));
    assert_eq!(
        check_twap_in_tolerance(px, Fraction::from_num(99), &t),
        Err(LendingError::PriceTooDivergentFromTwap)
    );
}

fn order_config(mint: u8, destination: u8, amount: u64) -> BorrowOrderConfig {
    BorrowOrderConfig {
        debt_liquidity_mint: key(mint),
        remaining_debt_amount: amount,
        filled_debt_destination: key(destination),
        max_borrow_rate_bps: 500,
        min_debt_term_seconds: 86400,
        fillable_until_timestamp: 2000,
        enable_auto_rollover_on_filled_borrows: 1,
    }
}

#[test]
fn borrow_order_placement_and_change() {
    let mut order = BorrowOrder::default();
    assert_eq!(initialize_borrow_order(&mut order, order_config(1, 2, 100), 50), Ok(()));
    assert_eq!(order.active, 1);
    assert_eq!(order.requested_debt_amount, 100);
    assert_eq!(order.placed_at_timestamp, 50);
    assert_eq!(update_borrow_order_config(&mut order, order_config(1, 2, 80), 60), Ok(()));
    assert_eq!(order.remaining_debt_amount, 80);
    assert_eq!(order.requested_debt_amount, 80);
    assert_eq!(order.last_updated_at_timestamp, 60);
    assert_eq!(order.placed_at_timestamp, 50);
    assert_eq!(
        update_borrow_order_config(&mut order, order_config(3, 2, 80), 70),
        Err(LendingError::NonUpdatableOrderConfiguration)
    );
    assert_eq!(
        update_borrow_order_config(&mut order, order_config(1, 4, 80), 70),
        Err(LendingError::NonUpdatableOrderConfiguration)
    );
    assert_eq!(check_not_updated("mint", &key(1), key(1)), Ok(()));
    assert!(is_term_satisfied(None, None));
    assert!(!is_term_satisfied(None, Some(10)));
    assert!(is_term_satisfied(Some(10), None));
    assert!(is_term_satisfied(Some(10), Some(10)));
    assert!(!is_term_satisfied(Some(11), Some(10)));
    let c = DebtReserveConstraint { max_borrow_rate_bps: 1, min_debt_term_seconds: 0 };
    assert_eq!(c.min_debt_term_seconds(), None);
}

#[test]
fn withdraw_tickets() {
    let t = WithdrawTicket {
        sequence_number: 1,
        owner: key(1),
        reserve: key(2),
        user_destination_liquidity_ta: key(3),
        queued_collateral_amount: 10,
        created_at_timestamp: 5,
        invalid: 0,
        progress_callback_type: 1,
        alignment_padding: [0; 6],
        progress_callback_custom_accounts: [key(0), key(0)],
        end_padding: [0; 40],
    };
    assert!(t.is_valid());
    assert_eq!(t.progress_callback_type(), ProgressCallbackType::KlendQueueAccountingHandlerOnKvault);
}

#[test]
fn permission_sets() {
    let mut op = PermissionedOp::none();
    op.add(PermissionedOp::deposit());
    op.add(PermissionedOp::liquidate());
    assert_eq!(op.bits, 5);
    assert_eq!(op.split(), vec![PermissionedOp::deposit(), PermissionedOp::liquidate()]);
    op.revoke(PermissionedOp::deposit());
    assert_eq!(op.bits, 4);
    let unknown = PermissionedOp { bits: 2 | 16 };
    assert_eq!(unknown.split(), vec![PermissionedOp::borrow(), PermissionedOp { bits: 16 }]);
    assert_eq!(PermissionedOp::get_all_ops().len(), 3);
    assert_eq!(PermissionedOp::PERMISSION_ALL, 7);
}

#[test]
fn account_defaults_and_modes() {
    let s = ReferrerTokenState::default();
    assert_eq!(s.amount_unclaimed_sf, 0);
    let u = UserMetadata::default();
    assert_eq!(u.bump, 0);
    let modes = UpdateLendingMarketMode::iter_without_deprecated();
    assert_eq!(modes.len(), 25);
    assert!(!modes.contains(&UpdateLendingMarketMode::DeprecatedUpdateMultiplierPoints));
    assert_eq!(modes[0], UpdateLendingMarketMode::UpdateOwner);
}

#[test]
fn reserve_setting_updates_of_fees_totals_and_limits() {
    let mut r = reserve();
    update_reserve_config(&mut r, UpdateConfigMode::UpdateFeesOriginationFee, &11u64.to_le_bytes());
    assert_eq!(r.config.fees.origination_fee_sf, 11);
    update_reserve_config(&mut r, UpdateConfigMode::UpdateDeleveragingMarginCallPeriod, &86400u64.to_le_bytes());
    assert_eq!(r.config.deleveraging_margin_call_period_secs, 86400);
    update_reserve_config(&mut r, UpdateConfigMode::DeprecatedUpdateDebtWithdrawalCapCurrentTotal, &42u64.to_le_bytes());
    assert_eq!(r.config.debt_withdrawal_cap.current_total, 42);
    update_reserve_config(&mut r, UpdateConfigMode::DeprecatedUpdateDepositWithdrawalCapCurrentTotal, &43u64.to_le_bytes());
    assert_eq!(r.config.deposit_withdrawal_cap.current_total, 43);
    update_reserve_config(&mut r, UpdateConfigMode::UpdateBlockBorrowingAboveUtilizationPct, &[90]);
    assert_eq!(r.config.utilization_limit_block_borrowing_above_pct, 90);
    let before = r.config.loan_to_value_pct;
    r.last_update.stale = 0;
    update_reserve_config(&mut r, UpdateConfigMode::DeprecatedUpdateFeesReferralFeeBps, &[]);
    assert_eq!(r.config.loan_to_value_pct, before);
    assert_eq!(r.last_update.stale, 1);
}

#[test]
fn entire_reserve_config_is_decoded() {
    let mut r = reserve();
    let mut v = vec![0u8; 920];
    v[0] = 1; // status
    v[16] = 65; // loan to value
    v[17] = 70; // liquidation threshold
    v[20..22].copy_from_slice(&900u16.to_le_bytes());
    v[40..48].copy_from_slice(&5u64.to_le_bytes());
    v[64 + 80..64 + 84].copy_from_slice(&10000u32.to_le_bytes());
    v[64 + 84..64 + 88].copy_from_slice(&300u32.to_le_bytes());
    v[152..160].copy_from_slice(&150u64.to_le_bytes());
    v[160..168].copy_from_slice(&7000u64.to_le_bytes());
    v[176] = b'X';
    v[256..288].copy_from_slice(&[9u8; 32]);
    v[288..290].copy_from_slice(&3u16.to_le_bytes());
    v[560..568].copy_from_slice(&(-5i64).to_le_bytes());
    v[624] = 2;
    v[648..656].copy_from_slice(&8u64.to_le_bytes());
    v[656 + 8..656 + 16].copy_from_slice(&77u64.to_le_bytes());
    v[912..920].copy_from_slice(&12u64.to_le_bytes());
    update_reserve_config(&mut r, UpdateConfigMode::UpdateEntireReserveConfig, &v);
    let c = r.config;
    assert_eq!(c.status, 1);
    assert_eq!(c.loan_to_value_pct, 65);
    assert_eq!(c.liquidation_threshold_pct, 70);
    assert_eq!(c.max_liquidation_bonus_bps, 900);
    assert_eq!(c.fees.origination_fee_sf, 5);
    assert_eq!(c.borrow_rate_curve.points[10].utilization_rate_bps, 10000);
    assert_eq!(c.borrow_rate_curve.points[10].borrow_rate_bps, 300);
    assert_eq!(c.borrow_factor_pct, 150);
    assert_eq!(c.deposit_limit, 7000);
    assert_eq!(c.token_info.name[0], b'X');
    assert_eq!(c.token_info.scope_configuration.price_feed.bytes, [9; 32]);
    assert_eq!(c.token_info.scope_configuration.price_chain[0], 3);
    assert_eq!(c.deposit_withdrawal_cap.config_capacity, -5);
    assert_eq!(c.elevation_groups[0], 2);
    assert_eq!(c.borrow_limit_outside_elevation_group, 8);
    assert_eq!(c.borrow_limit_against_this_collateral_in_elevation_group[1], 77);
    assert_eq!(c.deleveraging_bonus_increase_bps_per_day, 12);
    assert_eq!(r.last_update.stale, 1);
}

#[test]
fn raw_bytes_round_trip_through_updates() {
    let mut r = reserve();
    let v = UpdateReserveConfigValue::U16(777).to_raw_bytes();
    assert_eq!(v, 777u16.to_le_bytes().to_vec());
    update_reserve_config(&mut r, UpdateConfigMode::UpdateMaxLiquidationBonusBps, &v);
    assert_eq!(r.config.max_liquidation_bonus_bps, 777);
    let v = UpdateReserveConfigValue::U8(42).to_raw_bytes();
    update_reserve_config(&mut r, UpdateConfigMode::UpdateLoanToValuePct, &v);
    assert_eq!(r.config.loan_to_value_pct, 42);
    let v = UpdateReserveConfigValue::U64(123456789).to_raw_bytes();
    update_reserve_config(&mut r, UpdateConfigMode::UpdateDepositLimit, &v);
    assert_eq!(r.config.deposit_limit, 123456789);
    assert_eq!(UpdateReserveConfigValue::Bool(true).to_raw_bytes(), vec![1]);
    assert_eq!(UpdateReserveConfigValue::U8Tuple(3, 4).to_raw_bytes(), vec![3, 4]);
    let v = UpdateReserveConfigValue::ScopeChain([1, 2, 3, 65535]).to_raw_bytes();
    assert_eq!(v, vec![1, 0, 2, 0, 3, 0, 255, 255]);
    update_reserve_config(&mut r, UpdateConfigMode::UpdateTokenInfoScopeChain, &v);
    assert_eq!(r.config.token_info.scope_configuration.price_chain, [1, 2, 3, 65535]);
    let mut points = [CurvePoint { utilization_rate_bps: 10000, borrow_rate_bps: 800 }; 11];
    points[0] = CurvePoint { utilization_rate_bps: 0, borrow_rate_bps: 100 };
    let v = UpdateReserveConfigValue::BorrowRateCurve(BorrowRateCurve { points }).to_raw_bytes();
    assert_eq!(v.len(), 88);
    update_reserve_config(&mut r, UpdateConfigMode::UpdateBorrowRateCurve, &v);
    assert_eq!(r.config.borrow_rate_curve.points[0].borrow_rate_bps, 100);
    assert_eq!(r.config.borrow_rate_curve.points[10].borrow_rate_bps, 800);
    let v = UpdateReserveConfigValue::WithdrawalCap(5000, 60).to_raw_bytes();
    update_reserve_config(&mut r, UpdateConfigMode::UpdateDepositWithdrawalCap, &v);
    assert_eq!(r.config.deposit_withdrawal_cap.config_capacity, 5000);
    assert_eq!(r.config.deposit_withdrawal_cap.config_interval_length_seconds, 60);
    let mut limits = [0u64; 32];
    limits[5] = 99;
    let v = UpdateReserveConfigValue::ElevationGroupBorrowLimits(limits).to_raw_bytes();
    update_reserve_config(&mut r, UpdateConfigMode::UpdateBorrowLimitsInElevationGroupAgainstThisReserve, &v);
    assert_eq!(r.config.borrow_limit_against_this_collateral_in_elevation_group[5], 99);
    let v = UpdateReserveConfigValue::Pubkey(key(8)).to_raw_bytes();
    update_reserve_config(&mut r, UpdateConfigMode::UpdatePythPrice, &v);
    assert_eq!(r.config.token_info.pyth_configuration.price.bytes, [8; 32]);
    let v = UpdateReserveConfigValue::ElevationGroups([1; 20]).to_raw_bytes();
    update_reserve_config(&mut r, UpdateConfigMode::UpdateElevationGroup, &v);
    assert_eq!(r.config.elevation_groups, [1; 20]);
}

#[test]
fn deleveraging_threshold_update() {
    let mut r = reserve();
    let v = UpdateReserveConfigValue::U64(25).to_raw_bytes();
    update_reserve_config(&mut r, UpdateConfigMode::UpdateDeleveragingThresholdDecreaseBpsPerDay, &v);
    assert_eq!(r.config.deleveraging_threshold_decrease_bps_per_day, 25);
    assert_eq!(r.last_update.stale, 1);
}

#[test]
fn empty_reserve_defaults() {
    let r = Reserve::default();
    assert_eq!(r.version, 0);
    assert_eq!(r.last_update.slot, 0);
    assert_eq!(r.last_update.stale, 1);
    assert_eq!(r.liquidity.available_amount, 0);
    assert_eq!(r.liquidity.cumulative_borrow_rate_bsf.value, [1u64 << 60, 0, 0, 0]);
    assert_eq!(r.collateral.mint_total_supply, 0);
    assert_eq!(r.config.loan_to_value_pct, 0);
    assert_eq!(r.config.borrow_rate_curve.points[0].utilization_rate_bps, 0);
    assert_eq!(r.config.borrow_rate_curve.points[5].utilization_rate_bps, 10000);
    assert_eq!(r.config.token_info.scope_configuration.price_chain, [u16::MAX; 4]);
    assert_eq!(r.borrowed_amounts_against_this_reserve_in_elevation_groups, [0; 32]);
    let l = ReserveLiquidity::default();
    assert_eq!(l.borrowed_amount_sf, 0);
    let c = ReserveCollateral::default();
    assert_eq!(c.mint_pubkey.bytes, [0; 32]);
    let cfg = ReserveConfig::default();
    assert_eq!(cfg.deposit_limit, 0);
}
