use klend::config_items::{
    check_bool, check_gte, check_in_range, check_lte, check_not_negative, check_not_zero,
    check_valid_bps, check_valid_pct, read_elevation_group, read_le,
};
use klend::error::LendingError;
use klend::global_config::{ConfigValueError, GlobalConfig, UpdateGlobalConfigMode};
use klend::lending_market::{ElevationGroup, LendingMarket};
use klend::market_updates::{
    update_lending_market, validate_new_elevation_group, UpdateLendingMarketConfigValue,
    UpdateLendingMarketMode,
};
use klend::pubkey::Pubkey;

fn key(n: u8) -> Pubkey {
    Pubkey { bytes: [n; 32] }
}

fn market() -> LendingMarket {
    let g = ElevationGroup::default();
    LendingMarket {
        version: 1,
        bump_seed: 0,
        lending_market_owner: key(1),
        lending_market_owner_cached: key(1),
        quote_currency: [0; 32],
        referral_fee_bps: 0,
        emergency_mode: 0,
        autodeleverage_enabled: 0,
        borrow_disabled: 0,
        price_refresh_trigger_to_max_age_pct: 0,
        liquidation_max_debt_close_factor_pct: 20,
        insolvency_risk_unhealthy_ltv_pct: 95,
        min_full_liquidation_value_threshold: 2,
        max_liquidatable_debt_market_value_at_once: 500000,
        reserved0: [7; 8],
        global_allowed_borrow_value: 45000000,
        risk_council: key(1),
        reserved1: [7; 8],
        elevation_groups: [g; 32],
        elevation_group_padding: [0; 90],
        min_net_value_in_obligation_sf: 0,
        min_value_skip_liquidation_ltv_checks: 0,
        name: [0; 32],
        min_value_skip_liquidation_bf_checks: 0,
        individual_autodeleverage_margin_call_period_secs: 0,
        min_initial_deposit_amount: 0,
        obligation_order_execution_enabled: 0,
        immutable: 0,
        obligation_order_creation_enabled: 0,
        padding2: [0; 5],
        padding1: [0; 169],
    }
}

fn group(id: u8, ltv: u8, threshold: u8, bonus: u16) -> ElevationGroup {
    ElevationGroup {
        max_liquidation_bonus_bps: bonus,
        id,
        ltv_pct: ltv,
        liquidation_threshold_pct: threshold,
        allow_new_loans: 1,
        max_reserves_as_collateral: 3,
        padding_0: 0,
        debt_reserve: key(9),
        padding_1: [1, 2, 3, 4],
    }
}

#[test]
fn value_checks() {
    assert_eq!(check_bool(1), Ok(()));
    assert_eq!(check_bool(2), Err(LendingError::InvalidFlag));
    assert_eq!(check_not_zero(0), Err(LendingError::InvalidConfig));
    assert_eq!(check_not_zero(3), Ok(()));
    assert_eq!(check_not_negative(-1), Err(LendingError::InvalidConfig));
    assert_eq!(check_not_negative(0), Ok(()));
    assert_eq!(check_in_range(5, 100, 4), Err(LendingError::InvalidConfig));
    assert_eq!(check_in_range(5, 100, 100), Ok(()));
    assert_eq!(check_valid_pct(101), Err(LendingError::InvalidConfig));
    assert_eq!(check_valid_bps(10000), Ok(()));
    assert_eq!(check_valid_bps(10001), Err(LendingError::InvalidConfig));
    assert_eq!(check_gte(10, 9), Err(LendingError::InvalidConfig));
    assert_eq!(check_gte(10, 10), Ok(()));
    assert_eq!(check_lte(10, 11), Err(LendingError::InvalidConfig));
}

#[test]
fn little_endian_values_are_encoded_and_read_back() {
    let bytes = UpdateLendingMarketConfigValue::U64(0x0102030405060708).to_bytes();
    assert_eq!(&bytes[..8], &[8, 7, 6, 5, 4, 3, 2, 1]);
    assert!(bytes[8..].iter().all(|b| *b == 0));
    assert_eq!(read_le(&bytes, 0, 8), 0x0102030405060708);
    let bytes = UpdateLendingMarketConfigValue::U16(0xabcd).to_bytes();
    assert_eq!(&bytes[..3], &[0xcd, 0xab, 0]);
    let bytes = UpdateLendingMarketConfigValue::U128(u128::MAX).to_bytes();
    assert_eq!(read_le(&bytes, 0, 16), u128::MAX);
    let bytes = UpdateLendingMarketConfigValue::Bool(true).to_bytes();
    assert_eq!(&bytes[..2], &[1, 0]);
    let bytes = UpdateLendingMarketConfigValue::Pubkey(key(5)).to_bytes();
    assert_eq!(&bytes[..32], &[5; 32]);
    assert_eq!(bytes[32], 0);
}

#[test]
fn elevation_group_encoding_round_trip() {
    let g = group(2, 70, 80, 500);
    let bytes = UpdateLendingMarketConfigValue::ElevationGroup(g).to_bytes();
    assert_eq!(&bytes[..8], &[0xf4, 0x01, 2, 70, 80, 1, 3, 0]);
    let back = read_elevation_group(&bytes, 0);
    assert_eq!(back.max_liquidation_bonus_bps, 500);
    assert_eq!(back.id, 2);
    assert_eq!(back.ltv_pct, 70);
    assert_eq!(back.liquidation_threshold_pct, 80);
    assert_eq!(back.debt_reserve.bytes, [9; 32]);
    assert_eq!(back.padding_1, [1, 2, 3, 4]);
}

#[test]
fn elevation_group_validation() {
    assert_eq!(validate_new_elevation_group(&group(2, 70, 80, 500)), Ok(()));
    let refused = Err(LendingError::InvalidElevationGroupConfig);
    assert_eq!(validate_new_elevation_group(&group(11, 70, 80, 500)), refused);
    assert_eq!(validate_new_elevation_group(&group(2, 70, 0, 500)), refused);
    assert_eq!(validate_new_elevation_group(&group(2, 90, 80, 500)), refused);
    assert_eq!(validate_new_elevation_group(&group(2, 70, 100, 500)), refused);
    assert_eq!(validate_new_elevation_group(&group(2, 70, 80, 10001)), refused);
    // 90% threshold with a 20% bonus would take 108% of the collateral.
    assert_eq!(validate_new_elevation_group(&group(2, 70, 90, 2000)), refused);
    assert_eq!(validate_new_elevation_group(&group(2, 70, 90, 1000)), Ok(()));
    let mut no_debt_reserve = group(2, 70, 80, 500);
    no_debt_reserve.debt_reserve = key(0);
    assert_eq!(validate_new_elevation_group(&no_debt_reserve), refused);
    let mut no_collateral = group(2, 70, 80, 500);
    no_collateral.max_reserves_as_collateral = 0;
    assert_eq!(validate_new_elevation_group(&no_collateral), refused);
}

#[test]
fn mode_numbers() {
    assert_eq!(
        UpdateLendingMarketMode::try_from_u64(9),
        Some(UpdateLendingMarketMode::UpdateElevationGroup)
    );
    assert_eq!(UpdateLendingMarketMode::try_from_u64(27), None);
    assert!(UpdateLendingMarketMode::DeprecatedUpdateMultiplierPoints.is_deprecated());
    assert!(!UpdateLendingMarketMode::UpdateOwner.is_deprecated());
}

#[test]
fn market_updates_store_encoded_values() {
    let mut m = market();
    let bytes = UpdateLendingMarketConfigValue::U64(1234).to_bytes();
    assert_eq!(
        update_lending_market(&mut m, UpdateLendingMarketMode::UpdateLiquidationMaxValue, &bytes),
        Ok(())
    );
    assert_eq!(m.max_liquidatable_debt_market_value_at_once, 1234);

    let bytes = UpdateLendingMarketConfigValue::Pubkey(key(4)).to_bytes();
    assert_eq!(update_lending_market(&mut m, UpdateLendingMarketMode::UpdateOwner, &bytes), Ok(()));
    assert_eq!(m.lending_market_owner_cached.bytes, [4; 32]);
    assert_eq!(m.lending_market_owner.bytes, [1; 32]);

    let bytes = UpdateLendingMarketConfigValue::ElevationGroup(group(3, 70, 80, 500)).to_bytes();
    assert_eq!(update_lending_market(&mut m, UpdateLendingMarketMode::UpdateElevationGroup, &bytes), Ok(()));
    assert_eq!(m.elevation_groups[2].id, 3);
    assert_eq!(m.elevation_groups[2].ltv_pct, 70);
    assert_eq!(m.elevation_groups[1].id, 0);

    let bytes = UpdateLendingMarketConfigValue::U8(0).to_bytes();
    assert_eq!(update_lending_market(&mut m, UpdateLendingMarketMode::UpdatePaddingFields, &bytes), Ok(()));
    assert_eq!(m.reserved0, [0; 8]);
    assert_eq!(m.reserved1, [0; 8]);

    let bytes = UpdateLendingMarketConfigValue::U16(250).to_bytes();
    assert_eq!(update_lending_market(&mut m, UpdateLendingMarketMode::UpdateReferralFeeBps, &bytes), Ok(()));
    assert_eq!(m.referral_fee_bps, 250);
}

#[test]
fn refused_market_updates_change_nothing() {
    let mut m = market();
    let bytes = UpdateLendingMarketConfigValue::U8(2).to_bytes();
    assert_eq!(
        update_lending_market(&mut m, UpdateLendingMarketMode::UpdateEmergencyMode, &bytes),
        Err(LendingError::InvalidFlag)
    );
    assert_eq!(m.emergency_mode, 0);
    let bytes = UpdateLendingMarketConfigValue::U8(4).to_bytes();
    assert_eq!(
        update_lending_market(&mut m, UpdateLendingMarketMode::UpdateLiquidationCloseFactor, &bytes),
        Err(LendingError::InvalidConfig)
    );
    assert_eq!(m.liquidation_max_debt_close_factor_pct, 20);
    let bytes = UpdateLendingMarketConfigValue::U64(0).to_bytes();
    assert_eq!(
        update_lending_market(&mut m, UpdateLendingMarketMode::UpdateMinFullLiquidationThreshold, &bytes),
        Err(LendingError::InvalidConfig)
    );
    let bytes = UpdateLendingMarketConfigValue::ElevationGroup(group(0, 0, 0, 0)).to_bytes();
    assert_eq!(
        update_lending_market(&mut m, UpdateLendingMarketMode::UpdateElevationGroup, &bytes),
        Err(LendingError::InvalidElevationGroupConfig)
    );
}

#[test]
fn frozen_market_refuses_every_update() {
    let mut m = market();
    let bytes = UpdateLendingMarketConfigValue::Bool(true).to_bytes();
    assert_eq!(update_lending_market(&mut m, UpdateLendingMarketMode::UpdateImmutableFlag, &bytes), Ok(()));
    assert_eq!(m.immutable, 1);
    let bytes = UpdateLendingMarketConfigValue::U64(99).to_bytes();
    assert_eq!(
        update_lending_market(&mut m, UpdateLendingMarketMode::UpdateGlobalAllowedBorrow, &bytes),
        Err(LendingError::OperationNotPermittedMarketImmutable)
    );
    assert_eq!(m.global_allowed_borrow_value, 45000000);
    let bytes = UpdateLendingMarketConfigValue::Bool(false).to_bytes();
    assert_eq!(
        update_lending_market(&mut m, UpdateLendingMarketMode::UpdateImmutableFlag, &bytes),
        Err(LendingError::OperationNotPermittedMarketImmutable)
    );
}

#[test]
fn global_admin_handover() {
    let mut c = GlobalConfig::default();
    c.init(key(1));
    assert_eq!(c.global_admin.bytes, [1; 32]);
    assert_eq!(c.fee_collector.bytes, [1; 32]);
    assert_eq!(c.update_value(UpdateGlobalConfigMode::PendingAdmin, &[2u8; 32]), Ok(()));
    assert_eq!(c.global_admin.bytes, [1; 32]);
    assert_eq!(c.pending_admin.bytes, [2; 32]);
    assert_eq!(c.apply_pending_admin(), Ok(()));
    assert_eq!(c.global_admin.bytes, [2; 32]);
    assert_eq!(c.fee_collector.bytes, [1; 32]);
    assert_eq!(
        c.update_value(UpdateGlobalConfigMode::FeeCollector, &[3u8; 31]),
        Err(ConfigValueError::UnexpectedLength)
    );
    assert_eq!(c.fee_collector.bytes, [1; 32]);
    assert_eq!(UpdateGlobalConfigMode::try_from_u8(1), Some(UpdateGlobalConfigMode::FeeCollector));
    assert_eq!(UpdateGlobalConfigMode::try_from_u8(2), None);
}

#[test]
fn initial_deposit_amount_has_a_floor() {
    let mut m = market();
    let bytes = UpdateLendingMarketConfigValue::U64(999).to_bytes();
    assert_eq!(
        update_lending_market(&mut m, UpdateLendingMarketMode::UpdateInitialDepositAmount, &bytes),
        Err(LendingError::InvalidConfig)
    );
    let bytes = UpdateLendingMarketConfigValue::U64(5000).to_bytes();
    assert_eq!(
        update_lending_market(&mut m, UpdateLendingMarketMode::UpdateInitialDepositAmount, &bytes),
        Ok(())
    );
    assert_eq!(m.min_initial_deposit_amount, 5000);
}
