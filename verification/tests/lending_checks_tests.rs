use klend::error::LendingError;
use klend::lending_checks::{
    borrow_obligation_liquidity_checks, deposit_obligation_collateral_checks,
    deposit_reserve_liquidity_checks, flash_borrow_reserve_liquidity_checks,
    flash_repay_reserve_liquidity_checks, liquidate_obligation_checks,
    redeem_reserve_collateral_checks, refresh_obligation_farms_for_reserve_checks,
    repay_obligation_liquidity_checks, withdraw_obligation_collateral_checks,
};
use klend::obligation::Obligation;
use klend::pubkey::Pubkey;
use klend::reserve::Reserve;

fn key(n: u8) -> Pubkey {
    Pubkey::new_from_array([n; 32])
}

/// An active reserve of the program's version, liquidity vault 4,
/// collateral vault 7.
fn reserve() -> Reserve {
    let mut r = Reserve::default();
    r.version = 1;
    r.liquidity.supply_vault = key(4);
    r.collateral.supply_vault = key(7);
    r
}

#[test]
fn account_checks_pass_on_user_accounts() {
    let r = reserve();
    assert_eq!(borrow_obligation_liquidity_checks(&r, key(9)), Ok(()));
    assert_eq!(deposit_obligation_collateral_checks(&r, key(9)), Ok(()));
    assert_eq!(deposit_reserve_liquidity_checks(&r, key(9), key(10)), Ok(()));
    assert_eq!(liquidate_obligation_checks(&r, &r, key(9), key(10)), Ok(()));
    assert_eq!(redeem_reserve_collateral_checks(&r, key(9), key(10)), Ok(()));
    assert_eq!(repay_obligation_liquidity_checks(&r, key(9)), Ok(()));
    assert_eq!(withdraw_obligation_collateral_checks(&r, key(9)), Ok(()));
    assert_eq!(flash_borrow_reserve_liquidity_checks(&r, key(9)), Ok(()));
    assert_eq!(flash_repay_reserve_liquidity_checks(&r, key(9)), Ok(()));
    assert_eq!(refresh_obligation_farms_for_reserve_checks(None, key(1), &r), Ok(()));
}

#[test]
fn account_checks_refuse_vaults_old_versions_and_obsolete_reserves() {
    let r = reserve();
    assert_eq!(borrow_obligation_liquidity_checks(&r, key(4)), Err(LendingError::InvalidAccountInput));
    assert_eq!(deposit_obligation_collateral_checks(&r, key(7)), Err(LendingError::InvalidAccountInput));
    assert_eq!(deposit_reserve_liquidity_checks(&r, key(9), key(7)), Err(LendingError::InvalidAccountInput));
    assert_eq!(redeem_reserve_collateral_checks(&r, key(7), key(9)), Err(LendingError::InvalidAccountInput));
    assert_eq!(repay_obligation_liquidity_checks(&r, key(4)), Err(LendingError::InvalidAccountInput));
    assert_eq!(withdraw_obligation_collateral_checks(&r, key(7)), Err(LendingError::InvalidAccountInput));
    assert_eq!(flash_repay_reserve_liquidity_checks(&r, key(4)), Err(LendingError::InvalidAccountInput));
    let mut old = reserve();
    old.version = 0;
    assert_eq!(repay_obligation_liquidity_checks(&old, key(9)), Err(LendingError::ReserveDeprecated));
    assert_eq!(liquidate_obligation_checks(&r, &old, key(9), key(10)), Err(LendingError::ReserveDeprecated));
    assert_eq!(withdraw_obligation_collateral_checks(&old, key(7)), Err(LendingError::ReserveDeprecated));
    let mut obsolete = reserve();
    obsolete.config.status = 1;
    assert_eq!(borrow_obligation_liquidity_checks(&obsolete, key(9)), Err(LendingError::ReserveObsolete));
    let mut hidden = reserve();
    hidden.config.status = 2;
    assert_eq!(borrow_obligation_liquidity_checks(&hidden, key(9)), Ok(()));
    assert_eq!(flash_borrow_reserve_liquidity_checks(&hidden, key(9)), Err(LendingError::ReserveObsolete));
    let mut no_flash = reserve();
    no_flash.config.fees.flash_loan_fee_sf = u64::MAX;
    assert_eq!(flash_borrow_reserve_liquidity_checks(&no_flash, key(9)), Err(LendingError::FlashLoansDisabled));
    let mut o = Obligation::default();
    o.lending_market = key(2);
    assert_eq!(
        refresh_obligation_farms_for_reserve_checks(Some(&o), key(1), &r),
        Err(LendingError::InvalidAccountInput)
    );
    assert_eq!(refresh_obligation_farms_for_reserve_checks(Some(&o), key(2), &r), Ok(()));
}
