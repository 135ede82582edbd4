//! Checks of the accounts handed to an instruction: a user's token account
//! may not be one of the reserve's own vaults, and the reserve must be in
//! use and of the program's version.

use crate::consts::PROGRAM_VERSION;
use crate::error::LendingError;
use crate::obligation::{same_key, Obligation};
use crate::pubkey::Pubkey;
use crate::reserve::{Reserve, ReserveStatus};
use vstd::prelude::*;

verus! {

/// The error for a reserve not of the program's version, if it is not.
pub open spec fn version_error(reserve: Reserve) -> Option<LendingError> {
    if reserve.version != PROGRAM_VERSION {
        Some(LendingError::ReserveDeprecated)
    } else {
        None
    }
}

/// The result of the first failing check, in order, or `Ok`.
pub open spec fn first_failure(checks: Seq<Option<LendingError>>) -> Result<(), LendingError>
    decreases checks.len(),
{
    if checks.len() == 0 {
        Ok(())
    } else if checks[0] is Some {
        Err(checks[0]->Some_0)
    } else {
        first_failure(checks.drop_first())
    }
}

/// `Some(e)` when the condition holds.
pub open spec fn fails_with(cond: bool, e: LendingError) -> Option<LendingError> {
    if cond {
        Some(e)
    } else {
        None
    }
}

fn check_version(reserve: &Reserve) -> (r: Result<(), LendingError>)
    ensures
        r == match version_error(*reserve) {
            Some(e) => Err(e),
            None => Ok::<(), LendingError>(()),
        },
{
    if reserve.version != PROGRAM_VERSION as u64 {
        return Err(LendingError::ReserveDeprecated);
    }
    Ok(())
}

/// A reserve whose stored status names one.
pub open spec fn status_known(reserve: Reserve) -> bool {
    reserve.config.status < 3
}

/// Checks a borrow: the destination may not be the reserve's liquidity
/// vault, and the reserve must not be obsolete and must be of the program's
/// version.
pub fn borrow_obligation_liquidity_checks(
    borrow_reserve: &Reserve,
    user_destination_liquidity: Pubkey,
) -> (r: Result<(), LendingError>)
    requires
        !same_key(borrow_reserve.liquidity.supply_vault, user_destination_liquidity)
            ==> status_known(*borrow_reserve),
    ensures
        r == first_failure(
            seq![
                fails_with(
                    same_key(borrow_reserve.liquidity.supply_vault, user_destination_liquidity),
                    LendingError::InvalidAccountInput,
                ),
                fails_with(borrow_reserve.config.status == 1, LendingError::ReserveObsolete),
                version_error(*borrow_reserve),
            ],
        ),
{
    proof {
        reveal_with_fuel(first_failure, 7);
    }
    if borrow_reserve.liquidity.supply_vault.key_eq(&user_destination_liquidity) {
        return Err(LendingError::InvalidAccountInput);
    }
    if borrow_reserve.config.status() == ReserveStatus::Obsolete {
        return Err(LendingError::ReserveObsolete);
    }
    check_version(borrow_reserve)
}

/// Checks a collateral deposit: the source may not be the reserve's
/// collateral vault, and the reserve must not be obsolete and must be of
/// the program's version.
pub fn deposit_obligation_collateral_checks(
    deposit_reserve: &Reserve,
    user_source_collateral: Pubkey,
) -> (r: Result<(), LendingError>)
    requires
        !same_key(deposit_reserve.collateral.supply_vault, user_source_collateral)
            ==> status_known(*deposit_reserve),
    ensures
        r == first_failure(
            seq![
                fails_with(
                    same_key(deposit_reserve.collateral.supply_vault, user_source_collateral),
                    LendingError::InvalidAccountInput,
                ),
                fails_with(deposit_reserve.config.status == 1, LendingError::ReserveObsolete),
                version_error(*deposit_reserve),
            ],
        ),
{
    proof {
        reveal_with_fuel(first_failure, 7);
    }
    if deposit_reserve.collateral.supply_vault.key_eq(&user_source_collateral) {
        return Err(LendingError::InvalidAccountInput);
    }
    if deposit_reserve.config.status() == ReserveStatus::Obsolete {
        return Err(LendingError::ReserveObsolete);
    }
    check_version(deposit_reserve)
}

/// Checks a liquidity deposit: the source may not be the liquidity vault,
/// the destination not the collateral vault, and the reserve must not be
/// obsolete and must be of the program's version.
pub fn deposit_reserve_liquidity_checks(
    reserve: &Reserve,
    user_source_liquidity: Pubkey,
    user_destination_collateral: Pubkey,
) -> (r: Result<(), LendingError>)
    requires
        !same_key(reserve.liquidity.supply_vault, user_source_liquidity) && !same_key(
            reserve.collateral.supply_vault,
            user_destination_collateral,
        ) ==> status_known(*reserve),
    ensures
        r == first_failure(
            seq![
                fails_with(
                    same_key(reserve.liquidity.supply_vault, user_source_liquidity),
                    LendingError::InvalidAccountInput,
                ),
                fails_with(
                    same_key(reserve.collateral.supply_vault, user_destination_collateral),
                    LendingError::InvalidAccountInput,
                ),
                fails_with(reserve.config.status == 1, LendingError::ReserveObsolete),
                version_error(*reserve),
            ],
        ),
{
    proof {
        reveal_with_fuel(first_failure, 7);
    }
    if reserve.liquidity.supply_vault.key_eq(&user_source_liquidity) {
        return Err(LendingError::InvalidAccountInput);
    }
    if reserve.collateral.supply_vault.key_eq(&user_destination_collateral) {
        return Err(LendingError::InvalidAccountInput);
    }
    if reserve.config.status() == ReserveStatus::Obsolete {
        return Err(LendingError::ReserveObsolete);
    }
    check_version(reserve)
}

/// Checks a liquidation: for the repaid and then the withdrawn reserve, the
/// source may not be its liquidity vault, the destination not its
/// collateral vault, and the reserve must be of the program's version.
pub fn liquidate_obligation_checks(
    repay_reserve: &Reserve,
    withdraw_reserve: &Reserve,
    user_source_liquidity: Pubkey,
    user_destination_collateral: Pubkey,
) -> (r: Result<(), LendingError>)
    ensures
        r == first_failure(
            seq![
                fails_with(
                    same_key(repay_reserve.liquidity.supply_vault, user_source_liquidity),
                    LendingError::InvalidAccountInput,
                ),
                fails_with(
                    same_key(repay_reserve.collateral.supply_vault, user_destination_collateral),
                    LendingError::InvalidAccountInput,
                ),
                version_error(*repay_reserve),
                fails_with(
                    same_key(withdraw_reserve.liquidity.supply_vault, user_source_liquidity),
                    LendingError::InvalidAccountInput,
                ),
                fails_with(
                    same_key(withdraw_reserve.collateral.supply_vault, user_destination_collateral),
                    LendingError::InvalidAccountInput,
                ),
                version_error(*withdraw_reserve),
            ],
        ),
{
    proof {
        reveal_with_fuel(first_failure, 7);
    }
    if repay_reserve.liquidity.supply_vault.key_eq(&user_source_liquidity) {
        return Err(LendingError::InvalidAccountInput);
    }
    if repay_reserve.collateral.supply_vault.key_eq(&user_destination_collateral) {
        return Err(LendingError::InvalidAccountInput);
    }
    check_version(repay_reserve)?;
    if withdraw_reserve.liquidity.supply_vault.key_eq(&user_source_liquidity) {
        return Err(LendingError::InvalidAccountInput);
    }
    if withdraw_reserve.collateral.supply_vault.key_eq(&user_destination_collateral) {
        return Err(LendingError::InvalidAccountInput);
    }
    check_version(withdraw_reserve)
}

/// Checks a redemption: the source may not be the collateral vault, the
/// destination not the liquidity vault, and the reserve must be of the
/// program's version.
pub fn redeem_reserve_collateral_checks(
    reserve: &Reserve,
    user_source_collateral: Pubkey,
    user_destination_liquidity: Pubkey,
) -> (r: Result<(), LendingError>)
    ensures
        r == first_failure(
            seq![
                fails_with(
                    same_key(reserve.collateral.supply_vault, user_source_collateral),
                    LendingError::InvalidAccountInput,
                ),
                fails_with(
                    same_key(reserve.liquidity.supply_vault, user_destination_liquidity),
                    LendingError::InvalidAccountInput,
                ),
                version_error(*reserve),
            ],
        ),
{
    proof {
        reveal_with_fuel(first_failure, 7);
    }
    if reserve.collateral.supply_vault.key_eq(&user_source_collateral) {
        return Err(LendingError::InvalidAccountInput);
    }
    if reserve.liquidity.supply_vault.key_eq(&user_destination_liquidity) {
        return Err(LendingError::InvalidAccountInput);
    }
    check_version(reserve)
}

/// Checks a repayment: the source may not be the liquidity vault, and the
/// reserve must be of the program's version.
pub fn repay_obligation_liquidity_checks(
    repay_reserve: &Reserve,
    user_source_liquidity: Pubkey,
) -> (r: Result<(), LendingError>)
    ensures
        r == first_failure(
            seq![
                fails_with(
                    same_key(repay_reserve.liquidity.supply_vault, user_source_liquidity),
                    LendingError::InvalidAccountInput,
                ),
                version_error(*repay_reserve),
            ],
        ),
{
    proof {
        reveal_with_fuel(first_failure, 7);
    }
    if repay_reserve.liquidity.supply_vault.key_eq(&user_source_liquidity) {
        return Err(LendingError::InvalidAccountInput);
    }
    check_version(repay_reserve)
}

/// Checks a collateral withdrawal: the reserve must be of the program's
/// version, and the destination may not be the collateral vault.
pub fn withdraw_obligation_collateral_checks(
    withdraw_reserve: &Reserve,
    user_destination_collateral: Pubkey,
) -> (r: Result<(), LendingError>)
    ensures
        r == first_failure(
            seq![
                version_error(*withdraw_reserve),
                fails_with(
                    same_key(withdraw_reserve.collateral.supply_vault, user_destination_collateral),
                    LendingError::InvalidAccountInput,
                ),
            ],
        ),
{
    proof {
        reveal_with_fuel(first_failure, 7);
    }
    check_version(withdraw_reserve)?;
    if withdraw_reserve.collateral.supply_vault.key_eq(&user_destination_collateral) {
        return Err(LendingError::InvalidAccountInput);
    }
    Ok(())
}

/// Checks a flash borrow: the destination may not be the liquidity vault,
/// the reserve must be of the program's version and active, and flash loans
/// must not be disabled (a fee of `u64::MAX`).
pub fn flash_borrow_reserve_liquidity_checks(
    reserve: &Reserve,
    user_destination_liquidity: Pubkey,
) -> (r: Result<(), LendingError>)
    requires
        !same_key(reserve.liquidity.supply_vault, user_destination_liquidity) && version_error(
            *reserve,
        ) is None ==> status_known(*reserve),
    ensures
        r == first_failure(
            seq![
                fails_with(
                    same_key(reserve.liquidity.supply_vault, user_destination_liquidity),
                    LendingError::InvalidAccountInput,
                ),
                version_error(*reserve),
                fails_with(reserve.config.status != 0, LendingError::ReserveObsolete),
                fails_with(
                    reserve.config.fees.flash_loan_fee_sf == u64::MAX,
                    LendingError::FlashLoansDisabled,
                ),
            ],
        ),
{
    proof {
        reveal_with_fuel(first_failure, 7);
    }
    if reserve.liquidity.supply_vault.key_eq(&user_destination_liquidity) {
        return Err(LendingError::InvalidAccountInput);
    }
    check_version(reserve)?;
    if reserve.config.status() != ReserveStatus::Active {
        return Err(LendingError::ReserveObsolete);
    }
    if reserve.config.fees.flash_loan_fee_sf == u64::MAX {
        return Err(LendingError::FlashLoansDisabled);
    }
    Ok(())
}

/// Checks a flash repayment: the source may not be the liquidity vault.
pub fn flash_repay_reserve_liquidity_checks(reserve: &Reserve, user_source_liquidity: Pubkey) -> (r:
    Result<(), LendingError>)
    ensures
        r == first_failure(
            seq![
                fails_with(
                    same_key(reserve.liquidity.supply_vault, user_source_liquidity),
                    LendingError::InvalidAccountInput,
                ),
            ],
        ),
{
    proof {
        reveal_with_fuel(first_failure, 7);
    }
    if reserve.liquidity.supply_vault.key_eq(&user_source_liquidity) {
        return Err(LendingError::InvalidAccountInput);
    }
    Ok(())
}

/// Checks a refresh of an obligation's farms for a reserve: an existing
/// obligation (`None` when its account holds no data) must belong to the
/// market, and the reserve must not be obsolete and must be of the
/// program's version.
pub fn refresh_obligation_farms_for_reserve_checks(
    obligation: Option<&Obligation>,
    lending_market: Pubkey,
    reserve: &Reserve,
) -> (r: Result<(), LendingError>)
    requires
        !(obligation matches Some(o) && !same_key(o.lending_market, lending_market))
            ==> status_known(*reserve),
    ensures
        r == first_failure(
            seq![
                fails_with(
                    obligation matches Some(o) && !same_key(o.lending_market, lending_market),
                    LendingError::InvalidAccountInput,
                ),
                fails_with(reserve.config.status == 1, LendingError::ReserveObsolete),
                version_error(*reserve),
            ],
        ),
{
    proof {
        reveal_with_fuel(first_failure, 7);
    }
    match obligation {
        Some(o) => {
            if !o.lending_market.key_eq(&lending_market) {
                return Err(LendingError::InvalidAccountInput);
            }
        },
        None => {},
    }
    if reserve.config.status() == ReserveStatus::Obsolete {
        return Err(LendingError::ReserveObsolete);
    }
    check_version(reserve)
}

} // verus!
