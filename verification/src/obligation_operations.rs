//! The obligation side of lending: depositing and withdrawing collateral,
//! borrowing and repaying liquidity, and writing off debt that no collateral
//! covers any more.

use crate::consts::ELEVATION_GROUP_NONE;
use crate::error::LendingError;
use crate::fraction::{ceil_int, scale, Fraction};
use crate::last_update::{spec_is_stale, PriceStatusFlags};
use crate::lending_market::{ElevationGroup, LendingMarket};
use crate::lending_operations::marked_stale;
use crate::big_fraction::limbs_val;
use crate::lending_utils::{
    check_same_elevation_group, get_elevation_group, post_deposit_computable,
    post_deposit_obligation_invariants, post_repay_computable, post_repay_obligation_invariants,
    repaid_group_accounts, repaid_group_deposits, repay_walk_outcome, sat_sub_u64,
    spec_operation_group, spec_post_deposit, spec_post_repay,
    update_elevation_group_debt_trackers_on_new_deposit,
    update_elevation_group_debt_trackers_on_repay, DebtTrackerError, ReserveAccount,
    check_elevation_group_borrowing_enabled, get_max_ltv_and_liquidation_threshold,
    post_withdraw_computable, post_withdraw_obligation_invariants, spec_post_withdraw,
    update_elevation_group_debt_trackers_on_full_withdraw,
};
use crate::obligation::{spec_max_withdraw_value, spec_saturating_sub};
use crate::lending_operations::add_referrer_fee;
use crate::lending_utils::{
    borrow_walk_result, borrow_walk_steps, active_rank, borrowed_group_accounts,
    borrowed_group_deposits,
    check_non_elevation_group_borrowing_enabled, check_obligation_fully_refreshed_and_not_null,
    post_borrow_computable, post_borrow_obligation_invariants, spec_fully_refreshed_check,
    spec_post_borrow, update_elevation_group_debt_trackers_on_borrow,
};
use crate::referral::ReferrerTokenState;
use crate::reserve::{calculate_borrow_computable, spec_calculate_borrow, utilization_val};
use crate::types::{BorrowSize, CalculateBorrowResult};
use crate::fraction::pct_val;
use crate::withdrawal_caps::add_to_withdrawal_accum;
use crate::types::LtvMaxWithdrawalCheck;
use crate::fraction::{floor_int, spec_div, spec_mul};
use crate::wide::p256;
use crate::withdrawal_caps::{spec_check_and_update, sub_from_withdrawal_accum};
use crate::obligation::{
    all_zero_u64, spec_accrued_amount, take_active_borrows, take_active_deposits,
    total_borrowed_sf, Obligation, ObligationCollateral, ObligationLiquidity,
};
use crate::pubkey::Pubkey;
use crate::reserve::{
    spec_c2l_frac, spec_exchange_rate, supply_computable, Reserve, ReserveConfig, ReserveLiquidity,
};
use crate::wide::p128;
use vstd::prelude::*;

verus! {

/// Why a deposit of collateral into an obligation is refused before anything
/// changes: a zero amount, a stale reserve, a reserve that may not be used
/// as collateral outside elevation groups by an obligation with debt, a
/// reserve outside the obligation's group, or an invalid group.
pub open spec fn spec_deposit_obligation_check(
    market: LendingMarket,
    reserve: Reserve,
    obligation: Obligation,
    slot: u64,
    collateral_amount: u64,
) -> Option<LendingError> {
    if collateral_amount == 0 {
        Some(LendingError::InvalidAmount)
    } else {
        match spec_is_stale(reserve.last_update, slot, PriceStatusFlags { bits: 0 }) {
            Err(e) => Some(e),
            Ok(true) => Some(LendingError::ReserveStale),
            Ok(false) => if reserve.config.disable_usage_as_coll_outside_emode > 0
                && obligation.elevation_group == ELEVATION_GROUP_NONE
                && obligation.borrow_factor_adjusted_debt_value_sf > 0 {
                Some(LendingError::DepositDisabledOutsideElevationGroup)
            } else if obligation.elevation_group != ELEVATION_GROUP_NONE
                && !reserve.config.elevation_groups@.contains(obligation.elevation_group) {
                Some(LendingError::InconsistentElevationGroup)
            } else {
                match spec_operation_group(obligation.elevation_group, market) {
                    Err(e) => Some(e),
                    Ok(_) => None,
                }
            },
        }
    }
}

/// Slot `i` is where a deposit of `reserve` goes: its existing slot, else
/// the first unused one.
pub open spec fn claimed_deposit_slot(obligation: Obligation, reserve: Pubkey, i: int) -> bool {
    ||| obligation.is_first_deposit_of(reserve, i)
    ||| (!obligation.has_deposit_of(reserve) && 0 <= i < 8
        && !obligation.deposits@[i].spec_is_active() && forall|j: int|
        0 <= j < i ==> (#[trigger] obligation.deposits@[j]).spec_is_active())
}

/// The debt of the obligation when it is in a single reserve: the total
/// borrowed, rounded up.
pub open spec fn single_token_debt(obligation: Obligation) -> Option<u64> {
    if take_active_borrows(obligation.borrows@).len() > 1 {
        None
    } else {
        Some(crate::fraction::ceil_int(total_borrowed_sf(obligation)) as u64)
    }
}

/// The liquidity, as a scaled fraction, that `collateral_amount` collateral
/// tokens of the reserve stand for.
pub open spec fn collateral_liquidity_value(reserve: Reserve, collateral_amount: u64) -> int {
    spec_c2l_frac(spec_exchange_rate(reserve), collateral_amount * scale())
}

/// The value of the claimed slot's collateral before the deposit: that of
/// the existing deposit, zero for a new one.
pub open spec fn deposit_slot_value(obligation: Obligation, reserve: Pubkey, i: int) -> int {
    if obligation.is_first_deposit_of(reserve, i) {
        obligation.deposits@[i].market_value_sf as int
    } else {
        0
    }
}

/// The amounts in a deposit into an obligation fit their machine types, and
/// the obligation's group, if any, has an id that names a tracker.
pub open spec fn deposit_obligation_computable(
    market: LendingMarket,
    reserve: Reserve,
    obligation: Obligation,
    collateral_amount: u64,
    deposit_reserve_pk: Pubkey,
) -> bool {
    &&& take_active_borrows(obligation.borrows@).len() <= 1 ==> total_borrowed_sf(obligation)
        <= u128::MAX && crate::fraction::ceil_int(total_borrowed_sf(obligation)) <= u64::MAX
    &&& spec_operation_group(obligation.elevation_group, market) matches Ok(Some(g)) ==> {
        &&& 1 <= g.id <= 32
        &&& single_token_debt(obligation) matches Some(t)
            ==> reserve.borrowed_amounts_against_this_reserve_in_elevation_groups@[g.id - 1] + t
            <= u64::MAX
    }
    &&& supply_computable(reserve.liquidity)
    &&& collateral_liquidity_value(reserve, collateral_amount) < p128()
    &&& forall|i: int|
        claimed_deposit_slot(obligation, deposit_reserve_pk, i) ==> post_deposit_computable(
            Fraction { bits: collateral_liquidity_value(reserve, collateral_amount) as u128 },
            obligation,
            reserve,
            Fraction { bits: deposit_slot_value(obligation, deposit_reserve_pk, i) as u128 },
            Fraction { bits: market.min_net_value_in_obligation_sf },
        )
}

/// Two slots claimed for the same reserve are the same slot.
pub proof fn lemma_claimed_deposit_slot_unique(obligation: Obligation, reserve: Pubkey, i: int, j: int)
    requires
        claimed_deposit_slot(obligation, reserve, i),
        claimed_deposit_slot(obligation, reserve, j),
    ensures
        i == j,
{
    if obligation.is_first_deposit_of(reserve, i) {
        assert(obligation.has_deposit_of(reserve));
        assert(obligation.is_first_deposit_of(reserve, j));
        if i < j {
            assert(!crate::obligation::same_key(obligation.deposits@[i].deposit_reserve, reserve));
        } else if j < i {
            assert(!crate::obligation::same_key(obligation.deposits@[j].deposit_reserve, reserve));
        }
    } else if obligation.is_first_deposit_of(reserve, j) {
        assert(obligation.has_deposit_of(reserve));
    } else {
        if i < j {
            assert(obligation.deposits@[i].spec_is_active());
        } else if j < i {
            assert(obligation.deposits@[j].spec_is_active());
        }
    }
}

/// The deposit in the claimed slot after `collateral_amount` is added: the
/// existing deposit grown by it, or a new deposit of the reserve holding it,
/// with the obligation's single-reserve debt recorded against it inside a
/// group.
pub open spec fn deposited_row(
    obligation: Obligation,
    reserve: Pubkey,
    i: int,
    collateral_amount: u64,
    group: Option<ElevationGroup>,
    row: ObligationCollateral,
) -> bool {
    if obligation.is_first_deposit_of(reserve, i) {
        row == ObligationCollateral {
            deposited_amount: (obligation.deposits@[i].deposited_amount + collateral_amount) as u64,
            ..obligation.deposits@[i]
        }
    } else {
        &&& row.deposit_reserve == reserve
        &&& row.deposited_amount == collateral_amount
        &&& row.market_value_sf == 0
        &&& row.borrowed_amount_against_this_collateral_in_elevation_group == match group {
            Some(_) => single_token_debt(obligation).unwrap(),
            None => 0,
        }
        &&& all_zero_u64(row.padding@)
    }
}

/// Why a new deposit into a group is refused: the reserve is the group's
/// debt reserve, the group's collateral limit is reached, or the debt is in
/// several reserves.
pub open spec fn new_group_deposit_error(
    obligation: Obligation,
    group: ElevationGroup,
    deposit_reserve_pk: Pubkey,
) -> Option<LendingError> {
    if group.debt_reserve.bytes@ == deposit_reserve_pk.bytes@ {
        Some(LendingError::ElevationGroupDebtReserveAsCollateral)
    } else if group.max_reserves_as_collateral < take_active_deposits(obligation.deposits@).len()
        + 1 {
        Some(LendingError::ObligationCollateralExceedsElevationGroupLimit)
    } else if single_token_debt(obligation) is None {
        Some(LendingError::ObligationElevationGroupMultipleDebtReserve)
    } else {
        None
    }
}

/// Deposits collateral tokens of a fresh reserve into an obligation: into
/// the reserve's deposit slot, or a new one (which, inside an elevation
/// group, records the obligation's debt against the reserve). Both accounts
/// are marked stale, and the deposit must keep the obligation's values
/// sound (see [`spec_post_deposit`]). Refused, with nothing changed, on the
/// checks of [`spec_deposit_obligation_check`]; refused when no slot is
/// free, when a new deposit breaks the group's rules, and on an overflow of
/// the deposited amount. On an error after the checks the accounts are left
/// partly updated, and the transaction that made the call fails.
pub fn deposit_obligation_collateral(
    lending_market: &LendingMarket,
    deposit_reserve: &mut Reserve,
    obligation: &mut Obligation,
    slot: u64,
    collateral_amount: u64,
    deposit_reserve_pk: Pubkey,
) -> (r: Result<(), LendingError>)
    requires
        spec_deposit_obligation_check(
            *lending_market,
            *old(deposit_reserve),
            *old(obligation),
            slot,
            collateral_amount,
        ) is None ==> deposit_obligation_computable(
            *lending_market,
            *old(deposit_reserve),
            *old(obligation),
            collateral_amount,
            deposit_reserve_pk,
        ),
    ensures
        spec_deposit_obligation_check(
            *lending_market,
            *old(deposit_reserve),
            *old(obligation),
            slot,
            collateral_amount,
        ) matches Some(e) ==> r == Err::<(), LendingError>(e) && *final(deposit_reserve) == *old(
            deposit_reserve,
        ) && *final(obligation) == *old(obligation),
        spec_deposit_obligation_check(
            *lending_market,
            *old(deposit_reserve),
            *old(obligation),
            slot,
            collateral_amount,
        ) is None ==> ({
            let group = spec_operation_group(old(obligation).elevation_group, *lending_market)->Ok_0;
            &&& (forall|i: int| !claimed_deposit_slot(*old(obligation), deposit_reserve_pk, i)) ==> r
                == Err::<(), LendingError>(LendingError::ObligationReserveLimit)
            &&& forall|i: int|
                #![trigger claimed_deposit_slot(*old(obligation), deposit_reserve_pk, i)]
                claimed_deposit_slot(*old(obligation), deposit_reserve_pk, i) ==> {
                    let is_new = !old(obligation).is_first_deposit_of(deposit_reserve_pk, i);
                    let group_error = match group {
                        Some(g) if is_new => new_group_deposit_error(
                            *old(obligation),
                            g,
                            deposit_reserve_pk,
                        ),
                        _ => None,
                    };
                    let before = if is_new {
                        0
                    } else {
                        old(obligation).deposits@[i].deposited_amount as int
                    };
                    let post = spec_post_deposit(
                        Fraction {
                            bits: collateral_liquidity_value(
                                *old(deposit_reserve),
                                collateral_amount,
                            ) as u128,
                        },
                        *old(obligation),
                        *old(deposit_reserve),
                        Fraction {
                            bits: deposit_slot_value(*old(obligation), deposit_reserve_pk, i) as u128,
                        },
                        Fraction { bits: lending_market.min_net_value_in_obligation_sf },
                    );
                    &&& group_error matches Some(e) ==> r == Err::<(), LendingError>(e)
                    &&& group_error is None && before + collateral_amount > u64::MAX ==> r == Err::<
                        (),
                        LendingError,
                    >(LendingError::MathOverflow)
                    &&& group_error is None && before + collateral_amount <= u64::MAX ==> {
                        &&& r == post
                        &&& deposited_row(
                            *old(obligation),
                            deposit_reserve_pk,
                            i,
                            collateral_amount,
                            group,
                            final(obligation).deposits@[i],
                        )
                        &&& final(obligation).deposits@ == old(obligation).deposits@.update(
                            i,
                            final(obligation).deposits@[i],
                        )
                        &&& *final(obligation) == (Obligation {
                            deposits: final(obligation).deposits,
                            last_update: marked_stale(old(obligation).last_update),
                            ..*old(obligation)
                        })
                        &&& *final(deposit_reserve) == (Reserve {
                            borrowed_amounts_against_this_reserve_in_elevation_groups: final(deposit_reserve).borrowed_amounts_against_this_reserve_in_elevation_groups,
                            last_update: marked_stale(old(deposit_reserve).last_update),
                            ..*old(deposit_reserve)
                        })
                        &&& match group {
                            Some(g) if is_new => final(deposit_reserve).borrowed_amounts_against_this_reserve_in_elevation_groups@
                                == old(deposit_reserve).borrowed_amounts_against_this_reserve_in_elevation_groups@.update(
                                g.id - 1,
                                (old(deposit_reserve).borrowed_amounts_against_this_reserve_in_elevation_groups@[g.id
                                    - 1] + single_token_debt(*old(obligation)).unwrap()) as u64,
                            ),
                            _ => final(deposit_reserve).borrowed_amounts_against_this_reserve_in_elevation_groups
                                == old(deposit_reserve).borrowed_amounts_against_this_reserve_in_elevation_groups,
                        }
                    }
                }
        }),
{
    if collateral_amount == 0 {
        return Err(LendingError::InvalidAmount);
    }
    match deposit_reserve.last_update.is_stale(slot, PriceStatusFlags::empty()) {
        Err(e) => {
            return Err(e);
        },
        Ok(true) => {
            return Err(LendingError::ReserveStale);
        },
        Ok(false) => {},
    }
    if deposit_reserve.config.disable_usage_as_coll_outside_emode > 0 && obligation.elevation_group
        == ELEVATION_GROUP_NONE && obligation.borrow_factor_adjusted_debt_value_sf > 0 {
        return Err(LendingError::DepositDisabledOutsideElevationGroup);
    }
    check_same_elevation_group(obligation, deposit_reserve)?;
    let elevation_group = get_elevation_group(obligation.elevation_group, lending_market)?;
    let pre_deposit_count = obligation.active_deposits_count();
    let total_borrowed_amount = obligation.get_borrowed_amount_if_single_token();
    let ghost old_obligation = *obligation;
    let ghost old_reserve = *deposit_reserve;
    let (obligation_collateral, assignment) = obligation.find_or_add_collateral_to_deposits(
        deposit_reserve_pk,
    )?;
    proof {
        assert(claimed_deposit_slot(old_obligation, deposit_reserve_pk, assignment.index as int));
        assert forall|i: int| #[trigger]
            claimed_deposit_slot(old_obligation, deposit_reserve_pk, i) implies i
            == assignment.index by {
            lemma_claimed_deposit_slot_unique(
                old_obligation,
                deposit_reserve_pk,
                i,
                assignment.index as int,
            );
        }
    }
    if assignment.is_new {
        update_elevation_group_debt_trackers_on_new_deposit(
            total_borrowed_amount,
            obligation_collateral,
            pre_deposit_count,
            elevation_group,
            &deposit_reserve_pk,
            deposit_reserve,
        )?;
    }
    obligation_collateral.deposit(collateral_amount)?;
    let pre_collateral_market_value_f = Fraction::from_bits(obligation_collateral.market_value_sf);
    obligation.last_update.mark_stale();
    deposit_reserve.last_update.mark_stale();
    let amount_f = deposit_reserve.collateral_exchange_rate().fraction_collateral_to_liquidity(
        Fraction::from_num(collateral_amount),
    );
    post_deposit_obligation_invariants(
        amount_f,
        obligation,
        deposit_reserve,
        pre_collateral_market_value_f,
        Fraction::from_bits(lending_market.min_net_value_in_obligation_sf),
    )
}

/// The reserve's cumulative borrow rate, scaled.
pub open spec fn reserve_borrow_rate(reserve: Reserve) -> int {
    limbs_val(reserve.liquidity.cumulative_borrow_rate_bsf.value@)
}

/// The borrowed amount of `b` brought up to the cumulative borrow rate
/// `rate`, or why it cannot be: a rate below the one it was accrued at, or
/// an amount that does not fit.
pub open spec fn spec_borrow_accrual(b: ObligationLiquidity, rate: int) -> Result<int, LendingError> {
    if rate < b.former_rate() {
        Err(LendingError::NegativeInterestRate)
    } else if rate == b.former_rate() {
        Ok(b.borrowed_amount_sf as int)
    } else if spec_accrued_amount(b.borrowed_amount_sf as int, b.former_rate(), rate) > u128::MAX {
        Err(LendingError::MathOverflow)
    } else {
        Ok(spec_accrued_amount(b.borrowed_amount_sf as int, b.former_rate(), rate))
    }
}

/// The debt a repayment of `liquidity_amount` settles: the whole debt for the
/// `u64::MAX` sentinel, else the amount capped at the debt.
pub open spec fn spec_settle(liquidity_amount: u64, borrowed: int) -> int {
    if liquidity_amount == u64::MAX {
        borrowed
    } else if liquidity_amount * scale() <= borrowed {
        liquidity_amount * scale()
    } else {
        borrowed
    }
}

/// Why a repayment is refused before anything changes: a zero amount, a
/// stale reserve, an obligation without borrows or without a borrow of the
/// reserve.
pub open spec fn spec_repay_check(
    reserve: Reserve,
    obligation: Obligation,
    slot: u64,
    liquidity_amount: u64,
    repay_reserve_pk: Pubkey,
) -> Option<LendingError> {
    if liquidity_amount == 0 {
        Some(LendingError::InvalidAmount)
    } else {
        match spec_is_stale(reserve.last_update, slot, PriceStatusFlags { bits: 0 }) {
            Err(e) => Some(e),
            Ok(true) => Some(LendingError::ReserveStale),
            Ok(false) => if obligation.no_active_borrows() {
                Some(LendingError::ObligationBorrowsEmpty)
            } else if !obligation.has_borrow_of(repay_reserve_pk) {
                Some(LendingError::InvalidObligationLiquidity)
            } else {
                None
            },
        }
    }
}

/// The amounts in a repayment of borrow slot `i` fit their machine types,
/// and the obligation's group id names a tracker.
pub open spec fn repay_computable(
    reserve: Reserve,
    obligation: Obligation,
    i: int,
    liquidity_amount: u64,
    unix_timestamp: i64,
    market: LendingMarket,
) -> bool {
    let b = obligation.borrows@[i];
    &&& obligation.elevation_group <= 32
    &&& b.borrowed_amount_sf != 0 && reserve_borrow_rate(reserve) > b.former_rate() ==> b.former_rate()
        > 0 && b.borrowed_amount_sf * reserve_borrow_rate(reserve) < p256()
    &&& b.borrowed_amount_sf != 0 ==> (spec_borrow_accrual(b, reserve_borrow_rate(reserve)) matches Ok(
        acc,
    ) ==> {
        let settle = spec_settle(liquidity_amount, acc);
        &&& ceil_int(acc) <= u64::MAX
        &&& unix_timestamp >= 0
        &&& post_repay_computable(
            Fraction { bits: settle as u128 },
            obligation,
            reserve,
            Fraction {
                bits: if settle == acc {
                    0
                } else {
                    b.market_value_sf
                },
            },
            Fraction { bits: market.min_net_value_in_obligation_sf },
        )
    })
}

/// What a repayment of borrow slot `i` makes of the accounts, once the debt
/// was accrued to `acc`, `settle` of it settled with `repay_amount` tokens,
/// and the debt withdrawal cap became `caps`.
pub open spec fn repaid_accounts(
    old_reserve: Reserve,
    old_obligation: Obligation,
    old_accounts: Seq<ReserveAccount>,
    i: int,
    acc: int,
    settle: int,
    repay_amount: u64,
    caps: crate::withdrawal_caps::WithdrawalCaps,
    reserve: Reserve,
    obligation: Obligation,
    accounts: Seq<ReserveAccount>,
) -> bool {
    let b = old_obligation.borrows@[i];
    let in_group = old_obligation.elevation_group != ELEVATION_GROUP_NONE;
    &&& reserve == (Reserve {
        last_update: marked_stale(old_reserve.last_update),
        liquidity: ReserveLiquidity {
            available_amount: (old_reserve.liquidity.available_amount + repay_amount) as u64,
            borrowed_amount_sf: if settle <= old_reserve.liquidity.borrowed_amount_sf {
                (old_reserve.liquidity.borrowed_amount_sf - settle) as u128
            } else {
                0
            },
            ..old_reserve.liquidity
        },
        config: ReserveConfig { debt_withdrawal_cap: caps, ..old_reserve.config },
        borrowed_amount_outside_elevation_group: if in_group {
            old_reserve.borrowed_amount_outside_elevation_group
        } else {
            sat_sub_u64(old_reserve.borrowed_amount_outside_elevation_group, repay_amount)
        },
        ..old_reserve
    })
    &&& obligation == (Obligation {
        deposits: obligation.deposits,
        borrows: obligation.borrows,
        has_debt: obligation.has_debt,
        last_update: marked_stale(old_obligation.last_update),
        ..old_obligation
    })
    &&& obligation.has_debt == if obligation.no_active_borrows() {
        0u8
    } else {
        1u8
    }
    &&& obligation.borrows@ == old_obligation.borrows@.update(i, obligation.borrows@[i])
    &&& settle == acc ==> obligation.borrows@[i].is_zeroed()
    &&& settle != acc ==> {
        &&& obligation.borrows@[i] == (ObligationLiquidity {
            borrowed_amount_sf: (acc - settle) as u128,
            cumulative_borrow_rate_bsf: obligation.borrows@[i].cumulative_borrow_rate_bsf,
            borrowed_amount_outside_elevation_groups: if in_group {
                b.borrowed_amount_outside_elevation_groups
            } else {
                sat_sub_u64(b.borrowed_amount_outside_elevation_groups, repay_amount)
            },
            ..b
        })
        &&& obligation.borrows@[i].former_rate() == if reserve_borrow_rate(old_reserve)
            > b.former_rate() {
            reserve_borrow_rate(old_reserve)
        } else {
            b.former_rate()
        }
        &&& obligation.borrows@[i].cumulative_borrow_rate_bsf.padding
            == b.cumulative_borrow_rate_bsf.padding
    }
    &&& !in_group ==> obligation.deposits == old_obligation.deposits && accounts == old_accounts
    &&& in_group ==> repaid_group_deposits(
        old_obligation.deposits@,
        old_accounts,
        repay_amount,
        obligation.deposits@,
    ) && repaid_group_accounts(
        old_obligation.deposits@,
        old_accounts,
        repay_amount,
        old_obligation.elevation_group - 1,
        accounts,
    )
}

/// Repays liquidity borrowed by an obligation from a fresh reserve: accrues
/// the borrow's interest, settles `liquidity_amount` of the debt (all of it
/// for `u64::MAX`) with its amount rounded up in tokens, frees as much of
/// the debt withdrawal cap, takes the repayment off the debt trackers
/// (`deposit_reserves` are the reserve accounts of the obligation's
/// deposits, in order, for a group), and marks both accounts stale; the
/// repayment must keep the obligation's values sound (see
/// [`spec_post_repay`]). Returns the tokens taken. Refused, with nothing
/// changed, on the checks of [`spec_repay_check`]; refused for an empty
/// borrow, when interest cannot be accrued, for a repayment that rounds to
/// no token, past the cap, on a wrong list of deposit reserves, and on an
/// overflow of the available liquidity. On an error after the checks the
/// accounts are left partly updated, and the transaction that made the call
/// fails.
pub fn repay_obligation_liquidity(
    repay_reserve: &mut Reserve,
    obligation: &mut Obligation,
    slot: u64,
    unix_timestamp: i64,
    liquidity_amount: u64,
    repay_reserve_pk: Pubkey,
    lending_market: &LendingMarket,
    deposit_reserves: &mut Vec<ReserveAccount>,
) -> (r: Result<u64, DebtTrackerError>)
    requires
        spec_repay_check(*old(repay_reserve), *old(obligation), slot, liquidity_amount, repay_reserve_pk)
            is None ==> forall|i: int|
            #![trigger old(obligation).is_first_borrow_of(repay_reserve_pk, i)]
            old(obligation).is_first_borrow_of(repay_reserve_pk, i) ==> repay_computable(
                *old(repay_reserve),
                *old(obligation),
                i,
                liquidity_amount,
                unix_timestamp,
                *lending_market,
            ),
    ensures
        spec_repay_check(*old(repay_reserve), *old(obligation), slot, liquidity_amount, repay_reserve_pk)
            matches Some(e) ==> r == Err::<u64, DebtTrackerError>(DebtTrackerError::Lending(e))
            && *final(repay_reserve) == *old(repay_reserve) && *final(obligation) == *old(obligation)
            && *final(deposit_reserves) == *old(deposit_reserves),
        spec_repay_check(*old(repay_reserve), *old(obligation), slot, liquidity_amount, repay_reserve_pk)
            is None ==> forall|i: int|
            #![trigger old(obligation).is_first_borrow_of(repay_reserve_pk, i)]
            old(obligation).is_first_borrow_of(repay_reserve_pk, i) ==> {
                let b = old(obligation).borrows@[i];
                &&& b.borrowed_amount_sf == 0 ==> r == Err::<u64, DebtTrackerError>(
                    DebtTrackerError::Lending(LendingError::ObligationLiquidityEmpty),
                )
                &&& b.borrowed_amount_sf != 0 ==> match spec_borrow_accrual(
                    b,
                    reserve_borrow_rate(*old(repay_reserve)),
                ) {
                    Err(e) => r == Err::<u64, DebtTrackerError>(DebtTrackerError::Lending(e)),
                    Ok(acc) => {
                        let settle = spec_settle(liquidity_amount, acc);
                        let repay_amount = ceil_int(settle);
                        let (caps, cr) = spec_check_and_update(
                            old(repay_reserve).config.debt_withdrawal_cap,
                            repay_amount as u64,
                            unix_timestamp as u64,
                            false,
                        );
                        let walk = if old(obligation).elevation_group != ELEVATION_GROUP_NONE {
                            repay_walk_outcome(old(obligation).deposits@, old(deposit_reserves)@)
                        } else {
                            Ok(())
                        };
                        let post = spec_post_repay(
                            Fraction { bits: settle as u128 },
                            *old(obligation),
                            *old(repay_reserve),
                            Fraction {
                                bits: if settle == acc {
                                    0
                                } else {
                                    b.market_value_sf
                                },
                            },
                            Fraction { bits: lending_market.min_net_value_in_obligation_sf },
                        );
                        &&& repay_amount == 0 ==> r == Err::<u64, DebtTrackerError>(
                            DebtTrackerError::Lending(LendingError::RepayTooSmall),
                        )
                        &&& repay_amount != 0 ==> (cr matches Err(e) ==> r == Err::<
                            u64,
                            DebtTrackerError,
                        >(DebtTrackerError::Lending(e)))
                        &&& repay_amount != 0 && cr is Ok ==> (walk matches Err(e) ==> r == Err::<
                            u64,
                            DebtTrackerError,
                        >(e))
                        &&& repay_amount != 0 && cr is Ok && walk is Ok
                            && old(repay_reserve).liquidity.available_amount + repay_amount
                            > u64::MAX ==> r == Err::<u64, DebtTrackerError>(
                            DebtTrackerError::Lending(LendingError::MathOverflow),
                        )
                        &&& repay_amount != 0 && cr is Ok && walk is Ok
                            && old(repay_reserve).liquidity.available_amount + repay_amount
                            <= u64::MAX ==> {
                            &&& r == match post {
                                Ok(()) => Ok::<u64, DebtTrackerError>(repay_amount as u64),
                                Err(e) => Err::<u64, DebtTrackerError>(DebtTrackerError::Lending(e)),
                            }
                            &&& repaid_accounts(
                                *old(repay_reserve),
                                *old(obligation),
                                old(deposit_reserves)@,
                                i,
                                acc,
                                settle,
                                repay_amount as u64,
                                caps,
                                *final(repay_reserve),
                                *final(obligation),
                                final(deposit_reserves)@,
                            )
                        }
                    },
                }
            },
{
    if liquidity_amount == 0 {
        return Err(DebtTrackerError::Lending(LendingError::InvalidAmount));
    }
    match repay_reserve.last_update.is_stale(slot, PriceStatusFlags::empty()) {
        Err(e) => {
            return Err(DebtTrackerError::Lending(e));
        },
        Ok(true) => {
            return Err(DebtTrackerError::Lending(LendingError::ReserveStale));
        },
        Ok(false) => {},
    }
    let ghost o0 = *obligation;
    let ghost r0 = *repay_reserve;
    let ghost a0 = deposit_reserves@;
    let (liquidity, liquidity_index) = match obligation.find_liquidity_in_borrows_mut(
        repay_reserve_pk,
    ) {
        Ok(p) => p,
        Err(e) => {
            return Err(DebtTrackerError::Lending(e));
        },
    };
    proof {
        assert forall|i: int| #[trigger] o0.is_first_borrow_of(repay_reserve_pk, i) implies i
            == liquidity_index by {
            if i < liquidity_index {
                assert(!crate::obligation::same_key(o0.borrows@[i].borrow_reserve, repay_reserve_pk));
            } else if i > liquidity_index {
                assert(!crate::obligation::same_key(
                    o0.borrows@[liquidity_index as int].borrow_reserve,
                    repay_reserve_pk,
                ));
            }
        }
    }
    if liquidity.borrowed_amount_sf == 0 {
        return Err(DebtTrackerError::Lending(LendingError::ObligationLiquidityEmpty));
    }
    let cumulative_borrow_rate = repay_reserve.liquidity.cumulative_borrow_rate_bsf.to_big_fraction();
    match liquidity.accrue_interest(cumulative_borrow_rate) {
        Ok(()) => {},
        Err(e) => {
            return Err(DebtTrackerError::Lending(e));
        },
    }
    let borrowed_f = Fraction::from_bits(liquidity.borrowed_amount_sf);
    let repay = repay_reserve.calculate_repay(liquidity_amount, borrowed_f);
    let settle_amount = repay.settle_amount;
    let repay_amount = repay.repay_amount;
    if repay_amount == 0 {
        return Err(DebtTrackerError::Lending(LendingError::RepayTooSmall));
    }
    match sub_from_withdrawal_accum(
        &mut repay_reserve.config.debt_withdrawal_cap,
        repay_amount,
        unix_timestamp as u64,
    ) {
        Ok(()) => {},
        Err(e) => {
            return Err(DebtTrackerError::Lending(e));
        },
    }
    update_elevation_group_debt_trackers_on_repay(
        repay_amount,
        obligation,
        liquidity_index,
        repay_reserve,
        deposit_reserves,
    )?;
    match repay_reserve.liquidity.repay(repay_amount, settle_amount) {
        Ok(()) => {},
        Err(e) => {
            return Err(DebtTrackerError::Lending(e));
        },
    }
    repay_reserve.last_update.mark_stale();
    obligation.repay(settle_amount, liquidity_index);
    obligation.update_has_debt();
    obligation.last_update.mark_stale();
    proof {
        let i = liquidity_index as int;
        let acc = o0.borrows@[i].borrowed_amount_sf as int;
        assert(repay_reserve.liquidity.available_amount == r0.liquidity.available_amount + repay_amount);
        assert(obligation.borrows@ == o0.borrows@.update(i, obligation.borrows@[i]));
        assert(obligation.last_update == marked_stale(o0.last_update));
    }
    match post_repay_obligation_invariants(
        settle_amount,
        obligation,
        repay_reserve,
        Fraction::from_bits(obligation.borrows[liquidity_index].market_value_sf),
        Fraction::from_bits(lending_market.min_net_value_in_obligation_sf),
    ) {
        Ok(()) => Ok(repay_amount),
        Err(e) => Err(DebtTrackerError::Lending(e)),
    }
}

/// The price checks an operation on the obligation needs: none while it
/// has no borrow, all of them otherwise.
pub open spec fn required_price_status(obligation: Obligation) -> PriceStatusFlags {
    if obligation.no_active_borrows() {
        PriceStatusFlags { bits: 0 }
    } else {
        PriceStatusFlags { bits: 63 }
    }
}

/// Why a withdrawal is refused before its deposit is known: a zero amount,
/// a stale reserve or obligation (for the checks its borrows need), an
/// obligation without deposits or without a deposit of the reserve.
pub open spec fn spec_withdraw_check(
    reserve: Reserve,
    obligation: Obligation,
    slot: u64,
    collateral_amount: u64,
    withdraw_reserve_pk: Pubkey,
) -> Option<LendingError> {
    let required = required_price_status(obligation);
    if collateral_amount == 0 {
        Some(LendingError::InvalidAmount)
    } else {
        match spec_is_stale(reserve.last_update, slot, required) {
            Err(e) => Some(e),
            Ok(true) => Some(LendingError::ReserveStale),
            Ok(false) => match spec_is_stale(obligation.last_update, slot, required) {
                Err(e) => Some(e),
                Ok(true) => Some(LendingError::ObligationStale),
                Ok(false) => if obligation.no_active_deposits() {
                    Some(LendingError::ObligationDepositsEmpty)
                } else if !obligation.has_deposit_of(withdraw_reserve_pk) {
                    Some(LendingError::InvalidObligationCollateral)
                } else {
                    None
                },
            },
        }
    }
}

/// How much of deposit slot `i` a withdrawal of `collateral_amount` takes,
/// or why it is refused: an empty deposit, a group that takes no new loans,
/// a reserve still active while the obligation holds obsolete ones; with
/// borrows, deposits without value, nothing left to withdraw under the
/// allowed borrow value, a value past it, or an amount that rounds to zero.
/// Without borrows the whole amount asked for (at most the deposit) goes;
/// `u64::MAX` asks for as much as possible.
pub open spec fn spec_withdraw_amount(
    market: LendingMarket,
    reserve: Reserve,
    obligation: Obligation,
    i: int,
    collateral_amount: u64,
) -> Result<int, LendingError> {
    let c = obligation.deposits@[i];
    let group = spec_operation_group(obligation.elevation_group, market);
    if c.deposited_amount == 0 {
        Err(LendingError::ObligationCollateralEmpty)
    } else if group is Err {
        Err(group->Err_0)
    } else if group matches Ok(Some(g)) && g.allow_new_loans == 0 {
        Err(LendingError::ElevationGroupNewLoansDisabled)
    } else if (obligation.num_of_obsolete_borrow_reserves > 0
        || obligation.num_of_obsolete_deposit_reserves > 0) && reserve.config.status == 0 {
        Err(LendingError::ObligationInDeprecatedReserve)
    } else if obligation.no_active_borrows() {
        Ok(
            if collateral_amount == u64::MAX || c.deposited_amount <= collateral_amount {
                c.deposited_amount as int
            } else {
                collateral_amount as int
            },
        )
    } else if obligation.deposited_value_sf == 0 {
        Err(LendingError::ObligationDepositsZero)
    } else {
        let (ltv, threshold) = match group->Ok_0 {
            Some(g) => (g.ltv_pct, g.liquidation_threshold_pct),
            None => (reserve.config.loan_to_value_pct, reserve.config.liquidation_threshold_pct),
        };
        let mwv = spec_max_withdraw_value(
            obligation,
            c.market_value_sf as int,
            ltv as int,
            threshold as int,
            LtvMaxWithdrawalCheck::MaxLtv,
        );
        let cv = c.market_value_sf as int;
        let d = c.deposited_amount as int;
        if mwv == 0 {
            Err(LendingError::WithdrawTooLarge)
        } else {
            let wa = if collateral_amount == u64::MAX {
                let wv = if mwv <= cv {
                    mwv
                } else {
                    cv
                };
                let ratioed = floor_int(spec_div(wv, cv) * d);
                Ok(
                    if d <= ratioed {
                        d
                    } else {
                        ratioed
                    },
                )
            } else {
                let wa = if collateral_amount <= d {
                    collateral_amount as int
                } else {
                    d
                };
                if spec_mul(cv, wa * scale() / d) > mwv {
                    Err(LendingError::WithdrawTooLarge)
                } else {
                    Ok(wa)
                }
            };
            match wa {
                Err(e) => Err(e),
                Ok(w) => if w == 0 {
                    Err(LendingError::WithdrawTooSmall)
                } else {
                    Ok(w)
                },
            }
        }
    }
}

/// The amounts in a withdrawal from deposit slot `i` fit their machine types,
/// the reserve's status names one, and the obligation's group id names a
/// tracker.
pub open spec fn withdraw_computable(
    market: LendingMarket,
    reserve: Reserve,
    obligation: Obligation,
    i: int,
    collateral_amount: u64,
) -> bool {
    let c = obligation.deposits@[i];
    &&& reserve.config.status < 3
    &&& obligation.elevation_group <= 32
    &&& spec_operation_group(obligation.elevation_group, market) matches Ok(Some(g)) ==> 1 <= g.id
        <= 32
    &&& obligation.allowed_borrow_value_sf > obligation.borrow_factor_adjusted_debt_value_sf ==> (
    obligation.allowed_borrow_value_sf - obligation.borrow_factor_adjusted_debt_value_sf) * 100
        <= u128::MAX
    &&& collateral_amount == u64::MAX && !obligation.no_active_borrows() ==> c.market_value_sf != 0
    &&& spec_withdraw_amount(market, reserve, obligation, i, collateral_amount) matches Ok(w) ==> {
        &&& supply_computable(reserve.liquidity)
        &&& spec_c2l_frac(spec_exchange_rate(reserve), w * scale()) < p128()
        &&& post_withdraw_computable(
            Fraction { bits: spec_c2l_frac(spec_exchange_rate(reserve), w * scale()) as u128 },
            obligation,
            reserve,
            Fraction {
                bits: if w == c.deposited_amount {
                    0
                } else {
                    c.market_value_sf
                },
            },
            Fraction { bits: market.min_net_value_in_obligation_sf },
        )
    }
}

proof fn lemma_ratio_times_amount(wv: int, cv: int, d: int)
    requires
        0 <= wv <= cv,
        cv > 0,
        0 <= d <= u64::MAX,
    ensures
        0 <= spec_div(wv, cv) <= scale(),
        spec_div(wv, cv) * d <= u128::MAX,
        0 <= floor_int(spec_div(wv, cv) * d) <= d,
{
    assert(0 <= wv * scale() / cv <= scale()) by (nonlinear_arith)
        requires
            0 <= wv <= cv,
            cv > 0,
            scale() > 0,
    ;
    let q = spec_div(wv, cv);
    assert(0 <= q * d <= scale() * d) by (nonlinear_arith)
        requires
            0 <= q <= scale(),
            0 <= d,
    ;
    assert(scale() * d <= u128::MAX) by (nonlinear_arith)
        requires
            0 <= d <= u64::MAX,
            scale() == 1152921504606846976,
    ;
    assert(0 <= q * d / scale() <= d) by (nonlinear_arith)
        requires
            0 <= q * d <= scale() * d,
            scale() > 0,
    ;
}

proof fn lemma_partial_ratio(w: int, d: int, cv: int)
    requires
        0 <= w <= d,
        d > 0,
        0 <= cv <= u128::MAX,
    ensures
        0 <= w * scale() / d <= scale(),
        0 <= spec_mul(cv, w * scale() / d) <= cv,
{
    assert(0 <= w * scale() / d <= scale()) by (nonlinear_arith)
        requires
            0 <= w <= d,
            d > 0,
            scale() > 0,
    ;
    let q = w * scale() / d;
    assert(0 <= cv * q <= cv * scale()) by (nonlinear_arith)
        requires
            0 <= q <= scale(),
            0 <= cv,
    ;
    assert(0 <= cv * q / scale() <= cv) by (nonlinear_arith)
        requires
            0 <= cv * q <= cv * scale(),
            scale() > 0,
    ;
}

/// Withdraws collateral tokens of a reserve from an obligation: as much as
/// asked (at most the deposit) while it has no borrow; with borrows, only
/// as much value as keeps the debt within the allowed borrow value
/// (`u64::MAX` asks for the most that does). The obligation is marked
/// stale; a withdrawal of the whole deposit frees the slot and, inside a
/// group, takes the debt recorded against it off the reserve's tracker. The
/// withdrawal must keep the obligation's values sound (see
/// [`spec_post_withdraw`]). Returns the collateral tokens withdrawn.
/// Refused, with nothing changed, on the checks of [`spec_withdraw_check`]
/// and [`spec_withdraw_amount`].
#[verifier::rlimit(40)]
#[verifier::spinoff_prover]
pub fn withdraw_obligation_collateral(
    lending_market: &LendingMarket,
    withdraw_reserve: &mut Reserve,
    obligation: &mut Obligation,
    collateral_amount: u64,
    slot: u64,
    withdraw_reserve_pk: Pubkey,
) -> (r: Result<u64, LendingError>)
    requires
        spec_withdraw_check(
            *old(withdraw_reserve),
            *old(obligation),
            slot,
            collateral_amount,
            withdraw_reserve_pk,
        ) is None ==> forall|i: int|
            #![trigger old(obligation).is_first_deposit_of(withdraw_reserve_pk, i)]
            old(obligation).is_first_deposit_of(withdraw_reserve_pk, i) ==> withdraw_computable(
                *lending_market,
                *old(withdraw_reserve),
                *old(obligation),
                i,
                collateral_amount,
            ),
    ensures
        spec_withdraw_check(
            *old(withdraw_reserve),
            *old(obligation),
            slot,
            collateral_amount,
            withdraw_reserve_pk,
        ) matches Some(e) ==> r == Err::<u64, LendingError>(e) && *final(withdraw_reserve) == *old(
            withdraw_reserve,
        ) && *final(obligation) == *old(obligation),
        spec_withdraw_check(
            *old(withdraw_reserve),
            *old(obligation),
            slot,
            collateral_amount,
            withdraw_reserve_pk,
        ) is None ==> forall|i: int|
            #![trigger old(obligation).is_first_deposit_of(withdraw_reserve_pk, i)]
            old(obligation).is_first_deposit_of(withdraw_reserve_pk, i) ==> match spec_withdraw_amount(
                *lending_market,
                *old(withdraw_reserve),
                *old(obligation),
                i,
                collateral_amount,
            ) {
                Err(e) => r == Err::<u64, LendingError>(e) && *final(withdraw_reserve) == *old(
                    withdraw_reserve,
                ) && *final(obligation) == *old(obligation),
                Ok(w) => {
                    let c = old(obligation).deposits@[i];
                    let full = w == c.deposited_amount;
                    let gi = old(obligation).elevation_group - 1;
                    let trackers = old(withdraw_reserve).borrowed_amounts_against_this_reserve_in_elevation_groups@;
                    &&& r == match spec_post_withdraw(
                        Fraction {
                            bits: spec_c2l_frac(
                                spec_exchange_rate(*old(withdraw_reserve)),
                                w * scale(),
                            ) as u128,
                        },
                        *old(obligation),
                        *old(withdraw_reserve),
                        Fraction {
                            bits: if full {
                                0
                            } else {
                                c.market_value_sf
                            },
                        },
                        Fraction { bits: lending_market.min_net_value_in_obligation_sf },
                    ) {
                        Ok(()) => Ok::<u64, LendingError>(w as u64),
                        Err(e) => Err::<u64, LendingError>(e),
                    }
                    &&& *final(obligation) == (Obligation {
                        deposits: final(obligation).deposits,
                        last_update: marked_stale(old(obligation).last_update),
                        ..*old(obligation)
                    })
                    &&& final(obligation).deposits@ == old(obligation).deposits@.update(
                        i,
                        final(obligation).deposits@[i],
                    )
                    &&& full ==> final(obligation).deposits@[i].is_zeroed()
                    &&& !full ==> final(obligation).deposits@[i] == (ObligationCollateral {
                        deposited_amount: (c.deposited_amount - w) as u64,
                        ..c
                    })
                    &&& *final(withdraw_reserve) == (Reserve {
                        borrowed_amounts_against_this_reserve_in_elevation_groups: final(withdraw_reserve).borrowed_amounts_against_this_reserve_in_elevation_groups,
                        ..*old(withdraw_reserve)
                    })
                    &&& final(withdraw_reserve).borrowed_amounts_against_this_reserve_in_elevation_groups@
                        == if full && old(obligation).elevation_group != ELEVATION_GROUP_NONE {
                        trackers.update(
                            gi,
                            sat_sub_u64(
                                trackers[gi],
                                c.borrowed_amount_against_this_collateral_in_elevation_group,
                            ),
                        )
                    } else {
                        trackers
                    }
                },
            },
{
    if collateral_amount == 0 {
        return Err(LendingError::InvalidAmount);
    }
    let is_borrows_empty = obligation.is_active_borrows_empty();
    let required_price_status = if is_borrows_empty {
        PriceStatusFlags::empty()
    } else {
        PriceStatusFlags::all()
    };
    match withdraw_reserve.last_update.is_stale(slot, required_price_status) {
        Err(e) => {
            return Err(e);
        },
        Ok(true) => {
            return Err(LendingError::ReserveStale);
        },
        Ok(false) => {},
    }
    match obligation.last_update.is_stale(slot, required_price_status) {
        Err(e) => {
            return Err(e);
        },
        Ok(true) => {
            return Err(LendingError::ObligationStale);
        },
        Ok(false) => {},
    }
    let collateral_index = obligation.position_of_collateral_in_deposits(withdraw_reserve_pk)?;
    let ghost o0 = *obligation;
    proof {
        assert forall|i: int| #[trigger] o0.is_first_deposit_of(withdraw_reserve_pk, i) implies i
            == collateral_index by {
            if i < collateral_index {
                assert(!crate::obligation::same_key(o0.deposits@[i].deposit_reserve, withdraw_reserve_pk));
            } else if i > collateral_index {
                assert(!crate::obligation::same_key(
                    o0.deposits@[collateral_index as int].deposit_reserve,
                    withdraw_reserve_pk,
                ));
            }
        }
    }
    let collateral = obligation.deposits[collateral_index];
    if collateral.deposited_amount == 0 {
        return Err(LendingError::ObligationCollateralEmpty);
    }
    check_elevation_group_borrowing_enabled(lending_market, obligation)?;
    if obligation.has_obsolete_reserves() && withdraw_reserve.config.status()
        == crate::reserve::ReserveStatus::Active {
        return Err(LendingError::ObligationInDeprecatedReserve);
    }
    let withdraw_amount = if is_borrows_empty {
        if collateral_amount == u64::MAX {
            collateral.deposited_amount
        } else if collateral.deposited_amount <= collateral_amount {
            collateral.deposited_amount
        } else {
            collateral_amount
        }
    } else if obligation.deposited_value_sf == 0 {
        return Err(LendingError::ObligationDepositsZero);
    } else {
        let elevation_group = get_elevation_group(obligation.elevation_group, lending_market)?;
        let (reserve_loan_to_value_pct, reserve_liquidation_threshold_pct) =
            get_max_ltv_and_liquidation_threshold(withdraw_reserve, elevation_group)?;
        let max_withdraw_value = obligation.max_withdraw_value(
            &collateral,
            reserve_loan_to_value_pct,
            reserve_liquidation_threshold_pct,
            LtvMaxWithdrawalCheck::MaxLtv,
        );
        if max_withdraw_value.bits == 0 {
            return Err(LendingError::WithdrawTooLarge);
        }
        let collateral_value = Fraction::from_bits(collateral.market_value_sf);
        let withdraw_amount = if collateral_amount == u64::MAX {
            let withdraw_value = max_withdraw_value.min(collateral_value);
            proof {
                lemma_ratio_times_amount(
                    withdraw_value.val(),
                    collateral_value.val(),
                    collateral.deposited_amount as int,
                );
            }
            let withdraw_ratio = withdraw_value.div(collateral_value);
            let ratioed_amount_f = withdraw_ratio.mul_int(collateral.deposited_amount as u128);
            let ratioed_amount: u64 = ratioed_amount_f.to_floor();
            if collateral.deposited_amount <= ratioed_amount {
                collateral.deposited_amount
            } else {
                ratioed_amount
            }
        } else {
            let withdraw_amount = if collateral_amount <= collateral.deposited_amount {
                collateral_amount
            } else {
                collateral.deposited_amount
            };
            proof {
                lemma_partial_ratio(
                    withdraw_amount as int,
                    collateral.deposited_amount as int,
                    collateral_value.val(),
                );
            }
            let withdraw_ratio = Fraction::from_num(withdraw_amount).div_int(
                collateral.deposited_amount as u128,
            );
            let withdraw_value = collateral_value.mul(withdraw_ratio);
            if withdraw_value.bits > max_withdraw_value.bits {
                return Err(LendingError::WithdrawTooLarge);
            }
            withdraw_amount
        };
        if withdraw_amount == 0 {
            return Err(LendingError::WithdrawTooSmall);
        }
        withdraw_amount
    };
    let previous_debt_in_elevation_group =
        collateral.borrowed_amount_against_this_collateral_in_elevation_group;
    let is_full_withdrawal = obligation.withdraw(withdraw_amount, collateral_index)?;
    obligation.last_update.mark_stale();
    match is_full_withdrawal {
        crate::obligation::WithdrawResult::Full => {
            update_elevation_group_debt_trackers_on_full_withdraw(
                previous_debt_in_elevation_group,
                obligation.elevation_group,
                withdraw_reserve,
            )?;
        },
        crate::obligation::WithdrawResult::Partial => {},
    }
    let amount_f = withdraw_reserve.collateral_exchange_rate().fraction_collateral_to_liquidity(
        Fraction::from_num(withdraw_amount),
    );
    post_withdraw_obligation_invariants(
        amount_f,
        obligation,
        withdraw_reserve,
        Fraction::from_bits(obligation.deposits[collateral_index].market_value_sf),
        Fraction::from_bits(lending_market.min_net_value_in_obligation_sf),
    )?;
    Ok(withdraw_amount)
}

/// How much a borrow of `liquidity_amount` asks for: as much as allowed for
/// the `u64::MAX` sentinel, else exactly the amount.
pub open spec fn borrow_size_of(liquidity_amount: u64) -> BorrowSize {
    if liquidity_amount == u64::MAX {
        BorrowSize::AllAvailable
    } else {
        BorrowSize::Exact(liquidity_amount)
    }
}

/// The allowed borrow value left above the obligation's adjusted debt.
pub open spec fn remaining_borrow_value_of(obligation: Obligation) -> int {
    spec_saturating_sub(
        obligation.allowed_borrow_value_sf as int,
        obligation.borrow_factor_adjusted_debt_value_sf as int,
    )
}

/// What the reserve can still lend under its borrow limit.
pub open spec fn remaining_capacity_of(reserve: Reserve) -> int {
    spec_saturating_sub(
        reserve.config.borrow_limit * scale(),
        reserve.liquidity.borrowed_amount_sf as int,
    )
}

/// Why a borrow is refused before its amounts are computed: a zero amount,
/// a stale reserve (for every price check), borrowing disabled in the
/// market, an exact amount past the borrow limit, an obligation not fully
/// refreshed or without deposit value, no borrow value left, a reserve
/// outside the obligation's group, a group that takes no new loans, an
/// obligation that may not borrow outside groups, or a reserve at its limit.
pub open spec fn spec_borrow_check(
    market: LendingMarket,
    reserve: Reserve,
    obligation: Obligation,
    slot: u64,
    liquidity_amount: u64,
) -> Option<LendingError> {
    if liquidity_amount == 0 {
        Some(LendingError::InvalidAmount)
    } else {
        match spec_is_stale(reserve.last_update, slot, PriceStatusFlags { bits: 63 }) {
            Err(e) => Some(e),
            Ok(true) => Some(LendingError::ReserveStale),
            Ok(false) => if market.borrow_disabled != 0 {
                Some(LendingError::BorrowingDisabled)
            } else if liquidity_amount != u64::MAX && liquidity_amount * scale()
                + reserve.liquidity.borrowed_amount_sf > reserve.config.borrow_limit * scale() {
                Some(LendingError::BorrowLimitExceeded)
            } else if spec_fully_refreshed_check(obligation, slot) is Err {
                Some(spec_fully_refreshed_check(obligation, slot)->Err_0)
            } else if remaining_borrow_value_of(obligation) == 0 {
                Some(LendingError::BorrowTooLarge)
            } else if obligation.elevation_group != ELEVATION_GROUP_NONE
                && !reserve.config.elevation_groups@.contains(obligation.elevation_group) {
                Some(LendingError::InconsistentElevationGroup)
            } else if spec_operation_group(obligation.elevation_group, market) is Err {
                Some(spec_operation_group(obligation.elevation_group, market)->Err_0)
            } else if spec_operation_group(obligation.elevation_group, market) matches Ok(Some(g))
                && g.allow_new_loans == 0 {
                Some(LendingError::ElevationGroupNewLoansDisabled)
            } else if obligation.elevation_group == ELEVATION_GROUP_NONE
                && obligation.borrowing_disabled > 0 {
                Some(LendingError::BorrowingDisabledOutsideElevationGroup)
            } else if remaining_capacity_of(reserve) == 0 {
                Some(LendingError::BorrowLimitExceeded)
            } else {
                None
            },
        }
    }
}

/// The borrowed amount, what the borrower receives, the protocol fee and
/// the referrer fee of the borrow, or why the reserve refuses it.
pub open spec fn spec_borrow_calculation(
    market: LendingMarket,
    reserve: Reserve,
    obligation: Obligation,
    liquidity_amount: u64,
    has_referrer: bool,
) -> Result<(int, int, int, int), LendingError> {
    spec_calculate_borrow(
        reserve,
        borrow_size_of(liquidity_amount),
        remaining_borrow_value_of(obligation),
        remaining_capacity_of(reserve),
        market.referral_fee_bps as int,
        obligation.elevation_group != ELEVATION_GROUP_NONE,
        has_referrer,
    )
}

/// Slot `i` is where a borrow from `reserve` goes: its existing slot, else
/// the first unused one.
pub open spec fn claimed_borrow_slot(obligation: Obligation, reserve: Pubkey, i: int) -> bool {
    ||| obligation.is_first_borrow_of(reserve, i)
    ||| (!obligation.has_borrow_of(reserve) && 0 <= i < 5
        && !obligation.borrows@[i].spec_is_active() && forall|j: int|
        0 <= j < i ==> (#[trigger] obligation.borrows@[j]).spec_is_active())
}

/// Two slots claimed for the same reserve are the same slot.
pub proof fn lemma_claimed_borrow_slot_unique(obligation: Obligation, reserve: Pubkey, i: int, j: int)
    requires
        claimed_borrow_slot(obligation, reserve, i),
        claimed_borrow_slot(obligation, reserve, j),
    ensures
        i == j,
{
    if obligation.is_first_borrow_of(reserve, i) {
        assert(obligation.has_borrow_of(reserve));
        assert(obligation.is_first_borrow_of(reserve, j));
        if i < j {
            assert(!crate::obligation::same_key(obligation.borrows@[i].borrow_reserve, reserve));
        } else if j < i {
            assert(!crate::obligation::same_key(obligation.borrows@[j].borrow_reserve, reserve));
        }
    } else if obligation.is_first_borrow_of(reserve, j) {
        assert(obligation.has_borrow_of(reserve));
    } else {
        if i < j {
            assert(obligation.borrows@[i].spec_is_active());
        } else if j < i {
            assert(obligation.borrows@[j].spec_is_active());
        }
    }
}

/// The borrow in the claimed slot after a loan of `borrow_f` (scaled) at
/// `timestamp`: the existing borrow grown by it, or a new borrow of the
/// reserve at its cumulative rate holding it; outside groups its debt
/// outside groups grows by the loan rounded up.
pub open spec fn borrowed_row(
    obligation: Obligation,
    reserve: Pubkey,
    i: int,
    rate: int,
    borrow_f: int,
    timestamp: u64,
    row: ObligationLiquidity,
) -> bool {
    let outside = if obligation.elevation_group == ELEVATION_GROUP_NONE {
        ceil_int(borrow_f)
    } else {
        0
    };
    if obligation.is_first_borrow_of(reserve, i) {
        let b = obligation.borrows@[i];
        row == ObligationLiquidity {
            borrowed_amount_sf: (b.borrowed_amount_sf + borrow_f) as u128,
            last_borrowed_at_timestamp: timestamp,
            borrowed_amount_outside_elevation_groups: (b.borrowed_amount_outside_elevation_groups
                + outside) as u64,
            ..b
        }
    } else {
        &&& row.borrow_reserve == reserve
        &&& row.former_rate() == rate
        &&& all_zero_u64(row.cumulative_borrow_rate_bsf.padding@)
        &&& row.last_borrowed_at_timestamp == timestamp
        &&& row.borrowed_amount_sf == borrow_f
        &&& row.market_value_sf == 0
        &&& row.borrow_factor_adjusted_market_value_sf == 0
        &&& row.borrowed_amount_outside_elevation_groups == outside
        &&& row.fixed_term_borrow_rollover_config.is_zeroed()
        &&& row.borrowed_amount_at_expiration == 0
        &&& all_zero_u64(row.padding2@)
    }
}

/// The reserve's liquidity once a loan of `borrow_f` (scaled) leaves it and
/// a referrer fee `referrer_fee`, when credited, stays available.
pub open spec fn lent_liquidity(
    l: ReserveLiquidity,
    borrow_f: int,
    referrer_fee: int,
    credit: bool,
) -> ReserveLiquidity {
    ReserveLiquidity {
        available_amount: (l.available_amount - floor_int(borrow_f) + if credit {
            referrer_fee
        } else {
            0
        }) as u64,
        borrowed_amount_sf: (l.borrowed_amount_sf + borrow_f) as u128,
        accumulated_referrer_fees_sf: (l.accumulated_referrer_fees_sf + if credit {
            referrer_fee * scale()
        } else {
            0
        }) as u128,
        ..l
    }
}

/// The amounts of a borrow fit their machine types, and the obligation's
/// group id names a tracker.
pub open spec fn borrow_computable(
    market: LendingMarket,
    reserve: Reserve,
    obligation: Obligation,
    liquidity_amount: u64,
    unix_timestamp: i64,
    borrow_reserve_pk: Pubkey,
    referrer: Option<ReferrerTokenState>,
    accounts: Seq<ReserveAccount>,
) -> bool {
    let group = spec_operation_group(obligation.elevation_group, market);
    &&& calculate_borrow_computable(
        reserve,
        borrow_size_of(liquidity_amount),
        remaining_borrow_value_of(obligation),
        remaining_capacity_of(reserve),
        market.referral_fee_bps as int,
        obligation.elevation_group != ELEVATION_GROUP_NONE,
        referrer is Some,
    )
    &&& group matches Ok(Some(g)) ==> 1 <= g.id <= 32
    &&& spec_borrow_calculation(market, reserve, obligation, liquidity_amount, referrer is Some) matches Ok(
        (bf, rcv, p, f),
    ) ==> {
        let credit = referrer is Some && market.referral_fee_bps > 0;
        let lent = lent_liquidity(reserve.liquidity, bf, f, credit);
        &&& ceil_int(bf) <= u64::MAX
        &&& unix_timestamp >= 0
        &&& floor_int(bf) <= reserve.liquidity.available_amount ==> {
            &&& reserve.liquidity.borrowed_amount_sf + bf <= u128::MAX
            &&& reserve.liquidity.available_amount - floor_int(bf) + f <= u64::MAX
            &&& referrer matches Some(st) ==> {
                &&& st.amount_cumulative_sf + f * scale() <= u128::MAX
                &&& st.amount_unclaimed_sf + f * scale() <= u128::MAX
                &&& reserve.liquidity.accumulated_referrer_fees_sf + f * scale() <= u128::MAX
            }
            &&& supply_computable(lent)
            &&& utilization_val(lent) <= u128::MAX
            &&& forall|i: int|
                #![trigger claimed_borrow_slot(obligation, borrow_reserve_pk, i)]
                claimed_borrow_slot(obligation, borrow_reserve_pk, i) ==> {
                    let b = obligation.borrows@[i];
                    let mv = if obligation.is_first_borrow_of(borrow_reserve_pk, i) {
                        b.market_value_sf
                    } else {
                        0
                    };
                    &&& obligation.is_first_borrow_of(borrow_reserve_pk, i) ==> b.borrowed_amount_sf
                        + bf <= u128::MAX
                    &&& obligation.elevation_group == ELEVATION_GROUP_NONE
                        && obligation.is_first_borrow_of(borrow_reserve_pk, i)
                        && reserve.borrowed_amount_outside_elevation_group + ceil_int(bf)
                        <= reserve.config.borrow_limit_outside_elevation_group
                        ==> b.borrowed_amount_outside_elevation_groups + ceil_int(bf) <= u64::MAX
                    &&& post_borrow_computable(
                        Fraction { bits: bf as u128 },
                        obligation,
                        reserve,
                        Fraction { bits: mv },
                        Fraction { bits: market.min_net_value_in_obligation_sf },
                    )
                }
            &&& group matches Ok(Some(g)) ==> (g.debt_reserve.bytes@ == borrow_reserve_pk.bytes@
                ==> forall|k: int|
                0 <= k < 8 && obligation.deposits@[k].spec_is_active() && active_rank(
                    obligation.deposits@,
                    k,
                ) < borrow_walk_steps(
                    obligation.deposits@,
                    accounts,
                    g.id - 1,
                    ceil_int(bf) as u64,
                    0,
                    0,
                ) ==> #[trigger] obligation.deposits@[k].borrowed_amount_against_this_collateral_in_elevation_group
                    + ceil_int(bf) <= u64::MAX)
        }
    }
}

/// Borrows liquidity from a fresh reserve for a fully refreshed
/// obligation: computes the loan with its fees (see
/// [`spec_borrow_calculation`]; `u64::MAX` asks for as much as allowed),
/// counts it, rounded up, against the debt withdrawal cap, lends it out,
/// adds it to the reserve's borrow slot in the obligation (a new slot when
/// there is none), credits the referrer's fee to the referrer's account when
/// the market pays referrers (the fee stays available in the reserve), marks
/// the obligation as having debt and both accounts stale, refuses a
/// utilisation at or above the reserve's blocking level, adds the loan to
/// the debt trackers (`deposit_reserves` are the reserve accounts of the
/// obligation's deposits, in order, for a group), and checks the obligation's
/// values (see [`spec_post_borrow`]). Returns the amounts of the loan.
/// Refused, with nothing changed, on the checks of [`spec_borrow_check`] and
/// when the reserve refuses the amounts; refused past the cap, for a loan
/// that leaves the borrower nothing, without enough available liquidity,
/// without a free borrow slot, at the utilisation limit, and by the debt
/// trackers. On an error after the amounts are computed the accounts are
/// left partly updated, and the transaction that made the call fails.
#[verifier::rlimit(80)]
#[verifier::spinoff_prover]
pub fn borrow_obligation_liquidity(
    lending_market: &LendingMarket,
    borrow_reserve: &mut Reserve,
    obligation: &mut Obligation,
    liquidity_amount: u64,
    slot: u64,
    unix_timestamp: i64,
    borrow_reserve_pk: Pubkey,
    referrer_token_state: &mut Option<ReferrerTokenState>,
    deposit_reserves: &mut Vec<ReserveAccount>,
) -> (r: Result<CalculateBorrowResult, DebtTrackerError>)
    requires
        liquidity_amount != 0 && spec_is_stale(
            old(borrow_reserve).last_update,
            slot,
            PriceStatusFlags { bits: 63 },
        ) == Ok::<bool, LendingError>(false) && lending_market.borrow_disabled == 0
            ==> liquidity_amount * scale() + old(borrow_reserve).liquidity.borrowed_amount_sf
            <= u128::MAX,
        spec_borrow_check(
            *lending_market,
            *old(borrow_reserve),
            *old(obligation),
            slot,
            liquidity_amount,
        ) is None ==> borrow_computable(
            *lending_market,
            *old(borrow_reserve),
            *old(obligation),
            liquidity_amount,
            unix_timestamp,
            borrow_reserve_pk,
            *old(referrer_token_state),
            old(deposit_reserves)@,
        ),
    ensures
        spec_borrow_check(
            *lending_market,
            *old(borrow_reserve),
            *old(obligation),
            slot,
            liquidity_amount,
        ) matches Some(e) ==> r == Err::<CalculateBorrowResult, DebtTrackerError>(
            DebtTrackerError::Lending(e),
        ) && *final(borrow_reserve) == *old(borrow_reserve) && *final(obligation) == *old(
            obligation,
        ) && *final(referrer_token_state) == *old(referrer_token_state) && *final(deposit_reserves)
            == *old(deposit_reserves),
        spec_borrow_check(
            *lending_market,
            *old(borrow_reserve),
            *old(obligation),
            slot,
            liquidity_amount,
        ) is None ==> match spec_borrow_calculation(
            *lending_market,
            *old(borrow_reserve),
            *old(obligation),
            liquidity_amount,
            (*old(referrer_token_state)) is Some,
        ) {
            Err(e) => r == Err::<CalculateBorrowResult, DebtTrackerError>(
                DebtTrackerError::Lending(e),
            ) && *final(borrow_reserve) == *old(borrow_reserve) && *final(obligation) == *old(
                obligation,
            ) && *final(referrer_token_state) == *old(referrer_token_state)
                && *final(deposit_reserves) == *old(deposit_reserves),
            Ok((bf, rcv, p, f)) => {
                let borrow_amount = ceil_int(bf);
                let (caps, cr) = spec_check_and_update(
                    old(borrow_reserve).config.debt_withdrawal_cap,
                    borrow_amount as u64,
                    unix_timestamp as u64,
                    true,
                );
                let credit = (*old(referrer_token_state)) is Some && lending_market.referral_fee_bps
                    > 0;
                let lent = lent_liquidity(old(borrow_reserve).liquidity, bf, f, credit);
                let pct = old(borrow_reserve).config.utilization_limit_block_borrowing_above_pct;
                let group = spec_operation_group(old(obligation).elevation_group, *lending_market)->Ok_0;
                let d = old(obligation).deposits@;
                let accts = old(deposit_reserves)@;
                let outside_total = old(borrow_reserve).borrowed_amount_outside_elevation_group
                    + borrow_amount;
                let tracker_error: Option<DebtTrackerError> = match group {
                    Some(g) => if g.debt_reserve.bytes@ != borrow_reserve_pk.bytes@ {
                        Some(DebtTrackerError::Lending(LendingError::ElevationGroupHasAnotherDebtReserve))
                    } else {
                        match borrow_walk_result(d, accts, g.id - 1, borrow_amount as u64, 0, 0) {
                            Ok(()) => None,
                            Err(e) => Some(e),
                        }
                    },
                    None => if outside_total > u64::MAX {
                        Some(DebtTrackerError::Lending(LendingError::MathOverflow))
                    } else if outside_total
                        > old(borrow_reserve).config.borrow_limit_outside_elevation_group {
                        Some(DebtTrackerError::Lending(LendingError::BorrowLimitExceeded))
                    } else {
                        None
                    },
                };
                &&& cr matches Err(e) ==> r == Err::<CalculateBorrowResult, DebtTrackerError>(
                    DebtTrackerError::Lending(e),
                )
                &&& cr is Ok && rcv == 0 ==> r == Err::<CalculateBorrowResult, DebtTrackerError>(
                    DebtTrackerError::Lending(LendingError::BorrowTooSmall),
                )
                &&& cr is Ok && rcv != 0 && floor_int(bf) > old(borrow_reserve).liquidity.available_amount
                    ==> r == Err::<CalculateBorrowResult, DebtTrackerError>(
                    DebtTrackerError::Lending(LendingError::InsufficientLiquidity),
                )
                &&& cr is Ok && rcv != 0 && floor_int(bf) <= old(borrow_reserve).liquidity.available_amount
                    && (forall|i: int| !claimed_borrow_slot(*old(obligation), borrow_reserve_pk, i))
                    ==> r == Err::<CalculateBorrowResult, DebtTrackerError>(
                    DebtTrackerError::Lending(LendingError::ObligationReserveLimit),
                )
                &&& forall|i: int|
                    #![trigger claimed_borrow_slot(*old(obligation), borrow_reserve_pk, i)]
                    cr is Ok && rcv != 0 && floor_int(bf) <= old(borrow_reserve).liquidity.available_amount
                        && claimed_borrow_slot(*old(obligation), borrow_reserve_pk, i) ==> {
                        let blocked = pct != 0 && utilization_val(lent) >= pct_val(pct as int);
                        let mv = if old(obligation).is_first_borrow_of(borrow_reserve_pk, i) {
                            old(obligation).borrows@[i].market_value_sf
                        } else {
                            0
                        };
                        let post = spec_post_borrow(
                            Fraction { bits: bf as u128 },
                            *old(obligation),
                            *old(borrow_reserve),
                            Fraction { bits: mv },
                            Fraction { bits: lending_market.min_net_value_in_obligation_sf },
                        );
                        &&& blocked ==> r == Err::<CalculateBorrowResult, DebtTrackerError>(
                            DebtTrackerError::Lending(
                                LendingError::BorrowingAboveUtilizationRateDisabled,
                            ),
                        )
                        &&& !blocked ==> (tracker_error matches Some(e) ==> r == Err::<
                            CalculateBorrowResult,
                            DebtTrackerError,
                        >(e))
                        &&& !blocked && tracker_error is None ==> {
                            &&& r == match post {
                                Ok(()) => Ok::<CalculateBorrowResult, DebtTrackerError>(
                                    CalculateBorrowResult {
                                        borrow_amount_f: Fraction { bits: bf as u128 },
                                        receive_amount: rcv as u64,
                                        origination_fee: p as u64,
                                        referrer_fee: f as u64,
                                    },
                                ),
                                Err(e) => Err::<CalculateBorrowResult, DebtTrackerError>(
                                    DebtTrackerError::Lending(e),
                                ),
                            }
                            &&& *final(borrow_reserve) == (Reserve {
                                last_update: marked_stale(old(borrow_reserve).last_update),
                                liquidity: lent,
                                config: ReserveConfig {
                                    debt_withdrawal_cap: caps,
                                    ..old(borrow_reserve).config
                                },
                                borrowed_amount_outside_elevation_group: if group is None {
                                    outside_total as u64
                                } else {
                                    old(borrow_reserve).borrowed_amount_outside_elevation_group
                                },
                                ..*old(borrow_reserve)
                            })
                            &&& *final(obligation) == (Obligation {
                                deposits: final(obligation).deposits,
                                borrows: final(obligation).borrows,
                                has_debt: 1,
                                last_update: marked_stale(old(obligation).last_update),
                                ..*old(obligation)
                            })
                            &&& final(obligation).borrows@ == old(obligation).borrows@.update(
                                i,
                                final(obligation).borrows@[i],
                            )
                            &&& borrowed_row(
                                *old(obligation),
                                borrow_reserve_pk,
                                i,
                                reserve_borrow_rate(*old(borrow_reserve)),
                                bf,
                                unix_timestamp as u64,
                                final(obligation).borrows@[i],
                            )
                            &&& group is None ==> final(obligation).deposits == old(obligation).deposits
                                && *final(deposit_reserves) == *old(deposit_reserves)
                            &&& group matches Some(g) ==> borrowed_group_deposits(
                                d,
                                accts,
                                g.id - 1,
                                borrow_amount as u64,
                                final(obligation).deposits@,
                            ) && borrowed_group_accounts(
                                d,
                                accts,
                                g.id - 1,
                                borrow_amount as u64,
                                final(deposit_reserves)@,
                            )
                            &&& credit ==> *final(referrer_token_state) == Some(
                                ReferrerTokenState {
                                    amount_cumulative_sf: ((*old(referrer_token_state)).unwrap().amount_cumulative_sf
                                        + f * scale()) as u128,
                                    amount_unclaimed_sf: ((*old(referrer_token_state)).unwrap().amount_unclaimed_sf
                                        + f * scale()) as u128,
                                    ..(*old(referrer_token_state)).unwrap()
                                },
                            )
                            &&& !credit ==> *final(referrer_token_state) == *old(referrer_token_state)
                        }
                    }
            },
        },
{
    if liquidity_amount == 0 {
        return Err(DebtTrackerError::Lending(LendingError::InvalidAmount));
    }
    match borrow_reserve.last_update.is_stale(slot, PriceStatusFlags::all()) {
        Err(e) => {
            return Err(DebtTrackerError::Lending(e));
        },
        Ok(true) => {
            return Err(DebtTrackerError::Lending(LendingError::ReserveStale));
        },
        Ok(false) => {},
    }
    if lending_market.is_borrowing_disabled() {
        return Err(DebtTrackerError::Lending(LendingError::BorrowingDisabled));
    }
    let reserve_liquidity_borrowed_f = borrow_reserve.liquidity.total_borrow();
    let liquidity_amount_f = Fraction::from_num(liquidity_amount);
    let borrow_limit_f = Fraction::from_num(borrow_reserve.config.borrow_limit);
    let new_borrowed_amount_f = liquidity_amount_f.add(reserve_liquidity_borrowed_f);
    if liquidity_amount != u64::MAX && new_borrowed_amount_f.bits > borrow_limit_f.bits {
        return Err(DebtTrackerError::Lending(LendingError::BorrowLimitExceeded));
    }
    match check_obligation_fully_refreshed_and_not_null(obligation, slot) {
        Ok(()) => {},
        Err(e) => {
            return Err(DebtTrackerError::Lending(e));
        },
    }
    let remaining_borrow_value = obligation.remaining_borrow_value();
    if remaining_borrow_value.bits == 0 {
        return Err(DebtTrackerError::Lending(LendingError::BorrowTooLarge));
    }
    match check_same_elevation_group(obligation, borrow_reserve) {
        Ok(()) => {},
        Err(e) => {
            return Err(DebtTrackerError::Lending(e));
        },
    }
    match check_elevation_group_borrowing_enabled(lending_market, obligation) {
        Ok(()) => {},
        Err(e) => {
            return Err(DebtTrackerError::Lending(e));
        },
    }
    match check_non_elevation_group_borrowing_enabled(obligation) {
        Ok(()) => {},
        Err(e) => {
            return Err(DebtTrackerError::Lending(e));
        },
    }
    let remaining_reserve_capacity = borrow_limit_f.saturating_sub(reserve_liquidity_borrowed_f);
    if remaining_reserve_capacity.bits == 0 {
        return Err(DebtTrackerError::Lending(LendingError::BorrowLimitExceeded));
    }
    let calc = match borrow_reserve.calculate_borrow(
        BorrowSize::exact_or_all_available(liquidity_amount),
        remaining_borrow_value,
        remaining_reserve_capacity,
        lending_market.referral_fee_bps,
        obligation.elevation_group != ELEVATION_GROUP_NONE,
        referrer_token_state.is_some(),
    ) {
        Ok(c) => c,
        Err(e) => {
            return Err(DebtTrackerError::Lending(e));
        },
    };
    let borrow_amount_f = calc.borrow_amount_f;
    let receive_amount = calc.receive_amount;
    let referrer_fee = calc.referrer_fee;
    let borrow_amount = borrow_amount_f.to_ceil();
    match add_to_withdrawal_accum(
        &mut borrow_reserve.config.debt_withdrawal_cap,
        borrow_amount,
        unix_timestamp as u64,
    ) {
        Ok(()) => {},
        Err(e) => {
            return Err(DebtTrackerError::Lending(e));
        },
    }
    if receive_amount == 0 {
        return Err(DebtTrackerError::Lending(LendingError::BorrowTooSmall));
    }
    match borrow_reserve.liquidity.borrow(borrow_amount_f) {
        Ok(()) => {},
        Err(e) => {
            return Err(DebtTrackerError::Lending(e));
        },
    }
    borrow_reserve.last_update.mark_stale();
    let cumulative_borrow_rate_bf = borrow_reserve.liquidity.cumulative_borrow_rate_bsf.to_big_fraction();
    let ghost o0 = *obligation;
    let borrow_index = {
        let (obligation_liquidity, borrow_index) = match obligation.find_or_add_liquidity_to_borrows(
            borrow_reserve_pk,
            cumulative_borrow_rate_bf,
        ) {
            Ok(p) => p,
            Err(e) => {
                return Err(DebtTrackerError::Lending(e));
            },
        };
        proof {
            assert(claimed_borrow_slot(o0, borrow_reserve_pk, borrow_index as int));
        }
        obligation_liquidity.borrow(borrow_amount_f, unix_timestamp as u64);
        borrow_index
    };
    proof {
        assert forall|i: int| #[trigger]
            claimed_borrow_slot(o0, borrow_reserve_pk, i) implies i == borrow_index by {
            lemma_claimed_borrow_slot_unique(o0, borrow_reserve_pk, i, borrow_index as int);
        }
    }
    if lending_market.referral_fee_bps > 0 {
        match referrer_token_state {
            Some(state) => {
                let _ = add_referrer_fee(borrow_reserve, state, Fraction::from_num(referrer_fee));
                borrow_reserve.liquidity.available_amount = borrow_reserve.liquidity.available_amount
                    + referrer_fee;
            },
            None => {},
        }
    }
    obligation.has_debt = 1;
    obligation.last_update.mark_stale();
    let new_utilization_rate = borrow_reserve.liquidity.utilization_rate();
    let utilization_limit = borrow_reserve.config.utilization_limit_block_borrowing_above_pct;
    if new_utilization_rate.bits >= Fraction::from_percent(utilization_limit as u64).bits
        && utilization_limit != 0 {
        return Err(
            DebtTrackerError::Lending(LendingError::BorrowingAboveUtilizationRateDisabled),
        );
    }
    let elevation_group = match lending_market.get_elevation_group(obligation.elevation_group) {
        Ok(g) => g,
        Err(e) => {
            return Err(DebtTrackerError::Lending(e));
        },
    };
    update_elevation_group_debt_trackers_on_borrow(
        borrow_amount,
        obligation,
        borrow_index,
        elevation_group,
        &borrow_reserve_pk,
        borrow_reserve,
        deposit_reserves,
    )?;
    match post_borrow_obligation_invariants(
        borrow_amount_f,
        obligation,
        borrow_reserve,
        Fraction::from_bits(obligation.borrows[borrow_index].market_value_sf),
        Fraction::from_bits(lending_market.min_net_value_in_obligation_sf),
    ) {
        Ok(()) => Ok(calc),
        Err(e) => Err(DebtTrackerError::Lending(e)),
    }
}

/// Why a write-off of debt is refused before anything changes: a stale
/// reserve or obligation (for every price check), an obligation that still
/// holds collateral or holds nothing, or one without a borrow of the
/// reserve.
pub open spec fn spec_socialize_loss_check(
    reserve: Reserve,
    obligation: Obligation,
    slot: u64,
    reserve_pk: Pubkey,
) -> Option<LendingError> {
    match spec_is_stale(reserve.last_update, slot, PriceStatusFlags { bits: 63 }) {
        Err(e) => Some(e),
        Ok(true) => Some(LendingError::ReserveStale),
        Ok(false) => match spec_is_stale(obligation.last_update, slot, PriceStatusFlags { bits: 63 }) {
            Err(e) => Some(e),
            Ok(true) => Some(LendingError::ObligationStale),
            Ok(false) => if !obligation.no_active_deposits() {
                Some(LendingError::CannotSocializeObligationWithCollateral)
            } else if obligation.no_active_borrows() {
                Some(LendingError::ObligationEmpty)
            } else if !obligation.has_borrow_of(reserve_pk) {
                Some(LendingError::InvalidObligationLiquidity)
            } else {
                None
            },
        },
    }
}

/// The debt written off: the amount asked for, at most the borrow.
pub open spec fn spec_forgiven(liquidity_amount: u64, borrowed: int) -> int {
    if liquidity_amount * scale() <= borrowed {
        liquidity_amount * scale()
    } else {
        borrowed
    }
}

/// Writes off debt of an obligation that no collateral covers any more: up
/// to `liquidity_amount` of its borrow from the reserve leaves the borrow and
/// the reserve's debt, so the suppliers bear it; when the write-off reaches
/// the reserve's whole supply the reserve is marked deprecated (its version
/// set to all ones). The write-off, rounded up, comes off the debt trackers
/// (`deposit_reserves` are the reserve accounts of the obligation's
/// deposits, in order, for a group), and both accounts are marked stale.
/// Returns the debt written off. Refused, with nothing changed, on the
/// checks of [`spec_socialize_loss_check`]; refused on a wrong list of
/// deposit reserves, after the reserve may already have been marked.
pub fn socialize_loss(
    reserve: &mut Reserve,
    reserve_pk: &Pubkey,
    obligation: &mut Obligation,
    liquidity_amount: u64,
    slot: u64,
    deposit_reserves: &mut Vec<ReserveAccount>,
) -> (r: Result<Fraction, DebtTrackerError>)
    requires
        spec_socialize_loss_check(*old(reserve), *old(obligation), slot, *reserve_pk) is None ==> {
            &&& supply_computable(old(reserve).liquidity)
            &&& old(obligation).elevation_group <= 32
            &&& forall|i: int|
                #![trigger old(obligation).is_first_borrow_of(*reserve_pk, i)]
                old(obligation).is_first_borrow_of(*reserve_pk, i) ==> {
                    let forgive = spec_forgiven(
                        liquidity_amount,
                        old(obligation).borrows@[i].borrowed_amount_sf as int,
                    );
                    &&& ceil_int(forgive) <= u64::MAX
                    &&& forgive <= old(reserve).liquidity.borrowed_amount_sf
                }
        },
    ensures
        spec_socialize_loss_check(*old(reserve), *old(obligation), slot, *reserve_pk) matches Some(e)
            ==> r == Err::<Fraction, DebtTrackerError>(DebtTrackerError::Lending(e)) && *final(reserve)
            == *old(reserve) && *final(obligation) == *old(obligation) && *final(deposit_reserves)
            == *old(deposit_reserves),
        spec_socialize_loss_check(*old(reserve), *old(obligation), slot, *reserve_pk) is None
            ==> forall|i: int|
            #![trigger old(obligation).is_first_borrow_of(*reserve_pk, i)]
            old(obligation).is_first_borrow_of(*reserve_pk, i) ==> {
                let b = old(obligation).borrows@[i];
                let forgive = spec_forgiven(liquidity_amount, b.borrowed_amount_sf as int);
                let amount = ceil_int(forgive) as u64;
                let in_group = old(obligation).elevation_group != ELEVATION_GROUP_NONE;
                let walk = if in_group {
                    repay_walk_outcome(old(obligation).deposits@, old(deposit_reserves)@)
                } else {
                    Ok(())
                };
                &&& walk matches Err(e) ==> r == Err::<Fraction, DebtTrackerError>(e)
                &&& walk is Ok ==> {
                    &&& r == Ok::<Fraction, DebtTrackerError>(Fraction { bits: forgive as u128 })
                    &&& *final(reserve) == (Reserve {
                        version: if forgive >= crate::reserve::total_supply_val(old(reserve).liquidity) {
                            u64::MAX
                        } else {
                            old(reserve).version
                        },
                        last_update: marked_stale(old(reserve).last_update),
                        liquidity: ReserveLiquidity {
                            borrowed_amount_sf: (old(reserve).liquidity.borrowed_amount_sf
                                - forgive) as u128,
                            ..old(reserve).liquidity
                        },
                        borrowed_amount_outside_elevation_group: if in_group {
                            old(reserve).borrowed_amount_outside_elevation_group
                        } else {
                            sat_sub_u64(old(reserve).borrowed_amount_outside_elevation_group, amount)
                        },
                        ..*old(reserve)
                    })
                    &&& *final(obligation) == (Obligation {
                        deposits: final(obligation).deposits,
                        borrows: final(obligation).borrows,
                        has_debt: final(obligation).has_debt,
                        last_update: marked_stale(old(obligation).last_update),
                        ..*old(obligation)
                    })
                    &&& final(obligation).has_debt == if final(obligation).no_active_borrows() {
                        0u8
                    } else {
                        1u8
                    }
                    &&& final(obligation).borrows@ == old(obligation).borrows@.update(
                        i,
                        final(obligation).borrows@[i],
                    )
                    &&& forgive == b.borrowed_amount_sf ==> final(obligation).borrows@[i].is_zeroed()
                    &&& forgive != b.borrowed_amount_sf ==> final(obligation).borrows@[i] == (
                    ObligationLiquidity {
                        borrowed_amount_sf: (b.borrowed_amount_sf - forgive) as u128,
                        borrowed_amount_outside_elevation_groups: if in_group {
                            b.borrowed_amount_outside_elevation_groups
                        } else {
                            sat_sub_u64(b.borrowed_amount_outside_elevation_groups, amount)
                        },
                        ..b
                    })
                    &&& !in_group ==> final(obligation).deposits == old(obligation).deposits
                        && final(deposit_reserves)@ == old(deposit_reserves)@
                    &&& in_group ==> repaid_group_deposits(
                        old(obligation).deposits@,
                        old(deposit_reserves)@,
                        amount,
                        final(obligation).deposits@,
                    ) && repaid_group_accounts(
                        old(obligation).deposits@,
                        old(deposit_reserves)@,
                        amount,
                        old(obligation).elevation_group - 1,
                        final(deposit_reserves)@,
                    )
                }
            },
{
    match reserve.last_update.is_stale(slot, PriceStatusFlags::all()) {
        Err(e) => {
            return Err(DebtTrackerError::Lending(e));
        },
        Ok(true) => {
            return Err(DebtTrackerError::Lending(LendingError::ReserveStale));
        },
        Ok(false) => {},
    }
    match obligation.last_update.is_stale(slot, PriceStatusFlags::all()) {
        Err(e) => {
            return Err(DebtTrackerError::Lending(e));
        },
        Ok(true) => {
            return Err(DebtTrackerError::Lending(LendingError::ObligationStale));
        },
        Ok(false) => {},
    }
    if !obligation.is_active_deposits_empty() {
        return Err(DebtTrackerError::Lending(LendingError::CannotSocializeObligationWithCollateral));
    }
    if obligation.is_active_deposits_empty() && obligation.is_active_borrows_empty() {
        return Err(DebtTrackerError::Lending(LendingError::ObligationEmpty));
    }
    let ghost o0 = *obligation;
    let ghost r0 = *reserve;
    let (liquidity, liquidity_index) = match obligation.find_liquidity_in_borrows(*reserve_pk) {
        Ok(p) => p,
        Err(e) => {
            return Err(DebtTrackerError::Lending(e));
        },
    };
    proof {
        assert forall|i: int| #[trigger] o0.is_first_borrow_of(*reserve_pk, i) implies i
            == liquidity_index by {
            if i < liquidity_index {
                assert(!crate::obligation::same_key(o0.borrows@[i].borrow_reserve, *reserve_pk));
            } else if i > liquidity_index {
                assert(!crate::obligation::same_key(
                    o0.borrows@[liquidity_index as int].borrow_reserve,
                    *reserve_pk,
                ));
            }
        }
    }
    let liquidity_amount_f = Fraction::from_num(liquidity_amount);
    let borrowed_amount_f = Fraction::from_bits(liquidity.borrowed_amount_sf);
    let forgive_amount_f = liquidity_amount_f.min(borrowed_amount_f);
    if forgive_amount_f.bits >= reserve.liquidity.total_supply().bits {
        reserve.version = u64::MAX;
    }
    update_elevation_group_debt_trackers_on_repay(
        forgive_amount_f.to_ceil(),
        obligation,
        liquidity_index,
        reserve,
        deposit_reserves,
    )?;
    let ghost r1 = *reserve;
    reserve.liquidity.forgive_debt(forgive_amount_f);
    reserve.last_update.mark_stale();
    assert(reserve.liquidity == ReserveLiquidity {
        borrowed_amount_sf: (r1.liquidity.borrowed_amount_sf - forgive_amount_f.val()) as u128,
        ..r1.liquidity
    });
    obligation.repay(forgive_amount_f, liquidity_index);
    obligation.update_has_debt();
    obligation.last_update.mark_stale();
    proof {
        let i = liquidity_index as int;
        let b = o0.borrows@[i];
        let forgive = spec_forgiven(liquidity_amount, b.borrowed_amount_sf as int);
        assert(forgive_amount_f.val() == forgive);
        assert(obligation.borrows@ == o0.borrows@.update(i, obligation.borrows@[i]));
        assert(obligation.last_update == marked_stale(o0.last_update));
        assert(reserve.last_update == marked_stale(r0.last_update));
        assert(reserve.version == if forgive >= crate::reserve::total_supply_val(r0.liquidity) {
            u64::MAX
        } else {
            r0.version
        });
        assert(reserve.liquidity == ReserveLiquidity {
            borrowed_amount_sf: (r0.liquidity.borrowed_amount_sf - forgive) as u128,
            ..r0.liquidity
        });
        let amount = ceil_int(forgive) as u64;
        let in_group = o0.elevation_group != ELEVATION_GROUP_NONE;
        assert(reserve.borrowed_amount_outside_elevation_group == if in_group {
            r0.borrowed_amount_outside_elevation_group
        } else {
            sat_sub_u64(r0.borrowed_amount_outside_elevation_group, amount)
        });
        assert(forgive == b.borrowed_amount_sf ==> obligation.borrows@[i].is_zeroed());
        assert(forgive != b.borrowed_amount_sf ==> obligation.borrows@[i] == (
        ObligationLiquidity {
            borrowed_amount_sf: (b.borrowed_amount_sf - forgive) as u128,
            borrowed_amount_outside_elevation_groups: if in_group {
                b.borrowed_amount_outside_elevation_groups
            } else {
                sat_sub_u64(b.borrowed_amount_outside_elevation_groups, amount)
            },
            ..b
        }));
        assert(*obligation == (Obligation {
            deposits: obligation.deposits,
            borrows: obligation.borrows,
            has_debt: obligation.has_debt,
            last_update: marked_stale(o0.last_update),
            ..o0
        }));
    }
    Ok(forgive_amount_f)
}

} // verus!
