//! Refreshing an obligation: revaluing its deposits and borrows at their
//! reserves' prices, and keeping the totals that its health is judged by.

use crate::error::LendingError;
use crate::fraction::{pct_val, scale, spec_mul, Fraction};
use crate::last_update::{LastUpdate, PriceStatusFlags};
use crate::lending_market::{ElevationGroup, LendingMarket};
use crate::lending_utils::{
    active_rank, calculate_obligation_collateral_market_value,
    check_obligation_collateral_deposit_reserve, collateral_value_computable,
    get_max_ltv_and_liquidation_threshold, groups_contain, sat_sub_u64, spec_market_value,
    spec_slot_reserve_check, ReserveAccount,
};
use crate::obligation::{Obligation, ObligationCollateral, ObligationLiquidity};
use crate::reserve::{spec_borrow_factor_f, spec_c2l_frac, spec_exchange_rate, Reserve};
use crate::types::{RefreshObligationBorrowsResult, RefreshObligationDepositsResult};
use crate::fraction::{ceil_int, round_int};
use crate::lending_operations::{
    accumulate_referrer_fees, capped_referrer_fee, referrer_fee_computable,
    spec_referrer_fee_outcome, ReferrerTokenAccount,
};
use crate::lending_utils::{
    borrow_rank, get_elevation_group, lemma_borrow_rank_below, lemma_borrow_rank_step,
    spec_operation_group,
};
use crate::reserve::ReserveLiquidity;
use crate::lending_utils::{
    calculate_obligation_liquidity_market_value, check_obligation_liquidity_borrow_reserve,
    market_value_computable,
};
use crate::obligation_operations::{reserve_borrow_rate, spec_borrow_accrual};
use crate::pubkey::is_default_key;
use crate::wide::p256;
use vstd::prelude::*;

verus! {

/// The totals gathered while refreshing an obligation's deposits.
#[derive(Clone, Copy, Debug)]
pub struct DepositTotals {
    pub lowest_liquidation_ltv: u8,
    pub lowest_max_ltv: u8,
    pub num_obsolete: u8,
    pub deposited: Fraction,
    pub allowed: Fraction,
    pub unhealthy: Fraction,
    pub prices: u8,
    pub borrowing_disabled: bool,
    pub collaterals: u8,
}

/// The totals before any deposit: no threshold seen, nothing deposited,
/// every price check passed.
pub open spec fn initial_deposit_totals() -> DepositTotals {
    DepositTotals {
        lowest_liquidation_ltv: 255,
        lowest_max_ltv: 255,
        num_obsolete: 0,
        deposited: Fraction { bits: 0 },
        allowed: Fraction { bits: 0 },
        unhealthy: Fraction { bits: 0 },
        prices: 63,
        borrowing_disabled: false,
        collaterals: 0,
    }
}

/// The market value of a deposit at its reserve: the liquidity its
/// collateral is worth, times the price.
pub open spec fn deposit_value(d: ObligationCollateral, reserve: Reserve) -> int {
    spec_market_value(reserve, spec_c2l_frac(spec_exchange_rate(reserve), d.deposited_amount * scale()))
}

/// The LTV and liquidation threshold of a deposit: the group's in a group,
/// else the reserve's.
pub open spec fn deposit_ltvs(reserve: Reserve, group: Option<ElevationGroup>) -> (u8, u8) {
    match group {
        Some(g) => (g.ltv_pct, g.liquidation_threshold_pct),
        None => (reserve.config.loan_to_value_pct, reserve.config.liquidation_threshold_pct),
    }
}

/// Why the account handed in for a deposit is refused: the checks of
/// [`spec_slot_reserve_check`], and in a group a reserve outside it or the
/// group's debt reserve.
pub open spec fn deposit_account_error(
    d: ObligationCollateral,
    a: ReserveAccount,
    slot: u64,
    group: Option<ElevationGroup>,
) -> Option<LendingError> {
    match spec_slot_reserve_check(
        d.deposit_reserve.bytes@ == a.key.bytes@,
        a.reserve.last_update,
        a.reserve.version,
        slot,
    ) {
        Err(e) => Some(e),
        Ok(()) => match group {
            Some(g) => if !a.reserve.config.elevation_groups@.contains(g.id) {
                Some(LendingError::InconsistentElevationGroup)
            } else if a.key.bytes@ == g.debt_reserve.bytes@ {
                Some(LendingError::ElevationGroupDebtReserveAsCollateral)
            } else {
                None
            },
            None => None,
        },
    }
}

/// The totals after deposit `d` at its reserve's account `a`: its value,
/// allowed and unhealthy borrow values (value times LTV and threshold), the
/// lowest threshold and LTV among deposits worth at least the market's
/// minimal value for these checks, obsolete reserves, the price checks all
/// of them passed, whether a reserve forbids borrowing outside groups, and
/// the deposits holding collateral.
pub open spec fn step_deposit_totals(
    acc: DepositTotals,
    d: ObligationCollateral,
    a: ReserveAccount,
    market: LendingMarket,
    group: Option<ElevationGroup>,
) -> DepositTotals {
    let mv = deposit_value(d, a.reserve);
    let (ltv, threshold) = deposit_ltvs(a.reserve, group);
    let counted = mv >= market.min_value_skip_liquidation_ltv_checks * scale();
    DepositTotals {
        lowest_liquidation_ltv: if counted && threshold > 0 && threshold < acc.lowest_liquidation_ltv {
            threshold
        } else {
            acc.lowest_liquidation_ltv
        },
        lowest_max_ltv: if counted && ltv > 0 && ltv < acc.lowest_max_ltv {
            ltv
        } else {
            acc.lowest_max_ltv
        },
        num_obsolete: if a.reserve.config.status == 1 {
            (acc.num_obsolete + 1) as u8
        } else {
            acc.num_obsolete
        },
        deposited: Fraction { bits: (acc.deposited.val() + mv) as u128 },
        allowed: Fraction { bits: (acc.allowed.val() + spec_mul(mv, pct_val(ltv as int))) as u128 },
        unhealthy: Fraction {
            bits: (acc.unhealthy.val() + spec_mul(mv, pct_val(threshold as int))) as u128,
        },
        prices: acc.prices & (a.reserve.last_update.price_status & 63),
        borrowing_disabled: acc.borrowing_disabled || (group is None
            && a.reserve.config.disable_usage_as_coll_outside_emode > 0),
        collaterals: if d.deposited_amount > 0 {
            (acc.collaterals + 1) as u8
        } else {
            acc.collaterals
        },
    }
}

/// The totals of the deposits from slot `k` on, with account `j` next, or
/// the first error: a deposit in use without an account, or a refused
/// account.
pub open spec fn deposits_fold(
    d: Seq<ObligationCollateral>,
    accts: Seq<ReserveAccount>,
    market: LendingMarket,
    slot: u64,
    group: Option<ElevationGroup>,
    k: int,
    j: int,
    acc: DepositTotals,
) -> Result<DepositTotals, LendingError>
    decreases d.len() - k,
{
    if k >= d.len() {
        Ok(acc)
    } else if !d[k].spec_is_active() {
        deposits_fold(d, accts, market, slot, group, k + 1, j, acc)
    } else if j >= accts.len() {
        Err(LendingError::InvalidAccountInput)
    } else if deposit_account_error(d[k], accts[j], slot, group) is Some {
        Err(deposit_account_error(d[k], accts[j], slot, group)->Some_0)
    } else {
        deposits_fold(
            d,
            accts,
            market,
            slot,
            group,
            k + 1,
            j + 1,
            step_deposit_totals(acc, d[k], accts[j], market, group),
        )
    }
}

/// The amounts of one deposit's step fit their machine types, and the
/// reserve's status names one.
pub open spec fn deposit_step_computable(
    acc: DepositTotals,
    d: ObligationCollateral,
    a: ReserveAccount,
    market: LendingMarket,
    group: Option<ElevationGroup>,
    debt: u64,
) -> bool {
    let mv = deposit_value(d, a.reserve);
    let (ltv, threshold) = deposit_ltvs(a.reserve, group);
    &&& collateral_value_computable(a.reserve, d)
    &&& mv <= u128::MAX
    &&& acc.deposited.val() + mv <= u128::MAX
    &&& spec_mul(mv, pct_val(ltv as int)) <= u128::MAX
    &&& spec_mul(mv, pct_val(threshold as int)) <= u128::MAX
    &&& acc.allowed.val() + spec_mul(mv, pct_val(ltv as int)) <= u128::MAX
    &&& acc.unhealthy.val() + spec_mul(mv, pct_val(threshold as int)) <= u128::MAX
    &&& group matches Some(g) ==> 1 <= g.id <= 32 && sat_sub_u64(
        a.reserve.borrowed_amounts_against_this_reserve_in_elevation_groups@[g.id - 1],
        d.borrowed_amount_against_this_collateral_in_elevation_group,
    ) + debt <= u64::MAX
}

/// Every step the deposits' refresh takes from slot `k` on fits, and every
/// reserve it reads names its status.
pub open spec fn deposits_fold_computable(
    d: Seq<ObligationCollateral>,
    accts: Seq<ReserveAccount>,
    market: LendingMarket,
    slot: u64,
    group: Option<ElevationGroup>,
    debt: u64,
    k: int,
    j: int,
    acc: DepositTotals,
) -> bool
    decreases d.len() - k,
{
    if k >= d.len() {
        true
    } else if !d[k].spec_is_active() {
        deposits_fold_computable(d, accts, market, slot, group, debt, k + 1, j, acc)
    } else if j >= accts.len() {
        true
    } else {
        &&& accts[j].reserve.config.status < 3
        &&& deposit_account_error(d[k], accts[j], slot, group) is None ==> {
            &&& deposit_step_computable(acc, d[k], accts[j], market, group, debt)
            &&& deposits_fold_computable(
                d,
                accts,
                market,
                slot,
                group,
                debt,
                k + 1,
                j + 1,
                step_deposit_totals(acc, d[k], accts[j], market, group),
            )
        }
    }
}

/// Deposit `d` once refreshed: its value at the reserve, and in a group the
/// obligation's debt recorded against it.
pub open spec fn refreshed_deposit(
    d: ObligationCollateral,
    a: ReserveAccount,
    group: Option<ElevationGroup>,
    debt: u64,
) -> ObligationCollateral {
    ObligationCollateral {
        market_value_sf: deposit_value(d, a.reserve) as u128,
        borrowed_amount_against_this_collateral_in_elevation_group: if group is Some {
            debt
        } else {
            d.borrowed_amount_against_this_collateral_in_elevation_group
        },
        ..d
    }
}

/// The account `na` of deposit `d` once refreshed: in a group, the debt the
/// deposit had recorded is replaced by the obligation's debt in the
/// reserve's tracker for the group.
pub open spec fn refreshed_deposit_account(
    d: ObligationCollateral,
    a: ReserveAccount,
    group: Option<ElevationGroup>,
    debt: u64,
    na: ReserveAccount,
) -> bool {
    match group {
        Some(g) => {
            let t = a.reserve.borrowed_amounts_against_this_reserve_in_elevation_groups@;
            &&& na == (ReserveAccount {
                reserve: Reserve {
                    borrowed_amounts_against_this_reserve_in_elevation_groups: na.reserve.borrowed_amounts_against_this_reserve_in_elevation_groups,
                    ..a.reserve
                },
                ..a
            })
            &&& na.reserve.borrowed_amounts_against_this_reserve_in_elevation_groups@ == t.update(
                g.id - 1,
                (sat_sub_u64(
                    t[g.id - 1],
                    d.borrowed_amount_against_this_collateral_in_elevation_group,
                ) + debt) as u64,
            )
        },
        None => na == a,
    }
}

/// The group a reference stands for.
pub open spec fn group_of(elevation_group: Option<&ElevationGroup>) -> Option<ElevationGroup> {
    match elevation_group {
        Some(g) => Some(*g),
        None => None,
    }
}

/// Whether more deposits hold collateral than the group allows.
pub open spec fn over_collateral_limit(group: Option<ElevationGroup>, t: DepositTotals) -> bool {
    match group {
        Some(g) => g.max_reserves_as_collateral < t.collaterals,
        None => false,
    }
}

/// The result of a deposits' refresh with totals `t`.
pub open spec fn deposits_result(t: DepositTotals) -> RefreshObligationDepositsResult {
    RefreshObligationDepositsResult {
        lowest_deposit_liquidation_ltv_threshold_pct: t.lowest_liquidation_ltv,
        lowest_deposit_max_ltv_pct: t.lowest_max_ltv,
        num_of_obsolete_reserves: t.num_obsolete,
        deposited_value_f: t.deposited,
        allowed_borrow_value_f: t.allowed,
        unhealthy_borrow_value_f: t.unhealthy,
        prices_state: PriceStatusFlags { bits: t.prices },
        borrowing_disabled: t.borrowing_disabled,
    }
}




/// Refreshes the obligation's deposits at `slot` against their reserves'
/// accounts (`reserves`, in the order of the deposits in use): each
/// deposit's value is recomputed at its reserve's price, and in an
/// elevation group the obligation's debt in the group
/// (`borrowed_amount_in_elevation_group`, given exactly when a group is)
/// replaces the debt the deposit had recorded, in the deposit and in its
/// reserve's tracker for the group. Returns the totals of
/// [`step_deposit_totals`]. Refused at the first deposit without an account
/// or with a refused one (see [`deposit_account_error`]), and in a group
/// when more deposits hold collateral than the group allows. On an error the
/// accounts are left partly updated, and the transaction that made the call
/// fails.
pub fn refresh_obligation_deposits(
    obligation: &mut Obligation,
    lending_market: &LendingMarket,
    slot: u64,
    elevation_group: Option<&ElevationGroup>,
    reserves: &mut Vec<ReserveAccount>,
    borrowed_amount_in_elevation_group: Option<u64>,
) -> (r: Result<RefreshObligationDepositsResult, LendingError>)
    requires
        elevation_group is Some == borrowed_amount_in_elevation_group is Some,
        deposits_fold_computable(
            old(obligation).deposits@,
            old(reserves)@,
            *lending_market,
            slot,
            group_of(elevation_group),
            match borrowed_amount_in_elevation_group {
                Some(t) => t,
                None => 0,
            },
            0,
            0,
            initial_deposit_totals(),
        ),
    ensures
        ({
            let d = old(obligation).deposits@;
            let accts = old(reserves)@;
            let group = group_of(elevation_group);
            let debt = match borrowed_amount_in_elevation_group {
                Some(t) => t,
                None => 0,
            };
            match deposits_fold(d, accts, *lending_market, slot, group, 0, 0, initial_deposit_totals()) {
                Err(e) => r == Err::<RefreshObligationDepositsResult, LendingError>(e),
                Ok(t) => {
                    &&& over_collateral_limit(group, t) ==> r == Err::<
                        RefreshObligationDepositsResult,
                        LendingError,
                    >(LendingError::ObligationCollateralExceedsElevationGroupLimit)
                    &&& !over_collateral_limit(group, t) ==> r == Ok::<
                        RefreshObligationDepositsResult,
                        LendingError,
                    >(
                        deposits_result(t),
                    )
                    &&& *final(obligation) == (Obligation {
                        deposits: final(obligation).deposits,
                        ..*old(obligation)
                    })
                    &&& forall|k: int|
                        0 <= k < 8 ==> #[trigger] final(obligation).deposits@[k] == if d[k].spec_is_active() {
                            refreshed_deposit(d[k], accts[active_rank(d, k)], group, debt)
                        } else {
                            d[k]
                        }
                    &&& final(reserves)@.len() == accts.len()
                    &&& forall|k: int|
                        0 <= k < 8 && #[trigger] d[k].spec_is_active() ==> refreshed_deposit_account(
                            d[k],
                            accts[active_rank(d, k)],
                            group,
                            debt,
                            final(reserves)@[active_rank(d, k)],
                        )
                    &&& forall|j: int|
                        active_rank(d, 8) <= j < accts.len() ==> #[trigger] final(reserves)@[j]
                            == accts[j]
                }
            }
        }),
{
    let ghost d = old(obligation).deposits@;
    let ghost accts = old(reserves)@;
    let ghost group = group_of(elevation_group);
    let debt: u64 = match borrowed_amount_in_elevation_group {
        Some(t) => t,
        None => 0,
    };
    let mut acc = DepositTotals {
        lowest_liquidation_ltv: 255,
        lowest_max_ltv: 255,
        num_obsolete: 0,
        deposited: Fraction::zero(),
        allowed: Fraction::zero(),
        unhealthy: Fraction::zero(),
        prices: 63,
        borrowing_disabled: false,
        collaterals: 0,
    };
    let mut k: usize = 0;
    let mut j: usize = 0;
    while k < 8
        invariant
            0 <= k <= 8,
            j == active_rank(d, k as int),
            j <= accts.len(),
            d == old(obligation).deposits@,
            accts == old(reserves)@,
            group == group_of(elevation_group),
            debt == match borrowed_amount_in_elevation_group {
                Some(t) => t,
                None => 0,
            },
            elevation_group is Some == borrowed_amount_in_elevation_group is Some,
            deposits_fold(d, accts, *lending_market, slot, group, 0, 0, initial_deposit_totals())
                == deposits_fold(d, accts, *lending_market, slot, group, k as int, j as int, acc),
            deposits_fold_computable(d, accts, *lending_market, slot, group, debt, k as int, j as int, acc),
            *obligation == (Obligation { deposits: obligation.deposits, ..*old(obligation) }),
            forall|kk: int|
                0 <= kk < 8 ==> #[trigger] obligation.deposits@[kk] == if kk < k && d[kk].spec_is_active() {
                    refreshed_deposit(d[kk], accts[active_rank(d, kk)], group, debt)
                } else {
                    d[kk]
                },
            reserves@.len() == accts.len(),
            forall|kk: int|
                0 <= kk < k && #[trigger] d[kk].spec_is_active() ==> refreshed_deposit_account(
                    d[kk],
                    accts[active_rank(d, kk)],
                    group,
                    debt,
                    reserves@[active_rank(d, kk)],
                ),
            forall|jj: int| j <= jj < accts.len() ==> #[trigger] reserves@[jj] == accts[jj],
            acc.num_obsolete <= j,
            acc.collaterals <= j,
        decreases 8 - k,
    {
        proof {
            crate::lending_utils::lemma_rank_step(d, k as int);
            assert forall|kk: int| 0 <= kk < k && #[trigger] d[kk].spec_is_active() implies active_rank(
                d,
                kk,
            ) < j by {
                crate::lending_utils::lemma_rank_below(d, kk, k as int);
            }
        }
        let deposit = obligation.deposits[k];
        if deposit.is_active() {
            if j >= reserves.len() {
                return Err(LendingError::InvalidAccountInput);
            }
            let mut account = reserves[j];
            if elevation_group.is_none() && account.reserve.config.disable_usage_as_coll_outside_emode
                > 0 {
                acc.borrowing_disabled = true;
            }
            let ghost acc0 = acc;
            if account.reserve.config.status() == crate::reserve::ReserveStatus::Obsolete {
                acc.num_obsolete = acc.num_obsolete + 1;
            }
            check_obligation_collateral_deposit_reserve(
                &deposit,
                &account.reserve,
                account.key,
                k,
                slot,
            )?;
            if deposit.deposited_amount > 0 {
                acc.collaterals = acc.collaterals + 1;
            }
            let mut refreshed = deposit;
            match elevation_group {
                Some(g) => {
                    if !groups_contain(&account.reserve.config.elevation_groups, g.id) {
                        return Err(LendingError::InconsistentElevationGroup);
                    }
                    if account.key.key_eq(&g.debt_reserve) {
                        return Err(LendingError::ElevationGroupDebtReserveAsCollateral);
                    }
                    let gi = g.get_index();
                    let tracked_before = account.reserve.borrowed_amounts_against_this_reserve_in_elevation_groups[gi];
                    account.reserve.borrowed_amounts_against_this_reserve_in_elevation_groups[gi] =
                        tracked_before.saturating_sub(
                        deposit.borrowed_amount_against_this_collateral_in_elevation_group,
                    ) + debt;
                    refreshed.borrowed_amount_against_this_collateral_in_elevation_group = debt;
                },
                None => {},
            }
            let market_value_f = match calculate_obligation_collateral_market_value(
                &account.reserve,
                &refreshed,
            ) {
                Ok(v) => v,
                Err(e) => {
                    return Err(e);
                },
            };
            refreshed.market_value_sf = market_value_f.bits;
            let (coll_ltv_pct, coll_liquidation_threshold_pct) = match get_max_ltv_and_liquidation_threshold(
                &account.reserve,
                elevation_group,
            ) {
                Ok(p) => p,
                Err(e) => {
                    return Err(e);
                },
            };
            let counted = market_value_f.bits >= Fraction::from_num(
                lending_market.min_value_skip_liquidation_ltv_checks,
            ).bits;
            if counted && coll_liquidation_threshold_pct > 0 && coll_liquidation_threshold_pct
                < acc.lowest_liquidation_ltv {
                acc.lowest_liquidation_ltv = coll_liquidation_threshold_pct;
            }
            if counted && coll_ltv_pct > 0 && coll_ltv_pct < acc.lowest_max_ltv {
                acc.lowest_max_ltv = coll_ltv_pct;
            }
            acc.deposited = acc.deposited.add(market_value_f);
            acc.allowed = acc.allowed.add(
                market_value_f.mul(Fraction::from_percent(coll_ltv_pct as u64)),
            );
            acc.unhealthy = acc.unhealthy.add(
                market_value_f.mul(Fraction::from_percent(coll_liquidation_threshold_pct as u64)),
            );
            acc.prices = acc.prices & account.reserve.last_update.get_price_status().bits;
            obligation.deposits[k] = refreshed;
            assert(deposit == d[k as int]);
            assert(refreshed_deposit_account(deposit, accts[j as int], group, debt, account));
            let ghost prev = reserves@;
            reserves.set(j, account);
            proof {
                assert forall|kk: int|
                    0 <= kk < k + 1 && #[trigger] d[kk].spec_is_active() implies refreshed_deposit_account(
                    d[kk],
                    accts[active_rank(d, kk)],
                    group,
                    debt,
                    reserves@[active_rank(d, kk)],
                ) by {
                    if kk < k {
                        crate::lending_utils::lemma_rank_step(d, kk);
                        assert(active_rank(d, kk) < j);
                        assert(reserves@[active_rank(d, kk)] == prev[active_rank(d, kk)]);
                    } else {
                        assert(kk == k);
                        assert(active_rank(d, kk) == j);
                    }
                }
            }
            j = j + 1;
        }
        k = k + 1;
    }
    if let Some(g) = elevation_group {
        if g.max_reserves_as_collateral < acc.collaterals {
            return Err(LendingError::ObligationCollateralExceedsElevationGroupLimit);
        }
    }
    Ok(
        RefreshObligationDepositsResult {
            lowest_deposit_liquidation_ltv_threshold_pct: acc.lowest_liquidation_ltv,
            lowest_deposit_max_ltv_pct: acc.lowest_max_ltv,
            num_of_obsolete_reserves: acc.num_obsolete,
            deposited_value_f: acc.deposited,
            allowed_borrow_value_f: acc.allowed,
            unhealthy_borrow_value_f: acc.unhealthy,
            prices_state: PriceStatusFlags { bits: acc.prices },
            borrowing_disabled: acc.borrowing_disabled,
        },
    )
}

/// The totals gathered while refreshing an obligation's borrows.
#[derive(Clone, Copy, Debug)]
pub struct BorrowTotals {
    pub borrowed_assets: Fraction,
    pub bf_debt: Fraction,
    pub prices: u8,
    pub highest_bf: Fraction,
    pub group_debt: u64,
    pub num_borrows: u8,
    pub num_obsolete: u8,
}

/// The totals before any borrow: nothing borrowed, a borrow factor of one,
/// every price check passed.
pub open spec fn initial_borrow_totals() -> BorrowTotals {
    BorrowTotals {
        borrowed_assets: Fraction { bits: 0 },
        bf_debt: Fraction { bits: 0 },
        prices: 63,
        highest_bf: Fraction { bits: 1152921504606846976u128 },
        group_debt: 0,
        num_borrows: 0,
        num_obsolete: 0,
    }
}

/// The reserve of borrow `b` before the referral fees move: outside groups
/// its debt outside groups counts the borrow's debt afresh.
pub open spec fn borrow_reserve_tracked(
    b: ObligationLiquidity,
    reserve: Reserve,
    group: Option<ElevationGroup>,
    amount: int,
) -> Reserve {
    if group is None {
        Reserve {
            borrowed_amount_outside_elevation_group: (sat_sub_u64(
                reserve.borrowed_amount_outside_elevation_group,
                b.borrowed_amount_outside_elevation_groups,
            ) + amount) as u64,
            ..reserve
        }
    } else {
        reserve
    }
}

/// Why the account handed in for a borrow is refused before the referral
/// fees move: the checks of [`spec_slot_reserve_check`], a failed accrual of
/// interest, in a group a reserve outside it or other than the group's debt
/// reserve, and a slot before the obligation's last refresh.
pub open spec fn borrow_account_error(
    o: Obligation,
    b: ObligationLiquidity,
    a: ReserveAccount,
    slot: u64,
    group: Option<ElevationGroup>,
) -> Option<LendingError> {
    match spec_slot_reserve_check(
        b.borrow_reserve.bytes@ == a.key.bytes@,
        a.reserve.last_update,
        a.reserve.version,
        slot,
    ) {
        Err(e) => Some(e),
        Ok(()) => match spec_borrow_accrual(b, reserve_borrow_rate(a.reserve)) {
            Err(e) => Some(e),
            Ok(_) => match group {
                Some(g) => if !a.reserve.config.elevation_groups@.contains(g.id) {
                    Some(LendingError::InconsistentElevationGroup)
                } else if a.key.bytes@ != g.debt_reserve.bytes@ {
                    Some(LendingError::ElevationGroupHasAnotherDebtReserve)
                } else if slot < o.last_update.slot {
                    Some(LendingError::MathOverflow)
                } else {
                    None
                },
                None => if slot < o.last_update.slot {
                    Some(LendingError::MathOverflow)
                } else {
                    None
                },
            },
        },
    }
}

/// The referral outcome of borrow `b` at account `a`, its accrued debt being
/// `acc_amt`.
pub open spec fn borrow_referral(
    o: Obligation,
    b: ObligationLiquidity,
    a: ReserveAccount,
    market: LendingMarket,
    slot: u64,
    group: Option<ElevationGroup>,
    acc_amt: int,
    states: Seq<ReferrerTokenAccount>,
    cursor: int,
) -> (Result<(), LendingError>, Reserve, Seq<ReferrerTokenAccount>, int) {
    spec_referrer_fee_outcome(
        borrow_reserve_tracked(b, a.reserve, group, ceil_int(acc_amt)),
        o.referrer,
        market.referral_fee_bps,
        (slot - o.last_update.slot) as u64,
        acc_amt,
        b.borrowed_amount_sf as int,
        !is_default_key(o.referrer.bytes@),
        states,
        cursor,
    )
}

/// The totals after borrow `b` (accrued to `acc_amt`) at its reserve
/// `reserve` (after the referral fees moved): its value, its value times
/// the borrow factor, the highest borrow factor among borrows worth at least
/// the market's minimal value for this check, the price checks all borrows
/// passed, the debt in a group, and the borrows and obsolete reserves.
pub open spec fn step_borrow_totals(
    acc: BorrowTotals,
    a: ReserveAccount,
    reserve: Reserve,
    market: LendingMarket,
    group: Option<ElevationGroup>,
    acc_amt: int,
) -> BorrowTotals {
    let mv = spec_market_value(reserve, acc_amt);
    let bf = spec_borrow_factor_f(reserve, group is Some);
    BorrowTotals {
        borrowed_assets: Fraction { bits: (acc.borrowed_assets.val() + mv) as u128 },
        bf_debt: Fraction { bits: (acc.bf_debt.val() + spec_mul(mv, bf)) as u128 },
        prices: acc.prices & (reserve.last_update.price_status & 63),
        highest_bf: if mv >= market.min_value_skip_liquidation_bf_checks * scale()
            && bf > acc.highest_bf.val() {
            Fraction { bits: bf as u128 }
        } else {
            acc.highest_bf
        },
        group_debt: (acc.group_debt + ceil_int(acc_amt)) as u64,
        num_borrows: (acc.num_borrows + 1) as u8,
        num_obsolete: if a.reserve.config.status == 1 {
            (acc.num_obsolete + 1) as u8
        } else {
            acc.num_obsolete
        },
    }
}

/// The totals of the borrows from slot `k` on, with account `j` next, the
/// referrers' token accounts and the position in them; or the first error.
#[verifier::opaque]
pub open spec fn borrows_fold(
    o: Obligation,
    bs: Seq<ObligationLiquidity>,
    accts: Seq<ReserveAccount>,
    market: LendingMarket,
    slot: u64,
    group: Option<ElevationGroup>,
    k: int,
    j: int,
    acc: BorrowTotals,
    states: Seq<ReferrerTokenAccount>,
    cursor: int,
) -> Result<(BorrowTotals, Seq<ReferrerTokenAccount>, int), LendingError>
    decreases bs.len() - k,
{
    if k >= bs.len() {
        Ok((acc, states, cursor))
    } else if !bs[k].spec_is_active() {
        borrows_fold(o, bs, accts, market, slot, group, k + 1, j, acc, states, cursor)
    } else if j >= accts.len() {
        Err(LendingError::InvalidAccountInput)
    } else if borrow_account_error(o, bs[k], accts[j], slot, group) is Some {
        Err(borrow_account_error(o, bs[k], accts[j], slot, group)->Some_0)
    } else {
        let acc_amt = spec_borrow_accrual(bs[k], reserve_borrow_rate(accts[j].reserve))->Ok_0;
        let (rr, reserve, states2, cursor2) = borrow_referral(
            o,
            bs[k],
            accts[j],
            market,
            slot,
            group,
            acc_amt,
            states,
            cursor,
        );
        if rr is Err {
            Err(rr->Err_0)
        } else {
            borrows_fold(
                o,
                bs,
                accts,
                market,
                slot,
                group,
                k + 1,
                j + 1,
                step_borrow_totals(acc, accts[j], reserve, market, group, acc_amt),
                states2,
                cursor2,
            )
        }
    }
}

/// The amounts of one borrow's step fit their machine types.
pub open spec fn borrow_step_computable(
    o: Obligation,
    acc: BorrowTotals,
    b: ObligationLiquidity,
    a: ReserveAccount,
    market: LendingMarket,
    slot: u64,
    group: Option<ElevationGroup>,
    states: Seq<ReferrerTokenAccount>,
    cursor: int,
) -> bool {
    let rate = reserve_borrow_rate(a.reserve);
    &&& rate > b.former_rate() ==> b.former_rate() > 0 && b.borrowed_amount_sf * rate < p256()
    &&& spec_borrow_accrual(b, rate) matches Ok(acc_amt) ==> {
        let amount = ceil_int(acc_amt);
        let counted_reserve = borrow_reserve_tracked(b, a.reserve, group, amount);
        let (rr, reserve, states2, cursor2) = borrow_referral(
            o,
            b,
            a,
            market,
            slot,
            group,
            acc_amt,
            states,
            cursor,
        );
        let mv = spec_market_value(reserve, acc_amt);
        let bf = spec_borrow_factor_f(reserve, group is Some);
        &&& amount <= u64::MAX
        &&& acc.group_debt + amount <= u64::MAX
        &&& group is None ==> sat_sub_u64(
            a.reserve.borrowed_amount_outside_elevation_group,
            b.borrowed_amount_outside_elevation_groups,
        ) + amount <= u64::MAX
        &&& slot >= o.last_update.slot ==> referrer_fee_computable(
            counted_reserve,
            market.referral_fee_bps,
            (slot - o.last_update.slot) as u64,
            acc_amt,
            b.borrowed_amount_sf as int,
            !is_default_key(o.referrer.bytes@),
            states,
            cursor,
        )
        &&& rr is Ok ==> {
            &&& market_value_computable(reserve, acc_amt)
            &&& acc.borrowed_assets.val() + mv <= u128::MAX
            &&& spec_mul(mv, bf) <= u128::MAX
            &&& acc.bf_debt.val() + spec_mul(mv, bf) <= u128::MAX
        }
    }
}

/// Every step the borrows' refresh takes from slot `k` on fits, and every
/// reserve it reads names its status.
#[verifier::opaque]
pub open spec fn borrows_fold_computable(
    o: Obligation,
    bs: Seq<ObligationLiquidity>,
    accts: Seq<ReserveAccount>,
    market: LendingMarket,
    slot: u64,
    group: Option<ElevationGroup>,
    k: int,
    j: int,
    acc: BorrowTotals,
    states: Seq<ReferrerTokenAccount>,
    cursor: int,
) -> bool
    decreases bs.len() - k,
{
    if k >= bs.len() {
        true
    } else if !bs[k].spec_is_active() {
        borrows_fold_computable(o, bs, accts, market, slot, group, k + 1, j, acc, states, cursor)
    } else if j >= accts.len() {
        true
    } else {
        &&& acc.num_borrows < 255
        &&& accts[j].reserve.config.status < 3
        &&& spec_slot_reserve_check(
            bs[k].borrow_reserve.bytes@ == accts[j].key.bytes@,
            accts[j].reserve.last_update,
            accts[j].reserve.version,
            slot,
        ) is Ok ==> borrow_step_computable(o, acc, bs[k], accts[j], market, slot, group, states, cursor)
        &&& borrow_account_error(o, bs[k], accts[j], slot, group) is None ==> {
            let acc_amt = spec_borrow_accrual(bs[k], reserve_borrow_rate(accts[j].reserve))->Ok_0;
            let (rr, reserve, states2, cursor2) = borrow_referral(
                o,
                bs[k],
                accts[j],
                market,
                slot,
                group,
                acc_amt,
                states,
                cursor,
            );
            rr is Ok ==> borrows_fold_computable(
                o,
                bs,
                accts,
                market,
                slot,
                group,
                k + 1,
                j + 1,
                step_borrow_totals(acc, accts[j], reserve, market, group, acc_amt),
                states2,
                cursor2,
            )
        }
    }
}

/// One step of the borrows' fold and of its computability, unfolded.
proof fn lemma_borrows_fold_step(
    o: Obligation,
    bs: Seq<ObligationLiquidity>,
    accts: Seq<ReserveAccount>,
    market: LendingMarket,
    slot: u64,
    group: Option<ElevationGroup>,
    k: int,
    j: int,
    acc: BorrowTotals,
    states: Seq<ReferrerTokenAccount>,
    cursor: int,
)
    ensures
        k >= bs.len() ==> borrows_fold(o, bs, accts, market, slot, group, k, j, acc, states, cursor)
            == Ok::<(BorrowTotals, Seq<ReferrerTokenAccount>, int), LendingError>(
            (acc, states, cursor),
        ),
        k < bs.len() && !bs[k].spec_is_active() ==> borrows_fold(
            o,
            bs,
            accts,
            market,
            slot,
            group,
            k,
            j,
            acc,
            states,
            cursor,
        ) == borrows_fold(o, bs, accts, market, slot, group, k + 1, j, acc, states, cursor)
            && (borrows_fold_computable(o, bs, accts, market, slot, group, k, j, acc, states, cursor)
            == borrows_fold_computable(
            o,
            bs,
            accts,
            market,
            slot,
            group,
            k + 1,
            j,
            acc,
            states,
            cursor,
        )),
        k < bs.len() && bs[k].spec_is_active() && j >= accts.len() ==> borrows_fold(
            o,
            bs,
            accts,
            market,
            slot,
            group,
            k,
            j,
            acc,
            states,
            cursor,
        ) == Err::<(BorrowTotals, Seq<ReferrerTokenAccount>, int), LendingError>(
            LendingError::InvalidAccountInput,
        ),
        k < bs.len() && bs[k].spec_is_active() && j < accts.len() ==> {
            &&& borrows_fold_computable(o, bs, accts, market, slot, group, k, j, acc, states, cursor)
                ==> {
                &&& acc.num_borrows < 255
                &&& accts[j].reserve.config.status < 3
                &&& spec_slot_reserve_check(
                    bs[k].borrow_reserve.bytes@ == accts[j].key.bytes@,
                    accts[j].reserve.last_update,
                    accts[j].reserve.version,
                    slot,
                ) is Ok ==> borrow_step_computable(
                    o,
                    acc,
                    bs[k],
                    accts[j],
                    market,
                    slot,
                    group,
                    states,
                    cursor,
                )
            }
            &&& borrow_account_error(o, bs[k], accts[j], slot, group) matches Some(e)
                ==> borrows_fold(o, bs, accts, market, slot, group, k, j, acc, states, cursor)
                == Err::<(BorrowTotals, Seq<ReferrerTokenAccount>, int), LendingError>(e)
            &&& borrow_account_error(o, bs[k], accts[j], slot, group) is None ==> {
                let acc_amt = spec_borrow_accrual(bs[k], reserve_borrow_rate(accts[j].reserve))->Ok_0;
                let (rr, reserve, states2, cursor2) = borrow_referral(
                    o,
                    bs[k],
                    accts[j],
                    market,
                    slot,
                    group,
                    acc_amt,
                    states,
                    cursor,
                );
                &&& rr matches Err(e) ==> borrows_fold(
                    o,
                    bs,
                    accts,
                    market,
                    slot,
                    group,
                    k,
                    j,
                    acc,
                    states,
                    cursor,
                ) == Err::<(BorrowTotals, Seq<ReferrerTokenAccount>, int), LendingError>(e)
                &&& rr is Ok ==> borrows_fold(
                    o,
                    bs,
                    accts,
                    market,
                    slot,
                    group,
                    k,
                    j,
                    acc,
                    states,
                    cursor,
                ) == borrows_fold(
                    o,
                    bs,
                    accts,
                    market,
                    slot,
                    group,
                    k + 1,
                    j + 1,
                    step_borrow_totals(acc, accts[j], reserve, market, group, acc_amt),
                    states2,
                    cursor2,
                ) && (borrows_fold_computable(
                    o,
                    bs,
                    accts,
                    market,
                    slot,
                    group,
                    k,
                    j,
                    acc,
                    states,
                    cursor,
                ) ==> borrows_fold_computable(
                    o,
                    bs,
                    accts,
                    market,
                    slot,
                    group,
                    k + 1,
                    j + 1,
                    step_borrow_totals(acc, accts[j], reserve, market, group, acc_amt),
                    states2,
                    cursor2,
                ))
            }
        },
{
    reveal_with_fuel(borrows_fold, 1);
    reveal_with_fuel(borrows_fold_computable, 1);
}

/// Borrow `b` once refreshed at account `a`: accrued to the reserve's rate,
/// outside groups with its debt outside groups counted afresh, and valued
/// at the reserve's price with and without the borrow factor.
pub open spec fn refreshed_borrow(
    b: ObligationLiquidity,
    a: ReserveAccount,
    reserve: Reserve,
    group: Option<ElevationGroup>,
    row: ObligationLiquidity,
) -> bool {
    let rate = reserve_borrow_rate(a.reserve);
    let acc_amt = spec_borrow_accrual(b, rate)->Ok_0;
    let mv = spec_market_value(reserve, acc_amt);
    &&& row == (ObligationLiquidity {
        borrowed_amount_sf: acc_amt as u128,
        cumulative_borrow_rate_bsf: row.cumulative_borrow_rate_bsf,
        borrowed_amount_outside_elevation_groups: if group is None {
            ceil_int(acc_amt) as u64
        } else {
            b.borrowed_amount_outside_elevation_groups
        },
        market_value_sf: mv as u128,
        borrow_factor_adjusted_market_value_sf: spec_mul(
            mv,
            spec_borrow_factor_f(reserve, group is Some),
        ) as u128,
        ..b
    })
    &&& rate > b.former_rate() ==> row.former_rate() == rate
        && row.cumulative_borrow_rate_bsf.padding == b.cumulative_borrow_rate_bsf.padding
    &&& rate <= b.former_rate() ==> row.cumulative_borrow_rate_bsf == b.cumulative_borrow_rate_bsf
}

/// The reserve of borrow `b` once its referral fees moved without error:
/// the fee leaves the pending referral fees for the referrers' fees when the
/// obligation has a referrer and the market pays referrers, for the
/// protocol's fees otherwise.
pub open spec fn referred_reserve(
    o: Obligation,
    b: ObligationLiquidity,
    a: ReserveAccount,
    market: LendingMarket,
    slot: u64,
    group: Option<ElevationGroup>,
    acc_amt: int,
) -> Reserve {
    let r0 = borrow_reserve_tracked(b, a.reserve, group, ceil_int(acc_amt));
    let slots = (slot - o.last_update.slot) as u64;
    let fee = capped_referrer_fee(r0, slots, acc_amt, b.borrowed_amount_sf as int);
    let referred = !is_default_key(o.referrer.bytes@) && market.referral_fee_bps > 0;
    if r0.liquidity.absolute_referral_rate_sf == 0 {
        r0
    } else {
        Reserve {
            liquidity: ReserveLiquidity {
                pending_referrer_fees_sf: (r0.liquidity.pending_referrer_fees_sf - fee) as u128,
                accumulated_referrer_fees_sf: if referred {
                    (r0.liquidity.accumulated_referrer_fees_sf + fee) as u128
                } else {
                    r0.liquidity.accumulated_referrer_fees_sf
                },
                accumulated_protocol_fees_sf: if referred {
                    r0.liquidity.accumulated_protocol_fees_sf
                } else {
                    (r0.liquidity.accumulated_protocol_fees_sf + fee) as u128
                },
                ..r0.liquidity
            },
            ..r0
        }
    }
}

proof fn lemma_referral_reserve(
    o: Obligation,
    b: ObligationLiquidity,
    a: ReserveAccount,
    market: LendingMarket,
    slot: u64,
    group: Option<ElevationGroup>,
    acc_amt: int,
    states: Seq<ReferrerTokenAccount>,
    cursor: int,
)
    requires
        borrow_referral(o, b, a, market, slot, group, acc_amt, states, cursor).0 is Ok,
    ensures
        borrow_referral(o, b, a, market, slot, group, acc_amt, states, cursor).1 == referred_reserve(
            o,
            b,
            a,
            market,
            slot,
            group,
            acc_amt,
        ),
{
}

/// Borrow slot `k` was refreshed: its row `row` and its reserve's account
/// `acct` are what its step makes of them.
#[verifier::opaque]
pub open spec fn borrow_slot_refreshed(
    o: Obligation,
    bs: Seq<ObligationLiquidity>,
    accts: Seq<ReserveAccount>,
    market: LendingMarket,
    slot: u64,
    group: Option<ElevationGroup>,
    k: int,
    row: ObligationLiquidity,
    acct: ReserveAccount,
) -> bool {
    let a = accts[borrow_rank(bs, k)];
    let acc_amt = spec_borrow_accrual(bs[k], reserve_borrow_rate(a.reserve))->Ok_0;
    let reserve = referred_reserve(o, bs[k], a, market, slot, group, acc_amt);
    &&& refreshed_borrow(bs[k], a, reserve, group, row)
    &&& acct == (ReserveAccount { reserve, ..a })
}

/// The result of a borrows' refresh with totals `t`, the highest borrow
/// factor given in percent.
pub open spec fn borrows_result(
    t: BorrowTotals,
    group: Option<ElevationGroup>,
    highest_pct: u64,
) -> RefreshObligationBorrowsResult {
    RefreshObligationBorrowsResult {
        borrow_factor_adjusted_debt_value_f: t.bf_debt,
        borrowed_assets_market_value_f: t.borrowed_assets,
        prices_state: PriceStatusFlags { bits: t.prices },
        highest_borrow_factor_pct: highest_pct,
        borrowed_amount_in_elevation_group: if group is Some {
            Some(t.group_debt)
        } else {
            None
        },
        num_of_obsolete_reserves: t.num_obsolete,
    }
}

/// Whether a group obligation has more than one borrow.
pub open spec fn several_group_borrows(group: Option<ElevationGroup>, t: BorrowTotals) -> bool {
    group is Some && t.num_borrows > 1
}

/// One borrow's step of the borrows' refresh: checks its account, accrues
/// it, counts it outside groups, moves its referral fees and values it.
/// Returns the refreshed borrow, its account and the totals.
#[verifier::rlimit(50)]
fn refresh_borrow_step(
    obligation: &Obligation,
    borrow: ObligationLiquidity,
    account: ReserveAccount,
    index: usize,
    lending_market: &LendingMarket,
    slot: u64,
    elevation_group: Option<&ElevationGroup>,
    acc: BorrowTotals,
    referrer_token_states: &mut Vec<ReferrerTokenAccount>,
    cursor: &mut usize,
) -> (r: Result<(ObligationLiquidity, ReserveAccount, BorrowTotals), LendingError>)
    requires
        acc.num_borrows < 255,
        acc.num_obsolete <= acc.num_borrows,
        account.reserve.config.status < 3,
        elevation_group matches Some(g) ==> 1 <= g.id <= 32,
        spec_slot_reserve_check(
            borrow.borrow_reserve.bytes@ == account.key.bytes@,
            account.reserve.last_update,
            account.reserve.version,
            slot,
        ) is Ok ==> borrow_step_computable(
            *obligation,
            acc,
            borrow,
            account,
            *lending_market,
            slot,
            group_of(elevation_group),
            old(referrer_token_states)@,
            *old(cursor) as int,
        ),
    ensures
        ({
            let group = group_of(elevation_group);
            match borrow_account_error(*obligation, borrow, account, slot, group) {
                Some(e) => r == Err::<(ObligationLiquidity, ReserveAccount, BorrowTotals), LendingError>(e),
                None => {
                    let acc_amt = spec_borrow_accrual(borrow, reserve_borrow_rate(account.reserve))->Ok_0;
                    let (rr, reserve, st2, c2) = borrow_referral(
                        *obligation,
                        borrow,
                        account,
                        *lending_market,
                        slot,
                        group,
                        acc_amt,
                        old(referrer_token_states)@,
                        *old(cursor) as int,
                    );
                    &&& rr matches Err(e) ==> r == Err::<
                        (ObligationLiquidity, ReserveAccount, BorrowTotals),
                        LendingError,
                    >(e)
                    &&& rr is Ok ==> {
                        &&& r is Ok
                        &&& refreshed_borrow(borrow, account, reserve, group, r->Ok_0.0)
                        &&& reserve == referred_reserve(
                            *obligation,
                            borrow,
                            account,
                            *lending_market,
                            slot,
                            group,
                            acc_amt,
                        )
                        &&& r->Ok_0.1 == (ReserveAccount { reserve, ..account })
                        &&& r->Ok_0.2 == step_borrow_totals(
                            acc,
                            account,
                            reserve,
                            *lending_market,
                            group,
                            acc_amt,
                        )
                        &&& final(referrer_token_states)@ == st2
                        &&& *final(cursor) == c2
                    }
                },
            }
        }),
{
    let ghost group = group_of(elevation_group);
    let mut account = account;
    let mut acc = acc;
    acc.num_borrows = acc.num_borrows + 1;
    if account.reserve.config.status() == crate::reserve::ReserveStatus::Obsolete {
        acc.num_obsolete = acc.num_obsolete + 1;
    }
    check_obligation_liquidity_borrow_reserve(&borrow, &account.reserve, account.key, index, slot)?;
    let cumulative_borrow_rate_bf = account.reserve.liquidity.cumulative_borrow_rate_bsf.to_big_fraction();
    let previous_borrowed_amount_f = Fraction::from_bits(borrow.borrowed_amount_sf);
    let mut row = borrow;
    row.accrue_interest(cumulative_borrow_rate_bf)?;
    let borrowed_amount_f = Fraction::from_bits(row.borrowed_amount_sf);
    let borrowed_amount = borrowed_amount_f.to_ceil();
    acc.group_debt = acc.group_debt + borrowed_amount;
    match elevation_group {
        Some(g) => {
            if !groups_contain(&account.reserve.config.elevation_groups, g.id) {
                return Err(LendingError::InconsistentElevationGroup);
            }
            if !account.key.key_eq(&g.debt_reserve) {
                return Err(LendingError::ElevationGroupHasAnotherDebtReserve);
            }
        },
        None => {
            account.reserve.borrowed_amount_outside_elevation_group =
                account.reserve.borrowed_amount_outside_elevation_group.saturating_sub(
                borrow.borrowed_amount_outside_elevation_groups,
            ) + borrowed_amount;
            row.borrowed_amount_outside_elevation_groups = borrowed_amount;
        },
    }
    let slots_elapsed = obligation.last_update.slots_elapsed(slot)?;
    let ghost states_before = referrer_token_states@;
    let ghost cursor_before = *cursor as int;
    accumulate_referrer_fees(
        account.key,
        &mut account.reserve,
        &obligation.referrer,
        lending_market.referral_fee_bps,
        slots_elapsed,
        borrowed_amount_f,
        previous_borrowed_amount_f,
        obligation.has_referrer(),
        referrer_token_states,
        cursor,
    )?;
    proof {
        lemma_referral_reserve(
            *obligation,
            borrow,
            ReserveAccount { key: account.key, ..account },
            *lending_market,
            slot,
            group,
            borrowed_amount_f.val(),
            states_before,
            cursor_before,
        );
    }
    let market_value_f = match calculate_obligation_liquidity_market_value(&account.reserve, &row) {
        Ok(v) => v,
        Err(e) => {
            return Err(e);
        },
    };
    row.market_value_sf = market_value_f.bits;
    acc.borrowed_assets = acc.borrowed_assets.add(market_value_f);
    let borrow_factor_f = account.reserve.borrow_factor_f(elevation_group.is_some());
    if market_value_f.bits >= Fraction::from_num(lending_market.min_value_skip_liquidation_bf_checks).bits
        && borrow_factor_f.bits > acc.highest_bf.bits {
        acc.highest_bf = borrow_factor_f;
    }
    let borrow_factor_adjusted_market_value = market_value_f.mul(borrow_factor_f);
    row.borrow_factor_adjusted_market_value_sf = borrow_factor_adjusted_market_value.bits;
    acc.bf_debt = acc.bf_debt.add(borrow_factor_adjusted_market_value);
    acc.prices = acc.prices & account.reserve.last_update.get_price_status().bits;
    Ok((row, account, acc))
}

/// Refreshes the obligation's borrows at `slot` against their reserves'
/// accounts (`reserves`, in the order of the borrows in use): each borrow is
/// accrued to its reserve's cumulative rate, counted afresh in its reserve's
/// debt outside groups (outside a group), has its referral fees moved (see
/// [`spec_referrer_fee_outcome`]; the referrers' token accounts are taken
/// from `referrer_token_states` at `cursor` on), and is valued at its
/// reserve's price with and without the borrow factor; the obligation is
/// marked as having debt. Returns the totals of [`step_borrow_totals`], the
/// highest borrow factor in percent, and the debt when in a group. Refused
/// at the first borrow without an account or with a refused one (see
/// [`borrow_account_error`]), when its referral fees cannot move, and in a
/// group with more than one borrow. On an error the accounts are left
/// partly updated, and the transaction that made the call fails.
#[verifier::rlimit(100)]
pub fn refresh_obligation_borrows(
    obligation: &mut Obligation,
    lending_market: &LendingMarket,
    slot: u64,
    elevation_group: Option<&ElevationGroup>,
    reserves: &mut Vec<ReserveAccount>,
    referrer_token_states: &mut Vec<ReferrerTokenAccount>,
    cursor: &mut usize,
) -> (r: Result<RefreshObligationBorrowsResult, LendingError>)
    requires
        borrows_fold_computable(
            *old(obligation),
            old(obligation).borrows@,
            old(reserves)@,
            *lending_market,
            slot,
            group_of(elevation_group),
            0,
            0,
            initial_borrow_totals(),
            old(referrer_token_states)@,
            *old(cursor) as int,
        ),
        elevation_group matches Some(g) ==> 1 <= g.id <= 32,
        borrows_fold(
            *old(obligation),
            old(obligation).borrows@,
            old(reserves)@,
            *lending_market,
            slot,
            group_of(elevation_group),
            0,
            0,
            initial_borrow_totals(),
            old(referrer_token_states)@,
            *old(cursor) as int,
        ) matches Ok((t, st, c)) ==> t.highest_bf.val() * 100 <= u128::MAX && round_int(
            t.highest_bf.val() * 100,
        ) * scale() <= u128::MAX && round_int(t.highest_bf.val() * 100) <= u64::MAX,
    ensures
        ({
            let bs = old(obligation).borrows@;
            let accts = old(reserves)@;
            let group = group_of(elevation_group);
            match borrows_fold(
                *old(obligation),
                bs,
                accts,
                *lending_market,
                slot,
                group,
                0,
                0,
                initial_borrow_totals(),
                old(referrer_token_states)@,
                *old(cursor) as int,
            ) {
                Err(e) => r == Err::<RefreshObligationBorrowsResult, LendingError>(e),
                Ok((t, st, c)) => {
                    &&& several_group_borrows(group, t) ==> r == Err::<
                        RefreshObligationBorrowsResult,
                        LendingError,
                    >(LendingError::InconsistentElevationGroup)
                    &&& !several_group_borrows(group, t) ==> r == Ok::<
                        RefreshObligationBorrowsResult,
                        LendingError,
                    >(borrows_result(t, group, round_int(t.highest_bf.val() * 100) as u64))
                    &&& final(referrer_token_states)@ == st
                    &&& *final(cursor) == c
                    &&& *final(obligation) == (Obligation {
                        borrows: final(obligation).borrows,
                        has_debt: if t.num_borrows > 0 {
                            1
                        } else {
                            old(obligation).has_debt
                        },
                        ..*old(obligation)
                    })
                    &&& forall|k: int|
                        0 <= k < 5 && !(#[trigger] bs[k]).spec_is_active()
                            ==> final(obligation).borrows@[k] == bs[k]
                    &&& forall|k: int|
                        0 <= k < 5 && (#[trigger] bs[k]).spec_is_active() ==> borrow_slot_refreshed(
                            *old(obligation),
                            bs,
                            accts,
                            *lending_market,
                            slot,
                            group,
                            k,
                            final(obligation).borrows@[k],
                            final(reserves)@[borrow_rank(bs, k)],
                        )
                    &&& final(reserves)@.len() == accts.len()
                    &&& forall|j: int|
                        borrow_rank(bs, 5) <= j < accts.len() ==> #[trigger] final(reserves)@[j]
                            == accts[j]
                }
            }
        }),
{
    let ghost o0 = *obligation;
    let ghost bs = old(obligation).borrows@;
    let ghost accts = old(reserves)@;
    let ghost group = group_of(elevation_group);
    let obligation_has_referrer = obligation.has_referrer();
    let mut acc = BorrowTotals {
        borrowed_assets: Fraction::zero(),
        bf_debt: Fraction::zero(),
        prices: 63,
        highest_bf: Fraction::one(),
        group_debt: 0,
        num_borrows: 0,
        num_obsolete: 0,
    };
    let mut k: usize = 0;
    let mut j: usize = 0;
    while k < 5
        invariant
            0 <= k <= 5,
            j == borrow_rank(bs, k as int),
            j <= accts.len(),
            bs == o0.borrows@,
            accts == old(reserves)@,
            group == group_of(elevation_group),
            o0 == *old(obligation),
            obligation_has_referrer == !is_default_key(o0.referrer.bytes@),
            elevation_group matches Some(g) ==> 1 <= g.id <= 32,
            borrows_fold(
                o0,
                bs,
                accts,
                *lending_market,
                slot,
                group,
                0,
                0,
                initial_borrow_totals(),
                old(referrer_token_states)@,
                *old(cursor) as int,
            ) == borrows_fold(
                o0,
                bs,
                accts,
                *lending_market,
                slot,
                group,
                k as int,
                j as int,
                acc,
                referrer_token_states@,
                *cursor as int,
            ),
            borrows_fold_computable(
                o0,
                bs,
                accts,
                *lending_market,
                slot,
                group,
                k as int,
                j as int,
                acc,
                referrer_token_states@,
                *cursor as int,
            ),
            *obligation == (Obligation {
                borrows: obligation.borrows,
                has_debt: if acc.num_borrows > 0 {
                    1
                } else {
                    o0.has_debt
                },
                ..o0
            }),
            acc.num_borrows == j,
            acc.num_obsolete <= j,
            forall|kk: int| k <= kk < 5 ==> #[trigger] obligation.borrows@[kk] == bs[kk],
            forall|kk: int|
                0 <= kk < k && !(#[trigger] bs[kk]).spec_is_active() ==> obligation.borrows@[kk]
                    == bs[kk],
            forall|kk: int|
                0 <= kk < k && (#[trigger] bs[kk]).spec_is_active() ==> borrow_slot_refreshed(
                    o0,
                    bs,
                    accts,
                    *lending_market,
                    slot,
                    group,
                    kk,
                    obligation.borrows@[kk],
                    reserves@[borrow_rank(bs, kk)],
                ),
            reserves@.len() == accts.len(),
            forall|jj: int| j <= jj < accts.len() ==> #[trigger] reserves@[jj] == accts[jj],
        decreases 5 - k,
    {
        proof {
            lemma_borrows_fold_step(
                o0,
                bs,
                accts,
                *lending_market,
                slot,
                group,
                k as int,
                j as int,
                acc,
                referrer_token_states@,
                *cursor as int,
            );
            lemma_borrow_rank_step(bs, k as int);
            assert forall|kk: int| 0 <= kk < k && (#[trigger] bs[kk]).spec_is_active() implies borrow_rank(
                bs,
                kk,
            ) < j by {
                lemma_borrow_rank_below(bs, kk, k as int);
            }
        }
        let borrow = obligation.borrows[k];
        if borrow.is_active() {
            if j >= reserves.len() {
                return Err(LendingError::InvalidAccountInput);
            }
            let account = reserves[j];
            let (row, account, new_acc) = refresh_borrow_step(
                obligation,
                borrow,
                account,
                k,
                lending_market,
                slot,
                elevation_group,
                acc,
                referrer_token_states,
                cursor,
            )?;
            acc = new_acc;
            obligation.has_debt = 1;
            obligation.borrows[k] = row;
            let ghost prev = reserves@;
            proof {
                assert(borrow_slot_refreshed(
                    o0,
                    bs,
                    accts,
                    *lending_market,
                    slot,
                    group,
                    k as int,
                    row,
                    account,
                )) by {
                    reveal(borrow_slot_refreshed);
                }
            }
            reserves.set(j, account);
            proof {
                assert forall|kk: int|
                    0 <= kk < k + 1 && (#[trigger] bs[kk]).spec_is_active() implies borrow_slot_refreshed(
                    o0,
                    bs,
                    accts,
                    *lending_market,
                    slot,
                    group,
                    kk,
                    obligation.borrows@[kk],
                    reserves@[borrow_rank(bs, kk)],
                ) by {
                    if kk < k {
                        lemma_borrow_rank_step(bs, kk);
                        assert(reserves@[borrow_rank(bs, kk)] == prev[borrow_rank(bs, kk)]);
                    }
                }
            }
            j = j + 1;
        }
        k = k + 1;
    }
    proof {
        lemma_borrows_fold_step(
            o0,
            bs,
            accts,
            *lending_market,
            slot,
            group,
            5,
            j as int,
            acc,
            referrer_token_states@,
            *cursor as int,
        );
    }
    if elevation_group.is_some() && acc.num_borrows > 1 {
        return Err(LendingError::InconsistentElevationGroup);
    }
    let highest_borrow_factor_pct = acc.highest_bf.to_percent().unwrap();
    Ok(
        RefreshObligationBorrowsResult {
            borrow_factor_adjusted_debt_value_f: acc.bf_debt,
            borrowed_assets_market_value_f: acc.borrowed_assets,
            prices_state: PriceStatusFlags { bits: acc.prices },
            highest_borrow_factor_pct,
            borrowed_amount_in_elevation_group: if elevation_group.is_some() {
                Some(acc.group_debt)
            } else {
                None
            },
            num_of_obsolete_reserves: acc.num_obsolete,
        },
    )
}

/// The obligation once refreshed with borrow totals `bt` (the highest borrow
/// factor `highest_pct` in percent) and deposit totals `dt`: its values,
/// the allowed borrow value capped by the market's global limit, the lowest
/// thresholds, the obsolete reserves, whether it may borrow outside groups,
/// and a refresh at `slot` with the price checks that all its reserves
/// passed.
pub open spec fn refreshed_obligation_totals(
    o: Obligation,
    market: LendingMarket,
    slot: u64,
    bt: BorrowTotals,
    highest_pct: u64,
    dt: DepositTotals,
) -> Obligation {
    Obligation {
        borrowed_assets_market_value_sf: bt.borrowed_assets.bits,
        deposited_value_sf: dt.deposited.bits,
        borrow_factor_adjusted_debt_value_sf: bt.bf_debt.bits,
        allowed_borrow_value_sf: if dt.allowed.val() <= market.global_allowed_borrow_value * scale() {
            dt.allowed.bits
        } else {
            (market.global_allowed_borrow_value * scale()) as u128
        },
        unhealthy_borrow_value_sf: dt.unhealthy.bits,
        lowest_reserve_deposit_liquidation_ltv: dt.lowest_liquidation_ltv as u64,
        lowest_reserve_deposit_max_ltv_pct: dt.lowest_max_ltv,
        num_of_obsolete_deposit_reserves: dt.num_obsolete,
        num_of_obsolete_borrow_reserves: bt.num_obsolete,
        borrowing_disabled: if dt.borrowing_disabled {
            1
        } else {
            0
        },
        highest_borrow_factor_pct: highest_pct,
        last_update: LastUpdate {
            slot,
            stale: 0,
            price_status: dt.prices & bt.prices,
            ..o.last_update
        },
        ..o
    }
}

/// Refreshes an obligation at `slot`: its borrows against `borrow_reserves`
/// (see [`refresh_obligation_borrows`], with the referrers' token accounts
/// taken in order from `referrer_token_states`), then its deposits against
/// `deposit_reserves` (see [`refresh_obligation_deposits`], in a group with
/// the borrows' debt), and records the totals (see
/// [`refreshed_obligation_totals`]). Refused for an invalid elevation group
/// and whenever either refresh is. On an error the accounts are left partly
/// updated, and the transaction that made the call fails.
pub fn refresh_obligation(
    obligation: &mut Obligation,
    lending_market: &LendingMarket,
    slot: u64,
    deposit_reserves: &mut Vec<ReserveAccount>,
    borrow_reserves: &mut Vec<ReserveAccount>,
    referrer_token_states: &mut Vec<ReferrerTokenAccount>,
) -> (r: Result<(), LendingError>)
    requires
        spec_operation_group(old(obligation).elevation_group, *lending_market) matches Ok(group) ==> {
            &&& group matches Some(g) ==> 1 <= g.id <= 32
            &&& borrows_fold_computable(
                *old(obligation),
                old(obligation).borrows@,
                old(borrow_reserves)@,
                *lending_market,
                slot,
                group,
                0,
                0,
                initial_borrow_totals(),
                old(referrer_token_states)@,
                0,
            )
            &&& borrows_fold(
                *old(obligation),
                old(obligation).borrows@,
                old(borrow_reserves)@,
                *lending_market,
                slot,
                group,
                0,
                0,
                initial_borrow_totals(),
                old(referrer_token_states)@,
                0,
            ) matches Ok((t, st, c)) ==> {
                &&& t.highest_bf.val() * 100 <= u128::MAX
                &&& round_int(t.highest_bf.val() * 100) * scale() <= u128::MAX
                &&& round_int(t.highest_bf.val() * 100) <= u64::MAX
                &&& deposits_fold_computable(
                    old(obligation).deposits@,
                    old(deposit_reserves)@,
                    *lending_market,
                    slot,
                    group,
                    if group is Some {
                        t.group_debt
                    } else {
                        0
                    },
                    0,
                    0,
                    initial_deposit_totals(),
                )
            }
        },
    ensures
        spec_operation_group(old(obligation).elevation_group, *lending_market) matches Err(e) ==> r
            == Err::<(), LendingError>(e) && *final(obligation) == *old(obligation),
        spec_operation_group(old(obligation).elevation_group, *lending_market) matches Ok(group)
            ==> ({
            let bs = old(obligation).borrows@;
            let d = old(obligation).deposits@;
            let bacc = old(borrow_reserves)@;
            let dacc = old(deposit_reserves)@;
            match borrows_fold(
                *old(obligation),
                bs,
                bacc,
                *lending_market,
                slot,
                group,
                0,
                0,
                initial_borrow_totals(),
                old(referrer_token_states)@,
                0,
            ) {
                Err(e) => r == Err::<(), LendingError>(e),
                Ok((bt, st, c)) => {
                    let debt = if group is Some {
                        bt.group_debt
                    } else {
                        0
                    };
                    let highest_pct = round_int(bt.highest_bf.val() * 100) as u64;
                    &&& several_group_borrows(group, bt) ==> r == Err::<(), LendingError>(
                        LendingError::InconsistentElevationGroup,
                    )
                    &&& !several_group_borrows(group, bt) ==> match deposits_fold(
                        d,
                        dacc,
                        *lending_market,
                        slot,
                        group,
                        0,
                        0,
                        initial_deposit_totals(),
                    ) {
                        Err(e) => r == Err::<(), LendingError>(e),
                        Ok(dt) => {
                            &&& over_collateral_limit(group, dt) ==> r == Err::<(), LendingError>(
                                LendingError::ObligationCollateralExceedsElevationGroupLimit,
                            )
                            &&& !over_collateral_limit(group, dt) ==> {
                                &&& r is Ok
                                &&& *final(obligation) == (Obligation {
                                    deposits: final(obligation).deposits,
                                    borrows: final(obligation).borrows,
                                    has_debt: if bt.num_borrows > 0 {
                                        1
                                    } else {
                                        old(obligation).has_debt
                                    },
                                    ..refreshed_obligation_totals(
                                        *old(obligation),
                                        *lending_market,
                                        slot,
                                        bt,
                                        highest_pct,
                                        dt,
                                    )
                                })
                                &&& final(referrer_token_states)@ == st
                                &&& forall|k: int|
                                    0 <= k < 5 && !(#[trigger] bs[k]).spec_is_active()
                                        ==> final(obligation).borrows@[k] == bs[k]
                                &&& forall|k: int|
                                    0 <= k < 5 && (#[trigger] bs[k]).spec_is_active()
                                        ==> borrow_slot_refreshed(
                                        *old(obligation),
                                        bs,
                                        bacc,
                                        *lending_market,
                                        slot,
                                        group,
                                        k,
                                        final(obligation).borrows@[k],
                                        final(borrow_reserves)@[borrow_rank(bs, k)],
                                    )
                                &&& final(borrow_reserves)@.len() == bacc.len()
                                &&& forall|j: int|
                                    borrow_rank(bs, 5) <= j < bacc.len()
                                        ==> #[trigger] final(borrow_reserves)@[j] == bacc[j]
                                &&& forall|k: int|
                                    0 <= k < 8 ==> #[trigger] final(obligation).deposits@[k] == if d[k].spec_is_active() {
                                        refreshed_deposit(d[k], dacc[active_rank(d, k)], group, debt)
                                    } else {
                                        d[k]
                                    }
                                &&& final(deposit_reserves)@.len() == dacc.len()
                                &&& forall|k: int|
                                    0 <= k < 8 && #[trigger] d[k].spec_is_active()
                                        ==> refreshed_deposit_account(
                                        d[k],
                                        dacc[active_rank(d, k)],
                                        group,
                                        debt,
                                        final(deposit_reserves)@[active_rank(d, k)],
                                    )
                                &&& forall|j: int|
                                    active_rank(d, 8) <= j < dacc.len()
                                        ==> #[trigger] final(deposit_reserves)@[j] == dacc[j]
                            }
                        },
                    }
                },
            }
        }),
{
    let elevation_group = get_elevation_group(obligation.elevation_group, lending_market)?;
    let mut cursor: usize = 0;
    let borrows = refresh_obligation_borrows(
        obligation,
        lending_market,
        slot,
        elevation_group,
        borrow_reserves,
        referrer_token_states,
        &mut cursor,
    )?;
    let deposits = refresh_obligation_deposits(
        obligation,
        lending_market,
        slot,
        elevation_group,
        deposit_reserves,
        borrows.borrowed_amount_in_elevation_group,
    )?;
    obligation.borrowed_assets_market_value_sf = borrows.borrowed_assets_market_value_f.bits;
    obligation.deposited_value_sf = deposits.deposited_value_f.bits;
    obligation.borrow_factor_adjusted_debt_value_sf = borrows.borrow_factor_adjusted_debt_value_f.bits;
    obligation.allowed_borrow_value_sf = deposits.allowed_borrow_value_f.min(
        Fraction::from_num(lending_market.global_allowed_borrow_value),
    ).bits;
    obligation.unhealthy_borrow_value_sf = deposits.unhealthy_borrow_value_f.bits;
    obligation.lowest_reserve_deposit_liquidation_ltv =
        deposits.lowest_deposit_liquidation_ltv_threshold_pct as u64;
    obligation.lowest_reserve_deposit_max_ltv_pct = deposits.lowest_deposit_max_ltv_pct;
    obligation.num_of_obsolete_deposit_reserves = deposits.num_of_obsolete_reserves;
    obligation.num_of_obsolete_borrow_reserves = borrows.num_of_obsolete_reserves;
    obligation.borrowing_disabled = if deposits.borrowing_disabled {
        1
    } else {
        0
    };
    obligation.highest_borrow_factor_pct = borrows.highest_borrow_factor_pct;
    let prices_state = deposits.prices_state.intersection(borrows.prices_state);
    obligation.last_update.update_slot(slot, Some(prices_state));
    Ok(())
}

} // verus!
