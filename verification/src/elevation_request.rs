//! Moving an obligation into another elevation group: its debts recorded
//! for the current group are released, its borrows and deposits are
//! refreshed under the new group, and the move must leave it healthy and
//! within the new group's limits.

use crate::error::LendingError;
use crate::fraction::round_int;
use crate::last_update::LastUpdate;
use crate::lending_market::{ElevationGroup, LendingMarket};
use crate::lending_operations::{marked_stale, ReferrerTokenAccount};
use crate::lending_utils::{
    active_rank, borrow_rank, check_elevation_group_borrow_limit_constraints,
    check_obligation_fully_refreshed_and_not_null, get_elevation_group, group_debt_released,
    reset_borrows_result, reset_borrows_steps, reset_deposits_result, reset_deposits_steps,
    reset_elevation_group_debts, sat_sub_u64, spec_borrow_limit_constraints,
    spec_fully_refreshed_check, spec_operation_group, ReserveAccount,
};
use crate::obligation::{Obligation, ObligationCollateral, ObligationLiquidity};
use crate::obligation_refresh::{
    group_of, borrow_slot_refreshed, borrows_fold, borrows_fold_computable, borrows_result,
    deposits_fold, deposits_fold_computable, deposits_result, initial_borrow_totals,
    initial_deposit_totals, over_collateral_limit, refresh_obligation_borrows,
    refresh_obligation_deposits, refreshed_deposit, refreshed_deposit_account,
    several_group_borrows,
};
use crate::pubkey::{is_default_key, Pubkey};
use crate::reserve::Reserve;
use crate::types::{RefreshObligationBorrowsResult, RefreshObligationDepositsResult};
use vstd::prelude::*;

verus! {

/// What releasing the debts recorded for `group` makes of the obligation
/// `o` and the deposit and borrow reserve accounts `dr` and `br` (as `no`,
/// `ndr` and `nbr`), and what it returns; see
/// [`reset_elevation_group_debts`].
pub open spec fn spec_reset_debts(
    o: Obligation,
    group: Option<ElevationGroup>,
    dr: Seq<ReserveAccount>,
    br: Seq<ReserveAccount>,
    no: Obligation,
    ndr: Seq<ReserveAccount>,
    nbr: Seq<ReserveAccount>,
    r: Result<(), LendingError>,
) -> bool {
    &&& (group matches Some(g) ==> ({
            let d = o.deposits@;
            let accts = dr;
            let gi = g.id - 1;
            let steps = reset_deposits_steps(d, accts, 0, 0);
            &&& r == reset_deposits_result(d, accts, 0, 0)
            &&& nbr == br
            &&& no == (Obligation {
                deposits: no.deposits,
                ..o
            })
            &&& forall|k: int|
                0 <= k < 8 ==> #[trigger] no.deposits@[k] == if d[k].spec_is_active()
                    && active_rank(d, k) < steps {
                    ObligationCollateral {
                        borrowed_amount_against_this_collateral_in_elevation_group: 0,
                        ..d[k]
                    }
                } else {
                    d[k]
                }
            &&& ndr.len() == accts.len()
            &&& forall|j: int|
                0 <= j < accts.len() ==> #[trigger] ndr[j] == if j < steps {
                    ReserveAccount {
                        reserve: Reserve {
                            borrowed_amounts_against_this_reserve_in_elevation_groups: ndr[j].reserve.borrowed_amounts_against_this_reserve_in_elevation_groups,
                            ..accts[j].reserve
                        },
                        ..accts[j]
                    }
                } else {
                    accts[j]
                }
            &&& forall|k: int|
                0 <= k < 8 && d[k].spec_is_active() && active_rank(d, k) < steps
                    ==> #[trigger] ndr[active_rank(d, k)].reserve.borrowed_amounts_against_this_reserve_in_elevation_groups@
                    == group_debt_released(
                    accts[active_rank(d, k)],
                    gi,
                    d[k].borrowed_amount_against_this_collateral_in_elevation_group,
                )
        }))
    &&& (group is None ==> ({
            let b = o.borrows@;
            let accts = br;
            let steps = reset_borrows_steps(b, accts, 0, 0);
            &&& r == reset_borrows_result(b, accts, 0, 0)
            &&& ndr == dr
            &&& no == (Obligation {
                borrows: no.borrows,
                ..o
            })
            &&& forall|k: int|
                0 <= k < 5 ==> #[trigger] no.borrows@[k] == if b[k].spec_is_active()
                    && borrow_rank(b, k) < steps {
                    ObligationLiquidity { borrowed_amount_outside_elevation_groups: 0, ..b[k] }
                } else {
                    b[k]
                }
            &&& nbr.len() == accts.len()
            &&& forall|j: int|
                0 <= j < accts.len() && j >= steps ==> #[trigger] nbr[j]
                    == accts[j]
            &&& forall|k: int|
                0 <= k < 5 && b[k].spec_is_active() && borrow_rank(b, k) < steps
                    ==> #[trigger] nbr[borrow_rank(b, k)] == (ReserveAccount {
                    reserve: Reserve {
                        borrowed_amount_outside_elevation_group: sat_sub_u64(
                            accts[borrow_rank(b, k)].reserve.borrowed_amount_outside_elevation_group,
                            b[k].borrowed_amount_outside_elevation_groups,
                        ),
                        ..accts[borrow_rank(b, k)].reserve
                    },
                    ..accts[borrow_rank(b, k)]
                })
        }))
}

/// What refreshing the borrows under `group` makes of the obligation, the
/// borrow reserve accounts, the referrers' token accounts and the cursor
/// into them, and what it returns; see [`refresh_obligation_borrows`].
pub open spec fn spec_refresh_borrows(
    o: Obligation,
    market: LendingMarket,
    slot: u64,
    group: Option<ElevationGroup>,
    accts0: Seq<ReserveAccount>,
    states: Seq<ReferrerTokenAccount>,
    cursor: int,
    no: Obligation,
    naccts: Seq<ReserveAccount>,
    nstates: Seq<ReferrerTokenAccount>,
    ncursor: int,
    r: Result<RefreshObligationBorrowsResult, LendingError>,
) -> bool {
    &&& (({
            let bs = o.borrows@;
            let accts = accts0;
            match borrows_fold(
                o,
                bs,
                accts,
                market,
                slot,
                group,
                0,
                0,
                initial_borrow_totals(),
                states,
                cursor,
            ) {
                Err(e) => r == Err::<RefreshObligationBorrowsResult, LendingError>(e),
                Ok((t, st, c)) => {
                    &&& several_group_borrows(group, t) ==> r == Err::<
                        RefreshObligationBorrowsResult,
                        LendingError,
                    >(LendingError::InconsistentElevationGroup)
                    &&& !several_group_borrows(group, t) ==> r == Ok::<
                        RefreshObligationBorrowsResult,
                        LendingError,
                    >(borrows_result(t, group, round_int(t.highest_bf.val() * 100) as u64))
                    &&& nstates == st
                    &&& ncursor == c
                    &&& no == (Obligation {
                        borrows: no.borrows,
                        has_debt: if t.num_borrows > 0 {
                            1
                        } else {
                            o.has_debt
                        },
                        ..o
                    })
                    &&& forall|k: int|
                        0 <= k < 5 && !(#[trigger] bs[k]).spec_is_active()
                            ==> no.borrows@[k] == bs[k]
                    &&& forall|k: int|
                        0 <= k < 5 && (#[trigger] bs[k]).spec_is_active() ==> borrow_slot_refreshed(
                            o,
                            bs,
                            accts,
                            market,
                            slot,
                            group,
                            k,
                            no.borrows@[k],
                            naccts[borrow_rank(bs, k)],
                        )
                    &&& naccts.len() == accts.len()
                    &&& forall|j: int|
                        borrow_rank(bs, 5) <= j < accts.len() ==> #[trigger] naccts[j]
                            == accts[j]
                }
            }
        }))
}

/// What refreshing the deposits under `group`, with the group's debt
/// `borrowed`, makes of the obligation and the deposit reserve accounts,
/// and what it returns; see [`refresh_obligation_deposits`].
pub open spec fn spec_refresh_deposits(
    o: Obligation,
    market: LendingMarket,
    slot: u64,
    group: Option<ElevationGroup>,
    accts0: Seq<ReserveAccount>,
    borrowed: Option<u64>,
    no: Obligation,
    naccts: Seq<ReserveAccount>,
    r: Result<RefreshObligationDepositsResult, LendingError>,
) -> bool {
    &&& (({
            let d = o.deposits@;
            let accts = accts0;
            let debt = match borrowed {
                Some(t) => t,
                None => 0,
            };
            match deposits_fold(d, accts, market, slot, group, 0, 0, initial_deposit_totals()) {
                Err(e) => r == Err::<RefreshObligationDepositsResult, LendingError>(e),
                Ok(t) => {
                    &&& over_collateral_limit(group, t) ==> r == Err::<
                        RefreshObligationDepositsResult,
                        LendingError,
                    >(LendingError::ObligationCollateralExceedsElevationGroupLimit)
                    &&& !over_collateral_limit(group, t) ==> r == Ok::<
                        RefreshObligationDepositsResult,
                        LendingError,
                    >(
                        deposits_result(t),
                    )
                    &&& no == (Obligation {
                        deposits: no.deposits,
                        ..o
                    })
                    &&& forall|k: int|
                        0 <= k < 8 ==> #[trigger] no.deposits@[k] == if d[k].spec_is_active() {
                            refreshed_deposit(d[k], accts[active_rank(d, k)], group, debt)
                        } else {
                            d[k]
                        }
                    &&& naccts.len() == accts.len()
                    &&& forall|k: int|
                        0 <= k < 8 && #[trigger] d[k].spec_is_active() ==> refreshed_deposit_account(
                            d[k],
                            accts[active_rank(d, k)],
                            group,
                            debt,
                            naccts[active_rank(d, k)],
                        )
                    &&& forall|j: int|
                        active_rank(d, 8) <= j < accts.len() ==> #[trigger] naccts[j]
                            == accts[j]
                }
            }
        }))
}

/// Why the group an obligation moves into refuses it, if it does: it must
/// allow new loans, name a debt reserve, and allow some collateral.
pub open spec fn new_group_error(g: Option<ElevationGroup>) -> Option<LendingError> {
    match g {
        None => None,
        Some(g) => if g.allow_new_loans == 0 {
            Some(LendingError::ElevationGroupNewLoansDisabled)
        } else if is_default_key(g.debt_reserve.bytes@) {
            Some(LendingError::ElevationGroupWithoutDebtReserve)
        } else if g.max_reserves_as_collateral == 0 {
            Some(LendingError::ElevationGroupMaxCollateralReserveZero)
        } else {
            None
        },
    }
}

/// The obligation moved into group `new_id`, marked stale.
pub open spec fn moved_into(o: Obligation, new_id: u8) -> Obligation {
    Obligation { elevation_group: new_id, last_update: marked_stale(o.last_update), ..o }
}

/// The stages of a move into group `new_id` once the current group `cur`
/// is known: the debts recorded for it are released (giving `o1`, `d1`,
/// `b1`, `r1`), the new group is checked, the borrows are refreshed under it
/// (giving `o2`, `b2`, `st2`, `c2`, `r2`), then the deposits (giving `o3`,
/// `d3`, `r3`); the obligation must then be healthy under the new group, is
/// moved into it, and must keep within its limits. The first error stops
/// the move with the accounts as they then are.
pub open spec fn elevation_request_stages(
    o: Obligation,
    market: LendingMarket,
    slot: u64,
    new_id: u8,
    cur: Option<ElevationGroup>,
    d: Seq<ReserveAccount>,
    b: Seq<ReserveAccount>,
    st: Seq<ReferrerTokenAccount>,
    o1: Obligation,
    d1: Seq<ReserveAccount>,
    b1: Seq<ReserveAccount>,
    r1: Result<(), LendingError>,
    o2: Obligation,
    b2: Seq<ReserveAccount>,
    st2: Seq<ReferrerTokenAccount>,
    c2: int,
    r2: Result<RefreshObligationBorrowsResult, LendingError>,
    o3: Obligation,
    d3: Seq<ReserveAccount>,
    r3: Result<RefreshObligationDepositsResult, LendingError>,
    of: Obligation,
    df: Seq<ReserveAccount>,
    bf: Seq<ReserveAccount>,
    stf: Seq<ReferrerTokenAccount>,
    r: Result<(), LendingError>,
) -> bool {
    &&& spec_reset_debts(o, cur, d, b, o1, d1, b1, r1)
    &&& match r1 {
        Err(e) => r == Err::<(), LendingError>(e) && of == o1 && df == d1 && bf == b1 && stf == st,
        Ok(_) => match spec_operation_group(new_id, market) {
            Err(e) => r == Err::<(), LendingError>(e) && of == o1 && df == d1 && bf == b1 && stf
                == st,
            Ok(g) => match new_group_error(g) {
                Some(e) => r == Err::<(), LendingError>(e) && of == o1 && df == d1 && bf == b1
                    && stf == st,
                None => {
                    &&& spec_refresh_borrows(o1, market, slot, g, b1, st, 0, o2, b2, st2, c2, r2)
                    &&& match r2 {
                        Err(e) => r == Err::<(), LendingError>(e) && of == o2 && df == d1 && bf
                            == b2 && stf == st2,
                        Ok(br) => {
                            &&& spec_refresh_deposits(
                                o2,
                                market,
                                slot,
                                g,
                                d1,
                                br.borrowed_amount_in_elevation_group,
                                o3,
                                d3,
                                r3,
                            )
                            &&& df == d3
                            &&& bf == b2
                            &&& stf == st2
                            &&& match r3 {
                                Err(e) => r == Err::<(), LendingError>(e) && of == o3,
                                Ok(dr) => if dr.allowed_borrow_value_f.val()
                                    < br.borrow_factor_adjusted_debt_value_f.val() {
                                    r == Err::<(), LendingError>(
                                        LendingError::UnhealthyElevationGroupLtv,
                                    ) && of == o3
                                } else {
                                    of == moved_into(o3, new_id) && r
                                        == spec_borrow_limit_constraints(
                                        moved_into(o3, new_id),
                                        g,
                                        d3,
                                        b2,
                                    )
                                },
                            }
                        },
                    }
                },
            },
        },
    }
}

/// What moving an obligation into group `new_id` makes of it and of the
/// deposit, borrow and referrer token accounts, and what it returns: refused,
/// with nothing changed, for an obligation not fully refreshed (see
/// [`spec_fully_refreshed_check`]), already in that group, or in an invalid
/// group; else it goes through [`elevation_request_stages`].
pub open spec fn spec_request_elevation_group(
    o: Obligation,
    market: LendingMarket,
    slot: u64,
    new_id: u8,
    d: Seq<ReserveAccount>,
    b: Seq<ReserveAccount>,
    st: Seq<ReferrerTokenAccount>,
    of: Obligation,
    df: Seq<ReserveAccount>,
    bf: Seq<ReserveAccount>,
    stf: Seq<ReferrerTokenAccount>,
    r: Result<(), LendingError>,
) -> bool {
    let unchanged = of == o && df == d && bf == b && stf == st;
    if spec_fully_refreshed_check(o, slot) is Err {
        r == spec_fully_refreshed_check(o, slot) && unchanged
    } else if o.elevation_group == new_id {
        r == Err::<(), LendingError>(LendingError::ElevationGroupAlreadyActivated) && unchanged
    } else {
        match spec_operation_group(o.elevation_group, market) {
            Err(e) => r == Err::<(), LendingError>(e) && unchanged,
            Ok(cur) => exists|
                o1: Obligation,
                d1: Seq<ReserveAccount>,
                b1: Seq<ReserveAccount>,
                r1: Result<(), LendingError>,
                o2: Obligation,
                b2: Seq<ReserveAccount>,
                st2: Seq<ReferrerTokenAccount>,
                c2: int,
                r2: Result<RefreshObligationBorrowsResult, LendingError>,
                o3: Obligation,
                d3: Seq<ReserveAccount>,
                r3: Result<RefreshObligationDepositsResult, LendingError>,
            |
                #[trigger] elevation_request_stages(
                    o,
                    market,
                    slot,
                    new_id,
                    cur,
                    d,
                    b,
                    st,
                    o1,
                    d1,
                    b1,
                    r1,
                    o2,
                    b2,
                    st2,
                    c2,
                    r2,
                    o3,
                    d3,
                    r3,
                    of,
                    df,
                    bf,
                    stf,
                    r,
                ),
        }
    }
}

/// The refreshes of a move into group `new_id` can be computed, whatever
/// the release of the current group's debts makes of the accounts.
pub open spec fn elevation_request_computable(
    o: Obligation,
    market: LendingMarket,
    slot: u64,
    new_id: u8,
    d: Seq<ReserveAccount>,
    b: Seq<ReserveAccount>,
    st: Seq<ReferrerTokenAccount>,
) -> bool {
    spec_fully_refreshed_check(o, slot) is Ok && o.elevation_group != new_id ==> match spec_operation_group(
        o.elevation_group,
        market,
    ) {
        Err(_) => true,
        Ok(cur) => {
            &&& cur matches Some(gc) ==> 1 <= gc.id <= 32
            &&& spec_operation_group(new_id, market) matches Ok(g) ==> (new_group_error(g) is None
                ==> {
                &&& g matches Some(gg) ==> 1 <= gg.id <= 32
                &&& forall|
                    o1: Obligation,
                    d1: Seq<ReserveAccount>,
                    b1: Seq<ReserveAccount>,
                    r1: Result<(), LendingError>,
                |
                    #[trigger] spec_reset_debts(o, cur, d, b, o1, d1, b1, r1) && r1 is Ok ==> {
                        &&& borrows_fold_computable(
                            o1,
                            o1.borrows@,
                            b1,
                            market,
                            slot,
                            g,
                            0,
                            0,
                            initial_borrow_totals(),
                            st,
                            0,
                        )
                        &&& borrows_fold(
                            o1,
                            o1.borrows@,
                            b1,
                            market,
                            slot,
                            g,
                            0,
                            0,
                            initial_borrow_totals(),
                            st,
                            0,
                        ) matches Ok((t, s, c)) ==> t.highest_bf.val() * 100 <= u128::MAX
                            && round_int(t.highest_bf.val() * 100) * crate::fraction::scale()
                            <= u128::MAX && round_int(t.highest_bf.val() * 100) <= u64::MAX
                        &&& forall|
                            o2: Obligation,
                            b2: Seq<ReserveAccount>,
                            st2: Seq<ReferrerTokenAccount>,
                            c2: int,
                            res: RefreshObligationBorrowsResult,
                        |
                            #[trigger] spec_refresh_borrows(
                                o1,
                                market,
                                slot,
                                g,
                                b1,
                                st,
                                0,
                                o2,
                                b2,
                                st2,
                                c2,
                                Ok(res),
                            ) ==> deposits_fold_computable(
                                o2.deposits@,
                                d1,
                                market,
                                slot,
                                g,
                                match res.borrowed_amount_in_elevation_group {
                                    Some(t) => t,
                                    None => 0,
                                },
                                0,
                                0,
                                initial_deposit_totals(),
                            )
                    }
            })
        },
    }
}

/// Moves an obligation into elevation group `new_elevation_group` (or out
/// of any, for the null group); see [`spec_request_elevation_group`]. The
/// deposit and borrow reserve accounts are those of the obligation's
/// deposits and borrows in use, in order; the referrers' token accounts
/// are taken in order as the borrows' referral fees move.
#[verifier::rlimit(60)]
#[verifier::spinoff_prover]
pub fn request_elevation_group(
    obligation: &mut Obligation,
    lending_market: &LendingMarket,
    slot: u64,
    new_elevation_group: u8,
    deposit_reserves: &mut Vec<ReserveAccount>,
    borrow_reserves: &mut Vec<ReserveAccount>,
    referrer_token_states: &mut Vec<ReferrerTokenAccount>,
) -> (r: Result<(), LendingError>)
    requires
        elevation_request_computable(
            *old(obligation),
            *lending_market,
            slot,
            new_elevation_group,
            old(deposit_reserves)@,
            old(borrow_reserves)@,
            old(referrer_token_states)@,
        ),
    ensures
        spec_request_elevation_group(
            *old(obligation),
            *lending_market,
            slot,
            new_elevation_group,
            old(deposit_reserves)@,
            old(borrow_reserves)@,
            old(referrer_token_states)@,
            *final(obligation),
            final(deposit_reserves)@,
            final(borrow_reserves)@,
            final(referrer_token_states)@,
            r,
        ),
{
    let ghost o0 = *obligation;
    let ghost d0 = deposit_reserves@;
    let ghost b0 = borrow_reserves@;
    let ghost st0 = referrer_token_states@;
    check_obligation_fully_refreshed_and_not_null(obligation, slot)?;
    if obligation.elevation_group == new_elevation_group {
        return Err(LendingError::ElevationGroupAlreadyActivated);
    }
    let current = get_elevation_group(obligation.elevation_group, lending_market)?;
    let ghost cur = group_of(current);
    let r1 = reset_elevation_group_debts(obligation, current, deposit_reserves, borrow_reserves);
    let ghost o1 = *obligation;
    let ghost d1 = deposit_reserves@;
    let ghost b1 = borrow_reserves@;
    assert(spec_reset_debts(o0, cur, d0, b0, o1, d1, b1, r1));
    match r1 {
        Ok(()) => {},
        Err(e) => {
            assert(elevation_request_stages(o0, *lending_market, slot, new_elevation_group, cur, d0, b0, st0, o1, d1, b1, r1, o1, b1, st0, 0, Err(e), o1, d1, Err(e), o1, d1, b1, st0, Err(e)));
            return Err(e);
        },
    }
    let elevation_group = match get_elevation_group(new_elevation_group, lending_market) {
        Ok(g) => g,
        Err(e) => {
            assert(elevation_request_stages(o0, *lending_market, slot, new_elevation_group, cur, d0, b0, st0, o1, d1, b1, r1, o1, b1, st0, 0, Err(e), o1, d1, Err(e), o1, d1, b1, st0, Err(e)));
            return Err(e);
        },
    };
    let ghost g = group_of(elevation_group);
    let group_error = match elevation_group {
        Some(eg) => {
            if eg.new_loans_disabled() {
                Some(LendingError::ElevationGroupNewLoansDisabled)
            } else if eg.debt_reserve.key_eq(&Pubkey::default_key()) {
                Some(LendingError::ElevationGroupWithoutDebtReserve)
            } else if eg.max_reserves_as_collateral == 0 {
                Some(LendingError::ElevationGroupMaxCollateralReserveZero)
            } else {
                None
            }
        },
        None => None,
    };
    assert(group_error == new_group_error(g));
    if let Some(e) = group_error {
        assert(elevation_request_stages(o0, *lending_market, slot, new_elevation_group, cur, d0, b0, st0, o1, d1, b1, r1, o1, b1, st0, 0, Err(e), o1, d1, Err(e), o1, d1, b1, st0, Err(e)));
        return Err(e);
    }
    proof {
        assert(spec_fully_refreshed_check(o0, slot) is Ok);
        assert(spec_operation_group(o0.elevation_group, *lending_market) == Ok::<
            Option<ElevationGroup>,
            LendingError,
        >(cur));
        assert(spec_operation_group(new_elevation_group, *lending_market) == Ok::<
            Option<ElevationGroup>,
            LendingError,
        >(g));
        assert(spec_reset_debts(o0, cur, d0, b0, o1, d1, b1, r1));
    }
    let mut cursor: usize = 0;
    let r2 = refresh_obligation_borrows(
        obligation,
        lending_market,
        slot,
        elevation_group,
        borrow_reserves,
        referrer_token_states,
        &mut cursor,
    );
    let ghost o2 = *obligation;
    let ghost b2 = borrow_reserves@;
    let ghost st2 = referrer_token_states@;
    let ghost c2 = cursor as int;
    assert(spec_refresh_borrows(o1, *lending_market, slot, g, b1, st0, 0, o2, b2, st2, c2, r2));
    let borrows = match r2 {
        Ok(res) => res,
        Err(e) => {
            assert(elevation_request_stages(o0, *lending_market, slot, new_elevation_group, cur, d0, b0, st0, o1, d1, b1, r1, o2, b2, st2, c2, r2, o2, d1, Err(e), o2, d1, b2, st2, Err(e)));
            return Err(e);
        },
    };
    proof {
        assert(spec_refresh_borrows(o1, *lending_market, slot, g, b1, st0, 0, o2, b2, st2, c2, Ok(borrows)));
    }
    let r3 = refresh_obligation_deposits(
        obligation,
        lending_market,
        slot,
        elevation_group,
        deposit_reserves,
        borrows.borrowed_amount_in_elevation_group,
    );
    let ghost o3 = *obligation;
    let ghost d3 = deposit_reserves@;
    assert(spec_refresh_deposits(o2, *lending_market, slot, g, d1, borrows.borrowed_amount_in_elevation_group, o3, d3, r3));
    let deposits = match r3 {
        Ok(res) => res,
        Err(e) => {
            assert(elevation_request_stages(o0, *lending_market, slot, new_elevation_group, cur, d0, b0, st0, o1, d1, b1, r1, o2, b2, st2, c2, r2, o3, d3, r3, o3, d3, b2, st2, Err(e)));
            return Err(e);
        },
    };
    if deposits.allowed_borrow_value_f.bits < borrows.borrow_factor_adjusted_debt_value_f.bits {
        assert(elevation_request_stages(o0, *lending_market, slot, new_elevation_group, cur, d0, b0, st0, o1, d1, b1, r1, o2, b2, st2, c2, r2, o3, d3, r3, o3, d3, b2, st2, Err(LendingError::UnhealthyElevationGroupLtv)));
        return Err(LendingError::UnhealthyElevationGroupLtv);
    }
    obligation.elevation_group = new_elevation_group;
    obligation.last_update.mark_stale();
    assert(*obligation == moved_into(o3, new_elevation_group));
    let r = check_elevation_group_borrow_limit_constraints(
        obligation,
        elevation_group,
        deposit_reserves.as_slice(),
        borrow_reserves.as_slice(),
    );
    assert(elevation_request_stages(o0, *lending_market, slot, new_elevation_group, cur, d0, b0, st0, o1, d1, b1, r1, o2, b2, st2, c2, r2, o3, d3, r3, *obligation, d3, b2, st2, r));
    r
}

} // verus!
