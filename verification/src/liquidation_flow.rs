//! Liquidating an unhealthy obligation: the liquidator repays part of a
//! borrow and seizes collateral with a bonus.

use crate::consts::ELEVATION_GROUP_NONE;
use crate::error::LendingError;
use crate::fraction::floor_int;
use crate::last_update::LastUpdate;
use crate::laws::law_liquidation_within_bounds;
use crate::lending_market::LendingMarket;
use crate::lending_utils::{
    assert_obligation_liquidatable, get_elevation_group, get_max_ltv_and_liquidation_threshold,
    repay_and_withdraw_from_obligation_post_liquidation, spec_full_withdraw_trackers,
    spec_liquidatable_check, spec_operation_group, spec_post_liquidation, spec_repaid_liquidity,
    spec_repay_trackers, update_elevation_group_debt_trackers_on_full_withdraw,
    update_elevation_group_debt_trackers_on_repay, DebtTrackerError, ReserveAccount,
};
use crate::liquidation_operations::{
    calculate_liquidation, liquidation_computable, min_int, spec_calculate_liquidation,
};
use crate::obligation::{same_key, Obligation};
use crate::obligation_refresh::deposit_ltvs;
use crate::pubkey::Pubkey;
use crate::reserve::{spec_exchange_rate, spec_l2c_amount_frac, supply_computable, Reserve};
use crate::reserve_operations::{refresh_reserve, spec_saved_price_age_valid};
use crate::types::{CalculateLiquidationResult, LiquidateObligationResult};
use crate::wide::p128;
use vstd::prelude::*;

verus! {

/// The slot of the obligation's borrow of `reserve`.
pub open spec fn borrow_slot_of(o: Obligation, reserve: Pubkey) -> int {
    choose|i: int| o.is_first_borrow_of(reserve, i)
}

/// The slot of the obligation's deposit of `reserve`.
pub open spec fn deposit_slot_of(o: Obligation, reserve: Pubkey) -> int {
    choose|i: int| o.is_first_deposit_of(reserve, i)
}

/// The borrow slot found for a reserve is the one [`borrow_slot_of`] names.
pub proof fn lemma_borrow_slot_of(o: Obligation, reserve: Pubkey, i: int)
    requires
        o.is_first_borrow_of(reserve, i),
    ensures
        borrow_slot_of(o, reserve) == i,
{
    let c = borrow_slot_of(o, reserve);
    assert(o.is_first_borrow_of(reserve, c));
    if c < i {
        assert(!same_key(o.borrows@[c].borrow_reserve, reserve));
    } else if c > i {
        assert(!same_key(o.borrows@[i].borrow_reserve, reserve));
    }
}

/// The deposit slot found for a reserve is the one [`deposit_slot_of`]
/// names.
pub proof fn lemma_deposit_slot_of(o: Obligation, reserve: Pubkey, i: int)
    requires
        o.is_first_deposit_of(reserve, i),
    ensures
        deposit_slot_of(o, reserve) == i,
{
    let c = deposit_slot_of(o, reserve);
    assert(o.is_first_deposit_of(reserve, c));
    if c < i {
        assert(!same_key(o.deposits@[c].deposit_reserve, reserve));
    } else if c > i {
        assert(!same_key(o.deposits@[i].deposit_reserve, reserve));
    }
}

/// Why a liquidation is refused before its amounts are computed: a
/// collateral reserve without LTV or liquidation threshold, an obligation
/// not liquidatable as such (see [`spec_liquidatable_check`]), no borrow of
/// the repaid reserve or one without value, no deposit of the collateral
/// reserve or one without value, or an invalid elevation group.
pub open spec fn spec_liquidation_check(
    market: LendingMarket,
    repay: ReserveAccount,
    withdraw: ReserveAccount,
    o: Obligation,
    slot: u64,
    liquidity_amount: u64,
) -> Option<LendingError> {
    if withdraw.reserve.config.loan_to_value_pct == 0
        || withdraw.reserve.config.liquidation_threshold_pct == 0 {
        Some(LendingError::CollateralNonLiquidatable)
    } else if spec_liquidatable_check(repay.reserve, withdraw.reserve, o, liquidity_amount, slot) is Err {
        Some(spec_liquidatable_check(repay.reserve, withdraw.reserve, o, liquidity_amount, slot)->Err_0)
    } else if o.no_active_borrows() {
        Some(LendingError::ObligationBorrowsEmpty)
    } else if !o.has_borrow_of(repay.key) {
        Some(LendingError::InvalidObligationLiquidity)
    } else if o.borrows@[borrow_slot_of(o, repay.key)].borrow_factor_adjusted_market_value_sf == 0 {
        Some(LendingError::ObligationLiquidityEmpty)
    } else if o.no_active_deposits() {
        Some(LendingError::ObligationDepositsEmpty)
    } else if !o.has_deposit_of(withdraw.key) {
        Some(LendingError::InvalidObligationCollateral)
    } else if o.deposits@[deposit_slot_of(o, withdraw.key)].market_value_sf == 0 {
        Some(LendingError::ObligationCollateralEmpty)
    } else if spec_operation_group(o.elevation_group, market) is Err {
        Some(spec_operation_group(o.elevation_group, market)->Err_0)
    } else {
        None
    }
}

/// Whether the repaid reserve has a borrow factor at least the highest of
/// the obligation's borrows.
pub open spec fn debt_reserve_has_highest_borrow_factor(repay: ReserveAccount, o: Obligation) -> bool {
    repay.reserve.config.borrow_factor_pct >= o.highest_borrow_factor_pct
}

/// Whether the collateral reserve's liquidation threshold (its group's in a
/// group) is the lowest of the obligation's deposits.
pub open spec fn collateral_reserve_has_lowest_threshold(
    market: LendingMarket,
    withdraw: ReserveAccount,
    o: Obligation,
) -> bool {
    deposit_ltvs(withdraw.reserve, spec_operation_group(o.elevation_group, market)->Ok_0).1
        <= o.lowest_reserve_deposit_liquidation_ltv
}

/// The amounts of the liquidation, or why it is refused; see
/// [`spec_calculate_liquidation`].
pub open spec fn spec_liquidation_amounts(
    market: LendingMarket,
    repay: ReserveAccount,
    withdraw: ReserveAccount,
    o: Obligation,
    timestamp: u64,
    liquidity_amount: u64,
    max_allowed_ltv_override_pct_opt: Option<u64>,
) -> Result<CalculateLiquidationResult, LendingError> {
    spec_calculate_liquidation(
        withdraw.reserve,
        repay.reserve,
        liquidity_amount,
        market,
        o,
        o.borrows@[borrow_slot_of(o, repay.key)],
        o.deposits@[deposit_slot_of(o, withdraw.key)],
        timestamp,
        debt_reserve_has_highest_borrow_factor(repay, o),
        collateral_reserve_has_lowest_threshold(market, withdraw, o),
        max_allowed_ltv_override_pct_opt,
    )
}

/// The amounts of the liquidation can be computed.
pub open spec fn liquidation_amounts_computable(
    market: LendingMarket,
    repay: ReserveAccount,
    withdraw: ReserveAccount,
    o: Obligation,
    timestamp: u64,
    liquidity_amount: u64,
    max_allowed_ltv_override_pct_opt: Option<u64>,
) -> bool {
    liquidation_computable(
        withdraw.reserve,
        repay.reserve,
        liquidity_amount,
        market,
        o,
        o.borrows@[borrow_slot_of(o, repay.key)],
        timestamp,
        debt_reserve_has_highest_borrow_factor(repay, o),
        collateral_reserve_has_lowest_threshold(market, withdraw, o),
        max_allowed_ltv_override_pct_opt,
    )
}

/// The checks and amounts of a liquidation, which change nothing: returns
/// the borrow slot, the deposit slot and the amounts.
fn liquidation_plan(
    lending_market: &LendingMarket,
    repay_reserve: &ReserveAccount,
    withdraw_reserve: &ReserveAccount,
    obligation: &Obligation,
    slot: u64,
    timestamp: u64,
    liquidity_amount: u64,
    max_allowed_ltv_override_pct_opt: Option<u64>,
) -> (r: Result<(usize, usize, CalculateLiquidationResult), LendingError>)
    requires
        spec_liquidation_check(
            *lending_market,
            *repay_reserve,
            *withdraw_reserve,
            *obligation,
            slot,
            liquidity_amount,
        ) is None ==> liquidation_amounts_computable(
            *lending_market,
            *repay_reserve,
            *withdraw_reserve,
            *obligation,
            timestamp,
            liquidity_amount,
            max_allowed_ltv_override_pct_opt,
        ),
    ensures
        spec_liquidation_check(
            *lending_market,
            *repay_reserve,
            *withdraw_reserve,
            *obligation,
            slot,
            liquidity_amount,
        ) matches Some(e) ==> r == Err::<(usize, usize, CalculateLiquidationResult), LendingError>(e),
        spec_liquidation_check(
            *lending_market,
            *repay_reserve,
            *withdraw_reserve,
            *obligation,
            slot,
            liquidity_amount,
        ) is None ==> match spec_liquidation_amounts(
            *lending_market,
            *repay_reserve,
            *withdraw_reserve,
            *obligation,
            timestamp,
            liquidity_amount,
            max_allowed_ltv_override_pct_opt,
        ) {
            Err(e) => r == Err::<(usize, usize, CalculateLiquidationResult), LendingError>(e),
            Ok(c) => r == Ok::<(usize, usize, CalculateLiquidationResult), LendingError>(
                (
                    borrow_slot_of(*obligation, repay_reserve.key) as usize,
                    deposit_slot_of(*obligation, withdraw_reserve.key) as usize,
                    c,
                ),
            ) && 0 <= borrow_slot_of(*obligation, repay_reserve.key) < 5 && 0 <= deposit_slot_of(
                *obligation,
                withdraw_reserve.key,
            ) < 8,
        },
{
    if withdraw_reserve.reserve.config.loan_to_value_pct == 0
        || withdraw_reserve.reserve.config.liquidation_threshold_pct == 0 {
        return Err(LendingError::CollateralNonLiquidatable);
    }
    assert_obligation_liquidatable(
        &repay_reserve.reserve,
        &withdraw_reserve.reserve,
        obligation,
        liquidity_amount,
        slot,
    )?;
    let (liquidity, liquidity_index) = obligation.find_liquidity_in_borrows(repay_reserve.key)?;
    proof {
        lemma_borrow_slot_of(*obligation, repay_reserve.key, liquidity_index as int);
    }
    if liquidity.borrow_factor_adjusted_market_value_sf == 0 {
        return Err(LendingError::ObligationLiquidityEmpty);
    }
    let collateral_index = obligation.position_of_collateral_in_deposits(withdraw_reserve.key)?;
    proof {
        lemma_deposit_slot_of(*obligation, withdraw_reserve.key, collateral_index as int);
    }
    let collateral = &obligation.deposits[collateral_index];
    if collateral.market_value_sf == 0 {
        return Err(LendingError::ObligationCollateralEmpty);
    }
    let is_debt_reserve_highest_borrow_factor = repay_reserve.reserve.config.borrow_factor_pct
        >= obligation.highest_borrow_factor_pct;
    let elevation_group = get_elevation_group(obligation.elevation_group, lending_market)?;
    let (_, collateral_liquidation_threshold) = get_max_ltv_and_liquidation_threshold(
        &withdraw_reserve.reserve,
        elevation_group,
    )?;
    let is_collateral_reserve_lowest_liquidation_ltv = (collateral_liquidation_threshold as u64)
        <= obligation.lowest_reserve_deposit_liquidation_ltv;
    let calc = calculate_liquidation(
        &withdraw_reserve.reserve,
        &repay_reserve.reserve,
        liquidity_amount,
        lending_market,
        obligation,
        liquidity,
        collateral,
        timestamp,
        is_debt_reserve_highest_borrow_factor,
        is_collateral_reserve_lowest_liquidation_ltv,
        max_allowed_ltv_override_pct_opt,
    )?;
    Ok((liquidity_index, collateral_index, calc))
}

/// The reserve accounts handed to a liquidation agree where they are one
/// account: the repaid and the withdrawn reserve, when they have one
/// address, and each deposit reserve account with the withdrawn reserve's
/// address hold the same data; no two deposit reserve accounts have one
/// address; and in an elevation group, whose debt reserve is never a
/// collateral, no deposit reserve account is the repaid reserve.
pub open spec fn liquidation_accounts_consistent(
    repay: ReserveAccount,
    withdraw: ReserveAccount,
    o: Obligation,
    d: Seq<ReserveAccount>,
) -> bool {
    &&& same_key(repay.key, withdraw.key) ==> repay == withdraw
    &&& forall|j: int| 0 <= j < d.len() && same_key((#[trigger] d[j]).key, withdraw.key) ==> d[j] == withdraw
    &&& forall|i: int, j: int|
        0 <= i < j < d.len() ==> !same_key((#[trigger] d[i]).key, (#[trigger] d[j]).key)
    &&& o.elevation_group != ELEVATION_GROUP_NONE ==> forall|j: int|
        0 <= j < d.len() ==> !same_key((#[trigger] d[j]).key, repay.key)
}

/// Whether an account with address `key` is among `d`.
pub open spec fn has_account(d: Seq<ReserveAccount>, key: Pubkey) -> bool {
    exists|j: int| 0 <= j < d.len() && same_key((#[trigger] d[j]).key, key)
}

/// The position of the account with address `key` among `d`.
pub open spec fn account_slot(d: Seq<ReserveAccount>, key: Pubkey) -> int {
    choose|j: int| 0 <= j < d.len() && same_key((#[trigger] d[j]).key, key)
}

/// Among accounts with distinct addresses, the one found with an address is
/// the one [`account_slot`] names.
pub proof fn lemma_account_slot(d: Seq<ReserveAccount>, key: Pubkey, j: int)
    requires
        forall|a: int, b: int|
            0 <= a < b < d.len() ==> !same_key((#[trigger] d[a]).key, (#[trigger] d[b]).key),
        0 <= j < d.len(),
        same_key(d[j].key, key),
    ensures
        has_account(d, key),
        account_slot(d, key) == j,
{
    assert(has_account(d, key));
    let c = account_slot(d, key);
    assert(0 <= c < d.len() && same_key(d[c].key, key));
    if c < j {
        assert(!same_key(d[c].key, d[j].key));
    } else if c > j {
        assert(!same_key(d[j].key, d[c].key));
    }
}

/// The position of the account with address `key` in `d`, if any.
fn find_account(d: &Vec<ReserveAccount>, key: &Pubkey) -> (r: Option<usize>)
    ensures
        match r {
            Some(j) => j < d.len() && same_key(d@[j as int].key, *key),
            None => !has_account(d@, *key),
        },
{
    let mut j: usize = 0;
    while j < d.len()
        invariant
            j <= d.len(),
            forall|m: int| 0 <= m < j ==> !same_key((#[trigger] d@[m]).key, *key),
        decreases d.len() - j,
    {
        if d[j].key.key_eq(key) {
            return Some(j);
        }
        j = j + 1;
    }
    None
}

/// The withdrawn reserve as a liquidation finds it once the debt is
/// settled: the repaid reserve `repay_reserve` when they are one account,
/// else its deposit reserve account in `d` when there is one, else the
/// withdrawn reserve as handed in.
pub open spec fn withdraw_reserve_at_refresh(
    withdraw: ReserveAccount,
    repay_key: Pubkey,
    repay_reserve: Reserve,
    d: Seq<ReserveAccount>,
) -> Reserve {
    if same_key(withdraw.key, repay_key) {
        repay_reserve
    } else if has_account(d, withdraw.key) {
        d[account_slot(d, withdraw.key)].reserve
    } else {
        withdraw.reserve
    }
}

/// A reserve refreshed, without a new price, in the slot it was last
/// refreshed in: it is no longer stale, and keeps its price checks while its
/// stored price is young enough.
pub open spec fn refreshed_in_same_slot(w: Reserve, unix_timestamp: i64) -> Reserve {
    Reserve {
        last_update: LastUpdate {
            stale: 0,
            price_status: if spec_saved_price_age_valid(w, unix_timestamp) {
                w.last_update.price_status
            } else {
                0
            },
            ..w.last_update
        },
        ..w
    }
}

/// The collateral tokens the reserve's available liquidity can redeem.
pub open spec fn spec_max_redeemable_collateral(w: Reserve) -> int {
    floor_int(spec_l2c_amount_frac(spec_exchange_rate(w), w.liquidity.available_amount as int))
}

/// The collateral tokens the reserve's available liquidity can redeem can
/// be computed.
pub open spec fn max_redeemable_computable(w: Reserve) -> bool {
    &&& supply_computable(w.liquidity)
    &&& spec_l2c_amount_frac(spec_exchange_rate(w), w.liquidity.available_amount as int) < p128()
    &&& spec_max_redeemable_collateral(w) <= u64::MAX
}

/// A liquidation can be carried out: its amounts can be computed, and so can
/// the collateral the withdrawn reserve can redeem once the debt is settled.
pub open spec fn liquidation_computable_at(
    market: LendingMarket,
    repay: ReserveAccount,
    withdraw: ReserveAccount,
    o: Obligation,
    slot: u64,
    unix_timestamp: i64,
    liquidity_amount: u64,
    max_allowed_ltv_override_pct_opt: Option<u64>,
) -> bool {
    spec_liquidation_check(market, repay, withdraw, o, slot, liquidity_amount) is None ==> {
        &&& liquidation_amounts_computable(
            market,
            repay,
            withdraw,
            o,
            unix_timestamp as u64,
            liquidity_amount,
            max_allowed_ltv_override_pct_opt,
        )
        &&& spec_liquidation_amounts(
            market,
            repay,
            withdraw,
            o,
            unix_timestamp as u64,
            liquidity_amount,
            max_allowed_ltv_override_pct_opt,
        ) matches Ok(c) ==> max_redeemable_computable(
            Reserve {
                liquidity: if same_key(withdraw.key, repay.key) {
                    spec_repaid_liquidity(repay.reserve.liquidity, c.repay_amount, c.settle_amount)
                } else {
                    withdraw.reserve.liquidity
                },
                ..withdraw.reserve
            },
        )
    }
}

/// The end of a liquidation whose debt is settled, given the obligation
/// `o1` after the debt trackers, the repaid reserve `rb3` after the
/// settlement and the deposit reserve accounts `d1`: the withdrawn reserve
/// is refreshed, a full withdrawal takes the deposit's debt off its group
/// tracker, the result is written to every account that is the withdrawn
/// reserve, and the collateral seized is redeemable up to what the reserve's
/// liquidity covers.
pub open spec fn liquidation_finished(
    repay: ReserveAccount,
    withdraw: ReserveAccount,
    o: Obligation,
    unix_timestamp: i64,
    c: CalculateLiquidationResult,
    ci: int,
    o1: Obligation,
    rb3: Reserve,
    d1: Seq<ReserveAccount>,
    repay2: ReserveAccount,
    withdraw2: ReserveAccount,
    d2: Seq<ReserveAccount>,
    r: Result<LiquidateObligationResult, DebtTrackerError>,
) -> bool {
    let w = refreshed_in_same_slot(
        withdraw_reserve_at_refresh(withdraw, repay.key, rb3, d1),
        unix_timestamp,
    );
    let nw = withdraw2.reserve;
    &&& withdraw2 == (ReserveAccount { reserve: nw, ..withdraw })
    &&& o.deposits@[ci].deposited_amount == c.withdraw_amount ==> spec_full_withdraw_trackers(
        w,
        o1.deposits@[ci].borrowed_amount_against_this_collateral_in_elevation_group,
        o.elevation_group,
        nw,
    )
    &&& o.deposits@[ci].deposited_amount != c.withdraw_amount ==> nw == w
    &&& repay2 == (ReserveAccount {
        reserve: if same_key(withdraw.key, repay.key) {
            nw
        } else {
            rb3
        },
        ..repay
    })
    &&& d2 == if has_account(d1, withdraw.key) {
        d1.update(
            account_slot(d1, withdraw.key),
            ReserveAccount { reserve: nw, ..d1[account_slot(d1, withdraw.key)] },
        )
    } else {
        d1
    }
    &&& r == Ok::<LiquidateObligationResult, DebtTrackerError>(
        LiquidateObligationResult {
            settle_amount: c.settle_amount,
            repay_amount: c.repay_amount,
            withdraw_amount: c.withdraw_amount,
            withdraw_collateral_amount: min_int(
                c.withdraw_amount as int,
                spec_max_redeemable_collateral(w),
            ) as u64,
            liquidation_bonus_rate: c.liquidation_bonus_rate,
            liquidation_reason: c.liquidation_reason,
        },
    )
}

/// The stages of a liquidation once its amounts `c` are known: the repaid
/// amount comes off the debt trackers (giving `o1`, `rb1`, `d1` and `r1`,
/// see [`spec_repay_trackers`]), the debt is settled and the collateral
/// leaves the obligation (giving `o3`, `rb3` and `r3`, see
/// [`spec_post_liquidation`]), and the liquidation finishes (see
/// [`liquidation_finished`]); the first error stops it with the accounts as
/// they then are.
pub open spec fn liquidation_stages(
    repay: ReserveAccount,
    withdraw: ReserveAccount,
    o: Obligation,
    d: Seq<ReserveAccount>,
    unix_timestamp: i64,
    c: CalculateLiquidationResult,
    li: int,
    ci: int,
    o1: Obligation,
    rb1: Reserve,
    d1: Seq<ReserveAccount>,
    r1: Result<(), DebtTrackerError>,
    o3: Obligation,
    rb3: Reserve,
    r3: Result<(), LendingError>,
    repay2: ReserveAccount,
    withdraw2: ReserveAccount,
    o2: Obligation,
    d2: Seq<ReserveAccount>,
    r: Result<LiquidateObligationResult, DebtTrackerError>,
) -> bool {
    &&& spec_repay_trackers(o, repay.reserve, d, c.repay_amount, li as usize, o1, rb1, d1, r1)
    &&& match r1 {
        Err(e) => {
            &&& r == Err::<LiquidateObligationResult, DebtTrackerError>(e)
            &&& o2 == o1
            &&& repay2 == (ReserveAccount { reserve: rb1, ..repay })
            &&& d2 == d1
            &&& withdraw2 == withdraw
        },
        Ok(_) => {
            &&& spec_post_liquidation(
                o1,
                rb1,
                c.settle_amount,
                c.withdraw_amount,
                c.repay_amount,
                li as usize,
                ci as usize,
                o3,
                rb3,
                r3,
            )
            &&& o2 == o3
            &&& match r3 {
                Err(e) => {
                    &&& r == Err::<LiquidateObligationResult, DebtTrackerError>(
                        DebtTrackerError::Lending(e),
                    )
                    &&& repay2 == (ReserveAccount { reserve: rb3, ..repay })
                    &&& d2 == d1
                    &&& withdraw2 == withdraw
                },
                Ok(_) => liquidation_finished(
                    repay,
                    withdraw,
                    o,
                    unix_timestamp,
                    c,
                    ci,
                    o1,
                    rb3,
                    d1,
                    repay2,
                    withdraw2,
                    d2,
                    r,
                ),
            }
        },
    }
}

/// What a liquidation makes of the repaid reserve, the withdrawn reserve,
/// the obligation and the deposit reserve accounts, and what it returns:
/// refused, with nothing changed, by [`spec_liquidation_check`] or by its
/// amounts ([`spec_liquidation_amounts`]); else it goes through
/// [`liquidation_stages`].
pub open spec fn spec_liquidate_obligation(
    market: LendingMarket,
    repay: ReserveAccount,
    withdraw: ReserveAccount,
    o: Obligation,
    d: Seq<ReserveAccount>,
    slot: u64,
    unix_timestamp: i64,
    liquidity_amount: u64,
    max_allowed_ltv_override_pct_opt: Option<u64>,
    repay2: ReserveAccount,
    withdraw2: ReserveAccount,
    o2: Obligation,
    d2: Seq<ReserveAccount>,
    r: Result<LiquidateObligationResult, DebtTrackerError>,
) -> bool {
    let unchanged = repay2 == repay && withdraw2 == withdraw && o2 == o && d2 == d;
    match spec_liquidation_check(market, repay, withdraw, o, slot, liquidity_amount) {
        Some(e) => r == Err::<LiquidateObligationResult, DebtTrackerError>(
            DebtTrackerError::Lending(e),
        ) && unchanged,
        None => match spec_liquidation_amounts(
            market,
            repay,
            withdraw,
            o,
            unix_timestamp as u64,
            liquidity_amount,
            max_allowed_ltv_override_pct_opt,
        ) {
            Err(e) => r == Err::<LiquidateObligationResult, DebtTrackerError>(
                DebtTrackerError::Lending(e),
            ) && unchanged,
            Ok(c) => exists|
                o1: Obligation,
                rb1: Reserve,
                d1: Seq<ReserveAccount>,
                r1: Result<(), DebtTrackerError>,
                o3: Obligation,
                rb3: Reserve,
                r3: Result<(), LendingError>,
            |
                #[trigger] liquidation_stages(
                    repay,
                    withdraw,
                    o,
                    d,
                    unix_timestamp,
                    c,
                    borrow_slot_of(o, repay.key),
                    deposit_slot_of(o, withdraw.key),
                    o1,
                    rb1,
                    d1,
                    r1,
                    o3,
                    rb3,
                    r3,
                    repay2,
                    withdraw2,
                    o2,
                    d2,
                    r,
                ),
        },
    }
}

/// Liquidates an unhealthy obligation: the liquidator repays up to
/// `liquidity_amount` of its borrow of the repaid reserve and seizes its
/// deposit of the withdrawn reserve, with a bonus; see
/// [`spec_liquidate_obligation`]. `deposit_reserves` are the reserve
/// accounts of the obligation's deposits in use, in order, whose debt
/// trackers a liquidation in an elevation group updates. Returns the debt
/// settled, the tokens repaid, the collateral seized and how much of it the
/// withdrawn reserve can redeem at once.
#[verifier::rlimit(50)]
#[verifier::spinoff_prover]
pub fn liquidate_obligation(
    lending_market: &LendingMarket,
    repay_reserve: &mut ReserveAccount,
    withdraw_reserve: &mut ReserveAccount,
    obligation: &mut Obligation,
    slot: u64,
    unix_timestamp: i64,
    liquidity_amount: u64,
    max_allowed_ltv_override_pct_opt: Option<u64>,
    deposit_reserves: &mut Vec<ReserveAccount>,
) -> (r: Result<LiquidateObligationResult, DebtTrackerError>)
    requires
        unix_timestamp >= 0,
        liquidation_accounts_consistent(
            *old(repay_reserve),
            *old(withdraw_reserve),
            *old(obligation),
            old(deposit_reserves)@,
        ),
        liquidation_computable_at(
            *lending_market,
            *old(repay_reserve),
            *old(withdraw_reserve),
            *old(obligation),
            slot,
            unix_timestamp,
            liquidity_amount,
            max_allowed_ltv_override_pct_opt,
        ),
    ensures
        spec_liquidate_obligation(
            *lending_market,
            *old(repay_reserve),
            *old(withdraw_reserve),
            *old(obligation),
            old(deposit_reserves)@,
            slot,
            unix_timestamp,
            liquidity_amount,
            max_allowed_ltv_override_pct_opt,
            *final(repay_reserve),
            *final(withdraw_reserve),
            *final(obligation),
            final(deposit_reserves)@,
            r,
        ),
{
    let ghost r0 = *repay_reserve;
    let ghost w0 = *withdraw_reserve;
    let ghost o0 = *obligation;
    let ghost d0 = deposit_reserves@;
    let timestamp = unix_timestamp as u64;
    let (liquidity_index, collateral_index, calc) = match liquidation_plan(
        lending_market,
        &*repay_reserve,
        &*withdraw_reserve,
        &*obligation,
        slot,
        timestamp,
        liquidity_amount,
        max_allowed_ltv_override_pct_opt,
    ) {
        Ok(t) => t,
        Err(e) => {
            return Err(DebtTrackerError::Lending(e));
        },
    };
    let ghost li = liquidity_index as int;
    let ghost ci = collateral_index as int;
    proof {
        let highest = debt_reserve_has_highest_borrow_factor(r0, o0);
        let lowest = collateral_reserve_has_lowest_threshold(*lending_market, w0, o0);
        law_liquidation_within_bounds(
            w0.reserve,
            r0.reserve,
            liquidity_amount,
            *lending_market,
            o0,
            o0.borrows@[li],
            o0.deposits@[ci],
            timestamp,
            highest,
            lowest,
            max_allowed_ltv_override_pct_opt,
        );
    }
    let is_full_withdrawal = obligation.deposits[collateral_index].deposited_amount
        == calc.withdraw_amount;
    match update_elevation_group_debt_trackers_on_repay(
        calc.repay_amount,
        obligation,
        liquidity_index,
        &mut repay_reserve.reserve,
        deposit_reserves,
    ) {
        Ok(()) => {},
        Err(e) => {
            proof {
                assert(liquidation_stages(
                    r0,
                    w0,
                    o0,
                    d0,
                    unix_timestamp,
                    calc,
                    li,
                    ci,
                    *obligation,
                    repay_reserve.reserve,
                    deposit_reserves@,
                    Err(e),
                    *obligation,
                    repay_reserve.reserve,
                    Ok(()),
                    *repay_reserve,
                    *withdraw_reserve,
                    *obligation,
                    deposit_reserves@,
                    Err(e),
                ));
            }
            return Err(e);
        },
    }
    let ghost o1 = *obligation;
    let ghost rb1 = repay_reserve.reserve;
    let ghost d1 = deposit_reserves@;
    let previous_debt = obligation.deposits[collateral_index].borrowed_amount_against_this_collateral_in_elevation_group;
    match repay_and_withdraw_from_obligation_post_liquidation(
        obligation,
        &mut repay_reserve.reserve,
        calc.settle_amount,
        calc.withdraw_amount,
        calc.repay_amount,
        liquidity_index,
        collateral_index,
    ) {
        Ok(()) => {},
        Err(e) => {
            proof {
                assert(liquidation_stages(
                    r0,
                    w0,
                    o0,
                    d0,
                    unix_timestamp,
                    calc,
                    li,
                    ci,
                    o1,
                    rb1,
                    d1,
                    Ok(()),
                    *obligation,
                    repay_reserve.reserve,
                    Err(e),
                    *repay_reserve,
                    *withdraw_reserve,
                    *obligation,
                    deposit_reserves@,
                    Err(DebtTrackerError::Lending(e)),
                ));
            }
            return Err(DebtTrackerError::Lending(e));
        },
    }
    let ghost rb3 = repay_reserve.reserve;
    let same = withdraw_reserve.key.key_eq(&repay_reserve.key);
    let found = find_account(deposit_reserves, &withdraw_reserve.key);
    proof {
        assert(forall|a: int, b: int|
            0 <= a < b < d1.len() ==> !same_key((#[trigger] d1[a]).key, (#[trigger] d1[b]).key));
        if let Some(j) = found {
            lemma_account_slot(d1, w0.key, j as int);
        }
    }
    let mut w = if same {
        repay_reserve.reserve
    } else {
        match found {
            Some(j) => deposit_reserves[j].reserve,
            None => withdraw_reserve.reserve,
        }
    };
    let ghost wcur = w;
    assert(wcur == withdraw_reserve_at_refresh(w0, r0.key, rb3, d1));
    match refresh_reserve(&mut w, slot, unix_timestamp, None, lending_market.referral_fee_bps) {
        Ok(()) => {},
        Err(e) => {
            return Err(DebtTrackerError::Lending(e));
        },
    }
    assert(w == refreshed_in_same_slot(wcur, unix_timestamp));
    let rate = w.collateral_exchange_rate();
    let max_redeemable_collateral = rate.liquidity_to_collateral(w.liquidity.available_amount);
    let withdraw_collateral_amount = if calc.withdraw_amount < max_redeemable_collateral {
        calc.withdraw_amount
    } else {
        max_redeemable_collateral
    };
    let ghost wref = w;
    if is_full_withdrawal {
        match update_elevation_group_debt_trackers_on_full_withdraw(
            previous_debt,
            obligation.elevation_group,
            &mut w,
        ) {
            Ok(()) => {},
            Err(e) => {
                return Err(DebtTrackerError::Lending(e));
            },
        }
    }
    withdraw_reserve.reserve = w;
    if same {
        repay_reserve.reserve = w;
    }
    match found {
        Some(j) => {
            let mut account = deposit_reserves[j];
            account.reserve = w;
            deposit_reserves.set(j, account);
        },
        None => {},
    }
    let result = LiquidateObligationResult {
        settle_amount: calc.settle_amount,
        repay_amount: calc.repay_amount,
        withdraw_amount: calc.withdraw_amount,
        withdraw_collateral_amount,
        liquidation_bonus_rate: calc.liquidation_bonus_rate,
        liquidation_reason: calc.liquidation_reason,
    };
    proof {
        assert(liquidation_stages(
            r0,
            w0,
            o0,
            d0,
            unix_timestamp,
            calc,
            li,
            ci,
            o1,
            rb1,
            d1,
            Ok(()),
            *obligation,
            rb3,
            Ok(()),
            *repay_reserve,
            *withdraw_reserve,
            *obligation,
            deposit_reserves@,
            Ok(result),
        ));
    }
    Ok(result)
}

} // verus!
