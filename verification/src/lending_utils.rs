//! Checks and bookkeeping shared by the lending operations: market values,
//! the freshness of the accounts an operation uses, elevation groups and
//! their debt trackers, and the limits an obligation must keep after an
//! operation.

use crate::consts::{pow10, ten_pow, ELEVATION_GROUP_NONE, MAX_NUM_ELEVATION_GROUPS, PROGRAM_VERSION};
use crate::error::LendingError;
use crate::fraction::{scale, spec_div, spec_mul, Fraction};
use crate::last_update::{spec_is_stale, LastUpdate, PriceStatusFlags};
use crate::lending_market::{ElevationGroup, LendingMarket};
use crate::obligation::{Obligation, ObligationCollateral, ObligationLiquidity};
use crate::pubkey::Pubkey;
use crate::reserve::{spec_c2l_frac, spec_exchange_rate, supply_computable, Reserve};
use crate::wide::p128;
use vstd::prelude::*;

verus! {

/// The market value of `amount` (scaled) liquidity of the reserve's token:
/// amount times price, over ten to the token's decimals, rounded down.
pub open spec fn spec_market_value(reserve: Reserve, amount: int) -> int {
    spec_mul(amount, reserve.liquidity.market_price_sf as int) / (pow10(
        reserve.liquidity.mint_decimals as nat,
    ) as int)
}

/// Whether the market value of `amount` can be computed: a known number of
/// decimals and a product that fits.
pub open spec fn market_value_computable(reserve: Reserve, amount: int) -> bool {
    &&& reserve.liquidity.mint_decimals <= 19
    &&& 0 <= amount
    &&& spec_mul(amount, reserve.liquidity.market_price_sf as int) <= u128::MAX
}

proof fn lemma_market_value_bounds(reserve: Reserve, amount: int)
    requires
        market_value_computable(reserve, amount),
    ensures
        0 <= spec_mul(amount, reserve.liquidity.market_price_sf as int),
        pow10(reserve.liquidity.mint_decimals as nat) >= 1,
        0 <= spec_market_value(reserve, amount) <= spec_mul(
            amount,
            reserve.liquidity.market_price_sf as int,
        ),
{
    let p = reserve.liquidity.market_price_sf as int;
    assert(0 <= amount * p) by (nonlinear_arith)
        requires
            0 <= amount,
            0 <= p,
    ;
    crate::consts::lemma_pow10_monotonic(0, reserve.liquidity.mint_decimals as nat);
    let m = spec_mul(amount, p);
    let d = pow10(reserve.liquidity.mint_decimals as nat) as int;
    assert(0 <= m / d <= m) by (nonlinear_arith)
        requires
            0 <= m,
            d >= 1,
    ;
}

/// The market value of an amount of the reserve's liquidity.
pub fn calculate_market_value_from_liquidity_amount(reserve: &Reserve, liquidity_amount: Fraction) -> (r:
    Result<Fraction, LendingError>)
    requires
        market_value_computable(*reserve, liquidity_amount.val()),
    ensures
        r matches Ok(v) && v.val() == spec_market_value(*reserve, liquidity_amount.val()),
{
    proof {
        lemma_market_value_bounds(*reserve, liquidity_amount.val());
    }
    let mint_decimal_factor: u128 = ten_pow(reserve.liquidity.mint_decimals as usize) as u128;
    let market_price_f = reserve.liquidity.get_market_price();
    let market_value = liquidity_amount.mul(market_price_f).div_int(mint_decimal_factor);
    Ok(market_value)
}

/// Whether the market value of a deposit can be computed: a representable
/// supply, a liquidity worth that fits, and a computable value of it.
pub open spec fn collateral_value_computable(reserve: Reserve, deposit: ObligationCollateral) -> bool {
    let worth = spec_c2l_frac(spec_exchange_rate(reserve), deposit.deposited_amount * scale());
    &&& supply_computable(reserve.liquidity)
    &&& worth < p128()
    &&& market_value_computable(reserve, worth)
}

/// The market value of the liquidity that a deposit's collateral is worth.
pub fn calculate_obligation_collateral_market_value(
    deposit_reserve: &Reserve,
    deposit: &ObligationCollateral,
) -> (r: Result<Fraction, LendingError>)
    requires
        collateral_value_computable(*deposit_reserve, *deposit),
    ensures
        r matches Ok(v) && v.val() == spec_market_value(
            *deposit_reserve,
            spec_c2l_frac(spec_exchange_rate(*deposit_reserve), deposit.deposited_amount * scale()),
        ),
{
    let rate = deposit_reserve.collateral_exchange_rate();
    proof {
        if deposit_reserve.collateral.mint_total_supply == 0 || crate::reserve::total_supply_val(
            deposit_reserve.liquidity,
        ) == 0 {
        } else {
        }
    }
    let liquidity_amount_from_collateral = rate.fraction_collateral_to_liquidity(
        Fraction::from_num(deposit.deposited_amount),
    );
    calculate_market_value_from_liquidity_amount(deposit_reserve, liquidity_amount_from_collateral)
}

/// The market value of a borrow's debt.
pub fn calculate_obligation_liquidity_market_value(
    borrow_reserve: &Reserve,
    borrow: &ObligationLiquidity,
) -> (r: Result<Fraction, LendingError>)
    requires
        market_value_computable(*borrow_reserve, borrow.borrowed_amount_sf as int),
    ensures
        r matches Ok(v) && v.val() == spec_market_value(
            *borrow_reserve,
            borrow.borrowed_amount_sf as int,
        ),
{
    calculate_market_value_from_liquidity_amount(
        borrow_reserve,
        Fraction::from_bits(borrow.borrowed_amount_sf),
    )
}

/// The checks on a reserve that an obligation's slot refers to: the reserve
/// must be the one the slot names, fresh at `slot`, and of the current
/// version.
pub open spec fn spec_slot_reserve_check(
    key_matches: bool,
    last_update: LastUpdate,
    version: u64,
    slot: u64,
) -> Result<(), LendingError> {
    if !key_matches {
        Err(LendingError::InvalidAccountInput)
    } else {
        match spec_is_stale(last_update, slot, PriceStatusFlags { bits: 0 }) {
            Err(e) => Err(e),
            Ok(true) => Err(LendingError::ReserveStale),
            Ok(false) => if version != PROGRAM_VERSION {
                Err(LendingError::ReserveDeprecated)
            } else {
                Ok(())
            },
        }
    }
}

/// Checks the reserve handed in for deposit slot `index`.
pub fn check_obligation_collateral_deposit_reserve(
    deposit: &ObligationCollateral,
    deposit_reserve: &Reserve,
    deposit_reserve_pk: Pubkey,
    index: usize,
    slot: u64,
) -> (r: Result<(), LendingError>)
    ensures
        r == spec_slot_reserve_check(
            deposit.deposit_reserve.bytes@ == deposit_reserve_pk.bytes@,
            deposit_reserve.last_update,
            deposit_reserve.version,
            slot,
        ),
{
    if !deposit.deposit_reserve.key_eq(&deposit_reserve_pk) {
        return Err(LendingError::InvalidAccountInput);
    }
    match deposit_reserve.last_update.is_stale(slot, PriceStatusFlags::empty()) {
        Err(e) => {
            return Err(e);
        },
        Ok(true) => {
            return Err(LendingError::ReserveStale);
        },
        Ok(false) => {},
    }
    if deposit_reserve.version != PROGRAM_VERSION as u64 {
        return Err(LendingError::ReserveDeprecated);
    }
    Ok(())
}

/// Checks the reserve handed in for borrow slot `index`.
pub fn check_obligation_liquidity_borrow_reserve(
    borrow: &ObligationLiquidity,
    borrow_reserve: &Reserve,
    borrow_reserve_pk: Pubkey,
    index: usize,
    slot: u64,
) -> (r: Result<(), LendingError>)
    ensures
        r == spec_slot_reserve_check(
            borrow.borrow_reserve.bytes@ == borrow_reserve_pk.bytes@,
            borrow_reserve.last_update,
            borrow_reserve.version,
            slot,
        ),
{
    if !borrow.borrow_reserve.key_eq(&borrow_reserve_pk) {
        return Err(LendingError::InvalidAccountInput);
    }
    match borrow_reserve.last_update.is_stale(slot, PriceStatusFlags::empty()) {
        Err(e) => {
            return Err(e);
        },
        Ok(true) => {
            return Err(LendingError::ReserveStale);
        },
        Ok(false) => {},
    }
    if borrow_reserve.version != PROGRAM_VERSION as u64 {
        return Err(LendingError::ReserveDeprecated);
    }
    Ok(())
}

/// The elevation group with the given id for an operation: none for the
/// "no group" id; an error for an id past the largest group, and for a group
/// without LTV or liquidation threshold.
pub open spec fn spec_operation_group(id: u8, market: LendingMarket) -> Result<
    Option<ElevationGroup>,
    LendingError,
> {
    if id > MAX_NUM_ELEVATION_GROUPS {
        Err(LendingError::InvalidElevationGroup)
    } else if id == ELEVATION_GROUP_NONE {
        Ok(None)
    } else {
        let g = market.elevation_groups@[id - 1];
        if g.liquidation_threshold_pct == 0 || g.ltv_pct == 0 {
            Err(LendingError::InvalidElevationGroup)
        } else {
            Ok(Some(g))
        }
    }
}

/// See [`spec_operation_group`].
pub fn get_elevation_group(elevation_group_id: u8, market: &LendingMarket) -> (r: Result<
    Option<&ElevationGroup>,
    LendingError,
>)
    ensures
        match spec_operation_group(elevation_group_id, *market) {
            Ok(Some(g)) => r matches Ok(Some(h)) && *h == g,
            Ok(None) => r matches Ok(None),
            Err(e) => r == Err::<Option<&ElevationGroup>, LendingError>(e),
        },
{
    if elevation_group_id > MAX_NUM_ELEVATION_GROUPS {
        return Err(LendingError::InvalidElevationGroup);
    }
    let elevation_group = match market.get_elevation_group(elevation_group_id) {
        Ok(g) => g,
        Err(e) => {
            return Err(e);
        },
    };
    if let Some(g) = elevation_group {
        if g.liquidation_threshold_pct == 0 {
            return Err(LendingError::InvalidElevationGroup);
        }
        if g.ltv_pct == 0 {
            return Err(LendingError::InvalidElevationGroup);
        }
    }
    Ok(elevation_group)
}

/// New loans of an obligation in an elevation group need the group to
/// accept new loans.
pub fn check_elevation_group_borrowing_enabled(market: &LendingMarket, obligation: &Obligation) -> (r:
    Result<(), LendingError>)
    ensures
        r == match spec_operation_group(obligation.elevation_group, *market) {
            Err(e) => Err(e),
            Ok(Some(g)) => if g.allow_new_loans == 0 {
                Err(LendingError::ElevationGroupNewLoansDisabled)
            } else {
                Ok(())
            },
            Ok(None) => Ok(()),
        },
{
    match get_elevation_group(obligation.elevation_group, market) {
        Err(e) => Err(e),
        Ok(Some(elevation_group)) => {
            if elevation_group.new_loans_disabled() {
                Err(LendingError::ElevationGroupNewLoansDisabled)
            } else {
                Ok(())
            }
        },
        Ok(None) => Ok(()),
    }
}

/// An obligation outside elevation groups may not borrow when borrowing is
/// disabled for it.
pub fn check_non_elevation_group_borrowing_enabled(obligation: &Obligation) -> (r: Result<
    (),
    LendingError,
>)
    ensures
        obligation.elevation_group == ELEVATION_GROUP_NONE && obligation.borrowing_disabled > 0
            ==> r == Err::<(), LendingError>(LendingError::BorrowingDisabledOutsideElevationGroup),
        !(obligation.elevation_group == ELEVATION_GROUP_NONE && obligation.borrowing_disabled > 0)
            ==> r is Ok,
{
    if obligation.elevation_group == ELEVATION_GROUP_NONE && obligation.borrowing_disabled > 0 {
        Err(LendingError::BorrowingDisabledOutsideElevationGroup)
    } else {
        Ok(())
    }
}

/// An obligation in an elevation group can only use reserves of that group.
pub fn check_same_elevation_group(obligation: &Obligation, reserve: &Reserve) -> (r: Result<
    (),
    LendingError,
>)
    ensures
        obligation.elevation_group != ELEVATION_GROUP_NONE
            && !reserve.config.elevation_groups@.contains(obligation.elevation_group) ==> r
            == Err::<(), LendingError>(LendingError::InconsistentElevationGroup),
        !(obligation.elevation_group != ELEVATION_GROUP_NONE
            && !reserve.config.elevation_groups@.contains(obligation.elevation_group)) ==> r is Ok,
{
    if obligation.elevation_group != ELEVATION_GROUP_NONE && !groups_contain(
        &reserve.config.elevation_groups,
        obligation.elevation_group,
    ) {
        return Err(LendingError::InconsistentElevationGroup);
    }
    Ok(())
}

/// Whether the reserve's list of elevation groups holds `id`.
pub fn groups_contain(groups: &[u8; 20], id: u8) -> (r: bool)
    ensures
        r == groups@.contains(id),
{
    let mut i: usize = 0;
    while i < 20
        invariant
            0 <= i <= 20,
            groups@.len() == 20,
            forall|j: int| 0 <= j < i ==> groups@[j] != id,
        decreases 20 - i,
    {
        if groups[i] == id {
            assert(groups@[i as int] == id);
            return true;
        }
        i = i + 1;
    }
    false
}

/// The LTV and liquidation threshold that apply to a deposit: the elevation
/// group's when there is one, else the reserve's.
pub fn get_max_ltv_and_liquidation_threshold(
    deposit_reserve: &Reserve,
    elevation_group: Option<&ElevationGroup>,
) -> (r: Result<(u8, u8), LendingError>)
    ensures
        match elevation_group {
            Some(g) => r == Ok::<(u8, u8), LendingError>((g.ltv_pct, g.liquidation_threshold_pct)),
            None => r == Ok::<(u8, u8), LendingError>(
                (
                    deposit_reserve.config.loan_to_value_pct,
                    deposit_reserve.config.liquidation_threshold_pct,
                ),
            ),
        },
{
    match elevation_group {
        Some(g) => Ok((g.ltv_pct, g.liquidation_threshold_pct)),
        None => Ok(
            (deposit_reserve.config.loan_to_value_pct, deposit_reserve.config.liquidation_threshold_pct),
        ),
    }
}

/// An obligation must be refreshed at `slot` with every price check, and
/// hold deposits of some value.
pub open spec fn spec_fully_refreshed_check(obligation: Obligation, slot: u64) -> Result<(), LendingError> {
    match spec_is_stale(obligation.last_update, slot, PriceStatusFlags { bits: 63 }) {
        Err(e) => Err(e),
        Ok(true) => Err(LendingError::ObligationStale),
        Ok(false) => if obligation.no_active_deposits() {
            Err(LendingError::ObligationDepositsEmpty)
        } else if obligation.deposited_value_sf == 0 {
            Err(LendingError::ObligationDepositsZero)
        } else {
            Ok(())
        },
    }
}

/// See [`spec_fully_refreshed_check`].
pub fn check_obligation_fully_refreshed_and_not_null(obligation: &Obligation, slot: u64) -> (r:
    Result<(), LendingError>)
    ensures
        r == spec_fully_refreshed_check(*obligation, slot),
{
    match obligation.last_update.is_stale(slot, PriceStatusFlags::all()) {
        Err(e) => {
            return Err(e);
        },
        Ok(true) => {
            return Err(LendingError::ObligationStale);
        },
        Ok(false) => {},
    }
    if obligation.is_active_deposits_empty() {
        return Err(LendingError::ObligationDepositsEmpty);
    }
    if obligation.deposited_value_sf == 0 {
        return Err(LendingError::ObligationDepositsZero);
    }
    Ok(())
}

/// The error that a refresh record gives for an account that must be
/// refreshed with the liquidation price checks, if any.
pub open spec fn liquidation_stale_error(lu: LastUpdate, slot: u64, stale_error: LendingError) -> Option<
    LendingError,
> {
    match spec_is_stale(lu, slot, PriceStatusFlags { bits: 35 }) {
        Err(e) => Some(e),
        Ok(true) => Some(stale_error),
        Ok(false) => None,
    }
}

/// What a liquidation needs: an amount, both reserves and the obligation
/// refreshed with the liquidation price checks, and an obligation with
/// deposits and debt of some value; each failure has its own error, in this
/// order.
pub open spec fn spec_liquidatable_check(
    repay_reserve: Reserve,
    withdraw_reserve: Reserve,
    obligation: Obligation,
    liquidity_amount: u64,
    slot: u64,
) -> Result<(), LendingError> {
    if liquidity_amount == 0 {
        Err(LendingError::InvalidAmount)
    } else if let Some(e) = liquidation_stale_error(
        repay_reserve.last_update,
        slot,
        LendingError::ReserveStale,
    ) {
        Err(e)
    } else if let Some(e) = liquidation_stale_error(
        withdraw_reserve.last_update,
        slot,
        LendingError::ReserveStale,
    ) {
        Err(e)
    } else if let Some(e) = liquidation_stale_error(
        obligation.last_update,
        slot,
        LendingError::ObligationStale,
    ) {
        Err(e)
    } else if obligation.deposited_value_sf == 0 {
        Err(LendingError::ObligationDepositsZero)
    } else if obligation.borrow_factor_adjusted_debt_value_sf == 0 {
        Err(LendingError::ObligationBorrowsZero)
    } else {
        Ok(())
    }
}

/// See [`spec_liquidatable_check`].
pub fn assert_obligation_liquidatable(
    repay_reserve: &Reserve,
    withdraw_reserve: &Reserve,
    obligation: &Obligation,
    liquidity_amount: u64,
    slot: u64,
) -> (r: Result<(), LendingError>)
    ensures
        r == spec_liquidatable_check(
            *repay_reserve,
            *withdraw_reserve,
            *obligation,
            liquidity_amount,
            slot,
        ),
{
    if liquidity_amount == 0 {
        return Err(LendingError::InvalidAmount);
    }
    match repay_reserve.last_update.is_stale(slot, PriceStatusFlags::liquidation_checks()) {
        Err(e) => {
            return Err(e);
        },
        Ok(true) => {
            return Err(LendingError::ReserveStale);
        },
        Ok(false) => {},
    }
    match withdraw_reserve.last_update.is_stale(slot, PriceStatusFlags::liquidation_checks()) {
        Err(e) => {
            return Err(e);
        },
        Ok(true) => {
            return Err(LendingError::ReserveStale);
        },
        Ok(false) => {},
    }
    match obligation.last_update.is_stale(slot, PriceStatusFlags::liquidation_checks()) {
        Err(e) => {
            return Err(e);
        },
        Ok(true) => {
            return Err(LendingError::ObligationStale);
        },
        Ok(false) => {},
    }
    if obligation.deposited_value_sf == 0 {
        return Err(LendingError::ObligationDepositsZero);
    }
    if obligation.borrow_factor_adjusted_debt_value_sf == 0 {
        return Err(LendingError::ObligationBorrowsZero);
    }
    Ok(())
}

/// After a deposit of `amount` (scaled liquidity): the collateral's new
/// value must be zero or at least the minimal net value, and when the
/// obligation had deposits, its LTV must not get worse.
pub open spec fn spec_post_deposit(
    amount: Fraction,
    obligation: Obligation,
    reserve: Reserve,
    collateral_asset_mv: Fraction,
    min_accepted_net_value: Fraction,
) -> Result<(), LendingError> {
    let a = spec_market_value(reserve, amount.val());
    let new_total = obligation.deposited_value_sf + a;
    let new_coll = collateral_asset_mv.val() + a;
    if new_coll > 0 && new_coll < min_accepted_net_value.val() {
        Err(LendingError::NetValueRemainingTooSmall)
    } else if obligation.deposited_value_sf != 0 && spec_div(
        obligation.borrow_factor_adjusted_debt_value_sf as int,
        new_total,
    ) > obligation.spec_ltv() {
        Err(LendingError::WorseLTVBlocked)
    } else {
        Ok(())
    }
}

/// The values that the deposit check computes are representable.
pub open spec fn post_deposit_computable(
    amount: Fraction,
    obligation: Obligation,
    reserve: Reserve,
    collateral_asset_mv: Fraction,
    min_accepted_net_value: Fraction,
) -> bool {
    let a = spec_market_value(reserve, amount.val());
    let new_total = obligation.deposited_value_sf + a;
    let new_coll = collateral_asset_mv.val() + a;
    &&& market_value_computable(reserve, amount.val())
    &&& new_total <= u128::MAX
    &&& new_coll <= u128::MAX
    &&& new_total != 0
    &&& spec_div(obligation.borrow_factor_adjusted_debt_value_sf as int, new_total) <= u128::MAX
    &&& (obligation.deposited_value_sf != 0 && !(new_coll > 0 && new_coll
        < min_accepted_net_value.val())) ==> obligation.spec_ltv() <= u128::MAX
}

/// See [`spec_post_deposit`].
pub fn post_deposit_obligation_invariants(
    amount: Fraction,
    obligation: &Obligation,
    reserve: &Reserve,
    collateral_asset_mv: Fraction,
    min_accepted_net_value: Fraction,
) -> (r: Result<(), LendingError>)
    requires
        post_deposit_computable(
            amount,
            *obligation,
            *reserve,
            collateral_asset_mv,
            min_accepted_net_value,
        ),
    ensures
        r == spec_post_deposit(
            amount,
            *obligation,
            *reserve,
            collateral_asset_mv,
            min_accepted_net_value,
        ),
{
    proof {
        lemma_market_value_bounds(*reserve, amount.val());
    }
    let asset_mv = match calculate_market_value_from_liquidity_amount(reserve, amount) {
        Ok(v) => v,
        Err(e) => {
            return Err(e);
        },
    };
    let new_total_deposited_mv = Fraction::from_bits(obligation.deposited_value_sf).add(asset_mv);
    let new_collateral_asset_mv = collateral_asset_mv.add(asset_mv);
    let new_ltv = Fraction::from_bits(obligation.borrow_factor_adjusted_debt_value_sf).div(
        new_total_deposited_mv,
    );
    if new_collateral_asset_mv.bits > 0 && new_collateral_asset_mv.bits
        < min_accepted_net_value.bits {
        return Err(LendingError::NetValueRemainingTooSmall);
    }
    if obligation.deposited_value_sf != 0 {
        if new_ltv.bits > obligation.loan_to_value().bits {
            return Err(LendingError::WorseLTVBlocked);
        }
    }
    Ok(())
}

/// After a withdrawal of `amount` (scaled liquidity): a collateral that had
/// a value must keep none or at least the minimal net value; and while
/// deposits remain, they must exceed the debt and the LTV must stay within
/// the unhealthy LTV.
pub open spec fn spec_post_withdraw(
    amount: Fraction,
    obligation: Obligation,
    reserve: Reserve,
    collateral_asset_mv: Fraction,
    min_accepted_net_value: Fraction,
) -> Result<(), LendingError> {
    let a = spec_market_value(reserve, amount.val());
    let new_total = obligation.deposited_value_sf - a;
    let new_coll = collateral_asset_mv.val() - a;
    if collateral_asset_mv.val() != 0 && new_coll > 0 && new_coll < min_accepted_net_value.val() {
        Err(LendingError::NetValueRemainingTooSmall)
    } else if new_total != 0 && obligation.borrowed_assets_market_value_sf >= new_total {
        Err(LendingError::LiabilitiesBiggerThanAssets)
    } else if new_total != 0 && spec_div(
        obligation.borrow_factor_adjusted_debt_value_sf as int,
        new_total,
    ) > obligation.spec_unhealthy_ltv() {
        Err(LendingError::WorseLTVBlocked)
    } else {
        Ok(())
    }
}

/// The values that the withdrawal check computes are representable: the
/// withdrawn value is at most the deposits (and the collateral's value when
/// known), and the ratios fit.
pub open spec fn post_withdraw_computable(
    amount: Fraction,
    obligation: Obligation,
    reserve: Reserve,
    collateral_asset_mv: Fraction,
    min_accepted_net_value: Fraction,
) -> bool {
    let a = spec_market_value(reserve, amount.val());
    let new_total = obligation.deposited_value_sf - a;
    let new_coll = collateral_asset_mv.val() - a;
    &&& market_value_computable(reserve, amount.val())
    &&& a <= obligation.deposited_value_sf
    &&& collateral_asset_mv.val() != 0 ==> a <= collateral_asset_mv.val()
    &&& (new_total != 0 && !(collateral_asset_mv.val() != 0 && new_coll > 0 && new_coll
        < min_accepted_net_value.val()) && obligation.borrowed_assets_market_value_sf < new_total)
        ==> spec_div(obligation.borrow_factor_adjusted_debt_value_sf as int, new_total)
        <= u128::MAX && obligation.spec_unhealthy_ltv() <= u128::MAX
}

/// See [`spec_post_withdraw`].
pub fn post_withdraw_obligation_invariants(
    amount: Fraction,
    obligation: &Obligation,
    reserve: &Reserve,
    collateral_asset_mv: Fraction,
    min_accepted_net_value: Fraction,
) -> (r: Result<(), LendingError>)
    requires
        post_withdraw_computable(
            amount,
            *obligation,
            *reserve,
            collateral_asset_mv,
            min_accepted_net_value,
        ),
    ensures
        r == spec_post_withdraw(
            amount,
            *obligation,
            *reserve,
            collateral_asset_mv,
            min_accepted_net_value,
        ),
{
    proof {
        lemma_market_value_bounds(*reserve, amount.val());
    }
    let asset_mv = match calculate_market_value_from_liquidity_amount(reserve, amount) {
        Ok(v) => v,
        Err(e) => {
            return Err(e);
        },
    };
    let new_total_deposited_mv = Fraction::from_bits(obligation.deposited_value_sf).sub(asset_mv);
    if collateral_asset_mv.bits != 0 {
        let new_collateral_asset_mv = collateral_asset_mv.sub(asset_mv);
        if new_collateral_asset_mv.bits > 0 && new_collateral_asset_mv.bits
            < min_accepted_net_value.bits {
            return Err(LendingError::NetValueRemainingTooSmall);
        }
    }
    if new_total_deposited_mv.bits != 0 {
        if obligation.borrowed_assets_market_value_sf >= new_total_deposited_mv.bits {
            return Err(LendingError::LiabilitiesBiggerThanAssets);
        }
        let new_ltv = Fraction::from_bits(obligation.borrow_factor_adjusted_debt_value_sf).div(
            new_total_deposited_mv,
        );
        let unhealthy_ltv = obligation.unhealthy_loan_to_value();
        if new_ltv.bits > unhealthy_ltv.bits {
            return Err(LendingError::WorseLTVBlocked);
        }
    }
    Ok(())
}

/// The borrow-factor-adjusted value of `a` borrowed from the reserve.
pub open spec fn bf_adjusted(reserve: Reserve, obligation: Obligation, a: int) -> int {
    spec_mul(
        a,
        crate::reserve::spec_borrow_factor_f(reserve, obligation.elevation_group != ELEVATION_GROUP_NONE),
    )
}

/// After a borrow of `amount` (scaled liquidity): the borrow's new value must
/// be zero or at least the minimal net value, the LTV must stay within the
/// unhealthy LTV, and the debt must stay below the deposits.
pub open spec fn spec_post_borrow(
    amount: Fraction,
    obligation: Obligation,
    reserve: Reserve,
    liquidity_asset_mv: Fraction,
    min_accepted_net_value: Fraction,
) -> Result<(), LendingError> {
    let a = spec_market_value(reserve, amount.val());
    let new_bf = obligation.borrow_factor_adjusted_debt_value_sf + bf_adjusted(reserve, obligation, a);
    let new_no_bf = obligation.borrowed_assets_market_value_sf + a;
    let new_liq = liquidity_asset_mv.val() + a;
    if new_liq > 0 && new_liq < min_accepted_net_value.val() {
        Err(LendingError::NetValueRemainingTooSmall)
    } else if spec_div(new_bf, obligation.deposited_value_sf as int) > obligation.spec_unhealthy_ltv() {
        Err(LendingError::WorseLTVBlocked)
    } else if new_no_bf >= obligation.deposited_value_sf {
        Err(LendingError::LiabilitiesBiggerThanAssets)
    } else {
        Ok(())
    }
}

/// The values that the borrow check computes are representable; when the
/// value check passes, the obligation has deposits to divide by.
pub open spec fn post_borrow_computable(
    amount: Fraction,
    obligation: Obligation,
    reserve: Reserve,
    liquidity_asset_mv: Fraction,
    min_accepted_net_value: Fraction,
) -> bool {
    let a = spec_market_value(reserve, amount.val());
    let new_bf = obligation.borrow_factor_adjusted_debt_value_sf + bf_adjusted(reserve, obligation, a);
    let new_liq = liquidity_asset_mv.val() + a;
    &&& market_value_computable(reserve, amount.val())
    &&& bf_adjusted(reserve, obligation, a) <= u128::MAX
    &&& new_bf <= u128::MAX
    &&& obligation.borrowed_assets_market_value_sf + a <= u128::MAX
    &&& new_liq <= u128::MAX
    &&& !(new_liq > 0 && new_liq < min_accepted_net_value.val()) ==> {
        &&& obligation.deposited_value_sf != 0
        &&& spec_div(new_bf, obligation.deposited_value_sf as int) <= u128::MAX
        &&& obligation.spec_unhealthy_ltv() <= u128::MAX
    }
}

/// See [`spec_post_borrow`].
pub fn post_borrow_obligation_invariants(
    amount: Fraction,
    obligation: &Obligation,
    reserve: &Reserve,
    liquidity_asset_mv: Fraction,
    min_accepted_net_value: Fraction,
) -> (r: Result<(), LendingError>)
    requires
        post_borrow_computable(
            amount,
            *obligation,
            *reserve,
            liquidity_asset_mv,
            min_accepted_net_value,
        ),
    ensures
        r == spec_post_borrow(
            amount,
            *obligation,
            *reserve,
            liquidity_asset_mv,
            min_accepted_net_value,
        ),
{
    proof {
        lemma_market_value_bounds(*reserve, amount.val());
    }
    let asset_mv = match calculate_market_value_from_liquidity_amount(reserve, amount) {
        Ok(v) => v,
        Err(e) => {
            return Err(e);
        },
    };
    let borrow_factor = reserve.borrow_factor_f(obligation.elevation_group != ELEVATION_GROUP_NONE);
    let new_total_bf_debt_mv = Fraction::from_bits(obligation.borrow_factor_adjusted_debt_value_sf).add(
        asset_mv.mul(borrow_factor),
    );
    let new_total_no_bf_debt_mv = Fraction::from_bits(obligation.borrowed_assets_market_value_sf).add(
        asset_mv,
    );
    let new_liquidity_asset_mv = liquidity_asset_mv.add(asset_mv);
    if new_liquidity_asset_mv.bits > 0 && new_liquidity_asset_mv.bits < min_accepted_net_value.bits {
        return Err(LendingError::NetValueRemainingTooSmall);
    }
    let new_ltv = new_total_bf_debt_mv.div(Fraction::from_bits(obligation.deposited_value_sf));
    if new_ltv.bits > obligation.unhealthy_loan_to_value().bits {
        return Err(LendingError::WorseLTVBlocked);
    }
    if new_total_no_bf_debt_mv.bits >= obligation.deposited_value_sf {
        return Err(LendingError::LiabilitiesBiggerThanAssets);
    }
    Ok(())
}

/// After a repayment of `amount` (scaled liquidity): a borrow that had a
/// value must keep none or at least the minimal net value, and when the
/// obligation has deposits its LTV must not get worse.
pub open spec fn spec_post_repay(
    amount: Fraction,
    obligation: Obligation,
    reserve: Reserve,
    liquidity_asset_mv: Fraction,
    min_accepted_net_value: Fraction,
) -> Result<(), LendingError> {
    let a = spec_market_value(reserve, amount.val());
    let new_bf = obligation.borrow_factor_adjusted_debt_value_sf - bf_adjusted(reserve, obligation, a);
    let new_liq = liquidity_asset_mv.val() - a;
    if liquidity_asset_mv.val() != 0 && new_liq > 0 && new_liq < min_accepted_net_value.val() {
        Err(LendingError::NetValueRemainingTooSmall)
    } else if obligation.deposited_value_sf > 0 && spec_div(
        new_bf,
        obligation.deposited_value_sf as int,
    ) > obligation.spec_ltv() {
        Err(LendingError::WorseLTVBlocked)
    } else {
        Ok(())
    }
}

/// The values that the repayment check computes are representable: the
/// repaid adjusted value is at most the adjusted debt (and the borrow's
/// value when known), and the ratios fit.
pub open spec fn post_repay_computable(
    amount: Fraction,
    obligation: Obligation,
    reserve: Reserve,
    liquidity_asset_mv: Fraction,
    min_accepted_net_value: Fraction,
) -> bool {
    let a = spec_market_value(reserve, amount.val());
    let new_bf = obligation.borrow_factor_adjusted_debt_value_sf - bf_adjusted(reserve, obligation, a);
    let new_liq = liquidity_asset_mv.val() - a;
    &&& market_value_computable(reserve, amount.val())
    &&& bf_adjusted(reserve, obligation, a) <= u128::MAX
    &&& new_bf >= 0
    &&& liquidity_asset_mv.val() != 0 ==> a <= liquidity_asset_mv.val()
    &&& (obligation.deposited_value_sf > 0 && !(liquidity_asset_mv.val() != 0 && new_liq > 0
        && new_liq < min_accepted_net_value.val())) ==> spec_div(
        new_bf,
        obligation.deposited_value_sf as int,
    ) <= u128::MAX && obligation.spec_ltv() <= u128::MAX
}

/// See [`spec_post_repay`].
pub fn post_repay_obligation_invariants(
    amount: Fraction,
    obligation: &Obligation,
    reserve: &Reserve,
    liquidity_asset_mv: Fraction,
    min_accepted_net_value: Fraction,
) -> (r: Result<(), LendingError>)
    requires
        post_repay_computable(
            amount,
            *obligation,
            *reserve,
            liquidity_asset_mv,
            min_accepted_net_value,
        ),
    ensures
        r == spec_post_repay(
            amount,
            *obligation,
            *reserve,
            liquidity_asset_mv,
            min_accepted_net_value,
        ),
{
    proof {
        lemma_market_value_bounds(*reserve, amount.val());
    }
    let asset_mv = match calculate_market_value_from_liquidity_amount(reserve, amount) {
        Ok(v) => v,
        Err(e) => {
            return Err(e);
        },
    };
    let borrow_factor = reserve.borrow_factor_f(obligation.elevation_group != ELEVATION_GROUP_NONE);
    let new_total_bf_debt_mv = Fraction::from_bits(obligation.borrow_factor_adjusted_debt_value_sf).sub(
        asset_mv.mul(borrow_factor),
    );
    let total_deposited_mv = Fraction::from_bits(obligation.deposited_value_sf);
    if liquidity_asset_mv.bits != 0 {
        let new_liquidity_asset_mv = liquidity_asset_mv.sub(asset_mv);
        if new_liquidity_asset_mv.bits > 0 && new_liquidity_asset_mv.bits
            < min_accepted_net_value.bits {
            return Err(LendingError::NetValueRemainingTooSmall);
        }
    }
    if total_deposited_mv.bits > 0 {
        let new_ltv = new_total_bf_debt_mv.div(total_deposited_mv);
        if new_ltv.bits > obligation.loan_to_value().bits {
            return Err(LendingError::WorseLTVBlocked);
        }
    }
    Ok(())
}

/// A reserve account handed to an operation: its address and its data.
#[derive(Clone, Copy, Debug)]
pub struct ReserveAccount {
    pub key: Pubkey,
    pub reserve: Reserve,
}

/// The check of borrow slot `b` against the account handed in for it.
pub open spec fn borrow_slot_error(
    b: ObligationLiquidity,
    elevation_group: Option<ElevationGroup>,
    acct: ReserveAccount,
) -> Option<LendingError> {
    if b.borrow_reserve.bytes@ != acct.key.bytes@ {
        Some(LendingError::InvalidAccountInput)
    } else {
        match elevation_group {
            Some(g) => if !acct.reserve.config.elevation_groups@.contains(g.id) {
                Some(LendingError::InconsistentElevationGroup)
            } else if acct.key.bytes@ != g.debt_reserve.bytes@ {
                Some(LendingError::ElevationGroupHasAnotherDebtReserve)
            } else {
                None
            },
            None => if acct.reserve.config.borrow_limit_outside_elevation_group
                < acct.reserve.borrowed_amount_outside_elevation_group {
                Some(LendingError::ElevationGroupBorrowLimitExceeded)
            } else {
                None
            },
        }
    }
}

/// The check of deposit slot `d` against the account handed in for it.
pub open spec fn deposit_slot_error(
    d: ObligationCollateral,
    elevation_group: Option<ElevationGroup>,
    acct: ReserveAccount,
) -> Option<LendingError> {
    if d.deposit_reserve.bytes@ != acct.key.bytes@ {
        Some(LendingError::InvalidAccountInput)
    } else {
        match elevation_group {
            Some(g) => {
                let i = g.id - 1;
                if !acct.reserve.config.elevation_groups@.contains(g.id) {
                    Some(LendingError::InconsistentElevationGroup)
                } else if acct.key.bytes@ == g.debt_reserve.bytes@ {
                    Some(LendingError::ElevationGroupDebtReserveAsCollateral)
                } else if acct.reserve.config.borrow_limit_against_this_collateral_in_elevation_group@[i]
                    < acct.reserve.borrowed_amounts_against_this_reserve_in_elevation_groups@[i] {
                    Some(LendingError::ElevationGroupBorrowLimitExceeded)
                } else {
                    None
                }
            },
            None => None,
        }
    }
}

/// The borrow slots from `i` on, paired in order with the accounts from
/// `j` on: the first failing check, an account missing for an active slot
/// that is not the last slot, or an account left over.
pub open spec fn borrows_scan(
    borrows: Seq<ObligationLiquidity>,
    elevation_group: Option<ElevationGroup>,
    accts: Seq<ReserveAccount>,
    i: int,
    j: int,
) -> Result<(), LendingError>
    decreases borrows.len() - i,
{
    if i >= borrows.len() {
        if j < accts.len() {
            Err(LendingError::InvalidAccountInput)
        } else {
            Ok(())
        }
    } else if !borrows[i].spec_is_active() {
        borrows_scan(borrows, elevation_group, accts, i + 1, j)
    } else if j >= accts.len() {
        if i + 1 < borrows.len() {
            Err(LendingError::InvalidAccountInput)
        } else {
            Ok(())
        }
    } else {
        match borrow_slot_error(borrows[i], elevation_group, accts[j]) {
            Some(e) => Err(e),
            None => borrows_scan(borrows, elevation_group, accts, i + 1, j + 1),
        }
    }
}

/// [`borrows_scan`] for the deposit slots.
pub open spec fn deposits_scan(
    deposits: Seq<ObligationCollateral>,
    elevation_group: Option<ElevationGroup>,
    accts: Seq<ReserveAccount>,
    i: int,
    j: int,
) -> Result<(), LendingError>
    decreases deposits.len() - i,
{
    if i >= deposits.len() {
        if j < accts.len() {
            Err(LendingError::InvalidAccountInput)
        } else {
            Ok(())
        }
    } else if !deposits[i].spec_is_active() {
        deposits_scan(deposits, elevation_group, accts, i + 1, j)
    } else if j >= accts.len() {
        if i + 1 < deposits.len() {
            Err(LendingError::InvalidAccountInput)
        } else {
            Ok(())
        }
    } else {
        match deposit_slot_error(deposits[i], elevation_group, accts[j]) {
            Some(e) => Err(e),
            None => deposits_scan(deposits, elevation_group, accts, i + 1, j + 1),
        }
    }
}

/// The whole check: the borrows against their accounts, then the deposits
/// against theirs.
pub open spec fn spec_borrow_limit_constraints(
    obligation: Obligation,
    elevation_group: Option<ElevationGroup>,
    deposit_reserves: Seq<ReserveAccount>,
    borrow_reserves: Seq<ReserveAccount>,
) -> Result<(), LendingError> {
    match borrows_scan(obligation.borrows@, elevation_group, borrow_reserves, 0, 0) {
        Err(e) => Err(e),
        Ok(()) => deposits_scan(obligation.deposits@, elevation_group, deposit_reserves, 0, 0),
    }
}

/// Checks the reserves of an obligation's borrows and deposits, handed in in
/// the order of their slots, against its elevation group: in a group, every
/// reserve must belong to it, the borrowed reserve must be the group's debt
/// reserve, no deposit may be in it, and no deposit reserve may be past its
/// limit of debt against it in the group; outside groups, no borrowed reserve
/// may be past its limit of debt outside groups.
pub fn check_elevation_group_borrow_limit_constraints(
    obligation: &Obligation,
    elevation_group: Option<&ElevationGroup>,
    deposit_reserves: &[ReserveAccount],
    borrow_reserves: &[ReserveAccount],
) -> (r: Result<(), LendingError>)
    requires
        elevation_group matches Some(g) ==> 1 <= g.id <= 32,
    ensures
        r == spec_borrow_limit_constraints(
            *obligation,
            match elevation_group {
                Some(g) => Some(*g),
                None => None,
            },
            deposit_reserves@,
            borrow_reserves@,
        ),
{
    let ghost eg = match elevation_group {
        Some(g) => Some(*g),
        None => None,
    };
    let mut i: usize = 0;
    let mut j: usize = 0;
    let mut done = false;
    let mut outcome: Result<(), LendingError> = Ok(());
    while !done
        invariant
            0 <= i <= 5,
            0 <= j <= borrow_reserves@.len(),
            !done ==> borrows_scan(obligation.borrows@, eg, borrow_reserves@, 0, 0) == borrows_scan(
                obligation.borrows@,
                eg,
                borrow_reserves@,
                i as int,
                j as int,
            ),
            done ==> outcome == borrows_scan(obligation.borrows@, eg, borrow_reserves@, 0, 0),
            eg == match elevation_group {
                Some(g) => Some(*g),
                None => None::<ElevationGroup>,
            },
        decreases 5 - i + (if done { 0int } else { 1int }),
    {
        if i >= 5 {
            outcome = if j < borrow_reserves.len() {
                Err(LendingError::InvalidAccountInput)
            } else {
                Ok(())
            };
            done = true;
        } else if !obligation.borrows[i].is_active() {
            i = i + 1;
        } else if j >= borrow_reserves.len() {
            outcome = if i + 1 < 5 {
                Err(LendingError::InvalidAccountInput)
            } else {
                Ok(())
            };
            done = true;
        } else {
            let b = &obligation.borrows[i];
            let acct = &borrow_reserves[j];
            if !b.borrow_reserve.key_eq(&acct.key) {
                outcome = Err(LendingError::InvalidAccountInput);
                done = true;
            } else {
                match elevation_group {
                    Some(g) => {
                        if !groups_contain(&acct.reserve.config.elevation_groups, g.id) {
                            outcome = Err(LendingError::InconsistentElevationGroup);
                            done = true;
                        } else if !acct.key.key_eq(&g.debt_reserve) {
                            outcome = Err(LendingError::ElevationGroupHasAnotherDebtReserve);
                            done = true;
                        }
                    },
                    None => {
                        if acct.reserve.config.borrow_limit_outside_elevation_group
                            < acct.reserve.borrowed_amount_outside_elevation_group {
                            outcome = Err(LendingError::ElevationGroupBorrowLimitExceeded);
                            done = true;
                        }
                    },
                }
            }
            if !done {
                i = i + 1;
                j = j + 1;
            }
        }
    }
    if outcome.is_err() {
        return outcome;
    }
    let mut i: usize = 0;
    let mut j: usize = 0;
    let mut done = false;
    while !done
        invariant
            0 <= i <= 8,
            0 <= j <= deposit_reserves@.len(),
            !done ==> deposits_scan(obligation.deposits@, eg, deposit_reserves@, 0, 0)
                == deposits_scan(obligation.deposits@, eg, deposit_reserves@, i as int, j as int),
            done ==> outcome == deposits_scan(obligation.deposits@, eg, deposit_reserves@, 0, 0),
            eg == match elevation_group {
                Some(g) => Some(*g),
                None => None::<ElevationGroup>,
            },
            elevation_group matches Some(g) ==> 1 <= g.id <= 32,
        decreases 8 - i + (if done { 0int } else { 1int }),
    {
        if i >= 8 {
            outcome = if j < deposit_reserves.len() {
                Err(LendingError::InvalidAccountInput)
            } else {
                Ok(())
            };
            done = true;
        } else if !obligation.deposits[i].is_active() {
            i = i + 1;
        } else if j >= deposit_reserves.len() {
            outcome = if i + 1 < 8 {
                Err(LendingError::InvalidAccountInput)
            } else {
                Ok(())
            };
            done = true;
        } else {
            let d = &obligation.deposits[i];
            let acct = &deposit_reserves[j];
            if !d.deposit_reserve.key_eq(&acct.key) {
                outcome = Err(LendingError::InvalidAccountInput);
                done = true;
            } else {
                match elevation_group {
                    Some(g) => {
                        let index = g.get_index();
                        if !groups_contain(&acct.reserve.config.elevation_groups, g.id) {
                            outcome = Err(LendingError::InconsistentElevationGroup);
                            done = true;
                        } else if acct.key.key_eq(&g.debt_reserve) {
                            outcome = Err(LendingError::ElevationGroupDebtReserveAsCollateral);
                            done = true;
                        } else if acct.reserve.config.borrow_limit_against_this_collateral_in_elevation_group[index]
                            < acct.reserve.borrowed_amounts_against_this_reserve_in_elevation_groups[index] {
                            outcome = Err(LendingError::ElevationGroupBorrowLimitExceeded);
                            done = true;
                        }
                    },
                    None => {},
                }
            }
            if !done {
                i = i + 1;
                j = j + 1;
            }
        }
    }
    outcome
}

/// Records, on a new deposit into a group, the obligation's debt as debt
/// against the deposit's reserve; refused when the reserve is the group's
/// debt reserve, when the group's collateral limit is reached, or when the
/// obligation's debt is not in a single reserve (`total_borrowed` none).
pub fn update_elevation_group_debt_trackers_on_new_deposit(
    total_borrowed: Option<u64>,
    obligation_collateral: &mut ObligationCollateral,
    pre_deposit_count: usize,
    elevation_group: Option<&ElevationGroup>,
    deposit_reserve_pk: &Pubkey,
    deposit_reserve: &mut Reserve,
) -> (r: Result<(), LendingError>)
    requires
        pre_deposit_count < usize::MAX,
        elevation_group matches Some(g) ==> 1 <= g.id <= 32,
        elevation_group matches Some(g) ==> (total_borrowed matches Some(t)
            ==> old(deposit_reserve).borrowed_amounts_against_this_reserve_in_elevation_groups@[g.id
            - 1] + t <= u64::MAX),
    ensures
        match elevation_group {
            None => r is Ok && *final(obligation_collateral) == *old(obligation_collateral)
                && *final(deposit_reserve) == *old(deposit_reserve),
            Some(g) => if g.debt_reserve.bytes@ == deposit_reserve_pk.bytes@ {
                r == Err::<(), LendingError>(LendingError::ElevationGroupDebtReserveAsCollateral)
                    && *final(obligation_collateral) == *old(obligation_collateral)
                    && *final(deposit_reserve) == *old(deposit_reserve)
            } else if g.max_reserves_as_collateral < pre_deposit_count + 1 {
                r == Err::<(), LendingError>(
                    LendingError::ObligationCollateralExceedsElevationGroupLimit,
                ) && *final(obligation_collateral) == *old(obligation_collateral)
                    && *final(deposit_reserve) == *old(deposit_reserve)
            } else {
                match total_borrowed {
                    None => r == Err::<(), LendingError>(
                        LendingError::ObligationElevationGroupMultipleDebtReserve,
                    ) && *final(obligation_collateral) == *old(obligation_collateral)
                        && *final(deposit_reserve) == *old(deposit_reserve),
                    Some(t) => r is Ok && *final(obligation_collateral) == (ObligationCollateral {
                        borrowed_amount_against_this_collateral_in_elevation_group: t,
                        ..*old(obligation_collateral)
                    }) && final(deposit_reserve).borrowed_amounts_against_this_reserve_in_elevation_groups@
                        == old(deposit_reserve).borrowed_amounts_against_this_reserve_in_elevation_groups@.update(
                        g.id - 1,
                        (old(deposit_reserve).borrowed_amounts_against_this_reserve_in_elevation_groups@[g.id - 1]
                            + t) as u64,
                    ) && *final(deposit_reserve) == (Reserve {
                        borrowed_amounts_against_this_reserve_in_elevation_groups: final(deposit_reserve).borrowed_amounts_against_this_reserve_in_elevation_groups,
                        ..*old(deposit_reserve)
                    }),
                }
            },
        },
{
    if let Some(elevation_group) = elevation_group {
        if elevation_group.debt_reserve.key_eq(deposit_reserve_pk) {
            return Err(LendingError::ElevationGroupDebtReserveAsCollateral);
        }
        if (elevation_group.max_reserves_as_collateral as usize) < pre_deposit_count + 1 {
            return Err(LendingError::ObligationCollateralExceedsElevationGroupLimit);
        }
        let elevation_group_index = elevation_group.get_index();
        let total_borrowed = match total_borrowed {
            Some(t) => t,
            None => {
                return Err(LendingError::ObligationElevationGroupMultipleDebtReserve);
            },
        };
        deposit_reserve.borrowed_amounts_against_this_reserve_in_elevation_groups[elevation_group_index] =
            deposit_reserve.borrowed_amounts_against_this_reserve_in_elevation_groups[elevation_group_index]
            + total_borrowed;
        obligation_collateral.borrowed_amount_against_this_collateral_in_elevation_group =
            total_borrowed;
    }
    Ok(())
}

/// The deposit reserve `nr` after the debt `previous_debt_in_elevation_group`
/// recorded against a fully withdrawn deposit of group `elevation_group_id`
/// comes off the reserve `r`'s tracker for that group (down to zero at
/// most); unchanged outside groups.
pub open spec fn spec_full_withdraw_trackers(
    r: Reserve,
    previous_debt_in_elevation_group: u64,
    elevation_group_id: u8,
    nr: Reserve,
) -> bool {
    &&& elevation_group_id == ELEVATION_GROUP_NONE ==> nr == r
    &&& elevation_group_id != ELEVATION_GROUP_NONE ==> ({
        let i = elevation_group_id - 1;
        &&& nr.borrowed_amounts_against_this_reserve_in_elevation_groups@
            == r.borrowed_amounts_against_this_reserve_in_elevation_groups@.update(
            i,
            sat_sub_u64(
                r.borrowed_amounts_against_this_reserve_in_elevation_groups@[i],
                previous_debt_in_elevation_group,
            ),
        )
        &&& nr == (Reserve {
            borrowed_amounts_against_this_reserve_in_elevation_groups: nr.borrowed_amounts_against_this_reserve_in_elevation_groups,
            ..r
        })
    })
}

/// Takes, on the full withdrawal of a deposit from group `elevation_group_id`,
/// the debt that was recorded against it off its reserve's tracker (down to
/// zero at most).
pub fn update_elevation_group_debt_trackers_on_full_withdraw(
    previous_debt_in_elevation_group: u64,
    elevation_group_id: u8,
    deposit_reserve: &mut Reserve,
) -> (r: Result<(), LendingError>)
    requires
        elevation_group_id <= 32,
    ensures
        r is Ok,
        spec_full_withdraw_trackers(
            *old(deposit_reserve),
            previous_debt_in_elevation_group,
            elevation_group_id,
            *final(deposit_reserve),
        ),
{
    if elevation_group_id != ELEVATION_GROUP_NONE {
        let elevation_group_index = (elevation_group_id - 1) as usize;
        deposit_reserve.borrowed_amounts_against_this_reserve_in_elevation_groups[elevation_group_index] =
            deposit_reserve.borrowed_amounts_against_this_reserve_in_elevation_groups[elevation_group_index].saturating_sub(
            previous_debt_in_elevation_group,
        );
    }
    Ok(())
}

/// Errors of the operations that walk the reserves of an obligation's
/// deposits: a lending error, or a reserve account other than the one the
/// deposit names.
#[derive(Clone, Copy, Debug, PartialEq, Eq, Structural)]
pub enum DebtTrackerError {
    Lending(LendingError),
    ReserveKeyMismatch,
}

/// The number of deposit slots below `k` that are in use.
pub open spec fn active_rank(d: Seq<ObligationCollateral>, k: int) -> int
    decreases k,
{
    if k <= 0 {
        0
    } else if d[k - 1].spec_is_active() {
        active_rank(d, k - 1) + 1
    } else {
        active_rank(d, k - 1)
    }
}

/// How many deposits in use, from slot `k` on with account `j` next, find
/// their account in the list: the walk stops at the first deposit without
/// an account or with another reserve's account.
pub open spec fn repay_walk_steps(
    d: Seq<ObligationCollateral>,
    accts: Seq<ReserveAccount>,
    k: int,
    j: int,
) -> int
    decreases d.len() - k,
{
    if k >= d.len() {
        j
    } else if !d[k].spec_is_active() {
        repay_walk_steps(d, accts, k + 1, j)
    } else if j >= accts.len() || accts[j].key.bytes@ != d[k].deposit_reserve.bytes@ {
        j
    } else {
        repay_walk_steps(d, accts, k + 1, j + 1)
    }
}

/// Whether the walk from slot `k` with account `j` next reaches the end.
pub open spec fn repay_walk_completes(
    d: Seq<ObligationCollateral>,
    accts: Seq<ReserveAccount>,
    k: int,
    j: int,
) -> bool
    decreases d.len() - k,
{
    if k >= d.len() {
        true
    } else if !d[k].spec_is_active() {
        repay_walk_completes(d, accts, k + 1, j)
    } else if j >= accts.len() || accts[j].key.bytes@ != d[k].deposit_reserve.bytes@ {
        false
    } else {
        repay_walk_completes(d, accts, k + 1, j + 1)
    }
}

/// `a - b`, or zero when `b` is larger.
pub open spec fn sat_sub_u64(a: u64, b: u64) -> u64 {
    if a >= b {
        (a - b) as u64
    } else {
        0
    }
}

pub(crate) proof fn lemma_rank_step(d: Seq<ObligationCollateral>, k: int)
    requires
        0 <= k,
    ensures
        active_rank(d, k + 1) == active_rank(d, k) + if d[k].spec_is_active() {
            1int
        } else {
            0int
        },
        0 <= active_rank(d, k) <= k,
{
    lemma_rank_bounds(d, k);
}

pub(crate) proof fn lemma_rank_bounds(d: Seq<ObligationCollateral>, k: int)
    requires
        0 <= k,
    ensures
        0 <= active_rank(d, k) <= k,
    decreases k,
{
    if k > 0 {
        lemma_rank_bounds(d, k - 1);
    }
}

/// What the walk over the deposits in use, with their reserve accounts in
/// order, returns: it completes, runs out of accounts, or meets another
/// reserve's account.
pub open spec fn repay_walk_outcome(d: Seq<ObligationCollateral>, accts: Seq<ReserveAccount>) -> Result<
    (),
    DebtTrackerError,
> {
    if repay_walk_completes(d, accts, 0, 0) {
        Ok(())
    } else if repay_walk_steps(d, accts, 0, 0) >= accts.len() {
        Err(DebtTrackerError::Lending(LendingError::InvalidAccountInput))
    } else {
        Err(DebtTrackerError::ReserveKeyMismatch)
    }
}

/// The deposits `nd` after `repay_amount` comes off the debt recorded
/// against each deposit the walk reached (down to zero at most).
pub open spec fn repaid_group_deposits(
    d: Seq<ObligationCollateral>,
    accts: Seq<ReserveAccount>,
    repay_amount: u64,
    nd: Seq<ObligationCollateral>,
) -> bool {
    let steps = repay_walk_steps(d, accts, 0, 0);
    &&& nd.len() == d.len()
    &&& forall|k: int|
        0 <= k < d.len() ==> #[trigger] nd[k] == if d[k].spec_is_active() && active_rank(d, k)
            < steps {
            ObligationCollateral {
                borrowed_amount_against_this_collateral_in_elevation_group: sat_sub_u64(
                    d[k].borrowed_amount_against_this_collateral_in_elevation_group,
                    repay_amount,
                ),
                ..d[k]
            }
        } else {
            d[k]
        }
}

/// The reserve accounts `na` after `repay_amount` comes off the group `gi`
/// tracker of each account the walk reached (down to zero at most).
pub open spec fn repaid_group_accounts(
    d: Seq<ObligationCollateral>,
    accts: Seq<ReserveAccount>,
    repay_amount: u64,
    gi: int,
    na: Seq<ReserveAccount>,
) -> bool {
    let steps = repay_walk_steps(d, accts, 0, 0);
    &&& na.len() == accts.len()
    &&& forall|j: int|
        0 <= j < accts.len() ==> #[trigger] na[j] == if j < steps {
            ReserveAccount {
                reserve: Reserve {
                    borrowed_amounts_against_this_reserve_in_elevation_groups: na[j].reserve.borrowed_amounts_against_this_reserve_in_elevation_groups,
                    ..accts[j].reserve
                },
                ..accts[j]
            }
        } else {
            accts[j]
        }
    &&& forall|j: int|
        0 <= j < steps ==> (#[trigger] na[j]).reserve.borrowed_amounts_against_this_reserve_in_elevation_groups@
            == accts[j].reserve.borrowed_amounts_against_this_reserve_in_elevation_groups@.update(
            gi,
            sat_sub_u64(
                accts[j].reserve.borrowed_amounts_against_this_reserve_in_elevation_groups@[gi],
                repay_amount,
            ),
        )
}

/// What [`update_elevation_group_debt_trackers_on_repay`] makes of the
/// obligation `o`, the borrowed reserve `br` and the deposits' reserve
/// accounts `a` (as `no`, `nbr` and `na`), and what it returns.
pub open spec fn spec_repay_trackers(
    o: Obligation,
    br: Reserve,
    a: Seq<ReserveAccount>,
    repay_amount: u64,
    obligation_borrow_index: usize,
    no: Obligation,
    nbr: Reserve,
    na: Seq<ReserveAccount>,
    r: Result<(), DebtTrackerError>,
) -> bool {
    &&& (o.elevation_group == ELEVATION_GROUP_NONE ==> ({
            let b = o.borrows@[obligation_borrow_index as int];
            &&& r is Ok
            &&& na == a
            &&& nbr == (Reserve {
                borrowed_amount_outside_elevation_group: sat_sub_u64(
                    br.borrowed_amount_outside_elevation_group,
                    repay_amount,
                ),
                ..br
            })
            &&& no.borrows@ == o.borrows@.update(
                obligation_borrow_index as int,
                ObligationLiquidity {
                    borrowed_amount_outside_elevation_groups: sat_sub_u64(
                        b.borrowed_amount_outside_elevation_groups,
                        repay_amount,
                    ),
                    ..b
                },
            )
            &&& no == (Obligation { borrows: no.borrows, ..o })
        }))
    &&& (o.elevation_group != ELEVATION_GROUP_NONE ==> ({
            &&& r == repay_walk_outcome(o.deposits@, a)
            &&& nbr == br
            &&& no == (Obligation { deposits: no.deposits, ..o })
            &&& repaid_group_deposits(o.deposits@, a, repay_amount, no.deposits@)
            &&& repaid_group_accounts(o.deposits@, a, repay_amount, o.elevation_group - 1, na)
        }))
}

/// Takes a repaid amount off the debt trackers: in an elevation group, off
/// each deposit's debt against its reserve and that reserve's tracker for
/// the group, walking the deposits in use with their reserve accounts in
/// order; outside groups, off the borrow's and the borrowed reserve's debt
/// outside groups. Each amount goes down to zero at most. The walk stops
/// with an error at a deposit without an account, or with another
/// reserve's account.
pub fn update_elevation_group_debt_trackers_on_repay(
    repay_amount: u64,
    obligation: &mut Obligation,
    obligation_borrow_index: usize,
    borrow_reserve: &mut Reserve,
    deposit_reserves: &mut Vec<ReserveAccount>,
) -> (r: Result<(), DebtTrackerError>)
    requires
        old(obligation).elevation_group <= 32,
        old(obligation).elevation_group == ELEVATION_GROUP_NONE ==> obligation_borrow_index < 5,
    ensures
        spec_repay_trackers(
            *old(obligation),
            *old(borrow_reserve),
            old(deposit_reserves)@,
            repay_amount,
            obligation_borrow_index,
            *final(obligation),
            *final(borrow_reserve),
            final(deposit_reserves)@,
            r,
        ),
{
    if obligation.elevation_group != ELEVATION_GROUP_NONE {
        let elevation_group_index = (obligation.elevation_group - 1) as usize;
        let ghost d = old(obligation).deposits@;
        let ghost accts = old(deposit_reserves)@;
        let ghost gi = elevation_group_index as int;
        let mut k: usize = 0;
        let mut j: usize = 0;
        while k < 8
            invariant
                0 <= k <= 8,
                j == active_rank(d, k as int),
                j <= accts.len(),
                obligation.elevation_group == old(obligation).elevation_group,
                gi == obligation.elevation_group - 1,
                elevation_group_index == gi,
                0 <= gi < 32,
                d == old(obligation).deposits@,
                accts == old(deposit_reserves)@,
                *borrow_reserve == *old(borrow_reserve),
                repay_walk_steps(d, accts, 0, 0) == repay_walk_steps(d, accts, k as int, j as int),
                repay_walk_completes(d, accts, 0, 0) == repay_walk_completes(
                    d,
                    accts,
                    k as int,
                    j as int,
                ),
                *obligation == (Obligation { deposits: obligation.deposits, ..*old(obligation) }),
                forall|m: int|
                    0 <= m < 8 ==> #[trigger] obligation.deposits@[m] == if m < k
                        && d[m].spec_is_active() {
                        ObligationCollateral {
                            borrowed_amount_against_this_collateral_in_elevation_group: sat_sub_u64(
                                d[m].borrowed_amount_against_this_collateral_in_elevation_group,
                                repay_amount,
                            ),
                            ..d[m]
                        }
                    } else {
                        d[m]
                    },
                deposit_reserves@.len() == accts.len(),
                forall|m: int|
                    0 <= m < accts.len() ==> #[trigger] deposit_reserves@[m] == if m < j {
                        ReserveAccount {
                            reserve: Reserve {
                                borrowed_amounts_against_this_reserve_in_elevation_groups: deposit_reserves@[m].reserve.borrowed_amounts_against_this_reserve_in_elevation_groups,
                                ..accts[m].reserve
                            },
                            ..accts[m]
                        }
                    } else {
                        accts[m]
                    },
                forall|m: int|
                    0 <= m < j ==> (#[trigger] deposit_reserves@[m]).reserve.borrowed_amounts_against_this_reserve_in_elevation_groups@
                        == accts[m].reserve.borrowed_amounts_against_this_reserve_in_elevation_groups@.update(
                        gi,
                        sat_sub_u64(
                            accts[m].reserve.borrowed_amounts_against_this_reserve_in_elevation_groups@[gi],
                            repay_amount,
                        ),
                    ),
            decreases 8 - k,
        {
            proof {
                lemma_rank_step(d, k as int);
            }
            if obligation.deposits[k].is_active() {
                if j >= deposit_reserves.len() {
                    proof {
                        lemma_walk_stops_here(d, accts, k as int, j as int, repay_amount);
                        lemma_updated_slots(d, k as int);
                    }
                    return Err(DebtTrackerError::Lending(LendingError::InvalidAccountInput));
                }
                if !deposit_reserves[j].key.key_eq(&obligation.deposits[k].deposit_reserve) {
                    proof {
                        lemma_walk_stops_here(d, accts, k as int, j as int, repay_amount);
                        lemma_updated_slots(d, k as int);
                    }
                    return Err(DebtTrackerError::ReserveKeyMismatch);
                }
                let mut acct = deposit_reserves[j];
                let pre_debt_amount = acct.reserve.borrowed_amounts_against_this_reserve_in_elevation_groups[elevation_group_index];
                acct.reserve.borrowed_amounts_against_this_reserve_in_elevation_groups[elevation_group_index] = pre_debt_amount.saturating_sub(repay_amount);
                deposit_reserves.set(j, acct);
                let mut deposit = obligation.deposits[k];
                deposit.borrowed_amount_against_this_collateral_in_elevation_group =
                    deposit.borrowed_amount_against_this_collateral_in_elevation_group.saturating_sub(
                    repay_amount,
                );
                obligation.deposits[k] = deposit;
                j = j + 1;
            }
            k = k + 1;
        }
        proof {
            lemma_updated_slots(d, 8);
        }
    } else {
        borrow_reserve.borrowed_amount_outside_elevation_group =
            borrow_reserve.borrowed_amount_outside_elevation_group.saturating_sub(repay_amount);
        let mut b = obligation.borrows[obligation_borrow_index];
        b.borrowed_amount_outside_elevation_groups = b.borrowed_amount_outside_elevation_groups.saturating_sub(
            repay_amount,
        );
        obligation.borrows[obligation_borrow_index] = b;
    }
    Ok(())
}

/// The rank of an active slot is below the rank of any later position.
pub(crate) proof fn lemma_rank_below(d: Seq<ObligationCollateral>, m: int, n: int)
    requires
        0 <= m < n,
        d[m].spec_is_active(),
    ensures
        active_rank(d, m) < active_rank(d, n),
    decreases n - m,
{
    if n == m + 1 {
    } else {
        lemma_rank_below(d, m, n - 1);
    }
}

/// Rank does not decrease.
pub(crate) proof fn lemma_rank_monotone(d: Seq<ObligationCollateral>, k: int, m: int)
    requires
        0 <= k <= m,
    ensures
        active_rank(d, k) <= active_rank(d, m),
    decreases m - k,
{
    if k < m {
        lemma_rank_monotone(d, k, m - 1);
    }
}

/// The slots in use whose rank is below the rank of slot `k` are exactly
/// those before `k`.
proof fn lemma_updated_slots(d: Seq<ObligationCollateral>, k: int)
    requires
        0 <= k <= d.len(),
    ensures
        forall|m: int|
            0 <= m < d.len() ==> ((d[m].spec_is_active() && active_rank(d, m) < active_rank(d, k))
                == (m < k && d[m].spec_is_active())),
{
    assert forall|m: int| 0 <= m < d.len() implies ((d[m].spec_is_active() && active_rank(d, m)
        < active_rank(d, k)) == (m < k && d[m].spec_is_active())) by {
        if m < k && d[m].spec_is_active() {
            lemma_rank_below(d, m, k);
        }
        if m >= k {
            lemma_rank_monotone(d, k, m);
        }
    }
}

/// When the walk stops at active slot `k` with account `j`, it made `j`
/// steps and did not complete.
proof fn lemma_walk_stops_here(
    d: Seq<ObligationCollateral>,
    accts: Seq<ReserveAccount>,
    k: int,
    j: int,
    repay_amount: u64,
)
    requires
        0 <= k < d.len(),
        d[k].spec_is_active(),
        j >= accts.len() || accts[j].key.bytes@ != d[k].deposit_reserve.bytes@,
    ensures
        repay_walk_steps(d, accts, k, j) == j,
        !repay_walk_completes(d, accts, k, j),
{
}

/// Whether account `a` can take `amount` more debt against it in group
/// slot `gi` within its limit for the group.
pub open spec fn within_group_limit(a: ReserveAccount, gi: int, amount: u64) -> bool {
    a.reserve.borrowed_amounts_against_this_reserve_in_elevation_groups@[gi] + amount
        <= a.reserve.config.borrow_limit_against_this_collateral_in_elevation_group@[gi]
}

/// The outcome of the borrow walk from slot `k` with account `j` next: an
/// error at the first deposit in use without an account, with another
/// reserve's account, or whose reserve would pass its limit for the group.
pub open spec fn borrow_walk_result(
    d: Seq<ObligationCollateral>,
    accts: Seq<ReserveAccount>,
    gi: int,
    amount: u64,
    k: int,
    j: int,
) -> Result<(), DebtTrackerError>
    decreases d.len() - k,
{
    if k >= d.len() {
        Ok(())
    } else if !d[k].spec_is_active() {
        borrow_walk_result(d, accts, gi, amount, k + 1, j)
    } else if j >= accts.len() {
        Err(DebtTrackerError::Lending(LendingError::InvalidAccountInput))
    } else if accts[j].key.bytes@ != d[k].deposit_reserve.bytes@ {
        Err(DebtTrackerError::ReserveKeyMismatch)
    } else if !within_group_limit(accts[j], gi, amount) {
        Err(DebtTrackerError::Lending(LendingError::ElevationGroupBorrowLimitExceeded))
    } else {
        borrow_walk_result(d, accts, gi, amount, k + 1, j + 1)
    }
}

/// How many deposits the borrow walk from slot `k` with account `j` next
/// updates before it ends or stops.
pub open spec fn borrow_walk_steps(
    d: Seq<ObligationCollateral>,
    accts: Seq<ReserveAccount>,
    gi: int,
    amount: u64,
    k: int,
    j: int,
) -> int
    decreases d.len() - k,
{
    if k >= d.len() {
        j
    } else if !d[k].spec_is_active() {
        borrow_walk_steps(d, accts, gi, amount, k + 1, j)
    } else if j >= accts.len() || accts[j].key.bytes@ != d[k].deposit_reserve.bytes@
        || !within_group_limit(accts[j], gi, amount) {
        j
    } else {
        borrow_walk_steps(d, accts, gi, amount, k + 1, j + 1)
    }
}

/// The deposits `nd` after a new loan of `amount` is added to the debt
/// recorded against each deposit the borrow walk reached.
pub open spec fn borrowed_group_deposits(
    d: Seq<ObligationCollateral>,
    accts: Seq<ReserveAccount>,
    gi: int,
    amount: u64,
    nd: Seq<ObligationCollateral>,
) -> bool {
    let steps = borrow_walk_steps(d, accts, gi, amount, 0, 0);
    &&& nd.len() == d.len()
    &&& forall|k: int|
        0 <= k < d.len() ==> #[trigger] nd[k] == if d[k].spec_is_active() && active_rank(d, k)
            < steps {
            ObligationCollateral {
                borrowed_amount_against_this_collateral_in_elevation_group: (d[k].borrowed_amount_against_this_collateral_in_elevation_group
                    + amount) as u64,
                ..d[k]
            }
        } else {
            d[k]
        }
}

/// The reserve accounts `na` after a new loan of `amount` is added to the
/// group `gi` tracker of each account the borrow walk reached.
pub open spec fn borrowed_group_accounts(
    d: Seq<ObligationCollateral>,
    accts: Seq<ReserveAccount>,
    gi: int,
    amount: u64,
    na: Seq<ReserveAccount>,
) -> bool {
    let steps = borrow_walk_steps(d, accts, gi, amount, 0, 0);
    &&& na.len() == accts.len()
    &&& forall|j: int|
        0 <= j < accts.len() ==> #[trigger] na[j] == if j < steps {
            ReserveAccount {
                reserve: Reserve {
                    borrowed_amounts_against_this_reserve_in_elevation_groups: na[j].reserve.borrowed_amounts_against_this_reserve_in_elevation_groups,
                    ..accts[j].reserve
                },
                ..accts[j]
            }
        } else {
            accts[j]
        }
    &&& forall|j: int|
        0 <= j < steps ==> (#[trigger] na[j]).reserve.borrowed_amounts_against_this_reserve_in_elevation_groups@
            == accts[j].reserve.borrowed_amounts_against_this_reserve_in_elevation_groups@.update(
            gi,
            (accts[j].reserve.borrowed_amounts_against_this_reserve_in_elevation_groups@[gi]
                + amount) as u64,
        )
}

/// Adds a new loan to the debt trackers: in an elevation group (whose debt
/// reserve must be the borrowed reserve), to each deposit's debt against its
/// reserve and that reserve's tracker for the group, walking the deposits in
/// use with their reserve accounts in order and refusing a reserve that would
/// pass its limit for the group; outside groups, to the borrow's and the
/// borrowed reserve's debt outside groups, refusing a reserve that would pass
/// its limit outside groups.
pub fn update_elevation_group_debt_trackers_on_borrow(
    new_borrowed_amount: u64,
    obligation: &mut Obligation,
    obligation_borrow_index: usize,
    elevation_group: Option<&ElevationGroup>,
    borrow_reserve_pk: &Pubkey,
    borrow_reserve: &mut Reserve,
    deposit_reserves: &mut Vec<ReserveAccount>,
) -> (r: Result<(), DebtTrackerError>)
    requires
        elevation_group matches Some(g) ==> 1 <= g.id <= 32,
        elevation_group matches Some(g) ==> g.debt_reserve.bytes@ == borrow_reserve_pk.bytes@ ==> (
        forall|k: int|
            0 <= k < 8 && old(obligation).deposits@[k].spec_is_active() && active_rank(
                old(obligation).deposits@,
                k,
            ) < borrow_walk_steps(
                old(obligation).deposits@,
                old(deposit_reserves)@,
                g.id - 1,
                new_borrowed_amount,
                0,
                0,
            ) ==> #[trigger] old(obligation).deposits@[k].borrowed_amount_against_this_collateral_in_elevation_group
                + new_borrowed_amount <= u64::MAX),
        elevation_group is None ==> obligation_borrow_index < 5,
        elevation_group is None && old(borrow_reserve).borrowed_amount_outside_elevation_group
            + new_borrowed_amount <= old(borrow_reserve).config.borrow_limit_outside_elevation_group ==> old(obligation).borrows@[obligation_borrow_index as int].borrowed_amount_outside_elevation_groups
            + new_borrowed_amount <= u64::MAX,
    ensures
        elevation_group is None ==> ({
            let b = old(obligation).borrows@[obligation_borrow_index as int];
            let total = old(borrow_reserve).borrowed_amount_outside_elevation_group
                + new_borrowed_amount;
            &&& *final(deposit_reserves) == *old(deposit_reserves)
            &&& total > u64::MAX ==> r == Err::<(), DebtTrackerError>(
                DebtTrackerError::Lending(LendingError::MathOverflow),
            ) && *final(borrow_reserve) == *old(borrow_reserve) && *final(obligation) == *old(obligation)
            &&& total <= u64::MAX && total > old(borrow_reserve).config.borrow_limit_outside_elevation_group
                ==> r == Err::<(), DebtTrackerError>(
                DebtTrackerError::Lending(LendingError::BorrowLimitExceeded),
            ) && *final(borrow_reserve) == *old(borrow_reserve) && *final(obligation) == *old(obligation)
            &&& total <= old(borrow_reserve).config.borrow_limit_outside_elevation_group ==> r is Ok
                && *final(borrow_reserve) == (Reserve {
                borrowed_amount_outside_elevation_group: total as u64,
                ..*old(borrow_reserve)
            }) && final(obligation).borrows@ == old(obligation).borrows@.update(
                obligation_borrow_index as int,
                ObligationLiquidity {
                    borrowed_amount_outside_elevation_groups: (b.borrowed_amount_outside_elevation_groups
                        + new_borrowed_amount) as u64,
                    ..b
                },
            ) && *final(obligation) == (Obligation {
                borrows: final(obligation).borrows,
                ..*old(obligation)
            })
        }),
        elevation_group matches Some(g) ==> g.debt_reserve.bytes@ != borrow_reserve_pk.bytes@
            ==> r == Err::<(), DebtTrackerError>(
            DebtTrackerError::Lending(LendingError::ElevationGroupHasAnotherDebtReserve),
        ) && *final(obligation) == *old(obligation) && *final(borrow_reserve) == *old(borrow_reserve) && *final(deposit_reserves) == *old(deposit_reserves),
        elevation_group matches Some(g) ==> g.debt_reserve.bytes@ == borrow_reserve_pk.bytes@
            ==> ({
            let d = old(obligation).deposits@;
            let accts = old(deposit_reserves)@;
            let gi = g.id - 1;
            let steps = borrow_walk_steps(d, accts, gi, new_borrowed_amount, 0, 0);
            &&& r == borrow_walk_result(d, accts, gi, new_borrowed_amount, 0, 0)
            &&& *final(borrow_reserve) == *old(borrow_reserve)
            &&& *final(obligation) == (Obligation {
                deposits: final(obligation).deposits,
                ..*old(obligation)
            })
            &&& borrowed_group_deposits(d, accts, gi, new_borrowed_amount, final(obligation).deposits@)
            &&& borrowed_group_accounts(d, accts, gi, new_borrowed_amount, final(deposit_reserves)@)
        }),
{
    if let Some(group) = elevation_group {
        let elevation_group_index = group.get_index();
        if !group.debt_reserve.key_eq(borrow_reserve_pk) {
            return Err(DebtTrackerError::Lending(LendingError::ElevationGroupHasAnotherDebtReserve));
        }
        let ghost d = old(obligation).deposits@;
        let ghost accts = old(deposit_reserves)@;
        let ghost gi = elevation_group_index as int;
        let mut k: usize = 0;
        let mut j: usize = 0;
        while k < 8
            invariant
                0 <= k <= 8,
                j == active_rank(d, k as int),
                j <= accts.len(),
                elevation_group == Some(group),
                group.debt_reserve.bytes@ == borrow_reserve_pk.bytes@,
                gi == group.id - 1,
                elevation_group_index == gi,
                0 <= gi < 32,
                d == old(obligation).deposits@,
                accts == old(deposit_reserves)@,
                *borrow_reserve == *old(borrow_reserve),
                borrow_walk_steps(d, accts, gi, new_borrowed_amount, 0, 0) == borrow_walk_steps(
                    d,
                    accts,
                    gi,
                    new_borrowed_amount,
                    k as int,
                    j as int,
                ),
                borrow_walk_result(d, accts, gi, new_borrowed_amount, 0, 0) == borrow_walk_result(
                    d,
                    accts,
                    gi,
                    new_borrowed_amount,
                    k as int,
                    j as int,
                ),
                forall|m: int|
                    0 <= m < 8 && d[m].spec_is_active() && active_rank(d, m) < borrow_walk_steps(
                        d,
                        accts,
                        gi,
                        new_borrowed_amount,
                        0,
                        0,
                    ) ==> #[trigger] d[m].borrowed_amount_against_this_collateral_in_elevation_group
                        + new_borrowed_amount <= u64::MAX,
                *obligation == (Obligation { deposits: obligation.deposits, ..*old(obligation) }),
                forall|m: int|
                    0 <= m < 8 ==> #[trigger] obligation.deposits@[m] == if m < k
                        && d[m].spec_is_active() {
                        ObligationCollateral {
                            borrowed_amount_against_this_collateral_in_elevation_group: (d[m].borrowed_amount_against_this_collateral_in_elevation_group
                                + new_borrowed_amount) as u64,
                            ..d[m]
                        }
                    } else {
                        d[m]
                    },
                deposit_reserves@.len() == accts.len(),
                forall|m: int|
                    0 <= m < accts.len() ==> #[trigger] deposit_reserves@[m] == if m < j {
                        ReserveAccount {
                            reserve: Reserve {
                                borrowed_amounts_against_this_reserve_in_elevation_groups: deposit_reserves@[m].reserve.borrowed_amounts_against_this_reserve_in_elevation_groups,
                                ..accts[m].reserve
                            },
                            ..accts[m]
                        }
                    } else {
                        accts[m]
                    },
                forall|m: int|
                    0 <= m < j ==> (#[trigger] deposit_reserves@[m]).reserve.borrowed_amounts_against_this_reserve_in_elevation_groups@
                        == accts[m].reserve.borrowed_amounts_against_this_reserve_in_elevation_groups@.update(
                        gi,
                        (accts[m].reserve.borrowed_amounts_against_this_reserve_in_elevation_groups@[gi]
                            + new_borrowed_amount) as u64,
                    ),
            decreases 8 - k,
        {
            proof {
                lemma_rank_step(d, k as int);
            }
            if obligation.deposits[k].is_active() {
                if j >= deposit_reserves.len() {
                    proof {
                        lemma_updated_slots(d, k as int);
                    }
                    return Err(DebtTrackerError::Lending(LendingError::InvalidAccountInput));
                }
                if !deposit_reserves[j].key.key_eq(&obligation.deposits[k].deposit_reserve) {
                    proof {
                        lemma_updated_slots(d, k as int);
                    }
                    return Err(DebtTrackerError::ReserveKeyMismatch);
                }
                let mut acct = deposit_reserves[j];
                let debt_limit = acct.reserve.config.borrow_limit_against_this_collateral_in_elevation_group[elevation_group_index];
                let prev = acct.reserve.borrowed_amounts_against_this_reserve_in_elevation_groups[elevation_group_index];
                let new_amount = match prev.checked_add(new_borrowed_amount) {
                    Some(v) => v,
                    None => {
                        proof {
                            lemma_updated_slots(d, k as int);
                        }
                        return Err(
                            DebtTrackerError::Lending(LendingError::ElevationGroupBorrowLimitExceeded),
                        );
                    },
                };
                if debt_limit < new_amount {
                    proof {
                        lemma_updated_slots(d, k as int);
                    }
                    return Err(
                        DebtTrackerError::Lending(LendingError::ElevationGroupBorrowLimitExceeded),
                    );
                }
                proof {
                    lemma_rank_below(d, k as int, 8);
                    lemma_rank_monotone(d, k as int + 1, 8);
                    assert(active_rank(d, k as int) < borrow_walk_steps(
                        d,
                        accts,
                        gi,
                        new_borrowed_amount,
                        0,
                        0,
                    )) by {
                        lemma_steps_at_least(d, accts, gi, new_borrowed_amount, k as int + 1, j as int + 1);
                    }
                }
                acct.reserve.borrowed_amounts_against_this_reserve_in_elevation_groups[elevation_group_index] = new_amount;
                deposit_reserves.set(j, acct);
                let mut deposit = obligation.deposits[k];
                deposit.borrowed_amount_against_this_collateral_in_elevation_group =
                    deposit.borrowed_amount_against_this_collateral_in_elevation_group + new_borrowed_amount;
                obligation.deposits[k] = deposit;
                j = j + 1;
            }
            k = k + 1;
        }
        proof {
            lemma_updated_slots(d, 8);
        }
    } else {
        let borrow_limit = borrow_reserve.config.borrow_limit_outside_elevation_group;
        let new_total_borrow_amount = match borrow_reserve.borrowed_amount_outside_elevation_group.checked_add(
            new_borrowed_amount,
        ) {
            Some(v) => v,
            None => {
                return Err(DebtTrackerError::Lending(LendingError::MathOverflow));
            },
        };
        if borrow_limit < new_total_borrow_amount {
            return Err(DebtTrackerError::Lending(LendingError::BorrowLimitExceeded));
        }
        borrow_reserve.borrowed_amount_outside_elevation_group = new_total_borrow_amount;
        let mut b = obligation.borrows[obligation_borrow_index];
        b.borrowed_amount_outside_elevation_groups = b.borrowed_amount_outside_elevation_groups
            + new_borrowed_amount;
        obligation.borrows[obligation_borrow_index] = b;
    }
    Ok(())
}

/// The walk makes at least as many steps as it has made.
proof fn lemma_steps_at_least(
    d: Seq<ObligationCollateral>,
    accts: Seq<ReserveAccount>,
    gi: int,
    amount: u64,
    k: int,
    j: int,
)
    requires
        0 <= k,
    ensures
        borrow_walk_steps(d, accts, gi, amount, k, j) >= j,
    decreases d.len() - k,
{
    if k >= d.len() {
    } else if !d[k].spec_is_active() {
        lemma_steps_at_least(d, accts, gi, amount, k + 1, j);
    } else if j >= accts.len() || accts[j].key.bytes@ != d[k].deposit_reserve.bytes@
        || !within_group_limit(accts[j], gi, amount) {
    } else {
        lemma_steps_at_least(d, accts, gi, amount, k + 1, j + 1);
    }
}

/// What settling a liquidation makes of the obligation `o` and the repaid
/// reserve `rr` (as `no` and `nrr`), and what it returns; see
/// [`repay_and_withdraw_from_obligation_post_liquidation`].
pub open spec fn spec_post_liquidation(
    o: Obligation,
    rr: Reserve,
    settle_amount_f: Fraction,
    withdraw_amount: u64,
    repay_amount: u64,
    liquidity_index: usize,
    collateral_index: usize,
    no: Obligation,
    nrr: Reserve,
    r: Result<(), LendingError>,
) -> bool {
    &&& repay_amount == 0 || withdraw_amount == 0 ==> r == Err::<(), LendingError>(
        LendingError::LiquidationTooSmall,
    ) && no == o && nrr == rr
    &&& repay_amount != 0 && withdraw_amount != 0 && rr.liquidity.available_amount + repay_amount
        > u64::MAX ==> r == Err::<(), LendingError>(LendingError::MathOverflow) && no == o && nrr
        == rr
    &&& repay_amount != 0 && withdraw_amount != 0 && rr.liquidity.available_amount + repay_amount
        <= u64::MAX ==> ({
        let b = o.borrows@[liquidity_index as int];
        let c = o.deposits@[collateral_index as int];
        &&& nrr == (Reserve {
            liquidity: nrr.liquidity,
            last_update: LastUpdate { stale: 1, ..rr.last_update },
            ..rr
        })
        &&& nrr.liquidity == spec_repaid_liquidity(rr.liquidity, repay_amount, settle_amount_f)
        &&& settle_amount_f.val() == b.borrowed_amount_sf
            ==> no.borrows@[liquidity_index as int].is_zeroed()
        &&& settle_amount_f.val() != b.borrowed_amount_sf ==> no.borrows@[liquidity_index as int]
            == (ObligationLiquidity {
            borrowed_amount_sf: (b.borrowed_amount_sf - settle_amount_f.val()) as u128,
            ..b
        })
        &&& forall|i: int|
            0 <= i < 5 && i != liquidity_index ==> #[trigger] no.borrows@[i] == o.borrows@[i]
        &&& withdraw_amount > c.deposited_amount ==> r == Err::<(), LendingError>(
            LendingError::MathOverflow,
        ) && no == (Obligation { borrows: no.borrows, ..o })
        &&& withdraw_amount <= c.deposited_amount ==> r is Ok && no == (Obligation {
            borrows: no.borrows,
            deposits: no.deposits,
            has_debt: if no.no_active_borrows() {
                0u8
            } else {
                1u8
            },
            last_update: LastUpdate { stale: 1, ..o.last_update },
            ..o
        }) && (withdraw_amount == c.deposited_amount
            ==> no.deposits@[collateral_index as int].is_zeroed()) && (withdraw_amount
            < c.deposited_amount ==> no.deposits@[collateral_index as int] == (ObligationCollateral {
            deposited_amount: (c.deposited_amount - withdraw_amount) as u64,
            ..c
        })) && (forall|i: int|
            0 <= i < 8 && i != collateral_index ==> #[trigger] no.deposits@[i] == o.deposits@[i])
    })
}

/// A reserve's liquidity after `repay_amount` tokens come in and settle
/// `settle_amount_f` of its debt (down to zero at most).
pub open spec fn spec_repaid_liquidity(
    l: crate::reserve::ReserveLiquidity,
    repay_amount: u64,
    settle_amount_f: Fraction,
) -> crate::reserve::ReserveLiquidity {
    crate::reserve::ReserveLiquidity {
        available_amount: (l.available_amount + repay_amount) as u64,
        borrowed_amount_sf: if settle_amount_f.val() <= l.borrowed_amount_sf {
            (l.borrowed_amount_sf - settle_amount_f.val()) as u128
        } else {
            0u128
        },
        ..l
    }
}

/// Settles a liquidation on the obligation and the repaid reserve: the
/// liquidator's repayment goes into the reserve and settles part of borrow
/// `liquidity_index`, the collateral leaves deposit `collateral_index`, and
/// both accounts are marked stale. Refused when either amount is zero;
/// an error when the reserve's available amount would overflow, or when
/// more collateral is withdrawn than is deposited (the repayment is then
/// already recorded).
pub fn repay_and_withdraw_from_obligation_post_liquidation(
    obligation: &mut Obligation,
    repay_reserve: &mut Reserve,
    settle_amount_f: Fraction,
    withdraw_amount: u64,
    repay_amount: u64,
    liquidity_index: usize,
    collateral_index: usize,
) -> (r: Result<(), LendingError>)
    requires
        liquidity_index < 5,
        collateral_index < 8,
        repay_amount != 0 && withdraw_amount != 0 && old(repay_reserve).liquidity.available_amount
            + repay_amount <= u64::MAX ==> settle_amount_f.val() <= old(obligation).borrows@[liquidity_index as int].borrowed_amount_sf,
    ensures
        spec_post_liquidation(
            *old(obligation),
            *old(repay_reserve),
            settle_amount_f,
            withdraw_amount,
            repay_amount,
            liquidity_index,
            collateral_index,
            *final(obligation),
            *final(repay_reserve),
            r,
        ),
{
    if repay_amount == 0 {
        return Err(LendingError::LiquidationTooSmall);
    }
    if withdraw_amount == 0 {
        return Err(LendingError::LiquidationTooSmall);
    }
    if let Err(e) = repay_reserve.liquidity.repay(repay_amount, settle_amount_f) {
        return Err(e);
    }
    repay_reserve.last_update.mark_stale();
    obligation.repay(settle_amount_f, liquidity_index);
    if let Err(e) = obligation.withdraw(withdraw_amount, collateral_index) {
        return Err(e);
    }
    obligation.update_has_debt();
    obligation.last_update.mark_stale();
    Ok(())
}

/// Whether some deposit slot from `m` on is in use.
pub open spec fn deposit_active_from(d: Seq<ObligationCollateral>, m: int) -> bool {
    exists|i: int| m <= i < d.len() && (#[trigger] d[i]).spec_is_active()
}

/// Whether some borrow slot from `m` on is in use.
pub open spec fn borrow_active_from(b: Seq<ObligationLiquidity>, m: int) -> bool {
    exists|i: int| m <= i < b.len() && (#[trigger] b[i]).spec_is_active()
}

/// The number of borrow slots below `k` that are in use.
pub open spec fn borrow_rank(b: Seq<ObligationLiquidity>, k: int) -> int
    decreases k,
{
    if k <= 0 {
        0
    } else if b[k - 1].spec_is_active() {
        borrow_rank(b, k - 1) + 1
    } else {
        borrow_rank(b, k - 1)
    }
}

/// The outcome of resetting the group debts of the deposits from slot `k`
/// with account `j` next: an error for an account of another reserve, for a
/// deposit left without an account after one that had none, or for an
/// account left over.
pub open spec fn reset_deposits_result(
    d: Seq<ObligationCollateral>,
    accts: Seq<ReserveAccount>,
    k: int,
    j: int,
) -> Result<(), LendingError>
    decreases d.len() - k,
{
    if k >= d.len() {
        if j < accts.len() {
            Err(LendingError::InvalidAccountInput)
        } else {
            Ok(())
        }
    } else if !d[k].spec_is_active() {
        reset_deposits_result(d, accts, k + 1, j)
    } else if j >= accts.len() {
        if deposit_active_from(d, k + 1) {
            Err(LendingError::InvalidAccountInput)
        } else {
            Ok(())
        }
    } else if accts[j].key.bytes@ != d[k].deposit_reserve.bytes@ {
        Err(LendingError::InvalidAccountInput)
    } else {
        reset_deposits_result(d, accts, k + 1, j + 1)
    }
}

/// How many deposits, from slot `k` with account `j` next, are reset before
/// the accounts run out or one belongs to another reserve.
pub open spec fn reset_deposits_steps(
    d: Seq<ObligationCollateral>,
    accts: Seq<ReserveAccount>,
    k: int,
    j: int,
) -> int
    decreases d.len() - k,
{
    if k >= d.len() {
        j
    } else if !d[k].spec_is_active() {
        reset_deposits_steps(d, accts, k + 1, j)
    } else if j >= accts.len() || accts[j].key.bytes@ != d[k].deposit_reserve.bytes@ {
        j
    } else {
        reset_deposits_steps(d, accts, k + 1, j + 1)
    }
}

/// The outcome of resetting the debts outside groups of the borrows from
/// slot `k` with account `j` next: an error for a borrow left without an
/// account after one that had none, or for an account left over.
pub open spec fn reset_borrows_result(
    b: Seq<ObligationLiquidity>,
    accts: Seq<ReserveAccount>,
    k: int,
    j: int,
) -> Result<(), LendingError>
    decreases b.len() - k,
{
    if k >= b.len() {
        if j < accts.len() {
            Err(LendingError::InvalidAccountInput)
        } else {
            Ok(())
        }
    } else if !b[k].spec_is_active() {
        reset_borrows_result(b, accts, k + 1, j)
    } else if j >= accts.len() {
        if borrow_active_from(b, k + 1) {
            Err(LendingError::InvalidAccountInput)
        } else {
            Ok(())
        }
    } else {
        reset_borrows_result(b, accts, k + 1, j + 1)
    }
}

/// How many borrows, from slot `k` with account `j` next, are reset before
/// the accounts run out.
pub open spec fn reset_borrows_steps(
    b: Seq<ObligationLiquidity>,
    accts: Seq<ReserveAccount>,
    k: int,
    j: int,
) -> int
    decreases b.len() - k,
{
    if k >= b.len() {
        j
    } else if !b[k].spec_is_active() {
        reset_borrows_steps(b, accts, k + 1, j)
    } else if j >= accts.len() {
        j
    } else {
        reset_borrows_steps(b, accts, k + 1, j + 1)
    }
}

pub(crate) proof fn lemma_borrow_rank_step(b: Seq<ObligationLiquidity>, k: int)
    requires
        0 <= k,
    ensures
        borrow_rank(b, k + 1) == borrow_rank(b, k) + if b[k].spec_is_active() {
            1int
        } else {
            0int
        },
        0 <= borrow_rank(b, k) <= k,
{
    lemma_borrow_rank_bounds(b, k);
}

pub(crate) proof fn lemma_borrow_rank_bounds(b: Seq<ObligationLiquidity>, k: int)
    requires
        0 <= k,
    ensures
        0 <= borrow_rank(b, k) <= k,
    decreases k,
{
    if k > 0 {
        lemma_borrow_rank_bounds(b, k - 1);
    }
}

pub(crate) proof fn lemma_borrow_rank_below(b: Seq<ObligationLiquidity>, m: int, n: int)
    requires
        0 <= m < n,
        b[m].spec_is_active(),
    ensures
        borrow_rank(b, m) < borrow_rank(b, n),
    decreases n - m,
{
    if n > m + 1 {
        lemma_borrow_rank_below(b, m, n - 1);
    }
}

pub(crate) proof fn lemma_borrow_rank_monotone(b: Seq<ObligationLiquidity>, k: int, m: int)
    requires
        0 <= k <= m,
    ensures
        borrow_rank(b, k) <= borrow_rank(b, m),
    decreases m - k,
{
    if k < m {
        lemma_borrow_rank_monotone(b, k, m - 1);
    }
}

proof fn lemma_borrow_updated_slots(b: Seq<ObligationLiquidity>, k: int)
    requires
        0 <= k <= b.len(),
    ensures
        forall|m: int|
            0 <= m < b.len() ==> ((b[m].spec_is_active() && borrow_rank(b, m) < borrow_rank(b, k))
                == (m < k && b[m].spec_is_active())),
{
    assert forall|m: int| 0 <= m < b.len() implies ((b[m].spec_is_active() && borrow_rank(b, m)
        < borrow_rank(b, k)) == (m < k && b[m].spec_is_active())) by {
        if m < k && b[m].spec_is_active() {
            lemma_borrow_rank_below(b, m, k);
        }
        if m >= k {
            lemma_borrow_rank_monotone(b, k, m);
        }
    }
}

/// The account with `amount` less debt (at most all) against its reserve in
/// group slot `gi`.
pub open spec fn group_debt_released(a: ReserveAccount, gi: int, amount: u64) -> Seq<u64> {
    a.reserve.borrowed_amounts_against_this_reserve_in_elevation_groups@.update(
        gi,
        sat_sub_u64(a.reserve.borrowed_amounts_against_this_reserve_in_elevation_groups@[gi], amount),
    )
}

/// Clears the debts that an obligation has recorded for its current
/// elevation group (or, outside groups, outside groups), taking each off the
/// tracker of the reserve it was recorded against. The reserve accounts are
/// walked in order with the deposits (in a group) or the borrows (outside)
/// that are in use.
pub fn reset_elevation_group_debts(
    obligation: &mut Obligation,
    elevation_group: Option<&ElevationGroup>,
    deposit_reserves: &mut Vec<ReserveAccount>,
    borrow_reserves: &mut Vec<ReserveAccount>,
) -> (r: Result<(), LendingError>)
    requires
        elevation_group matches Some(g) ==> 1 <= g.id <= 32,
    ensures
        elevation_group matches Some(g) ==> ({
            let d = old(obligation).deposits@;
            let accts = old(deposit_reserves)@;
            let gi = g.id - 1;
            let steps = reset_deposits_steps(d, accts, 0, 0);
            &&& r == reset_deposits_result(d, accts, 0, 0)
            &&& *final(borrow_reserves) == *old(borrow_reserves)
            &&& *final(obligation) == (Obligation {
                deposits: final(obligation).deposits,
                ..*old(obligation)
            })
            &&& forall|k: int|
                0 <= k < 8 ==> #[trigger] final(obligation).deposits@[k] == if d[k].spec_is_active()
                    && active_rank(d, k) < steps {
                    ObligationCollateral {
                        borrowed_amount_against_this_collateral_in_elevation_group: 0,
                        ..d[k]
                    }
                } else {
                    d[k]
                }
            &&& final(deposit_reserves)@.len() == accts.len()
            &&& forall|j: int|
                0 <= j < accts.len() ==> #[trigger] final(deposit_reserves)@[j] == if j < steps {
                    ReserveAccount {
                        reserve: Reserve {
                            borrowed_amounts_against_this_reserve_in_elevation_groups: final(deposit_reserves)@[j].reserve.borrowed_amounts_against_this_reserve_in_elevation_groups,
                            ..accts[j].reserve
                        },
                        ..accts[j]
                    }
                } else {
                    accts[j]
                }
            &&& forall|k: int|
                0 <= k < 8 && d[k].spec_is_active() && active_rank(d, k) < steps
                    ==> #[trigger] final(deposit_reserves)@[active_rank(d, k)].reserve.borrowed_amounts_against_this_reserve_in_elevation_groups@
                    == group_debt_released(
                    accts[active_rank(d, k)],
                    gi,
                    d[k].borrowed_amount_against_this_collateral_in_elevation_group,
                )
        }),
        elevation_group is None ==> ({
            let b = old(obligation).borrows@;
            let accts = old(borrow_reserves)@;
            let steps = reset_borrows_steps(b, accts, 0, 0);
            &&& r == reset_borrows_result(b, accts, 0, 0)
            &&& *final(deposit_reserves) == *old(deposit_reserves)
            &&& *final(obligation) == (Obligation {
                borrows: final(obligation).borrows,
                ..*old(obligation)
            })
            &&& forall|k: int|
                0 <= k < 5 ==> #[trigger] final(obligation).borrows@[k] == if b[k].spec_is_active()
                    && borrow_rank(b, k) < steps {
                    ObligationLiquidity { borrowed_amount_outside_elevation_groups: 0, ..b[k] }
                } else {
                    b[k]
                }
            &&& final(borrow_reserves)@.len() == accts.len()
            &&& forall|j: int|
                0 <= j < accts.len() && j >= steps ==> #[trigger] final(borrow_reserves)@[j]
                    == accts[j]
            &&& forall|k: int|
                0 <= k < 5 && b[k].spec_is_active() && borrow_rank(b, k) < steps
                    ==> #[trigger] final(borrow_reserves)@[borrow_rank(b, k)] == (ReserveAccount {
                    reserve: Reserve {
                        borrowed_amount_outside_elevation_group: sat_sub_u64(
                            accts[borrow_rank(b, k)].reserve.borrowed_amount_outside_elevation_group,
                            b[k].borrowed_amount_outside_elevation_groups,
                        ),
                        ..accts[borrow_rank(b, k)].reserve
                    },
                    ..accts[borrow_rank(b, k)]
                })
        }),
{
    if let Some(group) = elevation_group {
        let elevation_group_index = group.get_index();
        let ghost d = old(obligation).deposits@;
        let ghost accts = old(deposit_reserves)@;
        let ghost gi = elevation_group_index as int;
        let mut k: usize = 0;
        let mut j: usize = 0;
        while k < 8
            invariant
                0 <= k <= 8,
                j == active_rank(d, k as int),
                j <= accts.len(),
                elevation_group == Some(group),
                gi == group.id - 1,
                elevation_group_index == gi,
                0 <= gi < 32,
                d == old(obligation).deposits@,
                accts == old(deposit_reserves)@,
                *borrow_reserves == *old(borrow_reserves),
                reset_deposits_steps(d, accts, 0, 0) == reset_deposits_steps(
                    d,
                    accts,
                    k as int,
                    j as int,
                ),
                reset_deposits_result(d, accts, 0, 0) == reset_deposits_result(
                    d,
                    accts,
                    k as int,
                    j as int,
                ),
                *obligation == (Obligation { deposits: obligation.deposits, ..*old(obligation) }),
                forall|m: int|
                    0 <= m < 8 ==> #[trigger] obligation.deposits@[m] == if m < k
                        && d[m].spec_is_active() {
                        ObligationCollateral {
                            borrowed_amount_against_this_collateral_in_elevation_group: 0,
                            ..d[m]
                        }
                    } else {
                        d[m]
                    },
                deposit_reserves@.len() == accts.len(),
                forall|m: int|
                    0 <= m < accts.len() ==> #[trigger] deposit_reserves@[m] == if m < j {
                        ReserveAccount {
                            reserve: Reserve {
                                borrowed_amounts_against_this_reserve_in_elevation_groups: deposit_reserves@[m].reserve.borrowed_amounts_against_this_reserve_in_elevation_groups,
                                ..accts[m].reserve
                            },
                            ..accts[m]
                        }
                    } else {
                        accts[m]
                    },
                forall|m: int|
                    0 <= m < k && d[m].spec_is_active()
                        ==> #[trigger] deposit_reserves@[active_rank(d, m)].reserve.borrowed_amounts_against_this_reserve_in_elevation_groups@
                        == group_debt_released(
                        accts[active_rank(d, m)],
                        gi,
                        d[m].borrowed_amount_against_this_collateral_in_elevation_group,
                    ),
            decreases 8 - k,
        {
            proof {
                lemma_rank_step(d, k as int);
            }
            if obligation.deposits[k].is_active() {
                if j >= deposit_reserves.len() {
                    proof {
                        lemma_updated_slots(d, k as int);
                    }
                    let more = deposits_active_after(obligation, k + 1);
                    proof {
                        if !more {
                            assert forall|i: int| k + 1 <= i < 8 implies !(#[trigger] d[i]).spec_is_active() by {
                                assert(obligation.deposits@[i] == d[i]);
                            }
                        }
                    }
                    if more {
                        return Err(LendingError::InvalidAccountInput);
                    }
                    return Ok(());
                }
                if !obligation.deposits[k].deposit_reserve.key_eq(&deposit_reserves[j].key) {
                    proof {
                        lemma_updated_slots(d, k as int);
                    }
                    return Err(LendingError::InvalidAccountInput);
                }
                let ghost before = deposit_reserves@;
                let mut acct = deposit_reserves[j];
                let deposit = obligation.deposits[k];
                acct.reserve.borrowed_amounts_against_this_reserve_in_elevation_groups[elevation_group_index] =
                    acct.reserve.borrowed_amounts_against_this_reserve_in_elevation_groups[elevation_group_index].saturating_sub(
                    deposit.borrowed_amount_against_this_collateral_in_elevation_group,
                );
                deposit_reserves.set(j, acct);
                obligation.deposits[k] = ObligationCollateral {
                    borrowed_amount_against_this_collateral_in_elevation_group: 0,
                    ..deposit
                };
                proof {
                    assert forall|m: int|
                        0 <= m < k + 1 && d[m].spec_is_active() implies (#[trigger] deposit_reserves@[active_rank(d, m)]).reserve.borrowed_amounts_against_this_reserve_in_elevation_groups@
                        == group_debt_released(
                        accts[active_rank(d, m)],
                        gi,
                        d[m].borrowed_amount_against_this_collateral_in_elevation_group,
                    ) by {
                        lemma_rank_bounds(d, m);
                        if m < k {
                            lemma_rank_below(d, m, k as int);
                            assert(before[active_rank(d, m)].reserve.borrowed_amounts_against_this_reserve_in_elevation_groups@
                                == group_debt_released(
                                accts[active_rank(d, m)],
                                gi,
                                d[m].borrowed_amount_against_this_collateral_in_elevation_group,
                            ));
                        } else {
                            assert(m == k);
                            assert(acct.reserve.borrowed_amounts_against_this_reserve_in_elevation_groups@ =~= group_debt_released(
                                accts[j as int],
                                gi,
                                d[m].borrowed_amount_against_this_collateral_in_elevation_group,
                            ));
                        }
                    }
                }
                j = j + 1;
            }
            k = k + 1;
        }
        proof {
            lemma_updated_slots(d, 8);
        }
        if j < deposit_reserves.len() {
            return Err(LendingError::InvalidAccountInput);
        }
    } else {
        let ghost b = old(obligation).borrows@;
        let ghost accts = old(borrow_reserves)@;
        let mut k: usize = 0;
        let mut j: usize = 0;
        while k < 5
            invariant
                0 <= k <= 5,
                j == borrow_rank(b, k as int),
                j <= accts.len(),
                elevation_group is None,
                b == old(obligation).borrows@,
                accts == old(borrow_reserves)@,
                *deposit_reserves == *old(deposit_reserves),
                reset_borrows_steps(b, accts, 0, 0) == reset_borrows_steps(
                    b,
                    accts,
                    k as int,
                    j as int,
                ),
                reset_borrows_result(b, accts, 0, 0) == reset_borrows_result(
                    b,
                    accts,
                    k as int,
                    j as int,
                ),
                *obligation == (Obligation { borrows: obligation.borrows, ..*old(obligation) }),
                forall|m: int|
                    0 <= m < 5 ==> #[trigger] obligation.borrows@[m] == if m < k
                        && b[m].spec_is_active() {
                        ObligationLiquidity { borrowed_amount_outside_elevation_groups: 0, ..b[m] }
                    } else {
                        b[m]
                    },
                borrow_reserves@.len() == accts.len(),
                forall|m: int| 0 <= m < accts.len() && m >= j ==> #[trigger] borrow_reserves@[m] == accts[m],
                forall|m: int|
                    0 <= m < k && b[m].spec_is_active() ==> #[trigger] borrow_reserves@[borrow_rank(b, m)]
                        == (ReserveAccount {
                        reserve: Reserve {
                            borrowed_amount_outside_elevation_group: sat_sub_u64(
                                accts[borrow_rank(b, m)].reserve.borrowed_amount_outside_elevation_group,
                                b[m].borrowed_amount_outside_elevation_groups,
                            ),
                            ..accts[borrow_rank(b, m)].reserve
                        },
                        ..accts[borrow_rank(b, m)]
                    }),
            decreases 5 - k,
        {
            proof {
                lemma_borrow_rank_step(b, k as int);
            }
            if obligation.borrows[k].is_active() {
                if j >= borrow_reserves.len() {
                    proof {
                        lemma_borrow_updated_slots(b, k as int);
                    }
                    let more = borrows_active_after(obligation, k + 1);
                    proof {
                        if !more {
                            assert forall|i: int| k + 1 <= i < 5 implies !(#[trigger] b[i]).spec_is_active() by {
                                assert(obligation.borrows@[i] == b[i]);
                            }
                        }
                    }
                    if more {
                        return Err(LendingError::InvalidAccountInput);
                    }
                    return Ok(());
                }
                let ghost before = borrow_reserves@;
                let mut acct = borrow_reserves[j];
                let borrow = obligation.borrows[k];
                acct.reserve.borrowed_amount_outside_elevation_group = acct.reserve.borrowed_amount_outside_elevation_group.saturating_sub(
                    borrow.borrowed_amount_outside_elevation_groups,
                );
                borrow_reserves.set(j, acct);
                obligation.borrows[k] = ObligationLiquidity {
                    borrowed_amount_outside_elevation_groups: 0,
                    ..borrow
                };
                proof {
                    assert forall|m: int|
                        0 <= m < k + 1 && b[m].spec_is_active() implies #[trigger] borrow_reserves@[borrow_rank(b, m)]
                        == (ReserveAccount {
                        reserve: Reserve {
                            borrowed_amount_outside_elevation_group: sat_sub_u64(
                                accts[borrow_rank(b, m)].reserve.borrowed_amount_outside_elevation_group,
                                b[m].borrowed_amount_outside_elevation_groups,
                            ),
                            ..accts[borrow_rank(b, m)].reserve
                        },
                        ..accts[borrow_rank(b, m)]
                    }) by {
                        lemma_borrow_rank_bounds(b, m);
                        if m < k {
                            lemma_borrow_rank_below(b, m, k as int);
                            assert(before[borrow_rank(b, m)] == borrow_reserves@[borrow_rank(b, m)]);
                        }
                    }
                }
                j = j + 1;
            }
            k = k + 1;
        }
        proof {
            lemma_borrow_updated_slots(b, 5);
        }
        if j < borrow_reserves.len() {
            return Err(LendingError::InvalidAccountInput);
        }
    }
    Ok(())
}

/// Whether a deposit slot from `m` on is in use.
fn deposits_active_after(obligation: &Obligation, m: usize) -> (r: bool)
    requires
        m <= 8,
    ensures
        r == deposit_active_from(obligation.deposits@, m as int),
{
    let mut i = m;
    while i < 8
        invariant
            m <= i <= 8,
            forall|t: int| m <= t < i ==> !(#[trigger] obligation.deposits@[t]).spec_is_active(),
        decreases 8 - i,
    {
        if obligation.deposits[i].is_active() {
            return true;
        }
        i = i + 1;
    }
    false
}

/// Whether a borrow slot from `m` on is in use.
fn borrows_active_after(obligation: &Obligation, m: usize) -> (r: bool)
    requires
        m <= 5,
    ensures
        r == borrow_active_from(obligation.borrows@, m as int),
{
    let mut i = m;
    while i < 5
        invariant
            m <= i <= 5,
            forall|t: int| m <= t < i ==> !(#[trigger] obligation.borrows@[t]).spec_is_active(),
        decreases 5 - i,
    {
        if obligation.borrows[i].is_active() {
            return true;
        }
        i = i + 1;
    }
    false
}

} // verus!
