//! The reserve side of supplying liquidity: deposits of liquidity for
//! collateral tokens, their redemption, refreshes and flash-loan repayments.

use crate::error::LendingError;
use crate::fraction::{floor_int, scale, Fraction};
use crate::last_update::{spec_is_stale, LastUpdate, PriceStatusFlags};
use crate::lending_market::LendingMarket;
use crate::lending_operations::{add_referrer_fee, is_saved_price_age_valid, marked_stale, sat_sub};
use crate::referral::ReferrerTokenState;
use crate::reserve::{
    accrue_computable, fees_computable, spec_accrue_outcome, spec_c2l_frac, spec_calculate_fees,
    spec_exchange_rate, spec_l2c_amount_frac, supply_computable, total_supply_val, Reserve,
    ReserveCollateral, ReserveConfig, ReserveLiquidity,
};
use crate::types::GetPriceResult;
use crate::liquidation_operations::{calculate_protocol_liquidation_fee, spec_protocol_liquidation_fee};
use crate::fraction::{ceil_int, pct_val, spec_div, spec_mul};
use crate::wide::p128;
use crate::withdrawal_caps::{
    add_to_withdrawal_accum, spec_check_and_update, sub_from_withdrawal_accum,
};
use vstd::prelude::*;

verus! {

/// Why a deposit of `liquidity_amount` into the reserve is refused before
/// anything changes: a zero amount, a stale reserve, or a total supply that
/// would pass the deposit limit.
pub open spec fn spec_deposit_reserve_check(
    reserve: Reserve,
    slot: u64,
    liquidity_amount: u64,
) -> Option<LendingError> {
    if liquidity_amount == 0 {
        Some(LendingError::InvalidAmount)
    } else {
        match spec_is_stale(reserve.last_update, slot, PriceStatusFlags { bits: 0 }) {
            Err(e) => Some(e),
            Ok(true) => Some(LendingError::ReserveStale),
            Ok(false) => if liquidity_amount * scale() + total_supply_val(reserve.liquidity)
                > reserve.config.deposit_limit * scale() {
                Some(LendingError::DepositLimitExceeded)
            } else {
                None
            },
        }
    }
}

/// The collateral tokens minted for `liquidity_amount`: its worth at the
/// reserve's exchange rate, rounded down.
pub open spec fn spec_minted_collateral(reserve: Reserve, liquidity_amount: u64) -> int {
    floor_int(spec_l2c_amount_frac(spec_exchange_rate(reserve), liquidity_amount as int))
}

/// The amounts in a deposit fit their machine types.
pub open spec fn deposit_reserve_computable(reserve: Reserve, liquidity_amount: u64) -> bool {
    &&& supply_computable(reserve.liquidity)
    &&& liquidity_amount * scale() + total_supply_val(reserve.liquidity) <= u128::MAX
    &&& spec_l2c_amount_frac(spec_exchange_rate(reserve), liquidity_amount as int) < p128()
    &&& spec_minted_collateral(reserve, liquidity_amount) <= u64::MAX
}

/// Deposits liquidity into a fresh reserve and mints collateral tokens for
/// it; the deposit frees as much of the deposit withdrawal cap, and the
/// reserve is marked stale. Returns the collateral minted. Refused for a
/// zero amount, a stale reserve, a deposit past the limit, and on an
/// overflow of the amounts held; the withdrawal cap may refuse it too. On
/// an error after the checks the reserve is left partly updated, and the
/// transaction that made the call fails.
pub fn deposit_reserve_liquidity(
    reserve: &mut Reserve,
    slot: u64,
    unix_timestamp: i64,
    liquidity_amount: u64,
) -> (r: Result<u64, LendingError>)
    requires
        liquidity_amount != 0 && spec_is_stale(
            old(reserve).last_update,
            slot,
            PriceStatusFlags { bits: 0 },
        ) == Ok::<bool, LendingError>(false) ==> deposit_reserve_computable(
            *old(reserve),
            liquidity_amount,
        ),
        spec_deposit_reserve_check(*old(reserve), slot, liquidity_amount) is None ==> unix_timestamp
            >= 0,
    ensures
        spec_deposit_reserve_check(*old(reserve), slot, liquidity_amount) matches Some(e) ==> r
            == Err::<u64, LendingError>(e) && *final(reserve) == *old(reserve),
        spec_deposit_reserve_check(*old(reserve), slot, liquidity_amount) is None ==> ({
            let (caps, cr) = spec_check_and_update(
                old(reserve).config.deposit_withdrawal_cap,
                liquidity_amount,
                unix_timestamp as u64,
                false,
            );
            let c = spec_minted_collateral(*old(reserve), liquidity_amount);
            let overflow = old(reserve).liquidity.available_amount + liquidity_amount > u64::MAX
                || old(reserve).collateral.mint_total_supply + c > u64::MAX;
            &&& cr matches Err(e) ==> r == Err::<u64, LendingError>(e)
            &&& cr is Ok && overflow ==> r == Err::<u64, LendingError>(LendingError::MathOverflow)
            &&& cr is Ok && !overflow ==> r == Ok::<u64, LendingError>(c as u64) && *final(reserve)
                == (Reserve {
                last_update: marked_stale(old(reserve).last_update),
                liquidity: ReserveLiquidity {
                    available_amount: (old(reserve).liquidity.available_amount
                        + liquidity_amount) as u64,
                    ..old(reserve).liquidity
                },
                collateral: ReserveCollateral {
                    mint_total_supply: (old(reserve).collateral.mint_total_supply + c) as u64,
                    ..old(reserve).collateral
                },
                config: ReserveConfig { deposit_withdrawal_cap: caps, ..old(reserve).config },
                ..*old(reserve)
            })
        }),
{
    if liquidity_amount == 0 {
        return Err(LendingError::InvalidAmount);
    }
    match reserve.last_update.is_stale(slot, PriceStatusFlags::empty()) {
        Err(e) => {
            return Err(e);
        },
        Ok(true) => {
            return Err(LendingError::ReserveStale);
        },
        Ok(false) => {},
    }
    let liquidity_amount_f = Fraction::from_num(liquidity_amount);
    let deposit_limit_f = Fraction::from_num(reserve.config.deposit_limit);
    let reserve_liquidity_supply_f = reserve.liquidity.total_supply();
    let new_reserve_liquidity_supply_f = liquidity_amount_f.add(reserve_liquidity_supply_f);
    if new_reserve_liquidity_supply_f.bits > deposit_limit_f.bits {
        return Err(LendingError::DepositLimitExceeded);
    }
    let ghost pre = *reserve;
    sub_from_withdrawal_accum(
        &mut reserve.config.deposit_withdrawal_cap,
        liquidity_amount,
        unix_timestamp as u64,
    )?;
    assert(reserve.liquidity == pre.liquidity && reserve.collateral == pre.collateral);
    let collateral_amount = reserve.collateral_exchange_rate().liquidity_to_collateral(
        liquidity_amount,
    );
    reserve.deposit_liquidity(liquidity_amount, collateral_amount)?;
    reserve.last_update.mark_stale();
    Ok(collateral_amount)
}

/// Whether a stored price is younger than the reserve's maximal price age
/// at `unix_timestamp`.
pub open spec fn spec_saved_price_age_valid(reserve: Reserve, unix_timestamp: i64) -> bool {
    sat_sub(unix_timestamp as int, reserve.liquidity.market_price_last_updated_ts as int)
        < reserve.config.token_info.max_age_price_seconds
}

/// Refreshes a reserve at `slot`: accrues interest, takes the new price if
/// one is given, and records the refresh with the price's checks; without a
/// new price the refresh records that no check passed when the stored price
/// is too old, and keeps the recorded checks otherwise. An error, with
/// nothing recorded, when the interest cannot be accrued.
pub fn refresh_reserve(
    reserve: &mut Reserve,
    slot: u64,
    unix_timestamp: i64,
    price: Option<GetPriceResult>,
    referral_fee_bps: u16,
) -> (r: Result<(), LendingError>)
    requires
        accrue_computable(*old(reserve), slot, referral_fee_bps),
        price is None ==> unix_timestamp >= 0,
    ensures
        *final(reserve) == (Reserve {
            liquidity: final(reserve).liquidity,
            last_update: final(reserve).last_update,
            ..*old(reserve)
        }),
        r is Err ==> final(reserve).last_update == old(reserve).last_update && spec_accrue_outcome(
            *old(reserve),
            final(reserve).liquidity,
            slot,
            referral_fee_bps,
            r,
        ),
        r is Ok ==> spec_accrue_outcome(
            *old(reserve),
            ReserveLiquidity {
                market_price_sf: old(reserve).liquidity.market_price_sf,
                market_price_last_updated_ts: old(reserve).liquidity.market_price_last_updated_ts,
                ..final(reserve).liquidity
            },
            slot,
            referral_fee_bps,
            Ok::<(), LendingError>(()),
        ) && final(reserve).last_update == (LastUpdate {
            slot,
            stale: 0,
            price_status: match price {
                Some(p) => p.status.bits,
                None => if spec_saved_price_age_valid(*old(reserve), unix_timestamp) {
                    old(reserve).last_update.price_status
                } else {
                    0
                },
            },
            ..old(reserve).last_update
        }) && match price {
            Some(p) => final(reserve).liquidity.market_price_sf == p.price.bits
                && final(reserve).liquidity.market_price_last_updated_ts == p.timestamp,
            None => final(reserve).liquidity.market_price_sf == old(reserve).liquidity.market_price_sf
                && final(reserve).liquidity.market_price_last_updated_ts == old(reserve).liquidity.market_price_last_updated_ts,
        },
{
    reserve.accrue_interest(slot, referral_fee_bps)?;
    let price_status = match price {
        Some(p) => {
            reserve.liquidity.market_price_sf = p.price.to_bits();
            reserve.liquidity.market_price_last_updated_ts = p.timestamp;
            Some(p.status)
        },
        None => {
            if !is_saved_price_age_valid(reserve, unix_timestamp) {
                Some(PriceStatusFlags::empty())
            } else {
                None
            }
        },
    };
    reserve.last_update.update_slot(slot, price_status);
    Ok(())
}

/// The reserve with its limit-crossing timestamps kept up to date at
/// `timestamp`: each is set when its limit is first crossed and cleared when
/// the amount is back under the limit.
pub open spec fn spec_limit_timestamps_refreshed(reserve: Reserve, timestamp: u64) -> Reserve {
    let deposit_crossed = total_supply_val(reserve.liquidity) > reserve.config.deposit_limit
        * scale();
    let borrow_crossed = reserve.liquidity.borrowed_amount_sf > reserve.config.borrow_limit
        * scale();
    let dts = reserve.liquidity.deposit_limit_crossed_timestamp;
    let bts = reserve.liquidity.borrow_limit_crossed_timestamp;
    Reserve {
        liquidity: ReserveLiquidity {
            deposit_limit_crossed_timestamp: if deposit_crossed {
                if dts == 0 {
                    timestamp
                } else {
                    dts
                }
            } else {
                0
            },
            borrow_limit_crossed_timestamp: if borrow_crossed {
                if bts == 0 {
                    timestamp
                } else {
                    bts
                }
            } else {
                0
            },
            ..reserve.liquidity
        },
        ..reserve
    }
}

/// Brings both limit-crossing timestamps of the reserve up to date.
pub fn refresh_reserve_limit_timestamps(reserve: &mut Reserve, timestamp: u64)
    requires
        supply_computable(old(reserve).liquidity),
    ensures
        *final(reserve) == spec_limit_timestamps_refreshed(*old(reserve), timestamp),
{
    reserve.update_deposit_limit_crossed_timestamp(timestamp);
    reserve.update_borrow_limit_crossed_timestamp(timestamp);
}

/// The liquidity paid out for `collateral_amount` collateral tokens: their
/// worth at the reserve's exchange rate, rounded down.
pub open spec fn spec_redeemed_liquidity(reserve: Reserve, collateral_amount: u64) -> int {
    floor_int(spec_c2l_frac(spec_exchange_rate(reserve), collateral_amount * scale()))
}

/// The amounts in a redemption fit their machine types, and the supply left
/// is not negative.
pub open spec fn redeem_reserve_computable(reserve: Reserve, collateral_amount: u64) -> bool {
    &&& supply_computable(reserve.liquidity)
    &&& spec_c2l_frac(spec_exchange_rate(reserve), collateral_amount * scale()) < p128()
    &&& spec_redeemed_liquidity(reserve, collateral_amount) <= u64::MAX
    &&& spec_redeemed_liquidity(reserve, collateral_amount) * scale() <= total_supply_val(
        reserve.liquidity,
    )
}

/// Why a redemption is refused before anything changes: a zero amount or a
/// stale reserve.
pub open spec fn spec_redeem_reserve_check(reserve: Reserve, slot: u64, collateral_amount: u64) -> Option<
    LendingError,
> {
    if collateral_amount == 0 {
        Some(LendingError::InvalidAmount)
    } else {
        match spec_is_stale(reserve.last_update, slot, PriceStatusFlags { bits: 0 }) {
            Err(e) => Some(e),
            Ok(true) => Some(LendingError::ReserveStale),
            Ok(false) => None,
        }
    }
}

/// Burns collateral tokens of a fresh reserve and pays out the liquidity they
/// are worth; the limit timestamps are brought up to date, the reserve is
/// marked stale, and, when asked, the payout counts against the deposit
/// withdrawal cap. Returns the liquidity paid out. Refused for a zero amount,
/// a stale reserve, more collateral than exists, not enough available
/// liquidity, or a payout past the cap. On an error after the checks the
/// reserve is left partly updated, and the transaction that made the call
/// fails.
pub fn redeem_reserve_collateral(
    reserve: &mut Reserve,
    collateral_amount: u64,
    slot: u64,
    unix_timestamp: i64,
    add_amount_to_withdrawal_caps: bool,
) -> (r: Result<u64, LendingError>)
    requires
        spec_redeem_reserve_check(*old(reserve), slot, collateral_amount) is None ==> {
            &&& redeem_reserve_computable(*old(reserve), collateral_amount)
            &&& unix_timestamp >= 0
        },
    ensures
        spec_redeem_reserve_check(*old(reserve), slot, collateral_amount) matches Some(e) ==> r
            == Err::<u64, LendingError>(e) && *final(reserve) == *old(reserve),
        spec_redeem_reserve_check(*old(reserve), slot, collateral_amount) is None ==> ({
            let l = spec_redeemed_liquidity(*old(reserve), collateral_amount);
            let burnt = Reserve {
                liquidity: ReserveLiquidity {
                    available_amount: (old(reserve).liquidity.available_amount - l) as u64,
                    ..old(reserve).liquidity
                },
                collateral: ReserveCollateral {
                    mint_total_supply: (old(reserve).collateral.mint_total_supply
                        - collateral_amount) as u64,
                    ..old(reserve).collateral
                },
                ..*old(reserve)
            };
            let refreshed = spec_limit_timestamps_refreshed(burnt, unix_timestamp as u64);
            let (caps, cr) = spec_check_and_update(
                old(reserve).config.deposit_withdrawal_cap,
                l as u64,
                unix_timestamp as u64,
                true,
            );
            &&& collateral_amount > old(reserve).collateral.mint_total_supply ==> r == Err::<
                u64,
                LendingError,
            >(LendingError::MathOverflow)
            &&& collateral_amount <= old(reserve).collateral.mint_total_supply && l
                > old(reserve).liquidity.available_amount ==> r == Err::<u64, LendingError>(
                LendingError::InsufficientLiquidity,
            )
            &&& collateral_amount <= old(reserve).collateral.mint_total_supply && l
                <= old(reserve).liquidity.available_amount ==> {
                &&& !add_amount_to_withdrawal_caps ==> r == Ok::<u64, LendingError>(l as u64)
                    && *final(reserve) == (Reserve {
                    last_update: marked_stale(old(reserve).last_update),
                    ..refreshed
                })
                &&& add_amount_to_withdrawal_caps ==> (cr matches Err(e) ==> r == Err::<
                    u64,
                    LendingError,
                >(e))
                &&& add_amount_to_withdrawal_caps && cr is Ok ==> r == Ok::<u64, LendingError>(
                    l as u64,
                ) && *final(reserve) == (Reserve {
                    last_update: marked_stale(old(reserve).last_update),
                    config: ReserveConfig { deposit_withdrawal_cap: caps, ..old(reserve).config },
                    ..refreshed
                })
            }
        }),
{
    if collateral_amount == 0 {
        return Err(LendingError::InvalidAmount);
    }
    match reserve.last_update.is_stale(slot, PriceStatusFlags::empty()) {
        Err(e) => {
            return Err(e);
        },
        Ok(true) => {
            return Err(LendingError::ReserveStale);
        },
        Ok(false) => {},
    }
    let liquidity_amount = reserve.redeem_collateral(collateral_amount)?;
    refresh_reserve_limit_timestamps(reserve, unix_timestamp as u64);
    reserve.last_update.mark_stale();
    if add_amount_to_withdrawal_caps {
        add_to_withdrawal_accum(
            &mut reserve.config.deposit_withdrawal_cap,
            liquidity_amount,
            unix_timestamp as u64,
        )?;
    }
    Ok(liquidity_amount)
}

/// What a repayment of a flash loan charges: the protocol fee and the
/// referrer fee on the loan, or why none can be charged.
pub open spec fn spec_flash_loan_fees(
    reserve: Reserve,
    market: LendingMarket,
    liquidity_amount: u64,
    has_referrer: bool,
) -> Result<(int, int), LendingError> {
    spec_calculate_fees(
        liquidity_amount * scale(),
        reserve.config.fees.flash_loan_fee_sf as int,
        false,
        market.referral_fee_bps as int,
        has_referrer,
    )
}

/// The reserve after the loan of `liquidity_amount` comes back: the tokens
/// are available again and the loan leaves the debt (all of it, if it is
/// smaller).
pub open spec fn spec_flash_repaid(reserve: Reserve, liquidity_amount: u64) -> Reserve {
    Reserve {
        liquidity: ReserveLiquidity {
            available_amount: (reserve.liquidity.available_amount + liquidity_amount) as u64,
            borrowed_amount_sf: if liquidity_amount * scale() <= reserve.liquidity.borrowed_amount_sf {
                (reserve.liquidity.borrowed_amount_sf - liquidity_amount * scale()) as u128
            } else {
                0
            },
            ..reserve.liquidity
        },
        ..reserve
    }
}

/// Takes back a flash loan of `liquidity_amount`: charges its fees, returns
/// the tokens to the reserve, brings the limit timestamps up to date and
/// marks the reserve stale; with a referrer, when the market pays referrers,
/// the referrer's fee is credited to its account and stays available in the
/// reserve. Returns what the borrower pays back besides the protocol fee (the
/// loan and the referrer's fee) and the protocol fee. Refused when the loan
/// is too small to carry its fee, or when the available amount would
/// overflow. On an error after the fees are computed the reserve is left
/// partly updated, and the transaction that made the call fails.
pub fn flash_repay_reserve_liquidity(
    lending_market: &LendingMarket,
    reserve: &mut Reserve,
    liquidity_amount: u64,
    timestamp: u64,
    referrer_token_state: &mut Option<ReferrerTokenState>,
) -> (r: Result<(u64, u64), LendingError>)
    requires
        fees_computable(
            liquidity_amount * scale(),
            old(reserve).config.fees.flash_loan_fee_sf as int,
            false,
            lending_market.referral_fee_bps as int,
            (*old(referrer_token_state)) is Some,
        ),
        supply_computable(spec_flash_repaid(*old(reserve), liquidity_amount).liquidity),
        spec_flash_loan_fees(
            *old(reserve),
            *lending_market,
            liquidity_amount,
            (*old(referrer_token_state)) is Some,
        ) matches Ok((p, f)) ==> {
            &&& liquidity_amount + f <= u64::MAX
            &&& old(reserve).liquidity.available_amount + liquidity_amount + f <= u64::MAX
            &&& *old(referrer_token_state) matches Some(s) ==> {
                &&& s.amount_cumulative_sf + f * scale() <= u128::MAX
                &&& s.amount_unclaimed_sf + f * scale() <= u128::MAX
                &&& old(reserve).liquidity.accumulated_referrer_fees_sf + f * scale() <= u128::MAX
            }
        },
    ensures
        spec_flash_loan_fees(
            *old(reserve),
            *lending_market,
            liquidity_amount,
            (*old(referrer_token_state)) is Some,
        ) matches Err(e) ==> r == Err::<(u64, u64), LendingError>(e) && *final(reserve)
            == *old(reserve) && *final(referrer_token_state) == *old(referrer_token_state),
        spec_flash_loan_fees(
            *old(reserve),
            *lending_market,
            liquidity_amount,
            (*old(referrer_token_state)) is Some,
        ) matches Ok((p, f)) ==> ({
            let back = spec_limit_timestamps_refreshed(
                spec_flash_repaid(*old(reserve), liquidity_amount),
                timestamp,
            );
            let stale = Reserve { last_update: marked_stale(old(reserve).last_update), ..back };
            let credit = (*old(referrer_token_state)) is Some && lending_market.referral_fee_bps > 0;
            &&& old(reserve).liquidity.available_amount + liquidity_amount > u64::MAX ==> r
                == Err::<(u64, u64), LendingError>(LendingError::MathOverflow)
            &&& old(reserve).liquidity.available_amount + liquidity_amount <= u64::MAX ==> {
                &&& r == Ok::<(u64, u64), LendingError>(((liquidity_amount + f) as u64, p as u64))
                &&& !credit ==> *final(reserve) == stale && *final(referrer_token_state) == *old(
                    referrer_token_state,
                )
                &&& credit ==> *final(reserve) == (Reserve {
                    liquidity: ReserveLiquidity {
                        available_amount: (stale.liquidity.available_amount + f) as u64,
                        accumulated_referrer_fees_sf: (stale.liquidity.accumulated_referrer_fees_sf
                            + f * scale()) as u128,
                        ..stale.liquidity
                    },
                    ..stale
                }) && *final(referrer_token_state) == Some(
                    ReferrerTokenState {
                        amount_cumulative_sf: ((*old(referrer_token_state)).unwrap().amount_cumulative_sf
                            + f * scale()) as u128,
                        amount_unclaimed_sf: ((*old(referrer_token_state)).unwrap().amount_unclaimed_sf
                            + f * scale()) as u128,
                        ..(*old(referrer_token_state)).unwrap()
                    },
                )
            }
        }),
{
    let flash_loan_amount = liquidity_amount;
    let flash_loan_amount_f = Fraction::from_num(flash_loan_amount);
    let (protocol_fee, referrer_fee) = reserve.config.fees.calculate_flash_loan_fees(
        flash_loan_amount_f,
        lending_market.referral_fee_bps,
        referrer_token_state.is_some(),
    )?;
    reserve.liquidity.repay(flash_loan_amount, flash_loan_amount_f)?;
    refresh_reserve_limit_timestamps(reserve, timestamp);
    reserve.last_update.mark_stale();
    if lending_market.referral_fee_bps > 0 {
        match referrer_token_state {
            Some(state) => {
                add_referrer_fee(reserve, state, Fraction::from_num(referrer_fee))?;
                reserve.liquidity.available_amount = reserve.liquidity.available_amount
                    + referrer_fee;
            },
            None => {},
        }
    }
    let flash_loan_amount_with_referral_fee = flash_loan_amount + referrer_fee;
    Ok((flash_loan_amount_with_referral_fee, protocol_fee))
}

/// After a liquidation, redeems the collateral the liquidator seized for
/// liquidity when some was seized as collateral tokens to redeem
/// (`withdraw_collateral_amount`), taking the protocol's share of the
/// liquidation bonus; the liquidator must receive at least
/// `min_acceptable_received_liquidity_amount`, net of that fee (or, when
/// nothing is redeemed, in liquidity worth of the collateral tokens seized).
/// Returns the liquidity redeemed and the protocol fee, when something is
/// redeemed. Refused as [`redeem_reserve_collateral`] refuses, and when the
/// liquidator would receive too little (the reserve then already redeemed).
pub fn post_liquidate_redeem(
    withdraw_reserve: &mut Reserve,
    repay_amount: u64,
    withdraw_amount: u64,
    withdraw_collateral_amount: u64,
    liquidation_bonus_rate: Fraction,
    min_acceptable_received_liquidity_amount: u64,
    slot: u64,
    unix_timestamp: i64,
) -> (r: Result<Option<(u64, u64)>, LendingError>)
    requires
        withdraw_collateral_amount != 0 ==> {
            &&& spec_redeem_reserve_check(*old(withdraw_reserve), slot, withdraw_collateral_amount)
                is None ==> {
                &&& redeem_reserve_computable(*old(withdraw_reserve), withdraw_collateral_amount)
                &&& unix_timestamp >= 0
            }
            &&& ({
                let l = spec_redeemed_liquidity(*old(withdraw_reserve), withdraw_collateral_amount);
                let fee_pct = old(withdraw_reserve).config.protocol_liquidation_fee_pct as int;
                &&& liquidation_bonus_rate.val() + scale() <= u128::MAX
                &&& ceil_int(
                    spec_mul(
                        l * scale() - spec_div(l * scale(), liquidation_bonus_rate.val() + scale()),
                        pct_val(fee_pct),
                    ),
                ) <= u64::MAX
                &&& spec_protocol_liquidation_fee(l, liquidation_bonus_rate.val(), fee_pct) <= l
            })
        },
        withdraw_collateral_amount == 0 ==> {
            &&& supply_computable(old(withdraw_reserve).liquidity)
            &&& spec_c2l_frac(spec_exchange_rate(*old(withdraw_reserve)), withdraw_amount * scale())
                < p128()
            &&& floor_int(
                spec_c2l_frac(spec_exchange_rate(*old(withdraw_reserve)), withdraw_amount * scale()),
            ) <= u64::MAX
        },
    ensures
        withdraw_collateral_amount == 0 ==> ({
            let theoretical = floor_int(
                spec_c2l_frac(spec_exchange_rate(*old(withdraw_reserve)), withdraw_amount * scale()),
            );
            &&& *final(withdraw_reserve) == *old(withdraw_reserve)
            &&& theoretical < min_acceptable_received_liquidity_amount ==> r == Err::<
                Option<(u64, u64)>,
                LendingError,
            >(LendingError::LiquidationRewardTooSmall)
            &&& theoretical >= min_acceptable_received_liquidity_amount ==> r == Ok::<
                Option<(u64, u64)>,
                LendingError,
            >(None)
        }),
        withdraw_collateral_amount != 0 ==> ({
            let l = spec_redeemed_liquidity(*old(withdraw_reserve), withdraw_collateral_amount);
            let fee = spec_protocol_liquidation_fee(
                l,
                liquidation_bonus_rate.val(),
                old(withdraw_reserve).config.protocol_liquidation_fee_pct as int,
            );
            let redeemed = spec_redeem_reserve_check(
                *old(withdraw_reserve),
                slot,
                withdraw_collateral_amount,
            ) is None && withdraw_collateral_amount <= old(withdraw_reserve).collateral.mint_total_supply
                && l <= old(withdraw_reserve).liquidity.available_amount;
            &&& spec_redeem_reserve_check(*old(withdraw_reserve), slot, withdraw_collateral_amount)
                matches Some(e) ==> r == Err::<Option<(u64, u64)>, LendingError>(e)
                && *final(withdraw_reserve) == *old(withdraw_reserve)
            &&& spec_redeem_reserve_check(*old(withdraw_reserve), slot, withdraw_collateral_amount)
                is None && withdraw_collateral_amount > old(withdraw_reserve).collateral.mint_total_supply
                ==> r == Err::<Option<(u64, u64)>, LendingError>(LendingError::MathOverflow)
            &&& spec_redeem_reserve_check(*old(withdraw_reserve), slot, withdraw_collateral_amount)
                is None && withdraw_collateral_amount <= old(withdraw_reserve).collateral.mint_total_supply
                && l > old(withdraw_reserve).liquidity.available_amount ==> r == Err::<
                Option<(u64, u64)>,
                LendingError,
            >(LendingError::InsufficientLiquidity)
            &&& redeemed ==> {
                &&& *final(withdraw_reserve) == (Reserve {
                    last_update: marked_stale(old(withdraw_reserve).last_update),
                    ..spec_limit_timestamps_refreshed(
                        Reserve {
                            liquidity: ReserveLiquidity {
                                available_amount: (old(withdraw_reserve).liquidity.available_amount
                                    - l) as u64,
                                ..old(withdraw_reserve).liquidity
                            },
                            collateral: ReserveCollateral {
                                mint_total_supply: (old(withdraw_reserve).collateral.mint_total_supply
                                    - withdraw_collateral_amount) as u64,
                                ..old(withdraw_reserve).collateral
                            },
                            ..*old(withdraw_reserve)
                        },
                        unix_timestamp as u64,
                    )
                })
                &&& l - fee < min_acceptable_received_liquidity_amount ==> r == Err::<
                    Option<(u64, u64)>,
                    LendingError,
                >(LendingError::LiquidationRewardTooSmall)
                &&& l - fee >= min_acceptable_received_liquidity_amount ==> r == Ok::<
                    Option<(u64, u64)>,
                    LendingError,
                >(Some((l as u64, fee as u64)))
            }
        }),
{
    if withdraw_collateral_amount != 0 {
        let withdraw_liquidity_amount = redeem_reserve_collateral(
            withdraw_reserve,
            withdraw_collateral_amount,
            slot,
            unix_timestamp,
            false,
        )?;
        let protocol_fee = calculate_protocol_liquidation_fee(
            withdraw_liquidity_amount,
            liquidation_bonus_rate,
            withdraw_reserve.config.protocol_liquidation_fee_pct,
        );
        let net_withdraw_liquidity_amount = withdraw_liquidity_amount - protocol_fee;
        if net_withdraw_liquidity_amount < min_acceptable_received_liquidity_amount {
            return Err(LendingError::LiquidationRewardTooSmall);
        }
        Ok(Some((withdraw_liquidity_amount, protocol_fee)))
    } else {
        let theoretical_withdraw_liquidity_amount = withdraw_reserve.collateral_exchange_rate().collateral_to_liquidity(
            withdraw_amount,
        );
        if theoretical_withdraw_liquidity_amount < min_acceptable_received_liquidity_amount {
            return Err(LendingError::LiquidationRewardTooSmall);
        }
        Ok(None)
    }
}

} // verus!
