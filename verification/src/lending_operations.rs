//! Reserve-level operations: whether the stored price is still usable, flash
//! loans, and paying out protocol and referral fees.

use crate::error::LendingError;
use crate::fraction::{bps_val, floor_int, scale, spec_mul, Fraction};
use crate::last_update::{spec_is_stale, LastUpdate, PriceStatusFlags};
use crate::lending_market::LendingMarket;
use crate::referral::ReferrerTokenState;
use crate::pubkey::{is_default_key, Pubkey};
use crate::reserve::{compounded_fits, spec_compounded, Reserve, ReserveLiquidity};
use vstd::prelude::*;

verus! {

/// `a - b`, or zero when `b` is larger.
pub open spec fn sat_sub(a: int, b: int) -> int {
    if a >= b {
        a - b
    } else {
        0
    }
}

/// Whether the reserve's stored price is younger than its maximal age at
/// `current_ts` (a timestamp that is not negative).
pub fn is_saved_price_age_valid(reserve: &Reserve, current_ts: i64) -> (r: bool)
    requires
        current_ts >= 0,
    ensures
        r == (sat_sub(current_ts as int, reserve.liquidity.market_price_last_updated_ts as int)
            < reserve.config.token_info.max_age_price_seconds),
{
    let current_ts = current_ts as u64;
    let price_last_updated_ts = reserve.liquidity.market_price_last_updated_ts;
    let price_max_age = reserve.config.token_info.max_age_price_seconds;
    current_ts.saturating_sub(price_last_updated_ts) < price_max_age
}

/// The age at which the market asks for a fresh price: its share of the
/// maximal price age, rounded down.
pub open spec fn refresh_trigger_secs(reserve: Reserve, market: LendingMarket) -> int {
    reserve.config.token_info.max_age_price_seconds * market.price_refresh_trigger_to_max_age_pct
        / 100
}

/// Whether the stored price is old enough, at `current_ts` read as an
/// unsigned number, for the market to want a fresh one.
pub fn is_price_refresh_needed(reserve: &Reserve, market: &LendingMarket, current_ts: i64) -> (r:
    bool)
    requires
        reserve.config.token_info.max_age_price_seconds * market.price_refresh_trigger_to_max_age_pct
            <= u64::MAX,
    ensures
        r == (sat_sub(current_ts as u64 as int, reserve.liquidity.market_price_last_updated_ts as int)
            >= refresh_trigger_secs(*reserve, *market)),
{
    let current_ts = current_ts as u64;
    let price_last_updated_ts = reserve.liquidity.market_price_last_updated_ts;
    let price_max_age = reserve.config.token_info.max_age_price_seconds;
    let price_refresh_trigger_to_max_age_pct: u64 = market.price_refresh_trigger_to_max_age_pct as u64;
    let price_refresh_trigger_to_max_age_secs = price_max_age * price_refresh_trigger_to_max_age_pct
        / 100;
    current_ts.saturating_sub(price_last_updated_ts) >= price_refresh_trigger_to_max_age_secs
}

/// The refresh record marked stale.
pub open spec fn marked_stale(lu: LastUpdate) -> LastUpdate {
    LastUpdate { stale: 1, ..lu }
}

/// The protocol fees that can be paid out: the whole tokens of them, at
/// most what is available.
pub open spec fn spec_redeemable_fees(reserve: Reserve) -> int {
    let fees = floor_int(reserve.liquidity.accumulated_protocol_fees_sf as int);
    if reserve.liquidity.available_amount <= fees {
        reserve.liquidity.available_amount as int
    } else {
        fees
    }
}

/// Pays out the redeemable protocol fees of a fresh reserve, and marks it
/// stale; an error for a stale reserve or when there is nothing to pay.
pub fn redeem_fees(reserve: &mut Reserve, slot: u64) -> (r: Result<u64, LendingError>)
    ensures
        spec_is_stale(old(reserve).last_update, slot, PriceStatusFlags { bits: 0 }) matches Err(e)
            ==> r == Err::<u64, LendingError>(e) && *final(reserve) == *old(reserve),
        spec_is_stale(old(reserve).last_update, slot, PriceStatusFlags { bits: 0 }) == Ok::<
            bool,
            LendingError,
        >(true) ==> r == Err::<u64, LendingError>(LendingError::ReserveStale) && *final(reserve)
            == *old(reserve),
        spec_is_stale(old(reserve).last_update, slot, PriceStatusFlags { bits: 0 }) == Ok::<
            bool,
            LendingError,
        >(false) ==> ({
            let amount = spec_redeemable_fees(*old(reserve));
            &&& amount == 0 ==> r == Err::<u64, LendingError>(
                LendingError::InsufficientProtocolFeesToRedeem,
            ) && *final(reserve) == *old(reserve)
            &&& amount > 0 ==> r == Ok::<u64, LendingError>(amount as u64) && *final(reserve) == (
            Reserve {
                liquidity: final(reserve).liquidity,
                last_update: marked_stale(old(reserve).last_update),
                ..*old(reserve)
            }) && final(reserve).liquidity.available_amount == old(reserve).liquidity.available_amount - amount
                && final(reserve).liquidity.accumulated_protocol_fees_sf == old(reserve).liquidity.accumulated_protocol_fees_sf - amount * scale()
                && final(reserve).liquidity.borrowed_amount_sf == old(reserve).liquidity.borrowed_amount_sf
                && final(reserve).liquidity.accumulated_referrer_fees_sf == old(reserve).liquidity.accumulated_referrer_fees_sf
                && final(reserve).liquidity.pending_referrer_fees_sf == old(reserve).liquidity.pending_referrer_fees_sf
        }),
{
    match reserve.last_update.is_stale(slot, PriceStatusFlags::empty()) {
        Err(e) => {
            return Err(e);
        },
        Ok(true) => {
            return Err(LendingError::ReserveStale);
        },
        Ok(false) => {},
    }
    let withdraw_amount = reserve.calculate_redeem_fees();
    if withdraw_amount == 0 {
        return Err(LendingError::InsufficientProtocolFeesToRedeem);
    }
    proof {
        let fees = reserve.liquidity.accumulated_protocol_fees_sf as int;
        assert(floor_int(fees) * scale() <= fees) by (nonlinear_arith)
            requires
                floor_int(fees) == fees / scale(),
                scale() > 0,
                fees >= 0,
        ;
        assert(withdraw_amount * scale() <= floor_int(fees) * scale()) by (nonlinear_arith)
            requires
                withdraw_amount <= floor_int(fees),
                scale() > 0,
        ;
    }
    let r = reserve.liquidity.redeem_fees(withdraw_amount);
    assert(r is Ok);
    reserve.last_update.mark_stale();
    Ok(withdraw_amount)
}

/// Lends out a flash loan: the liquidity leaves the reserve as a borrow, and
/// the reserve is marked stale; refused when the reserve disables flash loans
/// (a fee of all ones), or when not enough liquidity is available.
pub fn flash_borrow_reserve_liquidity(reserve: &mut Reserve, liquidity_amount: u64) -> (r: Result<
    (),
    LendingError,
>)
    requires
        liquidity_amount <= old(reserve).liquidity.available_amount ==> old(reserve).liquidity.borrowed_amount_sf + liquidity_amount * scale() <= u128::MAX,
    ensures
        old(reserve).config.fees.flash_loan_fee_sf == u64::MAX ==> r == Err::<(), LendingError>(
            LendingError::FlashLoansDisabled,
        ) && *final(reserve) == *old(reserve),
        old(reserve).config.fees.flash_loan_fee_sf != u64::MAX && liquidity_amount > old(reserve).liquidity.available_amount ==> r == Err::<(), LendingError>(
            LendingError::InsufficientLiquidity,
        ) && *final(reserve) == *old(reserve),
        old(reserve).config.fees.flash_loan_fee_sf != u64::MAX && liquidity_amount <= old(reserve).liquidity.available_amount ==> r is Ok && *final(reserve) == (Reserve {
            liquidity: final(reserve).liquidity,
            last_update: marked_stale(old(reserve).last_update),
            ..*old(reserve)
        }) && final(reserve).liquidity.available_amount == old(reserve).liquidity.available_amount
            - liquidity_amount && final(reserve).liquidity.borrowed_amount_sf == old(reserve).liquidity.borrowed_amount_sf + liquidity_amount * scale()
            && final(reserve).liquidity.accumulated_protocol_fees_sf == old(reserve).liquidity.accumulated_protocol_fees_sf
            && final(reserve).liquidity.accumulated_referrer_fees_sf == old(reserve).liquidity.accumulated_referrer_fees_sf,
{
    if reserve.config.fees.flash_loan_fee_sf == u64::MAX {
        return Err(LendingError::FlashLoansDisabled);
    }
    let liquidity_amount_f = Fraction::from_num(liquidity_amount);
    proof {
        assert(floor_int(liquidity_amount * scale()) == liquidity_amount) by (nonlinear_arith)
            requires
                scale() == 1152921504606846976,
        ;
    }
    match reserve.liquidity.borrow(liquidity_amount_f) {
        Err(e) => {
            return Err(e);
        },
        Ok(()) => {},
    }
    reserve.last_update.mark_stale();
    Ok(())
}

/// Credits a referral fee to the referrer's account and to the reserve's
/// accumulated referrer fees.
pub fn add_referrer_fee(
    borrow_reserve: &mut Reserve,
    referrer_token_state: &mut ReferrerTokenState,
    referrer_fee: Fraction,
) -> (r: Result<(), LendingError>)
    requires
        old(referrer_token_state).amount_cumulative_sf + referrer_fee.val() <= u128::MAX,
        old(referrer_token_state).amount_unclaimed_sf + referrer_fee.val() <= u128::MAX,
        old(borrow_reserve).liquidity.accumulated_referrer_fees_sf + referrer_fee.val() <= u128::MAX,
    ensures
        r is Ok,
        *final(referrer_token_state) == (ReferrerTokenState {
            amount_cumulative_sf: (old(referrer_token_state).amount_cumulative_sf
                + referrer_fee.val()) as u128,
            amount_unclaimed_sf: (old(referrer_token_state).amount_unclaimed_sf
                + referrer_fee.val()) as u128,
            ..*old(referrer_token_state)
        }),
        *final(borrow_reserve) == (Reserve {
            liquidity: crate::reserve::ReserveLiquidity {
                accumulated_referrer_fees_sf: (old(borrow_reserve).liquidity.accumulated_referrer_fees_sf
                    + referrer_fee.val()) as u128,
                ..old(borrow_reserve).liquidity
            },
            ..*old(borrow_reserve)
        }),
{
    let referrer_fee_sf = referrer_fee.to_bits();
    referrer_token_state.amount_cumulative_sf = referrer_token_state.amount_cumulative_sf
        + referrer_fee_sf;
    referrer_token_state.amount_unclaimed_sf = referrer_token_state.amount_unclaimed_sf
        + referrer_fee_sf;
    borrow_reserve.liquidity.accumulated_referrer_fees_sf = borrow_reserve.liquidity.accumulated_referrer_fees_sf
        + referrer_fee_sf;
    Ok(())
}

/// The referral fees that a referrer can take out: the whole tokens of what
/// is unclaimed, at most the reserve's accumulated referrer fees and what is
/// available.
pub open spec fn spec_withdrawable_referrer_fees(reserve: Reserve, state: ReferrerTokenState) -> int {
    let u = if state.amount_unclaimed_sf <= reserve.liquidity.accumulated_referrer_fees_sf {
        state.amount_unclaimed_sf as int
    } else {
        reserve.liquidity.accumulated_referrer_fees_sf as int
    };
    if floor_int(u) <= reserve.liquidity.available_amount {
        floor_int(u)
    } else {
        reserve.liquidity.available_amount as int
    }
}

/// Pays out a referrer's fees from a fully refreshed reserve, and marks it
/// stale; an error for a stale reserve or when there is nothing to pay.
pub fn withdraw_referrer_fees(
    reserve: &mut Reserve,
    slot: u64,
    referrer_token_state: &mut ReferrerTokenState,
) -> (r: Result<u64, LendingError>)
    ensures
        spec_is_stale(old(reserve).last_update, slot, PriceStatusFlags { bits: 63 }) matches Err(e)
            ==> r == Err::<u64, LendingError>(e) && *final(reserve) == *old(reserve)
            && *final(referrer_token_state) == *old(referrer_token_state),
        spec_is_stale(old(reserve).last_update, slot, PriceStatusFlags { bits: 63 }) == Ok::<
            bool,
            LendingError,
        >(true) ==> r == Err::<u64, LendingError>(LendingError::ReserveStale) && *final(reserve)
            == *old(reserve) && *final(referrer_token_state) == *old(referrer_token_state),
        spec_is_stale(old(reserve).last_update, slot, PriceStatusFlags { bits: 63 }) == Ok::<
            bool,
            LendingError,
        >(false) ==> ({
            let amount = spec_withdrawable_referrer_fees(*old(reserve), *old(referrer_token_state));
            &&& amount == 0 ==> r == Err::<u64, LendingError>(
                LendingError::InsufficientReferralFeesToRedeem,
            ) && *final(reserve) == *old(reserve) && *final(referrer_token_state) == *old(referrer_token_state)
            &&& amount > 0 ==> r == Ok::<u64, LendingError>(amount as u64) && *final(reserve) == (
            Reserve {
                liquidity: final(reserve).liquidity,
                last_update: marked_stale(old(reserve).last_update),
                ..*old(reserve)
            }) && final(reserve).liquidity.available_amount == old(reserve).liquidity.available_amount - amount
                && final(reserve).liquidity.accumulated_referrer_fees_sf == old(reserve).liquidity.accumulated_referrer_fees_sf - amount * scale()
                && final(reserve).liquidity.accumulated_protocol_fees_sf == old(reserve).liquidity.accumulated_protocol_fees_sf
                && final(reserve).liquidity.borrowed_amount_sf == old(reserve).liquidity.borrowed_amount_sf
                && *final(referrer_token_state) == (ReferrerTokenState {
                amount_unclaimed_sf: (old(referrer_token_state).amount_unclaimed_sf - amount
                    * scale()) as u128,
                ..*old(referrer_token_state)
            })
        }),
{
    match reserve.last_update.is_stale(slot, PriceStatusFlags::all()) {
        Err(e) => {
            return Err(e);
        },
        Ok(true) => {
            return Err(LendingError::ReserveStale);
        },
        Ok(false) => {},
    }
    let withdraw_amount = reserve.get_withdraw_referrer_fees(referrer_token_state);
    if withdraw_amount == 0 {
        return Err(LendingError::InsufficientReferralFeesToRedeem);
    }
    proof {
        let u = if referrer_token_state.amount_unclaimed_sf
            <= reserve.liquidity.accumulated_referrer_fees_sf {
            referrer_token_state.amount_unclaimed_sf as int
        } else {
            reserve.liquidity.accumulated_referrer_fees_sf as int
        };
        assert(floor_int(u) * scale() <= u) by (nonlinear_arith)
            requires
                floor_int(u) == u / scale(),
                scale() > 0,
                u >= 0,
        ;
        assert(withdraw_amount * scale() <= floor_int(u) * scale()) by (nonlinear_arith)
            requires
                withdraw_amount <= floor_int(u),
                scale() > 0,
        ;
    }
    let r = reserve.liquidity.withdraw_referrer_fees(withdraw_amount, referrer_token_state);
    assert(r is Ok);
    reserve.last_update.mark_stale();
    Ok(withdraw_amount)
}

/// The checks on a referrer's token account: it must be initialised, of the
/// reserve's mint, at the address derived for its referrer and reserve, and
/// belong to the obligation's referrer; each failure has its own error, in
/// this order.
pub open spec fn spec_referrer_state_check(
    state: ReferrerTokenState,
    key: Pubkey,
    mint: Pubkey,
    owner_referrer: Pubkey,
    expected_address: Pubkey,
) -> Result<(), LendingError> {
    if is_default_key(state.mint.bytes@) || is_default_key(state.referrer.bytes@) {
        Err(LendingError::ReferrerAccountNotInitialized)
    } else if state.mint.bytes@ != mint.bytes@ {
        Err(LendingError::ReferrerAccountMintMissmatch)
    } else if key.bytes@ != expected_address.bytes@ {
        Err(LendingError::ReferrerAccountWrongAddress)
    } else if state.referrer.bytes@ != owner_referrer.bytes@ {
        Err(LendingError::ReferrerAccountReferrerMissmatch)
    } else {
        Ok(())
    }
}

/// Checks a referrer's token account at `referrer_token_state_key`.
/// `expected_address` is the program address derived from the account's
/// referrer, `reserve_key` and the account's bump, which must fit a byte.
pub fn validate_referrer_token_state(
    referrer_token_state: &ReferrerTokenState,
    referrer_token_state_key: Pubkey,
    mint: Pubkey,
    owner_referrer: Pubkey,
    reserve_key: Pubkey,
    expected_address: Pubkey,
) -> (r: Result<(), LendingError>)
    requires
        !(is_default_key(referrer_token_state.mint.bytes@) || is_default_key(
            referrer_token_state.referrer.bytes@,
        )) && referrer_token_state.mint.bytes@ == mint.bytes@ ==> referrer_token_state.bump <= 255,
    ensures
        r == spec_referrer_state_check(
            *referrer_token_state,
            referrer_token_state_key,
            mint,
            owner_referrer,
            expected_address,
        ),
{
    if referrer_token_state.mint.is_default() || referrer_token_state.referrer.is_default() {
        return Err(LendingError::ReferrerAccountNotInitialized);
    }
    if !referrer_token_state.mint.key_eq(&mint) {
        return Err(LendingError::ReferrerAccountMintMissmatch);
    }
    if !referrer_token_state_key.key_eq(&expected_address) {
        return Err(LendingError::ReferrerAccountWrongAddress);
    }
    if !referrer_token_state.referrer.key_eq(&owner_referrer) {
        return Err(LendingError::ReferrerAccountReferrerMissmatch);
    }
    Ok(())
}

/// A referrer's token account handed to an operation: its address, the
/// address derived for it, and its data.
#[derive(Clone, Copy, Debug)]
pub struct ReferrerTokenAccount {
    pub key: Pubkey,
    pub expected_address: Pubkey,
    pub state: ReferrerTokenState,
}

/// The new debt of a borrow that is variable-rate: the growth of the debt
/// minus what the host's fixed rate adds over `slots_elapsed`.
pub open spec fn net_new_variable_debt(
    reserve: Reserve,
    slots_elapsed: u64,
    borrowed: int,
    previous: int,
) -> int {
    let fixed_rate = spec_compounded(
        bps_val(reserve.config.host_fixed_interest_rate_bps as int),
        slots_elapsed as int,
    );
    (borrowed - previous) - (spec_mul(previous, fixed_rate) - previous)
}

/// The referral fee taken from the reserve's pending referral fees: the
/// variable new debt times the reserve's absolute referral rate, at most
/// the pending fees.
pub open spec fn capped_referrer_fee(
    reserve: Reserve,
    slots_elapsed: u64,
    borrowed: int,
    previous: int,
) -> int {
    let fee = spec_mul(
        net_new_variable_debt(reserve, slots_elapsed, borrowed, previous),
        reserve.liquidity.absolute_referral_rate_sf as int,
    );
    if fee <= reserve.liquidity.pending_referrer_fees_sf {
        fee
    } else {
        reserve.liquidity.pending_referrer_fees_sf as int
    }
}

/// Whether the values the fee computation makes are representable.
pub open spec fn referral_fee_computable(
    reserve: Reserve,
    slots_elapsed: u64,
    borrowed: int,
    previous: int,
) -> bool {
    let fixed_rate = spec_compounded(
        bps_val(reserve.config.host_fixed_interest_rate_bps as int),
        slots_elapsed as int,
    );
    &&& previous <= borrowed
    &&& compounded_fits(
        bps_val(reserve.config.host_fixed_interest_rate_bps as int),
        slots_elapsed as int,
    )
    &&& spec_mul(previous, fixed_rate) <= u128::MAX
    &&& (spec_mul(previous, fixed_rate) - previous <= borrowed - previous) ==> spec_mul(
        net_new_variable_debt(reserve, slots_elapsed, borrowed, previous),
        reserve.liquidity.absolute_referral_rate_sf as int,
    ) <= u128::MAX
}

/// What a move of referral fees returns and makes of the reserve, the
/// referrers' token accounts and the position in them: see
/// [`accumulate_referrer_fees`].
pub open spec fn spec_referrer_fee_outcome(
    borrow_reserve: Reserve,
    obligation_referrer: Pubkey,
    lending_market_referral_fee_bps: u16,
    slots_elapsed: u64,
    borrowed: int,
    previous: int,
    obligation_has_referrer: bool,
    states: Seq<ReferrerTokenAccount>,
    cursor: int,
) -> (Result<(), LendingError>, Reserve, Seq<ReferrerTokenAccount>, int) {
    if borrow_reserve.liquidity.absolute_referral_rate_sf == 0 {
        (Ok(()), borrow_reserve, states, cursor)
    } else {
        let rate_growth = spec_mul(
            previous,
            spec_compounded(
                bps_val(borrow_reserve.config.host_fixed_interest_rate_bps as int),
                slots_elapsed as int,
            ),
        ) - previous;
        let fee = capped_referrer_fee(borrow_reserve, slots_elapsed, borrowed, previous);
        let referred = obligation_has_referrer && lending_market_referral_fee_bps > 0;
        let reduced = ReserveLiquidity {
            pending_referrer_fees_sf: (borrow_reserve.liquidity.pending_referrer_fees_sf - fee) as u128,
            ..borrow_reserve.liquidity
        };
        if rate_growth > borrowed - previous {
            (
                Err(LendingError::CannotCalculateReferralAmountDueToSlotsMismatch),
                borrow_reserve,
                states,
                cursor,
            )
        } else if !referred {
            (
                Ok(()),
                Reserve {
                    liquidity: ReserveLiquidity {
                        accumulated_protocol_fees_sf: (borrow_reserve.liquidity.accumulated_protocol_fees_sf
                            + fee) as u128,
                        ..reduced
                    },
                    ..borrow_reserve
                },
                states,
                cursor,
            )
        } else if cursor >= states.len() {
            (
                Err(LendingError::InvalidAccountInput),
                Reserve { liquidity: reduced, ..borrow_reserve },
                states,
                cursor,
            )
        } else {
            let a = states[cursor];
            match spec_referrer_state_check(
                a.state,
                a.key,
                borrow_reserve.liquidity.mint_pubkey,
                obligation_referrer,
                a.expected_address,
            ) {
                Err(e) => (Err(e), Reserve { liquidity: reduced, ..borrow_reserve }, states, cursor + 1),
                Ok(()) => (
                    Ok(()),
                    Reserve {
                        liquidity: ReserveLiquidity {
                            accumulated_referrer_fees_sf: (borrow_reserve.liquidity.accumulated_referrer_fees_sf
                                + fee) as u128,
                            ..reduced
                        },
                        ..borrow_reserve
                    },
                    states.update(
                        cursor,
                        ReferrerTokenAccount {
                            state: ReferrerTokenState {
                                amount_cumulative_sf: (a.state.amount_cumulative_sf + fee) as u128,
                                amount_unclaimed_sf: (a.state.amount_unclaimed_sf + fee) as u128,
                                ..a.state
                            },
                            ..a
                        },
                    ),
                    cursor + 1,
                ),
            }
        }
    }
}

/// The amounts of a move of referral fees fit their machine types, and a
/// referrer's account it credits has a bump that fits a byte.
pub open spec fn referrer_fee_computable(
    borrow_reserve: Reserve,
    lending_market_referral_fee_bps: u16,
    slots_elapsed: u64,
    borrowed: int,
    previous: int,
    obligation_has_referrer: bool,
    states: Seq<ReferrerTokenAccount>,
    cursor: int,
) -> bool {
    &&& borrow_reserve.liquidity.absolute_referral_rate_sf != 0 ==> referral_fee_computable(
        borrow_reserve,
        slots_elapsed,
        borrowed,
        previous,
    )
    &&& ({
        let fee = capped_referrer_fee(borrow_reserve, slots_elapsed, borrowed, previous);
        let referred = obligation_has_referrer && lending_market_referral_fee_bps > 0;
        &&& borrow_reserve.liquidity.absolute_referral_rate_sf != 0 && !referred
            ==> borrow_reserve.liquidity.accumulated_protocol_fees_sf + fee <= u128::MAX
        &&& borrow_reserve.liquidity.absolute_referral_rate_sf != 0 && referred && 0 <= cursor
            < states.len() ==> ({
            let a = states[cursor];
            &&& !(is_default_key(a.state.mint.bytes@) || is_default_key(a.state.referrer.bytes@))
                && a.state.mint.bytes@ == borrow_reserve.liquidity.mint_pubkey.bytes@ ==> a.state.bump
                <= 255
            &&& a.state.amount_cumulative_sf + fee <= u128::MAX
            &&& a.state.amount_unclaimed_sf + fee <= u128::MAX
            &&& borrow_reserve.liquidity.accumulated_referrer_fees_sf + fee <= u128::MAX
        })
    })
}

/// Moves the referral share of a borrow's new variable-rate debt out of the
/// reserve's pending referral fees: to the referrer's token account, the
/// next one in `referrer_token_states` from `cursor`, when the obligation has
/// a referrer and the market pays referral fees; to the protocol's fees
/// otherwise. Nothing happens for a reserve without a referral rate. An
/// error when the fixed-rate growth exceeds the whole growth of the debt,
/// when the referrer's account is missing, or when it fails its checks (the
/// pending fees are then already reduced).
pub fn accumulate_referrer_fees(
    borrow_reserve_info_key: Pubkey,
    borrow_reserve: &mut Reserve,
    obligation_referrer: &Pubkey,
    lending_market_referral_fee_bps: u16,
    slots_elapsed: u64,
    borrowed_amount_f: Fraction,
    previous_borrowed_amount_f: Fraction,
    obligation_has_referrer: bool,
    referrer_token_states: &mut Vec<ReferrerTokenAccount>,
    cursor: &mut usize,
) -> (r: Result<(), LendingError>)
    requires
        referrer_fee_computable(
            *old(borrow_reserve),
            lending_market_referral_fee_bps,
            slots_elapsed,
            borrowed_amount_f.val(),
            previous_borrowed_amount_f.val(),
            obligation_has_referrer,
            old(referrer_token_states)@,
            *old(cursor) as int,
        ),
    ensures
        (r, *final(borrow_reserve), final(referrer_token_states)@, *final(cursor) as int)
            == spec_referrer_fee_outcome(
            *old(borrow_reserve),
            *obligation_referrer,
            lending_market_referral_fee_bps,
            slots_elapsed,
            borrowed_amount_f.val(),
            previous_borrowed_amount_f.val(),
            obligation_has_referrer,
            old(referrer_token_states)@,
            *old(cursor) as int,
        ),
{
    let absolute_referral_rate = Fraction::from_bits(borrow_reserve.liquidity.absolute_referral_rate_sf);
    if absolute_referral_rate.bits == 0 {
        return Ok(());
    }
    let fixed_rate = crate::reserve::approximate_compounded_interest(
        Fraction::from_bps(borrow_reserve.config.host_fixed_interest_rate_bps as u64),
        slots_elapsed,
    );
    proof {
        crate::laws::law_compounded_factor_at_least_one(
            bps_val(borrow_reserve.config.host_fixed_interest_rate_bps as int),
            slots_elapsed as int,
        );
        let p = previous_borrowed_amount_f.val();
        let f = fixed_rate.val();
        assert(spec_mul(p, f) >= p) by (nonlinear_arith)
            requires
                f >= scale(),
                p >= 0,
                spec_mul(p, f) == p * f / scale(),
                scale() > 0,
        ;
    }
    let net_new_debt = borrowed_amount_f.sub(previous_borrowed_amount_f);
    let net_new_fixed_debt = previous_borrowed_amount_f.mul(fixed_rate).sub(previous_borrowed_amount_f);
    if net_new_fixed_debt.bits > net_new_debt.bits {
        return Err(LendingError::CannotCalculateReferralAmountDueToSlotsMismatch);
    }
    let net_new_variable_debt_f = net_new_debt.sub(net_new_fixed_debt);
    let referrer_fee_f = net_new_variable_debt_f.mul(absolute_referral_rate);
    let referrer_fee_capped_sf = if referrer_fee_f.bits
        <= borrow_reserve.liquidity.pending_referrer_fees_sf {
        referrer_fee_f.bits
    } else {
        borrow_reserve.liquidity.pending_referrer_fees_sf
    };
    borrow_reserve.liquidity.pending_referrer_fees_sf = borrow_reserve.liquidity.pending_referrer_fees_sf
        - referrer_fee_capped_sf;
    if obligation_has_referrer && lending_market_referral_fee_bps > 0 {
        if *cursor >= referrer_token_states.len() {
            return Err(LendingError::InvalidAccountInput);
        }
        let mut account = referrer_token_states[*cursor];
        *cursor = *cursor + 1;
        if let Err(e) = validate_referrer_token_state(
            &account.state,
            account.key,
            borrow_reserve.liquidity.mint_pubkey,
            *obligation_referrer,
            borrow_reserve_info_key,
            account.expected_address,
        ) {
            return Err(e);
        }
        let _ = add_referrer_fee(
            borrow_reserve,
            &mut account.state,
            Fraction::from_bits(referrer_fee_capped_sf),
        );
        referrer_token_states.set(*cursor - 1, account);
    } else {
        borrow_reserve.liquidity.accumulated_protocol_fees_sf = borrow_reserve.liquidity.accumulated_protocol_fees_sf
            + referrer_fee_capped_sf;
    }
    Ok(())
}

} // verus!
