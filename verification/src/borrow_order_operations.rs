//! Placing and changing an obligation's borrow order, and matching the debt
//! term that an order asks for against the term that a reserve offers.

use crate::error::LendingError;
use crate::obligation::{all_zero_u64, all_zero_u8, BorrowOrder, BorrowOrderConfig};
use crate::pubkey::Pubkey;
use vstd::prelude::*;

verus! {

/// Places a new borrow order with the given configuration at `timestamp`.
pub fn initialize_borrow_order(
    borrow_order: &mut BorrowOrder,
    initial_order_config: BorrowOrderConfig,
    timestamp: u64,
) -> (r: Result<(), LendingError>)
    ensures
        r is Ok,
        final(borrow_order).active == 1,
        final(borrow_order).debt_liquidity_mint == initial_order_config.debt_liquidity_mint,
        final(borrow_order).remaining_debt_amount == initial_order_config.remaining_debt_amount,
        final(borrow_order).filled_debt_destination == initial_order_config.filled_debt_destination,
        final(borrow_order).min_debt_term_seconds == initial_order_config.min_debt_term_seconds,
        final(borrow_order).fillable_until_timestamp
            == initial_order_config.fillable_until_timestamp,
        final(borrow_order).max_borrow_rate_bps == initial_order_config.max_borrow_rate_bps,
        final(borrow_order).enable_auto_rollover_on_filled_borrows
            == initial_order_config.enable_auto_rollover_on_filled_borrows,
        final(borrow_order).placed_at_timestamp == timestamp,
        final(borrow_order).last_updated_at_timestamp == timestamp,
        final(borrow_order).requested_debt_amount == initial_order_config.remaining_debt_amount,
        all_zero_u8(final(borrow_order).padding1@),
        all_zero_u64(final(borrow_order).end_padding@),
{
    *borrow_order = BorrowOrder {
        active: 1,
        debt_liquidity_mint: initial_order_config.debt_liquidity_mint,
        remaining_debt_amount: initial_order_config.remaining_debt_amount,
        filled_debt_destination: initial_order_config.filled_debt_destination,
        min_debt_term_seconds: initial_order_config.min_debt_term_seconds,
        fillable_until_timestamp: initial_order_config.fillable_until_timestamp,
        max_borrow_rate_bps: initial_order_config.max_borrow_rate_bps,
        enable_auto_rollover_on_filled_borrows:
            initial_order_config.enable_auto_rollover_on_filled_borrows,
        placed_at_timestamp: timestamp,
        last_updated_at_timestamp: timestamp,
        requested_debt_amount: initial_order_config.remaining_debt_amount,
        padding1: [0u8;2],
        end_padding: [0u64;5],
    };
    Ok(())
}

/// An address that an order's change may not touch must stay as it is.
pub fn check_not_updated(_name: &str, current: &Pubkey, new: Pubkey) -> (r: Result<
    (),
    LendingError,
>)
    ensures
        current.bytes@ == new.bytes@ ==> r is Ok,
        current.bytes@ != new.bytes@ ==> r == Err::<(), LendingError>(
            LendingError::NonUpdatableOrderConfiguration,
        ),
{
    if !new.key_eq(current) {
        return Err(LendingError::NonUpdatableOrderConfiguration);
    }
    Ok(())
}

/// The order with the changeable parts of its configuration replaced: its
/// amount (which becomes the newly requested amount when it changes), rate,
/// term, deadline and rollover wish, stamped with `timestamp`.
pub open spec fn spec_updated_order(
    order: BorrowOrder,
    config: BorrowOrderConfig,
    timestamp: u64,
) -> BorrowOrder {
    BorrowOrder {
        last_updated_at_timestamp: timestamp,
        requested_debt_amount: if config.remaining_debt_amount != order.remaining_debt_amount {
            config.remaining_debt_amount
        } else {
            order.requested_debt_amount
        },
        remaining_debt_amount: config.remaining_debt_amount,
        max_borrow_rate_bps: config.max_borrow_rate_bps,
        min_debt_term_seconds: config.min_debt_term_seconds,
        fillable_until_timestamp: config.fillable_until_timestamp,
        enable_auto_rollover_on_filled_borrows: config.enable_auto_rollover_on_filled_borrows,
        ..order
    }
}

/// Changes a placed order to a new configuration. The debt mint and the
/// destination of the filled debt cannot change: a configuration that
/// changes either is refused, after the other fields were written.
pub fn update_borrow_order_config(
    borrow_order: &mut BorrowOrder,
    new_order_config: BorrowOrderConfig,
    timestamp: u64,
) -> (r: Result<(), LendingError>)
    ensures
        *final(borrow_order) == spec_updated_order(*old(borrow_order), new_order_config, timestamp),
        r is Ok <==> (old(borrow_order).debt_liquidity_mint.bytes@
            == new_order_config.debt_liquidity_mint.bytes@
            && old(borrow_order).filled_debt_destination.bytes@
            == new_order_config.filled_debt_destination.bytes@),
        r is Err ==> r == Err::<(), LendingError>(LendingError::NonUpdatableOrderConfiguration),
{
    borrow_order.last_updated_at_timestamp = timestamp;
    if new_order_config.remaining_debt_amount != borrow_order.remaining_debt_amount {
        borrow_order.requested_debt_amount = new_order_config.remaining_debt_amount;
    }
    borrow_order.remaining_debt_amount = new_order_config.remaining_debt_amount;
    borrow_order.max_borrow_rate_bps = new_order_config.max_borrow_rate_bps;
    borrow_order.min_debt_term_seconds = new_order_config.min_debt_term_seconds;
    borrow_order.fillable_until_timestamp = new_order_config.fillable_until_timestamp;
    borrow_order.enable_auto_rollover_on_filled_borrows =
        new_order_config.enable_auto_rollover_on_filled_borrows;

    if let Err(e) = check_not_updated(
        "debt liquidity mint",
        &borrow_order.debt_liquidity_mint,
        new_order_config.debt_liquidity_mint,
    ) {
        return Err(e);
    }
    if let Err(e) = check_not_updated(
        "filled debt destination",
        &borrow_order.filled_debt_destination,
        new_order_config.filled_debt_destination,
    ) {
        return Err(e);
    }
    Ok(())
}

/// Whether a reserve whose debt term is at most `max_offered_seconds` (none:
/// open-ended) meets an order asking for at least `min_requested_seconds`
/// (none: no fixed term wanted). An open-ended reserve meets every order;
/// a fixed-term reserve meets no order that wants an open-ended loan.
pub fn is_term_satisfied(min_requested_seconds: Option<u64>, max_offered_seconds: Option<u64>) -> (r:
    bool)
    ensures
        r == match (min_requested_seconds, max_offered_seconds) {
            (None, None) => true,
            (None, Some(_)) => false,
            (Some(_), None) => true,
            (Some(min_requested), Some(max_offered)) => min_requested <= max_offered,
        },
{
    match (min_requested_seconds, max_offered_seconds) {
        (None, None) => true,
        (None, Some(_)) => false,
        (Some(_), None) => true,
        (Some(min_requested), Some(max_offered)) => min_requested <= max_offered,
    }
}

} // verus!
