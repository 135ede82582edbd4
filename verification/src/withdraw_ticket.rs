//! A ticket for collateral queued for withdrawal until the reserve has the
//! liquidity to pay it out.

use crate::pubkey::Pubkey;
use vstd::prelude::*;

verus! {

/// Collateral queued for withdrawal.
#[derive(Clone, Copy, Debug)]
pub struct WithdrawTicket {
    pub sequence_number: u64,
    pub owner: Pubkey,
    pub reserve: Pubkey,
    pub user_destination_liquidity_ta: Pubkey,
    pub queued_collateral_amount: u64,
    pub created_at_timestamp: u64,
    pub invalid: u8,
    pub progress_callback_type: u8,
    pub alignment_padding: [u8; 6],
    pub progress_callback_custom_accounts: [Pubkey; 2],
    pub end_padding: [u64; 40],
}

/// Who is told of a ticket's progress.
#[derive(Clone, Copy, Debug, PartialEq, Eq, Structural)]
pub enum ProgressCallbackType {
    NoCallback,
    KlendQueueAccountingHandlerOnKvault,
}

/// What a progress callback reports.
#[derive(Clone, Copy, Debug, PartialEq, Eq, Structural)]
pub enum WithdrawTicketProgressEvent {
    QueuedLiquidityWithdrawn,
}

impl ProgressCallbackType {
    /// The number that stands for the callback type in a ticket.
    pub open spec fn code(self) -> u8 {
        match self {
            ProgressCallbackType::NoCallback => 0,
            ProgressCallbackType::KlendQueueAccountingHandlerOnKvault => 1,
        }
    }
}

impl WithdrawTicket {
    /// The ticket's callback type; the number was checked when the callback
    /// was configured.
    pub fn progress_callback_type(&self) -> (r: ProgressCallbackType)
        requires
            self.progress_callback_type <= 1,
        ensures
            r.code() == self.progress_callback_type,
    {
        if self.progress_callback_type == 0 {
            ProgressCallbackType::NoCallback
        } else {
            ProgressCallbackType::KlendQueueAccountingHandlerOnKvault
        }
    }

    /// Whether the ticket may still be redeemed.
    pub fn is_valid(&self) -> (r: bool)
        ensures
            r == (self.invalid == 0),
    {
        self.invalid == 0
    }
}

} // verus!
