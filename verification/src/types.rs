//! Plain result and parameter types shared by the lending operations.

use crate::fraction::Fraction;
use crate::last_update::PriceStatusFlags;
use vstd::prelude::*;

verus! {

/// Liquidity deposited into a reserve and the collateral minted for it.
#[derive(Clone, Copy, Debug, PartialEq, Eq, Structural)]
pub struct DepositLiquidityResult {
    pub liquidity_amount: u64,
    pub collateral_amount: u64,
}

/// How much a borrower wants to receive.
#[derive(Clone, Copy, Debug, PartialEq, Eq, Structural)]
pub enum BorrowSize {
    /// Exactly this amount, or fail.
    Exact(u64),
    /// As much as the obligation and the reserve allow.
    AllAvailable,
    /// This amount, or less when the limits do not allow it.
    AtMost(u64),
}

impl BorrowSize {
    /// `AllAvailable` for the `u64::MAX` sentinel, else `Exact`.
    pub fn exact_or_all_available(liquidity_amount: u64) -> (r: BorrowSize)
        ensures
            liquidity_amount == u64::MAX ==> r == BorrowSize::AllAvailable,
            liquidity_amount != u64::MAX ==> r == BorrowSize::Exact(liquidity_amount),
    {
        if liquidity_amount == u64::MAX {
            BorrowSize::AllAvailable
        } else {
            BorrowSize::Exact(liquidity_amount)
        }
    }

    /// Whether the requested amount is zero.
    pub fn is_zero(&self) -> (r: bool)
        ensures
            r == match *self {
                BorrowSize::Exact(a) => a == 0,
                BorrowSize::AtMost(a) => a == 0,
                BorrowSize::AllAvailable => false,
            },
    {
        match self {
            BorrowSize::Exact(amount_lte) => *amount_lte == 0,
            BorrowSize::AtMost(amount_lte) => *amount_lte == 0,
            BorrowSize::AllAvailable => false,
        }
    }
}

/// A price read from an oracle: the price, the checks it passed and when it
/// was published.
#[derive(Clone, Copy, Debug)]
pub struct GetPriceResult {
    pub price: Fraction,
    pub status: PriceStatusFlags,
    pub timestamp: u64,
}

/// Outcome of a borrow calculation.
#[derive(Clone, Copy, Debug, PartialEq, Eq, Structural)]
pub struct CalculateBorrowResult {
    pub borrow_amount_f: Fraction,
    pub receive_amount: u64,
    pub origination_fee: u64,
    pub referrer_fee: u64,
}

/// Outcome of a repay calculation.
#[derive(Clone, Copy, Debug, PartialEq, Eq, Structural)]
pub struct CalculateRepayResult {
    pub settle_amount: Fraction,
    pub repay_amount: u64,
}

/// Why an obligation may be liquidated.
#[derive(Clone, Copy, Debug, PartialEq, Eq, Structural)]
pub enum LiquidationReason {
    LtvExceeded,
    IndividualDeleveraging,
    MarketWideDeleveraging,
    ObligationOrder(usize),
}

/// Outcome of a liquidation calculation.
#[derive(Clone, Copy, Debug, PartialEq, Eq, Structural)]
pub struct CalculateLiquidationResult {
    pub settle_amount: Fraction,
    pub repay_amount: u64,
    pub withdraw_amount: u64,
    pub liquidation_bonus_rate: Fraction,
    pub liquidation_reason: LiquidationReason,
}

/// Outcome of a liquidation.
#[derive(Clone, Copy, Debug, PartialEq, Eq, Structural)]
pub struct LiquidateObligationResult {
    pub settle_amount: Fraction,
    pub repay_amount: u64,
    pub withdraw_amount: u64,
    pub withdraw_collateral_amount: u64,
    pub liquidation_bonus_rate: Fraction,
    pub liquidation_reason: LiquidationReason,
}

/// Outcome of a liquidation followed by a redemption of the seized collateral.
#[derive(Clone, Copy, Debug)]
pub struct LiquidateAndRedeemResult {
    pub repay_amount: u64,
    pub withdraw_amount: u64,
    pub withdraw_collateral_amount: u64,
    pub total_withdraw_liquidity_amount: Option<(u64, u64)>,
}

/// The loan-to-value ratio and bonus under which a liquidation proceeds.
#[derive(Clone, Copy, Debug, PartialEq, Eq, Structural)]
pub struct LiquidationParams {
    pub user_ltv: Fraction,
    pub liquidation_bonus_rate: Fraction,
    pub liquidation_reason: LiquidationReason,
}

/// Aggregates computed while refreshing an obligation's deposits.
#[derive(Clone, Copy, Debug)]
pub struct RefreshObligationDepositsResult {
    pub lowest_deposit_liquidation_ltv_threshold_pct: u8,
    pub lowest_deposit_max_ltv_pct: u8,
    pub num_of_obsolete_reserves: u8,
    pub deposited_value_f: Fraction,
    pub allowed_borrow_value_f: Fraction,
    pub unhealthy_borrow_value_f: Fraction,
    pub prices_state: PriceStatusFlags,
    pub borrowing_disabled: bool,
}

/// Aggregates computed while refreshing an obligation's borrows.
#[derive(Clone, Copy, Debug)]
pub struct RefreshObligationBorrowsResult {
    pub borrow_factor_adjusted_debt_value_f: Fraction,
    pub borrowed_assets_market_value_f: Fraction,
    pub prices_state: PriceStatusFlags,
    pub highest_borrow_factor_pct: u64,
    pub borrowed_amount_in_elevation_group: Option<u64>,
    pub num_of_obsolete_reserves: u8,
}

/// A change of an amount in a given direction.
#[derive(Clone, Copy, Debug, PartialEq, Eq, Structural)]
pub enum LendingAction {
    Additive(u64),
    Subtractive(u64),
    SubstractiveSigned(i64),
}

/// Whether the limit on reserves usable as collateral is checked.
#[derive(Clone, Copy, Debug, PartialEq, Eq, Structural)]
pub enum MaxReservesAsCollateralCheck {
    Perform,
    Skip,
}

/// Which limit a withdrawal is measured against.
#[derive(Clone, Copy, Debug, PartialEq, Eq, Structural)]
pub enum LtvMaxWithdrawalCheck {
    MaxLtv,
    LiquidationThreshold,
}

} // verus!
