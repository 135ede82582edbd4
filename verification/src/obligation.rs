//! A user's position: up to eight collateral deposits, up to five borrows,
//! the values the last refresh computed from them, and the orders attached to
//! the position.

use crate::big_fraction::{limbs_val, BigFraction, BigFractionBytes};
use crate::consts::{ELEVATION_GROUP_NONE, SECONDS_PER_DAY};
use crate::error::LendingError;
use crate::fraction::{bps_val, scale, spec_div, Fraction};
use crate::last_update::LastUpdate;
use crate::obligation_order_operations::{
    condition_type_of, opportunity_type_of, ConditionType, OpportunityType, OrderCondition,
    OrderOpportunity, OrderSize,
};
use crate::pubkey::{is_default_key, Pubkey};
use crate::reserve::Reserve;
use crate::types::LtvMaxWithdrawalCheck;
use crate::wide::{div_rem, mul_u128, p128, p256, U256};
use vstd::prelude::*;

verus! {

/// Whether two addresses are the same.
pub open spec fn same_key(a: Pubkey, b: Pubkey) -> bool {
    a.bytes@ == b.bytes@
}

/// Whether every word of a sequence is zero.
pub open spec fn all_zero_u64(s: Seq<u64>) -> bool {
    forall|i: int| 0 <= i < s.len() ==> s[i] == 0u64
}

/// Whether every byte of a sequence is zero.
pub open spec fn all_zero_u8(s: Seq<u8>) -> bool {
    forall|i: int| 0 <= i < s.len() ==> s[i] == 0u8
}

// ---------------------------------------------------------------------------
// Collateral
// ---------------------------------------------------------------------------

/// One collateral deposit of an obligation.
#[derive(Clone, Copy, Debug)]
pub struct ObligationCollateral {
    pub deposit_reserve: Pubkey,
    pub deposited_amount: u64,
    pub market_value_sf: u128,
    pub borrowed_amount_against_this_collateral_in_elevation_group: u64,
    pub padding: [u64; 9],
}

impl ObligationCollateral {
    /// Whether the slot is in use: its reserve is not the zero address.
    pub open spec fn spec_is_active(self) -> bool {
        !is_default_key(self.deposit_reserve.bytes@)
    }

    /// Whether every field is zero (an unused slot).
    pub open spec fn is_zeroed(self) -> bool {
        &&& is_default_key(self.deposit_reserve.bytes@)
        &&& self.deposited_amount == 0
        &&& self.market_value_sf == 0
        &&& self.borrowed_amount_against_this_collateral_in_elevation_group == 0
        &&& all_zero_u64(self.padding@)
    }

    /// An empty deposit of the given reserve.
    pub fn new(deposit_reserve: Pubkey) -> (r: Self)
        ensures
            r.deposit_reserve == deposit_reserve,
            r.deposited_amount == 0,
            r.market_value_sf == 0,
            r.borrowed_amount_against_this_collateral_in_elevation_group == 0,
            all_zero_u64(r.padding@),
    {
        ObligationCollateral {
            deposit_reserve,
            deposited_amount: 0,
            market_value_sf: 0,
            borrowed_amount_against_this_collateral_in_elevation_group: 0,
            padding: [0u64;9],
        }
    }

    /// Adds collateral; an overflow error leaves the deposit unchanged.
    pub fn deposit(&mut self, collateral_amount: u64) -> (r: Result<(), LendingError>)
        ensures
            old(self).deposited_amount + collateral_amount <= u64::MAX ==> r is Ok && *final(self)
                == (ObligationCollateral {
                deposited_amount: (old(self).deposited_amount + collateral_amount) as u64,
                ..*old(self)
            }),
            old(self).deposited_amount + collateral_amount > u64::MAX ==> r == Err::<(), LendingError>(
                LendingError::MathOverflow,
            ) && *final(self) == *old(self),
    {
        match self.deposited_amount.checked_add(collateral_amount) {
            Some(v) => {
                self.deposited_amount = v;
                Ok(())
            },
            None => Err(LendingError::MathOverflow),
        }
    }

    /// Removes collateral; withdrawing more than deposited is an overflow
    /// error that leaves the deposit unchanged.
    pub fn withdraw(&mut self, collateral_amount: u64) -> (r: Result<(), LendingError>)
        ensures
            collateral_amount <= old(self).deposited_amount ==> r is Ok && *final(self) == (
            ObligationCollateral {
                deposited_amount: (old(self).deposited_amount - collateral_amount) as u64,
                ..*old(self)
            }),
            collateral_amount > old(self).deposited_amount ==> r == Err::<(), LendingError>(
                LendingError::MathOverflow,
            ) && *final(self) == *old(self),
    {
        match self.deposited_amount.checked_sub(collateral_amount) {
            Some(v) => {
                self.deposited_amount = v;
                Ok(())
            },
            None => Err(LendingError::MathOverflow),
        }
    }

    /// Whether the slot is in use.
    pub fn is_active(&self) -> (r: bool)
        ensures
            r == self.spec_is_active(),
    {
        !self.deposit_reserve.is_default()
    }

    /// The deposit's market value at the last refresh.
    pub fn market_value(&self) -> (r: Fraction)
        ensures
            r.val() == self.market_value_sf,
    {
        Fraction::from_bits(self.market_value_sf)
    }
}

impl Default for ObligationCollateral {
    fn default() -> (r: Self)
        ensures
            r.is_zeroed(),
    {
        ObligationCollateral::new(Pubkey::default_key())
    }
}

// ---------------------------------------------------------------------------
// Fixed-term rollover configuration
// ---------------------------------------------------------------------------

/// The owner's preferences for rolling a fixed-term borrow over.
#[derive(Clone, Copy, Debug, PartialEq, Eq, Structural)]
pub struct FixedTermBorrowRolloverConfig {
    pub auto_rollover_enabled: u8,
    pub open_term_allowed: u8,
    pub migration_to_fixed_enabled: u8,
    pub fixed_term_rollover_window_duration_days: u8,
    pub max_borrow_rate_bps: u32,
    pub min_debt_term_seconds: u64,
}

/// Limits that a debt reserve must respect to be accepted by an owner.
#[derive(Clone, Copy, Debug, PartialEq, Eq, Structural)]
pub struct DebtReserveConstraint {
    pub max_borrow_rate_bps: u32,
    pub min_debt_term_seconds: u64,
}

impl DebtReserveConstraint {
    /// The least debt term asked for, or none when no term is asked for
    /// (a zero).
    pub fn min_debt_term_seconds(&self) -> (r: Option<u64>)
        ensures
            self.min_debt_term_seconds == 0 ==> r is None,
            self.min_debt_term_seconds != 0 ==> r == Some(self.min_debt_term_seconds),
    {
        if self.min_debt_term_seconds == 0 {
            return None;
        }
        Some(self.min_debt_term_seconds)
    }
}

impl FixedTermBorrowRolloverConfig {
    /// Whether every field is zero.
    pub open spec fn is_zeroed(self) -> bool {
        &&& self.auto_rollover_enabled == 0
        &&& self.open_term_allowed == 0
        &&& self.migration_to_fixed_enabled == 0
        &&& self.fixed_term_rollover_window_duration_days == 0
        &&& self.max_borrow_rate_bps == 0
        &&& self.min_debt_term_seconds == 0
    }

    /// Whether automatic rollover is enabled.
    pub fn is_auto_rollover_enabled(&self) -> (r: bool)
        ensures
            r == (self.auto_rollover_enabled != 0),
    {
        self.auto_rollover_enabled != 0
    }

    /// Whether migration from open to fixed term is enabled.
    pub fn is_migration_to_fixed_enabled(&self) -> (r: bool)
        ensures
            r == (self.migration_to_fixed_enabled != 0),
    {
        self.migration_to_fixed_enabled != 0
    }

    /// Whether two configurations agree on everything but the rollover window.
    pub fn is_compatible_with(&self, other: &Self) -> (r: bool)
        ensures
            r == (self.auto_rollover_enabled == other.auto_rollover_enabled
                && self.open_term_allowed == other.open_term_allowed
                && self.migration_to_fixed_enabled == other.migration_to_fixed_enabled
                && self.max_borrow_rate_bps == other.max_borrow_rate_bps
                && self.min_debt_term_seconds == other.min_debt_term_seconds),
    {
        self.auto_rollover_enabled == other.auto_rollover_enabled
            && self.open_term_allowed == other.open_term_allowed
            && self.migration_to_fixed_enabled == other.migration_to_fixed_enabled
            && self.max_borrow_rate_bps == other.max_borrow_rate_bps
            && self.min_debt_term_seconds == other.min_debt_term_seconds
    }

    /// The rollover window in seconds, when one is configured.
    pub fn get_fixed_term_rollover_window_duration_seconds(&self) -> (r: Option<u64>)
        ensures
            self.fixed_term_rollover_window_duration_days == 0 ==> r is None,
            self.fixed_term_rollover_window_duration_days != 0 ==> r == Some(
                (self.fixed_term_rollover_window_duration_days * SECONDS_PER_DAY) as u64,
            ),
    {
        if self.fixed_term_rollover_window_duration_days == 0 {
            return None;
        }
        Some((self.fixed_term_rollover_window_duration_days as u64) * SECONDS_PER_DAY)
    }

    /// The debt reserve limits this configuration accepts.
    pub fn reserve_constraint(&self) -> (r: DebtReserveConstraint)
        ensures
            r.max_borrow_rate_bps == self.max_borrow_rate_bps,
            r.min_debt_term_seconds == self.min_debt_term_seconds,
    {
        DebtReserveConstraint {
            max_borrow_rate_bps: self.max_borrow_rate_bps,
            min_debt_term_seconds: self.min_debt_term_seconds,
        }
    }
}

impl Default for FixedTermBorrowRolloverConfig {
    fn default() -> (r: Self)
        ensures
            r.is_zeroed(),
    {
        FixedTermBorrowRolloverConfig {
            auto_rollover_enabled: 0,
            open_term_allowed: 0,
            migration_to_fixed_enabled: 0,
            fixed_term_rollover_window_duration_days: 0,
            max_borrow_rate_bps: 0,
            min_debt_term_seconds: 0,
        }
    }
}

// ---------------------------------------------------------------------------
// Borrows
// ---------------------------------------------------------------------------

/// One borrow of an obligation.
#[derive(Clone, Copy, Debug)]
pub struct ObligationLiquidity {
    pub borrow_reserve: Pubkey,
    pub cumulative_borrow_rate_bsf: BigFractionBytes,
    pub last_borrowed_at_timestamp: u64,
    pub borrowed_amount_sf: u128,
    pub market_value_sf: u128,
    pub borrow_factor_adjusted_market_value_sf: u128,
    pub borrowed_amount_outside_elevation_groups: u64,
    pub fixed_term_borrow_rollover_config: FixedTermBorrowRolloverConfig,
    pub borrowed_amount_at_expiration: u64,
    pub padding2: [u64; 4],
}

/// The borrowed amount grown by the ratio of the new cumulative borrow rate
/// to the one the borrow was last accrued at, rounded down.
pub open spec fn spec_accrued_amount(amount: int, former_rate: int, new_rate: int) -> int {
    amount * new_rate / former_rate
}

impl ObligationLiquidity {
    /// Whether the slot is in use: its reserve is not the zero address.
    pub open spec fn spec_is_active(self) -> bool {
        !is_default_key(self.borrow_reserve.bytes@)
    }

    /// The cumulative borrow rate the borrow was last accrued at, scaled.
    pub open spec fn former_rate(self) -> int {
        limbs_val(self.cumulative_borrow_rate_bsf.value@)
    }

    /// Whether every field is zero (an unused slot).
    pub open spec fn is_zeroed(self) -> bool {
        &&& is_default_key(self.borrow_reserve.bytes@)
        &&& all_zero_u64(self.cumulative_borrow_rate_bsf.value@)
        &&& all_zero_u64(self.cumulative_borrow_rate_bsf.padding@)
        &&& self.last_borrowed_at_timestamp == 0
        &&& self.borrowed_amount_sf == 0
        &&& self.market_value_sf == 0
        &&& self.borrow_factor_adjusted_market_value_sf == 0
        &&& self.borrowed_amount_outside_elevation_groups == 0
        &&& self.fixed_term_borrow_rollover_config.is_zeroed()
        &&& self.borrowed_amount_at_expiration == 0
        &&& all_zero_u64(self.padding2@)
    }

    /// An empty borrow of the given reserve, accrued at the given cumulative
    /// borrow rate.
    pub fn new(borrow_reserve: Pubkey, cumulative_borrow_rate_bf: BigFraction) -> (r: Self)
        ensures
            r.borrow_reserve == borrow_reserve,
            r.former_rate() == cumulative_borrow_rate_bf.val(),
            all_zero_u64(r.cumulative_borrow_rate_bsf.padding@),
            r.last_borrowed_at_timestamp == 0,
            r.borrowed_amount_sf == 0,
            r.market_value_sf == 0,
            r.borrow_factor_adjusted_market_value_sf == 0,
            r.borrowed_amount_outside_elevation_groups == 0,
            r.fixed_term_borrow_rollover_config.is_zeroed(),
            r.borrowed_amount_at_expiration == 0,
            all_zero_u64(r.padding2@),
    {
        ObligationLiquidity {
            borrow_reserve,
            cumulative_borrow_rate_bsf: BigFractionBytes::from_big_fraction(
                cumulative_borrow_rate_bf,
            ),
            last_borrowed_at_timestamp: 0,
            borrowed_amount_sf: 0,
            market_value_sf: 0,
            borrow_factor_adjusted_market_value_sf: 0,
            borrowed_amount_outside_elevation_groups: 0,
            fixed_term_borrow_rollover_config: FixedTermBorrowRolloverConfig::default(),
            borrowed_amount_at_expiration: 0,
            padding2: [0u64;4],
        }
    }

    /// Lowers the borrowed amount by a settled amount no larger than it.
    pub fn repay(&mut self, settle_amount: Fraction)
        requires
            settle_amount.val() <= old(self).borrowed_amount_sf,
        ensures
            *final(self) == (ObligationLiquidity {
                borrowed_amount_sf: (old(self).borrowed_amount_sf - settle_amount.val()) as u128,
                ..*old(self)
            }),
    {
        self.borrowed_amount_sf = self.borrowed_amount().sub(settle_amount).to_bits();
    }

    /// Raises the borrowed amount and records the time of the borrow.
    pub fn borrow(&mut self, borrow_amount: Fraction, current_timestamp: u64)
        requires
            old(self).borrowed_amount_sf + borrow_amount.val() <= u128::MAX,
        ensures
            *final(self) == (ObligationLiquidity {
                borrowed_amount_sf: (old(self).borrowed_amount_sf + borrow_amount.val()) as u128,
                last_borrowed_at_timestamp: current_timestamp,
                ..*old(self)
            }),
    {
        self.borrowed_amount_sf = self.borrowed_amount().add(borrow_amount).to_bits();
        self.last_borrowed_at_timestamp = current_timestamp;
    }

    /// Brings the borrow up to a new cumulative borrow rate: the amount grows
    /// by the ratio of the new rate to the former one. A lower rate is an
    /// error, an equal rate changes nothing, and an amount that would not fit
    /// is an overflow error; errors leave the borrow unchanged.
    pub fn accrue_interest(&mut self, new_cumulative_borrow_rate: BigFraction) -> (r: Result<
        (),
        LendingError,
    >)
        requires
            new_cumulative_borrow_rate.val() > old(self).former_rate() ==> old(self).former_rate()
                > 0 && old(self).borrowed_amount_sf * new_cumulative_borrow_rate.val() < p256(),
        ensures
            new_cumulative_borrow_rate.val() < old(self).former_rate() ==> r == Err::<
                (),
                LendingError,
            >(LendingError::NegativeInterestRate) && *final(self) == *old(self),
            new_cumulative_borrow_rate.val() == old(self).former_rate() ==> r is Ok && *final(self)
                == *old(self),
            new_cumulative_borrow_rate.val() > old(self).former_rate() ==> ({
                let grown = spec_accrued_amount(
                    old(self).borrowed_amount_sf as int,
                    old(self).former_rate(),
                    new_cumulative_borrow_rate.val(),
                );
                &&& grown <= u128::MAX ==> r is Ok && final(self).borrowed_amount_sf == grown
                    && final(self).former_rate() == new_cumulative_borrow_rate.val()
                    && final(self).cumulative_borrow_rate_bsf.padding
                    == old(self).cumulative_borrow_rate_bsf.padding && *final(self)
                    == (ObligationLiquidity {
                    borrowed_amount_sf: final(self).borrowed_amount_sf,
                    cumulative_borrow_rate_bsf: final(self).cumulative_borrow_rate_bsf,
                    ..*old(self)
                })
                &&& grown > u128::MAX ==> r == Err::<(), LendingError>(LendingError::MathOverflow)
                    && *final(self) == *old(self)
            }),
    {
        let former = self.cumulative_borrow_rate_bsf.to_big_fraction();
        let new_rate = new_cumulative_borrow_rate;
        if former.value.ge(&new_rate.value) {
            if new_rate.value.ge(&former.value) {
                return Ok(());
            }
            return Err(LendingError::NegativeInterestRate);
        }
        let grown = Self::calculate_amount_with_accrued_interest(
            self.borrowed_amount_sf,
            &former.value,
            &new_rate.value,
        );
        match grown {
            Ok(v) => {
                self.borrowed_amount_sf = v;
                self.cumulative_borrow_rate_bsf.value = new_rate.to_bits();
                Ok(())
            },
            Err(e) => Err(e),
        }
    }

    /// `amount * new / former`, rounded down, or an overflow error when it
    /// does not fit in 128 bits.
    fn calculate_amount_with_accrued_interest(
        amount_sf: u128,
        former_cumulative_borrow_rate_bsf: &U256,
        new_cumulative_borrow_rate_bsf: &U256,
    ) -> (r: Result<u128, LendingError>)
        requires
            former_cumulative_borrow_rate_bsf.val() > 0,
            amount_sf * new_cumulative_borrow_rate_bsf.val() < p256(),
        ensures
            ({
                let v = spec_accrued_amount(
                    amount_sf as int,
                    former_cumulative_borrow_rate_bsf.val(),
                    new_cumulative_borrow_rate_bsf.val(),
                );
                &&& v <= u128::MAX ==> r == Ok::<u128, LendingError>(v as u128)
                &&& v > u128::MAX ==> r == Err::<u128, LendingError>(LendingError::MathOverflow)
            }),
    {
        let product = U256::from_u128(amount_sf).checked_mul(new_cumulative_borrow_rate_bsf).unwrap();
        let (q, _rem) = div_rem(&product, former_cumulative_borrow_rate_bsf);
        match q.to_u128() {
            Some(v) => Ok(v),
            None => Err(LendingError::MathOverflow),
        }
    }

    /// Whether the slot is in use.
    pub fn is_active(&self) -> (r: bool)
        ensures
            r == self.spec_is_active(),
    {
        !self.borrow_reserve.is_default()
    }

    /// The borrow's market value at the last refresh.
    pub fn market_value(&self) -> (r: Fraction)
        ensures
            r.val() == self.market_value_sf,
    {
        Fraction::from_bits(self.market_value_sf)
    }

    /// The borrowed amount, interest included.
    pub fn borrowed_amount(&self) -> (r: Fraction)
        ensures
            r.val() == self.borrowed_amount_sf,
    {
        Fraction::from_bits(self.borrowed_amount_sf)
    }

    /// The borrowed amount captured when the debt term ended.
    pub fn borrowed_amount_at_expiration(&self) -> (r: Fraction)
        ensures
            r.val() == self.borrowed_amount_at_expiration * scale(),
    {
        Fraction::from_num(self.borrowed_amount_at_expiration)
    }
}

impl Default for ObligationLiquidity {
    fn default() -> (r: Self)
        ensures
            r.is_zeroed(),
    {
        let r = ObligationLiquidity {
            borrow_reserve: Pubkey::default_key(),
            cumulative_borrow_rate_bsf: BigFractionBytes { value: [0u64;4], padding: [0u64;2] },
            last_borrowed_at_timestamp: 0,
            borrowed_amount_sf: 0,
            market_value_sf: 0,
            borrow_factor_adjusted_market_value_sf: 0,
            borrowed_amount_outside_elevation_groups: 0,
            fixed_term_borrow_rollover_config: FixedTermBorrowRolloverConfig::default(),
            borrowed_amount_at_expiration: 0,
            padding2: [0u64;4],
        };
        r
    }
}

// ---------------------------------------------------------------------------
// Obligation orders
// ---------------------------------------------------------------------------

/// An order attached to an obligation: a condition, an opportunity, and the
/// bonus range offered to the executor.
#[derive(Clone, Copy, Debug)]
pub struct ObligationOrder {
    pub condition_threshold_sf: u128,
    pub opportunity_parameter_sf: u128,
    pub min_execution_bonus_bps: u16,
    pub max_execution_bonus_bps: u16,
    pub condition_type: u8,
    pub opportunity_type: u8,
    pub padding1: [u8; 2],
    pub max_borrow_rate_bps: u32,
    pub min_debt_term_seconds: u32,
    pub debt_mint_address: Pubkey,
    pub collateral_mint_address: Pubkey,
    pub padding2: [u128; 1],
}

/// The condition an order's type code and threshold stand for.
pub open spec fn spec_condition(t: ConditionType, threshold: Fraction) -> OrderCondition {
    match t {
        ConditionType::Never => OrderCondition::Never,
        ConditionType::UserLtvAbove => OrderCondition::UserLtvAbove(threshold),
        ConditionType::UserLtvBelow => OrderCondition::UserLtvBelow(threshold),
        ConditionType::DebtCollPriceRatioAbove => OrderCondition::DebtCollPriceRatioAbove(threshold),
        ConditionType::DebtCollPriceRatioBelow => OrderCondition::DebtCollPriceRatioBelow(threshold),
        ConditionType::Always => OrderCondition::Always,
        ConditionType::LiquidationLtvCloserThan => OrderCondition::LiquidationLtvCloserThan(
            threshold,
        ),
    }
}

/// The opportunity an order's type code and parameter stand for.
pub open spec fn spec_opportunity(t: OpportunityType, parameter: Fraction) -> OrderOpportunity {
    match t {
        OpportunityType::DeleverageDebtAmount => OrderOpportunity::Deleverage(
            OrderSize::DebtAmount(parameter),
        ),
        OpportunityType::LeverUpDebtAmount => OrderOpportunity::LeverUp(
            OrderSize::DebtAmount(parameter),
        ),
        OpportunityType::DeleverageToTargetLtv => OrderOpportunity::Deleverage(
            OrderSize::ToTargetLtv(parameter),
        ),
        OpportunityType::LeverUpToTargetLtv => OrderOpportunity::LeverUp(
            OrderSize::ToTargetLtv(parameter),
        ),
    }
}

impl ObligationOrder {
    /// Whether every field is zero (no order).
    pub open spec fn is_zeroed(self) -> bool {
        &&& self.condition_threshold_sf == 0
        &&& self.opportunity_parameter_sf == 0
        &&& self.min_execution_bonus_bps == 0
        &&& self.max_execution_bonus_bps == 0
        &&& self.condition_type == 0
        &&& self.opportunity_type == 0
        &&& all_zero_u8(self.padding1@)
        &&& self.max_borrow_rate_bps == 0
        &&& self.min_debt_term_seconds == 0
        &&& is_default_key(self.debt_mint_address.bytes@)
        &&& is_default_key(self.collateral_mint_address.bytes@)
        &&& self.padding2@[0] == 0u128
    }

    /// Whether both type codes are known.
    pub open spec fn has_valid_types(self) -> bool {
        &&& condition_type_of(self.condition_type) is Some
        &&& opportunity_type_of(self.opportunity_type) is Some
    }

    /// The condition type; the stored code must be a known one.
    pub open spec fn spec_condition_type(self) -> ConditionType {
        condition_type_of(self.condition_type)->0
    }

    /// The opportunity type; the stored code must be a known one.
    pub open spec fn spec_opportunity_type(self) -> OpportunityType {
        opportunity_type_of(self.opportunity_type)->0
    }

    /// Whether every field is zero.
    pub fn is_void(&self) -> (r: bool)
        ensures
            r == self.is_zeroed(),
    {
        self.condition_threshold_sf == 0 && self.opportunity_parameter_sf == 0
            && self.min_execution_bonus_bps == 0 && self.max_execution_bonus_bps == 0
            && self.condition_type == 0 && self.opportunity_type == 0
            && crate::accounts::is_zeroed_bytes(&self.padding1) && self.max_borrow_rate_bps == 0
            && self.min_debt_term_seconds == 0 && self.debt_mint_address.is_default()
            && self.collateral_mint_address.is_default() && self.padding2[0] == 0
    }

    /// The condition type, whose stored code must be a known one.
    pub fn condition_type(&self) -> (r: ConditionType)
        requires
            condition_type_of(self.condition_type) is Some,
        ensures
            r == self.spec_condition_type(),
    {
        ConditionType::try_from_u8(self.condition_type).unwrap()
    }

    /// The condition threshold.
    pub fn condition_threshold(&self) -> (r: Fraction)
        ensures
            r.val() == self.condition_threshold_sf,
    {
        Fraction::from_bits(self.condition_threshold_sf)
    }

    /// The opportunity type, whose stored code must be a known one.
    pub fn opportunity_type(&self) -> (r: OpportunityType)
        requires
            opportunity_type_of(self.opportunity_type) is Some,
        ensures
            r == self.spec_opportunity_type(),
    {
        OpportunityType::try_from_u8(self.opportunity_type).unwrap()
    }

    /// The opportunity parameter (a debt amount or a target LTV).
    pub fn opportunity_parameter(&self) -> (r: Fraction)
        ensures
            r.val() == self.opportunity_parameter_sf,
    {
        Fraction::from_bits(self.opportunity_parameter_sf)
    }

    /// The condition with its threshold.
    pub fn condition(&self) -> (r: OrderCondition)
        requires
            condition_type_of(self.condition_type) is Some,
        ensures
            r == spec_condition(
                self.spec_condition_type(),
                Fraction { bits: self.condition_threshold_sf },
            ),
    {
        let threshold = self.condition_threshold();
        match self.condition_type() {
            ConditionType::Never => OrderCondition::Never,
            ConditionType::UserLtvAbove => OrderCondition::UserLtvAbove(threshold),
            ConditionType::UserLtvBelow => OrderCondition::UserLtvBelow(threshold),
            ConditionType::DebtCollPriceRatioAbove => OrderCondition::DebtCollPriceRatioAbove(
                threshold,
            ),
            ConditionType::DebtCollPriceRatioBelow => OrderCondition::DebtCollPriceRatioBelow(
                threshold,
            ),
            ConditionType::Always => OrderCondition::Always,
            ConditionType::LiquidationLtvCloserThan => OrderCondition::LiquidationLtvCloserThan(
                threshold,
            ),
        }
    }

    /// The opportunity with its size.
    pub fn opportunity(&self) -> (r: OrderOpportunity)
        requires
            opportunity_type_of(self.opportunity_type) is Some,
        ensures
            r == spec_opportunity(
                self.spec_opportunity_type(),
                Fraction { bits: self.opportunity_parameter_sf },
            ),
    {
        let parameter = self.opportunity_parameter();
        match self.opportunity_type() {
            OpportunityType::DeleverageDebtAmount => OrderOpportunity::Deleverage(
                OrderSize::DebtAmount(parameter),
            ),
            OpportunityType::LeverUpDebtAmount => OrderOpportunity::LeverUp(
                OrderSize::DebtAmount(parameter),
            ),
            OpportunityType::DeleverageToTargetLtv => OrderOpportunity::Deleverage(
                OrderSize::ToTargetLtv(parameter),
            ),
            OpportunityType::LeverUpToTargetLtv => OrderOpportunity::LeverUp(
                OrderSize::ToTargetLtv(parameter),
            ),
        }
    }

    /// Fails unless the order offers the expected opportunity type.
    pub fn check_expected_opportunity_type(&self, expected_opportunity_type: OpportunityType) -> (r:
        Result<(), LendingError>)
        requires
            opportunity_type_of(self.opportunity_type) is Some,
        ensures
            self.spec_opportunity_type() == expected_opportunity_type ==> r is Ok,
            self.spec_opportunity_type() != expected_opportunity_type ==> r == Err::<
                (),
                LendingError,
            >(LendingError::ObligationOrderOpportunityTypeMismatch),
    {
        if self.opportunity_type() != expected_opportunity_type {
            return Err(LendingError::ObligationOrderOpportunityTypeMismatch);
        }
        Ok(())
    }

    /// The executor's bonus rate range, from the minimum to the maximum.
    pub fn execution_bonus_rate_range(&self) -> (r: (Fraction, Fraction))
        ensures
            r.0.val() == bps_val(self.min_execution_bonus_bps as int),
            r.1.val() == bps_val(self.max_execution_bonus_bps as int),
    {
        (
            Fraction::from_bps(self.min_execution_bonus_bps as u64),
            Fraction::from_bps(self.max_execution_bonus_bps as u64),
        )
    }

    /// Uses up to `debt_amount` of a debt-amount opportunity; see
    /// [`Self::consume_fraction`].
    pub fn consume(&mut self, debt_amount: u64) -> (r: Option<Fraction>)
        requires
            opportunity_type_of(old(self).opportunity_type) is Some,
        ensures
            consumed(*old(self), debt_amount * scale(), *final(self), r),
    {
        self.consume_fraction(Fraction::from_num(debt_amount))
    }

    /// Uses the whole of a debt-amount opportunity, clearing the order.
    pub fn consume_fully(&mut self) -> (r: Option<Fraction>)
        requires
            opportunity_type_of(old(self).opportunity_type) is Some,
        ensures
            consumed(*old(self), u128::MAX as int, *final(self), r),
    {
        self.consume_fraction(Fraction::max_value())
    }

    /// Uses `debt_amount` of the order: a debt-amount opportunity shrinks by
    /// it (to zero at least) and the remaining size is returned, the order
    /// being cleared when nothing remains; a target-LTV opportunity is left
    /// unaffected and `None` is returned.
    fn consume_fraction(&mut self, debt_amount: Fraction) -> (r: Option<Fraction>)
        requires
            opportunity_type_of(old(self).opportunity_type) is Some,
        ensures
            consumed(*old(self), debt_amount.val(), *final(self), r),
    {
        match self.opportunity_type() {
            OpportunityType::DeleverageDebtAmount => Some(
                self.use_debt_amount_opportunity(debt_amount),
            ),
            OpportunityType::LeverUpDebtAmount => Some(self.use_debt_amount_opportunity(debt_amount)),
            OpportunityType::DeleverageToTargetLtv | OpportunityType::LeverUpToTargetLtv => None,
        }
    }

    /// The debt reserve limits an order that borrows accepts; none when the
    /// order sets no maximum borrow rate.
    fn reserve_constraint(&self) -> (r: Option<DebtReserveConstraint>)
        ensures
            self.max_borrow_rate_bps == 0 ==> r is None,
            self.max_borrow_rate_bps != 0 ==> r == Some(
                DebtReserveConstraint {
                    max_borrow_rate_bps: self.max_borrow_rate_bps,
                    min_debt_term_seconds: self.min_debt_term_seconds as u64,
                },
            ),
    {
        if self.max_borrow_rate_bps == 0 {
            return None;
        }
        Some(
            DebtReserveConstraint {
                max_borrow_rate_bps: self.max_borrow_rate_bps,
                min_debt_term_seconds: self.min_debt_term_seconds as u64,
            },
        )
    }

    /// Shrinks the opportunity by `debt_amount` (saturating at zero); clears
    /// the order when nothing remains. Returns the remaining size.
    fn use_debt_amount_opportunity(&mut self, debt_amount: Fraction) -> (r: Fraction)
        ensures
            r.val() == spec_remaining_size(old(self).opportunity_parameter_sf as int, debt_amount.val()),
            r.val() == 0 ==> final(self).is_zeroed(),
            r.val() != 0 ==> *final(self) == (ObligationOrder {
                opportunity_parameter_sf: r.bits,
                ..*old(self)
            }),
    {
        let size = self.opportunity_parameter();
        let updated_size = size.saturating_sub(debt_amount);
        if updated_size.is_zero() {
            *self = ObligationOrder::default();
        } else {
            self.opportunity_parameter_sf = updated_size.to_bits();
        }
        updated_size
    }

    /// Whether the order has a condition (is not void).
    pub fn is_active(&self) -> (r: bool)
        ensures
            r == (self.condition_type != 0),
    {
        self.condition_type != 0
    }

    /// Whether a mint chosen by the order (the zero address accepting any)
    /// accepts the reserve's liquidity mint.
    fn reserve_mint_accepted(chosen_mint: Pubkey, reserve: &Reserve) -> (r: bool)
        ensures
            r == (is_default_key(chosen_mint.bytes@) || same_key(
                chosen_mint,
                reserve.liquidity.mint_pubkey,
            )),
    {
        chosen_mint.is_default() || chosen_mint.key_eq(&reserve.liquidity.mint_pubkey)
    }
}

/// What remains of an order of size `size` after using `amount` of it.
pub open spec fn spec_remaining_size(size: int, amount: int) -> int {
    if size >= amount {
        size - amount
    } else {
        0
    }
}

/// The effect of using `amount` of an order: a debt-amount opportunity
/// shrinks and reports what remains (cleared at zero); a target-LTV one is
/// unaffected and reports nothing.
pub open spec fn consumed(
    before: ObligationOrder,
    amount: int,
    after: ObligationOrder,
    r: Option<Fraction>,
) -> bool {
    match before.spec_opportunity_type() {
        OpportunityType::DeleverageDebtAmount | OpportunityType::LeverUpDebtAmount => {
            let remaining = spec_remaining_size(before.opportunity_parameter_sf as int, amount);
            &&& r matches Some(f) && f.val() == remaining
            &&& remaining == 0 ==> after.is_zeroed()
            &&& remaining != 0 ==> after == (ObligationOrder {
                opportunity_parameter_sf: remaining as u128,
                ..before
            })
        },
        _ => r is None && after == before,
    }
}

impl Default for ObligationOrder {
    fn default() -> (r: Self)
        ensures
            r.is_zeroed(),
    {
        let r = ObligationOrder {
            condition_threshold_sf: 0,
            opportunity_parameter_sf: 0,
            min_execution_bonus_bps: 0,
            max_execution_bonus_bps: 0,
            condition_type: 0,
            opportunity_type: 0,
            padding1: [0u8;2],
            max_borrow_rate_bps: 0,
            min_debt_term_seconds: 0,
            debt_mint_address: Pubkey::default_key(),
            collateral_mint_address: Pubkey::default_key(),
            padding2: [0u128;1],
        };
        r
    }
}

// ---------------------------------------------------------------------------
// Borrow orders
// ---------------------------------------------------------------------------

/// A standing request to borrow, filled by others over time.
#[derive(Clone, Copy, Debug)]
pub struct BorrowOrder {
    pub debt_liquidity_mint: Pubkey,
    pub remaining_debt_amount: u64,
    pub filled_debt_destination: Pubkey,
    pub min_debt_term_seconds: u64,
    pub fillable_until_timestamp: u64,
    pub placed_at_timestamp: u64,
    pub last_updated_at_timestamp: u64,
    pub requested_debt_amount: u64,
    pub max_borrow_rate_bps: u32,
    pub active: u8,
    pub enable_auto_rollover_on_filled_borrows: u8,
    pub padding1: [u8; 2],
    pub end_padding: [u64; 5],
}

impl BorrowOrder {
    /// Whether every field is zero (no borrow order).
    pub open spec fn is_zeroed(self) -> bool {
        &&& is_default_key(self.debt_liquidity_mint.bytes@)
        &&& self.remaining_debt_amount == 0
        &&& is_default_key(self.filled_debt_destination.bytes@)
        &&& self.min_debt_term_seconds == 0
        &&& self.fillable_until_timestamp == 0
        &&& self.placed_at_timestamp == 0
        &&& self.last_updated_at_timestamp == 0
        &&& self.requested_debt_amount == 0
        &&& self.max_borrow_rate_bps == 0
        &&& self.active == 0
        &&& self.enable_auto_rollover_on_filled_borrows == 0
        &&& all_zero_u8(self.padding1@)
        &&& all_zero_u64(self.end_padding@)
    }

    /// Whether every field is zero.
    pub fn is_void(&self) -> (r: bool)
        ensures
            r == self.is_zeroed(),
    {
        self.debt_liquidity_mint.is_default() && self.remaining_debt_amount == 0
            && self.filled_debt_destination.is_default() && self.min_debt_term_seconds == 0
            && self.fillable_until_timestamp == 0 && self.placed_at_timestamp == 0
            && self.last_updated_at_timestamp == 0 && self.requested_debt_amount == 0
            && self.max_borrow_rate_bps == 0 && self.active == 0
            && self.enable_auto_rollover_on_filled_borrows == 0
            && crate::accounts::is_zeroed_bytes(&self.padding1)
            && crate::accounts::is_zeroed_words(&self.end_padding)
    }

    /// The debt reserve limits the order accepts.
    pub fn reserve_constraint(&self) -> (r: DebtReserveConstraint)
        ensures
            r.max_borrow_rate_bps == self.max_borrow_rate_bps,
            r.min_debt_term_seconds == self.min_debt_term_seconds,
    {
        DebtReserveConstraint {
            max_borrow_rate_bps: self.max_borrow_rate_bps,
            min_debt_term_seconds: self.min_debt_term_seconds,
        }
    }

    /// Clears an order whose fillable time lies before `timestamp`.
    pub fn clear_if_past_fillable_timestamp(&mut self, timestamp: u64)
        ensures
            !old(self).is_zeroed() && old(self).fillable_until_timestamp < timestamp
                ==> final(self).is_zeroed(),
            old(self).is_zeroed() || old(self).fillable_until_timestamp >= timestamp ==> *final(self) == *old(self),
    {
        if !self.is_void() && self.fillable_until_timestamp < timestamp {
            *self = BorrowOrder::default();
        }
    }

    /// The rollover configuration given to borrows that fill the order, if
    /// the order asks for automatic rollover.
    pub fn get_rollover_config_for_filled_borrow(&self) -> (r: Option<
        FixedTermBorrowRolloverConfig,
    >)
        ensures
            self.enable_auto_rollover_on_filled_borrows == 0 ==> r is None,
            self.enable_auto_rollover_on_filled_borrows != 0 ==> r == Some(
                FixedTermBorrowRolloverConfig {
                    auto_rollover_enabled: 1,
                    open_term_allowed: 1,
                    migration_to_fixed_enabled: if self.min_debt_term_seconds != 0 {
                        1u8
                    } else {
                        0u8
                    },
                    fixed_term_rollover_window_duration_days: 0,
                    max_borrow_rate_bps: self.max_borrow_rate_bps,
                    min_debt_term_seconds: self.min_debt_term_seconds,
                },
            ),
    {
        if self.enable_auto_rollover_on_filled_borrows == 0 {
            return None;
        }
        Some(
            FixedTermBorrowRolloverConfig {
                auto_rollover_enabled: 1,
                open_term_allowed: 1,
                migration_to_fixed_enabled: if self.min_debt_term_seconds != 0 {
                    1
                } else {
                    0
                },
                max_borrow_rate_bps: self.max_borrow_rate_bps,
                min_debt_term_seconds: self.min_debt_term_seconds,
                fixed_term_rollover_window_duration_days: 0,
            },
        )
    }
}

impl Default for BorrowOrder {
    fn default() -> (r: Self)
        ensures
            r.is_zeroed(),
    {
        let r = BorrowOrder {
            debt_liquidity_mint: Pubkey::default_key(),
            remaining_debt_amount: 0,
            filled_debt_destination: Pubkey::default_key(),
            min_debt_term_seconds: 0,
            fillable_until_timestamp: 0,
            placed_at_timestamp: 0,
            last_updated_at_timestamp: 0,
            requested_debt_amount: 0,
            max_borrow_rate_bps: 0,
            active: 0,
            enable_auto_rollover_on_filled_borrows: 0,
            padding1: [0u8;2],
            end_padding: [0u64;5],
        };
        r
    }
}

/// What a borrow order is placed with.
#[derive(Clone, Copy, Debug)]
pub struct BorrowOrderConfig {
    pub debt_liquidity_mint: Pubkey,
    pub remaining_debt_amount: u64,
    pub filled_debt_destination: Pubkey,
    pub max_borrow_rate_bps: u32,
    pub min_debt_term_seconds: u64,
    pub fillable_until_timestamp: u64,
    pub enable_auto_rollover_on_filled_borrows: u8,
}

/// Where an asset was placed among an obligation's slots, and whether the
/// slot was taken for it just now.
#[derive(Clone, Copy, Debug, PartialEq, Eq, Structural)]
pub struct SlotAssignment {
    pub index: usize,
    pub is_new: bool,
}

/// How a fixed-term borrow is rolled over.
#[derive(Clone, Copy, Debug, PartialEq, Eq, Structural)]
pub enum RolloverMode {
    FromFixedToFixedTerm,
    FromFixedToOpenTerm,
    FromOpenToFixedTerm,
}

/// Which setting an owner's configuration update changes.
#[derive(Clone, Copy, Debug, PartialEq, Eq, Structural)]
pub enum UpdateObligationConfigMode {
    FixedTermRolloverEnabled,
    FixedTermRolloverMaxBorrowRateBps,
    FixedTermRolloverMinDebtTermSeconds,
    FixedTermRolloverOpenTermAllowed,
    MigrationToFixedEnabled,
    FixedTermRolloverWindowDurationDays,
}

/// What an owner's configuration update applies to.
#[derive(Clone, Copy, Debug)]
pub enum ObligationConfigUpdateSubject {
    Obligation,
    Deposit(Pubkey),
    Borrow(Pubkey),
}

impl ObligationConfigUpdateSubject {
    /// The subject named by at most one of a deposit and a borrow reserve;
    /// naming both is an error.
    pub fn resolve(
        specific_deposit_reserve_address: Option<Pubkey>,
        specific_borrow_reserve_address: Option<Pubkey>,
    ) -> (r: Result<Self, LendingError>)
        ensures
            r == match (specific_deposit_reserve_address, specific_borrow_reserve_address) {
                (Some(_), Some(_)) => Err::<Self, LendingError>(
                    LendingError::InvalidObligationConfigUpdateSubject,
                ),
                (None, None) => Ok::<Self, LendingError>(ObligationConfigUpdateSubject::Obligation),
                (Some(d), None) => Ok::<Self, LendingError>(ObligationConfigUpdateSubject::Deposit(d)),
                (None, Some(b)) => Ok::<Self, LendingError>(ObligationConfigUpdateSubject::Borrow(b)),
            },
    {
        match (specific_deposit_reserve_address, specific_borrow_reserve_address) {
            (Some(_), Some(_)) => Err(LendingError::InvalidObligationConfigUpdateSubject),
            (None, None) => Ok(ObligationConfigUpdateSubject::Obligation),
            (Some(deposit), None) => Ok(ObligationConfigUpdateSubject::Deposit(deposit)),
            (None, Some(borrow)) => Ok(ObligationConfigUpdateSubject::Borrow(borrow)),
        }
    }

    /// The borrow reserve of a borrow subject; an error for any other.
    pub fn borrow_reserve_address(&self) -> (r: Result<Pubkey, LendingError>)
        ensures
            r == match *self {
                ObligationConfigUpdateSubject::Borrow(b) => Ok::<Pubkey, LendingError>(b),
                _ => Err::<Pubkey, LendingError>(LendingError::InvalidObligationConfigUpdateSubject),
            },
    {
        match self {
            ObligationConfigUpdateSubject::Borrow(reserve_address) => Ok(*reserve_address),
            _ => Err(LendingError::InvalidObligationConfigUpdateSubject),
        }
    }
}

// ---------------------------------------------------------------------------
// The obligation
// ---------------------------------------------------------------------------

/// Where an obligation's ownership transfer stands.
#[derive(Clone, Copy, Debug, PartialEq, Eq, Structural)]
pub enum OwnershipTransferState {
    NoTransfer,
    Initiated,
    Approved,
}

/// The ownership transfer state stored as `code`, if any.
pub open spec fn ownership_state_of(code: u8) -> Option<OwnershipTransferState> {
    if code == 0 {
        Some(OwnershipTransferState::NoTransfer)
    } else if code == 1 {
        Some(OwnershipTransferState::Initiated)
    } else if code == 2 {
        Some(OwnershipTransferState::Approved)
    } else {
        None
    }
}

impl OwnershipTransferState {
    /// The state stored as `code`, if any.
    pub fn try_from_u8(code: u8) -> (r: Option<OwnershipTransferState>)
        ensures
            r == ownership_state_of(code),
    {
        if code == 0 {
            Some(OwnershipTransferState::NoTransfer)
        } else if code == 1 {
            Some(OwnershipTransferState::Initiated)
        } else if code == 2 {
            Some(OwnershipTransferState::Approved)
        } else {
            None
        }
    }

    /// The stored code of this state.
    pub fn to_u8(&self) -> (r: u8)
        ensures
            ownership_state_of(r) == Some(*self),
    {
        match self {
            OwnershipTransferState::NoTransfer => 0,
            OwnershipTransferState::Initiated => 1,
            OwnershipTransferState::Approved => 2,
        }
    }
}

/// Whether a withdrawal emptied the deposit or left some of it.
#[derive(Clone, Copy, Debug, PartialEq, Eq, Structural)]
pub enum WithdrawResult {
    Full,
    Partial,
}

/// A user's position.
#[derive(Clone, Copy, Debug)]
pub struct Obligation {
    pub tag: u64,
    pub last_update: LastUpdate,
    pub lending_market: Pubkey,
    pub owner: Pubkey,
    pub deposits: [ObligationCollateral; 8],
    pub lowest_reserve_deposit_liquidation_ltv: u64,
    pub deposited_value_sf: u128,
    pub borrows: [ObligationLiquidity; 5],
    pub borrow_factor_adjusted_debt_value_sf: u128,
    pub borrowed_assets_market_value_sf: u128,
    pub allowed_borrow_value_sf: u128,
    pub unhealthy_borrow_value_sf: u128,
    pub padding_deprecated_asset_tiers: [u8; 13],
    pub elevation_group: u8,
    pub num_of_obsolete_deposit_reserves: u8,
    pub has_debt: u8,
    pub referrer: Pubkey,
    pub borrowing_disabled: u8,
    pub autodeleverage_target_ltv_pct: u8,
    pub lowest_reserve_deposit_max_ltv_pct: u8,
    pub num_of_obsolete_borrow_reserves: u8,
    pub ownership_transfer_state: u8,
    pub reserved: [u8; 3],
    pub highest_borrow_factor_pct: u64,
    pub autodeleverage_margin_call_started_timestamp: u64,
    pub obligation_orders: [ObligationOrder; 2],
    pub head_borrow_order: BorrowOrder,
    pub pending_owner: Pubkey,
    pub tail_borrow_orders: [BorrowOrder; 2],
    pub padding_3: [u64; 29],
}

/// What a new obligation starts with.
#[derive(Clone, Copy, Debug)]
pub struct InitObligationParams {
    pub current_slot: u64,
    pub lending_market: Pubkey,
    pub owner: Pubkey,
    pub deposits: [ObligationCollateral; 8],
    pub borrows: [ObligationLiquidity; 5],
    pub tag: u64,
    pub referrer: Pubkey,
}

/// The seeds a user picks for a new obligation's address.
#[derive(Clone, Copy, Debug, PartialEq, Eq, Structural)]
pub struct InitObligationArgs {
    pub tag: u8,
    pub id: u8,
}

impl Obligation {
    /// Whether every field other than those `init` sets is zero.
    pub open spec fn rest_zeroed(self) -> bool {
        &&& self.lowest_reserve_deposit_liquidation_ltv == 0
        &&& self.deposited_value_sf == 0
        &&& self.borrow_factor_adjusted_debt_value_sf == 0
        &&& self.borrowed_assets_market_value_sf == 0
        &&& self.allowed_borrow_value_sf == 0
        &&& self.unhealthy_borrow_value_sf == 0
        &&& all_zero_u8(self.padding_deprecated_asset_tiers@)
        &&& self.elevation_group == ELEVATION_GROUP_NONE
        &&& self.num_of_obsolete_deposit_reserves == 0
        &&& self.has_debt == 0
        &&& self.borrowing_disabled == 0
        &&& self.autodeleverage_target_ltv_pct == 0
        &&& self.lowest_reserve_deposit_max_ltv_pct == 0
        &&& self.num_of_obsolete_borrow_reserves == 0
        &&& self.ownership_transfer_state == 0
        &&& all_zero_u8(self.reserved@)
        &&& self.highest_borrow_factor_pct == 0
        &&& self.autodeleverage_margin_call_started_timestamp == 0
        &&& (forall|i: int| 0 <= i < 2 ==> (#[trigger] self.obligation_orders@[i]).is_zeroed())
        &&& self.head_borrow_order.is_zeroed()
        &&& is_default_key(self.pending_owner.bytes@)
        &&& (forall|i: int| 0 <= i < 2 ==> (#[trigger] self.tail_borrow_orders@[i]).is_zeroed())
        &&& all_zero_u64(self.padding_3@)
    }

    /// Whether the obligation is the default (empty) one.
    pub open spec fn is_zeroed(self) -> bool {
        &&& self.rest_zeroed()
        &&& self.tag == 0
        &&& self.last_update.slot == 0
        &&& self.last_update.stale == 1
        &&& self.last_update.price_status == 0
        &&& all_zero_u8(self.last_update.placeholder@)
        &&& is_default_key(self.lending_market.bytes@)
        &&& is_default_key(self.owner.bytes@)
        &&& (forall|i: int| 0 <= i < 8 ==> (#[trigger] self.deposits@[i]).is_zeroed())
        &&& (forall|i: int| 0 <= i < 5 ==> (#[trigger] self.borrows@[i]).is_zeroed())
        &&& is_default_key(self.referrer.bytes@)
    }

    /// The deposits in use, in slot order.
    pub open spec fn spec_active_deposits(self) -> Seq<ObligationCollateral> {
        self.deposits@.filter(|c: ObligationCollateral| c.spec_is_active())
    }

    /// The borrows in use, in slot order.
    pub open spec fn spec_active_borrows(self) -> Seq<ObligationLiquidity> {
        self.borrows@.filter(|l: ObligationLiquidity| l.spec_is_active())
    }

    /// Whether slot `i` is the first deposit slot of `reserve`.
    pub open spec fn is_first_deposit_of(self, reserve: Pubkey, i: int) -> bool {
        &&& 0 <= i < 8
        &&& same_key(self.deposits@[i].deposit_reserve, reserve)
        &&& forall|j: int| 0 <= j < i ==> !same_key(self.deposits@[j].deposit_reserve, reserve)
    }

    /// Whether some deposit slot names `reserve`.
    pub open spec fn has_deposit_of(self, reserve: Pubkey) -> bool {
        exists|i: int| 0 <= i < 8 && same_key(#[trigger] self.deposits@[i].deposit_reserve, reserve)
    }

    /// Whether slot `i` is the first borrow slot of `reserve`.
    pub open spec fn is_first_borrow_of(self, reserve: Pubkey, i: int) -> bool {
        &&& 0 <= i < 5
        &&& same_key(self.borrows@[i].borrow_reserve, reserve)
        &&& forall|j: int| 0 <= j < i ==> !same_key(self.borrows@[j].borrow_reserve, reserve)
    }

    /// Whether some borrow slot names `reserve`.
    pub open spec fn has_borrow_of(self, reserve: Pubkey) -> bool {
        exists|i: int| 0 <= i < 5 && same_key(#[trigger] self.borrows@[i].borrow_reserve, reserve)
    }

    /// Whether no deposit slot is in use.
    pub open spec fn no_active_deposits(self) -> bool {
        forall|i: int| 0 <= i < 8 ==> !(#[trigger] self.deposits@[i]).spec_is_active()
    }

    /// Whether no borrow slot is in use.
    pub open spec fn no_active_borrows(self) -> bool {
        forall|i: int| 0 <= i < 5 ==> !(#[trigger] self.borrows@[i]).spec_is_active()
    }

    /// Resets the obligation and fills in what a new one starts with.
    pub fn init(&mut self, params: InitObligationParams)
        ensures
            final(self).rest_zeroed(),
            final(self).tag == params.tag,
            final(self).last_update.slot == params.current_slot,
            final(self).last_update.stale == 1,
            final(self).last_update.price_status == 0,
            all_zero_u8(final(self).last_update.placeholder@),
            final(self).lending_market == params.lending_market,
            final(self).owner == params.owner,
            final(self).deposits == params.deposits,
            final(self).borrows == params.borrows,
            final(self).referrer == params.referrer,
    {
        *self = Obligation::default();
        self.tag = params.tag;
        self.last_update = LastUpdate::new(params.current_slot);
        self.lending_market = params.lending_market;
        self.owner = params.owner;
        self.deposits = params.deposits;
        self.borrows = params.borrows;
        self.referrer = params.referrer;
    }

    /// Borrow-factor-adjusted debt value over deposited value; the deposited
    /// value must be nonzero.
    pub fn loan_to_value(&self) -> (r: Fraction)
        requires
            self.deposited_value_sf > 0,
            spec_div(self.borrow_factor_adjusted_debt_value_sf as int, self.deposited_value_sf as int)
                <= u128::MAX,
        ensures
            r.val() == spec_div(
                self.borrow_factor_adjusted_debt_value_sf as int,
                self.deposited_value_sf as int,
            ),
    {
        Fraction::from_bits(self.borrow_factor_adjusted_debt_value_sf).div(
            Fraction::from_bits(self.deposited_value_sf),
        )
    }

    /// The deposited value at the last refresh.
    pub fn deposited_value(&self) -> (r: Fraction)
        ensures
            r.val() == self.deposited_value_sf,
    {
        Fraction::from_bits(self.deposited_value_sf)
    }

    /// Unadjusted debt value over deposited value; the deposited value must
    /// be nonzero.
    pub fn no_bf_loan_to_value(&self) -> (r: Fraction)
        requires
            self.deposited_value_sf > 0,
            spec_div(self.borrowed_assets_market_value_sf as int, self.deposited_value_sf as int)
                <= u128::MAX,
        ensures
            r.val() == spec_div(
                self.borrowed_assets_market_value_sf as int,
                self.deposited_value_sf as int,
            ),
    {
        Fraction::from_bits(self.borrowed_assets_market_value_sf).div(
            Fraction::from_bits(self.deposited_value_sf),
        )
    }

    /// Liquidation threshold value over deposited value; the deposited value
    /// must be nonzero.
    pub fn unhealthy_loan_to_value(&self) -> (r: Fraction)
        requires
            self.deposited_value_sf > 0,
            spec_div(self.unhealthy_borrow_value_sf as int, self.deposited_value_sf as int)
                <= u128::MAX,
        ensures
            r.val() == spec_div(
                self.unhealthy_borrow_value_sf as int,
                self.deposited_value_sf as int,
            ),
    {
        Fraction::from_bits(self.unhealthy_borrow_value_sf).div(
            Fraction::from_bits(self.deposited_value_sf),
        )
    }

    /// Settles part of borrow slot `liquidity_index`; settling the whole
    /// amount frees the slot.
    pub fn repay(&mut self, settle_amount: Fraction, liquidity_index: usize)
        requires
            liquidity_index < 5,
            settle_amount.val() <= old(self).borrows@[liquidity_index as int].borrowed_amount_sf,
        ensures
            settle_amount.val() == old(self).borrows@[liquidity_index as int].borrowed_amount_sf
                ==> final(self).borrows@[liquidity_index as int].is_zeroed(),
            settle_amount.val() != old(self).borrows@[liquidity_index as int].borrowed_amount_sf
                ==> final(self).borrows@[liquidity_index as int] == (ObligationLiquidity {
                borrowed_amount_sf: (old(self).borrows@[liquidity_index as int].borrowed_amount_sf
                    - settle_amount.val()) as u128,
                ..old(self).borrows@[liquidity_index as int]
            }),
            forall|j: int|
                0 <= j < 5 && j != liquidity_index ==> final(self).borrows@[j] == old(self).borrows@[j],
            *final(self) == (Obligation { borrows: final(self).borrows, ..*old(self) }),
    {
        let mut liquidity = self.borrows[liquidity_index];
        if settle_amount == liquidity.borrowed_amount() {
            self.borrows[liquidity_index] = ObligationLiquidity::default();
        } else {
            liquidity.repay(settle_amount);
            self.borrows[liquidity_index] = liquidity;
        }
    }

    /// Withdraws from deposit slot `collateral_index`; withdrawing the whole
    /// deposit frees the slot, withdrawing more is an overflow error that
    /// changes nothing.
    pub fn withdraw(&mut self, withdraw_amount: u64, collateral_index: usize) -> (r: Result<
        WithdrawResult,
        LendingError,
    >)
        requires
            collateral_index < 8,
        ensures
            ({
                let c = old(self).deposits@[collateral_index as int];
                &&& withdraw_amount == c.deposited_amount ==> r == Ok::<
                    WithdrawResult,
                    LendingError,
                >(WithdrawResult::Full) && final(self).deposits@[collateral_index as int].is_zeroed()
                &&& withdraw_amount < c.deposited_amount ==> r == Ok::<
                    WithdrawResult,
                    LendingError,
                >(WithdrawResult::Partial) && final(self).deposits@[collateral_index as int] == (
                ObligationCollateral {
                    deposited_amount: (c.deposited_amount - withdraw_amount) as u64,
                    ..c
                })
                &&& withdraw_amount > c.deposited_amount ==> r == Err::<
                    WithdrawResult,
                    LendingError,
                >(LendingError::MathOverflow) && *final(self) == *old(self)
            }),
            forall|j: int|
                0 <= j < 8 && j != collateral_index ==> final(self).deposits@[j] == old(self).deposits@[j],
            *final(self) == (Obligation { deposits: final(self).deposits, ..*old(self) }),
    {
        let mut collateral = self.deposits[collateral_index];
        if withdraw_amount == collateral.deposited_amount {
            self.deposits[collateral_index] = ObligationCollateral::default();
            Ok(WithdrawResult::Full)
        } else {
            match collateral.withdraw(withdraw_amount) {
                Ok(()) => {
                    self.deposits[collateral_index] = collateral;
                    Ok(WithdrawResult::Partial)
                },
                Err(e) => Err(e),
            }
        }
    }

    /// The largest value of a collateral that can be withdrawn without
    /// taking the debt past the allowed (or, for a liquidation-threshold
    /// check, just below the unhealthy) borrow value.
    pub fn max_withdraw_value(
        &self,
        obligation_collateral: &ObligationCollateral,
        reserve_max_ltv_pct: u8,
        reserve_liq_threshold_pct: u8,
        ltv_max_withdrawal_check: LtvMaxWithdrawalCheck,
    ) -> (r: Fraction)
        requires
            ({
                let highest = if ltv_max_withdrawal_check == LtvMaxWithdrawalCheck::LiquidationThreshold {
                    spec_saturating_sub(self.unhealthy_borrow_value_sf as int, 1)
                } else {
                    self.allowed_borrow_value_sf as int
                };
                highest > self.borrow_factor_adjusted_debt_value_sf ==> (highest
                    - self.borrow_factor_adjusted_debt_value_sf) * 100 <= u128::MAX
            }),
        ensures
            r.val() == spec_max_withdraw_value(
                *self,
                obligation_collateral.market_value_sf as int,
                reserve_max_ltv_pct as int,
                reserve_liq_threshold_pct as int,
                ltv_max_withdrawal_check,
            ),
    {
        let (highest_allowed_borrow_value, withdraw_collateral_ltv_pct) = if ltv_max_withdrawal_check
            == LtvMaxWithdrawalCheck::LiquidationThreshold {
            (
                Fraction::from_bits(self.unhealthy_borrow_value_sf.saturating_sub(1)),
                reserve_liq_threshold_pct,
            )
        } else {
            (Fraction::from_bits(self.allowed_borrow_value_sf), reserve_max_ltv_pct)
        };
        let borrow_factor_adjusted_debt_value = Fraction::from_bits(
            self.borrow_factor_adjusted_debt_value_sf,
        );
        if highest_allowed_borrow_value.bits <= borrow_factor_adjusted_debt_value.bits {
            return Fraction::zero();
        }
        if withdraw_collateral_ltv_pct == 0 {
            return Fraction::from_bits(obligation_collateral.market_value_sf);
        }
        highest_allowed_borrow_value.saturating_sub(borrow_factor_adjusted_debt_value).mul_int(
            100,
        ).div_int(withdraw_collateral_ltv_pct as u128)
    }

    /// Allowed borrow value left above the adjusted debt value (zero at least).
    pub fn remaining_borrow_value(&self) -> (r: Fraction)
        ensures
            r.val() == spec_saturating_sub(
                self.allowed_borrow_value_sf as int,
                self.borrow_factor_adjusted_debt_value_sf as int,
            ),
    {
        Fraction::from_bits(
            self.allowed_borrow_value_sf.saturating_sub(self.borrow_factor_adjusted_debt_value_sf),
        )
    }
}

/// `a - b`, or zero when `b` exceeds `a`.
pub open spec fn spec_saturating_sub(a: int, b: int) -> int {
    if a >= b {
        a - b
    } else {
        0
    }
}

/// The largest withdrawable collateral value: nothing when the debt already
/// reaches the limit, the whole collateral when its LTV is zero, else the
/// headroom times 100 over the collateral's LTV percentage.
pub open spec fn spec_max_withdraw_value(
    o: Obligation,
    collateral_value: int,
    max_ltv_pct: int,
    liq_threshold_pct: int,
    check: LtvMaxWithdrawalCheck,
) -> int {
    let (highest, pct) = if check == LtvMaxWithdrawalCheck::LiquidationThreshold {
        (spec_saturating_sub(o.unhealthy_borrow_value_sf as int, 1), liq_threshold_pct)
    } else {
        (o.allowed_borrow_value_sf as int, max_ltv_pct)
    };
    if highest <= o.borrow_factor_adjusted_debt_value_sf {
        0
    } else if pct == 0 {
        collateral_value
    } else {
        (highest - o.borrow_factor_adjusted_debt_value_sf) * 100 / pct
    }
}

impl Default for Obligation {
    fn default() -> (r: Self)
        ensures
            r.is_zeroed(),
    {
        let c = ObligationCollateral::default();
        let l = ObligationLiquidity::default();
        let o = ObligationOrder::default();
        let b = BorrowOrder::default();
        let r = Obligation {
            tag: 0,
            last_update: LastUpdate::default(),
            lending_market: Pubkey::default_key(),
            owner: Pubkey::default_key(),
            deposits: [c;8],
            lowest_reserve_deposit_liquidation_ltv: 0,
            deposited_value_sf: 0,
            borrows: [l;5],
            borrow_factor_adjusted_debt_value_sf: 0,
            borrowed_assets_market_value_sf: 0,
            allowed_borrow_value_sf: 0,
            unhealthy_borrow_value_sf: 0,
            padding_deprecated_asset_tiers: [0u8;13],
            elevation_group: ELEVATION_GROUP_NONE,
            num_of_obsolete_deposit_reserves: 0,
            has_debt: 0,
            referrer: Pubkey::default_key(),
            borrowing_disabled: 0,
            autodeleverage_target_ltv_pct: 0,
            lowest_reserve_deposit_max_ltv_pct: 0,
            num_of_obsolete_borrow_reserves: 0,
            ownership_transfer_state: 0,
            reserved: [0u8;3],
            highest_borrow_factor_pct: 0,
            autodeleverage_margin_call_started_timestamp: 0,
            obligation_orders: [o;2],
            head_borrow_order: b,
            pending_owner: Pubkey::default_key(),
            tail_borrow_orders: [b;2],
            padding_3: [0u64;29],
        };
        r
    }
}

impl Obligation {
    /// The first deposit slot of `deposit_reserve`, if any.
    pub fn find_collateral_index_in_deposits(&self, deposit_reserve: Pubkey) -> (r: Option<usize>)
        ensures
            r matches Some(i) ==> self.is_first_deposit_of(deposit_reserve, i as int),
            r is None ==> !self.has_deposit_of(deposit_reserve),
    {
        let mut i: usize = 0;
        while i < 8
            invariant
                0 <= i <= 8,
                forall|j: int|
                    0 <= j < i ==> !same_key(self.deposits@[j].deposit_reserve, deposit_reserve),
            decreases 8 - i,
        {
            if self.deposits[i].deposit_reserve.key_eq(&deposit_reserve) {
                return Some(i);
            }
            i = i + 1;
        }
        None
    }

    /// The first borrow slot of `borrow_reserve`, if any.
    pub fn find_liquidity_index_in_borrows(&self, borrow_reserve: Pubkey) -> (r: Option<usize>)
        ensures
            r matches Some(i) ==> self.is_first_borrow_of(borrow_reserve, i as int),
            r is None ==> !self.has_borrow_of(borrow_reserve),
    {
        let mut i: usize = 0;
        while i < 5
            invariant
                0 <= i <= 5,
                forall|j: int|
                    0 <= j < i ==> !same_key(self.borrows@[j].borrow_reserve, borrow_reserve),
            decreases 5 - i,
        {
            if self.borrows[i].borrow_reserve.key_eq(&borrow_reserve) {
                return Some(i);
            }
            i = i + 1;
        }
        None
    }

    /// Whether no deposit slot is in use.
    pub fn is_active_deposits_empty(&self) -> (r: bool)
        ensures
            r == self.no_active_deposits(),
    {
        let mut i: usize = 0;
        while i < 8
            invariant
                0 <= i <= 8,
                forall|j: int| 0 <= j < i ==> !(#[trigger] self.deposits@[j]).spec_is_active(),
            decreases 8 - i,
        {
            if self.deposits[i].is_active() {
                return false;
            }
            i = i + 1;
        }
        true
    }

    /// Whether no borrow slot is in use.
    pub fn is_active_borrows_empty(&self) -> (r: bool)
        ensures
            r == self.no_active_borrows(),
    {
        let mut i: usize = 0;
        while i < 5
            invariant
                0 <= i <= 5,
                forall|j: int| 0 <= j < i ==> !(#[trigger] self.borrows@[j]).spec_is_active(),
            decreases 5 - i,
        {
            if self.borrows[i].is_active() {
                return false;
            }
            i = i + 1;
        }
        true
    }

    /// The slot of `deposit_reserve`: an error when no deposit is in use, or
    /// when none names the reserve.
    pub fn position_of_collateral_in_deposits(&self, deposit_reserve: Pubkey) -> (r: Result<
        usize,
        LendingError,
    >)
        ensures
            self.no_active_deposits() ==> r == Err::<usize, LendingError>(
                LendingError::ObligationDepositsEmpty,
            ),
            !self.no_active_deposits() && !self.has_deposit_of(deposit_reserve) ==> r == Err::<
                usize,
                LendingError,
            >(LendingError::InvalidObligationCollateral),
            !self.no_active_deposits() && self.has_deposit_of(deposit_reserve) ==> (r matches Ok(i)
                && self.is_first_deposit_of(deposit_reserve, i as int)),
    {
        if self.is_active_deposits_empty() {
            return Err(LendingError::ObligationDepositsEmpty);
        }
        match self.find_collateral_index_in_deposits(deposit_reserve) {
            Some(i) => Ok(i),
            None => Err(LendingError::InvalidObligationCollateral),
        }
    }

    /// The deposit of `deposit_reserve`, with the errors of
    /// [`Self::position_of_collateral_in_deposits`].
    pub fn find_collateral_in_deposits(&self, deposit_reserve: Pubkey) -> (r: Result<
        &ObligationCollateral,
        LendingError,
    >)
        ensures
            self.no_active_deposits() ==> r == Err::<&ObligationCollateral, LendingError>(
                LendingError::ObligationDepositsEmpty,
            ),
            !self.no_active_deposits() && !self.has_deposit_of(deposit_reserve) ==> r == Err::<
                &ObligationCollateral,
                LendingError,
            >(LendingError::InvalidObligationCollateral),
            !self.no_active_deposits() && self.has_deposit_of(deposit_reserve) ==> (exists|i: int|
                self.is_first_deposit_of(deposit_reserve, i) && r == Ok::<
                    &ObligationCollateral,
                    LendingError,
                >(&self.deposits@[i])),
    {
        let collateral_index = self.position_of_collateral_in_deposits(deposit_reserve)?;
        Ok(&self.deposits[collateral_index])
    }

    /// The borrow of `borrow_reserve` and its slot: an error when no borrow
    /// is in use, or when none names the reserve.
    pub fn find_liquidity_in_borrows(&self, borrow_reserve: Pubkey) -> (r: Result<
        (&ObligationLiquidity, usize),
        LendingError,
    >)
        ensures
            self.no_active_borrows() ==> r == Err::<(&ObligationLiquidity, usize), LendingError>(
                LendingError::ObligationBorrowsEmpty,
            ),
            !self.no_active_borrows() && !self.has_borrow_of(borrow_reserve) ==> r == Err::<
                (&ObligationLiquidity, usize),
                LendingError,
            >(LendingError::InvalidObligationLiquidity),
            !self.no_active_borrows() && self.has_borrow_of(borrow_reserve) ==> (r matches Ok(p)
                && self.is_first_borrow_of(borrow_reserve, p.1 as int) && *p.0
                == self.borrows@[p.1 as int]),
    {
        if self.is_active_borrows_empty() {
            return Err(LendingError::ObligationBorrowsEmpty);
        }
        match self.find_liquidity_index_in_borrows(borrow_reserve) {
            Some(i) => Ok((&self.borrows[i], i)),
            None => Err(LendingError::InvalidObligationLiquidity),
        }
    }

    /// Claims a slot for `deposit_reserve`: the slot it already has, else
    /// the first unused slot, set to an empty deposit of the reserve; an
    /// error, changing nothing, when every slot is in use by another reserve.
    /// Returns the deposit, for update, and its slot.
    pub fn find_or_add_collateral_to_deposits(&mut self, deposit_reserve: Pubkey) -> (r: Result<
        (&mut ObligationCollateral, SlotAssignment),
        LendingError,
    >)
        ensures
            r matches Ok(p) ==> p.1.index < 8 && final(self).deposits@ == old(self).deposits@.update(p.1.index as int, *final(p.0)) && *final(self) == (Obligation {
                deposits: final(self).deposits,
                ..*old(self)
            }),
            old(self).has_deposit_of(deposit_reserve) ==> (r matches Ok(p) && !p.1.is_new
                && old(self).is_first_deposit_of(deposit_reserve, p.1.index as int) && *p.0 == old(self).deposits@[p.1.index as int]),
            !old(self).has_deposit_of(deposit_reserve) && (exists|i: int|
                0 <= i < 8 && !(#[trigger] old(self).deposits@[i]).spec_is_active()) ==> (r matches Ok(
                p,
            ) && p.1.is_new && !old(self).deposits@[p.1.index as int].spec_is_active() && (forall|
                j: int,
            |
                0 <= j < p.1.index ==> (#[trigger] old(self).deposits@[j]).spec_is_active())
                && p.0.deposit_reserve == deposit_reserve && p.0.deposited_amount == 0
                && p.0.market_value_sf == 0
                && p.0.borrowed_amount_against_this_collateral_in_elevation_group == 0
                && all_zero_u64(p.0.padding@)),
            !old(self).has_deposit_of(deposit_reserve) && (forall|i: int|
                0 <= i < 8 ==> (#[trigger] old(self).deposits@[i]).spec_is_active()) ==> r == Err::<
                (&mut ObligationCollateral, SlotAssignment),
                LendingError,
            >(LendingError::ObligationReserveLimit) && *final(self) == *old(self),
    {
        let mut index: usize = 8;
        let mut is_new = false;
        if let Some(collateral_index) = self.find_collateral_index_in_deposits(deposit_reserve) {
            index = collateral_index;
        } else {
            let mut i: usize = 0;
            while i < 8 && self.deposits[i].is_active()
                invariant
                    0 <= i <= 8,
                    *self == *old(self),
                    !old(self).has_deposit_of(deposit_reserve),
                    forall|j: int| 0 <= j < i ==> (#[trigger] self.deposits@[j]).spec_is_active(),
                decreases 8 - i,
            {
                i = i + 1;
            }
            if i == 8 {
                return Err(LendingError::ObligationReserveLimit);
            }
            self.deposits[i] = ObligationCollateral::new(deposit_reserve);
            index = i;
            is_new = true;
        }
        Ok((&mut self.deposits[index], SlotAssignment { index, is_new }))
    }

    /// Claims a slot for `borrow_reserve`: the slot it already has, else the
    /// first unused slot, set to an empty borrow of the reserve accrued at
    /// `cumulative_borrow_rate`; an error, changing nothing, when every slot
    /// is in use by another reserve. Returns the borrow, for update, and its
    /// slot.
    pub fn find_or_add_liquidity_to_borrows(
        &mut self,
        borrow_reserve: Pubkey,
        cumulative_borrow_rate: BigFraction,
    ) -> (r: Result<(&mut ObligationLiquidity, usize), LendingError>)
        ensures
            r matches Ok(p) ==> p.1 < 5 && final(self).borrows@ == old(self).borrows@.update(
                p.1 as int,
                *final(p.0),
            ) && *final(self) == (Obligation { borrows: final(self).borrows, ..*old(self) }),
            old(self).has_borrow_of(borrow_reserve) ==> (r matches Ok(p) && old(self).is_first_borrow_of(borrow_reserve, p.1 as int) && *p.0 == old(self).borrows@[p.1 as int]),
            !old(self).has_borrow_of(borrow_reserve) && (exists|i: int|
                0 <= i < 5 && !(#[trigger] old(self).borrows@[i]).spec_is_active()) ==> (r matches Ok(
                p,
            ) && !old(self).borrows@[p.1 as int].spec_is_active() && (forall|j: int|
                0 <= j < p.1 ==> (#[trigger] old(self).borrows@[j]).spec_is_active())
                && p.0.borrow_reserve == borrow_reserve && p.0.former_rate()
                == cumulative_borrow_rate.val() && all_zero_u64(p.0.cumulative_borrow_rate_bsf.padding@)
                && p.0.last_borrowed_at_timestamp == 0 && p.0.borrowed_amount_sf == 0
                && p.0.market_value_sf == 0 && p.0.borrow_factor_adjusted_market_value_sf == 0
                && p.0.borrowed_amount_outside_elevation_groups == 0
                && p.0.fixed_term_borrow_rollover_config.is_zeroed()
                && p.0.borrowed_amount_at_expiration == 0 && all_zero_u64(p.0.padding2@)),
            !old(self).has_borrow_of(borrow_reserve) && (forall|i: int|
                0 <= i < 5 ==> (#[trigger] old(self).borrows@[i]).spec_is_active()) ==> r == Err::<
                (&mut ObligationLiquidity, usize),
                LendingError,
            >(LendingError::ObligationReserveLimit) && *final(self) == *old(self),
    {
        let mut index: usize = 5;
        if let Some(liquidity_index) = self.find_liquidity_index_in_borrows(borrow_reserve) {
            index = liquidity_index;
        } else {
            let mut i: usize = 0;
            while i < 5 && self.borrows[i].is_active()
                invariant
                    0 <= i <= 5,
                    *self == *old(self),
                    !old(self).has_borrow_of(borrow_reserve),
                    forall|j: int| 0 <= j < i ==> (#[trigger] self.borrows@[j]).spec_is_active(),
                decreases 5 - i,
            {
                i = i + 1;
            }
            if i == 5 {
                return Err(LendingError::ObligationReserveLimit);
            }
            self.borrows[i] = ObligationLiquidity::new(borrow_reserve, cumulative_borrow_rate);
            index = i;
        }
        Ok((&mut self.borrows[index], index))
    }
}

impl Obligation {
    /// The borrow of `borrow_reserve`, for update, and its slot: an error
    /// when no borrow is in use, or when none names the reserve.
    pub fn find_liquidity_in_borrows_mut(&mut self, borrow_reserve: Pubkey) -> (r: Result<
        (&mut ObligationLiquidity, usize),
        LendingError,
    >)
        ensures
            old(self).no_active_borrows() ==> r == Err::<(&mut ObligationLiquidity, usize), LendingError>(
                LendingError::ObligationBorrowsEmpty,
            ) && *final(self) == *old(self),
            !old(self).no_active_borrows() && !old(self).has_borrow_of(borrow_reserve) ==> r
                == Err::<(&mut ObligationLiquidity, usize), LendingError>(
                LendingError::InvalidObligationLiquidity,
            ) && *final(self) == *old(self),
            !old(self).no_active_borrows() && old(self).has_borrow_of(borrow_reserve) ==> (r matches Ok(p)
                && old(self).is_first_borrow_of(borrow_reserve, p.1 as int) && *p.0
                == old(self).borrows@[p.1 as int] && final(self).borrows@ == old(self).borrows@.update(p.1 as int, *final(p.0))
                && *final(self) == (Obligation { borrows: final(self).borrows, ..*old(self) })),
    {
        if self.is_active_borrows_empty() {
            return Err(LendingError::ObligationBorrowsEmpty);
        }
        match self.find_liquidity_index_in_borrows(borrow_reserve) {
            Some(i) => Ok((&mut self.borrows[i], i)),
            None => Err(LendingError::InvalidObligationLiquidity),
        }
    }

    /// Borrow slot `index`, for update: an error when it is out of range or
    /// not in use.
    pub fn get_active_borrow_mut(&mut self, index: usize) -> (r: Result<
        &mut ObligationLiquidity,
        LendingError,
    >)
        ensures
            index >= 5 || !old(self).borrows@[index as int].spec_is_active() ==> r == Err::<
                &mut ObligationLiquidity,
                LendingError,
            >(LendingError::InvalidObligationLiquidity) && *final(self) == *old(self),
            index < 5 && old(self).borrows@[index as int].spec_is_active() ==> (r matches Ok(b)
                && *b == old(self).borrows@[index as int] && final(self).borrows@ == old(self).borrows@.update(index as int, *final(b)) && *final(self) == (Obligation {
                borrows: final(self).borrows,
                ..*old(self)
            })),
    {
        if index >= 5 {
            return Err(LendingError::InvalidObligationLiquidity);
        }
        if !self.borrows[index].is_active() {
            return Err(LendingError::InvalidObligationLiquidity);
        }
        Ok(&mut self.borrows[index])
    }

    /// Borrow order `index`: the head order at zero, then the tail orders;
    /// an error past the last.
    pub fn get_borrow_order(&self, index: usize) -> (r: Result<&BorrowOrder, LendingError>)
        ensures
            index == 0 ==> r == Ok::<&BorrowOrder, LendingError>(&self.head_borrow_order),
            1 <= index <= 2 ==> r == Ok::<&BorrowOrder, LendingError>(
                &self.tail_borrow_orders@[index - 1],
            ),
            index > 2 ==> r == Err::<&BorrowOrder, LendingError>(
                LendingError::OrderIndexOutOfBounds,
            ),
    {
        if index == 0 {
            return Ok(&self.head_borrow_order);
        }
        if index - 1 < 2 {
            Ok(&self.tail_borrow_orders[index - 1])
        } else {
            Err(LendingError::OrderIndexOutOfBounds)
        }
    }

    /// Borrow order `index`, for update, numbered as in
    /// [`Self::get_borrow_order`].
    pub fn get_borrow_order_mut(&mut self, index: usize) -> (r: Result<
        &mut BorrowOrder,
        LendingError,
    >)
        ensures
            index == 0 ==> (r matches Ok(b) && *b == old(self).head_borrow_order && *final(self)
                == (Obligation { head_borrow_order: *final(b), ..*old(self) })),
            1 <= index <= 2 ==> (r matches Ok(b) && *b == old(self).tail_borrow_orders@[index - 1]
                && final(self).tail_borrow_orders@ == old(self).tail_borrow_orders@.update(
                index - 1,
                *final(b),
            ) && *final(self) == (Obligation {
                tail_borrow_orders: final(self).tail_borrow_orders,
                ..*old(self)
            })),
            index > 2 ==> r == Err::<&mut BorrowOrder, LendingError>(
                LendingError::OrderIndexOutOfBounds,
            ) && *final(self) == *old(self),
    {
        if index == 0 {
            return Ok(&mut self.head_borrow_order);
        }
        if index - 1 < 2 {
            Ok(&mut self.tail_borrow_orders[index - 1])
        } else {
            Err(LendingError::OrderIndexOutOfBounds)
        }
    }
}

/// The deposits in use among `s`, in order.
pub open spec fn take_active_deposits(s: Seq<ObligationCollateral>) -> Seq<ObligationCollateral> {
    s.filter(|c: ObligationCollateral| c.spec_is_active())
}

/// The borrows in use among `s`, in order.
pub open spec fn take_active_borrows(s: Seq<ObligationLiquidity>) -> Seq<ObligationLiquidity> {
    s.filter(|l: ObligationLiquidity| l.spec_is_active())
}

/// The orders with a condition among `s`, in order.
pub open spec fn take_active_orders(s: Seq<ObligationOrder>) -> Seq<ObligationOrder> {
    s.filter(|o: ObligationOrder| o.condition_type != 0)
}

/// The borrow orders with debt left to fill among `s`, in order.
pub open spec fn take_active_borrow_orders(s: Seq<BorrowOrder>) -> Seq<BorrowOrder> {
    s.filter(|o: BorrowOrder| o.remaining_debt_amount > 0)
}

/// A borrow order after clearing it if it expired before `timestamp`.
pub open spec fn cleared_if_expired(before: BorrowOrder, timestamp: u64, after: BorrowOrder) -> bool {
    if !before.is_zeroed() && before.fillable_until_timestamp < timestamp {
        after.is_zeroed()
    } else {
        after == before
    }
}

/// Sum of the borrowed amounts of all five borrow slots.
pub open spec fn total_borrowed_sf(o: Obligation) -> int {
    o.borrows@[0].borrowed_amount_sf + o.borrows@[1].borrowed_amount_sf
        + o.borrows@[2].borrowed_amount_sf + o.borrows@[3].borrowed_amount_sf
        + o.borrows@[4].borrowed_amount_sf
}

impl Obligation {
    /// The deposits in use, in slot order.
    pub fn active_deposits(&self) -> (r: Vec<ObligationCollateral>)
        ensures
            r@ == take_active_deposits(self.deposits@),
    {
        let mut r: Vec<ObligationCollateral> = Vec::new();
        let mut i: usize = 0;
        while i < 8
            invariant
                0 <= i <= 8,
                r@ == take_active_deposits(self.deposits@.take(i as int)),
            decreases 8 - i,
        {
            proof {
                reveal(Seq::filter);
            }
            assert(self.deposits@.take(i + 1).drop_last() =~= self.deposits@.take(i as int));
            if self.deposits[i].is_active() {
                r.push(self.deposits[i]);
            }
            i = i + 1;
        }
        assert(self.deposits@.take(8) =~= self.deposits@);
        r
    }

    /// The borrows in use, in slot order.
    pub fn active_borrows(&self) -> (r: Vec<ObligationLiquidity>)
        ensures
            r@ == take_active_borrows(self.borrows@),
    {
        let mut r: Vec<ObligationLiquidity> = Vec::new();
        let mut i: usize = 0;
        while i < 5
            invariant
                0 <= i <= 5,
                r@ == take_active_borrows(self.borrows@.take(i as int)),
            decreases 5 - i,
        {
            proof {
                reveal(Seq::filter);
            }
            assert(self.borrows@.take(i + 1).drop_last() =~= self.borrows@.take(i as int));
            if self.borrows[i].is_active() {
                r.push(self.borrows[i]);
            }
            i = i + 1;
        }
        assert(self.borrows@.take(5) =~= self.borrows@);
        r
    }

    /// Number of deposits in use.
    pub fn active_deposits_count(&self) -> (r: usize)
        ensures
            r == take_active_deposits(self.deposits@).len(),
    {
        let v = self.active_deposits();
        proof {
            self.deposits@.lemma_filter_len(|c: ObligationCollateral| c.spec_is_active());
        }
        v.len()
    }

    /// Number of borrows in use.
    pub fn active_borrows_count(&self) -> (r: usize)
        ensures
            r == take_active_borrows(self.borrows@).len(),
    {
        let v = self.active_borrows();
        v.len()
    }

    /// The head borrow order followed by the tail ones.
    pub fn borrow_orders(&self) -> (r: Vec<BorrowOrder>)
        ensures
            r@ == seq![self.head_borrow_order, self.tail_borrow_orders@[0], self.tail_borrow_orders@[1]],
    {
        let mut r: Vec<BorrowOrder> = Vec::new();
        r.push(self.head_borrow_order);
        r.push(self.tail_borrow_orders[0]);
        r.push(self.tail_borrow_orders[1]);
        assert(r@ =~= seq![self.head_borrow_order, self.tail_borrow_orders@[0], self.tail_borrow_orders@[1]]);
        r
    }

    /// The borrow orders with debt left to fill, head first.
    pub fn active_borrow_orders(&self) -> (r: Vec<BorrowOrder>)
        ensures
            r@ == take_active_borrow_orders(
                seq![self.head_borrow_order, self.tail_borrow_orders@[0], self.tail_borrow_orders@[1]],
            ),
    {
        let all = self.borrow_orders();
        let mut r: Vec<BorrowOrder> = Vec::new();
        let mut i: usize = 0;
        while i < 3
            invariant
                0 <= i <= 3,
                all@.len() == 3,
                r@ == take_active_borrow_orders(all@.take(i as int)),
            decreases 3 - i,
        {
            proof {
                reveal(Seq::filter);
            }
            assert(all@.take(i + 1).drop_last() =~= all@.take(i as int));
            if all[i].remaining_debt_amount > 0 {
                r.push(all[i]);
            }
            i = i + 1;
        }
        assert(all@.take(3) =~= all@);
        r
    }

    /// The obligation orders with a condition, in slot order.
    pub fn active_obligation_orders(&self) -> (r: Vec<ObligationOrder>)
        ensures
            r@ == take_active_orders(self.obligation_orders@),
    {
        let mut r: Vec<ObligationOrder> = Vec::new();
        let mut i: usize = 0;
        while i < 2
            invariant
                0 <= i <= 2,
                r@ == take_active_orders(self.obligation_orders@.take(i as int)),
            decreases 2 - i,
        {
            proof {
                reveal(Seq::filter);
            }
            assert(self.obligation_orders@.take(i + 1).drop_last() =~= self.obligation_orders@.take(
                i as int,
            ));
            if self.obligation_orders[i].is_active() {
                r.push(self.obligation_orders[i]);
            }
            i = i + 1;
        }
        assert(self.obligation_orders@.take(2) =~= self.obligation_orders@);
        r
    }

    /// Clears every borrow order whose fillable time lies before `timestamp`.
    pub fn clear_expired_borrow_orders(&mut self, timestamp: u64)
        ensures
            cleared_if_expired(old(self).head_borrow_order, timestamp, final(self).head_borrow_order),
            cleared_if_expired(
                old(self).tail_borrow_orders@[0],
                timestamp,
                final(self).tail_borrow_orders@[0],
            ),
            cleared_if_expired(
                old(self).tail_borrow_orders@[1],
                timestamp,
                final(self).tail_borrow_orders@[1],
            ),
            *final(self) == (Obligation {
                head_borrow_order: final(self).head_borrow_order,
                tail_borrow_orders: final(self).tail_borrow_orders,
                ..*old(self)
            }),
    {
        self.head_borrow_order.clear_if_past_fillable_timestamp(timestamp);
        let mut t0 = self.tail_borrow_orders[0];
        t0.clear_if_past_fillable_timestamp(timestamp);
        let mut t1 = self.tail_borrow_orders[1];
        t1.clear_if_past_fillable_timestamp(timestamp);
        self.tail_borrow_orders[0] = t0;
        self.tail_borrow_orders[1] = t1;
    }

    /// With at most one borrow in use, the total borrowed amount rounded up;
    /// `None` with several.
    pub fn get_borrowed_amount_if_single_token(&self) -> (r: Option<u64>)
        requires
            take_active_borrows(self.borrows@).len() <= 1 ==> total_borrowed_sf(*self) <= u128::MAX
                && crate::fraction::ceil_int(total_borrowed_sf(*self)) <= u64::MAX,
        ensures
            take_active_borrows(self.borrows@).len() > 1 ==> r is None,
            take_active_borrows(self.borrows@).len() <= 1 ==> r == Some(
                crate::fraction::ceil_int(total_borrowed_sf(*self)) as u64,
            ),
    {
        if self.active_borrows_count() > 1 {
            None
        } else {
            let total = self.borrows[0].borrowed_amount_sf + self.borrows[1].borrowed_amount_sf
                + self.borrows[2].borrowed_amount_sf + self.borrows[3].borrowed_amount_sf
                + self.borrows[4].borrowed_amount_sf;
            Some(Fraction::from_bits(total).to_ceil())
        }
    }

    /// The borrow-factor-adjusted debt value.
    pub fn get_bf_adjusted_debt_value(&self) -> (r: Fraction)
        ensures
            r.val() == self.borrow_factor_adjusted_debt_value_sf,
    {
        Fraction::from_bits(self.borrow_factor_adjusted_debt_value_sf)
    }

    /// The allowed borrow value.
    pub fn get_allowed_borrow_value(&self) -> (r: Fraction)
        ensures
            r.val() == self.allowed_borrow_value_sf,
    {
        Fraction::from_bits(self.allowed_borrow_value_sf)
    }

    /// The unhealthy (liquidation threshold) borrow value.
    pub fn get_unhealthy_borrow_value(&self) -> (r: Fraction)
        ensures
            r.val() == self.unhealthy_borrow_value_sf,
    {
        Fraction::from_bits(self.unhealthy_borrow_value_sf)
    }

    /// The unadjusted market value of the borrowed assets.
    pub fn get_borrowed_assets_market_value(&self) -> (r: Fraction)
        ensures
            r.val() == self.borrowed_assets_market_value_sf,
    {
        Fraction::from_bits(self.borrowed_assets_market_value_sf)
    }

    /// Whether a referrer is set.
    pub fn has_referrer(&self) -> (r: bool)
        ensures
            r == !is_default_key(self.referrer.bytes@),
    {
        !self.referrer.is_default()
    }

    /// The referrer, if set.
    pub fn referrer(&self) -> (r: Option<Pubkey>)
        ensures
            is_default_key(self.referrer.bytes@) ==> r is None,
            !is_default_key(self.referrer.bytes@) ==> r == Some(self.referrer),
    {
        if self.referrer.is_default() {
            None
        } else {
            Some(self.referrer)
        }
    }

    /// The elevation group, if the obligation is in one.
    pub fn elevation_group(&self) -> (r: Option<u8>)
        ensures
            self.elevation_group == ELEVATION_GROUP_NONE ==> r is None,
            self.elevation_group != ELEVATION_GROUP_NONE ==> r == Some(self.elevation_group),
    {
        if self.elevation_group != ELEVATION_GROUP_NONE {
            Some(self.elevation_group)
        } else {
            None
        }
    }

    /// Records whether any borrow is in use.
    pub fn update_has_debt(&mut self)
        ensures
            final(self).has_debt == if old(self).no_active_borrows() {
                0u8
            } else {
                1u8
            },
            *final(self) == (Obligation { has_debt: final(self).has_debt, ..*old(self) }),
    {
        self.has_debt = if self.is_active_borrows_empty() {
            0
        } else {
            1
        };
    }

    /// Whether the last record says a borrow is in use.
    pub fn has_debt(&self) -> (r: bool)
        ensures
            r == (self.has_debt == 1),
    {
        self.has_debt == 1
    }

    /// Whether an auto-deleveraging margin call is running.
    pub fn is_marked_for_deleveraging(&self) -> (r: bool)
        ensures
            r == (self.autodeleverage_margin_call_started_timestamp != 0),
    {
        self.autodeleverage_margin_call_started_timestamp != 0
    }

    /// Starts a margin call at a nonzero timestamp, towards a target LTV.
    pub fn mark_for_deleveraging(&mut self, current_timestamp: u64, target_ltv_pct: u8)
        requires
            current_timestamp != 0,
        ensures
            *final(self) == (Obligation {
                autodeleverage_margin_call_started_timestamp: current_timestamp,
                autodeleverage_target_ltv_pct: target_ltv_pct,
                ..*old(self)
            }),
    {
        self.autodeleverage_margin_call_started_timestamp = current_timestamp;
        self.autodeleverage_target_ltv_pct = target_ltv_pct;
    }

    /// Ends a margin call.
    pub fn unmark_for_deleveraging(&mut self)
        ensures
            *final(self) == (Obligation {
                autodeleverage_margin_call_started_timestamp: 0,
                autodeleverage_target_ltv_pct: 0,
                ..*old(self)
            }),
    {
        self.autodeleverage_margin_call_started_timestamp = 0;
        self.autodeleverage_target_ltv_pct = 0;
    }

    /// Fails while a margin call is running.
    pub fn check_not_marked_for_deleveraging(&self) -> (r: Result<(), LendingError>)
        ensures
            self.autodeleverage_margin_call_started_timestamp != 0 ==> r == Err::<(), LendingError>(
                LendingError::ObligationCurrentlyMarkedForDeleveraging,
            ),
            self.autodeleverage_margin_call_started_timestamp == 0 ==> r is Ok,
    {
        if self.is_marked_for_deleveraging() {
            return Err(LendingError::ObligationCurrentlyMarkedForDeleveraging);
        }
        Ok(())
    }

    /// Whether a deposit or a borrow refers to a reserve that no longer
    /// exists.
    pub fn has_obsolete_reserves(&self) -> (r: bool)
        ensures
            r == (self.num_of_obsolete_borrow_reserves > 0 || self.num_of_obsolete_deposit_reserves
                > 0),
    {
        self.num_of_obsolete_borrow_reserves > 0 || self.num_of_obsolete_deposit_reserves > 0
    }

    /// Whether exactly one deposit and exactly one borrow are in use.
    pub fn is_single_debt_single_coll(&self) -> (r: bool)
        ensures
            r == (take_active_deposits(self.deposits@).len() == 1 && take_active_borrows(
                self.borrows@,
            ).len() == 1),
    {
        self.active_deposits_count() == 1 && self.active_borrows_count() == 1
    }

    /// The ownership transfer state, whose stored code must be a known one.
    pub fn ownership_transfer_state(&self) -> (r: OwnershipTransferState)
        requires
            ownership_state_of(self.ownership_transfer_state) is Some,
        ensures
            ownership_state_of(self.ownership_transfer_state) == Some(r),
    {
        OwnershipTransferState::try_from_u8(self.ownership_transfer_state).unwrap()
    }

    /// Whether an ownership transfer was initiated or approved.
    pub fn is_ownership_transfer_in_progress(&self) -> (r: bool)
        requires
            ownership_state_of(self.ownership_transfer_state) is Some,
        ensures
            r == (self.ownership_transfer_state != 0),
    {
        self.ownership_transfer_state() != OwnershipTransferState::NoTransfer
    }

    /// Fails while an ownership transfer is in progress.
    pub fn check_ownership_transfer_not_in_progress(&self) -> (r: Result<(), LendingError>)
        requires
            ownership_state_of(self.ownership_transfer_state) is Some,
        ensures
            self.ownership_transfer_state != 0 ==> r == Err::<(), LendingError>(
                LendingError::ObligationOwnershipTransferInProgress,
            ),
            self.ownership_transfer_state == 0 ==> r is Ok,
    {
        if self.is_ownership_transfer_in_progress() {
            return Err(LendingError::ObligationOwnershipTransferInProgress);
        }
        Ok(())
    }

    /// Whether a transfer was initiated and not yet approved.
    pub fn is_ownership_transfer_in_initiated_state(&self) -> (r: bool)
        requires
            ownership_state_of(self.ownership_transfer_state) is Some,
        ensures
            r == (self.ownership_transfer_state == 1),
    {
        self.ownership_transfer_state() == OwnershipTransferState::Initiated
    }

    /// Whether a transfer was approved.
    pub fn is_ownership_transfer_approved(&self) -> (r: bool)
        requires
            ownership_state_of(self.ownership_transfer_state) is Some,
        ensures
            r == (self.ownership_transfer_state == 2),
    {
        self.ownership_transfer_state() == OwnershipTransferState::Approved
    }

    /// Fails unless a transfer was initiated and not yet approved.
    pub fn check_ownership_transfer_in_initiated_state(&self) -> (r: Result<(), LendingError>)
        requires
            ownership_state_of(self.ownership_transfer_state) is Some,
        ensures
            self.ownership_transfer_state != 1 ==> r == Err::<(), LendingError>(
                LendingError::ObligationOwnershipTransferNotInInitiatedState,
            ),
            self.ownership_transfer_state == 1 ==> r is Ok,
    {
        if !self.is_ownership_transfer_in_initiated_state() {
            return Err(LendingError::ObligationOwnershipTransferNotInInitiatedState);
        }
        Ok(())
    }

    /// Fails unless a transfer was approved.
    pub fn check_ownership_transfer_approved(&self) -> (r: Result<(), LendingError>)
        requires
            ownership_state_of(self.ownership_transfer_state) is Some,
        ensures
            self.ownership_transfer_state != 2 ==> r == Err::<(), LendingError>(
                LendingError::ObligationOwnershipTransferNotApproved,
            ),
            self.ownership_transfer_state == 2 ==> r is Ok,
    {
        if !self.is_ownership_transfer_approved() {
            return Err(LendingError::ObligationOwnershipTransferNotApproved);
        }
        Ok(())
    }

    /// Starts transferring ownership to `pending_owner`, which must be
    /// neither the zero address nor the current owner.
    pub fn initiate_ownership_transfer(&mut self, pending_owner: Pubkey) -> (r: Result<
        (),
        LendingError,
    >)
        ensures
            is_default_key(pending_owner.bytes@) || same_key(pending_owner, old(self).owner) ==> r
                == Err::<(), LendingError>(LendingError::ObligationInvalidPendingOwner) && *final(self) == *old(self),
            !(is_default_key(pending_owner.bytes@) || same_key(pending_owner, old(self).owner))
                ==> r is Ok && *final(self) == (Obligation {
                ownership_transfer_state: 1,
                pending_owner,
                ..*old(self)
            }),
    {
        if pending_owner.is_default() {
            return Err(LendingError::ObligationInvalidPendingOwner);
        }
        if pending_owner.key_eq(&self.owner) {
            return Err(LendingError::ObligationInvalidPendingOwner);
        }
        self.ownership_transfer_state = OwnershipTransferState::Initiated.to_u8();
        self.pending_owner = pending_owner;
        Ok(())
    }

    /// Approves the pending transfer.
    pub fn approve_ownership_transfer(&mut self) -> (r: Result<(), LendingError>)
        ensures
            r is Ok,
            *final(self) == (Obligation { ownership_transfer_state: 2, ..*old(self) }),
    {
        self.ownership_transfer_state = OwnershipTransferState::Approved.to_u8();
        Ok(())
    }

    /// Makes the pending owner the owner and ends the transfer.
    pub fn accept_ownership(&mut self) -> (r: Result<(), LendingError>)
        ensures
            r is Ok,
            final(self).owner == old(self).pending_owner,
            is_default_key(final(self).pending_owner.bytes@),
            *final(self) == (Obligation {
                owner: final(self).owner,
                pending_owner: final(self).pending_owner,
                ownership_transfer_state: 0,
                ..*old(self)
            }),
    {
        self.owner = self.pending_owner;
        self.pending_owner = Pubkey::default_key();
        self.ownership_transfer_state = OwnershipTransferState::NoTransfer.to_u8();
        Ok(())
    }

    /// Ends the transfer without changing the owner.
    pub fn abort_ownership_transfer(&mut self) -> (r: Result<(), LendingError>)
        ensures
            r is Ok,
            is_default_key(final(self).pending_owner.bytes@),
            *final(self) == (Obligation {
                pending_owner: final(self).pending_owner,
                ownership_transfer_state: 0,
                ..*old(self)
            }),
    {
        self.pending_owner = Pubkey::default_key();
        self.ownership_transfer_state = OwnershipTransferState::NoTransfer.to_u8();
        Ok(())
    }
}

impl Obligation {
    /// Whether exactly one deposit and exactly one borrow are in use.
    pub open spec fn spec_single_debt_single_coll(self) -> bool {
        take_active_deposits(self.deposits@).len() == 1 && take_active_borrows(self.borrows@).len()
            == 1
    }

    /// The borrow-factor-adjusted loan-to-value ratio.
    pub open spec fn spec_ltv(self) -> int {
        spec_div(self.borrow_factor_adjusted_debt_value_sf as int, self.deposited_value_sf as int)
    }

    /// The unadjusted loan-to-value ratio.
    pub open spec fn spec_no_bf_ltv(self) -> int {
        spec_div(self.borrowed_assets_market_value_sf as int, self.deposited_value_sf as int)
    }

    /// The loan-to-value ratio at which the obligation becomes unhealthy.
    pub open spec fn spec_unhealthy_ltv(self) -> int {
        spec_div(self.unhealthy_borrow_value_sf as int, self.deposited_value_sf as int)
    }

    /// Whether the LTV ratios can be computed: some value is deposited and
    /// both ratios fit.
    pub open spec fn ltvs_computable(self) -> bool {
        &&& self.deposited_value_sf > 0
        &&& self.spec_ltv() <= u128::MAX
        &&& self.spec_unhealthy_ltv() <= u128::MAX
    }
}

impl ObligationOrder {
    /// Whether the obligation can carry this order: a void order always; a
    /// price-ratio condition only on a single-debt, single-collateral
    /// obligation.
    pub open spec fn spec_is_supported_by(self, obligation: Obligation) -> bool {
        self.is_zeroed() || match self.spec_condition_type() {
            ConditionType::DebtCollPriceRatioAbove | ConditionType::DebtCollPriceRatioBelow => obligation.spec_single_debt_single_coll(),
            _ => true,
        }
    }

    /// Whether the obligation can carry this order; the order is void or has
    /// known type codes.
    pub fn is_supported_by(&self, obligation: &Obligation) -> (r: bool)
        requires
            self.is_zeroed() || self.has_valid_types(),
        ensures
            r == self.spec_is_supported_by(*obligation),
    {
        if self.is_void() {
            return true;
        }
        self.condition_type().is_supported_by(obligation) && self.opportunity_type().is_supported_by(
            obligation,
        )
    }
}

} // verus!
