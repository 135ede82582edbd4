//! Freshness tracking of reserves and obligations.

use crate::error::LendingError;
use std::cmp::Ordering;
use vstd::prelude::*;

verus! {

/// Number of elapsed slots after which a refreshed account is stale again.
pub const STALE_AFTER_SLOTS_ELAPSED: u64 = 1;

/// Bit set recording which price checks were performed on a refresh.
#[derive(Clone, Copy, Debug, PartialEq, Eq, Structural)]
pub struct PriceStatusFlags {
    pub bits: u8,
}

pub const PRICE_LOADED: u8 = 1;
pub const PRICE_AGE_CHECKED: u8 = 2;
pub const TWAP_CHECKED: u8 = 4;
pub const TWAP_AGE_CHECKED: u8 = 8;
pub const HEURISTIC_CHECKED: u8 = 16;
pub const PRICE_USAGE_ALLOWED: u8 = 32;

impl PriceStatusFlags {
    /// All six checks.
    pub fn all() -> (r: Self)
        ensures
            r.bits == 63,
    {
        PriceStatusFlags { bits: 63 }
    }

    /// No check.
    pub fn empty() -> (r: Self)
        ensures
            r.bits == 0,
    {
        PriceStatusFlags { bits: 0 }
    }

    /// The checks a liquidation needs: price loaded, price age checked, price
    /// usage allowed.
    pub fn liquidation_checks() -> (r: Self)
        ensures
            r.bits == 35,
    {
        assert(1u8 | 2u8 | 32u8 == 35u8) by (bit_vector);
        PriceStatusFlags { bits: PRICE_LOADED | PRICE_AGE_CHECKED | PRICE_USAGE_ALLOWED }
    }

    /// The raw bits.
    pub fn to_bits(&self) -> (r: u8)
        ensures
            r == self.bits,
    {
        self.bits
    }

    /// Keeps only the defined flags of a raw byte.
    pub fn from_bits_truncate(bits: u8) -> (r: Self)
        ensures
            r.bits == bits & 63,
    {
        PriceStatusFlags { bits: bits & 63 }
    }

    /// Whether every flag of `other` is set here.
    pub fn contains(&self, other: PriceStatusFlags) -> (r: bool)
        ensures
            r == (self.bits & other.bits == other.bits),
    {
        self.bits & other.bits == other.bits
    }

    /// The flags set in either.
    pub fn union(self, other: PriceStatusFlags) -> (r: Self)
        ensures
            r.bits == self.bits | other.bits,
    {
        PriceStatusFlags { bits: self.bits | other.bits }
    }

    /// The flags set in both.
    pub fn intersection(self, other: PriceStatusFlags) -> (r: Self)
        ensures
            r.bits == self.bits & other.bits,
    {
        PriceStatusFlags { bits: self.bits & other.bits }
    }
}

/// Whether an account is stale at `slot` for the required price checks:
/// when marked so, refreshed at least one slot earlier, or missing one of
/// the checks; an error when `slot` is earlier than an unmarked refresh.
pub open spec fn spec_is_stale(lu: LastUpdate, slot: u64, min_price_status: PriceStatusFlags) -> Result<bool, LendingError> {
    if lu.stale != 0 {
        Ok(true)
    } else if slot < lu.slot {
        Err(LendingError::MathOverflow)
    } else {
        Ok(slot - lu.slot >= 1 || (lu.price_status & 63) & min_price_status.bits != min_price_status.bits)
    }
}

/// When an account was last refreshed, and whether it is stale.
#[derive(Clone, Copy, Debug)]
pub struct LastUpdate {
    pub slot: u64,
    pub stale: u8,
    pub price_status: u8,
    pub placeholder: [u8; 6],
}

impl LastUpdate {
    /// Stale at the given slot, with no price check.
    pub fn new(slot: u64) -> (r: Self)
        ensures
            r.slot == slot,
            r.stale == 1,
            r.price_status == 0,
            r.placeholder@ == seq![0u8, 0u8, 0u8, 0u8, 0u8, 0u8],
    {
        let r = LastUpdate { slot, stale: 1, price_status: 0, placeholder: [0u8;6] };
        assert(r.placeholder@ =~= seq![0u8, 0u8, 0u8, 0u8, 0u8, 0u8]);
        r
    }

    /// Slots since the last refresh; an error when `slot` is earlier.
    pub fn slots_elapsed(&self, slot: u64) -> (r: Result<u64, LendingError>)
        ensures
            slot >= self.slot ==> r == Ok::<u64, LendingError>((slot - self.slot) as u64),
            slot < self.slot ==> r == Err::<u64, LendingError>(LendingError::MathOverflow),
    {
        match slot.checked_sub(self.slot) {
            Some(e) => Ok(e),
            None => Err(LendingError::MathOverflow),
        }
    }

    /// Records a refresh at `slot`, with the checks performed if given.
    pub fn update_slot(&mut self, slot: u64, price_status: Option<PriceStatusFlags>)
        ensures
            final(self).slot == slot,
            final(self).stale == 0,
            final(self).price_status == match price_status {
                Some(p) => p.bits,
                None => old(self).price_status,
            },
            final(self).placeholder == old(self).placeholder,
    {
        self.slot = slot;
        self.stale = 0;
        if let Some(p) = price_status {
            self.price_status = p.bits;
        }
    }

    /// Marks the account stale.
    pub fn mark_stale(&mut self)
        ensures
            final(self).stale == 1,
            final(self).slot == old(self).slot,
            final(self).price_status == old(self).price_status,
            final(self).placeholder == old(self).placeholder,
    {
        self.stale = 1;
    }

    /// The recorded checks, unknown bits dropped.
    pub fn get_price_status(&self) -> (r: PriceStatusFlags)
        ensures
            r.bits == self.price_status & 63,
    {
        PriceStatusFlags::from_bits_truncate(self.price_status)
    }

    /// Stale when marked so, refreshed at least one slot ago, or missing one
    /// of the required price checks; an error when `slot` is earlier than the
    /// last refresh and the account is not marked stale.
    pub fn is_stale(&self, slot: u64, min_price_status: PriceStatusFlags) -> (r: Result<
        bool,
        LendingError,
    >)
        ensures
            r == spec_is_stale(*self, slot, min_price_status),
    {
        let is_price_status_ok = self.get_price_status().contains(min_price_status);
        if self.stale != 0 {
            return Ok(true);
        }
        let elapsed = self.slots_elapsed(slot)?;
        Ok(elapsed >= STALE_AFTER_SLOTS_ELAPSED || !is_price_status_ok)
    }
}

impl Default for LastUpdate {
    /// Stale at slot zero, with no price check.
    fn default() -> (r: Self)
        ensures
            r.slot == 0,
            r.stale == 1,
            r.price_status == 0,
            r.placeholder@ == seq![0u8, 0u8, 0u8, 0u8, 0u8, 0u8],
    {
        LastUpdate::new(0)
    }
}

impl PartialEq for LastUpdate {
    /// Two records are equal when they were refreshed at the same slot.
    fn eq(&self, other: &Self) -> (r: bool) {
        self.slot == other.slot
    }
}

impl vstd::std_specs::cmp::PartialEqSpecImpl for LastUpdate {
    open spec fn obeys_eq_spec() -> bool {
        true
    }

    open spec fn eq_spec(&self, other: &Self) -> bool {
        self.slot == other.slot
    }
}

impl PartialOrd for LastUpdate {
    /// Records are ordered by the slot of their refresh.
    fn partial_cmp(&self, other: &Self) -> (r: Option<Ordering>) {
        self.slot.partial_cmp(&other.slot)
    }
}

impl vstd::std_specs::cmp::PartialOrdSpecImpl for LastUpdate {
    open spec fn obeys_partial_cmp_spec() -> bool {
        true
    }

    open spec fn partial_cmp_spec(&self, other: &Self) -> Option<Ordering> {
        if self.slot < other.slot {
            Some(Ordering::Less)
        } else if self.slot > other.slot {
            Some(Ordering::Greater)
        } else {
            Some(Ordering::Equal)
        }
    }
}

} // verus!
