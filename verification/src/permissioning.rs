//! The operations that a permissioned market can reserve to holders of a
//! permission: a set of flags.

use vstd::prelude::*;

verus! {

/// A set of operations, one bit each.
#[derive(Clone, Copy, Debug, PartialEq, Eq, Structural)]
pub struct PermissionedOp {
    pub bits: u64,
}

/// The bit of deposits.
pub const DEPOSIT_BIT: u64 = 1;

/// The bit of borrows.
pub const BORROW_BIT: u64 = 2;

/// The bit of liquidations.
pub const LIQUIDATE_BIT: u64 = 4;

impl PermissionedOp {
    /// Every known operation.
    pub const PERMISSION_ALL: u64 = 7;

    /// Deposits.
    pub fn deposit() -> (r: Self)
        ensures
            r.bits == DEPOSIT_BIT,
    {
        PermissionedOp { bits: DEPOSIT_BIT }
    }

    /// Borrows.
    pub fn borrow() -> (r: Self)
        ensures
            r.bits == BORROW_BIT,
    {
        PermissionedOp { bits: BORROW_BIT }
    }

    /// Liquidations.
    pub fn liquidate() -> (r: Self)
        ensures
            r.bits == LIQUIDATE_BIT,
    {
        PermissionedOp { bits: LIQUIDATE_BIT }
    }

    /// No operation.
    pub fn none() -> (r: Self)
        ensures
            r.bits == 0,
    {
        PermissionedOp { bits: 0 }
    }

    /// The known operations, one set each, in the order of their bits.
    pub fn get_all_ops() -> (r: Vec<PermissionedOp>)
        ensures
            r@ == seq![
                PermissionedOp { bits: DEPOSIT_BIT },
                PermissionedOp { bits: BORROW_BIT },
                PermissionedOp { bits: LIQUIDATE_BIT },
            ],
    {
        let mut v = Vec::new();
        v.push(PermissionedOp::deposit());
        v.push(PermissionedOp::borrow());
        v.push(PermissionedOp::liquidate());
        v
    }

    /// The known operations of the set, one set each in the order of their
    /// bits, followed by the unknown bits together when there are any.
    pub fn split(&self) -> (r: Vec<PermissionedOp>)
        ensures
            r@ == split_spec(self.bits),
    {
        let mut v = Vec::new();
        if self.bits & DEPOSIT_BIT != 0 {
            v.push(PermissionedOp::deposit());
        }
        if self.bits & BORROW_BIT != 0 {
            v.push(PermissionedOp::borrow());
        }
        if self.bits & LIQUIDATE_BIT != 0 {
            v.push(PermissionedOp::liquidate());
        }
        let unknown = self.bits & !Self::PERMISSION_ALL;
        if unknown != 0 {
            v.push(PermissionedOp { bits: unknown });
        }
        v
    }

    /// Adds the operations of `op`.
    pub fn add(&mut self, op: PermissionedOp)
        ensures
            final(self).bits == old(self).bits | op.bits,
    {
        self.bits = self.bits | op.bits;
    }

    /// Removes the operations of `op`.
    pub fn revoke(&mut self, op: PermissionedOp)
        ensures
            final(self).bits == old(self).bits & !op.bits,
    {
        self.bits = self.bits & !op.bits;
    }
}

/// One set for each known bit of `bits`, then one for the unknown bits.
pub open spec fn split_spec(bits: u64) -> Seq<PermissionedOp> {
    let s0 = if bits & DEPOSIT_BIT != 0 {
        seq![PermissionedOp { bits: DEPOSIT_BIT }]
    } else {
        seq![]
    };
    let s1 = if bits & BORROW_BIT != 0 {
        s0.push(PermissionedOp { bits: BORROW_BIT })
    } else {
        s0
    };
    let s2 = if bits & LIQUIDATE_BIT != 0 {
        s1.push(PermissionedOp { bits: LIQUIDATE_BIT })
    } else {
        s1
    };
    if bits & !7u64 != 0 {
        s2.push(PermissionedOp { bits: bits & !7u64 })
    } else {
        s2
    }
}

} // verus!
