//! Account addresses, held as their 32 raw bytes.

use crate::consts::NULL_PUBKEY_BYTES;
use vstd::prelude::*;

verus! {

/// A 32-byte account address.
#[derive(Clone, Copy, Debug)]
pub struct Pubkey {
    pub bytes: [u8; 32],
}

impl Pubkey {
    /// The all-zero address, which marks an unused slot.
    pub fn default_key() -> (r: Self)
        ensures
            r.bytes@ == Seq::new(32, |i: int| 0u8),
    {
        let r = Pubkey { bytes: [0u8;32] };
        assert(r.bytes@ =~= Seq::new(32, |i: int| 0u8));
        r
    }

    /// Builds an address from its bytes.
    pub fn new_from_array(bytes: [u8; 32]) -> (r: Self)
        ensures
            r.bytes@ == bytes@,
    {
        Pubkey { bytes }
    }

    /// Byte-wise equality.
    pub fn key_eq(&self, other: &Pubkey) -> (r: bool)
        ensures
            r == (self.bytes@ == other.bytes@),
    {
        let mut i: usize = 0;
        while i < 32
            invariant
                0 <= i <= 32,
                self.bytes@.len() == 32,
                other.bytes@.len() == 32,
                forall|j: int| 0 <= j < i ==> self.bytes@[j] == other.bytes@[j],
            decreases 32 - i,
        {
            if self.bytes[i] != other.bytes[i] {
                return false;
            }
            i = i + 1;
        }
        assert(self.bytes@ =~= other.bytes@);
        true
    }

    /// Whether this is the all-zero address.
    pub fn is_default(&self) -> (r: bool)
        ensures
            r == is_default_key(self.bytes@),
    {
        let d = Pubkey::default_key();
        self.key_eq(&d)
    }
}

/// The all-zero address.
pub open spec fn is_default_key(bytes: Seq<u8>) -> bool {
    bytes == Seq::new(32, |i: int| 0u8)
}

/// The address with the given bytes, unless it is the all-zero address or the
/// null marker address.
pub fn maybe_null_pk(pubkey: Pubkey) -> (r: Option<Pubkey>)
    ensures
        is_default_key(pubkey.bytes@) || pubkey.bytes@ == NULL_PUBKEY_BYTES@ ==> r is None,
        !(is_default_key(pubkey.bytes@) || pubkey.bytes@ == NULL_PUBKEY_BYTES@) ==> (r matches Some(
            k,
        ) && k.bytes@ == pubkey.bytes@),
{
    let null = Pubkey::new_from_array(NULL_PUBKEY_BYTES);
    if pubkey.is_default() || pubkey.key_eq(&null) {
        None
    } else {
        Some(pubkey)
    }
}

} // verus!
