//! Referral accounts: what a referrer has earned per token, a user's
//! metadata with their referrer, and a referrer's short link.

use crate::pubkey::{is_default_key, Pubkey};
use vstd::prelude::*;

verus! {

/// Referral fees earned by a referrer in one token, scaled by `2^60`.
#[derive(Clone, Copy, Debug)]
pub struct ReferrerTokenState {
    pub referrer: Pubkey,
    pub mint: Pubkey,
    pub amount_unclaimed_sf: u128,
    pub amount_cumulative_sf: u128,
    pub bump: u64,
    pub padding: [u64; 31],
}

/// A user's metadata: who referred them, and their lookup table.
#[derive(Clone, Copy, Debug)]
pub struct UserMetadata {
    pub referrer: Pubkey,
    pub bump: u64,
    pub user_lookup_table: Pubkey,
    pub owner: Pubkey,
    pub padding_1: [u64; 51],
    pub padding_2: [u64; 64],
}

/// A referrer's short link and owner.
#[derive(Clone, Copy, Debug)]
pub struct ReferrerState {
    pub short_url: Pubkey,
    pub owner: Pubkey,
}

/// A short link that names a referrer.
#[derive(Debug)]
pub struct ShortUrl {
    pub referrer: Pubkey,
    pub short_url: String,
}

impl Default for ReferrerTokenState {
    /// An account with nothing earned.
    fn default() -> (r: Self)
        ensures
            is_default_key(r.referrer.bytes@),
            is_default_key(r.mint.bytes@),
            r.amount_unclaimed_sf == 0,
            r.amount_cumulative_sf == 0,
            r.bump == 0,
            r.padding@ == Seq::new(31, |i: int| 0u64),
    {
        let r = ReferrerTokenState {
            referrer: Pubkey::default_key(),
            mint: Pubkey::default_key(),
            amount_unclaimed_sf: 0,
            amount_cumulative_sf: 0,
            bump: 0,
            padding: [0u64;31],
        };
        assert(r.padding@ =~= Seq::new(31, |i: int| 0u64));
        r
    }
}

impl Default for UserMetadata {
    /// Metadata with no referrer, owner or lookup table.
    fn default() -> (r: Self)
        ensures
            is_default_key(r.referrer.bytes@),
            r.bump == 0,
            is_default_key(r.user_lookup_table.bytes@),
            is_default_key(r.owner.bytes@),
            r.padding_1@ == Seq::new(51, |i: int| 0u64),
            r.padding_2@ == Seq::new(64, |i: int| 0u64),
    {
        let r = UserMetadata {
            referrer: Pubkey::default_key(),
            bump: 0,
            user_lookup_table: Pubkey::default_key(),
            owner: Pubkey::default_key(),
            padding_1: [0u64;51],
            padding_2: [0u64;64],
        };
        assert(r.padding_1@ =~= Seq::new(51, |i: int| 0u64));
        assert(r.padding_2@ =~= Seq::new(64, |i: int| 0u64));
        r
    }
}

} // verus!
