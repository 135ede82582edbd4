//! A reserve's token description: its name, the price sources that may be
//! used for it, and the limits that a price must meet.

use crate::consts::NULL_PUBKEY_BYTES;
use crate::error::LendingError;
use crate::pubkey::{is_default_key, Pubkey};
use vstd::prelude::*;
use vstd::string::StringSliceAdditionalSpecFns;
use vstd::utf8::valid_utf8;

verus! {

/// Bounds that a price must lie within: `lower` and `upper` scaled by
/// `10^-exp`, each ignored when zero.
#[derive(Clone, Copy, Debug, PartialEq, Eq, Structural)]
pub struct PriceHeuristic {
    pub lower: u64,
    pub upper: u64,
    pub exp: u64,
}

/// A price feed in the scope oracle and the chains of entries that give
/// the price and its time-weighted average.
#[derive(Clone, Copy, Debug)]
pub struct ScopeConfiguration {
    pub price_feed: Pubkey,
    pub price_chain: [u16; 4],
    pub twap_chain: [u16; 4],
}

/// Switchboard aggregators for the price and its time-weighted average.
#[derive(Clone, Copy, Debug)]
pub struct SwitchboardConfiguration {
    pub price_aggregator: Pubkey,
    pub twap_aggregator: Pubkey,
}

/// The Pyth price account.
#[derive(Clone, Copy, Debug)]
pub struct PythConfiguration {
    pub price: Pubkey,
}

/// A token's name, price sources and price limits.
#[derive(Clone, Copy, Debug)]
pub struct TokenInfo {
    pub name: [u8; 32],
    pub heuristic: PriceHeuristic,
    pub max_twap_divergence_bps: u64,
    pub max_age_price_seconds: u64,
    pub max_age_twap_seconds: u64,
    pub scope_configuration: ScopeConfiguration,
    pub switchboard_configuration: SwitchboardConfiguration,
    pub pyth_configuration: PythConfiguration,
    pub _padding: [u64; 20],
}

/// Whether an address names a source: neither all zero nor the null marker.
pub open spec fn key_set(k: Pubkey) -> bool {
    !is_default_key(k.bytes@) && k.bytes@ != NULL_PUBKEY_BYTES@
}

/// Whether a chain of scope entries is unset: all `u16::MAX` or all zero.
pub open spec fn chain_unset(chain: Seq<u16>) -> bool {
    chain == Seq::new(4, |i: int| u16::MAX) || chain == Seq::new(4, |i: int| 0u16)
}

/// Whether an address is set, checked byte by byte.
fn key_is_set(k: &Pubkey) -> (r: bool)
    ensures
        r == key_set(*k),
{
    let null = Pubkey::new_from_array(NULL_PUBKEY_BYTES);
    !k.is_default() && !k.key_eq(&null)
}

/// Whether every entry of a chain is `v`.
fn chain_all(chain: &[u16; 4], v: u16) -> (r: bool)
    ensures
        r == (chain@ == Seq::new(4, |i: int| v)),
{
    let r = chain[0] == v && chain[1] == v && chain[2] == v && chain[3] == v;
    if r {
        assert(chain@ =~= Seq::new(4, |i: int| v));
    }
    r
}

impl Default for ScopeConfiguration {
    /// No scope feed, and unset chains.
    fn default() -> (r: Self)
        ensures
            r.price_feed.bytes@ == NULL_PUBKEY_BYTES@,
            r.price_chain@ == Seq::new(4, |i: int| u16::MAX),
            r.twap_chain@ == Seq::new(4, |i: int| u16::MAX),
    {
        let r = ScopeConfiguration {
            price_feed: Pubkey::new_from_array(NULL_PUBKEY_BYTES),
            price_chain: [u16::MAX;4],
            twap_chain: [u16::MAX;4],
        };
        assert(r.price_chain@ =~= Seq::new(4, |i: int| u16::MAX));
        assert(r.twap_chain@ =~= Seq::new(4, |i: int| u16::MAX));
        r
    }
}

impl ScopeConfiguration {
    /// Whether a scope feed is configured.
    pub fn is_enabled(&self) -> (r: bool)
        ensures
            r == key_set(self.price_feed),
    {
        key_is_set(&self.price_feed)
    }

    /// A configured feed must have a price chain.
    pub fn is_valid(&self) -> (r: bool)
        ensures
            r == (!key_set(self.price_feed) || !chain_unset(self.price_chain@)),
    {
        !self.is_enabled() || (!chain_all(&self.price_chain, u16::MAX) && !chain_all(
            &self.price_chain,
            0,
        ))
    }

    /// Whether a chain for the time-weighted average is configured.
    pub fn has_twap(&self) -> (r: bool)
        ensures
            r == !chain_unset(self.twap_chain@),
    {
        !chain_all(&self.twap_chain, u16::MAX) && !chain_all(&self.twap_chain, 0)
    }
}

impl SwitchboardConfiguration {
    /// Whether a price aggregator is configured.
    pub fn is_enabled(&self) -> (r: bool)
        ensures
            r == key_set(self.price_aggregator),
    {
        key_is_set(&self.price_aggregator)
    }

    /// Whether an aggregator for the time-weighted average is configured.
    pub fn has_twap(&self) -> (r: bool)
        ensures
            r == key_set(self.twap_aggregator),
    {
        key_is_set(&self.twap_aggregator)
    }
}

impl PythConfiguration {
    /// Whether a Pyth price account is configured.
    pub fn is_enabled(&self) -> (r: bool)
        ensures
            r == key_set(self.price),
    {
        key_is_set(&self.price)
    }
}

/// Whether an optional account is the given address.
pub open spec fn is_account(info: Option<Pubkey>, k: Pubkey) -> bool {
    info matches Some(a) && a.bytes@ == k.bytes@
}

/// The number of bytes of `s` left after dropping its trailing zero bytes.
pub open spec fn trimmed_len(s: Seq<u8>) -> nat
    decreases s.len(),
{
    if s.len() == 0 {
        0
    } else if s.last() == 0 {
        trimmed_len(s.drop_last())
    } else {
        s.len()
    }
}

/// The text in `v` when `v` is valid UTF-8, through `std::str::from_utf8`.
///
/// `from_utf8` accepts exactly the valid UTF-8 byte strings and then hands
/// back a string slice over the same bytes.
#[verifier::external_body]
fn str_from_utf8(v: &[u8]) -> (r: Option<&str>)
    ensures
        r is Some <==> valid_utf8(v@),
        r matches Some(s) ==> s.spec_bytes() == v@,
{
    std::str::from_utf8(v).ok()
}

/// `s` without its trailing NUL characters, through `str::trim_end_matches`.
///
/// Trimming the character `'\0'` from the end removes trailing bytes equal
/// to zero: in UTF-8 that byte encodes this character and nothing else.
#[verifier::external_body]
fn trim_trailing_nuls(s: &str) -> (r: &str)
    ensures
        r.spec_bytes() == s.spec_bytes().take(trimmed_len(s.spec_bytes()) as int),
{
    s.trim_end_matches('\0')
}

impl TokenInfo {
    /// Whether the scope feed, if any, is complete and at least one source
    /// is configured.
    pub open spec fn spec_is_valid(self) -> bool {
        &&& (!key_set(self.scope_configuration.price_feed) || !chain_unset(
            self.scope_configuration.price_chain@,
        ))
        &&& (key_set(self.scope_configuration.price_feed) || key_set(
            self.switchboard_configuration.price_aggregator,
        ) || key_set(self.pyth_configuration.price))
    }

    /// Whether a configured time-weighted average check can be made: it
    /// needs a maximal age, and every configured source needs an average.
    pub open spec fn spec_is_twap_config_valid(self) -> bool {
        self.max_twap_divergence_bps > 0 ==> {
            &&& self.max_age_twap_seconds != 0
            &&& key_set(self.scope_configuration.price_feed) ==> !chain_unset(
                self.scope_configuration.twap_chain@,
            )
            &&& key_set(self.switchboard_configuration.price_aggregator) ==> key_set(
                self.switchboard_configuration.twap_aggregator,
            )
        }
    }

    /// Whether the given Pyth account is the configured one, or absent when
    /// none is configured.
    pub open spec fn spec_pyth_matches(self, pyth_info: Option<Pubkey>) -> bool {
        if key_set(self.pyth_configuration.price) {
            is_account(pyth_info, self.pyth_configuration.price)
        } else {
            pyth_info is None
        }
    }

    /// Whether the given Switchboard accounts are the configured ones (the
    /// average only when averages are checked), or absent when none is
    /// configured.
    pub open spec fn spec_switchboard_matches(
        self,
        price_info: Option<Pubkey>,
        twap_info: Option<Pubkey>,
    ) -> bool {
        if key_set(self.switchboard_configuration.price_aggregator) {
            is_account(price_info, self.switchboard_configuration.price_aggregator) && (
            self.max_twap_divergence_bps == 0 || is_account(
                twap_info,
                self.switchboard_configuration.twap_aggregator,
            ))
        } else {
            price_info is None && twap_info is None
        }
    }

    /// Whether the given scope account is the configured one, or absent when
    /// none is configured.
    pub open spec fn spec_scope_matches(self, scope_info: Option<Pubkey>) -> bool {
        if key_set(self.scope_configuration.price_feed) {
            is_account(scope_info, self.scope_configuration.price_feed)
        } else {
            scope_info is None
        }
    }

    /// Checks the configuration and that the price accounts handed in are
    /// the configured ones; each failure has its own error, in this order.
    pub fn validate_token_info_config(
        &self,
        pyth_info: &Option<Pubkey>,
        switchboard_price_info: &Option<Pubkey>,
        switchboard_twap_info: &Option<Pubkey>,
        scope_prices_info: &Option<Pubkey>,
    ) -> (r: Result<(), LendingError>)
        ensures
            r == (if !self.spec_is_valid() {
                Err(LendingError::InvalidOracleConfig)
            } else if !self.spec_is_twap_config_valid() {
                Err(LendingError::InvalidTwapConfig)
            } else if !self.spec_pyth_matches(*pyth_info) {
                Err(LendingError::InvalidPythPriceAccount)
            } else if !self.spec_switchboard_matches(*switchboard_price_info, *switchboard_twap_info) {
                Err(LendingError::InvalidSwitchboardAccount)
            } else if !self.spec_scope_matches(*scope_prices_info) {
                Err(LendingError::InvalidScopePriceAccount)
            } else {
                Ok(())
            }),
    {
        if !self.is_valid() {
            return Err(LendingError::InvalidOracleConfig);
        }
        if !self.is_twap_config_valid() {
            return Err(LendingError::InvalidTwapConfig);
        }
        if !self.check_pyth_acc_matches(pyth_info) {
            return Err(LendingError::InvalidPythPriceAccount);
        }
        if !self.check_switchboard_acc_matches(switchboard_price_info, switchboard_twap_info) {
            return Err(LendingError::InvalidSwitchboardAccount);
        }
        if !self.check_scope_acc_matches(scope_prices_info) {
            return Err(LendingError::InvalidScopePriceAccount);
        }
        Ok(())
    }

    /// See [`TokenInfo::spec_is_valid`].
    pub fn is_valid(&self) -> (r: bool)
        ensures
            r == self.spec_is_valid(),
    {
        self.scope_configuration.is_valid() && (self.scope_configuration.is_enabled()
            || self.switchboard_configuration.is_enabled() || self.pyth_configuration.is_enabled())
    }

    /// Whether prices are checked against their time-weighted average.
    pub fn is_twap_enabled(&self) -> (r: bool)
        ensures
            r == (self.max_twap_divergence_bps > 0),
    {
        self.max_twap_divergence_bps > 0
    }

    /// See [`TokenInfo::spec_is_twap_config_valid`].
    pub fn is_twap_config_valid(&self) -> (r: bool)
        ensures
            r == self.spec_is_twap_config_valid(),
    {
        if !self.is_twap_enabled() {
            return true;
        }
        if self.max_age_twap_seconds == 0 {
            return false;
        }
        if self.scope_configuration.is_enabled() && !self.scope_configuration.has_twap() {
            return false;
        }
        if self.switchboard_configuration.is_enabled()
            && !self.switchboard_configuration.has_twap() {
            return false;
        }
        true
    }

    /// See [`TokenInfo::spec_pyth_matches`].
    pub fn check_pyth_acc_matches(&self, pyth_info: &Option<Pubkey>) -> (r: bool)
        ensures
            r == self.spec_pyth_matches(*pyth_info),
    {
        if self.pyth_configuration.is_enabled() {
            match pyth_info {
                Some(a) => a.key_eq(&self.pyth_configuration.price),
                None => false,
            }
        } else {
            pyth_info.is_none()
        }
    }

    /// See [`TokenInfo::spec_switchboard_matches`].
    pub fn check_switchboard_acc_matches(
        &self,
        switchboard_price_info: &Option<Pubkey>,
        switchboard_twap_info: &Option<Pubkey>,
    ) -> (r: bool)
        ensures
            r == self.spec_switchboard_matches(*switchboard_price_info, *switchboard_twap_info),
    {
        if self.switchboard_configuration.is_enabled() {
            let price_ok = match switchboard_price_info {
                Some(a) => a.key_eq(&self.switchboard_configuration.price_aggregator),
                None => false,
            };
            let twap_ok = match switchboard_twap_info {
                Some(a) => a.key_eq(&self.switchboard_configuration.twap_aggregator),
                None => false,
            };
            price_ok && (!self.is_twap_enabled() || twap_ok)
        } else {
            switchboard_price_info.is_none() && switchboard_twap_info.is_none()
        }
    }

    /// See [`TokenInfo::spec_scope_matches`].
    pub fn check_scope_acc_matches(&self, scope_prices_info: &Option<Pubkey>) -> (r: bool)
        ensures
            r == self.spec_scope_matches(*scope_prices_info),
    {
        if self.scope_configuration.is_enabled() {
            match scope_prices_info {
                Some(a) => a.key_eq(&self.scope_configuration.price_feed),
                None => false,
            }
        } else {
            scope_prices_info.is_none()
        }
    }

    /// The token's name: the name bytes as text without trailing NULs, or
    /// `"InvalidTokenName"` when they are not valid UTF-8.
    pub fn symbol(&self) -> (r: &str)
        ensures
            valid_utf8(self.name@) ==> r.spec_bytes() == self.name@.take(
                trimmed_len(self.name@) as int,
            ),
            !valid_utf8(self.name@) ==> r.spec_bytes() == "InvalidTokenName".spec_bytes().take(
                trimmed_len("InvalidTokenName".spec_bytes()) as int,
            ),
    {
        let s = match str_from_utf8(self.name.as_slice()) {
            Some(s) => s,
            None => "InvalidTokenName",
        };
        trim_trailing_nuls(s)
    }
}

impl Default for TokenInfo {
    /// No name, no limits and no price source.
    fn default() -> (r: Self)
        ensures
            r.name@ == Seq::new(32, |i: int| 0u8),
            r.heuristic == (PriceHeuristic { lower: 0, upper: 0, exp: 0 }),
            r.max_twap_divergence_bps == 0,
            r.max_age_price_seconds == 0,
            r.max_age_twap_seconds == 0,
            r.scope_configuration.price_feed.bytes@ == NULL_PUBKEY_BYTES@,
            r.scope_configuration.price_chain@ == Seq::new(4, |i: int| u16::MAX),
            r.scope_configuration.twap_chain@ == Seq::new(4, |i: int| u16::MAX),
            is_default_key(r.switchboard_configuration.price_aggregator.bytes@),
            is_default_key(r.switchboard_configuration.twap_aggregator.bytes@),
            is_default_key(r.pyth_configuration.price.bytes@),
            r._padding@ == Seq::new(20, |i: int| 0u64),
    {
        let r = TokenInfo {
            name: [0u8;32],
            heuristic: PriceHeuristic { lower: 0, upper: 0, exp: 0 },
            max_twap_divergence_bps: 0,
            max_age_price_seconds: 0,
            max_age_twap_seconds: 0,
            scope_configuration: ScopeConfiguration::default(),
            switchboard_configuration: SwitchboardConfiguration {
                price_aggregator: Pubkey::default_key(),
                twap_aggregator: Pubkey::default_key(),
            },
            pyth_configuration: PythConfiguration { price: Pubkey::default_key() },
            _padding: [0u64;20],
        };
        assert(r.name@ =~= Seq::new(32, |i: int| 0u8));
        assert(r._padding@ =~= Seq::new(20, |i: int| 0u64));
        r
    }
}

} // verus!
