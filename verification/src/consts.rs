//! Protocol-wide constants.

use vstd::prelude::*;

verus! {

pub const SLOTS_PER_SECOND: u64 = 2;
pub const SLOTS_PER_MINUTE: u64 = 120;
pub const SLOTS_PER_HOUR: u64 = 7200;
pub const SLOTS_PER_DAY: u64 = 172800;
pub const SLOTS_PER_YEAR: u64 = 63072000;

pub const SECONDS_PER_MINUTE: u64 = 60;
pub const SECONDS_PER_HOUR: u64 = 3600;
pub const SECONDS_PER_DAY: u64 = 86400;

pub const PROGRAM_VERSION: u8 = 1;

pub const FULL_BPS: u16 = 10000;

pub const UNINITIALIZED_VERSION: u8 = 0;

pub const INITIAL_COLLATERAL_RATIO: u64 = 1;

pub const LIQUIDATION_CLOSE_FACTOR: u8 = 20;

pub const LIQUIDATION_CLOSE_VALUE: u64 = 2;

pub const MAX_LIQUIDATABLE_VALUE_AT_ONCE: u64 = 500000;

pub const MIN_AUTODELEVERAGE_BONUS_BPS: u64 = 50;

pub const MAX_OBLIGATION_RESERVES: u64 = 20;

pub const CLOSE_TO_INSOLVENCY_RISKY_LTV: u8 = 95;

pub const LENDING_MARKET_SIZE: usize = 4656;
pub const RESERVE_SIZE: usize = 8616;
pub const OBLIGATION_SIZE: usize = 3336;
pub const RESERVE_CONFIG_SIZE: usize = 648;
pub const REFERRER_TOKEN_STATE_SIZE: usize = 352;
pub const USER_METADATA_SIZE: usize = 1024;
pub const REFERRER_STATE_SIZE: usize = 64;
pub const SHORT_URL_SIZE: usize = 68;

pub const GLOBAL_UNHEALTHY_BORROW_VALUE: u64 = 50000000;

pub const GLOBAL_ALLOWED_BORROW_VALUE: u64 = 45000000;

pub const DEFAULT_BORROW_FACTOR_PCT: u64 = 100;

/// The smallest first deposit a market may ask for.
pub const MIN_INITIAL_DEPOSIT_AMOUNT: u64 = 1000;

pub const ELEVATION_GROUP_NONE: u8 = 0;

pub const MAX_NUM_ELEVATION_GROUPS: u8 = 10;

pub const USD_DECIMALS: u32 = 6;

/// Scaled representation of `0.000001`, the smallest net value an obligation
/// may keep.
pub const MIN_NET_VALUE_IN_OBLIGATION_SF: u128 = 1152921504607u128;

pub const DUST_LAMPORT_THRESHOLD: u64 = 1;

/// The 32 bytes of the address that marks an unset account slot.
pub const NULL_PUBKEY_BYTES: [u8; 32] = [
    11, 193, 238, 216, 208, 116, 241, 195, 55, 212, 76, 22, 75, 202, 40, 216, 76, 206, 27, 169,
    138, 64, 177, 28, 19, 90, 156, 0, 0, 0, 0, 0,
];

/// `10^n`.
pub open spec fn pow10(n: nat) -> nat
    decreases n,
{
    if n == 0 {
        1
    } else {
        10 * pow10((n - 1) as nat)
    }
}

/// `10^n` grows with `n`.
pub proof fn lemma_pow10_monotonic(n: nat, m: nat)
    requires
        n <= m,
    ensures
        pow10(n) <= pow10(m),
    decreases m,
{
    if n < m {
        lemma_pow10_monotonic(n, (m - 1) as nat);
    }
}

proof fn lemma_pow10_19()
    ensures
        pow10(19) == 10000000000000000000,
{
    reveal_with_fuel(pow10, 20);
}

/// `10^x` for `x` in `0..=19`; larger exponents are a caller error.
pub fn ten_pow(x: usize) -> (r: u64)
    requires
        x <= 19,
    ensures
        r == pow10(x as nat),
{
    let mut r: u64 = 1;
    let mut i: usize = 0;
    while i < x
        invariant
            i <= x,
            x <= 19,
            r == pow10(i as nat),
        decreases x - i,
    {
        proof {
            lemma_pow10_monotonic((i + 1) as nat, 19);
            lemma_pow10_19();
        }
        r = r * 10;
        i = i + 1;
    }
    r
}

} // verus!
