//! Checks applied to configuration values before they are stored, and the
//! little-endian decoding of the values from an update's raw bytes.

use crate::error::LendingError;
use crate::lending_market::ElevationGroup;
use crate::pubkey::Pubkey;
use vstd::prelude::*;

verus! {

/// A flag must be zero or one.
pub fn check_bool(value: u128) -> (r: Result<(), LendingError>)
    ensures
        value <= 1 ==> r is Ok,
        value > 1 ==> r == Err::<(), LendingError>(LendingError::InvalidFlag),
{
    if value > 1 {
        return Err(LendingError::InvalidFlag);
    }
    Ok(())
}

/// A value must not be zero.
pub fn check_not_zero(value: u128) -> (r: Result<(), LendingError>)
    ensures
        value != 0 ==> r is Ok,
        value == 0 ==> r == Err::<(), LendingError>(LendingError::InvalidConfig),
{
    if value == 0 {
        return Err(LendingError::InvalidConfig);
    }
    Ok(())
}

/// A value must not be negative.
pub fn check_not_negative(value: i128) -> (r: Result<(), LendingError>)
    ensures
        value >= 0 ==> r is Ok,
        value < 0 ==> r == Err::<(), LendingError>(LendingError::InvalidConfig),
{
    if value < 0 {
        return Err(LendingError::InvalidConfig);
    }
    Ok(())
}

/// A value must lie in `[min, max]`.
pub fn check_in_range(min: u128, max: u128, value: u128) -> (r: Result<(), LendingError>)
    ensures
        min <= value <= max ==> r is Ok,
        !(min <= value <= max) ==> r == Err::<(), LendingError>(LendingError::InvalidConfig),
{
    if !(min <= value && value <= max) {
        return Err(LendingError::InvalidConfig);
    }
    Ok(())
}

/// A percentage must lie in `[0, 100]`.
pub fn check_valid_pct(value: u128) -> (r: Result<(), LendingError>)
    ensures
        value <= 100 ==> r is Ok,
        value > 100 ==> r == Err::<(), LendingError>(LendingError::InvalidConfig),
{
    check_in_range(0, 100, value)
}

/// A basis-point value must lie in `[0, 10000]`.
pub fn check_valid_bps(value: u128) -> (r: Result<(), LendingError>)
    ensures
        value <= 10000 ==> r is Ok,
        value > 10000 ==> r == Err::<(), LendingError>(LendingError::InvalidConfig),
{
    check_in_range(0, 10000, value)
}

/// A value must be at least `min`.
pub fn check_gte(min: u128, value: u128) -> (r: Result<(), LendingError>)
    ensures
        value >= min ==> r is Ok,
        value < min ==> r == Err::<(), LendingError>(LendingError::InvalidConfig),
{
    if value < min {
        return Err(LendingError::InvalidConfig);
    }
    Ok(())
}

/// A value must be at most `max`.
pub fn check_lte(max: u128, value: u128) -> (r: Result<(), LendingError>)
    ensures
        value <= max ==> r is Ok,
        value > max ==> r == Err::<(), LendingError>(LendingError::InvalidConfig),
{
    if value > max {
        return Err(LendingError::InvalidConfig);
    }
    Ok(())
}

/// The unsigned integer stored little-endian in `n` bytes of `s` from
/// `start`.
pub open spec fn le_value(s: Seq<u8>, start: int, n: nat) -> nat
    decreases n,
{
    if n == 0 {
        0
    } else {
        s[start] as nat + 256 * le_value(s, start + 1, (n - 1) as nat)
    }
}

/// `256^n`.
pub open spec fn pow256(n: nat) -> int
    decreases n,
{
    if n == 0 {
        1
    } else {
        256 * pow256((n - 1) as nat)
    }
}

pub(crate) proof fn lemma_le_value_bound(s: Seq<u8>, start: int, n: nat)
    requires
        0 <= start,
        start + n <= s.len(),
    ensures
        le_value(s, start, n) < pow256(n),
    decreases n,
{
    if n > 0 {
        lemma_le_value_bound(s, start + 1, (n - 1) as nat);
    }
}

pub(crate) proof fn lemma_pow256_16()
    ensures
        pow256(16) == u128::MAX as int + 1,
{
    reveal_with_fuel(pow256, 17);
}

proof fn lemma_pow256_monotonic(a: nat, b: nat)
    requires
        a <= b,
    ensures
        pow256(a) <= pow256(b),
    decreases b,
{
    if a < b {
        lemma_pow256_monotonic(a, (b - 1) as nat);
        lemma_pow256_positive((b - 1) as nat);
    }
}

/// The little-endian integer in `n <= 16` bytes of `bytes` from `start`.
pub fn read_le(bytes: &[u8], start: usize, n: usize) -> (r: u128)
    requires
        n <= 16,
        start + n <= bytes.len(),
    ensures
        r == le_value(bytes@, start as int, n as nat),
{
    let mut v: u128 = 0;
    let mut i: usize = n;
    while i > 0
        invariant
            0 <= i <= n <= 16,
            start + n <= bytes.len(),
            v == le_value(bytes@, start + i, (n - i) as nat),
        decreases i,
    {
        proof {
            lemma_le_value_bound(bytes@, start + i, (n - i) as nat);
            lemma_pow256_monotonic((n - i + 1) as nat, 16);
            lemma_pow256_16();
            assert(pow256((n - i + 1) as nat) == 256 * pow256((n - i) as nat));
        }
        v = v * 256 + bytes[start + i - 1] as u128;
        i = i - 1;
    }
    v
}

/// The little-endian `u16` in the 2 bytes of `bytes` from `start`.
pub fn read_u16(bytes: &[u8], start: usize) -> (r: u16)
    requires
        start + 2 <= bytes.len(),
    ensures
        r == le_value(bytes@, start as int, 2),
{
    proof {
        lemma_le_value_bound(bytes@, start as int, 2);
        reveal_with_fuel(pow256, 3);
    }
    read_le(bytes, start, 2) as u16
}

/// The little-endian `u32` in the 4 bytes of `bytes` from `start`.
pub fn read_u32(bytes: &[u8], start: usize) -> (r: u32)
    requires
        start + 4 <= bytes.len(),
    ensures
        r == le_value(bytes@, start as int, 4),
{
    proof {
        lemma_le_value_bound(bytes@, start as int, 4);
        reveal_with_fuel(pow256, 5);
    }
    read_le(bytes, start, 4) as u32
}

/// The little-endian `u64` in the 8 bytes of `bytes` from `start`.
pub fn read_u64(bytes: &[u8], start: usize) -> (r: u64)
    requires
        start + 8 <= bytes.len(),
    ensures
        r == le_value(bytes@, start as int, 8),
{
    proof {
        lemma_le_value_bound(bytes@, start as int, 8);
        reveal_with_fuel(pow256, 9);
    }
    read_le(bytes, start, 8) as u64
}

/// The 32 bytes of `bytes` from `start` as an address.
pub fn read_pubkey(bytes: &[u8], start: usize) -> (r: Pubkey)
    requires
        start + 32 <= bytes.len(),
    ensures
        r.bytes@ == bytes@.subrange(start as int, start + 32),
{
    let mut out = [0u8;32];
    let mut i: usize = 0;
    while i < 32
        invariant
            0 <= i <= 32,
            start + 32 <= bytes.len(),
            out@.len() == 32,
            forall|j: int| 0 <= j < i ==> out@[j] == bytes@[start + j],
        decreases 32 - i,
    {
        out[i] = bytes[start + i];
        i = i + 1;
    }
    assert(out@ =~= bytes@.subrange(start as int, start + 32));
    Pubkey { bytes: out }
}

/// Whether the 72 bytes of `s` from `start` hold `g`: its fields in
/// declaration order, integers little-endian.
pub open spec fn group_encoded_at(s: Seq<u8>, start: int, g: ElevationGroup) -> bool {
    &&& g.max_liquidation_bonus_bps == le_value(s, start, 2)
    &&& g.id == s[start + 2]
    &&& g.ltv_pct == s[start + 3]
    &&& g.liquidation_threshold_pct == s[start + 4]
    &&& g.allow_new_loans == s[start + 5]
    &&& g.max_reserves_as_collateral == s[start + 6]
    &&& g.padding_0 == s[start + 7]
    &&& g.debt_reserve.bytes@ == s.subrange(start + 8, start + 40)
    &&& g.padding_1@[0] == le_value(s, start + 40, 8)
    &&& g.padding_1@[1] == le_value(s, start + 48, 8)
    &&& g.padding_1@[2] == le_value(s, start + 56, 8)
    &&& g.padding_1@[3] == le_value(s, start + 64, 8)
}

/// The elevation group stored in 72 bytes of `bytes` from `start`.
pub fn read_elevation_group(bytes: &[u8], start: usize) -> (r: ElevationGroup)
    requires
        start + 72 <= bytes.len(),
    ensures
        group_encoded_at(bytes@, start as int, r),
{
    let bonus = read_u16(bytes, start);
    let p0 = read_u64(bytes, start + 40);
    let p1 = read_u64(bytes, start + 48);
    let p2 = read_u64(bytes, start + 56);
    let p3 = read_u64(bytes, start + 64);
    ElevationGroup {
        max_liquidation_bonus_bps: bonus,
        id: bytes[start + 2],
        ltv_pct: bytes[start + 3],
        liquidation_threshold_pct: bytes[start + 4],
        allow_new_loans: bytes[start + 5],
        max_reserves_as_collateral: bytes[start + 6],
        padding_0: bytes[start + 7],
        debt_reserve: read_pubkey(bytes, start + 8),
        padding_1: [p0, p1, p2, p3],
    }
}

proof fn lemma_div_pow256_step(x: int, i: nat)
    requires
        0 <= x,
    ensures
        x / pow256(i + 1) == (x / pow256(i)) / 256,
        pow256(i) > 0,
{
    lemma_pow256_positive(i);
    assert(pow256(i + 1) == pow256(i) * 256);
    vstd::arithmetic::div_mod::lemma_div_denominator(x, pow256(i) as int, 256);
}

proof fn lemma_pow256_positive(n: nat)
    ensures
        pow256(n) > 0,
    decreases n,
{
    if n > 0 {
        lemma_pow256_positive((n - 1) as nat);
    }
}

/// The value read from bytes depends only on those bytes.
pub(crate) proof fn lemma_le_value_frame(s1: Seq<u8>, s2: Seq<u8>, start: int, n: nat)
    requires
        0 <= start,
        start + n <= s1.len(),
        start + n <= s2.len(),
        forall|j: int| start <= j < start + n ==> s1[j] == s2[j],
    ensures
        le_value(s1, start, n) == le_value(s2, start, n),
    decreases n,
{
    if n > 0 {
        lemma_le_value_frame(s1, s2, start + 1, (n - 1) as nat);
    }
}

/// The base-256 digit of `x` at position `j`, lowest first.
pub open spec fn le_digit(x: int, j: nat) -> int {
    (x / pow256(j)) % 256
}

/// Bytes that hold the base-256 digits of `x`, lowest first, hold `x`.
proof fn lemma_le_of_digits(s: Seq<u8>, start: int, n: nat, x: int)
    requires
        0 <= start,
        start + n <= s.len(),
        0 <= x < pow256(n),
        forall|j: int| 0 <= j < n ==> s[start + j] == #[trigger] le_digit(x, j as nat),
    ensures
        le_value(s, start, n) == x,
    decreases n,
{
    if n == 0 {
    } else {
        let y = x / 256;
        assert(pow256(n) == 256 * pow256((n - 1) as nat));
        vstd::arithmetic::div_mod::lemma_fundamental_div_mod(x, 256);
        let p = pow256((n - 1) as nat) as int;
        assert(0 <= y < p) by (nonlinear_arith)
            requires
                x == 256 * y + x % 256,
                0 <= x % 256 < 256,
                0 <= x < 256 * p,
        ;
        assert forall|j: int| 0 <= j < n - 1 implies s[start + 1 + j] == #[trigger] le_digit(
            y,
            j as nat,
        ) by {
            lemma_div_pow256_step(x, j as nat);
            assert(s[start + (j + 1)] == le_digit(x, (j + 1) as nat));
            assert(pow256((j + 1) as nat) == pow256(j as nat) * 256);
            vstd::arithmetic::div_mod::lemma_div_denominator(x, 256, pow256(j as nat) as int);
            assert(x / (256 * pow256(j as nat)) == y / pow256(j as nat));
            assert(256 * pow256(j as nat) == pow256(j as nat) * 256);
        }
        lemma_le_of_digits(s, start + 1, (n - 1) as nat, y);
        let j0: int = 0;
        assert(s[start + j0] == le_digit(x, j0 as nat));
        assert(le_digit(x, 0) == x % 256);
    }
}

/// Writes `x` little-endian into the `n <= 16` bytes of `buf` from `start`,
/// leaving the other bytes as they were.
pub fn write_le(buf: &mut [u8; 72], start: usize, n: usize, x: u128)
    requires
        n <= 16,
        start + n <= 72,
        x < pow256(n as nat),
    ensures
        le_value(final(buf)@, start as int, n as nat) == x,
        forall|j: int|
            0 <= j < 72 && !(start <= j < start + n) ==> final(buf)@[j] == old(buf)@[j],
{
    let mut rem: u128 = x;
    let mut i: usize = 0;
    proof {
        reveal_with_fuel(pow256, 1);
    }
    while i < n
        invariant
            0 <= i <= n <= 16,
            start + n <= 72,
            x < pow256(n as nat),
            buf@.len() == 72,
            rem == x as int / pow256(i as nat),
            forall|j: int|
                0 <= j < i ==> buf@[start + j] == #[trigger] le_digit(x as int, j as nat),
            forall|j: int| 0 <= j < 72 && !(start <= j < start + i) ==> buf@[j] == old(buf)@[j],
        decreases n - i,
    {
        proof {
            lemma_div_pow256_step(x as int, i as nat);
        }
        buf[start + i] = (rem % 256) as u8;
        rem = rem / 256;
        i = i + 1;
    }
    proof {
        lemma_le_of_digits(buf@, start as int, n as nat, x as int);
    }
}

} // verus!
