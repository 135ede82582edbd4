//! Unsigned fixed-point numbers with 68 integer bits and 60 fractional bits.
//!
//! A `Fraction` is stored as its scaled representation `bits`, and stands for
//! the rational number `bits / 2^60`. Multiplication and division of two
//! fractions are performed by the `fixed` crate; everything else is plain
//! integer arithmetic on the scaled representation.

use fixed::types::U68F60;
use vstd::prelude::*;

verus! {

/// The scaled representation of `1`, i.e. `2^60`.
pub const FRACTION_ONE_SCALED: u128 = 1152921504606846976u128;

/// Number of fractional bits.
pub const FRAC_NBITS: u32 = 60;

/// `2^60` as a mathematical integer.
pub open spec fn scale() -> int {
    1152921504606846976
}

/// Product of two scaled values, rounded down.
pub open spec fn spec_mul(a: int, b: int) -> int {
    a * b / scale()
}

/// Quotient of two scaled values, rounded down.
pub open spec fn spec_div(a: int, b: int) -> int {
    a * scale() / b
}

/// Integer part of a scaled value.
pub open spec fn floor_int(a: int) -> int {
    a / scale()
}

/// Smallest integer not below a scaled value.
pub open spec fn ceil_int(a: int) -> int {
    if a % scale() == 0 {
        a / scale()
    } else {
        a / scale() + 1
    }
}

/// Nearest integer to a scaled value, halves rounded up.
pub open spec fn round_int(a: int) -> int {
    if a % scale() >= scale() / 2 {
        a / scale() + 1
    } else {
        a / scale()
    }
}

/// Scaled value of `percent / 100`, rounded down.
pub open spec fn pct_val(percent: int) -> int {
    percent * scale() / 100
}

/// Scaled value of `bps / 10000`, rounded down.
pub open spec fn bps_val(bps: int) -> int {
    bps * scale() / 10000
}

/// `Some(v)` when `v` fits in 128 bits, else `None`.
pub open spec fn fits_u128(v: int) -> Option<int> {
    if 0 <= v <= u128::MAX {
        Some(v)
    } else {
        None
    }
}

/// A fixed-point number: `bits / 2^60`.
#[derive(Clone, Copy, Debug, PartialEq, Eq, Structural)]
pub struct Fraction {
    pub bits: u128,
}

/// Checked product of two scaled values through `U68F60::checked_mul`.
///
/// The `fixed` crate computes the full 256-bit product and shifts it right by
/// the 60 fractional bits, so the result is the rounded-down product; it
/// reports `None` exactly when that value needs more than 128 bits.
#[verifier::external_body]
fn fixed_checked_mul(a: u128, b: u128) -> (r: Option<u128>)
    ensures
        r == (match fits_u128(spec_mul(a as int, b as int)) {
            Some(v) => Some(v as u128),
            None => None::<u128>,
        }),
{
    match U68F60::from_bits(a).checked_mul(U68F60::from_bits(b)) {
        Some(p) => Some(p.to_bits()),
        None => None,
    }
}

/// Checked quotient of two scaled values through `U68F60::checked_div`.
///
/// The `fixed` crate shifts the dividend left by the 60 fractional bits into a
/// 256-bit value and divides it by the divisor, rounding down; it reports
/// `None` when the divisor is zero or the quotient needs more than 128 bits.
#[verifier::external_body]
fn fixed_checked_div(a: u128, b: u128) -> (r: Option<u128>)
    ensures
        b == 0 ==> r is None,
        b != 0 ==> r == (match fits_u128(spec_div(a as int, b as int)) {
            Some(v) => Some(v as u128),
            None => None::<u128>,
        }),
{
    match U68F60::from_bits(a).checked_div(U68F60::from_bits(b)) {
        Some(q) => Some(q.to_bits()),
        None => None,
    }
}

proof fn lemma_mul_nonneg(a: int, b: int)
    requires
        0 <= a,
        0 <= b,
    ensures
        0 <= a * b,
        0 <= a * b / scale(),
{
    assert(0 <= a * b) by (nonlinear_arith)
        requires
            0 <= a,
            0 <= b,
    ;
}

impl Fraction {
    /// The mathematical value, scaled by `2^60`.
    pub open spec fn val(self) -> int {
        self.bits as int
    }

    /// `0`.
    pub fn zero() -> (r: Self)
        ensures
            r.val() == 0,
    {
        Fraction { bits: 0 }
    }

    /// `1`.
    pub fn one() -> (r: Self)
        ensures
            r.val() == scale(),
    {
        Fraction { bits: FRACTION_ONE_SCALED }
    }

    /// The largest representable value.
    pub fn max_value() -> (r: Self)
        ensures
            r.val() == u128::MAX,
    {
        Fraction { bits: u128::MAX }
    }

    /// The smallest positive value, `2^-60`.
    pub fn delta() -> (r: Self)
        ensures
            r.val() == 1,
    {
        Fraction { bits: 1 }
    }

    /// Builds a fraction from its scaled representation.
    pub fn from_bits(bits: u128) -> (r: Self)
        ensures
            r.bits == bits,
    {
        Fraction { bits }
    }

    /// The scaled representation.
    pub fn to_bits(&self) -> (r: u128)
        ensures
            r == self.bits,
    {
        self.bits
    }

    /// Converts an integer.
    pub fn from_num(n: u64) -> (r: Self)
        ensures
            r.val() == n * scale(),
    {
        assert(n * scale() <= u128::MAX) by (nonlinear_arith)
            requires
                n <= u64::MAX,
                scale() == 1152921504606846976,
        ;
        Fraction { bits: (n as u128) * FRACTION_ONE_SCALED }
    }

    /// Converts a 128-bit integer that fits in the 68 integer bits.
    pub fn from_int(n: u128) -> (r: Self)
        requires
            n * scale() <= u128::MAX,
        ensures
            r.val() == n * scale(),
    {
        Fraction { bits: n * FRACTION_ONE_SCALED }
    }

    /// Whether the value is `0`.
    pub fn is_zero(&self) -> (r: bool)
        ensures
            r == (self.val() == 0),
    {
        self.bits == 0
    }

    /// The smaller of two values.
    pub fn min(self, other: Self) -> (r: Self)
        ensures
            r.val() == if self.val() <= other.val() {
                self.val()
            } else {
                other.val()
            },
    {
        if self.bits <= other.bits {
            self
        } else {
            other
        }
    }

    /// The larger of two values.
    pub fn max(self, other: Self) -> (r: Self)
        ensures
            r.val() == if self.val() >= other.val() {
                self.val()
            } else {
                other.val()
            },
    {
        if self.bits >= other.bits {
            self
        } else {
            other
        }
    }

    /// Sum; the caller guarantees that it fits.
    pub fn add(self, rhs: Self) -> (r: Self)
        requires
            self.val() + rhs.val() <= u128::MAX,
        ensures
            r.val() == self.val() + rhs.val(),
    {
        Fraction { bits: self.bits + rhs.bits }
    }

    /// Sum, or `None` when it does not fit.
    pub fn checked_add(self, rhs: Self) -> (r: Option<Self>)
        ensures
            r == (match fits_u128(self.val() + rhs.val()) {
                Some(v) => Some(Fraction { bits: v as u128 }),
                None => None::<Fraction>,
            }),
    {
        match self.bits.checked_add(rhs.bits) {
            Some(b) => Some(Fraction { bits: b }),
            None => None,
        }
    }

    /// Sum, clamped to the largest value.
    pub fn saturating_add(self, rhs: Self) -> (r: Self)
        ensures
            r.val() == if self.val() + rhs.val() <= u128::MAX {
                self.val() + rhs.val()
            } else {
                u128::MAX as int
            },
    {
        Fraction { bits: self.bits.saturating_add(rhs.bits) }
    }

    /// Distance between two values.
    pub fn abs_diff(self, other: Self) -> (r: Self)
        ensures
            r.val() == if self.val() >= other.val() {
                self.val() - other.val()
            } else {
                other.val() - self.val()
            },
    {
        if self.bits >= other.bits {
            Fraction { bits: self.bits - other.bits }
        } else {
            Fraction { bits: other.bits - self.bits }
        }
    }

    /// Difference; the caller guarantees that it is not negative.
    pub fn sub(self, rhs: Self) -> (r: Self)
        requires
            rhs.val() <= self.val(),
        ensures
            r.val() == self.val() - rhs.val(),
    {
        Fraction { bits: self.bits - rhs.bits }
    }

    /// Difference, or `None` when it would be negative.
    pub fn checked_sub(self, rhs: Self) -> (r: Option<Self>)
        ensures
            r == (if rhs.val() <= self.val() {
                Some(Fraction { bits: (self.val() - rhs.val()) as u128 })
            } else {
                None::<Fraction>
            }),
    {
        if rhs.bits <= self.bits {
            Some(Fraction { bits: self.bits - rhs.bits })
        } else {
            None
        }
    }

    /// Difference, clamped at `0`.
    pub fn saturating_sub(self, rhs: Self) -> (r: Self)
        ensures
            r.val() == if rhs.val() <= self.val() {
                self.val() - rhs.val()
            } else {
                0
            },
    {
        if rhs.bits <= self.bits {
            Fraction { bits: self.bits - rhs.bits }
        } else {
            Fraction { bits: 0 }
        }
    }

    /// Product, rounded down, or `None` when it does not fit.
    pub fn checked_mul(self, rhs: Self) -> (r: Option<Self>)
        ensures
            r == (match fits_u128(spec_mul(self.val(), rhs.val())) {
                Some(v) => Some(Fraction { bits: v as u128 }),
                None => None::<Fraction>,
            }),
    {
        match fixed_checked_mul(self.bits, rhs.bits) {
            Some(b) => Some(Fraction { bits: b }),
            None => None,
        }
    }

    /// Product, rounded down; the caller guarantees that it fits.
    pub fn mul(self, rhs: Self) -> (r: Self)
        requires
            spec_mul(self.val(), rhs.val()) <= u128::MAX,
        ensures
            r.val() == spec_mul(self.val(), rhs.val()),
    {
        proof {
            lemma_mul_nonneg(self.val(), rhs.val());
        }
        let p = fixed_checked_mul(self.bits, rhs.bits);
        Fraction { bits: p.unwrap() }
    }

    /// Quotient, rounded down, or `None` when the divisor is zero or the
    /// quotient does not fit.
    pub fn checked_div(self, rhs: Self) -> (r: Option<Self>)
        ensures
            rhs.val() == 0 ==> r is None,
            rhs.val() != 0 ==> r == (match fits_u128(spec_div(self.val(), rhs.val())) {
                Some(v) => Some(Fraction { bits: v as u128 }),
                None => None::<Fraction>,
            }),
    {
        match fixed_checked_div(self.bits, rhs.bits) {
            Some(b) => Some(Fraction { bits: b }),
            None => None,
        }
    }

    /// Quotient, rounded down; the caller guarantees a nonzero divisor and a
    /// quotient that fits.
    pub fn div(self, rhs: Self) -> (r: Self)
        requires
            rhs.val() != 0,
            spec_div(self.val(), rhs.val()) <= u128::MAX,
        ensures
            r.val() == spec_div(self.val(), rhs.val()),
    {
        proof {
            lemma_mul_nonneg(self.val(), scale());
            assert(0 <= self.val() * scale() / rhs.val()) by (nonlinear_arith)
                requires
                    0 <= self.val() * scale(),
                    rhs.val() > 0,
            ;
        }
        let q = fixed_checked_div(self.bits, rhs.bits);
        Fraction { bits: q.unwrap() }
    }

    /// Multiplication by an integer; the caller guarantees that it fits.
    pub fn mul_int(self, n: u128) -> (r: Self)
        requires
            self.val() * n <= u128::MAX,
        ensures
            r.val() == self.val() * n,
    {
        Fraction { bits: self.bits * n }
    }

    /// Division by a nonzero integer, rounded down.
    pub fn div_int(self, n: u128) -> (r: Self)
        requires
            n != 0,
        ensures
            r.val() == self.val() / (n as int),
    {
        Fraction { bits: self.bits / n }
    }

    /// Integer part, which the caller guarantees to fit in 64 bits.
    pub fn to_floor(self) -> (r: u64)
        requires
            floor_int(self.val()) <= u64::MAX,
        ensures
            r == floor_int(self.val()),
    {
        (self.bits / FRACTION_ONE_SCALED) as u64
    }

    /// Integer part, or `None` when it does not fit in 64 bits.
    pub fn try_to_floor(self) -> (r: Option<u64>)
        ensures
            r == (if floor_int(self.val()) <= u64::MAX {
                Some(floor_int(self.val()) as u64)
            } else {
                None::<u64>
            }),
    {
        let q = self.bits / FRACTION_ONE_SCALED;
        if q <= u64::MAX as u128 {
            Some(q as u64)
        } else {
            None
        }
    }

    /// Rounds up to an integer, which the caller guarantees to fit in 64 bits.
    pub fn to_ceil(self) -> (r: u64)
        requires
            ceil_int(self.val()) <= u64::MAX,
        ensures
            r == ceil_int(self.val()),
    {
        let q = self.bits / FRACTION_ONE_SCALED;
        if self.bits % FRACTION_ONE_SCALED != 0 {
            (q + 1) as u64
        } else {
            q as u64
        }
    }

    /// Rounds up to an integer, or `None` when it does not fit in 64 bits.
    pub fn try_to_ceil(self) -> (r: Option<u64>)
        ensures
            r == (if ceil_int(self.val()) <= u64::MAX {
                Some(ceil_int(self.val()) as u64)
            } else {
                None::<u64>
            }),
    {
        let q = self.bits / FRACTION_ONE_SCALED;
        let c = if self.bits % FRACTION_ONE_SCALED != 0 {
            q + 1
        } else {
            q
        };
        if c <= u64::MAX as u128 {
            Some(c as u64)
        } else {
            None
        }
    }

    /// Rounds to the nearest integer, which the caller guarantees to fit in
    /// 64 bits.
    pub fn to_round(self) -> (r: u64)
        requires
            round_int(self.val()) <= u64::MAX,
        ensures
            r == round_int(self.val()),
    {
        let q = self.bits / FRACTION_ONE_SCALED;
        if self.bits % FRACTION_ONE_SCALED >= FRACTION_ONE_SCALED / 2 {
            (q + 1) as u64
        } else {
            q as u64
        }
    }

    /// `percent / 100`.
    pub fn from_percent(percent: u64) -> (r: Self)
        ensures
            r.val() == pct_val(percent as int),
    {
        Fraction::from_num(percent).div_int(100)
    }

    /// `bps / 10000`.
    pub fn from_bps(bps: u64) -> (r: Self)
        ensures
            r.val() == bps_val(bps as int),
    {
        Fraction::from_num(bps).div_int(10000)
    }

    /// The value in basis points, rounded to the nearest integer, or `None`
    /// when that does not fit in 64 bits. The caller guarantees that the
    /// value times 10000 is representable.
    pub fn to_bps(self) -> (r: Option<u64>)
        requires
            self.val() * 10000 <= u128::MAX,
            round_int(self.val() * 10000) * scale() <= u128::MAX,
        ensures
            r == (if round_int(self.val() * 10000) <= u64::MAX {
                Some(round_int(self.val() * 10000) as u64)
            } else {
                None::<u64>
            }),
    {
        let x = self.mul_int(10000);
        let q = x.bits / FRACTION_ONE_SCALED;
        let rounded = if x.bits % FRACTION_ONE_SCALED >= FRACTION_ONE_SCALED / 2 {
            q + 1
        } else {
            q
        };
        if rounded <= u64::MAX as u128 {
            Some(rounded as u64)
        } else {
            None
        }
    }

    /// The value in percent, rounded to the nearest integer, or `None` when
    /// that does not fit in 64 bits. The caller guarantees that the value
    /// times 100 is representable.
    pub fn to_percent(self) -> (r: Option<u64>)
        requires
            self.val() * 100 <= u128::MAX,
            round_int(self.val() * 100) * scale() <= u128::MAX,
        ensures
            r == (if round_int(self.val() * 100) <= u64::MAX {
                Some(round_int(self.val() * 100) as u64)
            } else {
                None::<u64>
            }),
    {
        let x = self.mul_int(100);
        let q = x.bits / FRACTION_ONE_SCALED;
        let rounded = if x.bits % FRACTION_ONE_SCALED >= FRACTION_ONE_SCALED / 2 {
            q + 1
        } else {
            q
        };
        if rounded <= u64::MAX as u128 {
            Some(rounded as u64)
        } else {
            None
        }
    }
}

/// `Some(a * b)` rounded down when it fits, else `None`.
pub open spec fn mul_opt(a: int, b: int) -> Option<int> {
    fits_u128(spec_mul(a, b))
}

/// Square-and-multiply with a rounded-down checked product at every step,
/// starting from accumulator `y`.
pub open spec fn pow_steps(x: int, y: int, n: nat) -> Option<int>
    decreases n,
{
    if n <= 1 {
        mul_opt(x, y)
    } else {
        let y2 = if n % 2 == 1 {
            mul_opt(x, y)
        } else {
            Some(y)
        };
        match y2 {
            None => None,
            Some(y2) => match mul_opt(x, x) {
                None => None,
                Some(x2) => pow_steps(x2, y2, n / 2),
            },
        }
    }
}

/// `x^n` computed by repeated squaring of scaled values.
pub open spec fn spec_pow(x: int, n: nat) -> Option<int> {
    if n == 0 {
        Some(scale())
    } else {
        pow_steps(x, scale(), n)
    }
}

/// `x^power`, computed by repeated squaring with checked products; `None`
/// when an intermediate product does not fit.
pub fn pow_fraction(fraction: Fraction, power: u32) -> (r: Option<Fraction>)
    ensures
        r == (match spec_pow(fraction.val(), power as nat) {
            Some(v) => Some(Fraction { bits: v as u128 }),
            None => None::<Fraction>,
        }),
{
    if power == 0 {
        return Some(Fraction::one());
    }
    let mut x = fraction;
    let mut y = Fraction::one();
    let mut n = power;
    while n > 1
        invariant
            n >= 1,
            spec_pow(fraction.val(), power as nat) == pow_steps(x.val(), y.val(), n as nat),
        decreases n,
    {
        if n % 2 == 1 {
            y = match x.checked_mul(y) {
                Some(v) => v,
                None => return None,
            };
        }
        x = match x.checked_mul(x) {
            Some(v) => v,
            None => return None,
        };
        n = n / 2;
    }
    x.checked_mul(y)
}

/// `bps / 10000` for a 128-bit basis-point count, exact at `10000`.
pub fn bps_u128_to_fraction(bps: u128) -> (r: Fraction)
    requires
        bps * scale() <= u128::MAX,
    ensures
        r.val() == bps_val(bps as int),
{
    if bps == 10000 {
        return Fraction::one();
    }
    Fraction::from_int(bps).div_int(10000)
}

/// `percent / 100` for a 128-bit percentage, exact at `100`.
pub fn pct_u128_to_fraction(percent: u128) -> (r: Fraction)
    requires
        percent * scale() <= u128::MAX,
    ensures
        r.val() == pct_val(percent as int),
{
    if percent == 100 {
        return Fraction::one();
    }
    Fraction::from_int(percent).div_int(100)
}

/// Scaled representation of an integer.
pub fn to_sf(src: u64) -> (r: u128)
    ensures
        r == src * scale(),
{
    Fraction::from_num(src).to_bits()
}

/// Scaled representation of a 128-bit integer that fits in 68 bits.
pub fn to_sf_const(src: u128) -> (r: u128)
    requires
        src * scale() <= u128::MAX,
    ensures
        r == src * scale(),
{
    Fraction::from_int(src).to_bits()
}

} // verus!
