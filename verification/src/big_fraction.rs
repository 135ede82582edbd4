//! Fixed-point numbers with 60 fractional bits over a 256-bit representation,
//! used where products of fractions would overflow 128 bits.

use crate::error::LendingError;
use crate::fraction::{scale, Fraction};
use crate::wide::{div_rem, p128, p256, p64, U256};
use vstd::arithmetic::div_mod::{lemma_fundamental_div_mod, lemma_fundamental_div_mod_converse};
use vstd::prelude::*;

verus! {

/// `value / 2^60` with a 256-bit `value`.
#[derive(Clone, Copy, Debug, PartialEq, Eq, Structural)]
pub struct BigFraction {
    pub value: U256,
}

/// The four 64-bit limbs of a 256-bit value, least significant first.
pub open spec fn limbs_val(l: Seq<u64>) -> int {
    l[0] + l[1] * p64() + l[2] * p128() + l[3] * (p128() * p64())
}

/// A big fraction as stored in an account: four limbs and two padding words.
#[derive(Clone, Copy, Debug)]
pub struct BigFractionBytes {
    pub value: [u64; 4],
    pub padding: [u64; 2],
}

proof fn lemma_split_u128(x: int)
    requires
        0 <= x < p128(),
    ensures
        x == x % p64() + (x / p64()) * p64(),
        0 <= x % p64() < p64(),
        0 <= x / p64() < p64(),
{
    lemma_fundamental_div_mod(x, p64());
}

impl BigFraction {
    /// The scaled value.
    pub open spec fn val(self) -> int {
        self.value.val()
    }

    /// The same number as a fraction.
    pub fn from_fraction(f: Fraction) -> (r: Self)
        ensures
            r.val() == f.val(),
    {
        BigFraction { value: U256::from_u128(f.bits) }
    }

    /// Back to a fraction; an error when the value does not fit in 128 bits.
    pub fn try_to_fraction(&self) -> (r: Result<Fraction, LendingError>)
        ensures
            self.val() < p128() ==> (r matches Ok(f) && f.val() == self.val()),
            self.val() >= p128() ==> r == Err::<Fraction, LendingError>(
                LendingError::IntegerOverflow,
            ),
    {
        match self.value.to_u128() {
            Some(b) => Ok(Fraction::from_bits(b)),
            None => Err(LendingError::IntegerOverflow),
        }
    }

    /// The four 64-bit limbs, least significant first.
    pub fn to_bits(&self) -> (r: [u64; 4])
        ensures
            limbs_val(r@) == self.val(),
    {
        proof {
            lemma_split_u128(self.value.lo as int);
            lemma_split_u128(self.value.hi as int);
        }
        let k: u128 = 18446744073709551616u128;
        let r = [
            (self.value.lo % k) as u64,
            (self.value.lo / k) as u64,
            (self.value.hi % k) as u64,
            (self.value.hi / k) as u64,
        ];
        proof {
            assert(limbs_val(r@) == self.val()) by (nonlinear_arith)
                requires
                    r@[0] == (self.value.lo as int) % p64(),
                    r@[1] == (self.value.lo as int) / p64(),
                    r@[2] == (self.value.hi as int) % p64(),
                    r@[3] == (self.value.hi as int) / p64(),
                    self.value.lo == (self.value.lo as int) % p64() + ((self.value.lo as int) / p64()) * p64(),
                    self.value.hi == (self.value.hi as int) % p64() + ((self.value.hi as int) / p64()) * p64(),
                    limbs_val(r@) == r@[0] + r@[1] * p64() + r@[2] * p128() + r@[3] * (p128()
                        * p64()),
                    self.val() == self.value.hi * p128() + self.value.lo,
            ;
        }
        r
    }

    /// Builds a big fraction from its limbs, least significant first.
    pub fn from_bits(bits: [u64; 4]) -> (r: Self)
        ensures
            r.val() == limbs_val(bits@),
    {
        let k: u128 = 18446744073709551616u128;
        proof {
            assert(bits@[0] + bits@[1] * p64() < p128() && bits@[2] + bits@[3] * p64() < p128())
                by (nonlinear_arith)
                requires
                    0 <= bits@[0] < p64(),
                    0 <= bits@[1] < p64(),
                    0 <= bits@[2] < p64(),
                    0 <= bits@[3] < p64(),
            ;
        }
        let lo = bits[0] as u128 + (bits[1] as u128) * k;
        let hi = bits[2] as u128 + (bits[3] as u128) * k;
        let r = BigFraction { value: U256 { hi, lo } };
        proof {
            assert(r.val() == limbs_val(bits@)) by (nonlinear_arith)
                requires
                    lo == bits@[0] + bits@[1] * p64(),
                    hi == bits@[2] + bits@[3] * p64(),
                    r.val() == hi * p128() + lo,
            ;
        }
        r
    }

    /// The low 128 bits of the scaled value.
    pub fn to_u128_sf(&self) -> (r: u128)
        ensures
            r == self.val() % p128(),
    {
        proof {
            lemma_fundamental_div_mod_converse(
                self.val(),
                p128(),
                self.value.hi as int,
                self.value.lo as int,
            );
        }
        self.value.lo
    }

    /// An integer as a big fraction: `num * 2^60`.
    pub fn from_num(num: u128) -> (r: Self)
        ensures
            r.val() == num * scale(),
    {
        BigFraction { value: U256::from_u128_shl60(num) }
    }

    /// Sum; the caller guarantees that it fits in 256 bits.
    pub fn add(self, rhs: Self) -> (r: Self)
        requires
            self.val() + rhs.val() < p256(),
        ensures
            r.val() == self.val() + rhs.val(),
    {
        BigFraction { value: self.value.add(&rhs.value) }
    }

    /// Difference; the caller guarantees that it is not negative.
    pub fn sub(self, rhs: Self) -> (r: Self)
        requires
            rhs.val() <= self.val(),
        ensures
            r.val() == self.val() - rhs.val(),
    {
        BigFraction { value: self.value.sub(&rhs.value) }
    }

    /// Product rounded down; the caller guarantees that the unscaled product
    /// of the representations fits in 256 bits.
    pub fn mul(self, rhs: Self) -> (r: Self)
        requires
            self.val() * rhs.val() < p256(),
        ensures
            r.val() == self.val() * rhs.val() / scale(),
    {
        let p = self.value.checked_mul(&rhs.value).unwrap();
        BigFraction { value: p.shr60() }
    }

    /// Multiplication by an integer; the caller guarantees that it fits.
    pub fn mul_int(self, rhs: u128) -> (r: Self)
        requires
            self.val() * rhs < p256(),
        ensures
            r.val() == self.val() * rhs,
    {
        BigFraction { value: self.value.checked_mul_u128(rhs).unwrap() }
    }

    /// Division by a nonzero integer, rounded down.
    pub fn div_int(self, rhs: u128) -> (r: Self)
        requires
            rhs != 0,
        ensures
            r.val() == self.val() / (rhs as int),
    {
        let (q, _r) = div_rem(&self.value, &U256::from_u128(rhs));
        BigFraction { value: q }
    }

    /// Quotient rounded down; the dividend's representation is shifted left
    /// by the 60 fractional bits first, dropping any bits beyond 256.
    pub fn div(self, rhs: Self) -> (r: Self)
        requires
            rhs.val() != 0,
        ensures
            r.val() == (self.val() * scale()) % p256() / rhs.val(),
    {
        let shifted = shl60_wrapping(&self.value);
        let (q, _r) = div_rem(&shifted, &rhs.value);
        BigFraction { value: q }
    }
}

/// `(x * 2^60) mod 2^256`.
fn shl60_wrapping(x: &U256) -> (r: U256)
    ensures
        r.val() == (x.val() * scale()) % p256(),
{
    let m: u128 = 295147905179352825856u128;
    let s: u128 = 1152921504606846976u128;
    let hi = (x.hi % m) * s + x.lo / m;
    let lo = (x.lo % m) * s;
    let r = U256 { hi, lo };
    proof {
        lemma_fundamental_div_mod(x.hi as int, 295147905179352825856);
        lemma_fundamental_div_mod(x.lo as int, 295147905179352825856);
        assert(x.val() * scale() == ((x.hi as int) / 295147905179352825856) * p256() + r.val())
            by (nonlinear_arith)
            requires
                x.hi == 295147905179352825856 * ((x.hi as int) / 295147905179352825856) + x.hi
                    % 295147905179352825856,
                x.lo == 295147905179352825856 * ((x.lo as int) / 295147905179352825856) + x.lo
                    % 295147905179352825856,
                hi == ((x.hi as int) % 295147905179352825856) * 1152921504606846976 + x.lo
                    / 295147905179352825856,
                lo == ((x.lo as int) % 295147905179352825856) * 1152921504606846976,
                r.val() == hi * p128() + lo,
                x.val() == x.hi * p128() + x.lo,
                scale() == 1152921504606846976,
                p128() == 295147905179352825856 * 1152921504606846976,
                p256() == p128() * p128(),
        ;
        assert(0 <= r.val() < p256()) by (nonlinear_arith)
            requires
                0 <= hi < p128(),
                0 <= lo < p128(),
                r.val() == hi * p128() + lo,
                p256() == p128() * p128(),
        ;
        lemma_fundamental_div_mod_converse(
            x.val() * scale(),
            p256(),
            ((x.hi as int) / 295147905179352825856) as int,
            r.val(),
        );
    }
    r
}

impl BigFractionBytes {
    /// Stores a big fraction.
    pub fn from_big_fraction(value: BigFraction) -> (r: Self)
        ensures
            limbs_val(r.value@) == value.val(),
            r.padding@ == seq![0u64, 0u64],
    {
        let r = BigFractionBytes { value: value.to_bits(), padding: [0u64;2] };
        assert(r.padding@ =~= seq![0u64, 0u64]);
        r
    }

    /// Loads the stored big fraction.
    pub fn to_big_fraction(&self) -> (r: BigFraction)
        ensures
            r.val() == limbs_val(self.value@),
    {
        BigFraction::from_bits(self.value)
    }
}

} // verus!
