//! 256-bit unsigned integers, as a pair of 128-bit halves, with the few
//! operations the exchange-rate and interest computations need.

use vstd::arithmetic::div_mod::{lemma_fundamental_div_mod, lemma_fundamental_div_mod_converse};
use vstd::prelude::*;

verus! {

/// `2^64`.
#[verifier::inline]
pub open spec fn p64() -> int {
    u64::MAX as int + 1
}

/// `2^128`.
#[verifier::inline]
pub open spec fn p128() -> int {
    u128::MAX as int + 1
}

/// `2^256`.
#[verifier::inline]
pub open spec fn p256() -> int {
    p128() * p128()
}

/// An unsigned 256-bit integer `hi * 2^128 + lo`.
#[derive(Clone, Copy, Debug, PartialEq, Eq, Structural)]
pub struct U256 {
    pub hi: u128,
    pub lo: u128,
}

proof fn lemma_u256_bounds(x: U256)
    ensures
        0 <= x.val() < p256(),
{
    assert(0 <= x.hi * p128() + x.lo < p128() * p128()) by (nonlinear_arith)
        requires
            0 <= x.hi < p128(),
            0 <= x.lo < p128(),
    ;
}

/// The product of two numbers below `2^128` is below `2^256`.
pub proof fn lemma_mul_below_p256(a: int, b: int)
    requires
        0 <= a < p128(),
        0 <= b < p128(),
    ensures
        0 <= a * b < p256(),
{
    assert(0 <= a * b < p128() * p128()) by (nonlinear_arith)
        requires
            0 <= a < p128(),
            0 <= b < p128(),
    ;
}

impl U256 {
    /// The integer value.
    pub open spec fn val(self) -> int {
        self.hi * p128() + self.lo
    }

    /// `0`.
    pub fn zero() -> (r: Self)
        ensures
            r.val() == 0,
    {
        U256 { hi: 0, lo: 0 }
    }

    /// A 128-bit integer.
    pub fn from_u128(x: u128) -> (r: Self)
        ensures
            r.val() == x,
    {
        U256 { hi: 0, lo: x }
    }

    /// `x * 2^60`, which always fits.
    pub fn from_u128_shl60(x: u128) -> (r: Self)
        ensures
            r.val() == x * 1152921504606846976,
    {
        let hi = x / 295147905179352825856u128;
        let rem = x % 295147905179352825856u128;
        let lo = rem * 1152921504606846976u128;
        proof {
            lemma_fundamental_div_mod(x as int, 295147905179352825856);
        }
        U256 { hi, lo }
    }

    /// The value if it fits in 128 bits.
    pub fn to_u128(&self) -> (r: Option<u128>)
        ensures
            self.val() < p128() ==> r == Some(self.val() as u128),
            self.val() >= p128() ==> r is None,
    {
        if self.hi == 0 {
            Some(self.lo)
        } else {
            None
        }
    }

    /// Whether the value is zero.
    pub fn is_zero(&self) -> (r: bool)
        ensures
            r == (self.val() == 0),
    {
        self.hi == 0 && self.lo == 0
    }

    /// `self >= other`.
    pub fn ge(&self, other: &U256) -> (r: bool)
        ensures
            r == (self.val() >= other.val()),
    {
        self.hi > other.hi || (self.hi == other.hi && self.lo >= other.lo)
    }

    /// Sum, or `None` when it needs more than 256 bits.
    pub fn checked_add(&self, other: &U256) -> (r: Option<U256>)
        ensures
            self.val() + other.val() < p256() ==> (r matches Some(s) && s.val() == self.val()
                + other.val()),
            self.val() + other.val() >= p256() ==> r is None,
    {
        let (lo, carry): (u128, u128) = match self.lo.checked_add(other.lo) {
            Some(l) => (l, 0),
            None => (self.lo - (u128::MAX - other.lo) - 1, 1),
        };
        match self.hi.checked_add(other.hi) {
            Some(h) => match h.checked_add(carry) {
                Some(h2) => Some(U256 { hi: h2, lo }),
                None => None,
            },
            None => None,
        }
    }

    /// Sum; the caller guarantees that it fits.
    pub fn add(&self, other: &U256) -> (r: U256)
        requires
            self.val() + other.val() < p256(),
        ensures
            r.val() == self.val() + other.val(),
    {
        self.checked_add(other).unwrap()
    }

    /// Difference; the caller guarantees that it is not negative.
    pub fn sub(&self, other: &U256) -> (r: U256)
        requires
            other.val() <= self.val(),
        ensures
            r.val() == self.val() - other.val(),
    {
        if self.lo >= other.lo {
            U256 { hi: self.hi - other.hi, lo: self.lo - other.lo }
        } else {
            U256 { hi: self.hi - other.hi - 1, lo: u128::MAX - (other.lo - self.lo) + 1 }
        }
    }

    /// `self / 2`, rounded down.
    pub fn half(&self) -> (r: U256)
        ensures
            r.val() == self.val() / 2,
    {
        let hi = self.hi / 2;
        let lo = self.lo / 2 + (self.hi % 2) * 170141183460469231731687303715884105728u128;
        let r = U256 { hi, lo };
        proof {
            lemma_fundamental_div_mod(self.hi as int, 2);
            lemma_fundamental_div_mod(self.lo as int, 2);
            lemma_fundamental_div_mod_converse(self.val(), 2, r.val(), (self.lo % 2) as int);
        }
        r
    }

    /// `self / 2^60`, rounded down.
    pub fn shr60(&self) -> (r: U256)
        ensures
            r.val() == self.val() / 1152921504606846976,
    {
        let hi = self.hi / 1152921504606846976u128;
        let hrem = self.hi % 1152921504606846976u128;
        let lo = hrem * 295147905179352825856u128 + self.lo / 1152921504606846976u128;
        let r = U256 { hi, lo };
        proof {
            lemma_fundamental_div_mod(self.hi as int, 1152921504606846976);
            lemma_fundamental_div_mod(self.lo as int, 1152921504606846976);
            lemma_fundamental_div_mod_converse(
                self.val(),
                1152921504606846976,
                r.val(),
                (self.lo % 1152921504606846976) as int,
            );
        }
        r
    }

    /// `self * b`, or `None` when it needs more than 256 bits.
    pub fn checked_mul_u128(&self, b: u128) -> (r: Option<U256>)
        ensures
            self.val() * b < p256() ==> (r matches Some(p) && p.val() == self.val() * b),
            self.val() * b >= p256() ==> r is None,
    {
        let m1 = mul_u128(self.hi, b);
        let m2 = mul_u128(self.lo, b);
        proof {
            assert(self.val() * b == m1.hi * p256() + (m1.lo + m2.hi) * p128() + m2.lo)
                by (nonlinear_arith)
                requires
                    m1.val() == self.hi * b,
                    m2.val() == self.lo * b,
                    p256() == p128() * p128(),
            ;
            lemma_u256_bounds(m1);
            lemma_u256_bounds(m2);
        }
        if m1.hi != 0 {
            proof {
                assert(m1.hi * p256() >= p256()) by (nonlinear_arith)
                    requires
                        m1.hi >= 1,
                        p256() > 0,
                ;
                assert(0 <= (m1.lo + m2.hi) * p128()) by (nonlinear_arith)
                    requires
                        m1.lo + m2.hi >= 0,
                ;
            }
            return None;
        }
        match m1.lo.checked_add(m2.hi) {
            Some(h) => Some(U256 { hi: h, lo: m2.lo }),
            None => {
                proof {
                    assert((m1.lo + m2.hi) * p128() >= p256()) by (nonlinear_arith)
                        requires
                            m1.lo + m2.hi >= p128(),
                            p256() == p128() * p128(),
                    ;
                }
                None
            },
        }
    }

    /// `self * other`, or `None` when it needs more than 256 bits.
    pub fn checked_mul(&self, other: &U256) -> (r: Option<U256>)
        ensures
            self.val() * other.val() < p256() ==> (r matches Some(p) && p.val() == self.val()
                * other.val()),
            self.val() * other.val() >= p256() ==> r is None,
    {
        if other.hi == 0 {
            return self.checked_mul_u128(other.lo);
        }
        if self.hi == 0 {
            proof {
                assert(self.val() * other.val() == other.val() * self.lo) by (nonlinear_arith)
                    requires
                        self.hi == 0,
                        self.val() == self.hi * p128() + self.lo,
                ;
            }
            return other.checked_mul_u128(self.lo);
        }
        proof {
            assert(self.val() * other.val() >= p256()) by (nonlinear_arith)
                requires
                    self.val() >= p128(),
                    other.val() >= p128(),
                    p256() == p128() * p128(),
            ;
        }
        None
    }
}

/// The exact 256-bit product of two 128-bit integers.
pub fn mul_u128(a: u128, b: u128) -> (r: U256)
    ensures
        r.val() == a * b,
{
    let k: u128 = 18446744073709551616u128;
    let a0 = a % k;
    let a1 = a / k;
    let b0 = b % k;
    let b1 = b / k;
    proof {
        lemma_fundamental_div_mod(a as int, p64());
        lemma_fundamental_div_mod(b as int, p64());
        assert(a0 * b0 < p128() && a0 * b1 < p128() && a1 * b0 < p128() && a1 * b1 < p128())
            by (nonlinear_arith)
            requires
                0 <= a0 < p64(),
                0 <= a1 < p64(),
                0 <= b0 < p64(),
                0 <= b1 < p64(),
                p128() == p64() * p64(),
        ;
    }
    let p00 = a0 * b0;
    let p01 = a0 * b1;
    let p10 = a1 * b0;
    let p11 = a1 * b1;
    let t = p00 / k + p01 % k + p10 % k;
    let lo = p00 % k + (t % k) * k;
    let ghost hi_int: int = p11 + p01 / k + p10 / k + t / k;
    proof {
        lemma_fundamental_div_mod(p00 as int, p64());
        lemma_fundamental_div_mod(p01 as int, p64());
        lemma_fundamental_div_mod(p10 as int, p64());
        lemma_fundamental_div_mod(t as int, p64());
        assert(a * b == hi_int * p128() + lo) by (nonlinear_arith)
            requires
                a == a1 * p64() + a0,
                b == b1 * p64() + b0,
                p00 == a0 * b0,
                p01 == a0 * b1,
                p10 == a1 * b0,
                p11 == a1 * b1,
                p00 == p64() * ((p00 as int) / p64()) + (p00 as int) % p64(),
                p01 == p64() * ((p01 as int) / p64()) + (p01 as int) % p64(),
                p10 == p64() * ((p10 as int) / p64()) + (p10 as int) % p64(),
                t == (p00 as int) / p64() + (p01 as int) % p64() + (p10 as int) % p64(),
                t == p64() * ((t as int) / p64()) + (t as int) % p64(),
                lo == (p00 as int) % p64() + ((t as int) % p64()) * p64(),
                hi_int == p11 + (p01 as int) / p64() + (p10 as int) / p64() + (t as int) / p64(),
                p128() == p64() * p64(),
        ;
        lemma_mul_below_p256(a as int, b as int);
        assert(hi_int < p128()) by (nonlinear_arith)
            requires
                a * b == hi_int * p128() + lo,
                0 <= lo,
                a * b < p256(),
                p256() == p128() * p128(),
                p128() > 0,
        ;
    }
    let hi = p11 + p01 / k + p10 / k + t / k;
    U256 { hi, lo }
}

proof fn lemma_division_step(a: int, w2: int, rest: int, bit: int)
    requires
        w2 >= 2,
        w2 % 2 == 0,
        bit == 0 || bit == 1,
    ensures
        (2 * a + bit) * (w2 / 2) + (rest - bit * (w2 / 2)) == a * w2 + rest,
{
    assert((2 * a + bit) * (w2 / 2) + (rest - bit * (w2 / 2)) == a * w2 + rest)
        by (nonlinear_arith)
        requires
            w2 == 2 * (w2 / 2),
    ;
}

proof fn lemma_quotient_step(q: int, d: int, r: int, bit: int, qbit: int, r2: int)
    requires
        2 * r + bit == qbit * d + r2,
    ensures
        2 * (q * d + r) + bit == (2 * q + qbit) * d + r2,
{
    assert(2 * (q * d + r) + bit == (2 * q + qbit) * d + r2) by (nonlinear_arith)
        requires
            2 * r + bit == qbit * d + r2,
    ;
}

proof fn lemma_pow2_256()
    ensures
        vstd::arithmetic::power2::pow2(256) == p256(),
{
    vstd::arithmetic::power2::lemma2_to64();
    vstd::arithmetic::power2::lemma_pow2_adds(64, 64);
    vstd::arithmetic::power2::lemma_pow2_adds(128, 128);
}

/// Quotient and remainder of a 256-bit division, rounded down.
pub fn div_rem(n: &U256, d: &U256) -> (r: (U256, U256))
    requires
        d.val() > 0,
    ensures
        n.val() == r.0.val() * d.val() + r.1.val(),
        0 <= r.1.val() < d.val(),
        r.0.val() == n.val() / d.val(),
        r.1.val() == n.val() % d.val(),
{
    let mut q = U256::zero();
    let mut rem = U256::zero();
    let mut rest = *n;
    let mut w = U256 { hi: 170141183460469231731687303715884105728u128, lo: 0 };
    let mut k: usize = 0;
    let ghost mut w2: int = p256();
    let ghost mut pk: int = 1;
    proof {
        lemma_u256_bounds(*n);
        lemma_u256_bounds(*d);
        lemma_pow2_256();
        assert(q.val() * d.val() == 0);
        assert((q.val() * d.val() + rem.val()) * w2 == 0);
    }
    while k < 256
        invariant
            0 <= k <= 256,
            0 < d.val() < p256(),
            w2 == vstd::arithmetic::power2::pow2((256 - k) as nat),
            pk * w2 == p256(),
            k < 256 ==> w.val() == w2 / 2,
            0 <= rest.val() < w2,
            0 <= q.val() < pk,
            0 <= rem.val() < d.val(),
            n.val() == (q.val() * d.val() + rem.val()) * w2 + rest.val(),
        decreases 256 - k,
    {
        proof {
            vstd::arithmetic::power2::lemma_pow2_unfold((256 - k) as nat);
            vstd::arithmetic::power2::lemma_pow2_pos((256 - k - 1) as nat);
            assert(pk <= p256() / 2) by (nonlinear_arith)
                requires
                    pk * w2 == p256(),
                    w2 >= 2,
                    pk >= 0,
            ;
        }
        let ghost a = q.val() * d.val() + rem.val();
        let ghost rem_old = rem.val();
        let ghost rest_old = rest.val();
        let bit_set = rest.ge(&w);
        let bit: u128 = if bit_set {
            1
        } else {
            0
        };
        if bit_set {
            rest = rest.sub(&w);
        }
        proof {
            lemma_division_step(a, w2, rest_old, bit as int);
        }
        let bit256 = U256::from_u128(bit);
        let dm = d.sub(&rem);
        let qbit: u128;
        if rem.ge(&dm) {
            let t = rem.sub(&dm);
            rem = t.add(&bit256);
            qbit = 1;
        } else {
            let t = rem.add(&rem);
            let t2 = t.add(&bit256);
            if t2.ge(d) {
                rem = t2.sub(d);
                qbit = 1;
            } else {
                rem = t2;
                qbit = 0;
            }
        }
        proof {
            lemma_quotient_step(q.val(), d.val(), rem_old, bit as int, qbit as int, rem.val());
            assert((pk * 2) * (w2 / 2) == pk * w2) by (nonlinear_arith)
                requires
                    w2 == 2 * (w2 / 2),
            ;
        }
        let q2 = q.add(&q);
        q = q2.add(&U256::from_u128(qbit));
        proof {
            w2 = w2 / 2;
            pk = pk * 2;
        }
        if k < 255 {
            proof {
                vstd::arithmetic::power2::lemma_pow2_unfold((256 - k - 1) as nat);
            }
            w = w.half();
        }
        k = k + 1;
    }
    proof {
        assert(vstd::arithmetic::power2::pow2(0) == 1) by {
            vstd::arithmetic::power2::lemma2_to64();
        }
        assert(w2 == 1);
        assert(rest.val() == 0);
        assert(n.val() == q.val() * d.val() + rem.val()) by (nonlinear_arith)
            requires
                n.val() == (q.val() * d.val() + rem.val()) * w2 + rest.val(),
                w2 == 1,
                rest.val() == 0,
        ;
        lemma_fundamental_div_mod_converse(n.val(), d.val(), q.val(), rem.val());
    }
    (q, rem)
}

} // verus!
