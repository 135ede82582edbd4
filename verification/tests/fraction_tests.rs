use klend::big_fraction::BigFraction;
use klend::consts::ten_pow;
use klend::fraction::{pow_fraction, Fraction};
use klend::wide::{div_rem, mul_u128, U256};

const ONE: u128 = 1u128 << 60;

fn f(bits: u128) -> Fraction {
    Fraction::from_bits(bits)
}

#[test]
fn mul_of_one_and_a_half_by_two_is_three() {
    let r = f(ONE + ONE / 2).mul(f(2 * ONE));
    assert_eq!(r.to_bits(), 3 * ONE);
}

#[test]
fn mul_rounds_down() {
    // 1/2^60 * 1/2 is below the smallest step and rounds to zero.
    let r = f(1).mul(f(ONE / 2));
    assert_eq!(r.to_bits(), 0);
}

#[test]
fn checked_mul_reports_overflow() {
    assert!(Fraction::max_value().checked_mul(f(2 * ONE)).is_none());
    assert_eq!(f(3 * ONE).checked_mul(f(ONE)).map(|x| x.to_bits()), Some(3 * ONE));
}

#[test]
fn div_of_three_by_two() {
    let r = f(3 * ONE).div(f(2 * ONE));
    assert_eq!(r.to_bits(), ONE + ONE / 2);
}

#[test]
fn checked_div_by_zero_is_none() {
    assert!(f(ONE).checked_div(Fraction::zero()).is_none());
    assert!(Fraction::max_value().checked_div(f(1)).is_none());
}

#[test]
fn percent_and_bps_conversions() {
    assert_eq!(Fraction::from_percent(50).to_bits(), ONE / 2);
    assert_eq!(Fraction::from_bps(1).to_bits(), 115292150460684);
    assert_eq!(Fraction::from_bps(10000).to_bits(), ONE);
    assert_eq!(f(ONE / 4).to_bps(), Some(2500));
    assert_eq!(f(ONE / 4).to_percent(), Some(25));
}

#[test]
fn rounding_to_integers() {
    let x = f(ONE + ONE / 2);
    assert_eq!(x.to_floor(), 1);
    assert_eq!(x.to_ceil(), 2);
    assert_eq!(x.to_round(), 2);
    assert_eq!(f(ONE + ONE / 4).to_round(), 1);
    assert_eq!(f(2 * ONE).to_ceil(), 2);
}

#[test]
fn saturating_and_checked_sub() {
    assert_eq!(f(ONE).saturating_sub(f(2 * ONE)).to_bits(), 0);
    assert!(f(ONE).checked_sub(f(2 * ONE)).is_none());
    assert_eq!(f(3 * ONE).checked_sub(f(ONE)).map(|x| x.to_bits()), Some(2 * ONE));
    assert!(Fraction::max_value().checked_add(f(1)).is_none());
}

#[test]
fn power_of_two() {
    let r = pow_fraction(f(2 * ONE), 10).unwrap();
    assert_eq!(r.to_bits(), 1024 * ONE);
    assert_eq!(pow_fraction(f(2 * ONE), 0).unwrap().to_bits(), ONE);
    assert!(pow_fraction(f(1u128 << 100), 2).is_none());
}

#[test]
fn ten_to_the_power() {
    assert_eq!(ten_pow(0), 1);
    assert_eq!(ten_pow(3), 1000);
    assert_eq!(ten_pow(19), 10_000_000_000_000_000_000);
}

#[test]
fn big_fraction_bits_round_trip() {
    let x = BigFraction::from_num(123456789);
    let bits = x.to_bits();
    let y = BigFraction::from_bits(bits);
    assert_eq!(y.to_bits(), bits);
    assert_eq!(y.to_u128_sf(), 123456789u128 << 60);
    assert_eq!(BigFraction::from_bits([1, 2, 3, 4]).to_bits(), [1, 2, 3, 4]);
}

#[test]
fn big_fraction_division_and_product() {
    let six = BigFraction::from_num(6);
    let three = BigFraction::from_num(3);
    assert_eq!(six.div(three).to_u128_sf(), 2 * ONE);
    assert_eq!(six.mul(three).to_u128_sf(), 18 * ONE);
    assert_eq!(six.div_int(4).to_u128_sf(), ONE + ONE / 2);
}

#[test]
fn wide_product_and_quotient() {
    let p = mul_u128(1u128 << 127, 4);
    assert!(p.to_u128().is_none());
    let (q, r) = div_rem(&p, &U256::from_u128(8));
    assert_eq!(q.to_u128(), Some(1u128 << 126));
    assert!(r.is_zero());
    let (q2, r2) = div_rem(&U256::from_u128(17), &U256::from_u128(5));
    assert_eq!(q2.to_u128(), Some(3));
    assert_eq!(r2.to_u128(), Some(2));
}
