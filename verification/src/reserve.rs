//! Reserves: the pooled liquidity of one token, its collateral token, its
//! configuration, fees and interest accrual.

use crate::big_fraction::{limbs_val, BigFraction, BigFractionBytes};
use crate::borrow_rate_curve::{spec_borrow_rate, valid_points, BorrowRateCurve};
use crate::consts::{pow10, ten_pow, PROGRAM_VERSION, SLOTS_PER_YEAR};
use crate::error::LendingError;
use crate::fraction::{
    bps_val, ceil_int, floor_int, pct_val, round_int, scale, spec_div, spec_mul, Fraction,
};
use crate::last_update::LastUpdate;
use crate::pubkey::{is_default_key, Pubkey};
use crate::types::{BorrowSize, CalculateBorrowResult, CalculateRepayResult, DepositLiquidityResult};
use crate::wide::{p128, p256};
use crate::withdrawal_caps::WithdrawalCaps;
use crate::referral::ReferrerTokenState;
use crate::token_info::{trimmed_len, TokenInfo};
use vstd::prelude::*;
use vstd::string::StringSliceAdditionalSpecFns;

verus! {

// ---------------------------------------------------------------------------
// Fees
// ---------------------------------------------------------------------------

/// Whether a fee is charged on top of an amount or taken out of it.
#[derive(Clone, Copy, Debug, PartialEq, Eq, Structural)]
pub enum FeeCalculation {
    /// The fee is added on top of the amount.
    Exclusive,
    /// The fee is included in the amount.
    Inclusive,
}

/// Origination and flash-loan fee rates, as scaled fractions.
#[derive(Clone, Copy, Debug)]
pub struct ReserveFees {
    pub origination_fee_sf: u64,
    pub flash_loan_fee_sf: u64,
    pub padding: [u8; 8],
}

/// The fee, before the one-unit minimum: `amount * rate`, or for an inclusive
/// fee `amount * rate / (1 + rate)`.
pub open spec fn spec_fee_amount(amount: int, fee_sf: int, inclusive: bool) -> int {
    if inclusive {
        spec_mul(amount, spec_div(fee_sf, fee_sf + scale()))
    } else {
        spec_mul(amount, fee_sf)
    }
}

/// The fee as a fraction, at least one token unit.
pub open spec fn spec_fee_f(amount: int, fee_sf: int, inclusive: bool) -> int {
    let f = spec_fee_amount(amount, fee_sf, inclusive);
    if f >= scale() {
        f
    } else {
        scale()
    }
}

/// The referrer's share of a fee.
pub open spec fn spec_referral_fee(fee_f: int, referral_fee_bps: int, has_referrer: bool) -> int {
    if referral_fee_bps > 0 && has_referrer {
        if referral_fee_bps == 10000 {
            round_int(fee_f)
        } else {
            floor_int(spec_mul(fee_f, bps_val(referral_fee_bps)))
        }
    } else {
        0
    }
}

/// Protocol fee and referral fee on an amount, or why none can be charged.
pub open spec fn spec_calculate_fees(
    amount: int,
    fee_sf: int,
    inclusive: bool,
    referral_fee_bps: int,
    has_referrer: bool,
) -> Result<(int, int), LendingError> {
    if !(fee_sf > 0 && amount > 0) {
        Ok((0, 0))
    } else {
        let f = spec_fee_f(amount, fee_sf, inclusive);
        if f >= amount {
            Err(LendingError::BorrowTooSmall)
        } else {
            let fee = round_int(f);
            let rf = spec_referral_fee(f, referral_fee_bps, has_referrer);
            Ok((fee - rf, rf))
        }
    }
}

/// The representability conditions under which the fee computation does not
/// overflow.
pub open spec fn fees_computable(
    amount: int,
    fee_sf: int,
    inclusive: bool,
    referral_fee_bps: int,
    has_referrer: bool,
) -> bool {
    (fee_sf > 0 && amount > 0) ==> {
        &&& !inclusive ==> spec_mul(amount, fee_sf) <= u128::MAX
        &&& spec_fee_f(amount, fee_sf, inclusive) < amount ==> {
            let f = spec_fee_f(amount, fee_sf, inclusive);
            &&& round_int(f) <= u64::MAX
            &&& referral_fee_bps > 0 && has_referrer && referral_fee_bps != 10000 ==> {
                &&& spec_mul(f, bps_val(referral_fee_bps)) <= u128::MAX
                &&& floor_int(spec_mul(f, bps_val(referral_fee_bps))) <= round_int(f)
            }
        }
    }
}

proof fn lemma_mul_le(a: int, b: int)
    requires
        0 <= a,
        0 <= b <= scale(),
    ensures
        0 <= spec_mul(a, b) <= a,
{
    assert(0 <= a * b <= a * scale()) by (nonlinear_arith)
        requires
            0 <= a,
            0 <= b <= scale(),
    ;
    assert(a * b / scale() <= a * scale() / scale()) by (nonlinear_arith)
        requires
            0 <= a * b <= a * scale(),
            scale() > 0,
    ;
    assert(a * scale() / scale() == a) by (nonlinear_arith)
        requires
            scale() > 0,
    ;
    assert(0 <= a * b / scale()) by (nonlinear_arith)
        requires
            0 <= a * b,
            scale() > 0,
    ;
}

proof fn lemma_div_below_one(a: int, b: int)
    requires
        0 <= a,
        a < b,
    ensures
        0 <= spec_div(a, b) <= scale(),
{
    assert(0 <= a * scale() / b <= scale()) by (nonlinear_arith)
        requires
            0 <= a,
            a < b,
            scale() > 0,
    ;
}

impl ReserveFees {
    fn calculate_fees(
        &self,
        amount: Fraction,
        fee_sf: u64,
        fee_calculation: FeeCalculation,
        referral_fee_bps: u16,
        has_referrer: bool,
    ) -> (r: Result<(u64, u64), LendingError>)
        requires
            fees_computable(
                amount.val(),
                fee_sf as int,
                fee_calculation == FeeCalculation::Inclusive,
                referral_fee_bps as int,
                has_referrer,
            ),
        ensures
            match spec_calculate_fees(
                amount.val(),
                fee_sf as int,
                fee_calculation == FeeCalculation::Inclusive,
                referral_fee_bps as int,
                has_referrer,
            ) {
                Ok((p, f)) => r == Ok::<(u64, u64), LendingError>((p as u64, f as u64)),
                Err(e) => r == Err::<(u64, u64), LendingError>(e),
            },
    {
        let origination_fee_rate = Fraction::from_bits(fee_sf as u128);
        let referral_fee_rate = Fraction::from_bps(referral_fee_bps as u64);
        if origination_fee_rate.bits > 0 && amount.bits > 0 {
            proof {
                assert(referral_fee_rate.val() > 0 <==> referral_fee_bps > 0) by (nonlinear_arith)
                    requires
                        referral_fee_rate.val() == referral_fee_bps * scale() / 10000,
                        referral_fee_bps >= 0,
                        scale() == 1152921504606846976,
                ;
            }
            let need_to_assess_referral_fee = referral_fee_rate.bits > 0 && has_referrer;
            let minimum_fee = Fraction::from_num(1);
            let origination_fee_amount = match fee_calculation {
                FeeCalculation::Exclusive => amount.mul(origination_fee_rate),
                FeeCalculation::Inclusive => {
                    let denom = origination_fee_rate.add(Fraction::one());
                    proof {
                        lemma_div_below_one(origination_fee_rate.val(), denom.val());
                    }
                    let rate = origination_fee_rate.div(denom);
                    proof {
                        lemma_mul_le(amount.val(), rate.val());
                    }
                    amount.mul(rate)
                },
            };
            let origination_fee_f = origination_fee_amount.max(minimum_fee);
            if origination_fee_f.bits >= amount.bits {
                return Err(LendingError::BorrowTooSmall);
            }
            let origination_fee = origination_fee_f.to_round();
            let referral_fee = if need_to_assess_referral_fee {
                if referral_fee_bps == 10000 {
                    origination_fee
                } else {
                    let referral_fee_f = origination_fee_f.mul(referral_fee_rate);
                    referral_fee_f.to_floor()
                }
            } else {
                0
            };
            let protocol_fee = origination_fee - referral_fee;
            Ok((protocol_fee, referral_fee))
        } else {
            Ok((0, 0))
        }
    }

    /// Origination fees on a borrow: protocol part and referrer part.
    pub fn calculate_borrow_fees(
        &self,
        borrow_amount: Fraction,
        fee_calculation: FeeCalculation,
        referral_fee_bps: u16,
        has_referrer: bool,
    ) -> (r: Result<(u64, u64), LendingError>)
        requires
            fees_computable(
                borrow_amount.val(),
                self.origination_fee_sf as int,
                fee_calculation == FeeCalculation::Inclusive,
                referral_fee_bps as int,
                has_referrer,
            ),
        ensures
            match spec_calculate_fees(
                borrow_amount.val(),
                self.origination_fee_sf as int,
                fee_calculation == FeeCalculation::Inclusive,
                referral_fee_bps as int,
                has_referrer,
            ) {
                Ok((p, f)) => r == Ok::<(u64, u64), LendingError>((p as u64, f as u64)),
                Err(e) => r == Err::<(u64, u64), LendingError>(e),
            },
    {
        self.calculate_fees(
            borrow_amount,
            self.origination_fee_sf,
            fee_calculation,
            referral_fee_bps,
            has_referrer,
        )
    }

    /// Flash-loan fees, charged on top of the loan: protocol part and
    /// referrer part.
    pub fn calculate_flash_loan_fees(
        &self,
        flash_loan_amount_f: Fraction,
        referral_fee_bps: u16,
        has_referrer: bool,
    ) -> (r: Result<(u64, u64), LendingError>)
        requires
            fees_computable(
                flash_loan_amount_f.val(),
                self.flash_loan_fee_sf as int,
                false,
                referral_fee_bps as int,
                has_referrer,
            ),
        ensures
            match spec_calculate_fees(
                flash_loan_amount_f.val(),
                self.flash_loan_fee_sf as int,
                false,
                referral_fee_bps as int,
                has_referrer,
            ) {
                Ok((p, f)) => r == Ok::<(u64, u64), LendingError>((p as u64, f as u64)),
                Err(e) => r == Err::<(u64, u64), LendingError>(e),
            },
    {
        self.calculate_fees(
            flash_loan_amount_f,
            self.flash_loan_fee_sf,
            FeeCalculation::Exclusive,
            referral_fee_bps,
            has_referrer,
        )
    }

    /// The origination fee rate.
    pub fn origination_fee_rate(&self) -> (r: Fraction)
        ensures
            r.val() == self.origination_fee_sf,
    {
        Fraction::from_bits(self.origination_fee_sf as u128)
    }
}

// ---------------------------------------------------------------------------
// Collateral exchange rate
// ---------------------------------------------------------------------------

/// How many collateral tokens stand for how much liquidity: the rate is
/// `collateral_supply / liquidity`.
#[derive(Clone, Copy, Debug, PartialEq, Eq, Structural)]
pub struct CollateralExchangeRate {
    pub collateral_supply: u128,
    pub liquidity: Fraction,
}

/// Liquidity, as a scaled fraction, worth `c` scaled collateral.
pub open spec fn spec_c2l_frac(rate: CollateralExchangeRate, c: int) -> int {
    c * rate.liquidity.val() / scale() / (rate.collateral_supply as int)
}

/// Liquidity, as a scaled fraction rounded up, worth `amount` collateral.
pub open spec fn spec_c2l_ceil_frac(rate: CollateralExchangeRate, amount: int) -> int {
    (amount * rate.liquidity.val() + rate.collateral_supply - 1) / (rate.collateral_supply as int)
}

/// Collateral, as a scaled fraction, worth `la` scaled liquidity.
pub open spec fn spec_l2c_frac(rate: CollateralExchangeRate, la: int) -> int {
    la * rate.collateral_supply * scale() / rate.liquidity.val()
}

/// Collateral, as a scaled fraction, worth `la` scaled liquidity, with the
/// liquidity rounded up to the next multiple of the rate's liquidity first.
pub open spec fn spec_l2c_frac_ceil(rate: CollateralExchangeRate, la: int) -> int {
    (la * rate.collateral_supply + rate.liquidity.val() - 1) * scale() / rate.liquidity.val()
}

/// Collateral, as a scaled fraction, worth `amount` liquidity tokens.
pub open spec fn spec_l2c_amount_frac(rate: CollateralExchangeRate, amount: int) -> int {
    rate.collateral_supply * amount * scale() * scale() / rate.liquidity.val()
}

proof fn lemma_nonneg_mul3(a: int, b: int, c: int)
    requires
        0 <= a,
        0 <= b,
        0 <= c,
    ensures
        0 <= a * b,
        0 <= a * b * c,
{
    assert(0 <= a * b * c && 0 <= a * b) by (nonlinear_arith)
        requires
            0 <= a,
            0 <= b,
            0 <= c,
    ;
}

impl CollateralExchangeRate {
    /// One collateral token per liquidity token.
    pub fn one() -> (r: Self)
        ensures
            r.collateral_supply == 1,
            r.liquidity.val() == scale(),
    {
        CollateralExchangeRate { collateral_supply: 1, liquidity: Fraction::one() }
    }

    /// The rate of a reserve with this collateral supply and liquidity.
    pub fn from_supply_and_liquidity(collateral_supply: u64, liquidity: Fraction) -> (r: Self)
        ensures
            r.collateral_supply == collateral_supply,
            r.liquidity == liquidity,
    {
        CollateralExchangeRate { collateral_supply: collateral_supply as u128, liquidity }
    }

    /// Liquidity worth a (fractional) collateral amount, rounded down.
    pub fn fraction_collateral_to_liquidity(&self, collateral_amount: Fraction) -> (r: Fraction)
        requires
            self.collateral_supply != 0,
            spec_c2l_frac(*self, collateral_amount.val()) < p128(),
        ensures
            r.val() == spec_c2l_frac(*self, collateral_amount.val()),
    {
        proof {
            crate::wide::lemma_mul_below_p256(collateral_amount.val(), self.liquidity.val());
        }
        let product = BigFraction::from_fraction(collateral_amount).mul(
            BigFraction::from_fraction(self.liquidity),
        );
        let q = product.div_int(self.collateral_supply);
        q.try_to_fraction().unwrap()
    }

    /// Liquidity worth a collateral amount, rounded down to a token amount.
    pub fn collateral_to_liquidity(&self, collateral_amount: u64) -> (r: u64)
        requires
            self.collateral_supply != 0,
            spec_c2l_frac(*self, collateral_amount * scale()) < p128(),
            floor_int(spec_c2l_frac(*self, collateral_amount * scale())) <= u64::MAX,
        ensures
            r == floor_int(spec_c2l_frac(*self, collateral_amount * scale())),
    {
        self.fraction_collateral_to_liquidity(Fraction::from_num(collateral_amount)).to_floor()
    }

    /// Liquidity worth a collateral amount, rounded up to a token amount.
    pub fn collateral_to_liquidity_ceil(&self, collateral_amount: u64) -> (r: u64)
        requires
            self.collateral_supply != 0,
            spec_c2l_ceil_frac(*self, collateral_amount as int) < p128(),
            ceil_int(spec_c2l_ceil_frac(*self, collateral_amount as int)) <= u64::MAX,
        ensures
            r == ceil_int(spec_c2l_ceil_frac(*self, collateral_amount as int)),
    {
        let amount = crate::wide::U256::from_u128(collateral_amount as u128);
        let liquidity_sbf = crate::wide::U256::from_u128(self.liquidity.bits);
        let supply = crate::wide::U256::from_u128(self.collateral_supply);
        proof {
            crate::wide::lemma_mul_below_p256(collateral_amount as int, self.liquidity.val());
            assert(collateral_amount * self.liquidity.val() < p128() * (u64::MAX as int + 1))
                by (nonlinear_arith)
                requires
                    0 <= collateral_amount <= u64::MAX,
                    0 <= self.liquidity.val() < p128(),
            ;
        }
        let product = amount.checked_mul(&liquidity_sbf).unwrap();
        let one = crate::wide::U256::from_u128(1);
        let supply_minus_one = supply.sub(&one);
        let sum = product.checked_add(&supply_minus_one).unwrap();
        let (q, _rem) = crate::wide::div_rem(&sum, &supply);
        let f = BigFraction { value: q }.try_to_fraction().unwrap();
        f.to_ceil()
    }

    /// Collateral worth a (fractional) liquidity amount, rounded down.
    pub fn fraction_liquidity_to_collateral(&self, liquidity_amount: Fraction) -> (r: Fraction)
        requires
            self.liquidity.val() != 0,
            self.collateral_supply <= u64::MAX,
            spec_l2c_frac(*self, liquidity_amount.val()) < p128(),
        ensures
            r.val() == spec_l2c_frac(*self, liquidity_amount.val()),
    {
        proof {
            lemma_l2c_no_wrap(liquidity_amount.val(), self.collateral_supply as int);
        }
        let scaled = BigFraction::from_fraction(liquidity_amount).mul_int(self.collateral_supply);
        let q = scaled.div(BigFraction::from_fraction(self.liquidity));
        q.try_to_fraction().unwrap()
    }

    /// Collateral worth a (fractional) liquidity amount, rounded up.
    pub fn fraction_liquidity_to_collateral_ceil(&self, liquidity_amount: Fraction) -> (r: Fraction)
        requires
            self.liquidity.val() != 0,
            self.collateral_supply <= u64::MAX,
            spec_l2c_frac_ceil(*self, liquidity_amount.val()) < p128(),
        ensures
            r.val() == spec_l2c_frac_ceil(*self, liquidity_amount.val()),
    {
        proof {
            lemma_l2c_ceil_no_wrap(
                liquidity_amount.val(),
                self.collateral_supply as int,
                self.liquidity.val(),
            );
        }
        let scaled = BigFraction::from_fraction(liquidity_amount).mul_int(self.collateral_supply);
        let bump = BigFraction::from_fraction(self.liquidity.sub(Fraction::delta()));
        let q = scaled.add(bump).div(BigFraction::from_fraction(self.liquidity));
        q.try_to_fraction().unwrap()
    }

    /// Collateral worth a liquidity token amount, as a fraction rounded down.
    pub fn liquidity_to_collateral_fraction(&self, liquidity_amount: u64) -> (r: Fraction)
        requires
            self.liquidity.val() != 0,
            self.collateral_supply <= u64::MAX,
            spec_l2c_amount_frac(*self, liquidity_amount as int) < p128(),
        ensures
            r.val() == spec_l2c_amount_frac(*self, liquidity_amount as int),
    {
        proof {
            lemma_l2c_amount_no_wrap(self.collateral_supply as int, liquidity_amount as int);
        }
        let n = self.collateral_supply * (liquidity_amount as u128);
        let q = BigFraction::from_num(n).div(BigFraction::from_fraction(self.liquidity));
        q.try_to_fraction().unwrap()
    }

    /// Collateral worth a liquidity token amount, rounded down.
    pub fn liquidity_to_collateral(&self, liquidity_amount: u64) -> (r: u64)
        requires
            self.liquidity.val() != 0,
            self.collateral_supply <= u64::MAX,
            spec_l2c_amount_frac(*self, liquidity_amount as int) < p128(),
            floor_int(spec_l2c_amount_frac(*self, liquidity_amount as int)) <= u64::MAX,
        ensures
            r == floor_int(spec_l2c_amount_frac(*self, liquidity_amount as int)),
    {
        self.liquidity_to_collateral_fraction(liquidity_amount).to_floor()
    }

    /// Collateral worth a liquidity token amount, rounded up.
    pub fn liquidity_to_collateral_ceil(&self, liquidity_amount: u64) -> (r: u64)
        requires
            self.liquidity.val() != 0,
            self.collateral_supply <= u64::MAX,
            spec_l2c_amount_frac(*self, liquidity_amount as int) < p128(),
            ceil_int(spec_l2c_amount_frac(*self, liquidity_amount as int)) <= u64::MAX,
        ensures
            r == ceil_int(spec_l2c_amount_frac(*self, liquidity_amount as int)),
    {
        self.liquidity_to_collateral_fraction(liquidity_amount).to_ceil()
    }
}

proof fn lemma_l2c_no_wrap(la: int, supply: int)
    requires
        0 <= la < p128(),
        0 <= supply <= u64::MAX,
    ensures
        la * supply < p256(),
        (la * supply * scale()) % p256() == la * supply * scale(),
{
    assert(0 <= la * supply * scale() < p256() && la * supply < p256()) by (nonlinear_arith)
        requires
            0 <= la < p128(),
            0 <= supply <= u64::MAX,
            scale() == 1152921504606846976,
            p256() == p128() * p128(),
            p128() == 340282366920938463463374607431768211456,
    ;
    vstd::arithmetic::div_mod::lemma_small_mod((la * supply * scale()) as nat, p256() as nat);
}

proof fn lemma_l2c_ceil_no_wrap(la: int, supply: int, l: int)
    requires
        0 <= la < p128(),
        0 <= supply <= u64::MAX,
        1 <= l < p128(),
    ensures
        la * supply < p256(),
        la * supply + (l - 1) < p256(),
        ((la * supply + (l - 1)) * scale()) % p256() == (la * supply + (l - 1)) * scale(),
{
    assert(0 <= (la * supply + (l - 1)) * scale() < p256() && la * supply + (l - 1) < p256())
        by (nonlinear_arith)
        requires
            0 <= la < p128(),
            0 <= supply <= u64::MAX,
            1 <= l < p128(),
            scale() == 1152921504606846976,
            p256() == p128() * p128(),
            p128() == 340282366920938463463374607431768211456,
    ;
    vstd::arithmetic::div_mod::lemma_small_mod(
        ((la * supply + (l - 1)) * scale()) as nat,
        p256() as nat,
    );
}

proof fn lemma_l2c_amount_no_wrap(supply: int, amount: int)
    requires
        0 <= supply <= u64::MAX,
        0 <= amount <= u64::MAX,
    ensures
        supply * amount <= u128::MAX,
        (supply * amount * scale() * scale()) % p256() == supply * amount * scale() * scale(),
{
    assert(0 <= supply * amount * scale() * scale() < p256() && supply * amount <= u128::MAX)
        by (nonlinear_arith)
        requires
            0 <= supply <= u64::MAX,
            0 <= amount <= u64::MAX,
            scale() == 1152921504606846976,
            p256() == p128() * p128(),
            p128() == 340282366920938463463374607431768211456,
    ;
    vstd::arithmetic::div_mod::lemma_small_mod(
        (supply * amount * scale() * scale()) as nat,
        p256() as nat,
    );
}

// ---------------------------------------------------------------------------
// Collateral
// ---------------------------------------------------------------------------

/// The reserve's collateral token.
#[derive(Clone, Copy, Debug)]
pub struct ReserveCollateral {
    pub mint_pubkey: Pubkey,
    pub mint_total_supply: u64,
    pub supply_vault: Pubkey,
}

/// Parameters of a new collateral token.
#[derive(Clone, Copy, Debug)]
pub struct NewReserveCollateralParams {
    pub mint_pubkey: Pubkey,
    pub supply_vault: Pubkey,
    pub initial_collateral_supply: u64,
}

impl ReserveCollateral {
    /// A collateral token with the given initial supply.
    pub fn new(params: NewReserveCollateralParams) -> (r: Self)
        ensures
            r.mint_pubkey == params.mint_pubkey,
            r.supply_vault == params.supply_vault,
            r.mint_total_supply == params.initial_collateral_supply,
    {
        ReserveCollateral {
            mint_pubkey: params.mint_pubkey,
            mint_total_supply: params.initial_collateral_supply,
            supply_vault: params.supply_vault,
        }
    }

    /// Records newly minted collateral; an error on overflow.
    pub fn mint(&mut self, collateral_amount: u64) -> (r: Result<(), LendingError>)
        ensures
            old(self).mint_total_supply + collateral_amount <= u64::MAX ==> r == Ok::<
                (),
                LendingError,
            >(()) && final(self).mint_total_supply == old(self).mint_total_supply
                + collateral_amount,
            old(self).mint_total_supply + collateral_amount > u64::MAX ==> r == Err::<
                (),
                LendingError,
            >(LendingError::MathOverflow) && final(self).mint_total_supply == old(self).mint_total_supply,
            final(self).mint_pubkey == old(self).mint_pubkey,
            final(self).supply_vault == old(self).supply_vault,
    {
        match self.mint_total_supply.checked_add(collateral_amount) {
            Some(v) => {
                self.mint_total_supply = v;
                Ok(())
            },
            None => Err(LendingError::MathOverflow),
        }
    }

    /// Records burnt collateral; an error when more than the supply is burnt.
    pub fn burn(&mut self, collateral_amount: u64) -> (r: Result<(), LendingError>)
        ensures
            collateral_amount <= old(self).mint_total_supply ==> r == Ok::<(), LendingError>(())
                && final(self).mint_total_supply == old(self).mint_total_supply
                - collateral_amount,
            collateral_amount > old(self).mint_total_supply ==> r == Err::<(), LendingError>(
                LendingError::MathOverflow,
            ) && final(self).mint_total_supply == old(self).mint_total_supply,
            final(self).mint_pubkey == old(self).mint_pubkey,
            final(self).supply_vault == old(self).supply_vault,
    {
        match self.mint_total_supply.checked_sub(collateral_amount) {
            Some(v) => {
                self.mint_total_supply = v;
                Ok(())
            },
            None => Err(LendingError::MathOverflow),
        }
    }

    /// The exchange rate given the reserve's total liquidity: one-to-one while
    /// either side is empty.
    pub fn exchange_rate(&self, total_liquidity: Fraction) -> (r: CollateralExchangeRate)
        ensures
            self.mint_total_supply == 0 || total_liquidity.val() == 0 ==> r.collateral_supply == 1
                && r.liquidity.val() == scale(),
            !(self.mint_total_supply == 0 || total_liquidity.val() == 0) ==> r.collateral_supply
                == self.mint_total_supply && r.liquidity == total_liquidity,
    {
        if self.mint_total_supply == 0 || total_liquidity.bits == 0 {
            CollateralExchangeRate::one()
        } else {
            CollateralExchangeRate::from_supply_and_liquidity(
                self.mint_total_supply,
                total_liquidity,
            )
        }
    }
}

// ---------------------------------------------------------------------------
// Interest compounding
// ---------------------------------------------------------------------------

/// Rounded-down product of two scaled values (an abbreviation).
pub open spec fn m(a: int, b: int) -> int {
    spec_mul(a, b)
}

/// `(1 + rate / slots_per_year)^slots`, approximated: exactly for up to four
/// slots, by the first three terms of the binomial expansion beyond.
pub open spec fn spec_compounded(rate: int, slots: int) -> int {
    let b = rate / (SLOTS_PER_YEAR as int);
    let o = scale() + b;
    if slots == 0 {
        scale()
    } else if slots == 1 {
        o
    } else if slots == 2 {
        m(o, o)
    } else if slots == 3 {
        m(m(o, o), o)
    } else if slots == 4 {
        m(m(o, o), m(o, o))
    } else {
        let b2 = m(b, b);
        let b3 = m(b2, b);
        scale() + b * slots + b2 * slots * (slots - 1) / 2 + b3 * slots * (slots - 1) * (slots
            - 2) / 6
    }
}

/// The compounding computation stays within 128 bits.
pub open spec fn compounded_fits(rate: int, slots: int) -> bool {
    let b = rate / (SLOTS_PER_YEAR as int);
    let o = scale() + b;
    if slots <= 1 {
        true
    } else if slots <= 4 {
        &&& m(o, o) <= u128::MAX
        &&& slots == 3 ==> m(m(o, o), o) <= u128::MAX
        &&& slots == 4 ==> m(m(o, o), m(o, o)) <= u128::MAX
    } else {
        let b2 = m(b, b);
        let b3 = m(b2, b);
        &&& b2 <= u128::MAX
        &&& b3 <= u128::MAX
        &&& b * slots <= u128::MAX
        &&& b2 * slots * (slots - 1) <= u128::MAX
        &&& b3 * slots * (slots - 1) * (slots - 2) <= u128::MAX
        &&& scale() + b * slots + b2 * slots * (slots - 1) / 2 + b3 * slots * (slots - 1) * (
        slots - 2) / 6 <= u128::MAX
    }
}

/// The compound factor `(1 + rate / slots_per_year)^elapsed_slots`: exact up
/// to four slots, a three-term binomial approximation beyond.
pub fn approximate_compounded_interest(rate: Fraction, elapsed_slots: u64) -> (r: Fraction)
    requires
        compounded_fits(rate.val(), elapsed_slots as int),
    ensures
        r.val() == spec_compounded(rate.val(), elapsed_slots as int),
{
    let base = rate.div_int(SLOTS_PER_YEAR as u128);
    proof {
        assert(base.val() <= u128::MAX / 63072000);
    }
    let one_plus = Fraction::one().add(base);
    if elapsed_slots == 0 {
        return Fraction::one();
    } else if elapsed_slots == 1 {
        return one_plus;
    } else if elapsed_slots == 2 {
        return one_plus.mul(one_plus);
    } else if elapsed_slots == 3 {
        return one_plus.mul(one_plus).mul(one_plus);
    } else if elapsed_slots == 4 {
        let pow_two = one_plus.mul(one_plus);
        return pow_two.mul(pow_two);
    }
    let exp = elapsed_slots as u128;
    let exp_minus_one = exp - 1;
    let exp_minus_two = exp - 2;
    let base_power_two = base.mul(base);
    let base_power_three = base_power_two.mul(base);
    proof {
        lemma_nonneg_mul3(base_power_two.val(), exp as int, exp_minus_one as int);
        lemma_nonneg_mul3(base_power_three.val(), exp as int, exp_minus_one as int);
        lemma_nonneg_mul3(
            base_power_three.val() * exp * exp_minus_one,
            exp_minus_two as int,
            1,
        );
        assert(base_power_two.val() * exp <= base_power_two.val() * exp * exp_minus_one)
            by (nonlinear_arith)
            requires
                base_power_two.val() >= 0,
                exp >= 0,
                exp_minus_one >= 1,
        ;
        assert(base_power_three.val() * exp <= base_power_three.val() * exp * exp_minus_one)
            by (nonlinear_arith)
            requires
                base_power_three.val() >= 0,
                exp >= 0,
                exp_minus_one >= 1,
        ;
        assert(base_power_three.val() * exp * exp_minus_one <= base_power_three.val() * exp
            * exp_minus_one * exp_minus_two) by (nonlinear_arith)
            requires
                base_power_three.val() * exp * exp_minus_one >= 0,
                exp_minus_two >= 1,
        ;
        assert(base.val() * exp >= 0) by (nonlinear_arith)
            requires
                base.val() >= 0,
                exp >= 0,
        ;
    }
    let first_term = base.mul_int(exp);
    let second_term = base_power_two.mul_int(exp).mul_int(exp_minus_one).div_int(2);
    let third_term = base_power_three.mul_int(exp).mul_int(exp_minus_one).mul_int(
        exp_minus_two,
    ).div_int(6);
    proof {
        assert(second_term.val() >= 0 && third_term.val() >= 0);
    }
    Fraction::one().add(first_term).add(second_term).add(third_term)
}

// ---------------------------------------------------------------------------
// Liquidity
// ---------------------------------------------------------------------------

/// The reserve's liquidity token: what is available, what is borrowed, and
/// the fees set aside.
#[derive(Clone, Copy, Debug)]
pub struct ReserveLiquidity {
    pub mint_pubkey: Pubkey,
    pub supply_vault: Pubkey,
    pub fee_vault: Pubkey,
    pub available_amount: u64,
    pub borrowed_amount_sf: u128,
    pub market_price_sf: u128,
    pub market_price_last_updated_ts: u64,
    pub mint_decimals: u64,
    pub deposit_limit_crossed_timestamp: u64,
    pub borrow_limit_crossed_timestamp: u64,
    pub cumulative_borrow_rate_bsf: BigFractionBytes,
    pub accumulated_protocol_fees_sf: u128,
    pub accumulated_referrer_fees_sf: u128,
    pub pending_referrer_fees_sf: u128,
    pub absolute_referral_rate_sf: u128,
    pub token_program: Pubkey,
}

/// Parameters of a new reserve's liquidity.
#[derive(Clone, Copy, Debug)]
pub struct NewReserveLiquidityParams {
    pub mint_pubkey: Pubkey,
    pub mint_decimals: u8,
    pub mint_token_program: Pubkey,
    pub supply_vault: Pubkey,
    pub fee_vault: Pubkey,
    pub market_price_sf: u128,
    pub initial_amount_deposited_in_reserve: u64,
}

/// Everything the suppliers own: available and borrowed liquidity, minus the
/// fees set aside for the protocol and the referrers.
pub open spec fn total_supply_val(l: ReserveLiquidity) -> int {
    l.available_amount * scale() + l.borrowed_amount_sf - l.accumulated_protocol_fees_sf
        - l.accumulated_referrer_fees_sf - l.pending_referrer_fees_sf
}

/// The total supply is representable and not negative.
pub open spec fn supply_computable(l: ReserveLiquidity) -> bool {
    &&& l.available_amount * scale() + l.borrowed_amount_sf <= u128::MAX
    &&& total_supply_val(l) >= 0
}

/// The share of the total supply that is borrowed, or `0` for an empty
/// reserve.
pub open spec fn utilization_val(l: ReserveLiquidity) -> int {
    if total_supply_val(l) == 0 {
        0
    } else {
        spec_div(l.borrowed_amount_sf as int, total_supply_val(l))
    }
}

/// All fields but the amounts are equal.
pub open spec fn same_identity(a: ReserveLiquidity, b: ReserveLiquidity) -> bool {
    &&& a.mint_pubkey == b.mint_pubkey
    &&& a.supply_vault == b.supply_vault
    &&& a.fee_vault == b.fee_vault
    &&& a.market_price_sf == b.market_price_sf
    &&& a.market_price_last_updated_ts == b.market_price_last_updated_ts
    &&& a.mint_decimals == b.mint_decimals
    &&& a.deposit_limit_crossed_timestamp == b.deposit_limit_crossed_timestamp
    &&& a.borrow_limit_crossed_timestamp == b.borrow_limit_crossed_timestamp
    &&& a.token_program == b.token_program
}

/// Only the available amount may differ.
pub open spec fn only_available_changed(a: ReserveLiquidity, b: ReserveLiquidity) -> bool {
    &&& same_identity(a, b)
    &&& a.cumulative_borrow_rate_bsf == b.cumulative_borrow_rate_bsf
    &&& a.borrowed_amount_sf == b.borrowed_amount_sf
    &&& a.accumulated_protocol_fees_sf == b.accumulated_protocol_fees_sf
    &&& a.accumulated_referrer_fees_sf == b.accumulated_referrer_fees_sf
    &&& a.pending_referrer_fees_sf == b.pending_referrer_fees_sf
    &&& a.absolute_referral_rate_sf == b.absolute_referral_rate_sf
}

/// The amounts after compounding interest over some slots.
pub struct CompoundedState {
    pub cumulative_borrow_rate: int,
    pub borrowed: int,
    pub protocol_fees: int,
    pub pending_referrer_fees: int,
    pub absolute_referral_rate: int,
}

/// What compounding interest does: the debt grows by the compound factor of
/// the borrow rate plus the host's fixed rate; the fixed-rate part and the
/// protocol's take of the variable part go to the protocol's fees, of which
/// the referrers' share is set aside as pending.
pub open spec fn spec_compound(
    l: ReserveLiquidity,
    borrow_rate: int,
    host_rate: int,
    slots: int,
    take_rate: int,
    referral_rate: int,
) -> CompoundedState {
    let ci = spec_compounded(borrow_rate + host_rate, slots);
    let cf = spec_compounded(host_rate, slots);
    let prev = l.borrowed_amount_sf as int;
    let new_debt = m(prev, ci);
    let fixed_host_fee = m(prev, cf) - prev;
    let net = new_debt - prev - fixed_host_fee;
    let variable_fee = m(net, take_rate);
    let abs_ref = m(take_rate, referral_rate);
    let max_ref = m(net, abs_ref);
    CompoundedState {
        cumulative_borrow_rate: limbs_val(l.cumulative_borrow_rate_bsf.value@) * ci / scale(),
        borrowed: new_debt,
        protocol_fees: l.accumulated_protocol_fees_sf + fixed_host_fee + variable_fee - max_ref,
        pending_referrer_fees: l.pending_referrer_fees_sf + max_ref,
        absolute_referral_rate: abs_ref,
    }
}

/// The compounding computation does not overflow or go negative.
pub open spec fn compound_computable(
    l: ReserveLiquidity,
    borrow_rate: int,
    host_rate: int,
    slots: int,
    take_rate: int,
    referral_rate: int,
) -> bool {
    let ci = spec_compounded(borrow_rate + host_rate, slots);
    let cf = spec_compounded(host_rate, slots);
    let prev = l.borrowed_amount_sf as int;
    let new_debt = m(prev, ci);
    let fixed_host_fee = m(prev, cf) - prev;
    let net = new_debt - prev - fixed_host_fee;
    let variable_fee = m(net, take_rate);
    let abs_ref = m(take_rate, referral_rate);
    let max_ref = m(net, abs_ref);
    &&& borrow_rate + host_rate <= u128::MAX
    &&& compounded_fits(borrow_rate + host_rate, slots)
    &&& compounded_fits(host_rate, slots)
    &&& limbs_val(l.cumulative_borrow_rate_bsf.value@) * ci < p256()
    &&& new_debt <= u128::MAX
    &&& m(prev, cf) <= u128::MAX
    &&& fixed_host_fee >= 0
    &&& net >= 0
    &&& variable_fee <= u128::MAX
    &&& abs_ref <= u128::MAX
    &&& max_ref <= u128::MAX
    &&& l.accumulated_protocol_fees_sf + fixed_host_fee + variable_fee <= u128::MAX
    &&& l.accumulated_protocol_fees_sf + fixed_host_fee + variable_fee - max_ref >= 0
    &&& l.pending_referrer_fees_sf + max_ref <= u128::MAX
}

proof fn lemma_spec_mul_nonneg(a: int, b: int)
    requires
        0 <= a,
        0 <= b,
    ensures
        0 <= spec_mul(a, b),
{
    assert(0 <= a * b / scale()) by (nonlinear_arith)
        requires
            0 <= a,
            0 <= b,
            scale() > 0,
    ;
}

impl ReserveLiquidity {
    /// A reserve's liquidity, holding the initial deposit, with no debt and
    /// a cumulative borrow rate of one.
    pub fn new(params: NewReserveLiquidityParams) -> (r: Self)
        ensures
            r.mint_pubkey == params.mint_pubkey,
            r.mint_decimals == params.mint_decimals,
            r.token_program == params.mint_token_program,
            r.supply_vault == params.supply_vault,
            r.fee_vault == params.fee_vault,
            r.available_amount == params.initial_amount_deposited_in_reserve,
            r.borrowed_amount_sf == 0,
            limbs_val(r.cumulative_borrow_rate_bsf.value@) == scale(),
            r.accumulated_protocol_fees_sf == 0,
            r.market_price_sf == params.market_price_sf,
            r.deposit_limit_crossed_timestamp == 0,
            r.borrow_limit_crossed_timestamp == 0,
            r.accumulated_referrer_fees_sf == 0,
            r.pending_referrer_fees_sf == 0,
            r.absolute_referral_rate_sf == 0,
            r.market_price_last_updated_ts == 0,
    {
        ReserveLiquidity {
            mint_pubkey: params.mint_pubkey,
            mint_decimals: params.mint_decimals as u64,
            supply_vault: params.supply_vault,
            fee_vault: params.fee_vault,
            available_amount: params.initial_amount_deposited_in_reserve,
            borrowed_amount_sf: 0,
            cumulative_borrow_rate_bsf: BigFractionBytes::from_big_fraction(
                BigFraction::from_fraction(Fraction::one()),
            ),
            accumulated_protocol_fees_sf: 0,
            market_price_sf: params.market_price_sf,
            deposit_limit_crossed_timestamp: 0,
            borrow_limit_crossed_timestamp: 0,
            accumulated_referrer_fees_sf: 0,
            pending_referrer_fees_sf: 0,
            absolute_referral_rate_sf: 0,
            market_price_last_updated_ts: 0,
            token_program: params.mint_token_program,
        }
    }

    /// Available plus borrowed liquidity, minus the fees set aside.
    pub fn total_supply(&self) -> (r: Fraction)
        requires
            supply_computable(*self),
        ensures
            r.val() == total_supply_val(*self),
    {
        Fraction::from_num(self.available_amount).add(Fraction::from_bits(self.borrowed_amount_sf)).sub(
            Fraction::from_bits(self.accumulated_protocol_fees_sf),
        ).sub(Fraction::from_bits(self.accumulated_referrer_fees_sf)).sub(
            Fraction::from_bits(self.pending_referrer_fees_sf),
        )
    }

    /// The borrowed liquidity.
    pub fn total_borrow(&self) -> (r: Fraction)
        ensures
            r.val() == self.borrowed_amount_sf,
    {
        Fraction::from_bits(self.borrowed_amount_sf)
    }

    /// Adds deposited liquidity; an error on overflow.
    pub fn deposit(&mut self, liquidity_amount: u64) -> (r: Result<(), LendingError>)
        ensures
            only_available_changed(*old(self), *final(self)),
            old(self).available_amount + liquidity_amount <= u64::MAX ==> r == Ok::<
                (),
                LendingError,
            >(()) && final(self).available_amount == old(self).available_amount
                + liquidity_amount,
            old(self).available_amount + liquidity_amount > u64::MAX ==> r == Err::<
                (),
                LendingError,
            >(LendingError::MathOverflow) && final(self).available_amount == old(self).available_amount,
    {
        match self.available_amount.checked_add(liquidity_amount) {
            Some(v) => {
                self.available_amount = v;
                Ok(())
            },
            None => Err(LendingError::MathOverflow),
        }
    }

    /// Removes withdrawn liquidity; an error when more than is available.
    pub fn withdraw(&mut self, liquidity_amount: u64) -> (r: Result<(), LendingError>)
        ensures
            only_available_changed(*old(self), *final(self)),
            liquidity_amount <= old(self).available_amount ==> r == Ok::<(), LendingError>(())
                && final(self).available_amount == old(self).available_amount
                - liquidity_amount,
            liquidity_amount > old(self).available_amount ==> r == Err::<(), LendingError>(
                LendingError::InsufficientLiquidity,
            ) && final(self).available_amount == old(self).available_amount,
    {
        if liquidity_amount > self.available_amount {
            return Err(LendingError::InsufficientLiquidity);
        }
        self.available_amount = self.available_amount - liquidity_amount;
        Ok(())
    }

    /// Lends out liquidity: the whole tokens leave the available amount and
    /// the exact amount joins the debt; an error when not enough is available.
    pub fn borrow(&mut self, borrow_f: Fraction) -> (r: Result<(), LendingError>)
        requires
            floor_int(borrow_f.val()) <= u64::MAX,
            floor_int(borrow_f.val()) <= old(self).available_amount ==> old(self).borrowed_amount_sf + borrow_f.val() <= u128::MAX,
        ensures
            same_identity(*old(self), *final(self)),
            final(self).cumulative_borrow_rate_bsf == old(self).cumulative_borrow_rate_bsf,
            final(self).accumulated_protocol_fees_sf == old(self).accumulated_protocol_fees_sf,
            final(self).accumulated_referrer_fees_sf == old(self).accumulated_referrer_fees_sf,
            final(self).pending_referrer_fees_sf == old(self).pending_referrer_fees_sf,
            final(self).absolute_referral_rate_sf == old(self).absolute_referral_rate_sf,
            floor_int(borrow_f.val()) > old(self).available_amount ==> r == Err::<
                (),
                LendingError,
            >(LendingError::InsufficientLiquidity) && *final(self) == *old(self),
            floor_int(borrow_f.val()) <= old(self).available_amount ==> r == Ok::<
                (),
                LendingError,
            >(()) && final(self).available_amount == old(self).available_amount - floor_int(
                borrow_f.val(),
            ) && final(self).borrowed_amount_sf == old(self).borrowed_amount_sf + borrow_f.val(),
    {
        let borrow_amount = borrow_f.to_floor();
        if borrow_amount > self.available_amount {
            return Err(LendingError::InsufficientLiquidity);
        }
        let borrowed_amount_f = Fraction::from_bits(self.borrowed_amount_sf);
        self.available_amount = self.available_amount - borrow_amount;
        self.borrowed_amount_sf = borrowed_amount_f.add(borrow_f).to_bits();
        Ok(())
    }

    /// Takes back repaid liquidity: the tokens join the available amount and
    /// the settled amount, at most the whole debt, leaves the debt; an error
    /// on overflow of the available amount.
    pub fn repay(&mut self, repay_amount: u64, settle_amount: Fraction) -> (r: Result<
        (),
        LendingError,
    >)
        ensures
            same_identity(*old(self), *final(self)),
            final(self).cumulative_borrow_rate_bsf == old(self).cumulative_borrow_rate_bsf,
            final(self).accumulated_protocol_fees_sf == old(self).accumulated_protocol_fees_sf,
            final(self).accumulated_referrer_fees_sf == old(self).accumulated_referrer_fees_sf,
            final(self).pending_referrer_fees_sf == old(self).pending_referrer_fees_sf,
            final(self).absolute_referral_rate_sf == old(self).absolute_referral_rate_sf,
            old(self).available_amount + repay_amount > u64::MAX ==> r == Err::<(), LendingError>(
                LendingError::MathOverflow,
            ) && *final(self) == *old(self),
            old(self).available_amount + repay_amount <= u64::MAX ==> r == Ok::<(), LendingError>(
                (),
            ) && final(self).available_amount == old(self).available_amount + repay_amount
                && final(self).borrowed_amount_sf == if settle_amount.val() <= old(self).borrowed_amount_sf {
                old(self).borrowed_amount_sf - settle_amount.val()
            } else {
                0
            },
    {
        let available = match self.available_amount.checked_add(repay_amount) {
            Some(v) => v,
            None => return Err(LendingError::MathOverflow),
        };
        self.available_amount = available;
        let borrowed_amount_f = Fraction::from_bits(self.borrowed_amount_sf);
        let safe_settle_amount = settle_amount.min(borrowed_amount_f);
        self.borrowed_amount_sf = borrowed_amount_f.sub(safe_settle_amount).to_bits();
        Ok(())
    }

    /// Pays out protocol fees: they leave the available amount and the
    /// accumulated protocol fees; an error when either is too small (the
    /// available amount is reduced already when only the fees are too small).
    pub fn redeem_fees(&mut self, withdraw_amount: u64) -> (r: Result<(), LendingError>)
        ensures
            same_identity(*old(self), *final(self)),
            final(self).cumulative_borrow_rate_bsf == old(self).cumulative_borrow_rate_bsf,
            final(self).borrowed_amount_sf == old(self).borrowed_amount_sf,
            final(self).accumulated_referrer_fees_sf == old(self).accumulated_referrer_fees_sf,
            final(self).pending_referrer_fees_sf == old(self).pending_referrer_fees_sf,
            final(self).absolute_referral_rate_sf == old(self).absolute_referral_rate_sf,
            withdraw_amount > old(self).available_amount ==> r == Err::<(), LendingError>(
                LendingError::MathOverflow,
            ) && *final(self) == *old(self),
            withdraw_amount <= old(self).available_amount ==> final(self).available_amount == old(self).available_amount - withdraw_amount,
            withdraw_amount <= old(self).available_amount && withdraw_amount * scale() > old(self).accumulated_protocol_fees_sf ==> r == Err::<(), LendingError>(
                LendingError::MathOverflow,
            ) && final(self).accumulated_protocol_fees_sf == old(self).accumulated_protocol_fees_sf,
            withdraw_amount <= old(self).available_amount && withdraw_amount * scale() <= old(self).accumulated_protocol_fees_sf ==> r == Ok::<(), LendingError>(()) && final(self).accumulated_protocol_fees_sf == old(self).accumulated_protocol_fees_sf
                - withdraw_amount * scale(),
    {
        let available = match self.available_amount.checked_sub(withdraw_amount) {
            Some(v) => v,
            None => return Err(LendingError::MathOverflow),
        };
        self.available_amount = available;
        let accumulated_protocol_fees_f = Fraction::from_bits(self.accumulated_protocol_fees_sf);
        let withdraw_amount_f = Fraction::from_num(withdraw_amount);
        match accumulated_protocol_fees_f.checked_sub(withdraw_amount_f) {
            Some(v) => {
                self.accumulated_protocol_fees_sf = v.to_bits();
                Ok(())
            },
            None => Err(LendingError::MathOverflow),
        }
    }

    /// Borrowed share of the total supply; zero for an empty reserve.
    pub fn utilization_rate(&self) -> (r: Fraction)
        requires
            supply_computable(*self),
            utilization_val(*self) <= u128::MAX,
        ensures
            r.val() == utilization_val(*self),
    {
        let total_supply = self.total_supply();
        if total_supply.bits == 0 {
            return Fraction::zero();
        }
        Fraction::from_bits(self.borrowed_amount_sf).div(total_supply)
    }

    /// `10^decimals` of the liquidity token.
    pub fn mint_factor(&self) -> (r: u64)
        requires
            self.mint_decimals <= 19,
        ensures
            r == pow10(self.mint_decimals as nat),
    {
        ten_pow(self.mint_decimals as usize)
    }

    /// Compounds the debt over `slots_elapsed` slots and splits the interest
    /// between suppliers, protocol and referrers.
    fn compound_interest(
        &mut self,
        current_borrow_rate: Fraction,
        host_fixed_interest_rate: Fraction,
        slots_elapsed: u64,
        protocol_take_rate: Fraction,
        referral_rate: Fraction,
    ) -> (r: Result<(), LendingError>)
        requires
            compound_computable(
                *old(self),
                current_borrow_rate.val(),
                host_fixed_interest_rate.val(),
                slots_elapsed as int,
                protocol_take_rate.val(),
                referral_rate.val(),
            ),
        ensures
            r is Ok,
            same_identity(*old(self), *final(self)),
            final(self).available_amount == old(self).available_amount,
            final(self).accumulated_referrer_fees_sf == old(self).accumulated_referrer_fees_sf,
            ({
                let c = spec_compound(
                    *old(self),
                    current_borrow_rate.val(),
                    host_fixed_interest_rate.val(),
                    slots_elapsed as int,
                    protocol_take_rate.val(),
                    referral_rate.val(),
                );
                &&& limbs_val(final(self).cumulative_borrow_rate_bsf.value@)
                    == c.cumulative_borrow_rate
                &&& final(self).borrowed_amount_sf == c.borrowed
                &&& final(self).accumulated_protocol_fees_sf == c.protocol_fees
                &&& final(self).pending_referrer_fees_sf == c.pending_referrer_fees
                &&& final(self).absolute_referral_rate_sf == c.absolute_referral_rate
            }),
    {
        let previous_cumulative_borrow_rate = self.cumulative_borrow_rate_bsf.to_big_fraction();
        let previous_debt_f = Fraction::from_bits(self.borrowed_amount_sf);
        let acc_protocol_fees_f = Fraction::from_bits(self.accumulated_protocol_fees_sf);
        let compounded_interest_rate = approximate_compounded_interest(
            current_borrow_rate.add(host_fixed_interest_rate),
            slots_elapsed,
        );
        let compounded_fixed_rate = approximate_compounded_interest(
            host_fixed_interest_rate,
            slots_elapsed,
        );
        let new_cumulative_borrow_rate = previous_cumulative_borrow_rate.mul(
            BigFraction::from_fraction(compounded_interest_rate),
        );
        let new_debt_f = previous_debt_f.mul(compounded_interest_rate);
        let fixed_host_fee = previous_debt_f.mul(compounded_fixed_rate).sub(previous_debt_f);
        let net_new_variable_debt_f = new_debt_f.sub(previous_debt_f).sub(fixed_host_fee);
        let variable_protocol_fee_f = net_new_variable_debt_f.mul(protocol_take_rate);
        let absolute_referral_rate = protocol_take_rate.mul(referral_rate);
        let max_referrers_fees_f = net_new_variable_debt_f.mul(absolute_referral_rate);
        let new_acc_protocol_fees_f = acc_protocol_fees_f.add(fixed_host_fee).add(
            variable_protocol_fee_f,
        ).sub(max_referrers_fees_f);
        self.cumulative_borrow_rate_bsf = BigFractionBytes::from_big_fraction(
            new_cumulative_borrow_rate,
        );
        self.pending_referrer_fees_sf = self.pending_referrer_fees_sf
            + max_referrers_fees_f.to_bits();
        self.accumulated_protocol_fees_sf = new_acc_protocol_fees_f.to_bits();
        self.borrowed_amount_sf = new_debt_f.to_bits();
        self.absolute_referral_rate_sf = absolute_referral_rate.to_bits();
        Ok(())
    }

    /// Writes off part of the debt; the caller guarantees it is at most the
    /// whole debt.
    pub fn forgive_debt(&mut self, liquidity_amount: Fraction)
        requires
            liquidity_amount.val() <= old(self).borrowed_amount_sf,
        ensures
            final(self).borrowed_amount_sf == old(self).borrowed_amount_sf
                - liquidity_amount.val(),
            final(self).available_amount == old(self).available_amount,
            same_identity(*old(self), *final(self)),
            final(self).cumulative_borrow_rate_bsf == old(self).cumulative_borrow_rate_bsf,
            final(self).accumulated_protocol_fees_sf == old(self).accumulated_protocol_fees_sf,
            final(self).accumulated_referrer_fees_sf == old(self).accumulated_referrer_fees_sf,
            final(self).pending_referrer_fees_sf == old(self).pending_referrer_fees_sf,
            final(self).absolute_referral_rate_sf == old(self).absolute_referral_rate_sf,
    {
        let amt = Fraction::from_bits(self.borrowed_amount_sf);
        let new_amt = amt.sub(liquidity_amount);
        self.borrowed_amount_sf = new_amt.to_bits();
    }

    /// Pays out a referrer's fees: they leave the available amount, the
    /// accumulated referrer fees and the referrer's unclaimed amount; an error
    /// at the first of these that is too small, with the earlier ones already
    /// reduced.
    pub fn withdraw_referrer_fees(
        &mut self,
        withdraw_amount: u64,
        referrer_token_state: &mut ReferrerTokenState,
    ) -> (r: Result<(), LendingError>)
        ensures
            same_identity(*old(self), *final(self)),
            final(self).borrowed_amount_sf == old(self).borrowed_amount_sf,
            final(self).accumulated_protocol_fees_sf == old(self).accumulated_protocol_fees_sf,
            final(self).pending_referrer_fees_sf == old(self).pending_referrer_fees_sf,
            final(self).cumulative_borrow_rate_bsf == old(self).cumulative_borrow_rate_bsf,
            final(self).absolute_referral_rate_sf == old(self).absolute_referral_rate_sf,
            final(referrer_token_state).referrer == old(referrer_token_state).referrer,
            final(referrer_token_state).mint == old(referrer_token_state).mint,
            final(referrer_token_state).amount_cumulative_sf == old(referrer_token_state).amount_cumulative_sf,
            final(referrer_token_state).bump == old(referrer_token_state).bump,
            final(referrer_token_state).padding == old(referrer_token_state).padding,
            withdraw_amount > old(self).available_amount ==> r == Err::<(), LendingError>(
                LendingError::MathOverflow,
            ) && *final(self) == *old(self) && *final(referrer_token_state) == *old(referrer_token_state),
            withdraw_amount <= old(self).available_amount ==> final(self).available_amount == old(self).available_amount - withdraw_amount,
            withdraw_amount <= old(self).available_amount && withdraw_amount * scale() > old(self).accumulated_referrer_fees_sf ==> r == Err::<(), LendingError>(
                LendingError::MathOverflow,
            ) && final(self).accumulated_referrer_fees_sf == old(self).accumulated_referrer_fees_sf && *final(referrer_token_state) == *old(referrer_token_state),
            withdraw_amount <= old(self).available_amount && withdraw_amount * scale() <= old(self).accumulated_referrer_fees_sf ==> final(self).accumulated_referrer_fees_sf == old(self).accumulated_referrer_fees_sf - withdraw_amount * scale(),
            withdraw_amount <= old(self).available_amount && withdraw_amount * scale() <= old(self).accumulated_referrer_fees_sf && withdraw_amount * scale() > old(referrer_token_state).amount_unclaimed_sf ==> r == Err::<(), LendingError>(LendingError::MathOverflow)
                && *final(referrer_token_state) == *old(referrer_token_state),
            withdraw_amount <= old(self).available_amount && withdraw_amount * scale() <= old(self).accumulated_referrer_fees_sf && withdraw_amount * scale() <= old(referrer_token_state).amount_unclaimed_sf ==> r == Ok::<(), LendingError>(()) && final(referrer_token_state).amount_unclaimed_sf == old(referrer_token_state).amount_unclaimed_sf
                - withdraw_amount * scale(),
    {
        let available = match self.available_amount.checked_sub(withdraw_amount) {
            Some(v) => v,
            None => return Err(LendingError::MathOverflow),
        };
        self.available_amount = available;
        let accumulated_referrer_fees_f = Fraction::from_bits(self.accumulated_referrer_fees_sf);
        let withdraw_amount_f = Fraction::from_num(withdraw_amount);
        let new_accumulated_referrer_fees_f = match accumulated_referrer_fees_f.checked_sub(
            withdraw_amount_f,
        ) {
            Some(v) => v,
            None => return Err(LendingError::MathOverflow),
        };
        self.accumulated_referrer_fees_sf = new_accumulated_referrer_fees_f.to_bits();
        let referrer_amount_unclaimed_f = Fraction::from_bits(
            referrer_token_state.amount_unclaimed_sf,
        );
        let new_referrer_amount_unclaimed_f = match referrer_amount_unclaimed_f.checked_sub(
            withdraw_amount_f,
        ) {
            Some(v) => v,
            None => return Err(LendingError::MathOverflow),
        };
        referrer_token_state.amount_unclaimed_sf = new_referrer_amount_unclaimed_f.to_bits();
        Ok(())
    }

    /// The token's market price.
    pub fn get_market_price(&self) -> (r: Fraction)
        ensures
            r.val() == self.market_price_sf,
    {
        Fraction::from_bits(self.market_price_sf)
    }
}

// ---------------------------------------------------------------------------
// Configuration
// ---------------------------------------------------------------------------

/// Whether a reserve can be used.
#[derive(Clone, Copy, Debug, PartialEq, Eq, Structural)]
pub enum ReserveStatus {
    Active,
    Obsolete,
    Hidden,
}

/// How a reserve's token may be combined with others in an obligation.
#[derive(Clone, Copy, Debug, PartialEq, Eq, Structural)]
pub enum AssetTier {
    Regular,
    IsolatedCollateral,
    IsolatedDebt,
}

/// Which farm of a reserve.
#[derive(Clone, Copy, Debug, PartialEq, Eq, Structural)]
pub enum ReserveFarmKind {
    Collateral,
    Debt,
}

/// A reserve's risk and fee parameters.
#[derive(Clone, Copy, Debug)]
pub struct ReserveConfig {
    pub status: u8,
    pub asset_tier: u8,
    pub host_fixed_interest_rate_bps: u16,
    pub min_deleveraging_bonus_bps: u16,
    pub reserved_1: [u8; 7],
    pub protocol_order_execution_fee_pct: u8,
    pub protocol_take_rate_pct: u8,
    pub protocol_liquidation_fee_pct: u8,
    pub loan_to_value_pct: u8,
    pub liquidation_threshold_pct: u8,
    pub min_liquidation_bonus_bps: u16,
    pub max_liquidation_bonus_bps: u16,
    pub bad_debt_liquidation_bonus_bps: u16,
    pub deleveraging_margin_call_period_secs: u64,
    pub deleveraging_threshold_decrease_bps_per_day: u64,
    pub fees: ReserveFees,
    pub borrow_rate_curve: BorrowRateCurve,
    pub borrow_factor_pct: u64,
    pub deposit_limit: u64,
    pub borrow_limit: u64,
    pub token_info: TokenInfo,
    pub deposit_withdrawal_cap: WithdrawalCaps,
    pub debt_withdrawal_cap: WithdrawalCaps,
    pub elevation_groups: [u8; 20],
    pub disable_usage_as_coll_outside_emode: u8,
    pub utilization_limit_block_borrowing_above_pct: u8,
    pub autodeleverage_enabled: u8,
    pub proposer_authority_locked: u8,
    pub borrow_limit_outside_elevation_group: u64,
    pub borrow_limit_against_this_collateral_in_elevation_group: [u64; 32],
    pub deleveraging_bonus_increase_bps_per_day: u64,
}

/// The borrow factor: the configured percentage, but at least one.
pub open spec fn spec_borrow_factor(c: ReserveConfig) -> int {
    if pct_val(c.borrow_factor_pct as int) >= scale() {
        pct_val(c.borrow_factor_pct as int)
    } else {
        scale()
    }
}

impl ReserveConfig {
    /// The asset tier; the stored byte must name one.
    pub fn get_asset_tier(&self) -> (r: AssetTier)
        requires
            self.asset_tier < 3,
        ensures
            self.asset_tier == 0 ==> r == AssetTier::Regular,
            self.asset_tier == 1 ==> r == AssetTier::IsolatedCollateral,
            self.asset_tier == 2 ==> r == AssetTier::IsolatedDebt,
    {
        if self.asset_tier == 0 {
            AssetTier::Regular
        } else if self.asset_tier == 1 {
            AssetTier::IsolatedCollateral
        } else {
            AssetTier::IsolatedDebt
        }
    }

    /// The borrow factor, at least one.
    pub fn get_borrow_factor(&self) -> (r: Fraction)
        ensures
            r.val() == spec_borrow_factor(*self),
    {
        Fraction::one().max(Fraction::from_percent(self.borrow_factor_pct))
    }

    /// The status; the stored byte must name one.
    pub fn status(&self) -> (r: ReserveStatus)
        requires
            self.status < 3,
        ensures
            self.status == 0 ==> r == ReserveStatus::Active,
            self.status == 1 ==> r == ReserveStatus::Obsolete,
            self.status == 2 ==> r == ReserveStatus::Hidden,
    {
        if self.status == 0 {
            ReserveStatus::Active
        } else if self.status == 1 {
            ReserveStatus::Obsolete
        } else {
            ReserveStatus::Hidden
        }
    }

    /// Whether automatic deleveraging is switched on.
    pub fn is_autodeleverage_enabled(&self) -> (r: bool)
        ensures
            r == (self.autodeleverage_enabled != 0),
    {
        self.autodeleverage_enabled != 0
    }

    /// The protocol's share of an order execution bonus.
    pub fn protocol_order_execution_fee_rate(&self) -> (r: Fraction)
        ensures
            r.val() == pct_val(self.protocol_order_execution_fee_pct as int),
    {
        Fraction::from_percent(self.protocol_order_execution_fee_pct as u64)
    }
}

// ---------------------------------------------------------------------------
// Reserve
// ---------------------------------------------------------------------------

/// A lending pool for one token.
#[derive(Clone, Copy, Debug)]
pub struct Reserve {
    pub version: u64,
    pub last_update: LastUpdate,
    pub lending_market: Pubkey,
    pub farm_collateral: Pubkey,
    pub farm_debt: Pubkey,
    pub liquidity: ReserveLiquidity,
    pub collateral: ReserveCollateral,
    pub config: ReserveConfig,
    pub borrowed_amount_outside_elevation_group: u64,
    pub borrowed_amounts_against_this_reserve_in_elevation_groups: [u64; 32],
}

/// The amounts in an accrual of interest up to `current_slot` fit their
/// machine types, and the borrow rate curve is well formed.
pub open spec fn accrue_computable(reserve: Reserve, current_slot: u64, referral_fee_bps: u16) -> bool {
    current_slot >= reserve.last_update.slot && current_slot - reserve.last_update.slot > 0 ==> {
        &&& supply_computable(reserve.liquidity)
        &&& utilization_val(reserve.liquidity) <= u128::MAX
        &&& valid_points(reserve.config.borrow_rate_curve.points@)
        &&& spec_borrow_rate(
            reserve.config.borrow_rate_curve.points@,
            utilization_val(reserve.liquidity),
        ) matches Ok(rate) ==> compound_computable(
            reserve.liquidity,
            rate,
            bps_val(reserve.config.host_fixed_interest_rate_bps as int),
            current_slot - reserve.last_update.slot,
            pct_val(reserve.config.protocol_take_rate_pct as int),
            bps_val(referral_fee_bps as int),
        )
    }
}

/// What an accrual of interest up to `current_slot` returns and makes of the
/// reserve's liquidity: an error for a slot before the last update, nothing
/// for the same slot, else the debt compounded at the curve's rate for the
/// reserve's utilisation (or the curve's error).
pub open spec fn spec_accrue_outcome(
    reserve: Reserve,
    new_liquidity: ReserveLiquidity,
    current_slot: u64,
    referral_fee_bps: u16,
    r: Result<(), LendingError>,
) -> bool {
    &&& current_slot < reserve.last_update.slot ==> r == Err::<(), LendingError>(
        LendingError::MathOverflow,
    ) && new_liquidity == reserve.liquidity
    &&& current_slot == reserve.last_update.slot ==> r == Ok::<(), LendingError>(())
        && new_liquidity == reserve.liquidity
    &&& current_slot > reserve.last_update.slot ==> match spec_borrow_rate(
        reserve.config.borrow_rate_curve.points@,
        utilization_val(reserve.liquidity),
    ) {
        Err(e) => r == Err::<(), LendingError>(e) && new_liquidity == reserve.liquidity,
        Ok(rate) => {
            let c = spec_compound(
                reserve.liquidity,
                rate,
                bps_val(reserve.config.host_fixed_interest_rate_bps as int),
                current_slot - reserve.last_update.slot,
                pct_val(reserve.config.protocol_take_rate_pct as int),
                bps_val(referral_fee_bps as int),
            );
            &&& r == Ok::<(), LendingError>(())
            &&& same_identity(reserve.liquidity, new_liquidity)
            &&& new_liquidity.available_amount == reserve.liquidity.available_amount
            &&& new_liquidity.accumulated_referrer_fees_sf
                == reserve.liquidity.accumulated_referrer_fees_sf
            &&& limbs_val(new_liquidity.cumulative_borrow_rate_bsf.value@)
                == c.cumulative_borrow_rate
            &&& new_liquidity.borrowed_amount_sf == c.borrowed
            &&& new_liquidity.accumulated_protocol_fees_sf == c.protocol_fees
            &&& new_liquidity.pending_referrer_fees_sf == c.pending_referrer_fees
            &&& new_liquidity.absolute_referral_rate_sf == c.absolute_referral_rate
        },
    }
}

/// Parameters of a new reserve.
#[derive(Clone, Copy, Debug)]
pub struct InitReserveParams {
    pub current_slot: u64,
    pub lending_market: Pubkey,
    pub liquidity: ReserveLiquidity,
    pub collateral: ReserveCollateral,
    pub config: ReserveConfig,
}

/// The reserve's collateral exchange rate.
pub open spec fn spec_exchange_rate(r: Reserve) -> CollateralExchangeRate {
    if r.collateral.mint_total_supply == 0 || total_supply_val(r.liquidity) == 0 {
        CollateralExchangeRate {
            collateral_supply: 1,
            liquidity: Fraction { bits: 1152921504606846976u128 },
        }
    } else {
        CollateralExchangeRate {
            collateral_supply: r.collateral.mint_total_supply as u128,
            liquidity: Fraction { bits: total_supply_val(r.liquidity) as u128 },
        }
    }
}

/// The borrow factor applying to a loan, one inside an elevation group.
pub open spec fn spec_borrow_factor_f(r: Reserve, is_in_elevation_group: bool) -> int {
    if is_in_elevation_group {
        scale()
    } else {
        spec_borrow_factor(r.config)
    }
}

/// The amount lendable when borrowing as much as allowed: the borrow-factor
/// adjusted value limit converted to tokens, capped by the reserve's remaining
/// borrow limit and its available liquidity.
pub open spec fn spec_all_available_amount(
    max_value: int,
    decimals: int,
    price: int,
    borrow_factor: int,
    remaining: int,
    available: int,
) -> int {
    let a = spec_div(spec_div(max_value * decimals, price), borrow_factor);
    let b = if a <= remaining {
        a
    } else {
        remaining
    };
    if b <= available * scale() {
        b
    } else {
        available * scale()
    }
}

/// Outcome of borrowing as much as allowed: borrowed amount (scaled),
/// received amount, protocol fee, referrer fee.
pub open spec fn spec_borrow_all_available(
    fee_sf: int,
    max_value: int,
    decimals: int,
    price: int,
    borrow_factor: int,
    remaining: int,
    available: int,
    referral_fee_bps: int,
    has_referrer: bool,
) -> Result<(int, int, int, int), LendingError> {
    let a = spec_all_available_amount(max_value, decimals, price, borrow_factor, remaining, available);
    match spec_calculate_fees(a, fee_sf, true, referral_fee_bps, has_referrer) {
        Err(e) => Err(e),
        Ok((p, f)) => Ok((a, floor_int(a) - p - f, p, f)),
    }
}

/// The computation of `spec_borrow_all_available` does not overflow.
pub open spec fn borrow_all_available_computable(
    fee_sf: int,
    max_value: int,
    decimals: int,
    price: int,
    borrow_factor: int,
    remaining: int,
    available: int,
    referral_fee_bps: int,
    has_referrer: bool,
) -> bool {
    let a = spec_all_available_amount(max_value, decimals, price, borrow_factor, remaining, available);
    &&& max_value * decimals <= u128::MAX
    &&& price != 0
    &&& spec_div(max_value * decimals, price) <= u128::MAX
    &&& borrow_factor != 0
    &&& spec_div(spec_div(max_value * decimals, price), borrow_factor) <= u128::MAX
    &&& fees_computable(a, fee_sf, true, referral_fee_bps, has_referrer)
    &&& match spec_calculate_fees(a, fee_sf, true, referral_fee_bps, has_referrer) {
        Ok((p, f)) => p + f <= floor_int(a),
        Err(_) => true,
    }
}

/// Outcome of borrowing exactly `receive` tokens: borrowed amount (scaled,
/// fees included), received amount, protocol fee, referrer fee; or why the
/// borrow is refused.
pub open spec fn spec_borrow_exact(
    fee_sf: int,
    receive: int,
    max_value: int,
    decimals: int,
    price: int,
    borrow_factor: int,
    remaining: int,
    referral_fee_bps: int,
    has_referrer: bool,
) -> Result<(int, int, int, int), LendingError> {
    match spec_calculate_fees(receive * scale(), fee_sf, false, referral_fee_bps, has_referrer) {
        Err(e) => Err(e),
        Ok((p, f)) => {
            let b = receive * scale() + (p + f) * scale();
            let v = m(m(b, price) / decimals, borrow_factor);
            if v > max_value {
                Err(LendingError::BorrowTooLarge)
            } else if b > remaining {
                Err(LendingError::BorrowLimitExceeded)
            } else {
                Ok((b, receive, p, f))
            }
        },
    }
}

/// The computation of `spec_borrow_exact` does not overflow.
pub open spec fn borrow_exact_computable(
    fee_sf: int,
    receive: int,
    decimals: int,
    price: int,
    borrow_factor: int,
    referral_fee_bps: int,
    has_referrer: bool,
) -> bool {
    &&& fees_computable(receive * scale(), fee_sf, false, referral_fee_bps, has_referrer)
    &&& decimals != 0
    &&& match spec_calculate_fees(receive * scale(), fee_sf, false, referral_fee_bps, has_referrer) {
        Ok((p, f)) => {
            let b = receive * scale() + (p + f) * scale();
            &&& p + f <= u64::MAX
            &&& b <= u128::MAX
            &&& m(b, price) <= u128::MAX
            &&& m(m(b, price) / decimals, borrow_factor) <= u128::MAX
        },
        Err(_) => true,
    }
}

/// The borrow outcome for a requested size: `AtMost` falls back to borrowing
/// all available when the exact amount is too large or over the limit.
pub open spec fn spec_calculate_borrow(
    r: Reserve,
    size: BorrowSize,
    max_value: int,
    remaining: int,
    referral_fee_bps: int,
    is_in_elevation_group: bool,
    has_referrer: bool,
) -> Result<(int, int, int, int), LendingError> {
    let fee_sf = r.config.fees.origination_fee_sf as int;
    let decimals = pow10(r.liquidity.mint_decimals as nat) as int;
    let price = r.liquidity.market_price_sf as int;
    let bf = spec_borrow_factor_f(r, is_in_elevation_group);
    let all = spec_borrow_all_available(
        fee_sf,
        max_value,
        decimals,
        price,
        bf,
        remaining,
        r.liquidity.available_amount as int,
        referral_fee_bps,
        has_referrer,
    );
    match size {
        BorrowSize::AllAvailable => all,
        BorrowSize::Exact(x) => spec_borrow_exact(
            fee_sf,
            x as int,
            max_value,
            decimals,
            price,
            bf,
            remaining,
            referral_fee_bps,
            has_referrer,
        ),
        BorrowSize::AtMost(x) => {
            let e = spec_borrow_exact(
                fee_sf,
                x as int,
                max_value,
                decimals,
                price,
                bf,
                remaining,
                referral_fee_bps,
                has_referrer,
            );
            if e == Err::<(int, int, int, int), LendingError>(LendingError::BorrowTooLarge) || e
                == Err::<(int, int, int, int), LendingError>(LendingError::BorrowLimitExceeded) {
                all
            } else {
                e
            }
        },
    }
}

/// The borrow computation for a requested size does not overflow.
pub open spec fn calculate_borrow_computable(
    r: Reserve,
    size: BorrowSize,
    max_value: int,
    remaining: int,
    referral_fee_bps: int,
    is_in_elevation_group: bool,
    has_referrer: bool,
) -> bool {
    let fee_sf = r.config.fees.origination_fee_sf as int;
    let decimals = pow10(r.liquidity.mint_decimals as nat) as int;
    let price = r.liquidity.market_price_sf as int;
    let bf = spec_borrow_factor_f(r, is_in_elevation_group);
    let all_ok = borrow_all_available_computable(
        fee_sf,
        max_value,
        decimals,
        price,
        bf,
        remaining,
        r.liquidity.available_amount as int,
        referral_fee_bps,
        has_referrer,
    );
    &&& r.liquidity.mint_decimals <= 19
    &&& match size {
        BorrowSize::AllAvailable => all_ok,
        BorrowSize::Exact(x) => borrow_exact_computable(
            fee_sf,
            x as int,
            decimals,
            price,
            bf,
            referral_fee_bps,
            has_referrer,
        ),
        BorrowSize::AtMost(x) => borrow_exact_computable(
            fee_sf,
            x as int,
            decimals,
            price,
            bf,
            referral_fee_bps,
            has_referrer,
        ) && all_ok,
    }
}

/// The result as a `CalculateBorrowResult`.
pub open spec fn borrow_result_matches(
    r: Result<CalculateBorrowResult, LendingError>,
    s: Result<(int, int, int, int), LendingError>,
) -> bool {
    match s {
        Ok((b, rcv, p, f)) => r matches Ok(x) && x.borrow_amount_f.val() == b && x.receive_amount
            == rcv && x.origination_fee == p && x.referrer_fee == f,
        Err(e) => r == Err::<CalculateBorrowResult, LendingError>(e),
    }
}

proof fn lemma_floor_le(a: int, b: int)
    requires
        0 <= a <= b,
    ensures
        floor_int(a) <= floor_int(b),
{
    assert(a / scale() <= b / scale()) by (nonlinear_arith)
        requires
            0 <= a <= b,
            scale() > 0,
    ;
}

impl Reserve {
    /// Sets up a fresh reserve.
    pub fn init(&mut self, params: InitReserveParams)
        ensures
            final(self).version == PROGRAM_VERSION,
            final(self).last_update.slot == params.current_slot,
            final(self).last_update.stale == 1,
            final(self).lending_market == params.lending_market,
            final(self).liquidity == params.liquidity,
            final(self).collateral == params.collateral,
            final(self).config == params.config,
            final(self).borrowed_amount_outside_elevation_group == 0,
            is_default_key(final(self).farm_collateral.bytes@),
            is_default_key(final(self).farm_debt.bytes@),
    {
        self.version = PROGRAM_VERSION as u64;
        self.last_update = LastUpdate::new(params.current_slot);
        self.lending_market = params.lending_market;
        self.liquidity = params.liquidity;
        self.collateral = params.collateral;
        self.config = params.config;
        self.farm_collateral = Pubkey::default_key();
        self.farm_debt = Pubkey::default_key();
        self.borrowed_amount_outside_elevation_group = 0;
        self.borrowed_amounts_against_this_reserve_in_elevation_groups = [0u64;32];
    }

    /// The borrow rate at the current utilization.
    pub fn current_borrow_rate(&self) -> (r: Result<Fraction, LendingError>)
        requires
            supply_computable(self.liquidity),
            utilization_val(self.liquidity) <= u128::MAX,
            valid_points(self.config.borrow_rate_curve.points@),
        ensures
            match spec_borrow_rate(
                self.config.borrow_rate_curve.points@,
                utilization_val(self.liquidity),
            ) {
                Ok(v) => r matches Ok(f) && f.val() == v,
                Err(e) => r == Err::<Fraction, LendingError>(e),
            },
    {
        let utilization_rate = self.liquidity.utilization_rate();
        self.config.borrow_rate_curve.get_borrow_rate(utilization_rate)
    }

    /// The borrow factor of a loan from this reserve.
    pub fn borrow_factor_f(&self, is_in_elevation_group: bool) -> (r: Fraction)
        ensures
            r.val() == spec_borrow_factor_f(*self, is_in_elevation_group),
    {
        if is_in_elevation_group {
            Fraction::one()
        } else {
            self.config.get_borrow_factor()
        }
    }

    /// The name of the reserve's token, as [`TokenInfo::symbol`] gives it.
    pub fn token_symbol(&self) -> (r: &str)
        ensures
            vstd::utf8::valid_utf8(self.config.token_info.name@) ==> r.spec_bytes()
                == self.config.token_info.name@.take(
                trimmed_len(self.config.token_info.name@) as int,
            ),
            !vstd::utf8::valid_utf8(self.config.token_info.name@) ==> r.spec_bytes()
                == "InvalidTokenName".spec_bytes().take(
                trimmed_len("InvalidTokenName".spec_bytes()) as int,
            ),
    {
        self.config.token_info.symbol()
    }

    /// One of the reserve's farms.
    pub fn get_farm(&self, mode: ReserveFarmKind) -> (r: Pubkey)
        ensures
            mode == ReserveFarmKind::Collateral ==> r == self.farm_collateral,
            mode == ReserveFarmKind::Debt ==> r == self.farm_debt,
    {
        match mode {
            ReserveFarmKind::Collateral => self.farm_collateral,
            ReserveFarmKind::Debt => self.farm_debt,
        }
    }

    /// Attaches a farm.
    pub fn add_farm(&mut self, farm_state: &Pubkey, mode: ReserveFarmKind)
        ensures
            mode == ReserveFarmKind::Collateral ==> final(self).farm_collateral == *farm_state
                && final(self).farm_debt == old(self).farm_debt,
            mode == ReserveFarmKind::Debt ==> final(self).farm_debt == *farm_state && final(self).farm_collateral == old(self).farm_collateral,
            final(self).liquidity == old(self).liquidity,
            final(self).collateral == old(self).collateral,
            final(self).config == old(self).config,
    {
        match mode {
            ReserveFarmKind::Collateral => self.farm_collateral = *farm_state,
            ReserveFarmKind::Debt => self.farm_debt = *farm_state,
        }
    }

    /// The exchange rate between collateral and liquidity tokens.
    pub fn collateral_exchange_rate(&self) -> (r: CollateralExchangeRate)
        requires
            supply_computable(self.liquidity),
        ensures
            r == spec_exchange_rate(*self),
    {
        let total_liquidity = self.liquidity.total_supply();
        self.collateral.exchange_rate(total_liquidity)
    }

    /// Collateral minted for a deposit, and the liquidity actually taken for
    /// it (the collateral's worth rounded up); an error if that exceeds the
    /// offered amount.
    pub fn compute_depositable_amount_and_minted_collateral(&self, liquidity_amount: u64) -> (r:
        Result<DepositLiquidityResult, LendingError>)
        requires
            supply_computable(self.liquidity),
            spec_l2c_amount_frac(spec_exchange_rate(*self), liquidity_amount as int) < p128(),
            floor_int(spec_l2c_amount_frac(spec_exchange_rate(*self), liquidity_amount as int))
                <= u64::MAX,
            ({
                let c = floor_int(
                    spec_l2c_amount_frac(spec_exchange_rate(*self), liquidity_amount as int),
                );
                &&& spec_c2l_ceil_frac(spec_exchange_rate(*self), c) < p128()
                &&& ceil_int(spec_c2l_ceil_frac(spec_exchange_rate(*self), c)) <= u64::MAX
            }),
        ensures
            ({
                let rate = spec_exchange_rate(*self);
                let c = floor_int(spec_l2c_amount_frac(rate, liquidity_amount as int));
                let l = ceil_int(spec_c2l_ceil_frac(rate, c));
                &&& l <= liquidity_amount ==> r == Ok::<DepositLiquidityResult, LendingError>(
                    DepositLiquidityResult { liquidity_amount: l as u64, collateral_amount: c as u64 },
                )
                &&& l > liquidity_amount ==> r == Err::<DepositLiquidityResult, LendingError>(
                    LendingError::MathOverflow,
                )
            }),
    {
        let rate = self.collateral_exchange_rate();
        let collateral_amount = rate.liquidity_to_collateral(liquidity_amount);
        let liquidity_amount_to_deposit = rate.collateral_to_liquidity_ceil(collateral_amount);
        if liquidity_amount < liquidity_amount_to_deposit {
            return Err(LendingError::MathOverflow);
        }
        Ok(
            DepositLiquidityResult {
                liquidity_amount: liquidity_amount_to_deposit,
                collateral_amount,
            },
        )
    }

    /// Adds deposited liquidity and the collateral minted for it; an error on
    /// overflow of either (the liquidity is already added when only the
    /// collateral overflows).
    pub fn deposit_liquidity(&mut self, liquidity_amount: u64, collateral_amount: u64) -> (r:
        Result<(), LendingError>)
        ensures
            *final(self) == (Reserve {
                liquidity: final(self).liquidity,
                collateral: final(self).collateral,
                ..*old(self)
            }),
            final(self).collateral.mint_pubkey == old(self).collateral.mint_pubkey,
            final(self).collateral.supply_vault == old(self).collateral.supply_vault,
            only_available_changed(old(self).liquidity, final(self).liquidity),
            old(self).liquidity.available_amount + liquidity_amount > u64::MAX ==> r == Err::<
                (),
                LendingError,
            >(LendingError::MathOverflow) && final(self).liquidity == old(self).liquidity
                && final(self).collateral == old(self).collateral,
            old(self).liquidity.available_amount + liquidity_amount <= u64::MAX ==> final(self).liquidity.available_amount == old(self).liquidity.available_amount
                + liquidity_amount,
            old(self).liquidity.available_amount + liquidity_amount <= u64::MAX && old(self).collateral.mint_total_supply + collateral_amount > u64::MAX ==> r == Err::<
                (),
                LendingError,
            >(LendingError::MathOverflow) && final(self).collateral == old(self).collateral,
            old(self).liquidity.available_amount + liquidity_amount <= u64::MAX && old(self).collateral.mint_total_supply + collateral_amount <= u64::MAX ==> r == Ok::<
                (),
                LendingError,
            >(()) && final(self).collateral.mint_total_supply == old(self).collateral.mint_total_supply + collateral_amount,
    {
        self.liquidity.deposit(liquidity_amount)?;
        self.collateral.mint(collateral_amount)?;
        Ok(())
    }

    /// Burns collateral and pays out the liquidity it is worth (rounded down);
    /// an error when more collateral than exists is burnt or not enough
    /// liquidity is available.
    pub fn redeem_collateral(&mut self, collateral_amount: u64) -> (r: Result<u64, LendingError>)
        requires
            supply_computable(old(self).liquidity),
            spec_c2l_frac(spec_exchange_rate(*old(self)), collateral_amount * scale()) < p128(),
            floor_int(spec_c2l_frac(spec_exchange_rate(*old(self)), collateral_amount * scale()))
                <= u64::MAX,
        ensures
            *final(self) == (Reserve {
                liquidity: final(self).liquidity,
                collateral: final(self).collateral,
                ..*old(self)
            }),
            final(self).collateral.mint_pubkey == old(self).collateral.mint_pubkey,
            final(self).collateral.supply_vault == old(self).collateral.supply_vault,
            only_available_changed(old(self).liquidity, final(self).liquidity),
            ({
                let l = floor_int(
                    spec_c2l_frac(spec_exchange_rate(*old(self)), collateral_amount * scale()),
                );
                &&& collateral_amount > old(self).collateral.mint_total_supply ==> r == Err::<
                    u64,
                    LendingError,
                >(LendingError::MathOverflow)
                &&& collateral_amount <= old(self).collateral.mint_total_supply ==> final(self).collateral.mint_total_supply == old(self).collateral.mint_total_supply
                    - collateral_amount
                &&& collateral_amount <= old(self).collateral.mint_total_supply && l > old(self).liquidity.available_amount ==> r == Err::<u64, LendingError>(
                    LendingError::InsufficientLiquidity,
                )
                &&& collateral_amount <= old(self).collateral.mint_total_supply && l <= old(self).liquidity.available_amount ==> r == Ok::<u64, LendingError>(l as u64) && final(self).liquidity.available_amount == old(self).liquidity.available_amount - l
            }),
    {
        let rate = self.collateral_exchange_rate();
        let liquidity_amount = rate.collateral_to_liquidity(collateral_amount);
        self.collateral.burn(collateral_amount)?;
        self.liquidity.withdraw(liquidity_amount)?;
        Ok(liquidity_amount)
    }

    /// Keeps the deposit-limit timestamp: set when the limit is first crossed,
    /// cleared when the supply is back under it.
    pub fn update_deposit_limit_crossed_timestamp(&mut self, timestamp: u64)
        requires
            supply_computable(old(self).liquidity),
        ensures
            *final(self) == (Reserve { liquidity: final(self).liquidity, ..*old(self) }),
            final(self).config == old(self).config,
            final(self).collateral == old(self).collateral,
            ({
                let crossed = total_supply_val(old(self).liquidity) > old(self).config.deposit_limit
                    * scale();
                let old_ts = old(self).liquidity.deposit_limit_crossed_timestamp;
                final(self).liquidity == ReserveLiquidity {
                    deposit_limit_crossed_timestamp: if crossed {
                        if old_ts == 0 {
                            timestamp
                        } else {
                            old_ts
                        }
                    } else {
                        0
                    },
                    ..old(self).liquidity
                }
            }),
    {
        if self.deposit_limit_crossed() {
            if self.liquidity.deposit_limit_crossed_timestamp == 0 {
                self.liquidity.deposit_limit_crossed_timestamp = timestamp;
            }
        } else {
            self.liquidity.deposit_limit_crossed_timestamp = 0;
        }
    }

    /// Keeps the borrow-limit timestamp: set when the limit is first crossed,
    /// cleared when the debt is back under it.
    pub fn update_borrow_limit_crossed_timestamp(&mut self, timestamp: u64)
        ensures
            *final(self) == (Reserve { liquidity: final(self).liquidity, ..*old(self) }),
            final(self).config == old(self).config,
            final(self).collateral == old(self).collateral,
            ({
                let crossed = old(self).liquidity.borrowed_amount_sf > old(self).config.borrow_limit
                    * scale();
                let old_ts = old(self).liquidity.borrow_limit_crossed_timestamp;
                final(self).liquidity == ReserveLiquidity {
                    borrow_limit_crossed_timestamp: if crossed {
                        if old_ts == 0 {
                            timestamp
                        } else {
                            old_ts
                        }
                    } else {
                        0
                    },
                    ..old(self).liquidity
                }
            }),
    {
        if self.borrow_limit_crossed() {
            if self.liquidity.borrow_limit_crossed_timestamp == 0 {
                self.liquidity.borrow_limit_crossed_timestamp = timestamp;
            }
        } else {
            self.liquidity.borrow_limit_crossed_timestamp = 0;
        }
    }

    /// Accrues interest for the slots since the last update: compounds the
    /// debt at the current borrow rate plus the host's fixed rate; an error
    /// when `current_slot` is before the last update or the rate cannot be
    /// read off the curve. Only the liquidity changes.
    pub fn accrue_interest(&mut self, current_slot: u64, referral_fee_bps: u16) -> (r: Result<
        (),
        LendingError,
    >)
        requires
            accrue_computable(*old(self), current_slot, referral_fee_bps),
        ensures
            *final(self) == (Reserve { liquidity: final(self).liquidity, ..*old(self) }),
            spec_accrue_outcome(*old(self), final(self).liquidity, current_slot, referral_fee_bps, r),
    {
        let slots_elapsed = self.last_update.slots_elapsed(current_slot)?;
        if slots_elapsed > 0 {
            let current_borrow_rate = self.current_borrow_rate()?;
            let protocol_take_rate = Fraction::from_percent(self.config.protocol_take_rate_pct as u64);
            let referral_rate = Fraction::from_bps(referral_fee_bps as u64);
            let host_fixed_interest_rate = Fraction::from_bps(
                self.config.host_fixed_interest_rate_bps as u64,
            );
            self.liquidity.compound_interest(
                current_borrow_rate,
                host_fixed_interest_rate,
                slots_elapsed,
                protocol_take_rate,
                referral_rate,
            )?;
        }
        Ok(())
    }

    fn calculate_borrow_all_available(
        &self,
        max_borrow_factor_adjusted_debt_value: Fraction,
        remaining_reserve_borrow: Fraction,
        referral_fee_bps: u16,
        has_referrer: bool,
        decimals: u64,
        market_price_f: Fraction,
        borrow_factor_f: Fraction,
    ) -> (r: Result<CalculateBorrowResult, LendingError>)
        requires
            borrow_all_available_computable(
                self.config.fees.origination_fee_sf as int,
                max_borrow_factor_adjusted_debt_value.val(),
                decimals as int,
                market_price_f.val(),
                borrow_factor_f.val(),
                remaining_reserve_borrow.val(),
                self.liquidity.available_amount as int,
                referral_fee_bps as int,
                has_referrer,
            ),
        ensures
            borrow_result_matches(
                r,
                spec_borrow_all_available(
                    self.config.fees.origination_fee_sf as int,
                    max_borrow_factor_adjusted_debt_value.val(),
                    decimals as int,
                    market_price_f.val(),
                    borrow_factor_f.val(),
                    remaining_reserve_borrow.val(),
                    self.liquidity.available_amount as int,
                    referral_fee_bps as int,
                    has_referrer,
                ),
            ),
    {
        let borrow_amount_f = max_borrow_factor_adjusted_debt_value.mul_int(decimals as u128).div(
            market_price_f,
        ).div(borrow_factor_f).min(remaining_reserve_borrow).min(
            Fraction::from_num(self.liquidity.available_amount),
        );
        let (origination_fee, referrer_fee) = self.config.fees.calculate_borrow_fees(
            borrow_amount_f,
            FeeCalculation::Inclusive,
            referral_fee_bps,
            has_referrer,
        )?;
        proof {
            lemma_floor_le(borrow_amount_f.val(), self.liquidity.available_amount * scale());
            assert(floor_int(self.liquidity.available_amount * scale())
                == self.liquidity.available_amount) by (nonlinear_arith)
                requires
                    scale() > 0,
            ;
        }
        let borrow_amount = borrow_amount_f.to_floor();
        let receive_amount = borrow_amount - origination_fee - referrer_fee;
        Ok(
            CalculateBorrowResult {
                borrow_amount_f,
                receive_amount,
                origination_fee,
                referrer_fee,
            },
        )
    }

    fn calculate_borrow_exact(
        &self,
        receive_amount: u64,
        max_borrow_factor_adjusted_debt_value: Fraction,
        remaining_reserve_borrow: Fraction,
        referral_fee_bps: u16,
        has_referrer: bool,
        decimals: u64,
        market_price_f: Fraction,
        borrow_factor_f: Fraction,
    ) -> (r: Result<CalculateBorrowResult, LendingError>)
        requires
            borrow_exact_computable(
                self.config.fees.origination_fee_sf as int,
                receive_amount as int,
                decimals as int,
                market_price_f.val(),
                borrow_factor_f.val(),
                referral_fee_bps as int,
                has_referrer,
            ),
        ensures
            borrow_result_matches(
                r,
                spec_borrow_exact(
                    self.config.fees.origination_fee_sf as int,
                    receive_amount as int,
                    max_borrow_factor_adjusted_debt_value.val(),
                    decimals as int,
                    market_price_f.val(),
                    borrow_factor_f.val(),
                    remaining_reserve_borrow.val(),
                    referral_fee_bps as int,
                    has_referrer,
                ),
            ),
    {
        let receive_amount_f = Fraction::from_num(receive_amount);
        let (origination_fee, referrer_fee) = self.config.fees.calculate_borrow_fees(
            receive_amount_f,
            FeeCalculation::Exclusive,
            referral_fee_bps,
            has_referrer,
        )?;
        let borrow_amount_f = receive_amount_f.add(
            Fraction::from_num(origination_fee + referrer_fee),
        );
        let borrow_factor_adjusted_debt_value = borrow_amount_f.mul(market_price_f).div_int(
            decimals as u128,
        ).mul(borrow_factor_f);
        if borrow_factor_adjusted_debt_value.bits > max_borrow_factor_adjusted_debt_value.bits {
            return Err(LendingError::BorrowTooLarge);
        }
        if borrow_amount_f.bits > remaining_reserve_borrow.bits {
            return Err(LendingError::BorrowLimitExceeded);
        }
        Ok(
            CalculateBorrowResult {
                borrow_amount_f,
                receive_amount,
                origination_fee,
                referrer_fee,
            },
        )
    }

    /// The amounts of a borrow of the requested size: the borrowed amount
    /// (fees included), what the borrower receives, the protocol fee and the
    /// referrer fee; or why the borrow is refused.
    pub fn calculate_borrow(
        &self,
        borrow_size: BorrowSize,
        max_borrow_factor_adjusted_debt_value: Fraction,
        remaining_reserve_borrow: Fraction,
        referral_fee_bps: u16,
        is_in_elevation_group: bool,
        has_referrer: bool,
    ) -> (r: Result<CalculateBorrowResult, LendingError>)
        requires
            calculate_borrow_computable(
                *self,
                borrow_size,
                max_borrow_factor_adjusted_debt_value.val(),
                remaining_reserve_borrow.val(),
                referral_fee_bps as int,
                is_in_elevation_group,
                has_referrer,
            ),
        ensures
            borrow_result_matches(
                r,
                spec_calculate_borrow(
                    *self,
                    borrow_size,
                    max_borrow_factor_adjusted_debt_value.val(),
                    remaining_reserve_borrow.val(),
                    referral_fee_bps as int,
                    is_in_elevation_group,
                    has_referrer,
                ),
            ),
    {
        let decimals = self.liquidity.mint_factor();
        let market_price_f = self.liquidity.get_market_price();
        let borrow_factor_f = self.borrow_factor_f(is_in_elevation_group);
        match borrow_size {
            BorrowSize::AllAvailable => self.calculate_borrow_all_available(
                max_borrow_factor_adjusted_debt_value,
                remaining_reserve_borrow,
                referral_fee_bps,
                has_referrer,
                decimals,
                market_price_f,
                borrow_factor_f,
            ),
            BorrowSize::Exact(receive_amount) => self.calculate_borrow_exact(
                receive_amount,
                max_borrow_factor_adjusted_debt_value,
                remaining_reserve_borrow,
                referral_fee_bps,
                has_referrer,
                decimals,
                market_price_f,
                borrow_factor_f,
            ),
            BorrowSize::AtMost(requested_receive_amount) => {
                let borrow_exact_result = self.calculate_borrow_exact(
                    requested_receive_amount,
                    max_borrow_factor_adjusted_debt_value,
                    remaining_reserve_borrow,
                    referral_fee_bps,
                    has_referrer,
                    decimals,
                    market_price_f,
                    borrow_factor_f,
                );
                let fall_back = match borrow_exact_result {
                    Err(LendingError::BorrowTooLarge) => true,
                    Err(LendingError::BorrowLimitExceeded) => true,
                    _ => false,
                };
                if fall_back {
                    self.calculate_borrow_all_available(
                        max_borrow_factor_adjusted_debt_value,
                        remaining_reserve_borrow,
                        referral_fee_bps,
                        has_referrer,
                        decimals,
                        market_price_f,
                        borrow_factor_f,
                    )
                } else {
                    borrow_exact_result
                }
            },
        }
    }

    /// The debt settled and the tokens taken by a repayment: the whole debt
    /// for the `u64::MAX` sentinel, else the offered amount capped at the
    /// debt; the tokens are the settled amount rounded up.
    pub fn calculate_repay(&self, amount_to_repay: u64, borrowed_amount: Fraction) -> (r:
        CalculateRepayResult)
        requires
            ceil_int(borrowed_amount.val()) <= u64::MAX,
        ensures
            ({
                let settle = if amount_to_repay == u64::MAX {
                    borrowed_amount.val()
                } else if amount_to_repay * scale() <= borrowed_amount.val() {
                    amount_to_repay * scale()
                } else {
                    borrowed_amount.val()
                };
                &&& r.settle_amount.val() == settle
                &&& r.repay_amount == ceil_int(settle)
            }),
    {
        let settle_amount = if amount_to_repay == u64::MAX {
            borrowed_amount
        } else {
            Fraction::from_num(amount_to_repay).min(borrowed_amount)
        };
        proof {
            assert(ceil_int(settle_amount.val()) <= ceil_int(borrowed_amount.val())) by {
                assert(settle_amount.val() <= borrowed_amount.val());
                assert(settle_amount.val() / scale() <= borrowed_amount.val() / scale())
                    by (nonlinear_arith)
                    requires
                        0 <= settle_amount.val() <= borrowed_amount.val(),
                        scale() > 0,
                ;
            }
        }
        let repay_amount = settle_amount.to_ceil();
        CalculateRepayResult { settle_amount, repay_amount }
    }

    /// Protocol fees that can be redeemed now: the accumulated fees, rounded
    /// down, capped by the available liquidity.
    pub fn calculate_redeem_fees(&self) -> (r: u64)
        ensures
            r == if self.liquidity.available_amount <= floor_int(
                self.liquidity.accumulated_protocol_fees_sf as int,
            ) {
                self.liquidity.available_amount as int
            } else {
                floor_int(self.liquidity.accumulated_protocol_fees_sf as int)
            },
    {
        let fees = Fraction::from_bits(self.liquidity.accumulated_protocol_fees_sf);
        let q = fees.bits / crate::fraction::FRACTION_ONE_SCALED;
        if (self.liquidity.available_amount as u128) <= q {
            self.liquidity.available_amount
        } else {
            q as u64
        }
    }

    /// Whether the total supply is over the deposit limit.
    pub fn deposit_limit_crossed(&self) -> (r: bool)
        requires
            supply_computable(self.liquidity),
        ensures
            r == (total_supply_val(self.liquidity) > self.config.deposit_limit * scale()),
    {
        self.liquidity.total_supply().bits > Fraction::from_num(self.config.deposit_limit).bits
    }

    /// Whether the debt is over the borrow limit.
    pub fn borrow_limit_crossed(&self) -> (r: bool)
        ensures
            r == (self.liquidity.borrowed_amount_sf > self.config.borrow_limit * scale()),
    {
        self.liquidity.total_borrow().bits > Fraction::from_num(self.config.borrow_limit).bits
    }

    /// Referrer fees that can be withdrawn now: the referrer's unclaimed
    /// amount, capped by the accumulated referrer fees, rounded down, capped
    /// by the available liquidity.
    pub fn get_withdraw_referrer_fees(&self, referrer_token_state: &ReferrerTokenState) -> (r: u64)
        ensures
            ({
                let u = if referrer_token_state.amount_unclaimed_sf
                    <= self.liquidity.accumulated_referrer_fees_sf {
                    referrer_token_state.amount_unclaimed_sf as int
                } else {
                    self.liquidity.accumulated_referrer_fees_sf as int
                };
                r == if floor_int(u) <= self.liquidity.available_amount {
                    floor_int(u)
                } else {
                    self.liquidity.available_amount as int
                }
            }),
    {
        let available_unclaimed_sf = if referrer_token_state.amount_unclaimed_sf
            <= self.liquidity.accumulated_referrer_fees_sf {
            referrer_token_state.amount_unclaimed_sf
        } else {
            self.liquidity.accumulated_referrer_fees_sf
        };
        let q = available_unclaimed_sf / crate::fraction::FRACTION_ONE_SCALED;
        if q <= self.liquidity.available_amount as u128 {
            q as u64
        } else {
            self.liquidity.available_amount
        }
    }

    /// Whether the reserve holds more than its initial deposit, or any debt.
    pub fn is_used(&self, min_initial_deposit_amount: u64) -> (r: bool)
        ensures
            r == (self.liquidity.available_amount > min_initial_deposit_amount
                || self.liquidity.borrowed_amount_sf > 0 || self.collateral.mint_total_supply
                > min_initial_deposit_amount),
    {
        self.liquidity.available_amount > min_initial_deposit_amount
            || self.liquidity.total_borrow().bits > 0 || self.collateral.mint_total_supply
            > min_initial_deposit_amount
    }

    /// Whether both limits are zero, which blocks all use.
    pub fn is_usage_blocked(&self) -> (r: bool)
        ensures
            r == (self.config.deposit_limit == 0 && self.config.borrow_limit == 0),
    {
        self.config.deposit_limit == 0 && self.config.borrow_limit == 0
    }
}

/// Whether a token description is the empty one: no name, no limits, no
/// price source (the scope feed holds the null marker).
pub open spec fn is_empty_token_info(t: TokenInfo) -> bool {
    &&& t.name@ == Seq::new(32, |i: int| 0u8)
    &&& t.heuristic.lower == 0 && t.heuristic.upper == 0 && t.heuristic.exp == 0
    &&& t.max_twap_divergence_bps == 0
    &&& t.max_age_price_seconds == 0
    &&& t.max_age_twap_seconds == 0
    &&& t.scope_configuration.price_feed.bytes@ == crate::consts::NULL_PUBKEY_BYTES@
    &&& t.scope_configuration.price_chain@ == Seq::new(4, |i: int| u16::MAX)
    &&& t.scope_configuration.twap_chain@ == Seq::new(4, |i: int| u16::MAX)
    &&& is_default_key(t.switchboard_configuration.price_aggregator.bytes@)
    &&& is_default_key(t.switchboard_configuration.twap_aggregator.bytes@)
    &&& is_default_key(t.pyth_configuration.price.bytes@)
    &&& t._padding@ == Seq::new(20, |i: int| 0u64)
}

/// Whether a withdrawal cap is all zero.
pub open spec fn is_zero_caps(c: WithdrawalCaps) -> bool {
    c == (WithdrawalCaps {
        config_capacity: 0,
        current_total: 0,
        last_interval_start_timestamp: 0,
        config_interval_length_seconds: 0,
    })
}

/// Whether a configuration is the empty one: every number zero, a flat
/// curve at a zero rate, the empty token description and zero caps.
pub open spec fn is_empty_config(c: ReserveConfig) -> bool {
    &&& c.status == 0 && c.asset_tier == 0
    &&& c.host_fixed_interest_rate_bps == 0 && c.min_deleveraging_bonus_bps == 0
    &&& c.reserved_1@ == Seq::new(7, |i: int| 0u8)
    &&& c.protocol_order_execution_fee_pct == 0 && c.protocol_take_rate_pct == 0
    &&& c.protocol_liquidation_fee_pct == 0
    &&& c.loan_to_value_pct == 0 && c.liquidation_threshold_pct == 0
    &&& c.min_liquidation_bonus_bps == 0 && c.max_liquidation_bonus_bps == 0
    &&& c.bad_debt_liquidation_bonus_bps == 0
    &&& c.deleveraging_margin_call_period_secs == 0
    &&& c.deleveraging_threshold_decrease_bps_per_day == 0
    &&& c.fees.origination_fee_sf == 0 && c.fees.flash_loan_fee_sf == 0
    &&& c.fees.padding@ == Seq::new(8, |i: int| 0u8)
    &&& c.borrow_rate_curve.points@[0] == (crate::borrow_rate_curve::CurvePoint {
        utilization_rate_bps: 0,
        borrow_rate_bps: 0,
    })
    &&& forall|i: int|
        1 <= i < 11 ==> #[trigger] c.borrow_rate_curve.points@[i] == (
        crate::borrow_rate_curve::CurvePoint { utilization_rate_bps: 10000, borrow_rate_bps: 0 })
    &&& c.borrow_factor_pct == 0 && c.deposit_limit == 0 && c.borrow_limit == 0
    &&& is_empty_token_info(c.token_info)
    &&& is_zero_caps(c.deposit_withdrawal_cap)
    &&& is_zero_caps(c.debt_withdrawal_cap)
    &&& c.elevation_groups@ == Seq::new(20, |i: int| 0u8)
    &&& c.disable_usage_as_coll_outside_emode == 0
    &&& c.utilization_limit_block_borrowing_above_pct == 0
    &&& c.autodeleverage_enabled == 0 && c.proposer_authority_locked == 0
    &&& c.borrow_limit_outside_elevation_group == 0
    &&& c.borrow_limit_against_this_collateral_in_elevation_group@ == Seq::new(32, |i: int| 0u64)
    &&& c.deleveraging_bonus_increase_bps_per_day == 0
}

/// Whether a reserve's liquidity is the empty one: no token, no amounts, no
/// price, and a cumulative borrow rate of one.
pub open spec fn is_empty_liquidity(l: ReserveLiquidity) -> bool {
    &&& is_default_key(l.mint_pubkey.bytes@)
    &&& is_default_key(l.supply_vault.bytes@)
    &&& is_default_key(l.fee_vault.bytes@)
    &&& is_default_key(l.token_program.bytes@)
    &&& l.available_amount == 0 && l.borrowed_amount_sf == 0
    &&& l.market_price_sf == 0 && l.market_price_last_updated_ts == 0
    &&& l.mint_decimals == 0
    &&& l.deposit_limit_crossed_timestamp == 0 && l.borrow_limit_crossed_timestamp == 0
    &&& limbs_val(l.cumulative_borrow_rate_bsf.value@) == scale()
    &&& l.accumulated_protocol_fees_sf == 0 && l.accumulated_referrer_fees_sf == 0
    &&& l.pending_referrer_fees_sf == 0 && l.absolute_referral_rate_sf == 0
}

impl Default for ReserveLiquidity {
    /// No token, no amounts, no price, and a cumulative borrow rate of one.
    fn default() -> (r: Self)
        ensures
            is_empty_liquidity(r),
    {
        ReserveLiquidity {
            mint_pubkey: Pubkey::default_key(),
            supply_vault: Pubkey::default_key(),
            fee_vault: Pubkey::default_key(),
            available_amount: 0,
            borrowed_amount_sf: 0,
            market_price_sf: 0,
            market_price_last_updated_ts: 0,
            mint_decimals: 0,
            deposit_limit_crossed_timestamp: 0,
            borrow_limit_crossed_timestamp: 0,
            cumulative_borrow_rate_bsf: BigFractionBytes::from_big_fraction(
                BigFraction::from_fraction(Fraction::one()),
            ),
            accumulated_protocol_fees_sf: 0,
            accumulated_referrer_fees_sf: 0,
            pending_referrer_fees_sf: 0,
            absolute_referral_rate_sf: 0,
            token_program: Pubkey::default_key(),
        }
    }
}

impl Default for ReserveCollateral {
    /// No token and no supply.
    fn default() -> (r: Self)
        ensures
            is_default_key(r.mint_pubkey.bytes@),
            is_default_key(r.supply_vault.bytes@),
            r.mint_total_supply == 0,
    {
        ReserveCollateral {
            mint_pubkey: Pubkey::default_key(),
            mint_total_supply: 0,
            supply_vault: Pubkey::default_key(),
        }
    }
}

impl Default for ReserveConfig {
    /// The empty configuration; see [`is_empty_config`].
    fn default() -> (r: Self)
        ensures
            is_empty_config(r),
    {
        let caps = WithdrawalCaps {
            config_capacity: 0,
            current_total: 0,
            last_interval_start_timestamp: 0,
            config_interval_length_seconds: 0,
        };
        let r = ReserveConfig {
            status: 0,
            asset_tier: 0,
            host_fixed_interest_rate_bps: 0,
            min_deleveraging_bonus_bps: 0,
            reserved_1: [0u8;7],
            protocol_order_execution_fee_pct: 0,
            protocol_take_rate_pct: 0,
            protocol_liquidation_fee_pct: 0,
            loan_to_value_pct: 0,
            liquidation_threshold_pct: 0,
            min_liquidation_bonus_bps: 0,
            max_liquidation_bonus_bps: 0,
            bad_debt_liquidation_bonus_bps: 0,
            deleveraging_margin_call_period_secs: 0,
            deleveraging_threshold_decrease_bps_per_day: 0,
            fees: ReserveFees { origination_fee_sf: 0, flash_loan_fee_sf: 0, padding: [0u8;8] },
            borrow_rate_curve: BorrowRateCurve::new_flat(0),
            borrow_factor_pct: 0,
            deposit_limit: 0,
            borrow_limit: 0,
            token_info: TokenInfo::default(),
            deposit_withdrawal_cap: caps,
            debt_withdrawal_cap: caps,
            elevation_groups: [0u8;20],
            disable_usage_as_coll_outside_emode: 0,
            utilization_limit_block_borrowing_above_pct: 0,
            autodeleverage_enabled: 0,
            proposer_authority_locked: 0,
            borrow_limit_outside_elevation_group: 0,
            borrow_limit_against_this_collateral_in_elevation_group: [0u64;32],
            deleveraging_bonus_increase_bps_per_day: 0,
        };
        assert(r.reserved_1@ =~= Seq::new(7, |i: int| 0u8));
        assert(r.fees.padding@ =~= Seq::new(8, |i: int| 0u8));
        assert(r.elevation_groups@ =~= Seq::new(20, |i: int| 0u8));
        assert(r.borrow_limit_against_this_collateral_in_elevation_group@ =~= Seq::new(
            32,
            |i: int| 0u64,
        ));
        r
    }
}

impl Default for Reserve {
    /// The empty reserve: version zero, stale at slot zero, no market, no
    /// farms, the empty liquidity, collateral and configuration, and no debt
    /// recorded outside or inside elevation groups.
    fn default() -> (r: Self)
        ensures
            r.version == 0,
            r.last_update.slot == 0 && r.last_update.stale == 1 && r.last_update.price_status == 0,
            is_default_key(r.lending_market.bytes@),
            is_default_key(r.farm_collateral.bytes@),
            is_default_key(r.farm_debt.bytes@),
            is_empty_liquidity(r.liquidity),
            is_default_key(r.collateral.mint_pubkey.bytes@),
            is_default_key(r.collateral.supply_vault.bytes@),
            r.collateral.mint_total_supply == 0,
            is_empty_config(r.config),
            r.borrowed_amount_outside_elevation_group == 0,
            r.borrowed_amounts_against_this_reserve_in_elevation_groups@ == Seq::new(
                32,
                |i: int| 0u64,
            ),
    {
        let r = Reserve {
            version: 0,
            last_update: LastUpdate::default(),
            lending_market: Pubkey::default_key(),
            farm_collateral: Pubkey::default_key(),
            farm_debt: Pubkey::default_key(),
            liquidity: ReserveLiquidity::default(),
            collateral: ReserveCollateral::default(),
            config: ReserveConfig::default(),
            borrowed_amount_outside_elevation_group: 0,
            borrowed_amounts_against_this_reserve_in_elevation_groups: [0u64;32],
        };
        assert(r.borrowed_amounts_against_this_reserve_in_elevation_groups@ =~= Seq::new(
            32,
            |i: int| 0u64,
        ));
        r
    }
}

} // verus!
