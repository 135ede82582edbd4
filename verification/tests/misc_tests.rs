use klend::error::LendingError;
use klend::fraction::Fraction;
use klend::last_update::{LastUpdate, PriceStatusFlags};
use klend::lending_market::ElevationGroup;
use klend::pubkey::{maybe_null_pk, Pubkey};
use klend::refs::JustRef;
use klend::secs;
use klend::slots;
use klend::types::BorrowSize;
use klend::validation::{only_element, zip_exact, LengthMismatchError};
use klend::withdrawal_caps::{
    add_to_withdrawal_accum, remaining_withdrawal_caps_amount, sub_from_withdrawal_accum,
    WithdrawalCaps, WithdrawalCapAccumulatorAction,
};
use std::sync::Arc;

const ONE: u128 = 1u128 << 60;

fn capped(capacity: i64, interval: u64) -> WithdrawalCaps {
    WithdrawalCaps {
        config_capacity: capacity,
        current_total: 0,
        last_interval_start_timestamp: 0,
        config_interval_length_seconds: interval,
    }
}

#[test]
fn withdrawal_uses_capacity() {
    let mut caps = capped(100, 60);
    assert_eq!(remaining_withdrawal_caps_amount(&caps, 10), 100);
    assert_eq!(add_to_withdrawal_accum(&mut caps, 30, 10), Ok(()));
    assert_eq!(remaining_withdrawal_caps_amount(&caps, 10), 70);
    assert_eq!(add_to_withdrawal_accum(&mut caps, 71, 10), Err(LendingError::WithdrawalCapReached));
    assert_eq!(remaining_withdrawal_caps_amount(&caps, 10), 70);
}

#[test]
fn withdrawal_then_deposit_restores_capacity() {
    let mut caps = capped(100, 60);
    assert_eq!(add_to_withdrawal_accum(&mut caps, 40, 5), Ok(()));
    assert_eq!(sub_from_withdrawal_accum(&mut caps, 40, 5), Ok(()));
    assert_eq!(remaining_withdrawal_caps_amount(&caps, 5), 100);
}

#[test]
fn new_interval_resets_accumulator() {
    let mut caps = capped(100, 60);
    assert_eq!(add_to_withdrawal_accum(&mut caps, 100, 0), Ok(()));
    assert_eq!(remaining_withdrawal_caps_amount(&caps, 59), 0);
    assert_eq!(remaining_withdrawal_caps_amount(&caps, 60), 100);
    assert_eq!(add_to_withdrawal_accum(&mut caps, 100, 60), Ok(()));
    assert_eq!(caps.last_interval_start_timestamp, 60);
    assert_eq!(add_to_withdrawal_accum(&mut caps, 1, 30), Err(LendingError::LastTimestampGreaterThanCurrent));
}

#[test]
fn uncapped_withdrawals() {
    let mut caps = capped(0, 0);
    assert_eq!(remaining_withdrawal_caps_amount(&caps, 0), u64::MAX);
    assert_eq!(add_to_withdrawal_accum(&mut caps, 5, 0), Ok(()));
    assert_eq!(caps.current_total, 5);
    assert_eq!(add_to_withdrawal_accum(&mut caps, u64::MAX, 0), Err(LendingError::MathOverflow));
    assert!(bool::from(WithdrawalCapAccumulatorAction::ResetAccumulator));
    assert_eq!(WithdrawalCapAccumulatorAction::from(false), WithdrawalCapAccumulatorAction::KeepAccumulator);
}

#[test]
fn freshness_after_refresh_and_mark() {
    let mut lu = LastUpdate::new(10);
    assert_eq!(lu.is_stale(10, PriceStatusFlags::empty()), Ok(true));
    lu.update_slot(12, Some(PriceStatusFlags::all()));
    assert_eq!(lu.is_stale(12, PriceStatusFlags::liquidation_checks()), Ok(false));
    assert_eq!(lu.is_stale(13, PriceStatusFlags::empty()), Ok(true));
    assert_eq!(lu.is_stale(11, PriceStatusFlags::empty()), Err(LendingError::MathOverflow));
    lu.update_slot(13, Some(PriceStatusFlags::empty()));
    assert_eq!(lu.is_stale(13, PriceStatusFlags::liquidation_checks()), Ok(true));
    lu.mark_stale();
    assert_eq!(lu.is_stale(13, PriceStatusFlags::empty()), Ok(true));
    assert_eq!(lu.slots_elapsed(20), Ok(7));
}

#[test]
fn price_status_flags() {
    assert_eq!(PriceStatusFlags::liquidation_checks().to_bits(), 35);
    assert!(PriceStatusFlags::all().contains(PriceStatusFlags::liquidation_checks()));
    assert_eq!(PriceStatusFlags::from_bits_truncate(0xff).to_bits(), 63);
    let a = PriceStatusFlags::from_bits_truncate(3);
    let b = PriceStatusFlags::from_bits_truncate(6);
    assert_eq!(a.union(b).to_bits(), 7);
    assert_eq!(a.intersection(b).to_bits(), 2);
}

#[test]
fn pubkeys() {
    let k = Pubkey::new_from_array([7; 32]);
    assert!(k.key_eq(&Pubkey::new_from_array([7; 32])));
    assert!(!k.key_eq(&Pubkey::default_key()));
    assert!(Pubkey::default_key().is_default());
    assert!(maybe_null_pk(Pubkey::default_key()).is_none());
    assert_eq!(maybe_null_pk(k).map(|p| p.bytes), Some([7; 32]));
}

#[test]
fn single_element_and_exact_zip() {
    assert_eq!(only_element(vec![5]), Some(5));
    assert_eq!(only_element(Vec::<u8>::new()), None);
    assert_eq!(only_element(vec![1, 2]), None);
    let mut z = zip_exact(vec![1, 2], vec!['a', 'b']);
    assert_eq!(z.next(), Some(Ok((1, 'a'))));
    assert_eq!(z.next(), Some(Ok((2, 'b'))));
    assert_eq!(z.next(), None);
    let mut bad = zip_exact(vec![1, 2], vec!['a']);
    assert_eq!(bad.next(), Some(Ok((1, 'a'))));
    assert_eq!(bad.next(), Some(Err(LengthMismatchError)));
    assert_eq!(bad.next(), None);
}

#[test]
fn time_conversions() {
    assert_eq!(slots::to_secs(10), 5);
    assert_eq!(slots::to_minutes(240), 2);
    assert_eq!(slots::to_hours(7200 * 3), 3);
    assert_eq!(slots::from_secs(30), 60);
    assert_eq!(slots::from_days(1), 172800);
    assert_eq!(slots::to_days_fractional(172800 / 2).to_bits(), ONE / 2);
    assert_eq!(secs::to_days_fractional(86400 * 3).to_bits(), 3 * ONE);
    assert_eq!(secs::from_hours(2), 7200);
    assert_eq!(secs::from_days(2), 172800);
    assert_eq!(secs::checked_secs_to_slots(Fraction::from_bits(ONE + ONE / 4)), Ok(3));
    assert_eq!(secs::estimate_slot_after_period(u64::MAX, Fraction::from_num(1)), Err(LendingError::MathOverflow));
}

#[test]
fn borrow_sizes() {
    assert_eq!(BorrowSize::exact_or_all_available(u64::MAX), BorrowSize::AllAvailable);
    assert_eq!(BorrowSize::exact_or_all_available(5), BorrowSize::Exact(5));
    assert!(BorrowSize::Exact(0).is_zero());
    assert!(!BorrowSize::AllAvailable.is_zero());
}

#[test]
fn elevation_group_defaults() {
    let g = ElevationGroup::default();
    assert_eq!(g.max_reserves_as_collateral, u8::MAX);
    assert!(g.new_loans_disabled());
    let mut g2 = g;
    g2.id = 3;
    assert_eq!(g2.get_index(), 2);
}

#[test]
fn just_ref_on_holders() {
    let v = 5u32;
    assert_eq!(*v.just_ref(), 5);
    let r = &v;
    assert_eq!(*JustRef::<u32>::just_ref(&r), 5);
    let a = Arc::new(9u32);
    assert_eq!(*JustRef::<u32>::just_ref(&a), 9);
}

#[test]
fn default_arrays_are_recognised() {
    assert!(klend::accounts::is_default_array::<u64>(&[]));
    assert!(klend::accounts::is_default_array(&[0u64, 0, 0]));
    assert!(!klend::accounts::is_default_array(&[0u8, 1, 0]));
    assert!(!klend::accounts::is_default_array(&[7u32]));
}
