use klend::big_fraction::BigFraction;
use klend::error::LendingError;
use klend::fraction::Fraction;
use klend::obligation::{
    BorrowOrder, InitObligationParams, Obligation, ObligationCollateral, ObligationConfigUpdateSubject,
    ObligationLiquidity, ObligationOrder, OwnershipTransferState, WithdrawResult,
};
use klend::obligation_order_operations::{OpportunityType, OrderOpportunity, OrderSize};
use klend::pubkey::Pubkey;
use klend::types::LtvMaxWithdrawalCheck;

const ONE: u128 = 1u128 << 60;

fn key(n: u8) -> Pubkey {
    Pubkey::new_from_array([n; 32])
}

#[test]
fn default_obligation_is_empty() {
    let o = Obligation::default();
    assert!(o.is_active_deposits_empty());
    assert!(o.is_active_borrows_empty());
    assert_eq!(o.active_deposits_count(), 0);
    assert_eq!(o.elevation_group(), None);
    assert!(!o.has_referrer());
    assert_eq!(o.ownership_transfer_state(), OwnershipTransferState::NoTransfer);
}

#[test]
fn init_sets_given_fields() {
    let mut o = Obligation::default();
    o.deposited_value_sf = 77;
    let params = InitObligationParams {
        current_slot: 42,
        lending_market: key(1),
        owner: key(2),
        deposits: [ObligationCollateral::default(); 8],
        borrows: [ObligationLiquidity::default(); 5],
        tag: 3,
        referrer: key(4),
    };
    o.init(params);
    assert_eq!(o.tag, 3);
    assert_eq!(o.last_update.slot, 42);
    assert_eq!(o.last_update.stale, 1);
    assert_eq!(o.deposited_value_sf, 0);
    assert!(o.owner.key_eq(&key(2)));
    assert_eq!(o.referrer().map(|k| k.bytes), Some([4; 32]));
}

#[test]
fn added_deposit_is_found_in_its_slot() {
    let mut o = Obligation::default();
    o.deposits[0] = ObligationCollateral::new(key(9));
    let (c, slot) = o.find_or_add_collateral_to_deposits(key(5)).unwrap();
    c.deposited_amount = 10;
    assert_eq!(slot.index, 1);
    assert!(slot.is_new);
    assert_eq!(o.deposits[1].deposited_amount, 10);
    assert_eq!(o.find_collateral_index_in_deposits(key(5)), Some(1));
    assert_eq!(o.position_of_collateral_in_deposits(key(5)), Ok(1));
    let (_, again) = o.find_or_add_collateral_to_deposits(key(5)).unwrap();
    assert_eq!(again.index, 1);
    assert!(!again.is_new);
    assert_eq!(o.active_deposits_count(), 2);
}

#[test]
fn full_deposit_slots_refuse_new_reserve() {
    let mut o = Obligation::default();
    for i in 0..8 {
        o.deposits[i] = ObligationCollateral::new(key(10 + i as u8));
    }
    let r = o.find_or_add_collateral_to_deposits(key(99));
    assert_eq!(r.err(), Some(LendingError::ObligationReserveLimit));
}

#[test]
fn position_errors() {
    let mut o = Obligation::default();
    assert_eq!(o.position_of_collateral_in_deposits(key(1)), Err(LendingError::ObligationDepositsEmpty));
    o.deposits[2] = ObligationCollateral::new(key(1));
    assert_eq!(
        o.position_of_collateral_in_deposits(key(3)),
        Err(LendingError::InvalidObligationCollateral)
    );
    assert_eq!(o.find_liquidity_in_borrows(key(1)).err(), Some(LendingError::ObligationBorrowsEmpty));
    o.borrows[1] = ObligationLiquidity::new(key(7), BigFraction::from_num(1));
    assert_eq!(
        o.find_liquidity_in_borrows(key(8)).err(),
        Some(LendingError::InvalidObligationLiquidity)
    );
    assert_eq!(o.find_liquidity_in_borrows(key(7)).map(|p| p.1), Ok(1));
}

#[test]
fn added_borrow_and_update_through_reference() {
    let mut o = Obligation::default();
    let (l, index) = o.find_or_add_liquidity_to_borrows(key(3), BigFraction::from_num(1)).unwrap();
    l.borrow(Fraction::from_num(5), 100);
    assert_eq!(index, 0);
    assert_eq!(o.borrows[0].borrowed_amount_sf, 5 * ONE);
    assert_eq!(o.borrows[0].last_borrowed_at_timestamp, 100);
    let (l2, i2) = o.find_liquidity_in_borrows_mut(key(3)).unwrap();
    l2.repay(Fraction::from_num(2));
    assert_eq!(i2, 0);
    assert_eq!(o.borrows[0].borrowed_amount_sf, 3 * ONE);
    o.update_has_debt();
    assert!(o.has_debt());
}

#[test]
fn withdraw_full_partial_and_too_much() {
    let mut o = Obligation::default();
    o.deposits[0] = ObligationCollateral::new(key(1));
    o.deposits[0].deposited_amount = 100;
    assert_eq!(o.withdraw(30, 0), Ok(WithdrawResult::Partial));
    assert_eq!(o.deposits[0].deposited_amount, 70);
    assert_eq!(o.withdraw(71, 0), Err(LendingError::MathOverflow));
    assert_eq!(o.deposits[0].deposited_amount, 70);
    assert_eq!(o.withdraw(70, 0), Ok(WithdrawResult::Full));
    assert!(!o.deposits[0].is_active());
}

#[test]
fn repay_whole_borrow_frees_slot() {
    let mut o = Obligation::default();
    o.borrows[2] = ObligationLiquidity::new(key(4), BigFraction::from_num(1));
    o.borrows[2].borrowed_amount_sf = 10 * ONE;
    o.repay(Fraction::from_num(4), 2);
    assert_eq!(o.borrows[2].borrowed_amount_sf, 6 * ONE);
    o.repay(Fraction::from_num(6), 2);
    assert!(!o.borrows[2].is_active());
    assert!(o.is_active_borrows_empty());
}

#[test]
fn collateral_deposit_overflow_and_inverse() {
    let mut c = ObligationCollateral::new(key(1));
    assert_eq!(c.deposit(10), Ok(()));
    assert_eq!(c.withdraw(10), Ok(()));
    assert_eq!(c.deposited_amount, 0);
    c.deposited_amount = u64::MAX;
    assert_eq!(c.deposit(1), Err(LendingError::MathOverflow));
    assert_eq!(c.deposited_amount, u64::MAX);
}

#[test]
fn interest_accrual() {
    let mut l = ObligationLiquidity::new(key(1), BigFraction::from_num(1));
    l.borrowed_amount_sf = 100 * ONE;
    assert_eq!(l.accrue_interest(BigFraction::from_num(1)), Ok(()));
    assert_eq!(l.borrowed_amount_sf, 100 * ONE);
    let rate = BigFraction::from_fraction(Fraction::from_bits(ONE + ONE / 10));
    assert_eq!(l.accrue_interest(rate), Ok(()));
    // 100 * 1.1 rounded down at the scaled representation.
    assert_eq!(l.borrowed_amount_sf, 100 * (ONE + ONE / 10));
    assert_eq!(l.accrue_interest(BigFraction::from_num(1)), Err(LendingError::NegativeInterestRate));
}

#[test]
fn interest_accrual_overflow_is_an_error() {
    let mut l = ObligationLiquidity::new(key(1), BigFraction::from_num(1));
    l.borrowed_amount_sf = u128::MAX / 2;
    let r = l.accrue_interest(BigFraction::from_num(4));
    assert_eq!(r, Err(LendingError::MathOverflow));
    assert_eq!(l.borrowed_amount_sf, u128::MAX / 2);
}

#[test]
fn ltv_ratios() {
    let mut o = Obligation::default();
    o.deposited_value_sf = 100 * ONE;
    o.borrow_factor_adjusted_debt_value_sf = 50 * ONE;
    o.borrowed_assets_market_value_sf = 25 * ONE;
    o.unhealthy_borrow_value_sf = 80 * ONE;
    assert_eq!(o.loan_to_value().to_bits(), ONE / 2);
    assert_eq!(o.no_bf_loan_to_value().to_bits(), ONE / 4);
    assert_eq!(o.unhealthy_loan_to_value().to_bits(), ONE * 4 / 5);
    o.allowed_borrow_value_sf = 60 * ONE;
    assert_eq!(o.remaining_borrow_value().to_bits(), 10 * ONE);
}

#[test]
fn max_withdraw_value_cases() {
    let mut o = Obligation::default();
    o.allowed_borrow_value_sf = 60 * ONE;
    o.unhealthy_borrow_value_sf = 80 * ONE;
    o.borrow_factor_adjusted_debt_value_sf = 50 * ONE;
    let mut c = ObligationCollateral::new(key(1));
    c.market_value_sf = 7 * ONE;
    // (60 - 50) * 100 / 50 = 20
    assert_eq!(o.max_withdraw_value(&c, 50, 80, LtvMaxWithdrawalCheck::MaxLtv).to_bits(), 20 * ONE);
    // a zero-LTV collateral can be withdrawn whole
    assert_eq!(o.max_withdraw_value(&c, 0, 80, LtvMaxWithdrawalCheck::MaxLtv).to_bits(), 7 * ONE);
    o.borrow_factor_adjusted_debt_value_sf = 70 * ONE;
    assert_eq!(o.max_withdraw_value(&c, 50, 80, LtvMaxWithdrawalCheck::MaxLtv).to_bits(), 0);
    let v = o.max_withdraw_value(&c, 50, 80, LtvMaxWithdrawalCheck::LiquidationThreshold);
    assert_eq!(v.to_bits(), (10 * ONE - 1) * 100 / 80);
}

#[test]
fn ownership_transfer_flow() {
    let mut o = Obligation::default();
    o.owner = key(1);
    assert_eq!(o.initiate_ownership_transfer(Pubkey::default_key()), Err(LendingError::ObligationInvalidPendingOwner));
    assert_eq!(o.initiate_ownership_transfer(key(1)), Err(LendingError::ObligationInvalidPendingOwner));
    assert_eq!(o.check_ownership_transfer_approved(), Err(LendingError::ObligationOwnershipTransferNotApproved));
    assert_eq!(o.check_ownership_transfer_in_initiated_state(), Err(LendingError::ObligationOwnershipTransferNotInInitiatedState));
    assert_eq!(o.initiate_ownership_transfer(key(2)), Ok(()));
    assert_eq!(o.check_ownership_transfer_not_in_progress(), Err(LendingError::ObligationOwnershipTransferInProgress));
    assert!(o.is_ownership_transfer_in_initiated_state());
    assert_eq!(o.approve_ownership_transfer(), Ok(()));
    assert!(o.is_ownership_transfer_approved());
    assert_eq!(o.accept_ownership(), Ok(()));
    assert!(o.owner.key_eq(&key(2)));
    assert!(o.pending_owner.is_default());
    assert!(!o.is_ownership_transfer_in_progress());
    assert_eq!(o.initiate_ownership_transfer(key(3)), Ok(()));
    assert_eq!(o.abort_ownership_transfer(), Ok(()));
    assert!(o.owner.key_eq(&key(2)));
}

#[test]
fn deleveraging_marks() {
    let mut o = Obligation::default();
    assert_eq!(o.check_not_marked_for_deleveraging(), Ok(()));
    o.mark_for_deleveraging(1000, 60);
    assert!(o.is_marked_for_deleveraging());
    assert_eq!(o.check_not_marked_for_deleveraging(), Err(LendingError::ObligationCurrentlyMarkedForDeleveraging));
    o.unmark_for_deleveraging();
    assert!(!o.is_marked_for_deleveraging());
    assert_eq!(o.autodeleverage_target_ltv_pct, 0);
}

#[test]
fn borrowed_amount_if_single_token() {
    let mut o = Obligation::default();
    o.borrows[0] = ObligationLiquidity::new(key(1), BigFraction::from_num(1));
    o.borrows[0].borrowed_amount_sf = 5 * ONE + 1;
    assert_eq!(o.get_borrowed_amount_if_single_token(), Some(6));
    o.borrows[1] = ObligationLiquidity::new(key(2), BigFraction::from_num(1));
    assert_eq!(o.get_borrowed_amount_if_single_token(), None);
    assert!(!o.is_single_debt_single_coll());
}

#[test]
fn borrow_orders_and_expiry() {
    let mut o = Obligation::default();
    o.head_borrow_order.remaining_debt_amount = 5;
    o.head_borrow_order.fillable_until_timestamp = 100;
    o.tail_borrow_orders[1].remaining_debt_amount = 7;
    o.tail_borrow_orders[1].fillable_until_timestamp = 300;
    assert_eq!(o.borrow_orders().len(), 3);
    assert_eq!(o.active_borrow_orders().len(), 2);
    assert_eq!(o.get_borrow_order(2).map(|b| b.remaining_debt_amount), Ok(7));
    assert_eq!(o.get_borrow_order(3).err(), Some(LendingError::OrderIndexOutOfBounds));
    o.clear_expired_borrow_orders(200);
    assert!(o.head_borrow_order.is_void());
    assert_eq!(o.tail_borrow_orders[1].remaining_debt_amount, 7);
    o.get_borrow_order_mut(1).unwrap().remaining_debt_amount = 9;
    assert_eq!(o.tail_borrow_orders[0].remaining_debt_amount, 9);
}

#[test]
fn borrow_order_rollover_config() {
    let mut b = BorrowOrder::default();
    assert!(b.get_rollover_config_for_filled_borrow().is_none());
    b.enable_auto_rollover_on_filled_borrows = 1;
    b.min_debt_term_seconds = 10;
    b.max_borrow_rate_bps = 500;
    let c = b.get_rollover_config_for_filled_borrow().unwrap();
    assert_eq!(c.auto_rollover_enabled, 1);
    assert_eq!(c.migration_to_fixed_enabled, 1);
    assert_eq!(c.max_borrow_rate_bps, 500);
    assert_eq!(c.get_fixed_term_rollover_window_duration_seconds(), None);
}

#[test]
fn order_consumption() {
    let mut order = ObligationOrder::default();
    order.condition_type = 1;
    order.opportunity_type = 0;
    order.opportunity_parameter_sf = 10 * ONE;
    assert_eq!(order.consume(4).map(|f| f.to_bits()), Some(6 * ONE));
    assert_eq!(order.opportunity_parameter_sf, 6 * ONE);
    assert_eq!(order.consume(100).map(|f| f.to_bits()), Some(0));
    assert!(order.is_void());
    let mut target = ObligationOrder::default();
    target.condition_type = 1;
    target.opportunity_type = 2;
    target.opportunity_parameter_sf = ONE / 2;
    assert_eq!(target.consume_fully(), None);
    assert_eq!(target.opportunity_parameter_sf, ONE / 2);
    assert_eq!(
        target.opportunity(),
        OrderOpportunity::Deleverage(OrderSize::ToTargetLtv(Fraction::from_bits(ONE / 2)))
    );
    assert_eq!(
        target.check_expected_opportunity_type(OpportunityType::LeverUpToTargetLtv),
        Err(LendingError::ObligationOrderOpportunityTypeMismatch)
    );
    assert_eq!(target.check_expected_opportunity_type(OpportunityType::DeleverageToTargetLtv), Ok(()));
}

#[test]
fn config_update_subject() {
    assert_eq!(
        ObligationConfigUpdateSubject::resolve(Some(key(1)), Some(key(2))).err(),
        Some(LendingError::InvalidObligationConfigUpdateSubject)
    );
    let s = ObligationConfigUpdateSubject::resolve(None, Some(key(2))).unwrap();
    assert_eq!(s.borrow_reserve_address().map(|k| k.bytes), Ok([2; 32]));
    let d = ObligationConfigUpdateSubject::resolve(Some(key(1)), None).unwrap();
    assert_eq!(d.borrow_reserve_address().err(), Some(LendingError::InvalidObligationConfigUpdateSubject));
}
