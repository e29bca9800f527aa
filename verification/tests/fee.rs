use std::cell::Cell;

use peaq_runtime::fee::NewPeaqCurrencyAdapter;
use peaq_runtime::types::{CurrencyId, Existence, FeeReasons, TxError};

const HALF: u32 = 500_000_000;

#[test]
fn eot_fee_adds_factor_of_inclusion_fee() {
    let a = NewPeaqCurrencyAdapter { eot_fee_factor: HALF };
    assert_eq!(a.eot_tx_fee(100, 10), 145);
    assert_eq!(a.eot_tx_fee(100, 100), 100);
    assert_eq!(a.eot_tx_fee(u128::MAX, 0), u128::MAX);
}

#[test]
fn eot_adjustment_rounds_half_down() {
    // 3 * 0.5 = 1.5 is rounded down to 1; 3 * 0.500000001 is rounded up to 2.
    let half = NewPeaqCurrencyAdapter { eot_fee_factor: HALF };
    assert_eq!(half.eot_tx_fee(3, 0), 4);
    let above = NewPeaqCurrencyAdapter { eot_fee_factor: HALF + 1 };
    assert_eq!(above.eot_tx_fee(3, 0), 5);
    let tenth = NewPeaqCurrencyAdapter { eot_fee_factor: 100_000_000 };
    assert_eq!(tenth.eot_tx_fee(1_000, 0), 1_100);
}

#[test]
fn eot_factor_is_capped_at_one() {
    let a = NewPeaqCurrencyAdapter { eot_fee_factor: 2_000_000_000 };
    assert_eq!(a.eot_tx_fee(7, 0), 14);
    assert_eq!(a.eot_tx_fee(7, 3), 11);
    let none = NewPeaqCurrencyAdapter { eot_fee_factor: 0 };
    assert_eq!(none.eot_tx_fee(7, 3), 7);
}

#[test]
fn zero_fee_withdraws_nothing() {
    let a = NewPeaqCurrencyAdapter { eot_fee_factor: HALF };
    let called = Cell::new(false);
    let r = a.withdraw_fee(
        0,
        0,
        |_: u128| -> Result<CurrencyId, TxError> {
            called.set(true);
            Ok(CurrencyId::Token(0))
        },
        |_: u128, _: FeeReasons, _: Existence| -> Result<u32, ()> {
            called.set(true);
            Ok(1)
        },
    );
    assert_eq!(r, Ok(None));
    assert!(!called.get());
}

#[test]
fn fee_withdrawn_with_eot_adjustment_and_reasons() {
    let a = NewPeaqCurrencyAdapter { eot_fee_factor: HALF };
    let checked = Cell::new(0u128);
    let seen = Cell::new((0u128, FeeReasons::TransactionPayment));
    let r = a.withdraw_fee(
        100,
        10,
        |fee: u128| {
            checked.set(fee);
            Ok(CurrencyId::Token(0))
        },
        |fee: u128, reasons: FeeReasons, existence: Existence| -> Result<u128, ()> {
            assert_eq!(existence, Existence::KeepAlive);
            seen.set((fee, reasons));
            Ok(fee)
        },
    );
    assert_eq!(r, Ok(Some(145)));
    assert_eq!(checked.get(), 145);
    assert_eq!(seen.get(), (145, FeeReasons::TransactionPaymentAndTip));
}

#[test]
fn fee_without_tip_is_payment_only() {
    let a = NewPeaqCurrencyAdapter { eot_fee_factor: 0 };
    let seen = Cell::new(FeeReasons::TransactionPaymentAndTip);
    let r = a.withdraw_fee(
        50,
        0,
        |_: u128| Ok(CurrencyId::Token(0)),
        |fee: u128, reasons: FeeReasons, existence: Existence| -> Result<u128, ()> {
            assert_eq!(existence, Existence::KeepAlive);
            seen.set(reasons);
            Ok(fee)
        },
    );
    assert_eq!(r, Ok(Some(50)));
    assert_eq!(seen.get(), FeeReasons::TransactionPayment);
}

#[test]
fn unpayable_fee_error_is_handed_up() {
    let a = NewPeaqCurrencyAdapter { eot_fee_factor: HALF };
    let r = a.withdraw_fee(
        100,
        0,
        |_: u128| Err(TxError::Custom(3)),
        |_: u128, _: FeeReasons, _: Existence| -> Result<u8, ()> { panic!("must not withdraw") },
    );
    assert_eq!(r, Err(TxError::Custom(3)));
}

#[test]
fn failed_withdrawal_refuses_payment() {
    let a = NewPeaqCurrencyAdapter { eot_fee_factor: HALF };
    let r = a.withdraw_fee(
        100,
        0,
        |_: u128| Ok(CurrencyId::Token(0)),
        |_: u128, _: FeeReasons, _: Existence| -> Result<u8, &'static str> { Err("no funds") },
    );
    assert_eq!(r, Err(TxError::Payment));
}

#[test]
fn refund_of_overpaid_fee() {
    let a = NewPeaqCurrencyAdapter { eot_fee_factor: HALF };
    assert_eq!(a.correct_and_deposit_fee(50, 10, Some(145)), Some(75));
    assert_eq!(a.correct_and_deposit_fee(50, 10, None), None);
}

#[test]
fn corrected_fee_equal_to_predicted_refunds_nothing() {
    let a = NewPeaqCurrencyAdapter { eot_fee_factor: 123_456_789 };
    let paid = a.eot_tx_fee(1_000_000, 1_000);
    assert_eq!(a.correct_and_deposit_fee(1_000_000, 1_000, Some(paid)), Some(0));
}

#[test]
fn refund_never_exceeds_payment() {
    let a = NewPeaqCurrencyAdapter { eot_fee_factor: HALF };
    // The corrected fee is above what was paid: nothing is refunded.
    assert_eq!(a.correct_and_deposit_fee(1_000, 0, Some(10)), Some(0));
    // A zero corrected fee refunds everything.
    assert_eq!(a.correct_and_deposit_fee(0, 0, Some(10)), Some(10));
}

#[test]
fn lower_corrected_fee_refunds_more() {
    let a = NewPeaqCurrencyAdapter { eot_fee_factor: HALF };
    let high = a.correct_and_deposit_fee(80, 5, Some(200)).unwrap();
    let low = a.correct_and_deposit_fee(40, 5, Some(200)).unwrap();
    assert!(low >= high);
    assert_eq!(high, 200 - (80 + 37));
    assert_eq!(low, 200 - (40 + 17));
}

#[test]
fn settlement_splits_kept_fee_into_fee_and_tip() {
    assert_eq!(NewPeaqCurrencyAdapter::settle_fee(145, 75, 10), Ok((60, 10)));
    assert_eq!(NewPeaqCurrencyAdapter::settle_fee(145, 140, 10), Ok((0, 5)));
    assert_eq!(NewPeaqCurrencyAdapter::settle_fee(145, 145, 10), Ok((0, 0)));
    assert_eq!(NewPeaqCurrencyAdapter::settle_fee(145, 0, 0), Ok((145, 0)));
}

#[test]
fn settlement_refuses_refund_above_payment() {
    assert_eq!(NewPeaqCurrencyAdapter::settle_fee(10, 11, 0), Err(TxError::Payment));
}

#[test]
fn settlement_accounts_for_every_unit() {
    let a = NewPeaqCurrencyAdapter { eot_fee_factor: HALF };
    let paid = a.eot_tx_fee(100, 10);
    let refund = a.correct_and_deposit_fee(50, 10, Some(paid)).unwrap();
    let (fee, tip) = NewPeaqCurrencyAdapter::settle_fee(paid, refund, 10).unwrap();
    assert_eq!(fee + tip + refund, paid);
    assert_eq!((fee, tip), (60, 10));
}
