use std::cell::{Cell, RefCell};

use peaq_runtime::payment::NewPeaqCurrencyPaymentConvert;
use peaq_runtime::types::{CurrencyId, TxError};

const NATIVE: CurrencyId = CurrencyId::Token(0);
const A: CurrencyId = CurrencyId::Token(4);
const B: CurrencyId = CurrencyId::Token(5);
const C: CurrencyId = CurrencyId::Token(6);

fn config(ids: Vec<CurrencyId>) -> NewPeaqCurrencyPaymentConvert {
    NewPeaqCurrencyPaymentConvert {
        native_currency_id: NATIVE,
        local_accepted_ids: ids,
        existential_deposit: 10,
    }
}

fn to_zen(c: CurrencyId) -> Option<u32> {
    match c {
        CurrencyId::Token(s) if s < 200 => Some(100 + s as u32),
        _ => None,
    }
}

#[test]
fn native_currency_pays_first() {
    let cfg = config(vec![A, B]);
    let r = cfg.check_currencies_n_priorities(
        50,
        |fee: u128| fee == 50,
        |_: CurrencyId| -> Option<u32> { panic!("no conversion needed") },
        |_: u128, _: u32, _: u32| -> Option<u128> { panic!("no quote needed") },
        |_: CurrencyId, _: u128| -> bool { panic!("no local check needed") },
    );
    let (id, info) = r.unwrap();
    assert_eq!(id, NATIVE);
    assert!(info.is_none());
}

#[test]
fn first_affordable_local_currency_is_chosen() {
    let cfg = config(vec![A, B, C]);
    let asked = RefCell::new(Vec::new());
    let r = cfg.check_currencies_n_priorities(
        50,
        |_: u128| false,
        to_zen,
        |out: u128, from: u32, into: u32| {
            asked.borrow_mut().push((out, from, into));
            if from == 104 { None } else { Some(out * 2) }
        },
        |id: CurrencyId, amount: u128| id == B && amount == 120 || id == C,
    );
    let (id, info) = r.unwrap();
    assert_eq!(id, B);
    let info = info.unwrap();
    assert_eq!(info.amount_out, 60);
    assert_eq!(info.amount_in, 120);
    assert_eq!(info.zen_path, vec![105, 100]);
    assert_eq!(*asked.borrow(), vec![(60, 104, 100), (60, 105, 100)]);
}

#[test]
fn unaffordable_quote_moves_on() {
    let cfg = config(vec![A, B]);
    let r = cfg.check_currencies_n_priorities(
        5,
        |_: u128| false,
        to_zen,
        |out: u128, _: u32, _: u32| Some(out + 1),
        |id: CurrencyId, _: u128| id == B,
    );
    let (id, info) = r.unwrap();
    assert_eq!(id, B);
    assert_eq!(info.unwrap().amount_in, 16);
}

#[test]
fn no_currency_can_pay() {
    let cfg = config(vec![A, B]);
    let r = cfg.check_currencies_n_priorities(
        5,
        |_: u128| false,
        to_zen,
        |out: u128, _: u32, _: u32| Some(out),
        |_: CurrencyId, _: u128| false,
    );
    assert!(matches!(r, Err(TxError::Payment)));
    let r = config(vec![]).check_currencies_n_priorities(
        5,
        |_: u128| false,
        to_zen,
        |out: u128, _: u32, _: u32| Some(out),
        |_: CurrencyId, _: u128| true,
    );
    assert!(matches!(r, Err(TxError::Payment)));
}

#[test]
fn unconvertible_currencies_are_reported_by_code() {
    let r = config(vec![A, CurrencyId::Token(201), B]).check_currencies_n_priorities(
        5,
        |_: u128| false,
        to_zen,
        |_: u128, _: u32, _: u32| None,
        |_: CurrencyId, _: u128| true,
    );
    assert!(matches!(r, Err(TxError::Custom(201))));
    let r = config(vec![CurrencyId::LPToken(1, 2)]).check_currencies_n_priorities(
        5,
        |_: u128| false,
        to_zen,
        |_: u128, _: u32, _: u32| None,
        |_: CurrencyId, _: u128| true,
    );
    assert!(matches!(r, Err(TxError::Custom(255))));
    let cfg = NewPeaqCurrencyPaymentConvert {
        native_currency_id: CurrencyId::Token(250),
        local_accepted_ids: vec![A],
        existential_deposit: 0,
    };
    let r = cfg.check_currencies_n_priorities(
        5,
        |_: u128| false,
        to_zen,
        |_: u128, _: u32, _: u32| Some(1),
        |_: CurrencyId, _: u128| true,
    );
    assert!(matches!(r, Err(TxError::Custom(250))));
}

#[test]
fn swap_amount_saturates() {
    let cfg = config(vec![A]);
    let r = cfg.check_currencies_n_priorities(
        u128::MAX - 3,
        |_: u128| false,
        to_zen,
        |out: u128, _: u32, _: u32| Some(out / 2),
        |_: CurrencyId, _: u128| true,
    );
    assert_eq!(r.unwrap().1.unwrap().amount_out, u128::MAX);
}

#[test]
fn ensure_can_withdraw_swaps_for_local_currency() {
    let cfg = config(vec![A]);
    let swapped = RefCell::new(None);
    let r = cfg.ensure_can_withdraw(
        40,
        |_: u128| false,
        to_zen,
        |out: u128, _: u32, _: u32| Some(out + 7),
        |_: CurrencyId, _: u128| true,
        |out: u128, amount_in: u128, path: Vec<u32>| {
            *swapped.borrow_mut() = Some((out, amount_in, path));
            true
        },
    );
    assert_eq!(r, Ok(A));
    assert_eq!(*swapped.borrow(), Some((50, 57, vec![104, 100])));
}

#[test]
fn ensure_can_withdraw_native_needs_no_swap() {
    let cfg = config(vec![A]);
    let r = cfg.ensure_can_withdraw(
        40,
        |_: u128| true,
        to_zen,
        |_: u128, _: u32, _: u32| Some(1),
        |_: CurrencyId, _: u128| true,
        |_: u128, _: u128, _: Vec<u32>| -> bool { panic!("no swap") },
    );
    assert_eq!(r, Ok(NATIVE));
}

#[test]
fn failed_swap_is_reported_by_code() {
    let cfg = config(vec![A]);
    let r = cfg.ensure_can_withdraw(
        40,
        |_: u128| false,
        to_zen,
        |_: u128, _: u32, _: u32| Some(1),
        |_: CurrencyId, _: u128| true,
        |_: u128, _: u128, _: Vec<u32>| false,
    );
    assert_eq!(r, Err(TxError::Custom(4)));
    let called = Cell::new(false);
    let r = cfg.ensure_can_withdraw(
        40,
        |_: u128| false,
        to_zen,
        |_: u128, _: u32, _: u32| None,
        |_: CurrencyId, _: u128| true,
        |_: u128, _: u128, _: Vec<u32>| {
            called.set(true);
            true
        },
    );
    assert_eq!(r, Err(TxError::Payment));
    assert!(!called.get());
}
