use std::cell::Cell;

use peaq_runtime::basic_currency::PeaqBasicCurrencyAdapter;
use peaq_runtime::local_asset::PeaqNewLocalAssetAdaptor;
use peaq_runtime::lp::NewPeaqZenlinkLpGenerate;
use peaq_runtime::multi_currency::PeaqMultiCurrenciesWrapper;
use peaq_runtime::types::{map_err_newcurrency2zasset, CurrencyError, CurrencyId, Reason, TxError};

const NATIVE: CurrencyId = CurrencyId::Token(0);
const ASSET: CurrencyId = CurrencyId::Token(2);

fn wrapper() -> PeaqMultiCurrenciesWrapper {
    PeaqMultiCurrenciesWrapper { native_currency_id: NATIVE }
}

#[test]
fn balances_are_routed_by_currency() {
    let w = wrapper();
    assert_eq!(w.minimum_balance(NATIVE, || 1, |_: CurrencyId| 2), 1);
    assert_eq!(w.minimum_balance(ASSET, || 1, |c: CurrencyId| if c == ASSET { 2 } else { 0 }), 2);
    assert_eq!(w.total_issuance(NATIVE, || 10, |_: CurrencyId| 20), 10);
    assert_eq!(w.total_issuance(ASSET, || 10, |c: CurrencyId| if c == ASSET { 20 } else { 0 }), 20);
    assert_eq!(w.total_balance(NATIVE, &7u64, |a: &u64| *a as u128 * 3, |_: CurrencyId, _: &u64| 4), 21);
    assert_eq!(w.total_balance(ASSET, &7u64, |_: &u64| 3, |c: CurrencyId, a: &u64| {
        assert_eq!(c, ASSET);
        *a as u128 + 4
    }), 11);
    assert_eq!(w.free_balance(NATIVE, &1u64, |_: &u64| 5, |_: CurrencyId, _: &u64| 6), 5);
    assert_eq!(
        w.free_balance(CurrencyId::LPToken(0, 2), &1u64, |_: &u64| 5, |_: CurrencyId, _: &u64| 6),
        6
    );
}

#[test]
fn ensure_can_withdraw_routes_and_reports() {
    let w = wrapper();
    let r: Result<(), CurrencyError<&str>> =
        w.ensure_can_withdraw(NATIVE, &1u64, 5, |_: &u64, _: u128| Err("frozen"), |_: CurrencyId, _: &u64, _: u128| true);
    assert_eq!(r, Err(CurrencyError::Passed("frozen")));
    let r: Result<(), CurrencyError<&str>> = w.ensure_can_withdraw(
        ASSET,
        &1u64,
        5,
        |_: &u64, _: u128| Err("frozen"),
        |c: CurrencyId, who: &u64, amount: u128| c == ASSET && *who == 1 && amount == 5,
    );
    assert_eq!(r, Ok(()));
    let r: Result<(), CurrencyError<&str>> =
        w.ensure_can_withdraw(ASSET, &1u64, 5, |_: &u64, _: u128| Ok(()), |_: CurrencyId, _: &u64, _: u128| false);
    assert_eq!(r, Err(CurrencyError::Other(Reason::InsufficientBalance)));
}

#[test]
fn transfer_of_nothing_or_to_self_does_nothing() {
    let w = wrapper();
    let called = Cell::new(false);
    let r: Result<(), CurrencyError<()>> = w.transfer(
        ASSET,
        &1u64,
        &2u64,
        0,
        |_: &u64, _: &u64, _: u128| {
            called.set(true);
            Err(())
        },
        |_: CurrencyId, _: &u64, _: &u64, _: u128| -> Result<(), ()> {
            called.set(true);
            Err(())
        },
    );
    assert_eq!(r, Ok(()));
    let r: Result<(), CurrencyError<()>> = w.transfer(
        NATIVE,
        &1u64,
        &1u64,
        5,
        |_: &u64, _: &u64, _: u128| {
            called.set(true);
            Err(())
        },
        |_: CurrencyId, _: &u64, _: &u64, _: u128| -> Result<(), ()> {
            called.set(true);
            Err(())
        },
    );
    assert_eq!(r, Ok(()));
    assert!(!called.get());
}

#[test]
fn transfer_errors() {
    let w = wrapper();
    let seen = Cell::new((0u64, 0u64, 0u128));
    let r: Result<(), CurrencyError<&str>> = w.transfer(
        NATIVE,
        &1u64,
        &2u64,
        5,
        |from: &u64, to: &u64, amount: u128| {
            seen.set((*from, *to, amount));
            Err("native")
        },
        |_: CurrencyId, _: &u64, _: &u64, _: u128| -> Result<(), ()> { Ok(()) },
    );
    assert_eq!(r, Err(CurrencyError::Passed("native")));
    assert_eq!(seen.get(), (1, 2, 5));
    let r: Result<(), CurrencyError<&str>> = w.transfer(
        ASSET,
        &1u64,
        &2u64,
        5,
        |_: &u64, _: &u64, _: u128| Ok(()),
        |_: CurrencyId, _: &u64, _: &u64, _: u128| -> Result<(), u8> { Err(9) },
    );
    assert_eq!(r, Err(CurrencyError::Other(Reason::TransferFailed)));
    let r: Result<(), CurrencyError<&str>> = w.transfer(
        ASSET,
        &1u64,
        &2u64,
        5,
        |_: &u64, _: &u64, _: u128| Err("x"),
        |c: CurrencyId, from: &u64, to: &u64, amount: u128| -> Result<(), u8> {
            assert_eq!((c, *from, *to, amount), (ASSET, 1, 2, 5));
            Ok(())
        },
    );
    assert_eq!(r, Ok(()));
}

#[test]
fn deposit_and_withdraw_errors() {
    let w = wrapper();
    let r: Result<(), CurrencyError<&str>> =
        w.deposit(ASSET, &1u64, 0, |_: &u64, _: u128| Err("n"), |_: CurrencyId, _: &u64, _: u128| -> Result<(), u8> { Err(1) });
    assert_eq!(r, Ok(()));
    let r: Result<(), CurrencyError<&str>> =
        w.deposit(ASSET, &1u64, 3, |_: &u64, _: u128| Ok(()), |_: CurrencyId, _: &u64, _: u128| -> Result<(), u8> { Err(1) });
    assert_eq!(r, Err(CurrencyError::Other(Reason::DepositFailed)));
    let r: Result<(), CurrencyError<&str>> = w.deposit(
        ASSET,
        &1u64,
        3,
        |_: &u64, _: u128| Err("n"),
        |c: CurrencyId, who: &u64, amount: u128| -> Result<(), u8> {
            assert_eq!((c, *who, amount), (ASSET, 1, 3));
            Ok(())
        },
    );
    assert_eq!(r, Ok(()));
    let r: Result<(), CurrencyError<&str>> =
        w.deposit(NATIVE, &1u64, 3, |_: &u64, _: u128| Err("n"), |_: CurrencyId, _: &u64, _: u128| -> Result<(), u8> { Ok(()) });
    assert_eq!(r, Err(CurrencyError::Passed("n")));
    let r: Result<(), CurrencyError<&str>> =
        w.withdraw(ASSET, &1u64, 3, |_: &u64, _: u128| Ok(()), |_: CurrencyId, _: &u64, _: u128| -> Result<(), u8> { Err(1) });
    assert_eq!(r, Err(CurrencyError::Other(Reason::WithdrawFailed)));
    let r: Result<(), CurrencyError<&str>> =
        w.withdraw(NATIVE, &1u64, 0, |_: &u64, _: u128| Err("n"), |_: CurrencyId, _: &u64, _: u128| -> Result<(), u8> { Err(1) });
    assert_eq!(r, Ok(()));
    let r: Result<(), CurrencyError<&str>> = w.withdraw(
        NATIVE,
        &4u64,
        9,
        |who: &u64, amount: u128| if *who == 4 && amount == 9 { Err("n") } else { Ok(()) },
        |_: CurrencyId, _: &u64, _: u128| -> Result<(), u8> { Ok(()) },
    );
    assert_eq!(r, Err(CurrencyError::Passed("n")));
}

#[test]
fn can_slash_and_slash() {
    let w = wrapper();
    assert!(!w.can_slash(NATIVE, &1u64, 10, |_: &u64, _: u128| false, |_: CurrencyId, _: &u64| 100));
    assert!(w.can_slash(ASSET, &1u64, 10, |_: &u64, _: u128| false, |_: CurrencyId, _: &u64| 10));
    assert!(!w.can_slash(ASSET, &1u64, 11, |_: &u64, _: u128| true, |_: CurrencyId, _: &u64| 10));
    assert_eq!(w.slash(NATIVE, &1u64, 6, |_: &u64, a: u128| a - 2, |_: CurrencyId, _: &u64, _: u128| -> Result<u128, ()> { Ok(1) }), Some(4));
    assert_eq!(w.slash(ASSET, &1u64, 6, |_: &u64, _: u128| 4, |_: CurrencyId, _: &u64, a: u128| -> Result<u128, ()> { Ok(a) }), Some(6));
    assert_eq!(w.slash(ASSET, &1u64, 6, |_: &u64, _: u128| 4, |_: CurrencyId, _: &u64, _: u128| -> Result<u128, ()> { Err(()) }), None);
}

fn to_currency(z: u32) -> Option<CurrencyId> {
    match z {
        0..=255 => Some(CurrencyId::Token(z as u8)),
        _ => None,
    }
}

#[test]
fn local_balances() {
    assert_eq!(PeaqNewLocalAssetAdaptor::local_balance_of(3u32, &9u64, to_currency, |c: CurrencyId, who: &u64| {
        assert_eq!((c, *who), (CurrencyId::Token(3), 9));
        42
    }), 42);
    assert_eq!(PeaqNewLocalAssetAdaptor::local_balance_of(300u32, &9u64, to_currency, |_: CurrencyId, _: &u64| 42), 0);
    assert_eq!(PeaqNewLocalAssetAdaptor::local_total_supply(1u32, to_currency, |_: CurrencyId| 7), 7);
    assert_eq!(PeaqNewLocalAssetAdaptor::local_total_supply(999u32, to_currency, |_: CurrencyId| 7), 0);
    assert!(PeaqNewLocalAssetAdaptor::local_is_exists(1u32, to_currency));
    assert!(!PeaqNewLocalAssetAdaptor::local_is_exists(1000u32, to_currency));
}

#[test]
fn local_moves() {
    let r = PeaqNewLocalAssetAdaptor::local_transfer(1u32, &1u64, &2u64, 5, to_currency, |c: CurrencyId, o: &u64, t: &u64, a: u128| -> Result<(), &str> {
        assert_eq!((c, *o, *t, a), (CurrencyId::Token(1), 1, 2, 5));
        Ok(())
    });
    assert_eq!(r, Ok(()));
    let r = PeaqNewLocalAssetAdaptor::local_transfer(1u32, &1u64, &2u64, 5, to_currency, |_: CurrencyId, _: &u64, _: &u64, _: u128| Err("low"));
    assert_eq!(r, Err(CurrencyError::Passed("low")));
    let r = PeaqNewLocalAssetAdaptor::local_transfer(1000u32, &1u64, &2u64, 5, to_currency, |_: CurrencyId, _: &u64, _: &u64, _: u128| -> Result<(), ()> { Ok(()) });
    assert_eq!(r, Err(CurrencyError::Other(Reason::UnknownAsset)));
    let r = PeaqNewLocalAssetAdaptor::local_deposit(2u32, &3u64, 8, to_currency, |c: CurrencyId, o: &u64, a: u128| -> Result<(), ()> {
        assert_eq!((c, *o, a), (CurrencyId::Token(2), 3, 8));
        Ok(())
    });
    assert_eq!(r, Ok(8));
    let r = PeaqNewLocalAssetAdaptor::local_deposit(2u32, &3u64, 8, to_currency, |_: CurrencyId, _: &u64, _: u128| Err("full"));
    assert_eq!(r, Err(CurrencyError::Passed("full")));
    let r = PeaqNewLocalAssetAdaptor::local_deposit(700u32, &3u64, 8, to_currency, |_: CurrencyId, _: &u64, _: u128| -> Result<(), ()> { Ok(()) });
    assert_eq!(r, Err(CurrencyError::Other(Reason::UnknownAsset)));
    let r = PeaqNewLocalAssetAdaptor::local_withdraw(2u32, &3u64, 8, to_currency, |_: CurrencyId, _: &u64, _: u128| -> Result<(), ()> { Ok(()) });
    assert_eq!(r, Ok(8));
    let r = PeaqNewLocalAssetAdaptor::local_withdraw(2u32, &3u64, 8, to_currency, |_: CurrencyId, _: &u64, _: u128| Err("low"));
    assert_eq!(r, Err(CurrencyError::Passed("low")));
    let r = PeaqNewLocalAssetAdaptor::local_withdraw(700u32, &3u64, 8, to_currency, |_: CurrencyId, _: &u64, _: u128| -> Result<(), ()> { Ok(()) });
    assert_eq!(r, Err(CurrencyError::Other(Reason::UnknownAsset)));
}

#[test]
fn basic_currency_withdraw_check() {
    let seen = Cell::new((0u64, 0u128, 0u128));
    let r = PeaqBasicCurrencyAdapter::ensure_can_withdraw(&5u64, 30, |_: &u64| 100, |who: &u64, amount: u128, left: u128| -> Result<(), ()> {
        seen.set((*who, amount, left));
        Ok(())
    });
    assert_eq!(r, Ok(()));
    assert_eq!(seen.get(), (5, 30, 70));
    let r = PeaqBasicCurrencyAdapter::ensure_can_withdraw(&5u64, 130, |_: &u64| 100, |_: &u64, _: u128, _: u128| -> Result<(), ()> { Ok(()) });
    assert_eq!(r, Err(CurrencyError::Other(Reason::InsufficientBalance)));
    let r = PeaqBasicCurrencyAdapter::ensure_can_withdraw(&5u64, 30, |_: &u64| 100, |_: &u64, _: u128, _: u128| Err("locked"));
    assert_eq!(r, Err(CurrencyError::Passed("locked")));
}

#[test]
fn basic_currency_deposit_must_be_exact() {
    assert_eq!(PeaqBasicCurrencyAdapter::deposit(&1u64, 0, |_: &u64, _: u128| -> u128 { panic!("no deposit for zero") }), Ok(()));
    assert_eq!(PeaqBasicCurrencyAdapter::deposit(&1u64, 10, |_: &u64, a: u128| a), Ok(()));
    assert_eq!(PeaqBasicCurrencyAdapter::deposit(&1u64, 10, |_: &u64, _: u128| 0), Err(Reason::DepositFailed));
}

#[test]
fn error_codes_of_currencies() {
    assert_eq!(map_err_newcurrency2zasset(CurrencyId::Token(7)), TxError::Custom(7));
    assert_eq!(map_err_newcurrency2zasset(CurrencyId::LPToken(1, 2)), TxError::Custom(255));
}

fn lp_to_currency(z: u32) -> Option<CurrencyId> {
    match z {
        0..=255 => Some(CurrencyId::Token(z as u8)),
        1000 => Some(CurrencyId::LPToken(0, 1)),
        _ => None,
    }
}

fn lp_to_zen(c: CurrencyId) -> Option<u32> {
    match c {
        CurrencyId::Token(s) => Some(s as u32),
        CurrencyId::LPToken(a, b) => Some(10_000 + 100 * a as u32 + b as u32),
    }
}

#[test]
fn lp_ids_of_token_pairs() {
    let created = Cell::new(None);
    let r = NewPeaqZenlinkLpGenerate::generate_lp_asset_id(
        3u32,
        5u32,
        lp_to_currency,
        |_: CurrencyId| false,
        |c: CurrencyId| {
            created.set(Some(c));
            true
        },
        lp_to_zen,
    );
    assert_eq!(r, Some(10_305));
    assert_eq!(created.get(), Some(CurrencyId::LPToken(3, 5)));
    let r = NewPeaqZenlinkLpGenerate::generate_lp_asset_id(
        5u32,
        3u32,
        lp_to_currency,
        |_: CurrencyId| true,
        |_: CurrencyId| panic!("exists already"),
        lp_to_zen,
    );
    assert_eq!(r, Some(10_503));
}

#[test]
fn lp_ids_refused() {
    let never = |_: CurrencyId| -> bool { panic!("not reached") };
    assert_eq!(NewPeaqZenlinkLpGenerate::generate_lp_asset_id(3u32, 1000u32, lp_to_currency, never, never, lp_to_zen), None);
    assert_eq!(NewPeaqZenlinkLpGenerate::generate_lp_asset_id(3u32, 5000u32, lp_to_currency, never, never, lp_to_zen), None);
    assert_eq!(NewPeaqZenlinkLpGenerate::generate_lp_asset_id(5000u32, 3u32, lp_to_currency, never, never, lp_to_zen), None);
    let r = NewPeaqZenlinkLpGenerate::generate_lp_asset_id(3u32, 4u32, lp_to_currency, |_: CurrencyId| false, |_: CurrencyId| false, lp_to_zen);
    assert_eq!(r, None);
}

#[test]
fn asset_free_balance_equals_total_balance() {
    let w = wrapper();
    let query = |c: CurrencyId, who: &u64| if c == ASSET { *who as u128 * 10 } else { 0 };
    let free = w.free_balance(ASSET, &4u64, |_: &u64| 1, query);
    let total = w.total_balance(ASSET, &4u64, |_: &u64| 2, query);
    assert_eq!(free, 40);
    assert_eq!(free, total);
}

#[test]
fn unknown_asset_is_empty_and_refused() {
    let id = 4000u32;
    assert!(!PeaqNewLocalAssetAdaptor::local_is_exists(id, to_currency));
    let never_read = |_: CurrencyId, _: &u64| -> u128 { panic!("no currency to read") };
    assert_eq!(PeaqNewLocalAssetAdaptor::local_balance_of(id, &1u64, to_currency, never_read), 0);
    assert_eq!(PeaqNewLocalAssetAdaptor::local_total_supply(id, to_currency, |_: CurrencyId| -> u128 { panic!("no currency") }), 0);
    let r = PeaqNewLocalAssetAdaptor::local_transfer(id, &1u64, &2u64, 3, to_currency, |_: CurrencyId, _: &u64, _: &u64, _: u128| -> Result<(), ()> { panic!("no transfer") });
    assert_eq!(r, Err(CurrencyError::Other(Reason::UnknownAsset)));
    let never_move = |_: CurrencyId, _: &u64, _: u128| -> Result<(), ()> { panic!("no move") };
    assert_eq!(PeaqNewLocalAssetAdaptor::local_deposit(id, &1u64, 3, to_currency, never_move), Err(CurrencyError::Other(Reason::UnknownAsset)));
    assert_eq!(PeaqNewLocalAssetAdaptor::local_withdraw(id, &1u64, 3, to_currency, never_move), Err(CurrencyError::Other(Reason::UnknownAsset)));
}

#[test]
fn transfer_between_equal_accounts_uses_their_equality() {
    let w = wrapper();
    let a = String::from("alice");
    let b = String::from("alice");
    let r: Result<(), CurrencyError<()>> = w.transfer(
        ASSET,
        &a,
        &b,
        5,
        |_: &String, _: &String, _: u128| -> Result<(), ()> { panic!("no transfer to self") },
        |_: CurrencyId, _: &String, _: &String, _: u128| -> Result<(), ()> { panic!("no transfer to self") },
    );
    assert_eq!(r, Ok(()));
    let c = String::from("bob");
    let r: Result<(), CurrencyError<()>> = w.transfer(
        ASSET,
        &a,
        &c,
        5,
        |_: &String, _: &String, _: u128| Ok(()),
        |_: CurrencyId, _: &String, _: &String, _: u128| -> Result<(), ()> { Err(()) },
    );
    assert_eq!(r, Err(CurrencyError::Other(Reason::TransferFailed)));
}
