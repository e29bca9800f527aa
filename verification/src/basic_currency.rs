//! A single currency seen as an orml `BasicCurrency` (`PeaqBasicCurrencyAdapter`).

use vstd::prelude::*;

use crate::multi_currency::passed;
use crate::types::{CurrencyError, Reason};

verus! {

/// The adapter of a pallet currency to a basic currency.
pub struct PeaqBasicCurrencyAdapter;

impl PeaqBasicCurrencyAdapter {
    /// Whether `who` can withdraw `amount`: "Insufficient balance" where its free balance does
    /// not cover it, and otherwise the currency's own check of the withdrawal of `amount` from
    /// `who`, handed the balance that would be left.
    pub fn ensure_can_withdraw<
        A,
        E,
        FB: FnOnce(&A) -> u128,
        FE: FnOnce(&A, u128, u128) -> Result<(), E>,
    >(who: &A, amount: u128, free_balance: FB, currency_ensure_can_withdraw: FE) -> (res: Result<
        (),
        CurrencyError<E>,
    >)
        requires
            call_requires(free_balance, (who,)),
            forall|new_balance: u128|
                call_requires(currency_ensure_can_withdraw, (who, amount, new_balance)),
        ensures
            exists|b: u128|
                #[trigger] call_ensures(free_balance, (who,), b) && if b < amount {
                    res == Err::<(), CurrencyError<E>>(
                        CurrencyError::Other(Reason::InsufficientBalance),
                    )
                } else {
                    exists|r: Result<(), E>|
                        #[trigger] call_ensures(
                            currency_ensure_can_withdraw,
                            (who, amount, (b - amount) as u128),
                            r,
                        ) && res == passed(r)
                },
    {
        let b = free_balance(who);
        match b.checked_sub(amount) {
            None => Err(CurrencyError::Other(Reason::InsufficientBalance)),
            Some(new_balance) => {
                let r = currency_ensure_can_withdraw(who, amount, new_balance);
                let res = match r {
                    Ok(()) => Ok(()),
                    Err(e) => Err(CurrencyError::Passed(e)),
                };
                assert(call_ensures(currency_ensure_can_withdraw, (who, amount, new_balance), r));
                res
            },
        }
    }

    /// Deposits `amount` into `who`: nothing for a zero amount, and otherwise "Deposit failed"
    /// unless the currency's deposit of `amount` into `who` creates exactly `amount`
    /// (`deposit_creating` returns what it created).
    pub fn deposit<A, FD: FnOnce(&A, u128) -> u128>(
        who: &A,
        amount: u128,
        deposit_creating: FD,
    ) -> (res: Result<(), Reason>)
        requires
            call_requires(deposit_creating, (who, amount)),
        ensures
            amount == 0 ==> res == Ok::<(), Reason>(()),
            amount != 0 ==> exists|created: u128|
                #[trigger] call_ensures(deposit_creating, (who, amount), created) && res == if created
                    == amount {
                    Ok::<(), Reason>(())
                } else {
                    Err(Reason::DepositFailed)
                },
    {
        if amount != 0 {
            let created = deposit_creating(who, amount);
            if created != amount {
                return Err(Reason::DepositFailed);
            }
        }
        Ok(())
    }
}

} // verus!
