//! Routing of multi-currency operations between the native currency and the assets pallet
//! (`PeaqMultiCurrenciesWrapper`).
//!
//! Each operation takes the calls into the two backends as closures, and hands each of them
//! the currency, accounts and amount it works on; the routing, the short cuts and the mapping
//! of the assets pallet's errors happen here.

use vstd::prelude::*;
use vstd::std_specs::cmp::PartialEqSpec;

use crate::types::{CurrencyError, CurrencyId, Reason};

verus! {

/// The outcome of an operation of the native currency, its error handed up unchanged.
pub open spec fn passed<E>(r: Result<(), E>) -> Result<(), CurrencyError<E>> {
    match r {
        Ok(()) => Ok(()),
        Err(e) => Err(CurrencyError::Passed(e)),
    }
}

/// The outcome of an operation of the assets pallet, any error reported as `reason`.
pub open spec fn reported_as<E, E2>(r: Result<(), E2>, reason: Reason) -> Result<
    (),
    CurrencyError<E>,
> {
    match r {
        Ok(()) => Ok(()),
        Err(_) => Err(CurrencyError::Other(reason)),
    }
}

/// Multi-currency operations over the native currency and the assets pallet, which the
/// native currency's id tells apart.
pub struct PeaqMultiCurrenciesWrapper {
    pub native_currency_id: CurrencyId,
}

impl PeaqMultiCurrenciesWrapper {
    /// Whether `currency_id` is the native currency.
    pub open spec fn is_native(&self, currency_id: CurrencyId) -> bool {
        currency_id == self.native_currency_id
    }

    /// The existential deposit of a currency: the native one's, or the asset's as the assets
    /// pallet keeps it.
    pub fn minimum_balance<FN: FnOnce() -> u128, FA: FnOnce(CurrencyId) -> u128>(
        &self,
        currency_id: CurrencyId,
        native_minimum_balance: FN,
        assets_minimum_balance: FA,
    ) -> (r: u128)
        requires
            call_requires(native_minimum_balance, ()),
            call_requires(assets_minimum_balance, (currency_id,)),
        ensures
            self.is_native(currency_id) ==> call_ensures(native_minimum_balance, (), r),
            !self.is_native(currency_id) ==> call_ensures(
                assets_minimum_balance,
                (currency_id,),
                r,
            ),
    {
        if currency_id == self.native_currency_id {
            native_minimum_balance()
        } else {
            assets_minimum_balance(currency_id)
        }
    }

    /// The total issuance of a currency: the native one's, or the asset's as the assets pallet
    /// keeps it.
    pub fn total_issuance<FN: FnOnce() -> u128, FA: FnOnce(CurrencyId) -> u128>(
        &self,
        currency_id: CurrencyId,
        native_total_issuance: FN,
        assets_total_issuance: FA,
    ) -> (r: u128)
        requires
            call_requires(native_total_issuance, ()),
            call_requires(assets_total_issuance, (currency_id,)),
        ensures
            self.is_native(currency_id) ==> call_ensures(native_total_issuance, (), r),
            !self.is_native(currency_id) ==> call_ensures(
                assets_total_issuance,
                (currency_id,),
                r,
            ),
    {
        if currency_id == self.native_currency_id {
            native_total_issuance()
        } else {
            assets_total_issuance(currency_id)
        }
    }

    /// What a balance query of `who` in a currency returns: the native query's answer for the
    /// native currency, and the assets pallet's answer for that asset otherwise.
    pub open spec fn balance_outcome<A, FN: FnOnce(&A) -> u128, FA: FnOnce(CurrencyId, &A) -> u128>(
        &self,
        currency_id: CurrencyId,
        who: &A,
        native_query: FN,
        assets_balance: FA,
        r: u128,
    ) -> bool {
        &&& self.is_native(currency_id) ==> call_ensures(native_query, (who,), r)
        &&& !self.is_native(currency_id) ==> call_ensures(assets_balance, (currency_id, who), r)
    }

    /// An account's total balance of a currency: the native total balance of `who`, or the
    /// balance of `who` in the asset that the assets pallet holds.
    pub fn total_balance<A, FN: FnOnce(&A) -> u128, FA: FnOnce(CurrencyId, &A) -> u128>(
        &self,
        currency_id: CurrencyId,
        who: &A,
        native_total_balance: FN,
        assets_balance: FA,
    ) -> (r: u128)
        requires
            call_requires(native_total_balance, (who,)),
            call_requires(assets_balance, (currency_id, who)),
        ensures
            self.balance_outcome(currency_id, who, native_total_balance, assets_balance, r),
    {
        if currency_id == self.native_currency_id {
            native_total_balance(who)
        } else {
            assets_balance(currency_id, who)
        }
    }

    /// An account's free balance of a currency: the native free balance of `who`, or the
    /// balance of `who` in the asset that the assets pallet holds.
    pub fn free_balance<A, FN: FnOnce(&A) -> u128, FA: FnOnce(CurrencyId, &A) -> u128>(
        &self,
        currency_id: CurrencyId,
        who: &A,
        native_free_balance: FN,
        assets_balance: FA,
    ) -> (r: u128)
        requires
            call_requires(native_free_balance, (who,)),
            call_requires(assets_balance, (currency_id, who)),
        ensures
            self.balance_outcome(currency_id, who, native_free_balance, assets_balance, r),
    {
        if currency_id == self.native_currency_id {
            native_free_balance(who)
        } else {
            assets_balance(currency_id, who)
        }
    }

    /// Whether `who` can withdraw `amount`: the native currency's answer, handed up, or, for
    /// an asset, success exactly where the assets pallet answers `Success` for that asset,
    /// account and amount, and "Insufficient balance" otherwise.
    pub fn ensure_can_withdraw<
        A,
        E,
        FN: FnOnce(&A, u128) -> Result<(), E>,
        FA: FnOnce(CurrencyId, &A, u128) -> bool,
    >(
        &self,
        currency_id: CurrencyId,
        who: &A,
        amount: u128,
        native_ensure_can_withdraw: FN,
        assets_can_withdraw_success: FA,
    ) -> (res: Result<(), CurrencyError<E>>)
        requires
            call_requires(native_ensure_can_withdraw, (who, amount)),
            call_requires(assets_can_withdraw_success, (currency_id, who, amount)),
        ensures
            self.is_native(currency_id) ==> exists|r: Result<(), E>|
                #[trigger] call_ensures(native_ensure_can_withdraw, (who, amount), r) && res
                    == passed(r),
            !self.is_native(currency_id) ==> exists|ok: bool|
                #[trigger] call_ensures(assets_can_withdraw_success, (currency_id, who, amount), ok)
                    && res == (if ok {
                    Ok(())
                } else {
                    Err(CurrencyError::<E>::Other(Reason::InsufficientBalance))
                }),
    {
        if currency_id == self.native_currency_id {
            let r = native_ensure_can_withdraw(who, amount);
            let res = match r {
                Ok(()) => Ok(()),
                Err(e) => Err(CurrencyError::Passed(e)),
            };
            assert(call_ensures(native_ensure_can_withdraw, (who, amount), r) && res == passed(r));
            res
        } else {
            let ok = assets_can_withdraw_success(currency_id, who, amount);
            if ok {
                Ok(())
            } else {
                Err(CurrencyError::Other(Reason::InsufficientBalance))
            }
        }
    }

    /// Transfers `amount` of a currency from `from` to `to`. Nothing is done, and the transfer
    /// succeeds, where the amount is zero or the accounts are the same (as `A`'s `==` answers
    /// for them); otherwise the native
    /// transfer's outcome is handed up, or the assets pallet's transfer of the asset is made
    /// and any failure reported as "Transfer failed".
    pub fn transfer<
        A: PartialEq,
        E,
        E2,
        FN: FnOnce(&A, &A, u128) -> Result<(), E>,
        FA: FnOnce(CurrencyId, &A, &A, u128) -> Result<(), E2>,
    >(
        &self,
        currency_id: CurrencyId,
        from: &A,
        to: &A,
        amount: u128,
        native_transfer: FN,
        assets_transfer: FA,
    ) -> (res: Result<(), CurrencyError<E>>)
        requires
            call_requires(native_transfer, (from, to, amount)),
            call_requires(assets_transfer, (currency_id, from, to, amount)),
        ensures
            amount == 0 ==> res == Ok::<(), CurrencyError<E>>(()),
            A::obeys_eq_spec() && from.eq_spec(to) ==> res == Ok::<(), CurrencyError<E>>(()),
            res == Ok::<(), CurrencyError<E>>(()) || self.transfer_routed(
                currency_id,
                from,
                to,
                amount,
                native_transfer,
                assets_transfer,
                res,
            ),
            amount != 0 && A::obeys_eq_spec() && !from.eq_spec(to) ==> self.transfer_routed(
                currency_id,
                from,
                to,
                amount,
                native_transfer,
                assets_transfer,
                res,
            ),
            amount != 0 ==> exists|same: bool|
                #[trigger] call_ensures(A::eq, (from, to), same) && if same {
                    res == Ok::<(), CurrencyError<E>>(())
                } else {
                    self.transfer_routed(
                        currency_id,
                        from,
                        to,
                        amount,
                        native_transfer,
                        assets_transfer,
                        res,
                    )
                },
    {
        if amount == 0 {
            return Ok(());
        }
        let same = from.eq(to);
        if same {
            return Ok(());
        }
        if currency_id == self.native_currency_id {
            let r = native_transfer(from, to, amount);
            let res = match r {
                Ok(()) => Ok(()),
                Err(e) => Err(CurrencyError::Passed(e)),
            };
            assert(call_ensures(native_transfer, (from, to, amount), r) && res == passed(r));
            res
        } else {
            let r = assets_transfer(currency_id, from, to, amount);
            let res = match r {
                Ok(()) => Ok(()),
                Err(_) => Err(CurrencyError::Other(Reason::TransferFailed)),
            };
            assert(call_ensures(assets_transfer, (currency_id, from, to, amount), r) && res
                == reported_as::<E, E2>(r, Reason::TransferFailed));
            res
        }
    }

    /// What a transfer that is not skipped returns: the native transfer's outcome, handed up,
    /// for the native currency, and the assets pallet's, reported as "Transfer failed" on
    /// failure, for an asset.
    pub open spec fn transfer_routed<
        A,
        E,
        E2,
        FN: FnOnce(&A, &A, u128) -> Result<(), E>,
        FA: FnOnce(CurrencyId, &A, &A, u128) -> Result<(), E2>,
    >(
        &self,
        currency_id: CurrencyId,
        from: &A,
        to: &A,
        amount: u128,
        native_transfer: FN,
        assets_transfer: FA,
        res: Result<(), CurrencyError<E>>,
    ) -> bool {
        if self.is_native(currency_id) {
            exists|r: Result<(), E>|
                #[trigger] call_ensures(native_transfer, (from, to, amount), r) && res == passed(r)
        } else {
            exists|r: Result<(), E2>|
                #[trigger] call_ensures(assets_transfer, (currency_id, from, to, amount), r) && res
                    == reported_as::<E, E2>(r, Reason::TransferFailed)
        }
    }

    /// What a deposit or withdrawal of a non-zero amount returns: the native operation's
    /// outcome, handed up, for the native currency, and the assets pallet's, reported as
    /// `reason` on failure, for an asset.
    pub open spec fn move_routed<
        A,
        E,
        E2,
        FN: FnOnce(&A, u128) -> Result<(), E>,
        FA: FnOnce(CurrencyId, &A, u128) -> Result<(), E2>,
    >(
        &self,
        currency_id: CurrencyId,
        who: &A,
        amount: u128,
        native_op: FN,
        assets_op: FA,
        reason: Reason,
        res: Result<(), CurrencyError<E>>,
    ) -> bool {
        if self.is_native(currency_id) {
            exists|r: Result<(), E>|
                #[trigger] call_ensures(native_op, (who, amount), r) && res == passed(r)
        } else {
            exists|r: Result<(), E2>|
                #[trigger] call_ensures(assets_op, (currency_id, who, amount), r) && res
                    == reported_as::<E, E2>(r, reason)
        }
    }

    /// Runs the native operation or the asset operation on `who` and `amount`, and reports
    /// the asset operation's failure as `reason`.
    fn move_amount<
        A,
        E,
        E2,
        FN: FnOnce(&A, u128) -> Result<(), E>,
        FA: FnOnce(CurrencyId, &A, u128) -> Result<(), E2>,
    >(
        &self,
        currency_id: CurrencyId,
        who: &A,
        amount: u128,
        native_op: FN,
        assets_op: FA,
        reason: Reason,
    ) -> (res: Result<(), CurrencyError<E>>)
        requires
            call_requires(native_op, (who, amount)),
            call_requires(assets_op, (currency_id, who, amount)),
        ensures
            self.move_routed(currency_id, who, amount, native_op, assets_op, reason, res),
    {
        if currency_id == self.native_currency_id {
            let r = native_op(who, amount);
            let res = match r {
                Ok(()) => Ok(()),
                Err(e) => Err(CurrencyError::Passed(e)),
            };
            assert(call_ensures(native_op, (who, amount), r) && res == passed(r));
            res
        } else {
            let r = assets_op(currency_id, who, amount);
            let res = match r {
                Ok(()) => Ok(()),
                Err(_) => Err(CurrencyError::Other(reason)),
            };
            assert(call_ensures(assets_op, (currency_id, who, amount), r) && res
                == reported_as::<E, E2>(r, reason));
            res
        }
    }

    /// Deposits `amount` of a currency into `who`: nothing for a zero amount, otherwise the
    /// native deposit's outcome, handed up, or the assets pallet's mint of the asset, any
    /// failure reported as "Deposit failed".
    pub fn deposit<
        A,
        E,
        E2,
        FN: FnOnce(&A, u128) -> Result<(), E>,
        FA: FnOnce(CurrencyId, &A, u128) -> Result<(), E2>,
    >(
        &self,
        currency_id: CurrencyId,
        who: &A,
        amount: u128,
        native_deposit: FN,
        assets_mint_into: FA,
    ) -> (res: Result<(), CurrencyError<E>>)
        requires
            call_requires(native_deposit, (who, amount)),
            call_requires(assets_mint_into, (currency_id, who, amount)),
        ensures
            amount == 0 ==> res == Ok::<(), CurrencyError<E>>(()),
            amount != 0 ==> self.move_routed(
                currency_id,
                who,
                amount,
                native_deposit,
                assets_mint_into,
                Reason::DepositFailed,
                res,
            ),
    {
        if amount == 0 {
            return Ok(());
        }
        self.move_amount(
            currency_id,
            who,
            amount,
            native_deposit,
            assets_mint_into,
            Reason::DepositFailed,
        )
    }

    /// Withdraws `amount` of a currency from `who`: nothing for a zero amount, otherwise the
    /// native withdrawal's outcome, handed up, or the assets pallet's burn of the asset, any
    /// failure reported as "Withdraw failed".
    pub fn withdraw<
        A,
        E,
        E2,
        FN: FnOnce(&A, u128) -> Result<(), E>,
        FA: FnOnce(CurrencyId, &A, u128) -> Result<(), E2>,
    >(
        &self,
        currency_id: CurrencyId,
        who: &A,
        amount: u128,
        native_withdraw: FN,
        assets_burn_from: FA,
    ) -> (res: Result<(), CurrencyError<E>>)
        requires
            call_requires(native_withdraw, (who, amount)),
            call_requires(assets_burn_from, (currency_id, who, amount)),
        ensures
            amount == 0 ==> res == Ok::<(), CurrencyError<E>>(()),
            amount != 0 ==> self.move_routed(
                currency_id,
                who,
                amount,
                native_withdraw,
                assets_burn_from,
                Reason::WithdrawFailed,
                res,
            ),
    {
        if amount == 0 {
            return Ok(());
        }
        self.move_amount(
            currency_id,
            who,
            amount,
            native_withdraw,
            assets_burn_from,
            Reason::WithdrawFailed,
        )
    }

    /// Whether `amount` can be slashed from `who`: the native currency's answer, or, for an
    /// asset, whether the account's balance of it covers the amount.
    pub fn can_slash<A, FN: FnOnce(&A, u128) -> bool, FA: FnOnce(CurrencyId, &A) -> u128>(
        &self,
        currency_id: CurrencyId,
        who: &A,
        amount: u128,
        native_can_slash: FN,
        assets_balance: FA,
    ) -> (r: bool)
        requires
            call_requires(native_can_slash, (who, amount)),
            call_requires(assets_balance, (currency_id, who)),
        ensures
            self.is_native(currency_id) ==> call_ensures(native_can_slash, (who, amount), r),
            !self.is_native(currency_id) ==> exists|b: u128|
                #[trigger] call_ensures(assets_balance, (currency_id, who), b) && r == (b
                    >= amount),
    {
        if currency_id == self.native_currency_id {
            native_can_slash(who, amount)
        } else {
            let b = assets_balance(currency_id, who);
            b >= amount
        }
    }

    /// Slashes `amount` from `who`: what the native slash returns (the amount it could not
    /// take), or, for an asset, what the assets pallet's slash returns; `None` where the assets
    /// pallet fails, on which the runtime halts.
    pub fn slash<
        A,
        E,
        FN: FnOnce(&A, u128) -> u128,
        FA: FnOnce(CurrencyId, &A, u128) -> Result<u128, E>,
    >(
        &self,
        currency_id: CurrencyId,
        who: &A,
        amount: u128,
        native_slash: FN,
        assets_slash: FA,
    ) -> (r: Option<u128>)
        requires
            call_requires(native_slash, (who, amount)),
            call_requires(assets_slash, (currency_id, who, amount)),
        ensures
            self.is_native(currency_id) ==> exists|g: u128|
                #[trigger] call_ensures(native_slash, (who, amount), g) && r == Some(g),
            !self.is_native(currency_id) ==> exists|s: Result<u128, E>|
                #[trigger] call_ensures(assets_slash, (currency_id, who, amount), s) && r
                    == s.ok(),
    {
        if currency_id == self.native_currency_id {
            let g = native_slash(who, amount);
            Some(g)
        } else {
            let s = assets_slash(currency_id, who, amount);
            s.ok()
        }
    }
}

/// Law: for any currency but the native one, an account's free balance and its total balance
/// are the same query of the assets pallet, so they agree wherever that query answers alike.
pub proof fn lemma_asset_free_balance_is_total_balance<
    A,
    FF: FnOnce(&A) -> u128,
    FT: FnOnce(&A) -> u128,
    FA: FnOnce(CurrencyId, &A) -> u128,
>(
    wrapper: PeaqMultiCurrenciesWrapper,
    currency_id: CurrencyId,
    who: &A,
    native_free_balance: FF,
    native_total_balance: FT,
    assets_balance: FA,
    free: u128,
    total: u128,
)
    requires
        !wrapper.is_native(currency_id),
        wrapper.balance_outcome(currency_id, who, native_free_balance, assets_balance, free),
        wrapper.balance_outcome(currency_id, who, native_total_balance, assets_balance, total),
        forall|r1: u128, r2: u128|
            #![trigger call_ensures(assets_balance, (currency_id, who), r1), call_ensures(assets_balance, (currency_id, who), r2)]
            call_ensures(assets_balance, (currency_id, who), r1) && call_ensures(
                assets_balance,
                (currency_id, who),
                r2,
            ) ==> r1 == r2,
    ensures
        free == total,
{
}

/// Law: a currency is routed to the native backend exactly when it is the native currency.
pub proof fn lemma_native_is_the_native_currency(
    wrapper: PeaqMultiCurrenciesWrapper,
    currency_id: CurrencyId,
)
    ensures
        wrapper.is_native(currency_id) <==> currency_id == wrapper.native_currency_id,
{
}

/// Law: a transfer that is not skipped moves the native currency through the native transfer,
/// handing up its error, and moves any other currency through the assets pallet's transfer of
/// that currency, with the same accounts and amount, reporting its failure as "Transfer failed".
pub proof fn lemma_transfer_routes_by_currency<
    A,
    E,
    E2,
    FN: FnOnce(&A, &A, u128) -> Result<(), E>,
    FA: FnOnce(CurrencyId, &A, &A, u128) -> Result<(), E2>,
>(
    wrapper: PeaqMultiCurrenciesWrapper,
    currency_id: CurrencyId,
    from: &A,
    to: &A,
    amount: u128,
    native_transfer: FN,
    assets_transfer: FA,
    res: Result<(), CurrencyError<E>>,
)
    requires
        wrapper.transfer_routed(
            currency_id,
            from,
            to,
            amount,
            native_transfer,
            assets_transfer,
            res,
        ),
    ensures
        currency_id == wrapper.native_currency_id ==> exists|r: Result<(), E>|
            #[trigger] call_ensures(native_transfer, (from, to, amount), r) && match r {
                Ok(()) => res == Ok::<(), CurrencyError<E>>(()),
                Err(e) => res == Err::<(), CurrencyError<E>>(CurrencyError::Passed(e)),
            },
        currency_id != wrapper.native_currency_id ==> exists|r: Result<(), E2>|
            #[trigger] call_ensures(assets_transfer, (currency_id, from, to, amount), r) && match r {
                Ok(()) => res == Ok::<(), CurrencyError<E>>(()),
                Err(_) => res == Err::<(), CurrencyError<E>>(
                    CurrencyError::Other(Reason::TransferFailed),
                ),
            },
{
}

/// Law: a deposit or withdrawal of a non-zero amount runs the native operation for the native
/// currency, handing up its error, and the assets pallet's operation on that currency, account
/// and amount for any other, reporting its failure as `reason` ("Deposit failed" or
/// "Withdraw failed").
pub proof fn lemma_move_routes_by_currency<
    A,
    E,
    E2,
    FN: FnOnce(&A, u128) -> Result<(), E>,
    FA: FnOnce(CurrencyId, &A, u128) -> Result<(), E2>,
>(
    wrapper: PeaqMultiCurrenciesWrapper,
    currency_id: CurrencyId,
    who: &A,
    amount: u128,
    native_op: FN,
    assets_op: FA,
    reason: Reason,
    res: Result<(), CurrencyError<E>>,
)
    requires
        wrapper.move_routed(currency_id, who, amount, native_op, assets_op, reason, res),
    ensures
        currency_id == wrapper.native_currency_id ==> exists|r: Result<(), E>|
            #[trigger] call_ensures(native_op, (who, amount), r) && match r {
                Ok(()) => res == Ok::<(), CurrencyError<E>>(()),
                Err(e) => res == Err::<(), CurrencyError<E>>(CurrencyError::Passed(e)),
            },
        currency_id != wrapper.native_currency_id ==> exists|r: Result<(), E2>|
            #[trigger] call_ensures(assets_op, (currency_id, who, amount), r) && match r {
                Ok(()) => res == Ok::<(), CurrencyError<E>>(()),
                Err(_) => res == Err::<(), CurrencyError<E>>(CurrencyError::Other(reason)),
            },
{
}

/// Law: a balance query answers from the native backend exactly for the native currency, and
/// from the assets pallet's balance of that currency and account for any other.
pub proof fn lemma_balance_routes_by_currency<
    A,
    FN: FnOnce(&A) -> u128,
    FA: FnOnce(CurrencyId, &A) -> u128,
>(
    wrapper: PeaqMultiCurrenciesWrapper,
    currency_id: CurrencyId,
    who: &A,
    native_query: FN,
    assets_balance: FA,
    r: u128,
)
    requires
        wrapper.balance_outcome(currency_id, who, native_query, assets_balance, r),
    ensures
        currency_id == wrapper.native_currency_id ==> call_ensures(native_query, (who,), r),
        currency_id != wrapper.native_currency_id ==> call_ensures(
            assets_balance,
            (currency_id, who),
            r,
        ),
{
}

} // verus!
