//! Choice of the currency that a transaction fee is paid in
//! (`NewPeaqCurrencyPaymentConvert`).
//!
//! The fee is paid natively where the account can afford it. Otherwise the accepted local
//! currencies are tried in their order of priority: the first one of which the account can
//! afford the amount that Zenlink's DEX asks to swap into the fee (plus the existential
//! deposit) is chosen, together with the swap that covers the fee.
//!
//! The Zenlink asset ids `Z`, the conversion of currencies into them, the DEX's quotes and
//! swaps and the balance checks are handed in as closures.

use vstd::prelude::*;

use crate::fee::saturating_add;
use crate::types::{currency_error_code, map_err_newcurrency2zasset, CurrencyId, TxError};

verus! {

/// A swap into the native currency that pays a fee: the amount paid in, the amount that comes
/// out, and Zenlink's path of the token pair.
pub struct NewPaymentConvertInfo<Z> {
    pub amount_in: u128,
    pub amount_out: u128,
    pub zen_path: Vec<Z>,
}

/// The currencies that fees can be paid in: the native one, then the accepted local ones in
/// their order of priority, and the existential deposit that a swap adds to the fee.
pub struct NewPeaqCurrencyPaymentConvert {
    pub native_currency_id: CurrencyId,
    pub local_accepted_ids: Vec<CurrencyId>,
    pub existential_deposit: u128,
}

/// The local currency `id` cannot pay `amount_out`: it converts into a Zenlink id, but the DEX
/// gives no quote for the path from it into the native currency, or the account cannot afford
/// the amount quoted.
pub open spec fn local_rejected<
    Z,
    FZ: Fn(CurrencyId) -> Option<Z>,
    FQ: Fn(u128, Z, Z) -> Option<u128>,
    FW: Fn(CurrencyId, u128) -> bool,
>(
    to_zen: FZ,
    amount_in_by_path: FQ,
    can_withdraw: FW,
    id: CurrencyId,
    amount_out: u128,
    native_zen: Z,
) -> bool {
    exists|z: Z|
        #[trigger] call_ensures(to_zen, (id,), Some(z)) && (call_ensures(
            amount_in_by_path,
            (amount_out, z, native_zen),
            None::<u128>,
        ) || exists|a: u128|
            #[trigger] call_ensures(amount_in_by_path, (amount_out, z, native_zen), Some(a))
                && call_ensures(can_withdraw, (id, a), false))
}

/// All local currencies before position `j` cannot pay `amount_out`.
pub open spec fn rejected_before<
    Z,
    FZ: Fn(CurrencyId) -> Option<Z>,
    FQ: Fn(u128, Z, Z) -> Option<u128>,
    FW: Fn(CurrencyId, u128) -> bool,
>(
    ids: Seq<CurrencyId>,
    j: int,
    to_zen: FZ,
    amount_in_by_path: FQ,
    can_withdraw: FW,
    amount_out: u128,
    native_zen: Z,
) -> bool {
    forall|k: int|
        0 <= k < j ==> #[trigger] local_rejected(
            to_zen,
            amount_in_by_path,
            can_withdraw,
            ids[k],
            amount_out,
            native_zen,
        )
}

impl NewPeaqCurrencyPaymentConvert {
    /// The amount that a swap must bring out to pay `tx_fee`: the fee plus the existential
    /// deposit, saturating.
    pub open spec fn swap_amount_out(&self, tx_fee: u128) -> u128 {
        saturating_add(tx_fee, self.existential_deposit as int)
    }

    /// The local currency at position `j` is chosen, with `info`, after all before it were
    /// rejected.
    pub open spec fn chosen_at<
        Z,
        FZ: Fn(CurrencyId) -> Option<Z>,
        FQ: Fn(u128, Z, Z) -> Option<u128>,
        FW: Fn(CurrencyId, u128) -> bool,
    >(
        &self,
        j: int,
        native_zen: Z,
        local_zen: Z,
        tx_fee: u128,
        to_zen: FZ,
        amount_in_by_path: FQ,
        can_withdraw: FW,
        id: CurrencyId,
        info: NewPaymentConvertInfo<Z>,
    ) -> bool {
        let ids = self.local_accepted_ids@;
        let out = self.swap_amount_out(tx_fee);
        &&& 0 <= j < ids.len()
        &&& id == ids[j]
        &&& call_ensures(to_zen, (self.native_currency_id,), Some(native_zen))
        &&& rejected_before(ids, j, to_zen, amount_in_by_path, can_withdraw, out, native_zen)
        &&& call_ensures(to_zen, (id,), Some(local_zen))
        &&& call_ensures(amount_in_by_path, (out, local_zen, native_zen), Some(info.amount_in))
        &&& call_ensures(can_withdraw, (id, info.amount_in), true)
        &&& info.amount_out == out
        &&& info.zen_path@ == seq![local_zen, native_zen]
    }

    /// The local currency at position `j` cannot be converted into a Zenlink id, after all
    /// before it were rejected.
    pub open spec fn unconvertible_at<
        Z,
        FZ: Fn(CurrencyId) -> Option<Z>,
        FQ: Fn(u128, Z, Z) -> Option<u128>,
        FW: Fn(CurrencyId, u128) -> bool,
    >(
        &self,
        j: int,
        native_zen: Z,
        tx_fee: u128,
        to_zen: FZ,
        amount_in_by_path: FQ,
        can_withdraw: FW,
    ) -> bool {
        let ids = self.local_accepted_ids@;
        let out = self.swap_amount_out(tx_fee);
        &&& 0 <= j < ids.len()
        &&& call_ensures(to_zen, (self.native_currency_id,), Some(native_zen))
        &&& rejected_before(ids, j, to_zen, amount_in_by_path, can_withdraw, out, native_zen)
        &&& call_ensures(to_zen, (ids[j],), None::<Z>)
    }

    /// Every local currency was rejected.
    pub open spec fn all_rejected<
        Z,
        FZ: Fn(CurrencyId) -> Option<Z>,
        FQ: Fn(u128, Z, Z) -> Option<u128>,
        FW: Fn(CurrencyId, u128) -> bool,
    >(
        &self,
        native_zen: Z,
        tx_fee: u128,
        to_zen: FZ,
        amount_in_by_path: FQ,
        can_withdraw: FW,
    ) -> bool {
        let ids = self.local_accepted_ids@;
        &&& call_ensures(to_zen, (self.native_currency_id,), Some(native_zen))
        &&& rejected_before(
            ids,
            ids.len() as int,
            to_zen,
            amount_in_by_path,
            can_withdraw,
            self.swap_amount_out(tx_fee),
            native_zen,
        )
    }

    /// What the search among the local currencies gives, once the native currency cannot pay.
    pub open spec fn local_outcome<
        Z,
        FZ: Fn(CurrencyId) -> Option<Z>,
        FQ: Fn(u128, Z, Z) -> Option<u128>,
        FW: Fn(CurrencyId, u128) -> bool,
    >(
        &self,
        tx_fee: u128,
        to_zen: FZ,
        amount_in_by_path: FQ,
        can_withdraw: FW,
        res: Result<(CurrencyId, Option<NewPaymentConvertInfo<Z>>), TxError>,
    ) -> bool {
        match res {
            Ok((id, Some(info))) => exists|j: int, nz: Z, zj: Z|
                #[trigger] self.chosen_at(
                    j,
                    nz,
                    zj,
                    tx_fee,
                    to_zen,
                    amount_in_by_path,
                    can_withdraw,
                    id,
                    info,
                ),
            Ok((_, None)) => false,
            Err(TxError::Custom(c)) => {
                ||| call_ensures(to_zen, (self.native_currency_id,), None::<Z>) && c
                    == currency_error_code(self.native_currency_id)
                ||| exists|j: int, nz: Z|
                    #[trigger] self.unconvertible_at(
                        j,
                        nz,
                        tx_fee,
                        to_zen,
                        amount_in_by_path,
                        can_withdraw,
                    ) && c == currency_error_code(self.local_accepted_ids@[j])
            },
            Err(TxError::Payment) => exists|nz: Z|
                #[trigger] self.all_rejected(nz, tx_fee, to_zen, amount_in_by_path, can_withdraw),
        }
    }

    /// What `check_currencies_n_priorities` gives: the native currency, with no swap, where
    /// the account can pay `tx_fee` natively, and the outcome of the search among the local
    /// currencies otherwise.
    pub open spec fn priorities_outcome<
        Z,
        FN: FnOnce(u128) -> bool,
        FZ: Fn(CurrencyId) -> Option<Z>,
        FQ: Fn(u128, Z, Z) -> Option<u128>,
        FW: Fn(CurrencyId, u128) -> bool,
    >(
        &self,
        tx_fee: u128,
        native_can_withdraw: FN,
        to_zen: FZ,
        amount_in_by_path: FQ,
        can_withdraw: FW,
        res: Result<(CurrencyId, Option<NewPaymentConvertInfo<Z>>), TxError>,
    ) -> bool {
        exists|b: bool|
            #[trigger] call_ensures(native_can_withdraw, (tx_fee,), b) && if b {
                res == Ok::<(CurrencyId, Option<NewPaymentConvertInfo<Z>>), TxError>(
                    (self.native_currency_id, None),
                )
            } else {
                self.local_outcome(tx_fee, to_zen, amount_in_by_path, can_withdraw, res)
            }
    }

    /// Checks the native currency, then the accepted local currencies in their order, and
    /// selects the first that can pay `tx_fee` (see `priorities_outcome`).
    pub fn check_currencies_n_priorities<
        Z: Copy,
        FN: FnOnce(u128) -> bool,
        FZ: Fn(CurrencyId) -> Option<Z>,
        FQ: Fn(u128, Z, Z) -> Option<u128>,
        FW: Fn(CurrencyId, u128) -> bool,
    >(
        &self,
        tx_fee: u128,
        native_can_withdraw: FN,
        to_zen: FZ,
        amount_in_by_path: FQ,
        can_withdraw: FW,
    ) -> (res: Result<(CurrencyId, Option<NewPaymentConvertInfo<Z>>), TxError>)
        requires
            call_requires(native_can_withdraw, (tx_fee,)),
            forall|id: CurrencyId| call_requires(to_zen, (id,)),
            forall|out: u128, a: Z, b: Z| call_requires(amount_in_by_path, (out, a, b)),
            forall|id: CurrencyId, amount: u128| call_requires(can_withdraw, (id, amount)),
        ensures
            self.priorities_outcome(
                tx_fee,
                native_can_withdraw,
                to_zen,
                amount_in_by_path,
                can_withdraw,
                res,
            ),
    {
        let native_id = self.native_currency_id;
        let native_ok = native_can_withdraw(tx_fee);
        if native_ok {
            return Ok((native_id, None));
        }
        let res = self.check_local_currencies(tx_fee, to_zen, amount_in_by_path, can_withdraw);
        assert(call_ensures(native_can_withdraw, (tx_fee,), native_ok));
        res
    }

    /// Checks whether the fee can be paid in any currency and returns the one chosen (see
    /// `priorities_outcome`). Where a local currency is chosen, the swap of its quoted amount
    /// into the fee is made (`swap` is handed the amount out, the amount in and the path); a
    /// failed swap is reported with the currency's error code.
    pub fn ensure_can_withdraw<
        Z: Copy,
        FN: FnOnce(u128) -> bool,
        FZ: Fn(CurrencyId) -> Option<Z>,
        FQ: Fn(u128, Z, Z) -> Option<u128>,
        FW: Fn(CurrencyId, u128) -> bool,
        FS: FnOnce(u128, u128, Vec<Z>) -> bool,
    >(
        &self,
        tx_fee: u128,
        native_can_withdraw: FN,
        to_zen: FZ,
        amount_in_by_path: FQ,
        can_withdraw: FW,
        swap: FS,
    ) -> (res: Result<CurrencyId, TxError>)
        requires
            call_requires(native_can_withdraw, (tx_fee,)),
            forall|id: CurrencyId| call_requires(to_zen, (id,)),
            forall|out: u128, a: Z, b: Z| call_requires(amount_in_by_path, (out, a, b)),
            forall|id: CurrencyId, amount: u128| call_requires(can_withdraw, (id, amount)),
            forall|out: u128, amount_in: u128, path: Vec<Z>|
                call_requires(swap, (out, amount_in, path)),
        ensures
            exists|chosen: Result<(CurrencyId, Option<NewPaymentConvertInfo<Z>>), TxError>|
                #[trigger] self.priorities_outcome(
                    tx_fee,
                    native_can_withdraw,
                    to_zen,
                    amount_in_by_path,
                    can_withdraw,
                    chosen,
                ) && match chosen {
                    Err(e) => res == Err::<CurrencyId, TxError>(e),
                    Ok((id, None)) => res == Ok::<CurrencyId, TxError>(id),
                    Ok((id, Some(info))) => exists|swapped: bool|
                        #[trigger] call_ensures(
                            swap,
                            (info.amount_out, info.amount_in, info.zen_path),
                            swapped,
                        ) && res == if swapped {
                            Ok::<CurrencyId, TxError>(id)
                        } else {
                            Err(TxError::Custom(currency_error_code(id)))
                        },
                },
    {
        let chosen = self.check_currencies_n_priorities(
            tx_fee,
            native_can_withdraw,
            to_zen,
            amount_in_by_path,
            can_withdraw,
        );
        match chosen {
            Err(e) => Err(e),
            Ok((currency_id, None)) => Ok(currency_id),
            Ok((currency_id, Some(info))) => {
                let ghost gi = info;
                let swapped = swap(info.amount_out, info.amount_in, info.zen_path);
                assert(call_ensures(swap, (gi.amount_out, gi.amount_in, gi.zen_path), swapped));
                if swapped {
                    Ok(currency_id)
                } else {
                    Err(map_err_newcurrency2zasset(currency_id))
                }
            },
        }
    }

    /// The search among the accepted local currencies (see `local_outcome`).
    fn check_local_currencies<
        Z: Copy,
        FZ: Fn(CurrencyId) -> Option<Z>,
        FQ: Fn(u128, Z, Z) -> Option<u128>,
        FW: Fn(CurrencyId, u128) -> bool,
    >(&self, tx_fee: u128, to_zen: FZ, amount_in_by_path: FQ, can_withdraw: FW) -> (res: Result<
        (CurrencyId, Option<NewPaymentConvertInfo<Z>>),
        TxError,
    >)
        requires
            forall|id: CurrencyId| call_requires(to_zen, (id,)),
            forall|out: u128, a: Z, b: Z| call_requires(amount_in_by_path, (out, a, b)),
            forall|id: CurrencyId, amount: u128| call_requires(can_withdraw, (id, amount)),
        ensures
            self.local_outcome(tx_fee, to_zen, amount_in_by_path, can_withdraw, res),
    {
        let native_id = self.native_currency_id;
        // As a safety buffer, the swap also covers the existential deposit.
        let amount_out = tx_fee.saturating_add(self.existential_deposit);
        let native_zen = match to_zen(native_id) {
            Some(z) => z,
            None => {
                return Err(map_err_newcurrency2zasset(native_id));
            },
        };
        let ghost ids = self.local_accepted_ids@;
        let n = self.local_accepted_ids.len();
        for i in 0..n
            invariant
                n == ids.len(),
                ids == self.local_accepted_ids@,
                amount_out == self.swap_amount_out(tx_fee),
                call_ensures(to_zen, (native_id,), Some(native_zen)),
                native_id == self.native_currency_id,
                forall|id: CurrencyId| call_requires(to_zen, (id,)),
                forall|out: u128, a: Z, b: Z| call_requires(amount_in_by_path, (out, a, b)),
                forall|id: CurrencyId, amount: u128| call_requires(can_withdraw, (id, amount)),
                rejected_before(
                    ids,
                    i as int,
                    to_zen,
                    amount_in_by_path,
                    can_withdraw,
                    amount_out,
                    native_zen,
                ),
        {
            let local_id = self.local_accepted_ids[i];
            let local_zen = match to_zen(local_id) {
                Some(z) => z,
                None => {
                    assert(self.unconvertible_at(
                        i as int,
                        native_zen,
                        tx_fee,
                        to_zen,
                        amount_in_by_path,
                        can_withdraw,
                    ));
                    return Err(map_err_newcurrency2zasset(local_id));
                },
            };
            let quote = amount_in_by_path(amount_out, local_zen, native_zen);
            match quote {
                Some(amount_in) => {
                    let ok = can_withdraw(local_id, amount_in);
                    if ok {
                        let zen_path = vec![local_zen, native_zen];
                        let info = NewPaymentConvertInfo { amount_in, amount_out, zen_path };
                        assert(info.zen_path@ =~= seq![local_zen, native_zen]);
                        let res: Result<(CurrencyId, Option<NewPaymentConvertInfo<Z>>), TxError> =
                            Ok((local_id, Some(info)));
                        assert(res->Ok_0.1->Some_0 == info);
                        assert(self.chosen_at(
                            i as int,
                            native_zen,
                            local_zen,
                            tx_fee,
                            to_zen,
                            amount_in_by_path,
                            can_withdraw,
                            res->Ok_0.0,
                            res->Ok_0.1->Some_0,
                        ));
                        return res;
                    }
                    assert(local_rejected(
                        to_zen,
                        amount_in_by_path,
                        can_withdraw,
                        ids[i as int],
                        amount_out,
                        native_zen,
                    ));
                },
                None => {
                    assert(local_rejected(
                        to_zen,
                        amount_in_by_path,
                        can_withdraw,
                        ids[i as int],
                        amount_out,
                        native_zen,
                    ));
                },
            }
        }
        assert(self.all_rejected(native_zen, tx_fee, to_zen, amount_in_by_path, can_withdraw));
        Err(TxError::Payment)
    }
}

/// Law: the currency chosen to pay a fee is the native currency or one of the accepted local
/// currencies, and a swap is chosen only for a local one.
pub proof fn lemma_chosen_currency_accepted<
    Z,
    FN: FnOnce(u128) -> bool,
    FZ: Fn(CurrencyId) -> Option<Z>,
    FQ: Fn(u128, Z, Z) -> Option<u128>,
    FW: Fn(CurrencyId, u128) -> bool,
>(
    config: NewPeaqCurrencyPaymentConvert,
    tx_fee: u128,
    native_can_withdraw: FN,
    to_zen: FZ,
    amount_in_by_path: FQ,
    can_withdraw: FW,
    id: CurrencyId,
    info: Option<NewPaymentConvertInfo<Z>>,
)
    requires
        config.priorities_outcome(
            tx_fee,
            native_can_withdraw,
            to_zen,
            amount_in_by_path,
            can_withdraw,
            Ok((id, info)),
        ),
    ensures
        info is None ==> id == config.native_currency_id,
        info is Some ==> config.local_accepted_ids@.contains(id),
{
    if info is Some {
        let inf = info->Some_0;
        let (j, nz, zj) = choose|j: int, nz: Z, zj: Z|
            #[trigger] config.chosen_at(
                j,
                nz,
                zj,
                tx_fee,
                to_zen,
                amount_in_by_path,
                can_withdraw,
                id,
                inf,
            );
        assert(config.local_accepted_ids@[j] == id);
    }
}

/// Law: a swap that pays a fee brings out at least the fee, goes from the chosen currency
/// into the native currency, and its amount in is affordable for the account.
pub proof fn lemma_swap_covers_fee<
    Z,
    FN: FnOnce(u128) -> bool,
    FZ: Fn(CurrencyId) -> Option<Z>,
    FQ: Fn(u128, Z, Z) -> Option<u128>,
    FW: Fn(CurrencyId, u128) -> bool,
>(
    config: NewPeaqCurrencyPaymentConvert,
    tx_fee: u128,
    native_can_withdraw: FN,
    to_zen: FZ,
    amount_in_by_path: FQ,
    can_withdraw: FW,
    id: CurrencyId,
    info: NewPaymentConvertInfo<Z>,
)
    requires
        config.priorities_outcome(
            tx_fee,
            native_can_withdraw,
            to_zen,
            amount_in_by_path,
            can_withdraw,
            Ok((id, Some(info))),
        ),
    ensures
        info.amount_out >= tx_fee,
        info.amount_out >= config.existential_deposit || info.amount_out == u128::MAX,
        info.amount_out == tx_fee + config.existential_deposit || (info.amount_out == u128::MAX
            && tx_fee + config.existential_deposit > u128::MAX),
        info.zen_path.len() == 2,
        call_ensures(to_zen, (id,), Some(info.zen_path@[0])),
        call_ensures(to_zen, (config.native_currency_id,), Some(info.zen_path@[1])),
        call_ensures(can_withdraw, (id, info.amount_in), true),
{
    let (j, nz, zj) = choose|j: int, nz: Z, zj: Z|
        #[trigger] config.chosen_at(
            j,
            nz,
            zj,
            tx_fee,
            to_zen,
            amount_in_by_path,
            can_withdraw,
            id,
            info,
        );
    assert(info.zen_path@ == seq![zj, nz]);
}

} // verus!
