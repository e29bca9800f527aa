//! Zenlink's view of the runtime's local currencies (`PeaqNewLocalAssetAdaptor`).
//!
//! A Zenlink asset id `Z` names a local currency where the runtime can convert it into one;
//! the conversion and the currency operations are handed in as closures.

use vstd::prelude::*;

use crate::multi_currency::passed;
use crate::types::{CurrencyError, CurrencyId, Reason};

verus! {

/// The outcome of a deposit or withdrawal of `amount`: the amount itself where the currency
/// operation succeeded, its error handed up otherwise.
pub open spec fn amount_or_error<E>(r: Result<(), E>, amount: u128) -> Result<
    u128,
    CurrencyError<E>,
> {
    match r {
        Ok(()) => Ok(amount),
        Err(e) => Err(CurrencyError::Passed(e)),
    }
}

/// `to_currency` answers alike for `asset_id` on every call.
pub open spec fn converts_alike<Z, FC: FnOnce(Z) -> Option<CurrencyId>>(
    to_currency: FC,
    asset_id: Z,
) -> bool {
    forall|c1: Option<CurrencyId>, c2: Option<CurrencyId>|
        #![trigger call_ensures(to_currency, (asset_id,), c1), call_ensures(to_currency, (asset_id,), c2)]
        call_ensures(to_currency, (asset_id,), c1) && call_ensures(to_currency, (asset_id,), c2)
            ==> c1 == c2
}

/// What `local_is_exists` returns: whether the conversion of `asset_id` names a currency.
pub open spec fn is_exists_outcome<Z, FC: FnOnce(Z) -> Option<CurrencyId>>(
    asset_id: Z,
    to_currency: FC,
    r: bool,
) -> bool {
    exists|c: Option<CurrencyId>|
        #[trigger] call_ensures(to_currency, (asset_id,), c) && r == c is Some
}

/// What `local_balance_of` returns: the free balance of `who` in the currency that `asset_id`
/// converts into, and zero where it converts into none.
pub open spec fn balance_of_outcome<
    Z,
    A,
    FC: FnOnce(Z) -> Option<CurrencyId>,
    FB: FnOnce(CurrencyId, &A) -> u128,
>(asset_id: Z, who: &A, to_currency: FC, free_balance: FB, r: u128) -> bool {
    exists|c: Option<CurrencyId>|
        #[trigger] call_ensures(to_currency, (asset_id,), c) && match c {
            Some(id) => call_ensures(free_balance, (id, who), r),
            None => r == 0,
        }
}

/// What `local_total_supply` returns: the total issuance of the currency that `asset_id`
/// converts into, and zero where it converts into none.
pub open spec fn total_supply_outcome<
    Z,
    FC: FnOnce(Z) -> Option<CurrencyId>,
    FI: FnOnce(CurrencyId) -> u128,
>(asset_id: Z, to_currency: FC, total_issuance: FI, r: u128) -> bool {
    exists|c: Option<CurrencyId>|
        #[trigger] call_ensures(to_currency, (asset_id,), c) && match c {
            Some(id) => call_ensures(total_issuance, (id,), r),
            None => r == 0,
        }
}

/// What `local_transfer` returns: the transfer's outcome, handed up, in the currency that
/// `asset_id` converts into, and "unknown asset in local transfer" where it converts into none.
pub open spec fn transfer_outcome<
    Z,
    A,
    E,
    FC: FnOnce(Z) -> Option<CurrencyId>,
    FT: FnOnce(CurrencyId, &A, &A, u128) -> Result<(), E>,
>(
    asset_id: Z,
    origin: &A,
    target: &A,
    amount: u128,
    to_currency: FC,
    transfer: FT,
    res: Result<(), CurrencyError<E>>,
) -> bool {
    exists|c: Option<CurrencyId>|
        #[trigger] call_ensures(to_currency, (asset_id,), c) && match c {
            Some(id) => exists|r: Result<(), E>|
                #[trigger] call_ensures(transfer, (id, origin, target, amount), r) && res
                    == passed(r),
            None => res == Err::<(), CurrencyError<E>>(CurrencyError::Other(Reason::UnknownAsset)),
        }
}

/// What `local_deposit` and `local_withdraw` return: the amount, where the operation on the
/// currency that `asset_id` converts into succeeds, its error, handed up, where it fails, and
/// "unknown asset in local transfer" where the id converts into none.
pub open spec fn move_outcome<
    Z,
    A,
    E,
    FC: FnOnce(Z) -> Option<CurrencyId>,
    FO: FnOnce(CurrencyId, &A, u128) -> Result<(), E>,
>(
    asset_id: Z,
    origin: &A,
    amount: u128,
    to_currency: FC,
    op: FO,
    res: Result<u128, CurrencyError<E>>,
) -> bool {
    exists|c: Option<CurrencyId>|
        #[trigger] call_ensures(to_currency, (asset_id,), c) && match c {
            Some(id) => exists|r: Result<(), E>|
                #[trigger] call_ensures(op, (id, origin, amount), r) && res == amount_or_error(
                    r,
                    amount,
                ),
            None => res == Err::<u128, CurrencyError<E>>(
                CurrencyError::Other(Reason::UnknownAsset),
            ),
        }
}

/// Zenlink's handler of the local currencies.
pub struct PeaqNewLocalAssetAdaptor;

impl PeaqNewLocalAssetAdaptor {
    /// The free balance of `who` in the currency that `asset_id` names, and zero where it
    /// names none.
    pub fn local_balance_of<
        Z,
        A,
        FC: FnOnce(Z) -> Option<CurrencyId>,
        FB: FnOnce(CurrencyId, &A) -> u128,
    >(asset_id: Z, who: &A, to_currency: FC, free_balance: FB) -> (r: u128)
        requires
            call_requires(to_currency, (asset_id,)),
            forall|id: CurrencyId| call_requires(free_balance, (id, who)),
        ensures
            balance_of_outcome(asset_id, who, to_currency, free_balance, r),
    {
        let c = to_currency(asset_id);
        match c {
            Some(id) => free_balance(id, who),
            None => 0,
        }
    }

    /// The total issuance of the currency that `asset_id` names, and zero where it names none.
    pub fn local_total_supply<
        Z,
        FC: FnOnce(Z) -> Option<CurrencyId>,
        FI: FnOnce(CurrencyId) -> u128,
    >(asset_id: Z, to_currency: FC, total_issuance: FI) -> (r: u128)
        requires
            call_requires(to_currency, (asset_id,)),
            forall|id: CurrencyId| call_requires(total_issuance, (id,)),
        ensures
            total_supply_outcome(asset_id, to_currency, total_issuance, r),
    {
        let c = to_currency(asset_id);
        match c {
            Some(id) => total_issuance(id),
            None => 0,
        }
    }

    /// Whether `asset_id` names a local currency.
    pub fn local_is_exists<Z, FC: FnOnce(Z) -> Option<CurrencyId>>(
        asset_id: Z,
        to_currency: FC,
    ) -> (r: bool)
        requires
            call_requires(to_currency, (asset_id,)),
        ensures
            is_exists_outcome(asset_id, to_currency, r),
    {
        let c = to_currency(asset_id);
        c.is_some()
    }

    /// Transfers `amount` of the currency that `asset_id` names from `origin` to `target`:
    /// the transfer's outcome, handed up, or "unknown asset in local transfer" where it names
    /// none.
    pub fn local_transfer<
        Z,
        A,
        E,
        FC: FnOnce(Z) -> Option<CurrencyId>,
        FT: FnOnce(CurrencyId, &A, &A, u128) -> Result<(), E>,
    >(asset_id: Z, origin: &A, target: &A, amount: u128, to_currency: FC, transfer: FT) -> (res:
        Result<(), CurrencyError<E>>)
        requires
            call_requires(to_currency, (asset_id,)),
            forall|id: CurrencyId| call_requires(transfer, (id, origin, target, amount)),
        ensures
            transfer_outcome(asset_id, origin, target, amount, to_currency, transfer, res),
    {
        let c = to_currency(asset_id);
        match c {
            Some(id) => {
                let r = transfer(id, origin, target, amount);
                let res = match r {
                    Ok(()) => Ok(()),
                    Err(e) => Err(CurrencyError::Passed(e)),
                };
                assert(call_ensures(transfer, (id, origin, target, amount), r) && res == passed(r));
                res
            },
            None => Err(CurrencyError::Other(Reason::UnknownAsset)),
        }
    }

    /// Deposits `amount` of the currency that `asset_id` names into `origin` and returns the
    /// amount: the deposit's error is handed up, and "unknown asset in local transfer" is
    /// raised where the id names no currency.
    pub fn local_deposit<
        Z,
        A,
        E,
        FC: FnOnce(Z) -> Option<CurrencyId>,
        FD: FnOnce(CurrencyId, &A, u128) -> Result<(), E>,
    >(asset_id: Z, origin: &A, amount: u128, to_currency: FC, deposit: FD) -> (res: Result<
        u128,
        CurrencyError<E>,
    >)
        requires
            call_requires(to_currency, (asset_id,)),
            forall|id: CurrencyId| call_requires(deposit, (id, origin, amount)),
        ensures
            move_outcome(asset_id, origin, amount, to_currency, deposit, res),
    {
        Self::move_amount(asset_id, origin, amount, to_currency, deposit)
    }

    /// Withdraws `amount` of the currency that `asset_id` names from `origin` and returns the
    /// amount: the withdrawal's error is handed up, and "unknown asset in local transfer" is
    /// raised where the id names no currency.
    pub fn local_withdraw<
        Z,
        A,
        E,
        FC: FnOnce(Z) -> Option<CurrencyId>,
        FW: FnOnce(CurrencyId, &A, u128) -> Result<(), E>,
    >(asset_id: Z, origin: &A, amount: u128, to_currency: FC, withdraw: FW) -> (res: Result<
        u128,
        CurrencyError<E>,
    >)
        requires
            call_requires(to_currency, (asset_id,)),
            forall|id: CurrencyId| call_requires(withdraw, (id, origin, amount)),
        ensures
            move_outcome(asset_id, origin, amount, to_currency, withdraw, res),
    {
        Self::move_amount(asset_id, origin, amount, to_currency, withdraw)
    }

    /// Converts the id, runs `op` on the currency, the account and the amount, and returns the
    /// amount.
    fn move_amount<
        Z,
        A,
        E,
        FC: FnOnce(Z) -> Option<CurrencyId>,
        FO: FnOnce(CurrencyId, &A, u128) -> Result<(), E>,
    >(asset_id: Z, origin: &A, amount: u128, to_currency: FC, op: FO) -> (res: Result<
        u128,
        CurrencyError<E>,
    >)
        requires
            call_requires(to_currency, (asset_id,)),
            forall|id: CurrencyId| call_requires(op, (id, origin, amount)),
        ensures
            move_outcome(asset_id, origin, amount, to_currency, op, res),
    {
        let c = to_currency(asset_id);
        match c {
            Some(id) => {
                let r = op(id, origin, amount);
                let res = match r {
                    Ok(()) => Ok(amount),
                    Err(e) => Err(CurrencyError::Passed(e)),
                };
                assert(call_ensures(op, (id, origin, amount), r) && res == amount_or_error(r, amount));
                res
            },
            None => Err(CurrencyError::Other(Reason::UnknownAsset)),
        }
    }
}

/// Law: an asset id that names no local currency has no balance and no supply, as long as its
/// conversion answers alike each time.
pub proof fn lemma_unknown_asset_is_empty<
    Z,
    A,
    FC: FnOnce(Z) -> Option<CurrencyId>,
    FB: FnOnce(CurrencyId, &A) -> u128,
    FI: FnOnce(CurrencyId) -> u128,
>(
    asset_id: Z,
    who: &A,
    to_currency: FC,
    free_balance: FB,
    total_issuance: FI,
    balance: u128,
    supply: u128,
)
    requires
        converts_alike(to_currency, asset_id),
        is_exists_outcome(asset_id, to_currency, false),
        balance_of_outcome(asset_id, who, to_currency, free_balance, balance),
        total_supply_outcome(asset_id, to_currency, total_issuance, supply),
    ensures
        balance == 0,
        supply == 0,
{
}

/// Law: a transfer of an asset id that names no local currency fails as an unknown asset,
/// whatever the transfer would have done, as long as its conversion answers alike each time.
pub proof fn lemma_unknown_asset_transfer_fails<
    Z,
    A,
    E,
    FC: FnOnce(Z) -> Option<CurrencyId>,
    FT: FnOnce(CurrencyId, &A, &A, u128) -> Result<(), E>,
>(
    asset_id: Z,
    origin: &A,
    target: &A,
    amount: u128,
    to_currency: FC,
    transfer: FT,
    res: Result<(), CurrencyError<E>>,
)
    requires
        converts_alike(to_currency, asset_id),
        is_exists_outcome(asset_id, to_currency, false),
        transfer_outcome(asset_id, origin, target, amount, to_currency, transfer, res),
    ensures
        res == Err::<(), CurrencyError<E>>(CurrencyError::Other(Reason::UnknownAsset)),
{
}

/// Law: a deposit into, or a withdrawal from, an asset id that names no local currency fails as
/// an unknown asset, whatever the operation would have done, as long as its conversion answers
/// alike each time.
pub proof fn lemma_unknown_asset_move_fails<
    Z,
    A,
    E,
    FC: FnOnce(Z) -> Option<CurrencyId>,
    FO: FnOnce(CurrencyId, &A, u128) -> Result<(), E>,
>(
    asset_id: Z,
    origin: &A,
    amount: u128,
    to_currency: FC,
    op: FO,
    res: Result<u128, CurrencyError<E>>,
)
    requires
        converts_alike(to_currency, asset_id),
        is_exists_outcome(asset_id, to_currency, false),
        move_outcome(asset_id, origin, amount, to_currency, op, res),
    ensures
        res == Err::<u128, CurrencyError<E>>(CurrencyError::Other(Reason::UnknownAsset)),
{
}

/// Law: for an asset id that names a local currency (and converts alike each time), the
/// balance and the supply are that currency's free balance of the account and its total
/// issuance.
pub proof fn lemma_known_asset_reads<
    Z,
    A,
    FC: FnOnce(Z) -> Option<CurrencyId>,
    FB: FnOnce(CurrencyId, &A) -> u128,
    FI: FnOnce(CurrencyId) -> u128,
>(
    asset_id: Z,
    id: CurrencyId,
    who: &A,
    to_currency: FC,
    free_balance: FB,
    total_issuance: FI,
    balance: u128,
    supply: u128,
)
    requires
        converts_alike(to_currency, asset_id),
        call_ensures(to_currency, (asset_id,), Some(id)),
        balance_of_outcome(asset_id, who, to_currency, free_balance, balance),
        total_supply_outcome(asset_id, to_currency, total_issuance, supply),
    ensures
        call_ensures(free_balance, (id, who), balance),
        call_ensures(total_issuance, (id,), supply),
{
}

/// Law: for an asset id that names a local currency (and converts alike each time), a transfer
/// is that currency's transfer between the same accounts of the same amount, its error handed
/// up unchanged.
pub proof fn lemma_known_asset_transfer<
    Z,
    A,
    E,
    FC: FnOnce(Z) -> Option<CurrencyId>,
    FT: FnOnce(CurrencyId, &A, &A, u128) -> Result<(), E>,
>(
    asset_id: Z,
    id: CurrencyId,
    origin: &A,
    target: &A,
    amount: u128,
    to_currency: FC,
    transfer: FT,
    res: Result<(), CurrencyError<E>>,
)
    requires
        converts_alike(to_currency, asset_id),
        call_ensures(to_currency, (asset_id,), Some(id)),
        transfer_outcome(asset_id, origin, target, amount, to_currency, transfer, res),
    ensures
        exists|r: Result<(), E>|
            #[trigger] call_ensures(transfer, (id, origin, target, amount), r) && match r {
                Ok(()) => res == Ok::<(), CurrencyError<E>>(()),
                Err(e) => res == Err::<(), CurrencyError<E>>(CurrencyError::Passed(e)),
            },
{
}

/// Law: for an asset id that names a local currency (and converts alike each time), a deposit
/// or withdrawal is that currency's operation on the same account and amount, which returns
/// the amount on success and hands its error up unchanged.
pub proof fn lemma_known_asset_move<
    Z,
    A,
    E,
    FC: FnOnce(Z) -> Option<CurrencyId>,
    FO: FnOnce(CurrencyId, &A, u128) -> Result<(), E>,
>(
    asset_id: Z,
    id: CurrencyId,
    origin: &A,
    amount: u128,
    to_currency: FC,
    op: FO,
    res: Result<u128, CurrencyError<E>>,
)
    requires
        converts_alike(to_currency, asset_id),
        call_ensures(to_currency, (asset_id,), Some(id)),
        move_outcome(asset_id, origin, amount, to_currency, op, res),
    ensures
        exists|r: Result<(), E>|
            #[trigger] call_ensures(op, (id, origin, amount), r) && match r {
                Ok(()) => res == Ok::<u128, CurrencyError<E>>(amount),
                Err(e) => res == Err::<u128, CurrencyError<E>>(CurrencyError::Passed(e)),
            },
{
}

} // verus!
