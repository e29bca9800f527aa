//! Ids of the liquidity-pool tokens of Zenlink pairs (`NewPeaqZenlinkLpGenerate`).

use vstd::prelude::*;

use crate::types::CurrencyId;

verus! {

/// The liquidity-pool token of a pair of currencies: only a pair of plain tokens has one, and
/// it keeps the order of the pair.
pub open spec fn lp_token(c0: CurrencyId, c1: CurrencyId) -> Option<CurrencyId> {
    match (c0, c1) {
        (CurrencyId::Token(s0), CurrencyId::Token(s1)) => Some(CurrencyId::LPToken(s0, s1)),
        _ => None,
    }
}

/// Creates the runtime's liquidity-pool tokens for Zenlink.
pub struct NewPeaqZenlinkLpGenerate;

impl NewPeaqZenlinkLpGenerate {
    /// The Zenlink id of the liquidity-pool token of the pair `asset0`, `asset1`. Both ids
    /// must name local currencies that are plain tokens; the pool token is created where it
    /// does not exist yet, and a failed creation or conversion gives `None`.
    pub fn generate_lp_asset_id<
        Z,
        FC: Fn(Z) -> Option<CurrencyId>,
        FX: FnOnce(CurrencyId) -> bool,
        FK: FnOnce(CurrencyId) -> bool,
        FZ: FnOnce(CurrencyId) -> Option<Z>,
    >(
        asset0: Z,
        asset1: Z,
        to_currency: FC,
        asset_exists: FX,
        create: FK,
        to_zen: FZ,
    ) -> (res: Option<Z>)
        requires
            forall|z: Z| call_requires(to_currency, (z,)),
            forall|c: CurrencyId| call_requires(asset_exists, (c,)),
            forall|c: CurrencyId| call_requires(create, (c,)),
            forall|c: CurrencyId| call_requires(to_zen, (c,)),
        ensures
            exists|c0: Option<CurrencyId>|
                #[trigger] call_ensures(to_currency, (asset0,), c0) && match c0 {
                    None => res is None,
                    Some(id0) => exists|c1: Option<CurrencyId>|
                        #[trigger] call_ensures(to_currency, (asset1,), c1) && match c1 {
                            None => res is None,
                            Some(id1) => match lp_token(id0, id1) {
                                None => res is None,
                                Some(lp) => exists|exists_already: bool|
                                    #[trigger] call_ensures(asset_exists, (lp,), exists_already)
                                        && if exists_already {
                                        call_ensures(to_zen, (lp,), res)
                                    } else {
                                        exists|created: bool|
                                            #[trigger] call_ensures(create, (lp,), created) && if created {
                                                call_ensures(to_zen, (lp,), res)
                                            } else {
                                                res is None
                                            }
                                    },
                            },
                        },
                },
    {
        let c0 = to_currency(asset0);
        let id0 = match c0 {
            Some(id) => id,
            None => return None,
        };
        let c1 = to_currency(asset1);
        let id1 = match c1 {
            Some(id) => id,
            None => return None,
        };
        match (id0, id1) {
            (CurrencyId::Token(symbol0), CurrencyId::Token(symbol1)) => {
                let lp_currency = CurrencyId::LPToken(symbol0, symbol1);
                let exists_already = asset_exists(lp_currency);
                if !exists_already {
                    let created = create(lp_currency);
                    if !created {
                        return None;
                    }
                    let res = to_zen(lp_currency);
                    assert(call_ensures(create, (lp_currency,), created));
                    return res;
                }
                to_zen(lp_currency)
            },
            (_, _) => None,
        }
    }
}

/// Law: the pool token of two plain tokens is the pool token of that pair, in that order, and
/// a pair that holds a pool token has none.
pub proof fn lemma_lp_token_of_pairs(s0: u8, s1: u8, c: CurrencyId)
    ensures
        lp_token(CurrencyId::Token(s0), CurrencyId::Token(s1)) == Some(CurrencyId::LPToken(s0, s1)),
        lp_token(CurrencyId::LPToken(s0, s1), c) is None,
        lp_token(c, CurrencyId::LPToken(s0, s1)) is None,
{
}

} // verus!
