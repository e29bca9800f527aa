//! Transaction fees with the Economy-of-Things adjustment (`NewPeaqCurrencyAdapter`).

use vstd::prelude::*;

use crate::per_thing::{lemma_perbill_mul_le, perbill_mul, perbill_mul_spec, perbill_parts};
use crate::types::{CurrencyId, Existence, FeeReasons, TxError};

verus! {

/// `a + b`, saturating at `u128::MAX`.
pub open spec fn saturating_add(a: u128, b: int) -> u128 {
    if a + b > u128::MAX {
        u128::MAX
    } else {
        (a + b) as u128
    }
}

/// `a - b`, saturating at zero.
pub open spec fn saturating_sub(a: u128, b: u128) -> u128 {
    if a >= b {
        (a - b) as u128
    } else {
        0
    }
}

/// The fee that a transaction is charged: its total fee (which includes the tip) plus the
/// Economy-of-Things factor times its inclusion fee (the total fee without the tip),
/// saturating.
pub open spec fn eot_tx_fee(factor: u32, total_fee: u128, tip: u128) -> u128 {
    saturating_add(total_fee, perbill_mul_spec(perbill_parts(factor), (total_fee - tip) as u128))
}

/// The reasons under which a fee with `tip` is withdrawn.
pub open spec fn fee_reasons(tip: u128) -> FeeReasons {
    if tip == 0 {
        FeeReasons::TransactionPayment
    } else {
        FeeReasons::TransactionPaymentAndTip
    }
}

/// What `correct_and_deposit_fee` refunds of `paid` once the fee is corrected.
pub open spec fn fee_refund(factor: u32, paid: u128, cor_total_fee: u128, tip: u128) -> u128 {
    saturating_sub(paid, eot_tx_fee(factor, cor_total_fee, tip))
}

/// The runtime's fee handler, with its Economy-of-Things fee factor in parts per billion
/// (`EoTFeeFactor`).
pub struct NewPeaqCurrencyAdapter {
    pub eot_fee_factor: u32,
}

impl NewPeaqCurrencyAdapter {
    /// The fee charged for a transaction with `total_fee` (tip included) and `tip`.
    pub fn eot_tx_fee(&self, total_fee: u128, tip: u128) -> (fee: u128)
        requires
            tip <= total_fee,
        ensures
            fee == eot_tx_fee(self.eot_fee_factor, total_fee, tip),
    {
        let inclusion_fee = total_fee - tip;
        let eot_fee = perbill_mul(self.eot_fee_factor, inclusion_fee);
        total_fee.saturating_add(eot_fee)
    }

    /// Withdraws the predicted fee of a transaction from its origin. A zero fee withdraws
    /// nothing. Otherwise the fee with the Economy-of-Things adjustment must pass
    /// `ensure_can_withdraw` (whose error is handed up), and is then withdrawn, keeping the
    /// account alive, under the payment reasons (with the tip reason where there is a tip);
    /// a failed withdrawal refuses the payment.
    pub fn withdraw_fee<
        I,
        E,
        FE: FnOnce(u128) -> Result<CurrencyId, TxError>,
        FW: FnOnce(u128, FeeReasons, Existence) -> Result<I, E>,
    >(&self, total_fee: u128, tip: u128, ensure_can_withdraw: FE, withdraw: FW) -> (res: Result<
        Option<I>,
        TxError,
    >)
        requires
            total_fee != 0 ==> tip <= total_fee,
            forall|fee: u128| call_requires(ensure_can_withdraw, (fee,)),
            forall|fee: u128, reasons: FeeReasons|
                call_requires(withdraw, (fee, reasons, Existence::KeepAlive)),
        ensures
            total_fee == 0 ==> res == Ok::<Option<I>, TxError>(None),
            total_fee != 0 ==> {
                let fee = eot_tx_fee(self.eot_fee_factor, total_fee, tip);
                exists|c: Result<CurrencyId, TxError>|
                    #[trigger] call_ensures(ensure_can_withdraw, (fee,), c) && match c {
                        Err(e) => res == Err::<Option<I>, TxError>(e),
                        Ok(_) => exists|w: Result<I, E>|
                            #[trigger] call_ensures(
                                withdraw,
                                (fee, fee_reasons(tip), Existence::KeepAlive),
                                w,
                            ) && res
                                == match w {
                                Ok(i) => Ok::<Option<I>, TxError>(Some(i)),
                                Err(_) => Err(TxError::Payment),
                            },
                    }
            },
    {
        if total_fee == 0 {
            return Ok(None);
        }
        let reasons = if tip == 0 {
            FeeReasons::TransactionPayment
        } else {
            FeeReasons::TransactionPaymentAndTip
        };
        let tx_fee = self.eot_tx_fee(total_fee, tip);
        let c = ensure_can_withdraw(tx_fee);
        match c {
            Err(e) => Err(e),
            Ok(_) => {
                let w = withdraw(tx_fee, reasons, Existence::KeepAlive);
                let res = match w {
                    Ok(i) => Ok(Some(i)),
                    Err(_) => Err(TxError::Payment),
                };
                assert(call_ensures(withdraw, (tx_fee, reasons, Existence::KeepAlive), w));
                res
            },
        }
    }

    /// The refund owed once the fee of a transaction is corrected: nothing where no fee was
    /// withdrawn, otherwise whatever was paid beyond the corrected fee with the
    /// Economy-of-Things adjustment.
    pub fn correct_and_deposit_fee(
        &self,
        cor_total_fee: u128,
        tip: u128,
        already_paid: Option<u128>,
    ) -> (refund: Option<u128>)
        requires
            already_paid is Some ==> tip <= cor_total_fee,
        ensures
            match already_paid {
                None => refund is None,
                Some(paid) => refund == Some(
                    fee_refund(self.eot_fee_factor, paid, cor_total_fee, tip),
                ),
            },
    {
        match already_paid {
            None => None,
            Some(paid) => {
                let cor_tx_fee = self.eot_tx_fee(cor_total_fee, tip);
                Some(paid.saturating_sub(cor_tx_fee))
            },
        }
    }

    /// Settles a corrected fee once `refunded` of the `paid` amount went back to the account:
    /// the payment is refused where more was refunded than paid, and otherwise what is kept is
    /// split into the fee and the tip, the tip taking at most `tip` of it.
    pub fn settle_fee(paid: u128, refunded: u128, tip: u128) -> (res: Result<(u128, u128), TxError>)
        ensures
            refunded > paid ==> res == Err::<(u128, u128), TxError>(TxError::Payment),
            refunded <= paid ==> res == Ok::<(u128, u128), TxError>(
                fee_and_tip((paid - refunded) as u128, tip),
            ),
    {
        if refunded > paid {
            return Err(TxError::Payment);
        }
        let kept = paid - refunded;
        let tip_part = if tip < kept {
            tip
        } else {
            kept
        };
        Ok((kept - tip_part, tip_part))
    }
}

/// The fee and the tip that `kept` is split into: the tip takes `tip`, or all that is kept
/// where that is less, and the fee takes the rest.
pub open spec fn fee_and_tip(kept: u128, tip: u128) -> (u128, u128) {
    let tip_part = if tip < kept {
        tip
    } else {
        kept
    };
    ((kept - tip_part) as u128, tip_part)
}

/// Law: a settled fee accounts for every unit paid: the fee, the tip and the refund add up to
/// what was paid; the tip part never exceeds the tip, and it takes the whole tip unless that
/// leaves no fee at all (so the tip part is the smaller of the tip and what is kept).
pub proof fn lemma_settlement_conserves(paid: u128, refunded: u128, tip: u128)
    requires
        refunded <= paid,
    ensures
        fee_and_tip((paid - refunded) as u128, tip).0 + fee_and_tip((paid - refunded) as u128, tip).1
            + refunded == paid,
        fee_and_tip((paid - refunded) as u128, tip).1 <= tip,
        fee_and_tip((paid - refunded) as u128, tip).1 == tip || fee_and_tip(
            (paid - refunded) as u128,
            tip,
        ).0 == 0,
{
}

/// Law: the Economy-of-Things adjustment never lowers a fee, and never adds more than the
/// inclusion fee (the fee without the tip); a fee that is all tip is left as it is.
pub proof fn lemma_eot_fee_bounds(factor: u32, total_fee: u128, tip: u128)
    requires
        tip <= total_fee,
    ensures
        total_fee <= eot_tx_fee(factor, total_fee, tip),
        eot_tx_fee(factor, total_fee, tip) <= total_fee + (total_fee - tip),
        tip == total_fee ==> eot_tx_fee(factor, total_fee, tip) == total_fee,
{
    lemma_perbill_mul_le(perbill_parts(factor), (total_fee - tip) as u128);
}

/// Law: a withdrawn fee that is corrected to the fee it was predicted with is not refunded.
pub proof fn lemma_uncorrected_fee_no_refund(factor: u32, total_fee: u128, tip: u128)
    requires
        tip <= total_fee,
    ensures
        fee_refund(factor, eot_tx_fee(factor, total_fee, tip), total_fee, tip) == 0,
{
}

/// Law: after the refund, the fee kept is the corrected fee, or all that was paid where that
/// was less; it never exceeds either.
pub proof fn lemma_kept_fee(factor: u32, paid: u128, cor_total_fee: u128, tip: u128)
    requires
        tip <= cor_total_fee,
    ensures
        paid - fee_refund(factor, paid, cor_total_fee, tip) == if paid <= eot_tx_fee(
            factor,
            cor_total_fee,
            tip,
        ) {
            paid as int
        } else {
            eot_tx_fee(factor, cor_total_fee, tip) as int
        },
{
}

/// Law: a lower corrected fee never leads to a smaller refund.
pub proof fn lemma_refund_monotone(
    factor: u32,
    paid: u128,
    cor_total_fee: u128,
    lower_total_fee: u128,
    tip: u128,
)
    requires
        tip <= lower_total_fee <= cor_total_fee,
    ensures
        fee_refund(factor, paid, cor_total_fee, tip) <= fee_refund(
            factor,
            paid,
            lower_total_fee,
            tip,
        ),
{
    let p = perbill_parts(factor);
    let a = (lower_total_fee - tip) as u128;
    let b = (cor_total_fee - tip) as u128;
    crate::per_thing::lemma_perbill_mul_monotone(p, a, b);
}

/// Law: the fee charged is the total fee plus the Economy-of-Things surcharge, which is the
/// inclusion fee (the total without the tip) times the factor (capped at one whole), rounded to
/// the nearest unit with an exact half rounded down; only where that sum does not fit a balance
/// is the fee the largest balance instead.
pub proof fn lemma_eot_fee_is_rounded_surcharge(factor: u32, total_fee: u128, tip: u128)
    requires
        tip <= total_fee,
    ensures
        ({
            let fee = eot_tx_fee(factor, total_fee, tip) as int;
            let parts: int = if factor > 1_000_000_000 {
                1_000_000_000
            } else {
                factor as int
            };
            let x = (total_fee - tip) * parts;
            &&& fee >= total_fee
            &&& fee < u128::MAX ==> (fee - total_fee) * 1_000_000_000 - 500_000_000 < x <= (fee
                - total_fee) * 1_000_000_000 + 500_000_000
            &&& fee == u128::MAX ==> x > (u128::MAX - total_fee) * 1_000_000_000 - 500_000_000
        }),
{
    let p = perbill_parts(factor);
    let incl = (total_fee - tip) as u128;
    crate::per_thing::lemma_perbill_mul_shifted(p, incl);
    lemma_perbill_mul_le(p, incl);
    let b = 1_000_000_000int;
    let x = (incl as int) * (p as int);
    let e = perbill_mul_spec(p, incl);
    assert(e == (x + 499_999_999) / b);
    vstd::arithmetic::div_mod::lemma_fundamental_div_mod(x + 499_999_999, b);
    vstd::arithmetic::div_mod::lemma_mod_pos_bound(x + 499_999_999, b);
    assert(e * b - 500_000_000 < x <= e * b + 500_000_000);
    let fee = eot_tx_fee(factor, total_fee, tip) as int;
    if total_fee + e > u128::MAX {
        assert(fee == u128::MAX);
        assert((u128::MAX - total_fee) * b <= e * b) by (nonlinear_arith)
            requires
                u128::MAX - total_fee <= e,
                b > 0,
        ;
    } else {
        assert(fee == total_fee + e);
    }
}

/// Law: a fee is withdrawn under the tip reason as well exactly where it has a tip.
pub proof fn lemma_tip_reason_only_with_tip(tip: u128)
    ensures
        fee_reasons(tip) == FeeReasons::TransactionPaymentAndTip <==> tip > 0,
        fee_reasons(tip) == FeeReasons::TransactionPayment <==> tip == 0,
{
}

} // verus!
