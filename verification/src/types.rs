//! The plain values that the currency and fee logic reads and returns.

use vstd::prelude::*;

verus! {

/// A currency of the runtime (`NewCurrencyId`), as the logic reads it: a token, identified by
/// the code of its symbol, or the liquidity-pool token of a pair of tokens.
#[derive(PartialEq, Eq, Structural, Clone, Copy, Debug)]
pub enum CurrencyId {
    Token(u8),
    LPToken(u8, u8),
}

/// The message of a `DispatchError::Other` that this library raises.
#[derive(PartialEq, Eq, Structural, Clone, Copy, Debug)]
pub enum Reason {
    /// "Insufficient balance"
    InsufficientBalance,
    /// "Transfer failed"
    TransferFailed,
    /// "Deposit failed"
    DepositFailed,
    /// "Withdraw failed"
    WithdrawFailed,
    /// "unknown asset in local transfer"
    UnknownAsset,
}

/// A failed currency operation: either the error of the currency that did the work, handed
/// up unchanged, or a `DispatchError::Other` raised here.
#[derive(PartialEq, Eq, Debug)]
pub enum CurrencyError<E> {
    Passed(E),
    Other(Reason),
}

/// A refused transaction fee payment (`TransactionValidityError::Invalid`).
#[derive(PartialEq, Eq, Structural, Clone, Copy, Debug)]
pub enum TxError {
    /// `InvalidTransaction::Payment`
    Payment,
    /// `InvalidTransaction::Custom(code)`
    Custom(u8),
}

/// The reasons under which a transaction fee is withdrawn.
#[derive(PartialEq, Eq, Structural, Clone, Copy, Debug)]
pub enum FeeReasons {
    /// `WithdrawReasons::TRANSACTION_PAYMENT`
    TransactionPayment,
    /// `WithdrawReasons::TRANSACTION_PAYMENT | WithdrawReasons::TIP`
    TransactionPaymentAndTip,
}

/// Whether a withdrawal may leave the account below its existential deposit
/// (`ExistenceRequirement`).
#[derive(PartialEq, Eq, Structural, Clone, Copy, Debug)]
pub enum Existence {
    /// The account must stay alive.
    KeepAlive,
    /// The account may be reaped.
    AllowDeath,
}

/// The custom error code that a payment failure in `id` is reported with: the symbol's code
/// for a token, 255 for anything else.
pub open spec fn currency_error_code(id: CurrencyId) -> u8 {
    match id {
        CurrencyId::Token(symbol) => symbol,
        _ => 255,
    }
}

/// The payment error for a currency that cannot be converted or swapped
/// (`map_err_newcurrency2zasset`).
pub fn map_err_newcurrency2zasset(id: CurrencyId) -> (e: TxError)
    ensures
        e == TxError::Custom(currency_error_code(id)),
{
    TxError::Custom(
        match id {
            CurrencyId::Token(symbol) => symbol,
            _ => 255u8,
        },
    )
}

/// Law: a payment failure in a token is reported with the token's symbol code, and one in a
/// liquidity-pool token with 255.
pub proof fn lemma_error_code_of_currency(symbol: u8, s0: u8, s1: u8)
    ensures
        currency_error_code(CurrencyId::Token(symbol)) == symbol,
        currency_error_code(CurrencyId::LPToken(s0, s1)) == 255,
{
}

} // verus!
