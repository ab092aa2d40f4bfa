use vstd::prelude::*;

verus! {

/// Why an operation on the ledger or on an account was refused.
#[derive(Clone, Copy, Debug, PartialEq, Eq, Structural)]
pub enum EngineError {
    InsufficientFunds,
    NegativeAmount,
    TrxAlreadyProcessed,
    TrxInvalidAmount,
    TrxNotFound,
    TrxNotInDisputableState,
    TrxNotInDispute,
    TrxNotDisputable,
    TrxClientIdInconsistency,
    AccountLocked,
    /// The exact result would need more than a 96-bit mantissa at the operands' common
    /// scale: it cannot be held without rounding.
    AmountOverflow,
}

impl EngineError {
    /// The text that describes the error.
    pub open spec fn text(self) -> Seq<char> {
        match self {
            EngineError::InsufficientFunds => "insufficient funds to execute transaction"@,
            EngineError::NegativeAmount => "negative transaction amount"@,
            EngineError::TrxAlreadyProcessed => "transaction already processed"@,
            EngineError::TrxInvalidAmount => "transaction contains an invalid amount to process"@,
            EngineError::TrxNotFound => "transaction not found in ledger"@,
            EngineError::TrxNotInDisputableState => "transaction not in a disputable state"@,
            EngineError::TrxNotInDispute => "transaction not in dispute"@,
            EngineError::TrxNotDisputable => "transaction type is not disputable"@,
            EngineError::TrxClientIdInconsistency =>
                "client id present in transaction is not consistent with the related transaction"@,
            EngineError::AccountLocked => "account in locked state"@,
            EngineError::AmountOverflow => "amount out of the range of an exact decimal"@,
        }
    }

    /// The text that describes the error, as a `String`.
    pub fn message(&self) -> (r: String)
        ensures
            r@ == self.text(),
    {
        let s: &str = match self {
            EngineError::InsufficientFunds => "insufficient funds to execute transaction",
            EngineError::NegativeAmount => "negative transaction amount",
            EngineError::TrxAlreadyProcessed => "transaction already processed",
            EngineError::TrxInvalidAmount => "transaction contains an invalid amount to process",
            EngineError::TrxNotFound => "transaction not found in ledger",
            EngineError::TrxNotInDisputableState => "transaction not in a disputable state",
            EngineError::TrxNotInDispute => "transaction not in dispute",
            EngineError::TrxNotDisputable => "transaction type is not disputable",
            EngineError::TrxClientIdInconsistency =>
                "client id present in transaction is not consistent with the related transaction",
            EngineError::AccountLocked => "account in locked state",
            EngineError::AmountOverflow => "amount out of the range of an exact decimal",
        };
        s.to_owned()
    }
}

} // verus!
