//! The failures the ledger reports.

use vstd::prelude::*;
use vstd::string::StringExecFns;

verus! {

/// What is wrong with an input that the ledger rejects.
#[derive(Clone, Copy, Debug, PartialEq, Eq, Structural)]
pub enum Invalid {
    /// The transaction type is neither `buy` nor `sell`.
    TransactionType,
    /// The flow type is not one that the operation accepts.
    FlowType,
    /// The quantity of a trade is zero or negative.
    Quantity,
    /// The price of a trade is negative.
    Price,
}

/// The one failure an operation of the ledger returns.
#[derive(Clone, Copy, Debug, PartialEq, Eq, Structural)]
pub enum LedgerError {
    /// The input is malformed; nothing was attempted.
    ValidationError(Invalid),
    /// A purchase settled against cash costs more than the cash at hand.
    InsufficientFunds,
    /// The record to delete does not exist.
    NotFound,
    /// A total or an intermediate product does not fit the 128 bits of an amount.
    Overflow,
}

impl LedgerError {
    /// The text shown to the user for this failure.
    pub open spec fn message_text(self) -> Seq<char> {
        match self {
            LedgerError::ValidationError(Invalid::TransactionType) => "transaction_type debe ser 'buy' o 'sell'"@,
            LedgerError::ValidationError(Invalid::FlowType) => "flow_type debe ser 'deposit' o 'withdrawal'"@,
            LedgerError::ValidationError(Invalid::Quantity) => "quantity debe ser mayor que cero"@,
            LedgerError::ValidationError(Invalid::Price) => "price no puede ser negativo"@,
            LedgerError::InsufficientFunds => "Saldo insuficiente para realizar la compra"@,
            LedgerError::NotFound => "No se encontró la transacción para eliminar."@,
            LedgerError::Overflow => "El importe excede el rango representable"@,
        }
    }

    /// The text shown to the user for this failure.
    pub fn message(&self) -> (text: String)
        ensures
            text@ == self.message_text(),
    {
        match self {
            LedgerError::ValidationError(Invalid::TransactionType) => String::from_str(
                "transaction_type debe ser 'buy' o 'sell'",
            ),
            LedgerError::ValidationError(Invalid::FlowType) => String::from_str(
                "flow_type debe ser 'deposit' o 'withdrawal'",
            ),
            LedgerError::ValidationError(Invalid::Quantity) => String::from_str(
                "quantity debe ser mayor que cero",
            ),
            LedgerError::ValidationError(Invalid::Price) => String::from_str(
                "price no puede ser negativo",
            ),
            LedgerError::InsufficientFunds => String::from_str(
                "Saldo insuficiente para realizar la compra",
            ),
            LedgerError::NotFound => String::from_str(
                "No se encontró la transacción para eliminar.",
            ),
            LedgerError::Overflow => String::from_str("El importe excede el rango representable"),
        }
    }
}

} // verus!
