//! The records of the ledger and their mathematical views.

use vstd::prelude::*;
use vstd::string::StringExecFns;
use crate::error::Invalid;
use crate::error::LedgerError;

verus! {

/// A calendar date, held as the three numbers that name it.
#[derive(Clone, Copy, Debug, PartialEq, Eq, Structural)]
pub struct Date {
    pub year: i32,
    pub month: u32,
    pub day: u32,
}

/// The two sides of a trade.
#[derive(Clone, Copy, Debug, PartialEq, Eq, Structural)]
pub enum TransactionType {
    Buy,
    Sell,
}

impl TransactionType {
    /// The name under which a side is stored.
    pub open spec fn name(self) -> Seq<char> {
        match self {
            TransactionType::Buy => "buy"@,
            TransactionType::Sell => "sell"@,
        }
    }

    /// The side that a stored name stands for, if it is the name of one.
    pub open spec fn named(text: Seq<char>) -> Option<TransactionType> {
        if text == "buy"@ {
            Some(TransactionType::Buy)
        } else if text == "sell"@ {
            Some(TransactionType::Sell)
        } else {
            None
        }
    }

    /// Reads a stored name. Any text but `buy` and `sell` is rejected.
    pub fn parse(text: &str) -> (r: Result<TransactionType, LedgerError>)
        ensures
            r == (match TransactionType::named(text@) {
                Some(side) => Ok::<TransactionType, LedgerError>(side),
                None => Err(LedgerError::ValidationError(Invalid::TransactionType)),
            }),
    {
        let given = String::from_str(text);
        if given == String::from_str("buy") {
            Ok(TransactionType::Buy)
        } else if given == String::from_str("sell") {
            Ok(TransactionType::Sell)
        } else {
            Err(LedgerError::ValidationError(Invalid::TransactionType))
        }
    }

    /// The name under which this side is stored.
    pub fn as_str(&self) -> (text: &'static str)
        ensures
            text@ == self.name(),
    {
        match self {
            TransactionType::Buy => "buy",
            TransactionType::Sell => "sell",
        }
    }
}

/// The kinds of cash movement.
#[derive(Clone, Copy, Debug, PartialEq, Eq, Structural)]
pub enum FlowType {
    Deposit,
    Withdrawal,
    BuyCost,
    SellProceeds,
    Dividend,
}

impl FlowType {
    /// The name under which a kind is stored.
    pub open spec fn name(self) -> Seq<char> {
        match self {
            FlowType::Deposit => "deposit"@,
            FlowType::Withdrawal => "withdrawal"@,
            FlowType::BuyCost => "buy_cost"@,
            FlowType::SellProceeds => "sell_proceeds"@,
            FlowType::Dividend => "dividend"@,
        }
    }

    /// The kind that a stored name stands for, if it is the name of one.
    pub open spec fn named(text: Seq<char>) -> Option<FlowType> {
        if text == "deposit"@ {
            Some(FlowType::Deposit)
        } else if text == "withdrawal"@ {
            Some(FlowType::Withdrawal)
        } else if text == "buy_cost"@ {
            Some(FlowType::BuyCost)
        } else if text == "sell_proceeds"@ {
            Some(FlowType::SellProceeds)
        } else if text == "dividend"@ {
            Some(FlowType::Dividend)
        } else {
            None
        }
    }

    /// Reads a stored name. Any text but the five names is rejected.
    pub fn parse(text: &str) -> (r: Result<FlowType, LedgerError>)
        ensures
            r == (match FlowType::named(text@) {
                Some(kind) => Ok::<FlowType, LedgerError>(kind),
                None => Err(LedgerError::ValidationError(Invalid::FlowType)),
            }),
    {
        let given = String::from_str(text);
        if given == String::from_str("deposit") {
            Ok(FlowType::Deposit)
        } else if given == String::from_str("withdrawal") {
            Ok(FlowType::Withdrawal)
        } else if given == String::from_str("buy_cost") {
            Ok(FlowType::BuyCost)
        } else if given == String::from_str("sell_proceeds") {
            Ok(FlowType::SellProceeds)
        } else if given == String::from_str("dividend") {
            Ok(FlowType::Dividend)
        } else {
            Err(LedgerError::ValidationError(Invalid::FlowType))
        }
    }

    /// The name under which this kind is stored.
    pub fn as_str(&self) -> (text: &'static str)
        ensures
            text@ == self.name(),
    {
        match self {
            FlowType::Deposit => "deposit",
            FlowType::Withdrawal => "withdrawal",
            FlowType::BuyCost => "buy_cost",
            FlowType::SellProceeds => "sell_proceeds",
            FlowType::Dividend => "dividend",
        }
    }
}

/// A trade as the ledger reasons about it.
pub struct Trade {
    pub ticker: Seq<char>,
    pub side: TransactionType,
    pub quantity: int,
    pub price: int,
}

/// A recorded purchase or sale of one security.
#[derive(Clone, Debug)]
pub struct AssetTransaction {
    pub id: i32,
    pub portfolio_id: i32,
    pub ticker: String,
    pub transaction_type: TransactionType,
    /// Millionths of a share.
    pub quantity: i64,
    /// Millionths of a currency unit, for one share.
    pub price: i64,
    pub transaction_date: Date,
}

impl View for AssetTransaction {
    type V = Trade;

    open spec fn view(&self) -> Trade {
        Trade {
            ticker: self.ticker@,
            side: self.transaction_type,
            quantity: self.quantity as int,
            price: self.price as int,
        }
    }
}

/// The trades of a list of transactions, in the order of the list.
pub open spec fn trades(transactions: Seq<AssetTransaction>) -> Seq<Trade> {
    transactions.map_values(|t: AssetTransaction| t@)
}

/// A recorded movement of cash into or out of a portfolio. Money that leaves is
/// recorded with a negative amount.
#[derive(Clone, Debug)]
pub struct CashFlow {
    pub id: i32,
    pub portfolio_id: i32,
    pub flow_type: FlowType,
    pub amount: i128,
    pub flow_date: Date,
    pub description: Option<String>,
}

/// A dividend received on one security.
#[derive(Clone, Debug)]
pub struct Dividend {
    pub ticker: String,
    pub total_dividend_amount: i128,
    pub dividend_date: Date,
}

} // verus!
