//! What is to be written for a user's action: the action is checked, and the rows
//! that record it are made ready. Writing them is the caller's part.

use vstd::prelude::*;
use vstd::string::StringExecFns;
use crate::error::Invalid;
use crate::error::LedgerError;
use crate::types::AssetTransaction;
use crate::types::CashFlow;
use crate::types::Date;
use crate::types::FlowType;
use crate::types::TransactionType;
use crate::valuation::settle_trade_against_cash;
use crate::valuation::settlement_of;
use crate::valuation::terms_failure;
use crate::valuation::trade_value;
use crate::valuation::value_of;

verus! {

/// The rows that record a trade: the transaction, and the cash movement that settles
/// it where the trade is settled against the cash of the portfolio. Rows that are
/// not yet stored have the id 0.
#[derive(Clone, Debug)]
pub struct TradePlan {
    pub transaction: AssetTransaction,
    pub cash: Option<CashFlow>,
}

/// Why a trade is not recorded, if it is not: its type is unknown, its quantity or
/// price is malformed, or it is a purchase to be paid from a cash balance that is
/// less than its value.
pub open spec fn trade_refusal(
    transaction_type: Seq<char>,
    quantity: int,
    price: int,
    use_cash_from_portfolio: bool,
    cash_balance: int,
) -> Option<LedgerError> {
    match TransactionType::named(transaction_type) {
        None => Some(LedgerError::ValidationError(Invalid::TransactionType)),
        Some(side) => match terms_failure(quantity, price) {
            Some(reason) => Some(LedgerError::ValidationError(reason)),
            None => if use_cash_from_portfolio && side == TransactionType::Buy && cash_balance
                < trade_value(quantity, price) {
                Some(LedgerError::InsufficientFunds)
            } else {
                None
            },
        },
    }
}

/// The description of the cash movement that settles a trade: the type of the
/// trade, a space, and the security.
pub open spec fn settlement_note(transaction_type: Seq<char>, ticker: Seq<char>) -> Seq<char> {
    transaction_type + " "@ + ticker
}

/// Checks a trade and makes ready the rows that record it.
///
/// The type must be `buy` or `sell`, the quantity positive and the price not
/// negative. Where the trade is settled against the cash of the portfolio, a
/// purchase whose value exceeds `cash_balance` is refused for insufficient funds,
/// and the plan holds the cash movement that settles the trade: the negative value
/// as `buy_cost` for a purchase, the value as `sell_proceeds` for a sale, on the
/// date of the trade. Where it is not, `cash_balance` is of no account and the plan
/// holds no cash movement.
pub fn add_asset_transaction(
    portfolio_id: i32,
    ticker: String,
    transaction_type: &str,
    quantity: i64,
    price: i64,
    transaction_date: Date,
    use_cash_from_portfolio: bool,
    cash_balance: i128,
) -> (r: Result<TradePlan, LedgerError>)
    ensures
        match r {
            Err(e) => trade_refusal(
                transaction_type@,
                quantity as int,
                price as int,
                use_cash_from_portfolio,
                cash_balance as int,
            ) == Some(e),
            Ok(plan) => {
                &&& trade_refusal(
                    transaction_type@,
                    quantity as int,
                    price as int,
                    use_cash_from_portfolio,
                    cash_balance as int,
                ) is None
                &&& plan.transaction.id == 0
                &&& plan.transaction.portfolio_id == portfolio_id
                &&& plan.transaction.ticker@ == ticker@
                &&& Some(plan.transaction.transaction_type) == TransactionType::named(
                    transaction_type@,
                )
                &&& plan.transaction.quantity == quantity
                &&& plan.transaction.price == price
                &&& plan.transaction.transaction_date == transaction_date
                &&& plan.cash is Some == use_cash_from_portfolio
                &&& plan.cash matches Some(c) ==> {
                    &&& c.id == 0
                    &&& c.portfolio_id == portfolio_id
                    &&& c.flow_type == settlement_of(
                        plan.transaction.transaction_type,
                        quantity as int,
                        price as int,
                    ).flow_type
                    &&& c.amount == settlement_of(
                        plan.transaction.transaction_type,
                        quantity as int,
                        price as int,
                    ).amount
                    &&& c.flow_date == transaction_date
                    &&& c.description matches Some(note) && note@ == settlement_note(
                        transaction_type@,
                        ticker@,
                    )
                }
            },
        },
{
    let side = match TransactionType::parse(transaction_type) {
        Ok(side) => side,
        Err(e) => {
            return Err(e);
        },
    };
    let settlement = match settle_trade_against_cash(side, quantity, price) {
        Ok(settlement) => settlement,
        Err(e) => {
            return Err(e);
        },
    };
    let value: i128 = value_of(quantity, price);
    let cash = if use_cash_from_portfolio {
        match side {
            TransactionType::Buy => {
                if cash_balance < value {
                    return Err(LedgerError::InsufficientFunds);
                }
            },
            TransactionType::Sell => {},
        }
        let mut note = String::from_str(transaction_type);
        note.append(" ");
        note.append(ticker.as_str());
        assert(note@ =~= settlement_note(transaction_type@, ticker@));
        Some(
            CashFlow {
                id: 0,
                portfolio_id,
                flow_type: settlement.flow_type,
                amount: settlement.amount,
                flow_date: transaction_date,
                description: Some(note),
            },
        )
    } else {
        None
    };
    Ok(
        TradePlan {
            transaction: AssetTransaction {
                id: 0,
                portfolio_id,
                ticker,
                transaction_type: side,
                quantity,
                price,
                transaction_date,
            },
            cash,
        },
    )
}

/// The kind of a cash movement that a user may enter by hand, if `text` names one:
/// a deposit or a withdrawal.
pub open spec fn entered_kind(text: Seq<char>) -> Option<FlowType> {
    if text == "deposit"@ {
        Some(FlowType::Deposit)
    } else if text == "withdrawal"@ {
        Some(FlowType::Withdrawal)
    } else {
        None
    }
}

/// Checks a cash movement entered by hand and makes ready the row that records it.
/// Only `deposit` and `withdrawal` can be entered; the amount is recorded as given,
/// so a withdrawal is entered with a negative amount.
pub fn add_cash_movement(
    portfolio_id: i32,
    flow_type: &str,
    amount: i128,
    flow_date: Date,
    description: String,
) -> (r: Result<CashFlow, LedgerError>)
    ensures
        match r {
            Err(e) => entered_kind(flow_type@) is None && e == LedgerError::ValidationError(
                Invalid::FlowType,
            ),
            Ok(c) => {
                &&& entered_kind(flow_type@) == Some(c.flow_type)
                &&& c.id == 0
                &&& c.portfolio_id == portfolio_id
                &&& c.amount == amount
                &&& c.flow_date == flow_date
                &&& c.description matches Some(text) && text@ == description@
            },
        },
{
    let kind = match FlowType::parse(flow_type) {
        Ok(FlowType::Deposit) => FlowType::Deposit,
        Ok(FlowType::Withdrawal) => FlowType::Withdrawal,
        _ => {
            proof {
                reveal_strlit("deposit");
                reveal_strlit("withdrawal");
                reveal_strlit("buy_cost");
                reveal_strlit("sell_proceeds");
                reveal_strlit("dividend");
                if flow_type@ == "buy_cost"@ || flow_type@ == "sell_proceeds"@ {
                    assert(flow_type@[0] != 'd' && flow_type@[0] != 'w');
                }
                if flow_type@ == "dividend"@ {
                    assert(flow_type@[1] == 'i');
                    assert(flow_type@.len() == 8);
                }
            }
            return Err(LedgerError::ValidationError(Invalid::FlowType));
        },
    };
    Ok(
        CashFlow {
            id: 0,
            portfolio_id,
            flow_type: kind,
            amount,
            flow_date,
            description: Some(description),
        },
    )
}

/// The description of the cash movement that books a dividend.
pub open spec fn dividend_note(ticker: Seq<char>) -> Seq<char> {
    "Dividendo de "@ + ticker
}

/// Makes ready the row that books a dividend as cash: a `dividend` movement of the
/// amount received, on the date of the dividend.
pub fn register_dividend_as_cash(
    portfolio_id: i32,
    ticker: &str,
    total_dividend_amount: i128,
    dividend_date: Date,
) -> (c: CashFlow)
    ensures
        c.id == 0,
        c.portfolio_id == portfolio_id,
        c.flow_type == FlowType::Dividend,
        c.amount == total_dividend_amount,
        c.flow_date == dividend_date,
        c.description matches Some(note) && note@ == dividend_note(ticker@),
{
    let mut note = String::from_str("Dividendo de ");
    note.append(ticker);
    CashFlow {
        id: 0,
        portfolio_id,
        flow_type: FlowType::Dividend,
        amount: total_dividend_amount,
        flow_date: dividend_date,
        description: Some(note),
    }
}

/// What the user is told once a transaction is deleted.
pub open spec fn deleted_notice() -> Seq<char> {
    "Transacción eliminada correctamente. Recuerda ajustar el cashflow manualmente si es necesario."@
}

/// What a request to delete one transaction comes to, given the number of rows that
/// the store deleted for it: a notice where that is one row, and otherwise the
/// finding that there was no such transaction. Cash movements that settled the
/// transaction stay as they are; the notice reminds the user of that.
pub fn delete_asset_transaction(rows_deleted: u64) -> (r: Result<String, LedgerError>)
    ensures
        match r {
            Ok(notice) => rows_deleted == 1 && notice@ == deleted_notice(),
            Err(e) => rows_deleted != 1 && e == LedgerError::NotFound,
        },
{
    if rows_deleted == 1 {
        Ok(
            String::from_str(
                "Transacción eliminada correctamente. Recuerda ajustar el cashflow manualmente si es necesario.",
            ),
        )
    } else {
        Err(LedgerError::NotFound)
    }
}

} // verus!
