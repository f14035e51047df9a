//! The records of one portfolio held in memory: its transactions and its cash
//! movements, with the operations that add to them and take from them. Every
//! operation either succeeds as a whole or leaves the book as it was.

use vstd::prelude::*;
use crate::cash::cash_fits;
use crate::cash::cash_total;
use crate::cash::compute_cash_balance;
use crate::error::LedgerError;
use crate::ledger::Positions;
use crate::ledger::compute_positions;
use crate::ledger::outcome_model;
use crate::ledger::positions_outcome;
use crate::recording::add_asset_transaction;
use crate::recording::add_cash_movement;
use crate::recording::delete_asset_transaction;
use crate::recording::deleted_notice;
use crate::recording::dividend_note;
use crate::recording::entered_kind;
use crate::recording::register_dividend_as_cash;
use crate::recording::settlement_note;
use crate::recording::trade_refusal;
use crate::types::AssetTransaction;
use crate::types::CashFlow;
use crate::types::Date;
use crate::types::FlowType;
use crate::types::TransactionType;
use crate::types::trades;
use crate::valuation::settle_trade_against_cash;
use crate::valuation::settlement_of;

verus! {

/// The records of one portfolio.
#[derive(Clone, Debug)]
pub struct Book {
    pub portfolio_id: i32,
    /// The transactions, in the order in which they are to be taken.
    pub transactions: Vec<AssetTransaction>,
    pub cashflow: Vec<CashFlow>,
    /// The id that the next transaction gets.
    pub next_transaction_id: i32,
    /// The id that the next cash movement gets.
    pub next_cashflow_id: i32,
}

/// Why a book does not record a trade, if it does not. A malformed trade is refused
/// first. A trade settled against cash is then refused where the ledger cannot hold
/// the cash balance, and a purchase where the balance is less than its value. Last,
/// a trade is refused where the ids of the book are used up.
pub open spec fn book_refusal(
    book: Book,
    transaction_type: Seq<char>,
    quantity: int,
    price: int,
    use_cash_from_portfolio: bool,
) -> Option<LedgerError> {
    match trade_refusal(transaction_type, quantity, price, false, 0) {
        Some(e) => Some(e),
        None => if use_cash_from_portfolio && !cash_fits(book.cashflow@) {
            Some(LedgerError::Overflow)
        } else {
            match trade_refusal(
                transaction_type,
                quantity,
                price,
                use_cash_from_portfolio,
                cash_total(book.cashflow@),
            ) {
                Some(e) => Some(e),
                None => if book.next_transaction_id == i32::MAX || (use_cash_from_portfolio
                    && book.next_cashflow_id == i32::MAX) {
                    Some(LedgerError::Overflow)
                } else {
                    None
                },
            }
        },
    }
}

impl Book {
    /// A book without records, whose ids start at 1.
    pub fn new(portfolio_id: i32) -> (book: Book)
        ensures
            book.portfolio_id == portfolio_id,
            book.transactions@.len() == 0,
            book.cashflow@.len() == 0,
            book.next_transaction_id == 1,
            book.next_cashflow_id == 1,
    {
        Book {
            portfolio_id,
            transactions: Vec::new(),
            cashflow: Vec::new(),
            next_transaction_id: 1,
            next_cashflow_id: 1,
        }
    }

    /// The cash balance of the book.
    pub fn cash_balance(&self) -> (r: Result<i128, LedgerError>)
        ensures
            match r {
                Ok(balance) => cash_fits(self.cashflow@) && balance == cash_total(self.cashflow@),
                Err(e) => e == LedgerError::Overflow && !cash_fits(self.cashflow@),
            },
    {
        compute_cash_balance(&self.cashflow)
    }

    /// The open positions of the book and its realized profit and loss.
    pub fn positions(&self) -> (r: Result<Positions, LedgerError>)
        ensures
            outcome_model(r) == positions_outcome(trades(self.transactions@)),
    {
        compute_positions(&self.transactions)
    }

    /// Records a deposit or a withdrawal and returns the id of the new movement.
    pub fn add_cash_movement(
        &mut self,
        flow_type: &str,
        amount: i128,
        flow_date: Date,
        description: String,
    ) -> (r: Result<i32, LedgerError>)
        ensures
            match r {
                Err(e) => {
                    &&& *final(self) == *old(self)
                    &&& e == (if entered_kind(flow_type@) is None {
                        LedgerError::ValidationError(crate::error::Invalid::FlowType)
                    } else {
                        LedgerError::Overflow
                    })
                    &&& entered_kind(flow_type@) is None || old(self).next_cashflow_id == i32::MAX
                },
                Ok(id) => {
                    &&& id == old(self).next_cashflow_id
                    &&& id < i32::MAX
                    &&& final(self).next_cashflow_id == id + 1
                    &&& final(self).portfolio_id == old(self).portfolio_id
                    &&& final(self).transactions == old(self).transactions
                    &&& final(self).next_transaction_id == old(self).next_transaction_id
                    &&& final(self).cashflow@.len() == old(self).cashflow@.len() + 1
                    &&& final(self).cashflow@.drop_last() == old(self).cashflow@
                    &&& final(self).cashflow@.last().id == id
                    &&& final(self).cashflow@.last().portfolio_id == old(self).portfolio_id
                    &&& Some(final(self).cashflow@.last().flow_type) == entered_kind(flow_type@)
                    &&& final(self).cashflow@.last().amount == amount
                    &&& final(self).cashflow@.last().flow_date == flow_date
                    &&& final(self).cashflow@.last().description matches Some(text) && text@
                        == description@
                },
            },
    {
        let mut row = match add_cash_movement(
            self.portfolio_id,
            flow_type,
            amount,
            flow_date,
            description,
        ) {
            Ok(row) => row,
            Err(e) => {
                return Err(e);
            },
        };
        if self.next_cashflow_id == i32::MAX {
            return Err(LedgerError::Overflow);
        }
        let id: i32 = self.next_cashflow_id;
        row.id = id;
        self.cashflow.push(row);
        self.next_cashflow_id = id + 1;
        assert(self.cashflow@.drop_last() =~= old(self).cashflow@);
        Ok(id)
    }

    /// Books a dividend as cash and returns the id of the new movement.
    pub fn register_dividend_as_cash(
        &mut self,
        ticker: &str,
        total_dividend_amount: i128,
        dividend_date: Date,
    ) -> (r: Result<i32, LedgerError>)
        ensures
            match r {
                Err(e) => {
                    &&& *final(self) == *old(self)
                    &&& e == LedgerError::Overflow
                    &&& old(self).next_cashflow_id == i32::MAX
                },
                Ok(id) => {
                    &&& id == old(self).next_cashflow_id
                    &&& id < i32::MAX
                    &&& final(self).next_cashflow_id == id + 1
                    &&& final(self).portfolio_id == old(self).portfolio_id
                    &&& final(self).transactions == old(self).transactions
                    &&& final(self).next_transaction_id == old(self).next_transaction_id
                    &&& final(self).cashflow@.len() == old(self).cashflow@.len() + 1
                    &&& final(self).cashflow@.drop_last() == old(self).cashflow@
                    &&& final(self).cashflow@.last().id == id
                    &&& final(self).cashflow@.last().portfolio_id == old(self).portfolio_id
                    &&& final(self).cashflow@.last().flow_type == FlowType::Dividend
                    &&& final(self).cashflow@.last().amount == total_dividend_amount
                    &&& final(self).cashflow@.last().flow_date == dividend_date
                    &&& final(self).cashflow@.last().description matches Some(text) && text@
                        == dividend_note(ticker@)
                },
            },
    {
        if self.next_cashflow_id == i32::MAX {
            return Err(LedgerError::Overflow);
        }
        let mut row = register_dividend_as_cash(
            self.portfolio_id,
            ticker,
            total_dividend_amount,
            dividend_date,
        );
        let id: i32 = self.next_cashflow_id;
        row.id = id;
        self.cashflow.push(row);
        self.next_cashflow_id = id + 1;
        assert(self.cashflow@.drop_last() =~= old(self).cashflow@);
        Ok(id)
    }

    /// Records a trade and, where it is settled against the cash of the portfolio,
    /// the cash movement that settles it; returns the id of the new transaction.
    ///
    /// The check of the balance and the two records are one step: a trade that is
    /// refused, for insufficient funds or for any other reason, leaves the
    /// transactions and the cash movements of the book as they were.
    pub fn add_asset_transaction(
        &mut self,
        ticker: String,
        transaction_type: &str,
        quantity: i64,
        price: i64,
        transaction_date: Date,
        use_cash_from_portfolio: bool,
    ) -> (r: Result<i32, LedgerError>)
        ensures
            match r {
                Err(e) => {
                    &&& *final(self) == *old(self)
                    &&& book_refusal(
                        *old(self),
                        transaction_type@,
                        quantity as int,
                        price as int,
                        use_cash_from_portfolio,
                    ) == Some(e)
                },
                Ok(id) => {
                    &&& book_refusal(
                        *old(self),
                        transaction_type@,
                        quantity as int,
                        price as int,
                        use_cash_from_portfolio,
                    ) is None
                    &&& id == old(self).next_transaction_id
                    &&& final(self).next_transaction_id == id + 1
                    &&& final(self).portfolio_id == old(self).portfolio_id
                    &&& final(self).transactions@.len() == old(self).transactions@.len() + 1
                    &&& final(self).transactions@.drop_last() == old(self).transactions@
                    &&& final(self).transactions@.last().id == id
                    &&& final(self).transactions@.last().portfolio_id == old(self).portfolio_id
                    &&& final(self).transactions@.last().ticker@ == ticker@
                    &&& Some(final(self).transactions@.last().transaction_type)
                        == TransactionType::named(transaction_type@)
                    &&& final(self).transactions@.last().quantity == quantity
                    &&& final(self).transactions@.last().price == price
                    &&& final(self).transactions@.last().transaction_date == transaction_date
                    &&& !use_cash_from_portfolio ==> final(self).cashflow == old(self).cashflow
                        && final(self).next_cashflow_id == old(self).next_cashflow_id
                    &&& use_cash_from_portfolio ==> {
                        &&& final(self).next_cashflow_id == old(self).next_cashflow_id + 1
                        &&& final(self).cashflow@.len() == old(self).cashflow@.len() + 1
                        &&& final(self).cashflow@.drop_last() == old(self).cashflow@
                        &&& final(self).cashflow@.last().id == old(self).next_cashflow_id
                        &&& final(self).cashflow@.last().portfolio_id == old(self).portfolio_id
                        &&& final(self).cashflow@.last().flow_type == settlement_of(
                            final(self).transactions@.last().transaction_type,
                            quantity as int,
                            price as int,
                        ).flow_type
                        &&& final(self).cashflow@.last().amount == settlement_of(
                            final(self).transactions@.last().transaction_type,
                            quantity as int,
                            price as int,
                        ).amount
                        &&& final(self).cashflow@.last().flow_date == transaction_date
                        &&& final(self).cashflow@.last().description matches Some(text) && text@
                            == settlement_note(transaction_type@, ticker@)
                    }
                },
            },
    {
        let side = match TransactionType::parse(transaction_type) {
            Ok(side) => side,
            Err(e) => {
                return Err(e);
            },
        };
        match settle_trade_against_cash(side, quantity, price) {
            Ok(_) => {},
            Err(e) => {
                return Err(e);
            },
        }
        let balance: i128 = if use_cash_from_portfolio {
            match compute_cash_balance(&self.cashflow) {
                Ok(balance) => balance,
                Err(e) => {
                    return Err(e);
                },
            }
        } else {
            0
        };
        let plan = match add_asset_transaction(
            self.portfolio_id,
            ticker,
            transaction_type,
            quantity,
            price,
            transaction_date,
            use_cash_from_portfolio,
            balance,
        ) {
            Ok(plan) => plan,
            Err(e) => {
                return Err(e);
            },
        };
        if self.next_transaction_id == i32::MAX {
            return Err(LedgerError::Overflow);
        }
        let mut transaction = plan.transaction;
        match plan.cash {
            Some(cash) => {
                if self.next_cashflow_id == i32::MAX {
                    return Err(LedgerError::Overflow);
                }
                let mut cash = cash;
                cash.id = self.next_cashflow_id;
                self.cashflow.push(cash);
                self.next_cashflow_id = self.next_cashflow_id + 1;
                assert(self.cashflow@.drop_last() =~= old(self).cashflow@);
            },
            None => {},
        }
        let id: i32 = self.next_transaction_id;
        transaction.id = id;
        self.transactions.push(transaction);
        self.next_transaction_id = id + 1;
        assert(self.transactions@.drop_last() =~= old(self).transactions@);
        Ok(id)
    }

    /// Deletes the first transaction with the id given. The cash movements stay as
    /// they are, also one that settled the transaction: to adjust them is left to
    /// the user, and the notice returned says so.
    pub fn delete_asset_transaction(&mut self, transaction_id: i32) -> (r: Result<
        String,
        LedgerError,
    >)
        ensures
            final(self).portfolio_id == old(self).portfolio_id,
            final(self).cashflow == old(self).cashflow,
            final(self).next_transaction_id == old(self).next_transaction_id,
            final(self).next_cashflow_id == old(self).next_cashflow_id,
            match r {
                Ok(notice) => {
                    &&& notice@ == deleted_notice()
                    &&& exists|at: int|
                        {
                            &&& 0 <= at < old(self).transactions@.len()
                            &&& (#[trigger] old(self).transactions@[at]).id == transaction_id
                            &&& forall|k: int|
                                0 <= k < at ==> (#[trigger] old(self).transactions@[k]).id
                                    != transaction_id
                            &&& final(self).transactions@ == old(self).transactions@.remove(at)
                        }
                },
                Err(e) => {
                    &&& e == LedgerError::NotFound
                    &&& *final(self) == *old(self)
                    &&& forall|k: int|
                        0 <= k < old(self).transactions@.len() ==> (#[trigger] old(
                            self,
                        ).transactions@[k]).id != transaction_id
                },
            },
    {
        let mut at: usize = 0;
        while at < self.transactions.len()
            invariant
                *self == *old(self),
                at <= self.transactions.len(),
                forall|k: int| 0 <= k < at ==> (#[trigger] self.transactions@[k]).id != transaction_id,
            decreases self.transactions.len() - at,
        {
            if self.transactions[at].id == transaction_id {
                self.transactions.remove(at);
                return delete_asset_transaction(1);
            }
            at = at + 1;
        }
        delete_asset_transaction(0)
    }
}

} // verus!
