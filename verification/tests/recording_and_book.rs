use portfolio_ledger::book::Book;
use portfolio_ledger::error::Invalid;
use portfolio_ledger::error::LedgerError;
use portfolio_ledger::recording::add_asset_transaction;
use portfolio_ledger::recording::add_cash_movement;
use portfolio_ledger::recording::delete_asset_transaction;
use portfolio_ledger::recording::register_dividend_as_cash;
use portfolio_ledger::types::Date;
use portfolio_ledger::types::FlowType;
use portfolio_ledger::types::TransactionType;

const MONEY: i128 = 1_000_000_000_000;
const SHARE: i64 = 1_000_000;
const UNIT: i64 = 1_000_000;

fn day() -> Date {
    Date { year: 2025, month: 6, day: 24 }
}

#[test]
fn a_purchase_beyond_the_balance_is_refused() {
    let r = add_asset_transaction(1, "WALMEX".to_string(), "buy", 10 * SHARE, 100 * UNIT, day(), true, 500 * MONEY);
    assert_eq!(r.unwrap_err(), LedgerError::InsufficientFunds);
    let r = add_asset_transaction(1, "WALMEX".to_string(), "buy", 10 * SHARE, 100 * UNIT, day(), true, 1000 * MONEY);
    assert!(r.is_ok());
    let r = add_asset_transaction(1, "WALMEX".to_string(), "buy", 10 * SHARE, 100 * UNIT, day(), true, 1000 * MONEY - 1);
    assert_eq!(r.unwrap_err(), LedgerError::InsufficientFunds);
}

#[test]
fn a_purchase_not_settled_against_cash_ignores_the_balance() {
    let plan = add_asset_transaction(7, "WALMEX".to_string(), "buy", 10 * SHARE, 100 * UNIT, day(), false, 0).unwrap();
    assert!(plan.cash.is_none());
    assert_eq!(plan.transaction.id, 0);
    assert_eq!(plan.transaction.portfolio_id, 7);
    assert_eq!(plan.transaction.ticker, "WALMEX");
    assert_eq!(plan.transaction.transaction_type, TransactionType::Buy);
    assert_eq!(plan.transaction.quantity, 10 * SHARE);
    assert_eq!(plan.transaction.price, 100 * UNIT);
    assert_eq!(plan.transaction.transaction_date, day());
}

#[test]
fn a_settled_trade_plans_its_cash_movement() {
    let plan = add_asset_transaction(7, "WALMEX".to_string(), "buy", 10 * SHARE, 100 * UNIT, day(), true, 5000 * MONEY).unwrap();
    let cash = plan.cash.unwrap();
    assert_eq!(cash.flow_type, FlowType::BuyCost);
    assert_eq!(cash.amount, -1000 * MONEY);
    assert_eq!(cash.flow_date, day());
    assert_eq!(cash.portfolio_id, 7);
    assert_eq!(cash.description.as_deref(), Some("buy WALMEX"));
    let plan = add_asset_transaction(7, "WALMEX".to_string(), "sell", 10 * SHARE, 100 * UNIT, day(), true, 0).unwrap();
    let cash = plan.cash.unwrap();
    assert_eq!(cash.flow_type, FlowType::SellProceeds);
    assert_eq!(cash.amount, 1000 * MONEY);
    assert_eq!(cash.description.as_deref(), Some("sell WALMEX"));
    assert_eq!(plan.transaction.transaction_type, TransactionType::Sell);
}

#[test]
fn a_malformed_trade_is_refused_before_the_funds_are_looked_at() {
    let r = add_asset_transaction(1, "A".to_string(), "hold", 10, 10, day(), true, 0);
    assert_eq!(r.unwrap_err(), LedgerError::ValidationError(Invalid::TransactionType));
    let r = add_asset_transaction(1, "A".to_string(), "BUY", 10, 10, day(), true, 0);
    assert_eq!(r.unwrap_err(), LedgerError::ValidationError(Invalid::TransactionType));
    let r = add_asset_transaction(1, "A".to_string(), "buy", 0, 10, day(), true, 0);
    assert_eq!(r.unwrap_err(), LedgerError::ValidationError(Invalid::Quantity));
    let r = add_asset_transaction(1, "A".to_string(), "buy", 10, -10, day(), true, 0);
    assert_eq!(r.unwrap_err(), LedgerError::ValidationError(Invalid::Price));
}

#[test]
fn only_deposits_and_withdrawals_are_entered_by_hand() {
    let c = add_cash_movement(3, "deposit", 1000 * MONEY, day(), "nómina".to_string()).unwrap();
    assert_eq!(c.flow_type, FlowType::Deposit);
    assert_eq!(c.amount, 1000 * MONEY);
    assert_eq!(c.portfolio_id, 3);
    assert_eq!(c.id, 0);
    assert_eq!(c.flow_date, day());
    assert_eq!(c.description.as_deref(), Some("nómina"));
    let c = add_cash_movement(3, "withdrawal", -5, day(), String::new()).unwrap();
    assert_eq!(c.flow_type, FlowType::Withdrawal);
    assert_eq!(c.amount, -5);
    for kind in ["dividend", "buy_cost", "sell_proceeds", "", "Deposit"] {
        let r = add_cash_movement(3, kind, 1, day(), String::new());
        assert_eq!(r.unwrap_err(), LedgerError::ValidationError(Invalid::FlowType));
    }
}

#[test]
fn a_dividend_is_booked_as_cash() {
    let c = register_dividend_as_cash(4, "WALMEX", 25 * MONEY, day());
    assert_eq!(c.flow_type, FlowType::Dividend);
    assert_eq!(c.amount, 25 * MONEY);
    assert_eq!(c.portfolio_id, 4);
    assert_eq!(c.flow_date, day());
    assert_eq!(c.description.as_deref(), Some("Dividendo de WALMEX"));
}

#[test]
fn a_deletion_is_found_or_not() {
    assert_eq!(
        delete_asset_transaction(1).unwrap(),
        "Transacción eliminada correctamente. Recuerda ajustar el cashflow manualmente si es necesario."
    );
    assert_eq!(delete_asset_transaction(0).unwrap_err(), LedgerError::NotFound);
    assert_eq!(delete_asset_transaction(2).unwrap_err(), LedgerError::NotFound);
}

#[test]
fn a_refused_purchase_leaves_the_book_unchanged() {
    let mut book = Book::new(1);
    book.add_cash_movement("deposit", 500 * MONEY, day(), "alta".to_string()).unwrap();
    let r = book.add_asset_transaction("WALMEX".to_string(), "buy", 10 * SHARE, 100 * UNIT, day(), true);
    assert_eq!(r.unwrap_err(), LedgerError::InsufficientFunds);
    assert!(book.transactions.is_empty());
    assert_eq!(book.cashflow.len(), 1);
    assert_eq!(book.cash_balance(), Ok(500 * MONEY));
    assert_eq!(book.next_transaction_id, 1);
    assert_eq!(book.next_cashflow_id, 2);
}

#[test]
fn a_book_records_trades_and_their_settlement() {
    let mut book = Book::new(9);
    assert_eq!(book.add_cash_movement("deposit", 1000 * MONEY, day(), "alta".to_string()), Ok(1));
    let id = book.add_asset_transaction("WALMEX".to_string(), "buy", 10 * SHARE, 100 * UNIT, day(), true).unwrap();
    assert_eq!(id, 1);
    assert_eq!(book.transactions.len(), 1);
    assert_eq!(book.transactions[0].id, 1);
    assert_eq!(book.transactions[0].portfolio_id, 9);
    assert_eq!(book.cashflow.len(), 2);
    assert_eq!(book.cashflow[1].id, 2);
    assert_eq!(book.cashflow[1].amount, -1000 * MONEY);
    assert_eq!(book.cash_balance(), Ok(0));
    let id = book.add_asset_transaction("WALMEX".to_string(), "sell", 15 * SHARE, 180 * UNIT, day(), true).unwrap();
    assert_eq!(id, 2);
    assert_eq!(book.cash_balance(), Ok(2700 * MONEY));
    let id = book.add_asset_transaction("GFNORTE".to_string(), "buy", SHARE, UNIT, day(), false).unwrap();
    assert_eq!(id, 3);
    assert_eq!(book.cashflow.len(), 3);
    assert_eq!(book.register_dividend_as_cash("WALMEX", 5 * MONEY, day()), Ok(4));
    assert_eq!(book.cashflow[3].flow_type, FlowType::Dividend);
    let positions = book.positions().unwrap();
    assert_eq!(positions.positions.len(), 2);
    assert_eq!(positions.positions[0].quantity, -5 * SHARE as i128);
}

#[test]
fn deleting_a_transaction_leaves_the_cash_as_it_was() {
    let mut book = Book::new(9);
    book.add_cash_movement("deposit", 1000 * MONEY, day(), "alta".to_string()).unwrap();
    book.add_asset_transaction("A".to_string(), "buy", SHARE, 100 * UNIT, day(), true).unwrap();
    book.add_asset_transaction("B".to_string(), "buy", SHARE, 100 * UNIT, day(), true).unwrap();
    assert_eq!(book.delete_asset_transaction(5).unwrap_err(), LedgerError::NotFound);
    assert_eq!(book.transactions.len(), 2);
    let notice = book.delete_asset_transaction(1).unwrap();
    assert!(notice.starts_with("Transacción eliminada correctamente."));
    assert_eq!(book.transactions.len(), 1);
    assert_eq!(book.transactions[0].ticker, "B");
    assert_eq!(book.cashflow.len(), 3);
    assert_eq!(book.cash_balance(), Ok(800 * MONEY));
    assert_eq!(book.delete_asset_transaction(1).unwrap_err(), LedgerError::NotFound);
}

#[test]
fn a_book_refuses_malformed_input_and_stays_as_it_was() {
    let mut book = Book::new(9);
    assert_eq!(
        book.add_cash_movement("dividend", 1, day(), String::new()).unwrap_err(),
        LedgerError::ValidationError(Invalid::FlowType)
    );
    assert_eq!(
        book.add_asset_transaction("A".to_string(), "swap", 1, 1, day(), false).unwrap_err(),
        LedgerError::ValidationError(Invalid::TransactionType)
    );
    assert_eq!(
        book.add_asset_transaction("A".to_string(), "sell", -1, 1, day(), true).unwrap_err(),
        LedgerError::ValidationError(Invalid::Quantity)
    );
    assert!(book.transactions.is_empty());
    assert!(book.cashflow.is_empty());
    book.next_transaction_id = i32::MAX;
    assert_eq!(
        book.add_asset_transaction("A".to_string(), "sell", 1, 1, day(), true).unwrap_err(),
        LedgerError::Overflow
    );
    assert!(book.cashflow.is_empty());
    book.next_cashflow_id = i32::MAX;
    assert_eq!(book.register_dividend_as_cash("A", 1, day()).unwrap_err(), LedgerError::Overflow);
    assert_eq!(book.add_cash_movement("deposit", 1, day(), String::new()).unwrap_err(), LedgerError::Overflow);
}
