use portfolio_ledger::error::Invalid;
use portfolio_ledger::error::LedgerError;
use portfolio_ledger::ledger::compute_positions;
use portfolio_ledger::types::AssetTransaction;
use portfolio_ledger::types::Date;
use portfolio_ledger::types::TransactionType;

const SHARE: i64 = 1_000_000;
const UNIT: i64 = 1_000_000;
const MONEY: i128 = 1_000_000_000_000;

fn trade(ticker: &str, side: TransactionType, shares: i64, price: i64) -> AssetTransaction {
    AssetTransaction {
        id: 0,
        portfolio_id: 1,
        ticker: ticker.to_string(),
        transaction_type: side,
        quantity: shares * SHARE,
        price: price * UNIT,
        transaction_date: Date { year: 2025, month: 6, day: 24 },
    }
}

fn raw(ticker: &str, side: TransactionType, quantity: i64, price: i64) -> AssetTransaction {
    AssetTransaction {
        id: 0,
        portfolio_id: 1,
        ticker: ticker.to_string(),
        transaction_type: side,
        quantity,
        price,
        transaction_date: Date { year: 2025, month: 6, day: 24 },
    }
}

#[test]
fn two_purchases_average_their_cost() {
    let history = vec![
        trade("WALMEX", TransactionType::Buy, 10, 100),
        trade("WALMEX", TransactionType::Buy, 10, 200),
    ];
    let result = compute_positions(&history).unwrap();
    assert_eq!(result.positions.len(), 1);
    assert_eq!(result.positions[0].ticker, "WALMEX");
    assert_eq!(result.positions[0].quantity, 20 * SHARE as i128);
    assert_eq!(result.positions[0].cost_basis, 3000 * MONEY);
    assert_eq!(result.positions[0].average_cost, 150 * UNIT as i128);
    assert_eq!(result.realized_pl, 0);
}

#[test]
fn partial_sale_realizes_against_average_cost() {
    let history = vec![
        trade("WALMEX", TransactionType::Buy, 10, 100),
        trade("WALMEX", TransactionType::Buy, 10, 200),
        trade("WALMEX", TransactionType::Sell, 15, 180),
    ];
    let result = compute_positions(&history).unwrap();
    assert_eq!(result.realized_pl, 450 * MONEY);
    assert_eq!(result.positions.len(), 1);
    assert_eq!(result.positions[0].quantity, 5 * SHARE as i128);
    assert_eq!(result.positions[0].average_cost, 150 * UNIT as i128);
    assert_eq!(result.positions[0].cost_basis, 750 * MONEY);
}

#[test]
fn full_liquidation_removes_the_position() {
    let history = vec![
        trade("WALMEX", TransactionType::Buy, 10, 100),
        trade("WALMEX", TransactionType::Buy, 10, 200),
        trade("WALMEX", TransactionType::Sell, 15, 180),
        trade("WALMEX", TransactionType::Sell, 5, 140),
    ];
    let result = compute_positions(&history).unwrap();
    assert_eq!(result.realized_pl, 400 * MONEY);
    assert!(result.positions.is_empty());
}

#[test]
fn malformed_trades_are_rejected() {
    let mut history = vec![trade("A", TransactionType::Buy, 1, 1)];
    history.push(trade("A", TransactionType::Buy, 0, 1));
    assert_eq!(
        compute_positions(&history).unwrap_err(),
        LedgerError::ValidationError(Invalid::Quantity)
    );
    let history = vec![trade("A", TransactionType::Buy, 1, -1)];
    assert_eq!(
        compute_positions(&history).unwrap_err(),
        LedgerError::ValidationError(Invalid::Price)
    );
    let history = vec![trade("A", TransactionType::Sell, -3, 1)];
    assert_eq!(
        compute_positions(&history).unwrap_err(),
        LedgerError::ValidationError(Invalid::Quantity)
    );
}

#[test]
fn the_first_malformed_trade_decides_the_reason() {
    let history = vec![
        trade("A", TransactionType::Buy, 1, -1),
        trade("A", TransactionType::Buy, 0, 1),
    ];
    assert_eq!(
        compute_positions(&history).unwrap_err(),
        LedgerError::ValidationError(Invalid::Price)
    );
}

#[test]
fn an_empty_history_has_no_positions() {
    let result = compute_positions(&Vec::new()).unwrap();
    assert!(result.positions.is_empty());
    assert_eq!(result.realized_pl, 0);
}

#[test]
fn positions_come_in_the_order_of_first_appearance() {
    let history = vec![
        trade("B", TransactionType::Buy, 1, 10),
        trade("A", TransactionType::Buy, 2, 20),
        trade("B", TransactionType::Buy, 3, 30),
        trade("C", TransactionType::Buy, 4, 40),
        trade("A", TransactionType::Sell, 2, 25),
    ];
    let result = compute_positions(&history).unwrap();
    let tickers: Vec<&str> = result.positions.iter().map(|p| p.ticker.as_str()).collect();
    assert_eq!(tickers, vec!["B", "C"]);
    assert_eq!(result.positions[0].quantity, 4 * SHARE as i128);
    assert_eq!(result.positions[0].cost_basis, 100 * MONEY);
    assert_eq!(result.positions[0].average_cost, 25 * UNIT as i128);
    assert_eq!(result.realized_pl, 10 * MONEY);
}

#[test]
fn purchases_only_give_the_weighted_average() {
    let history = vec![
        raw("A", TransactionType::Buy, 3, 10),
        raw("A", TransactionType::Buy, 4, 20),
        raw("A", TransactionType::Buy, 5, 31),
    ];
    let result = compute_positions(&history).unwrap();
    assert_eq!(result.positions[0].quantity, 12);
    assert_eq!(result.positions[0].cost_basis, 3 * 10 + 4 * 20 + 5 * 31);
    assert_eq!(result.positions[0].average_cost, (3 * 10 + 4 * 20 + 5 * 31) / 12);
}

#[test]
fn a_sale_takes_out_cost_rounded_down() {
    let history = vec![
        raw("A", TransactionType::Buy, 3, 10),
        raw("A", TransactionType::Sell, 2, 7),
    ];
    let result = compute_positions(&history).unwrap();
    assert!(result.positions.is_empty());
    assert_eq!(result.realized_pl, 2 * 7 - 20);
    let history = vec![
        raw("A", TransactionType::Buy, 7, 10),
        raw("A", TransactionType::Buy, 3, 11),
        raw("A", TransactionType::Sell, 3, 12),
    ];
    let result = compute_positions(&history).unwrap();
    assert_eq!(result.positions[0].quantity, 7);
    assert_eq!(result.positions[0].cost_basis, 103 - 30);
    assert_eq!(result.realized_pl, 36 - 30);
}

#[test]
fn a_holding_within_the_tolerance_is_closed() {
    let history = vec![raw("A", TransactionType::Buy, 1, 100 * UNIT)];
    let result = compute_positions(&history).unwrap();
    assert!(result.positions.is_empty());
    let history = vec![raw("A", TransactionType::Buy, 2, 100 * UNIT)];
    let result = compute_positions(&history).unwrap();
    assert_eq!(result.positions.len(), 1);
}

#[test]
fn a_sale_against_a_closed_holding_takes_no_cost_out() {
    let history = vec![
        raw("A", TransactionType::Buy, 1, 100 * UNIT),
        raw("A", TransactionType::Sell, 1, 100 * UNIT),
    ];
    let result = compute_positions(&history).unwrap();
    assert!(result.positions.is_empty());
    assert_eq!(result.realized_pl, 100 * UNIT as i128);
}

#[test]
fn a_sale_of_more_than_is_held_is_accepted() {
    let history = vec![trade("A", TransactionType::Sell, 5, 10)];
    let result = compute_positions(&history).unwrap();
    assert_eq!(result.positions.len(), 1);
    assert_eq!(result.positions[0].quantity, -5 * SHARE as i128);
    assert_eq!(result.positions[0].cost_basis, 0);
    assert_eq!(result.positions[0].average_cost, 0);
    assert_eq!(result.realized_pl, 50 * MONEY);
    let history = vec![
        trade("A", TransactionType::Buy, 2, 10),
        trade("A", TransactionType::Sell, 5, 10),
    ];
    let result = compute_positions(&history).unwrap();
    assert_eq!(result.positions[0].quantity, -3 * SHARE as i128);
    assert_eq!(result.positions[0].cost_basis, -30 * MONEY);
    assert_eq!(result.positions[0].average_cost, 10 * UNIT as i128);
    assert_eq!(result.realized_pl, 0);
}

#[test]
fn a_step_that_does_not_fit_fails() {
    let mut history = Vec::new();
    for _ in 0..3 {
        history.push(raw("A", TransactionType::Buy, i64::MAX, i64::MAX));
    }
    assert_eq!(compute_positions(&history).unwrap_err(), LedgerError::Overflow);
    let history = vec![
        raw("A", TransactionType::Buy, i64::MAX, i64::MAX),
        raw("A", TransactionType::Sell, 3, 1),
    ];
    assert_eq!(compute_positions(&history).unwrap_err(), LedgerError::Overflow);
}

#[test]
fn computing_twice_gives_the_same_result() {
    let history = vec![
        trade("B", TransactionType::Buy, 7, 13),
        trade("A", TransactionType::Buy, 2, 20),
        trade("B", TransactionType::Sell, 3, 30),
    ];
    let first = compute_positions(&history).unwrap();
    let second = compute_positions(&history).unwrap();
    assert_eq!(first.realized_pl, second.realized_pl);
    assert_eq!(first.positions.len(), second.positions.len());
    for (a, b) in first.positions.iter().zip(second.positions.iter()) {
        assert_eq!(a.ticker, b.ticker);
        assert_eq!(a.quantity, b.quantity);
        assert_eq!(a.cost_basis, b.cost_basis);
        assert_eq!(a.average_cost, b.average_cost);
    }
}

#[test]
fn later_trades_do_not_revise_what_a_sale_realized() {
    let mut history = vec![
        trade("A", TransactionType::Buy, 10, 100),
        trade("A", TransactionType::Sell, 4, 130),
    ];
    let at_sale = compute_positions(&history).unwrap().realized_pl;
    assert_eq!(at_sale, 120 * MONEY);
    history.push(trade("A", TransactionType::Buy, 10, 500));
    history.push(trade("B", TransactionType::Buy, 1, 1));
    assert_eq!(compute_positions(&history).unwrap().realized_pl, at_sale);
}
