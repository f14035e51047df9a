use portfolio_ledger::error::Invalid;
use portfolio_ledger::error::LedgerError;
use portfolio_ledger::facade::calculate_portfolio_pl;
use portfolio_ledger::facade::find_price;
use portfolio_ledger::facade::get_portfolio_slots;
use portfolio_ledger::facade::get_portfolio_summary;
use portfolio_ledger::facade::MarketPrice;
use portfolio_ledger::facade::PositionSlot;
use portfolio_ledger::types::AssetTransaction;
use portfolio_ledger::types::CashFlow;
use portfolio_ledger::types::Date;
use portfolio_ledger::types::FlowType;
use portfolio_ledger::types::TransactionType;

const MONEY: i128 = 1_000_000_000_000;
const SHARE: i64 = 1_000_000;
const UNIT: i64 = 1_000_000;
const PERCENT: i128 = 1_000_000;

fn trade(ticker: &str, side: TransactionType, shares: i64, price: i64) -> AssetTransaction {
    AssetTransaction {
        id: 0,
        portfolio_id: 1,
        ticker: ticker.to_string(),
        transaction_type: side,
        quantity: shares * SHARE,
        price: price * UNIT,
        transaction_date: Date { year: 2025, month: 6, day: 24 },
    }
}

fn price(ticker: &str, price: i64) -> MarketPrice {
    MarketPrice { ticker: ticker.to_string(), price: price * UNIT }
}

fn deposit(amount: i128) -> CashFlow {
    CashFlow {
        id: 0,
        portfolio_id: 1,
        flow_type: FlowType::Deposit,
        amount,
        flow_date: Date { year: 2025, month: 1, day: 2 },
        description: None,
    }
}

fn history() -> Vec<AssetTransaction> {
    vec![
        trade("WALMEX", TransactionType::Buy, 10, 100),
        trade("GFNORTE", TransactionType::Buy, 4, 50),
        trade("WALMEX", TransactionType::Buy, 10, 200),
        trade("CEMEX", TransactionType::Buy, 1, 10),
        trade("CEMEX", TransactionType::Sell, 1, 12),
    ]
}

#[test]
fn slots_show_the_open_positions() {
    let slots = get_portfolio_slots(&history()).unwrap();
    assert_eq!(slots.len(), 2);
    assert_eq!(slots[0].ticker, "WALMEX");
    assert_eq!(slots[0].total_quantity, 20 * SHARE as i128);
    assert_eq!(slots[0].average_price, 150 * UNIT as i128);
    assert_eq!(slots[1].ticker, "GFNORTE");
    assert_eq!(slots[1].total_quantity, 4 * SHARE as i128);
    assert_eq!(slots[1].average_price, 50 * UNIT as i128);
    let bad = vec![trade("A", TransactionType::Buy, 0, 1)];
    assert_eq!(get_portfolio_slots(&bad).unwrap_err(), LedgerError::ValidationError(Invalid::Quantity));
}

#[test]
fn a_missing_price_leaves_the_profit_absent() {
    let slots = get_portfolio_slots(&history()).unwrap();
    let rows = calculate_portfolio_pl(&slots, &vec![price("GFNORTE", 60)]).unwrap();
    assert_eq!(rows.len(), 2);
    assert_eq!(rows[0].ticker, "WALMEX");
    assert_eq!(rows[0].total_quantity, 20 * SHARE as i128);
    assert_eq!(rows[0].average_price, 150 * UNIT as i128);
    assert_eq!(rows[0].current_price, None);
    assert_eq!(rows[0].unrealized_pl, None);
    assert_eq!(rows[0].unrealized_pl_percent, None);
    assert_eq!(rows[1].ticker, "GFNORTE");
    assert_eq!(rows[1].current_price, Some(60 * UNIT));
    assert_eq!(rows[1].unrealized_pl, Some(40 * MONEY));
    assert_eq!(rows[1].unrealized_pl_percent, Some(20 * PERCENT));
}

#[test]
fn the_table_values_each_slot_at_its_price() {
    let slots = vec![PositionSlot { ticker: "A".to_string(), total_quantity: 20 * SHARE as i128, average_price: 150 * UNIT as i128 }];
    let rows = calculate_portfolio_pl(&slots, &vec![price("A", 100)]).unwrap();
    assert_eq!(rows[0].unrealized_pl, Some(-1000 * MONEY));
    assert_eq!(rows[0].unrealized_pl_percent, Some(-33_333_334));
    let rows = calculate_portfolio_pl(&slots, &vec![price("A", 100), price("B", 1), price("A", 180)]).unwrap();
    assert_eq!(rows[0].current_price, Some(180 * UNIT));
    assert_eq!(rows[0].unrealized_pl, Some(600 * MONEY));
    let r = calculate_portfolio_pl(&slots, &vec![MarketPrice { ticker: "A".to_string(), price: -1 }]);
    assert_eq!(r.unwrap_err(), LedgerError::ValidationError(Invalid::Price));
    assert!(calculate_portfolio_pl(&Vec::new(), &Vec::new()).unwrap().is_empty());
}

#[test]
fn the_last_price_given_for_a_ticker_counts() {
    let prices = vec![price("A", 1), price("B", 2), price("A", 3)];
    assert_eq!(find_price(&prices, &"A".to_string()), Some(3 * UNIT));
    assert_eq!(find_price(&prices, &"B".to_string()), Some(2 * UNIT));
    assert_eq!(find_price(&prices, &"C".to_string()), None);
}

#[test]
fn the_summary_adds_up() {
    let movements = vec![deposit(5000 * MONEY), deposit(-1000 * MONEY)];
    let prices = vec![price("WALMEX", 180)];
    let summary = get_portfolio_summary(&history(), &movements, &prices).unwrap();
    assert_eq!(summary.cash_balance, 4000 * MONEY);
    assert_eq!(summary.total_realized_pl, 2 * MONEY);
    assert_eq!(summary.holdings.len(), 2);
    assert_eq!(summary.holdings[0].ticker, "WALMEX");
    assert_eq!(summary.holdings[0].quantity, 20 * SHARE as i128);
    assert_eq!(summary.holdings[0].average_cost, 150 * UNIT as i128);
    assert_eq!(summary.holdings[0].market_value, Some(3600 * MONEY));
    assert_eq!(summary.holdings[0].unrealized_pnl, Some(600 * MONEY));
    assert_eq!(summary.holdings[0].unrealized_pnl_percent, Some(20 * PERCENT));
    assert_eq!(summary.holdings[1].ticker, "GFNORTE");
    assert_eq!(summary.holdings[1].market_value, None);
    assert_eq!(summary.holdings[1].unrealized_pnl, None);
    assert_eq!(summary.total_value, 3600 * MONEY);
    assert_eq!(summary.total_unrealized_pl, 600 * MONEY);
    let both = vec![price("WALMEX", 180), price("GFNORTE", 40)];
    let summary = get_portfolio_summary(&history(), &movements, &both).unwrap();
    assert_eq!(summary.total_value, 3760 * MONEY);
    assert_eq!(summary.total_unrealized_pl, 560 * MONEY);
}

#[test]
fn the_summary_passes_failures_on() {
    let bad = vec![trade("A", TransactionType::Buy, 1, -1)];
    assert_eq!(
        get_portfolio_summary(&bad, &Vec::new(), &Vec::new()).unwrap_err(),
        LedgerError::ValidationError(Invalid::Price)
    );
    let over = vec![deposit(i128::MAX), deposit(1)];
    assert_eq!(get_portfolio_summary(&history(), &over, &Vec::new()).unwrap_err(), LedgerError::Overflow);
    let negative = vec![MarketPrice { ticker: "GFNORTE".to_string(), price: -5 }];
    assert_eq!(
        get_portfolio_summary(&history(), &Vec::new(), &negative).unwrap_err(),
        LedgerError::ValidationError(Invalid::Price)
    );
    let empty = get_portfolio_summary(&Vec::new(), &Vec::new(), &Vec::new()).unwrap();
    assert!(empty.holdings.is_empty());
    assert_eq!(empty.total_value, 0);
    assert_eq!(empty.cash_balance, 0);
}
