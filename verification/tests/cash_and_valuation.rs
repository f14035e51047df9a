use portfolio_ledger::cash::compute_cash_balance;
use portfolio_ledger::error::Invalid;
use portfolio_ledger::error::LedgerError;
use portfolio_ledger::facade::get_cash_balance;
use portfolio_ledger::facade::get_cash_flow_history;
use portfolio_ledger::ledger::Position;
use portfolio_ledger::types::CashFlow;
use portfolio_ledger::types::Date;
use portfolio_ledger::types::FlowType;
use portfolio_ledger::types::TransactionType;
use portfolio_ledger::units::AMOUNT_EPSILON;
use portfolio_ledger::units::AMOUNT_SCALE;
use portfolio_ledger::units::PERCENT_SCALE;
use portfolio_ledger::units::PRICE_SCALE;
use portfolio_ledger::units::QUANTITY_EPSILON;
use portfolio_ledger::units::QUANTITY_SCALE;
use portfolio_ledger::units::amount_add;
use portfolio_ledger::units::amount_div_floor;
use portfolio_ledger::units::amount_mul;
use portfolio_ledger::units::amount_sub;
use portfolio_ledger::valuation::compute_unrealized_pl;
use portfolio_ledger::valuation::settle_trade_against_cash;
use portfolio_ledger::valuation::value_at;
use portfolio_ledger::valuation::value_of;

const MONEY: i128 = 1_000_000_000_000;
const SHARE: i128 = 1_000_000;
const UNIT: i128 = 1_000_000;
const PERCENT: i128 = 1_000_000;

fn flow(kind: FlowType, amount: i128) -> CashFlow {
    CashFlow {
        id: 0,
        portfolio_id: 1,
        flow_type: kind,
        amount,
        flow_date: Date { year: 2025, month: 1, day: 2 },
        description: None,
    }
}

#[test]
fn the_balance_is_the_sum_of_the_amounts() {
    let movements = vec![
        flow(FlowType::Deposit, 1000 * MONEY),
        flow(FlowType::BuyCost, -1000 * MONEY),
        flow(FlowType::SellProceeds, 2700 * MONEY),
    ];
    assert_eq!(compute_cash_balance(&movements), Ok(2700 * MONEY));
    assert_eq!(get_cash_balance(&movements), Ok(2700 * MONEY));
    assert_eq!(compute_cash_balance(&Vec::new()), Ok(0));
}

#[test]
fn the_balance_does_not_depend_on_the_order() {
    let a = vec![
        flow(FlowType::Deposit, 5),
        flow(FlowType::Withdrawal, -7),
        flow(FlowType::Dividend, 11),
        flow(FlowType::BuyCost, -13),
    ];
    let b = vec![
        flow(FlowType::BuyCost, -13),
        flow(FlowType::Dividend, 11),
        flow(FlowType::Deposit, 5),
        flow(FlowType::Withdrawal, -7),
    ];
    assert_eq!(compute_cash_balance(&a), Ok(-4));
    assert_eq!(compute_cash_balance(&a), compute_cash_balance(&b));
    let big = vec![flow(FlowType::Deposit, i128::MAX), flow(FlowType::Deposit, 1), flow(FlowType::Withdrawal, -1)];
    let reordered = vec![flow(FlowType::Deposit, 1), flow(FlowType::Withdrawal, -1), flow(FlowType::Deposit, i128::MAX)];
    assert_eq!(compute_cash_balance(&big), Err(LedgerError::Overflow));
    assert_eq!(compute_cash_balance(&reordered), Err(LedgerError::Overflow));
}

#[test]
fn the_largest_amounts_still_add_up() {
    let movements = vec![flow(FlowType::Deposit, i128::MAX), flow(FlowType::Withdrawal, -i128::MAX)];
    assert_eq!(compute_cash_balance(&movements), Ok(0));
    let movements = vec![flow(FlowType::Withdrawal, i128::MIN)];
    assert_eq!(compute_cash_balance(&movements), Err(LedgerError::Overflow));
}

#[test]
fn the_history_carries_the_running_balance() {
    let mut first = flow(FlowType::Deposit, 1000 * MONEY);
    first.description = Some("alta".to_string());
    let movements = vec![first, flow(FlowType::BuyCost, -400 * MONEY), flow(FlowType::Dividend, 25 * MONEY)];
    let entries = get_cash_flow_history(&movements).unwrap();
    assert_eq!(entries.len(), 3);
    assert_eq!(entries[0].balance, 1000 * MONEY);
    assert_eq!(entries[1].balance, 600 * MONEY);
    assert_eq!(entries[2].balance, 625 * MONEY);
    assert_eq!(entries[0].description.as_deref(), Some("alta"));
    assert_eq!(entries[1].description, None);
    assert_eq!(entries[1].amount, -400 * MONEY);
    assert_eq!(entries[1].flow_type, FlowType::BuyCost);
    assert_eq!(entries[2].date, Date { year: 2025, month: 1, day: 2 });
    let over = vec![flow(FlowType::Deposit, i128::MAX), flow(FlowType::Deposit, 1), flow(FlowType::Withdrawal, -1)];
    assert_eq!(get_cash_flow_history(&over).unwrap_err(), LedgerError::Overflow);
}

fn position(quantity: i128, average_cost: i128) -> Position {
    Position { ticker: "A".to_string(), quantity, cost_basis: quantity * average_cost, average_cost }
}

#[test]
fn unrealized_profit_follows_the_formula() {
    let p = position(20 * SHARE, 150 * UNIT);
    let u = compute_unrealized_pl(&p, 180 * UNIT as i64).unwrap();
    assert_eq!(u.pl, 600 * MONEY);
    assert_eq!(u.pl_percent, 20 * PERCENT);
    let u = compute_unrealized_pl(&p, 120 * UNIT as i64).unwrap();
    assert_eq!(u.pl, -600 * MONEY);
    assert_eq!(u.pl_percent, -20 * PERCENT);
    let u = value_at(3, 7, 9).unwrap();
    assert_eq!(u.pl, 6);
    assert_eq!(u.pl_percent, 0);
}

#[test]
fn the_percentage_is_rounded_down() {
    let u = value_at(3 * SHARE, 1 * UNIT, 2 * UNIT as i64).unwrap();
    assert_eq!(u.pl_percent, 100 * PERCENT);
    let u = value_at(3_000_000, 3, 4).unwrap();
    assert_eq!(u.pl, 3_000_000);
    assert_eq!(u.pl_percent, 33_333_333);
    let u = value_at(3_000_000, 3, 2).unwrap();
    assert_eq!(u.pl_percent, -33_333_334);
}

#[test]
fn nothing_invested_gives_no_percentage() {
    let p = position(20 * SHARE, 0);
    let u = compute_unrealized_pl(&p, 5 * UNIT as i64).unwrap();
    assert_eq!(u.pl, 100 * MONEY);
    assert_eq!(u.pl_percent, 0);
    let u = value_at(1000, 1000, 2000).unwrap();
    assert_eq!(u.pl_percent, 0);
    let u = value_at(1001, 1000, 2000).unwrap();
    assert_eq!(u.pl_percent, 100 * PERCENT);
    let short = position(-5 * SHARE, 10 * UNIT);
    let u = compute_unrealized_pl(&short, 12 * UNIT as i64).unwrap();
    assert_eq!(u.pl, -10 * MONEY);
    assert_eq!(u.pl_percent, 0);
}

#[test]
fn a_valuation_can_fail() {
    let p = position(1, 1);
    assert_eq!(
        compute_unrealized_pl(&p, -1).unwrap_err(),
        LedgerError::ValidationError(Invalid::Price)
    );
    let huge = Position { ticker: "A".to_string(), quantity: i128::MAX, cost_basis: 0, average_cost: 1 };
    assert_eq!(compute_unrealized_pl(&huge, 3).unwrap_err(), LedgerError::Overflow);
}

#[test]
fn a_trade_settles_as_a_signed_cash_movement() {
    let s = settle_trade_against_cash(TransactionType::Buy, 10_000_000, 100_000_000).unwrap();
    assert_eq!(s.flow_type, FlowType::BuyCost);
    assert_eq!(s.amount, -1000 * MONEY);
    let s = settle_trade_against_cash(TransactionType::Sell, 15_000_000, 180_000_000).unwrap();
    assert_eq!(s.flow_type, FlowType::SellProceeds);
    assert_eq!(s.amount, 2700 * MONEY);
    assert_eq!(
        settle_trade_against_cash(TransactionType::Buy, 0, 1).unwrap_err(),
        LedgerError::ValidationError(Invalid::Quantity)
    );
    assert_eq!(
        settle_trade_against_cash(TransactionType::Sell, 1, -1).unwrap_err(),
        LedgerError::ValidationError(Invalid::Price)
    );
    assert_eq!(value_of(i64::MAX, i64::MAX), (i64::MAX as i128) * (i64::MAX as i128));
    assert_eq!(value_of(7, 0), 0);
}

#[test]
fn checked_arithmetic_keeps_to_the_range() {
    assert_eq!(amount_add(i128::MAX, 1), None);
    assert_eq!(amount_add(-i128::MAX, -1), None);
    assert_eq!(amount_add(2, 3), Some(5));
    assert_eq!(amount_sub(-i128::MAX, 1), None);
    assert_eq!(amount_sub(2, 3), Some(-1));
    assert_eq!(amount_mul(i128::MAX, 2), None);
    assert_eq!(amount_mul(i128::MIN, 1), None);
    assert_eq!(amount_mul(-4, 3), Some(-12));
    assert_eq!(amount_div_floor(7, 2), 3);
    assert_eq!(amount_div_floor(-7, 2), -4);
    assert_eq!(amount_div_floor(7, -2), -4);
    assert_eq!(amount_div_floor(-7, -2), 3);
    assert_eq!(amount_div_floor(6, -2), -3);
    assert_eq!(amount_div_floor(-i128::MAX, -1), i128::MAX);
}

#[test]
fn the_units_multiply_into_each_other() {
    assert_eq!(QUANTITY_SCALE as i128 * PRICE_SCALE as i128, AMOUNT_SCALE);
    assert_eq!(value_of(QUANTITY_SCALE, PRICE_SCALE), AMOUNT_SCALE);
    assert_eq!(QUANTITY_EPSILON, 1);
    assert_eq!(AMOUNT_EPSILON * 1_000_000, AMOUNT_SCALE);
    assert_eq!(PERCENT_SCALE, 1_000_000);
}
