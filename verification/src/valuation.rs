//! Valuing a position at a market price, and turning a trade into the cash movement
//! that settles it.

use vstd::prelude::*;
use crate::error::Invalid;
use crate::error::LedgerError;
use crate::ledger::Position;
use crate::types::FlowType;
use crate::types::TransactionType;
use crate::units::AMOUNT_EPSILON;
use crate::units::PERCENT_SCALE;
use crate::units::amount_div_floor;
use crate::units::amount_mul;
use crate::units::amount_sub;
use crate::units::floor_div;
use crate::units::in_range;

verus! {

/// The paper profit on `quantity` bought at `average_cost` and now worth `price`
/// each.
pub open spec fn unrealized_pl(quantity: int, average_cost: int, price: int) -> int {
    (price - average_cost) * quantity
}

/// What `quantity` at `average_cost` each has cost.
pub open spec fn invested(quantity: int, average_cost: int) -> int {
    average_cost * quantity
}

/// The paper profit as a share of what was invested, in millionths of a percent and
/// rounded down; 0 where no more than the tolerance was invested.
pub open spec fn unrealized_pl_percent(quantity: int, average_cost: int, price: int) -> int {
    if invested(quantity, average_cost) > AMOUNT_EPSILON {
        floor_div(
            unrealized_pl(quantity, average_cost, price) * (100 * PERCENT_SCALE),
            invested(quantity, average_cost),
        )
    } else {
        0
    }
}

/// Whether the ledger can hold every step of a valuation.
pub open spec fn valuation_fits(quantity: int, average_cost: int, price: int) -> bool {
    &&& in_range(price - average_cost)
    &&& in_range(unrealized_pl(quantity, average_cost, price))
    &&& in_range(invested(quantity, average_cost))
    &&& invested(quantity, average_cost) > AMOUNT_EPSILON ==> in_range(
        unrealized_pl(quantity, average_cost, price) * (100 * PERCENT_SCALE),
    )
}

/// The paper profit or loss on a position, as an amount and in millionths of a
/// percent.
#[derive(Clone, Copy, Debug, PartialEq, Eq, Structural)]
pub struct UnrealizedPl {
    pub pl: i128,
    pub pl_percent: i128,
}

/// What becomes of a valuation: a negative price is rejected, a step that the ledger
/// cannot hold fails, and otherwise the profit comes out as an amount and as a
/// percentage.
pub open spec fn valuation_outcome(quantity: int, average_cost: int, price: int) -> Result<
    UnrealizedPl,
    LedgerError,
> {
    if price < 0 {
        Err(LedgerError::ValidationError(Invalid::Price))
    } else if valuation_fits(quantity, average_cost, price) {
        Ok(
            UnrealizedPl {
                pl: unrealized_pl(quantity, average_cost, price) as i128,
                pl_percent: unrealized_pl_percent(quantity, average_cost, price) as i128,
            },
        )
    } else {
        Err(LedgerError::Overflow)
    }
}

/// Values a quantity held at an average cost at the current price of one share.
pub fn value_at(quantity: i128, average_cost: i128, current_price: i64) -> (r: Result<
    UnrealizedPl,
    LedgerError,
>)
    ensures
        r == valuation_outcome(quantity as int, average_cost as int, current_price as int),
        r matches Ok(u) ==> u.pl == unrealized_pl(
            quantity as int,
            average_cost as int,
            current_price as int,
        ) && u.pl_percent == unrealized_pl_percent(
            quantity as int,
            average_cost as int,
            current_price as int,
        ),
{
    if current_price < 0 {
        return Err(LedgerError::ValidationError(Invalid::Price));
    }
    let margin: i128 = match amount_sub(current_price as i128, average_cost) {
        Some(margin) => margin,
        None => {
            return Err(LedgerError::Overflow);
        },
    };
    let pl: i128 = match amount_mul(margin, quantity) {
        Some(pl) => pl,
        None => {
            return Err(LedgerError::Overflow);
        },
    };
    let cost: i128 = match amount_mul(average_cost, quantity) {
        Some(cost) => cost,
        None => {
            return Err(LedgerError::Overflow);
        },
    };
    if cost > AMOUNT_EPSILON {
        let scaled: i128 = match amount_mul(pl, 100 * PERCENT_SCALE) {
            Some(scaled) => scaled,
            None => {
                return Err(LedgerError::Overflow);
            },
        };
        Ok(UnrealizedPl { pl, pl_percent: amount_div_floor(scaled, cost) })
    } else {
        Ok(UnrealizedPl { pl, pl_percent: 0 })
    }
}

/// Values a position at the current price of one share.
///
/// The profit is the current price less the average cost, times the quantity. The
/// percentage is that profit over the amount invested, and 0 where the amount
/// invested does not exceed the tolerance: that case is no failure. A negative
/// price is rejected.
pub fn compute_unrealized_pl(position: &Position, current_price: i64) -> (r: Result<
    UnrealizedPl,
    LedgerError,
>)
    ensures
        r == valuation_outcome(
            position.quantity as int,
            position.average_cost as int,
            current_price as int,
        ),
        r matches Ok(u) ==> u.pl == unrealized_pl(
            position.quantity as int,
            position.average_cost as int,
            current_price as int,
        ) && u.pl_percent == unrealized_pl_percent(
            position.quantity as int,
            position.average_cost as int,
            current_price as int,
        ),
{
    value_at(position.quantity, position.average_cost, current_price)
}

/// The cash movement that settles a trade: its kind and its signed amount.
#[derive(Clone, Copy, Debug, PartialEq, Eq, Structural)]
pub struct Settlement {
    pub flow_type: FlowType,
    pub amount: i128,
}

/// The value of a trade: its quantity times its price.
pub open spec fn trade_value(quantity: int, price: int) -> int {
    quantity * price
}

/// The cash movement that settles a trade of the given side, quantity and price.
pub open spec fn settlement_of(side: TransactionType, quantity: int, price: int) -> Settlement {
    match side {
        TransactionType::Buy => Settlement {
            flow_type: FlowType::BuyCost,
            amount: (-trade_value(quantity, price)) as i128,
        },
        TransactionType::Sell => Settlement {
            flow_type: FlowType::SellProceeds,
            amount: trade_value(quantity, price) as i128,
        },
    }
}

/// Why a quantity and a price do not make a trade, if they do not.
pub open spec fn terms_failure(quantity: int, price: int) -> Option<Invalid> {
    if quantity <= 0 {
        Some(Invalid::Quantity)
    } else if price < 0 {
        Some(Invalid::Price)
    } else {
        None
    }
}

/// The value of `quantity` at `price` each. The product of two 64-bit numbers is
/// always an amount.
pub fn value_of(quantity: i64, price: i64) -> (value: i128)
    ensures
        value == trade_value(quantity as int, price as int),
        in_range(value as int),
{
    let q: i128 = quantity as i128;
    let p: i128 = price as i128;
    assert(-0x4000_0000_0000_0000_0000_0000_0000_0000 <= q * p
        <= 0x4000_0000_0000_0000_0000_0000_0000_0000) by (nonlinear_arith)
        requires
            -0x8000_0000_0000_0000 <= q <= 0x7fff_ffff_ffff_ffff,
            -0x8000_0000_0000_0000 <= p <= 0x7fff_ffff_ffff_ffff,
    ;
    q * p
}

/// Turns a trade into the cash movement that settles it: a purchase costs its value,
/// recorded as a negative `buy_cost`; a sale brings its value in as `sell_proceeds`.
/// A quantity that is not positive and a negative price are rejected.
pub fn settle_trade_against_cash(transaction_type: TransactionType, quantity: i64, price: i64) -> (r:
    Result<Settlement, LedgerError>)
    ensures
        r == (match terms_failure(quantity as int, price as int) {
            Some(reason) => Err::<Settlement, LedgerError>(LedgerError::ValidationError(reason)),
            None => Ok(settlement_of(transaction_type, quantity as int, price as int)),
        }),
{
    if quantity <= 0 {
        return Err(LedgerError::ValidationError(Invalid::Quantity));
    }
    if price < 0 {
        return Err(LedgerError::ValidationError(Invalid::Price));
    }
    let value: i128 = value_of(quantity, price);
    match transaction_type {
        TransactionType::Buy => Ok(Settlement { flow_type: FlowType::BuyCost, amount: -value }),
        TransactionType::Sell => Ok(Settlement { flow_type: FlowType::SellProceeds, amount: value }),
    }
}

} // verus!
