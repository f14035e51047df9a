//! The ledger engine: a history of trades, taken in order, gives for each security
//! the quantity held and what it cost, and for the portfolio the profit and loss
//! that sales have realized.
//!
//! The engine keeps nothing between calls. What it returns is a function of the
//! history that it is handed.

use vstd::prelude::*;
use crate::error::Invalid;
use crate::error::LedgerError;
use crate::types::AssetTransaction;
use crate::types::Trade;
use crate::types::TransactionType;
use crate::types::trades;
use crate::units::QUANTITY_EPSILON;
use crate::units::amount_add;
use crate::units::amount_div_floor;
use crate::units::amount_mul;
use crate::units::amount_sub;
use crate::units::floor_div;
use crate::units::in_range;
use crate::units::lemma_floor_div_in_range;
use crate::units::magnitude;

verus! {

/// The lot that a portfolio holds of one security: the quantity, and what that quantity
/// cost. Both move together.
pub struct Lot {
    pub quantity: int,
    pub cost_basis: int,
}

/// What is held of a security that was never traded: nothing, at no cost.
pub open spec fn no_holding() -> Lot {
    Lot { quantity: 0, cost_basis: 0 }
}

/// Why a trade is malformed, if it is: its quantity must be positive and its price
/// must not be negative.
pub open spec fn trade_failure(t: Trade) -> Option<Invalid> {
    if t.quantity <= 0 {
        Some(Invalid::Quantity)
    } else if t.price < 0 {
        Some(Invalid::Price)
    } else {
        None
    }
}

/// What is wrong with the first malformed trade of a history, if there is one.
pub open spec fn first_failure(history: Seq<Trade>) -> Option<Invalid>
    decreases history.len(),
{
    if history.len() == 0 {
        None
    } else {
        match first_failure(history.drop_last()) {
            Some(reason) => Some(reason),
            None => trade_failure(history.last()),
        }
    }
}

/// Whether a holding is open: further than the tolerance from zero.
pub open spec fn is_open(h: Lot) -> bool {
    magnitude(h.quantity) > QUANTITY_EPSILON
}

/// The average cost of one share of a holding; 0 where nothing is held.
pub open spec fn average_cost(h: Lot) -> int {
    if h.quantity == 0 {
        0
    } else {
        floor_div(h.cost_basis, h.quantity)
    }
}

/// The part of the cost basis that a sale of `quantity` takes out: the average cost
/// before the sale times the quantity sold, rounded down. A sale against a holding
/// that is not open takes out nothing.
pub open spec fn sold_cost(h: Lot, quantity: int) -> int {
    if is_open(h) {
        floor_div(h.cost_basis * quantity, h.quantity)
    } else {
        0
    }
}

/// The holding after one trade in its security.
pub open spec fn apply_trade(h: Lot, t: Trade) -> Lot {
    match t.side {
        TransactionType::Buy => Lot {
            quantity: h.quantity + t.quantity,
            cost_basis: h.cost_basis + t.quantity * t.price,
        },
        TransactionType::Sell => Lot {
            quantity: h.quantity - t.quantity,
            cost_basis: h.cost_basis - sold_cost(h, t.quantity),
        },
    }
}

/// The profit that one trade realizes: for a sale its proceeds less the cost taken
/// out, for a purchase nothing.
pub open spec fn trade_gain(h: Lot, t: Trade) -> int {
    match t.side {
        TransactionType::Buy => 0,
        TransactionType::Sell => t.quantity * t.price - sold_cost(h, t.quantity),
    }
}

/// The holding of `ticker` after the trades of `history`, taken from first to last.
pub open spec fn holding(history: Seq<Trade>, ticker: Seq<char>) -> Lot
    decreases history.len(),
{
    if history.len() == 0 {
        no_holding()
    } else {
        let before = holding(history.drop_last(), ticker);
        if history.last().ticker == ticker {
            apply_trade(before, history.last())
        } else {
            before
        }
    }
}

/// The profit and loss that the sales of `history` have realized, each sale against
/// the holding as it stood when the sale was made.
pub open spec fn realized_pl(history: Seq<Trade>) -> int
    decreases history.len(),
{
    if history.len() == 0 {
        0
    } else {
        realized_pl(history.drop_last()) + trade_gain(
            holding(history.drop_last(), history.last().ticker),
            history.last(),
        )
    }
}

/// Whether the ledger can hold what one trade leads to: the product behind the cost
/// taken out, the new cost basis, the gain and the new realized total are amounts.
pub open spec fn trade_fits(h: Lot, realized: int, t: Trade) -> bool {
    &&& t.side == TransactionType::Sell && is_open(h) ==> in_range(h.cost_basis * t.quantity)
    &&& in_range(apply_trade(h, t).cost_basis)
    &&& in_range(trade_gain(h, t))
    &&& in_range(realized + trade_gain(h, t))
}

/// Whether the ledger can hold every step of a history.
pub open spec fn history_fits(history: Seq<Trade>) -> bool
    decreases history.len(),
{
    history.len() == 0 || (history_fits(history.drop_last()) && trade_fits(
        holding(history.drop_last(), history.last().ticker),
        realized_pl(history.drop_last()),
        history.last(),
    ))
}

/// The securities that a history trades, each once, in the order in which they first
/// appear.
pub open spec fn tickers_seen(history: Seq<Trade>) -> Seq<Seq<char>>
    decreases history.len(),
{
    if history.len() == 0 {
        Seq::empty()
    } else {
        let before = tickers_seen(history.drop_last());
        if before.contains(history.last().ticker) {
            before
        } else {
            before.push(history.last().ticker)
        }
    }
}

/// A position as the ledger reasons about it.
pub struct PositionModel {
    pub ticker: Seq<char>,
    pub quantity: int,
    pub cost_basis: int,
    pub average_cost: int,
}

/// The position in `ticker` after the trades of `history`.
pub open spec fn position_of(history: Seq<Trade>, ticker: Seq<char>) -> PositionModel {
    PositionModel {
        ticker,
        quantity: holding(history, ticker).quantity,
        cost_basis: holding(history, ticker).cost_basis,
        average_cost: average_cost(holding(history, ticker)),
    }
}

/// The positions in those of `tickers` whose holding is open after `history`, in the
/// order of `tickers`.
pub open spec fn open_among(history: Seq<Trade>, tickers: Seq<Seq<char>>) -> Seq<PositionModel>
    decreases tickers.len(),
{
    if tickers.len() == 0 {
        Seq::empty()
    } else {
        let earlier = open_among(history, tickers.drop_last());
        if is_open(holding(history, tickers.last())) {
            earlier.push(position_of(history, tickers.last()))
        } else {
            earlier
        }
    }
}

/// The open positions after `history`, in the order in which their securities first
/// appear in it.
pub open spec fn open_positions(history: Seq<Trade>) -> Seq<PositionModel> {
    open_among(history, tickers_seen(history))
}

/// The net quantity held of one security, with the cost it was acquired at.
#[derive(Clone, Debug)]
pub struct Position {
    pub ticker: String,
    /// Millionths of a share; negative where more was sold than bought.
    pub quantity: i128,
    pub cost_basis: i128,
    /// Millionths of a currency unit, for one share.
    pub average_cost: i128,
}

impl View for Position {
    type V = PositionModel;

    open spec fn view(&self) -> PositionModel {
        PositionModel {
            ticker: self.ticker@,
            quantity: self.quantity as int,
            cost_basis: self.cost_basis as int,
            average_cost: self.average_cost as int,
        }
    }
}

/// The views of a list of positions, in the order of the list.
pub open spec fn position_models(positions: Seq<Position>) -> Seq<PositionModel> {
    positions.map_values(|p: Position| p@)
}

/// What a history amounts to: the open positions and the realized profit and loss.
#[derive(Clone, Debug)]
pub struct Positions {
    pub positions: Vec<Position>,
    pub realized_pl: i128,
}

/// What a history amounts to, as the ledger reasons about it.
pub struct PositionsModel {
    pub positions: Seq<PositionModel>,
    pub realized_pl: int,
}

impl View for Positions {
    type V = PositionsModel;

    open spec fn view(&self) -> PositionsModel {
        PositionsModel {
            positions: position_models(self.positions@),
            realized_pl: self.realized_pl as int,
        }
    }
}

/// What becomes of a history: it is rejected for its first malformed trade, or for a
/// step that the ledger cannot hold, or it gives its open positions and its realized
/// profit and loss.
pub open spec fn positions_outcome(history: Seq<Trade>) -> Result<PositionsModel, LedgerError> {
    match first_failure(history) {
        Some(reason) => Err(LedgerError::ValidationError(reason)),
        None => if history_fits(history) {
            Ok(
                PositionsModel {
                    positions: open_positions(history),
                    realized_pl: realized_pl(history),
                },
            )
        } else {
            Err(LedgerError::Overflow)
        },
    }
}

/// The view of what `compute_positions` returns.
pub open spec fn outcome_model(r: Result<Positions, LedgerError>) -> Result<
    PositionsModel,
    LedgerError,
> {
    match r {
        Ok(p) => Ok(p@),
        Err(e) => Err(e),
    }
}

/// The failure of a prefix is the failure of the whole history.
pub proof fn lemma_failure_of_prefix(history: Seq<Trade>, n: int)
    requires
        0 <= n <= history.len(),
        first_failure(history.take(n)) is Some,
    ensures
        first_failure(history) == first_failure(history.take(n)),
    decreases history.len() - n,
{
    if n == history.len() {
        assert(history.take(n) =~= history);
    } else {
        assert(history.take(n + 1).drop_last() =~= history.take(n));
        lemma_failure_of_prefix(history, n + 1);
    }
}

/// A history that fits has only prefixes that fit.
pub proof fn lemma_prefix_fits(history: Seq<Trade>, n: int)
    requires
        0 <= n <= history.len(),
        history_fits(history),
    ensures
        history_fits(history.take(n)),
    decreases history.len(),
{
    if n == history.len() {
        assert(history.take(n) =~= history);
    } else {
        lemma_prefix_fits(history.drop_last(), n);
        assert(history.drop_last().take(n) =~= history.take(n));
    }
}

/// A security that a history does not trade is not held after it.
pub proof fn lemma_unseen_is_not_held(history: Seq<Trade>, ticker: Seq<char>)
    requires
        !tickers_seen(history).contains(ticker),
    ensures
        holding(history, ticker) == no_holding(),
    decreases history.len(),
{
    if history.len() > 0 {
        let before = tickers_seen(history.drop_last());
        let last = history.last().ticker;
        if before.contains(last) {
            assert(last != ticker);
        } else {
            assert(before.push(last).last() == last);
            assert(before.push(last).contains(last));
            assert(last != ticker);
            if before.contains(ticker) {
                let i = choose|i: int| 0 <= i < before.len() && before[i] == ticker;
                assert(before.push(last)[i] == ticker);
            }
        }
        lemma_unseen_is_not_held(history.drop_last(), ticker);
    }
}

/// No security stands twice among those seen.
pub proof fn lemma_seen_once(history: Seq<Trade>)
    ensures
        forall|i: int, j: int|
            0 <= i < j < tickers_seen(history).len() ==> tickers_seen(history)[i] != tickers_seen(
                history,
            )[j],
    decreases history.len(),
{
    if history.len() > 0 {
        lemma_seen_once(history.drop_last());
        let before = tickers_seen(history.drop_last());
        let last = history.last().ticker;
        if !before.contains(last) {
            let seen = before.push(last);
            assert forall|i: int, j: int| 0 <= i < j < seen.len() implies seen[i] != seen[j] by {
                if j == before.len() {
                    assert(before[i] == seen[i]);
                    assert(before.contains(seen[i]));
                }
            }
        }
    }
}

/// The holding and the realized total after one trade more.
fn step(quantity: i128, cost_basis: i128, realized: i128, t: &AssetTransaction) -> (r: Option<
    (i128, i128, i128),
>)
    requires
        in_range(cost_basis as int),
        in_range(realized as int),
        trade_failure(t@) is None,
        magnitude(quantity as int) <= i128::MAX - 0x8000_0000_0000_0000,
    ensures
        ({
            let h = Lot { quantity: quantity as int, cost_basis: cost_basis as int };
            r == (if trade_fits(h, realized as int, t@) {
                Some(
                    (
                        apply_trade(h, t@).quantity as i128,
                        apply_trade(h, t@).cost_basis as i128,
                        (realized + trade_gain(h, t@)) as i128,
                    ),
                )
            } else {
                None
            })
        }),
{
    let sold: i128 = t.quantity as i128;
    let price: i128 = t.price as i128;
    assert(0 <= sold * price <= 0x4000_0000_0000_0000_0000_0000_0000_0000) by (nonlinear_arith)
        requires
            0 < sold <= 0x7fff_ffff_ffff_ffff,
            0 <= price <= 0x7fff_ffff_ffff_ffff,
    ;
    let value: i128 = sold * price;
    match t.transaction_type {
        TransactionType::Buy => {
            match amount_add(cost_basis, value) {
                Some(cost) => Some((quantity + sold, cost, realized)),
                None => None,
            }
        },
        TransactionType::Sell => {
            let open = quantity > QUANTITY_EPSILON as i128 || quantity < -(QUANTITY_EPSILON as i128);
            let removed: i128 = if open {
                match amount_mul(cost_basis, sold) {
                    Some(product) => {
                        proof {
                            lemma_floor_div_in_range(product as int, quantity as int);
                        }
                        amount_div_floor(product, quantity)
                    },
                    None => {
                        return None;
                    },
                }
            } else {
                0
            };
            let cost = match amount_sub(cost_basis, removed) {
                Some(cost) => cost,
                None => {
                    return None;
                },
            };
            let gain = match amount_sub(value, removed) {
                Some(gain) => gain,
                None => {
                    return None;
                },
            };
            match amount_add(realized, gain) {
                Some(total) => Some((quantity - sold, cost, total)),
                None => None,
            }
        },
    }
}

/// One line of the working book: a security and its holding so far.
struct Entry {
    ticker: String,
    quantity: i128,
    cost_basis: i128,
}

/// Where in the book a security stands, if it does.
fn find_ticker(book: &Vec<Entry>, ticker: &String) -> (r: Option<usize>)
    ensures
        match r {
            Some(j) => j < book.len() && book[j as int].ticker@ == ticker@,
            None => forall|k: int| 0 <= k < book.len() ==> book[k].ticker@ != ticker@,
        },
{
    let mut k: usize = 0;
    while k < book.len()
        invariant
            k <= book.len(),
            forall|m: int| 0 <= m < k ==> book[m].ticker@ != ticker@,
        decreases book.len() - k,
    {
        if book[k].ticker == *ticker {
            return Some(k);
        }
        k = k + 1;
    }
    None
}

/// The first malformed trade of a list, if there is one.
fn check_trades(transactions: &Vec<AssetTransaction>) -> (r: Option<Invalid>)
    ensures
        r == first_failure(trades(transactions@)),
{
    let ghost history = trades(transactions@);
    let mut i: usize = 0;
    while i < transactions.len()
        invariant
            i <= transactions.len(),
            history == trades(transactions@),
            first_failure(history.take(i as int)) is None,
        decreases transactions.len() - i,
    {
        assert(history.take(i + 1).drop_last() =~= history.take(i as int));
        if transactions[i].quantity <= 0 {
            proof {
                lemma_failure_of_prefix(history, i + 1);
            }
            return Some(Invalid::Quantity);
        }
        if transactions[i].price < 0 {
            proof {
                lemma_failure_of_prefix(history, i + 1);
            }
            return Some(Invalid::Price);
        }
        i = i + 1;
    }
    assert(history.take(i as int) =~= history);
    None
}

/// Folds a history of trades, taken in the order given, into the open positions and
/// the realized profit and loss.
///
/// A purchase adds its quantity to the holding of its security and its value to the
/// cost basis. A sale takes its quantity out, and with it the average cost of that
/// quantity; what the proceeds exceed that cost by is realized. A sale of more than
/// is held is accepted. Holdings within the tolerance of zero are left out of the
/// result. A history with a malformed trade is rejected as a whole, and so is one
/// with a step that 128 bits cannot hold.
pub fn compute_positions(transactions: &Vec<AssetTransaction>) -> (r: Result<
    Positions,
    LedgerError,
>)
    ensures
        outcome_model(r) == positions_outcome(trades(transactions@)),
{
    let ghost history = trades(transactions@);
    match check_trades(transactions) {
        Some(reason) => {
            return Err(LedgerError::ValidationError(reason));
        },
        None => {},
    }
    let mut book: Vec<Entry> = Vec::new();
    let mut realized: i128 = 0;
    let mut i: usize = 0;
    while i < transactions.len()
        invariant
            i <= transactions.len(),
            history == trades(transactions@),
            first_failure(history) is None,
            history_fits(history.take(i as int)),
            book.len() == tickers_seen(history.take(i as int)).len(),
            forall|k: int|
                0 <= k < book.len() ==> {
                    &&& #[trigger] book[k].ticker@ == tickers_seen(history.take(i as int))[k]
                    &&& book[k].quantity == holding(history.take(i as int), book[k].ticker@).quantity
                    &&& book[k].cost_basis == holding(
                        history.take(i as int),
                        book[k].ticker@,
                    ).cost_basis
                    &&& in_range(book[k].cost_basis as int)
                    &&& magnitude(book[k].quantity as int) <= i * 0x8000_0000_0000_0000
                },
            realized == realized_pl(history.take(i as int)),
            in_range(realized as int),
        decreases transactions.len() - i,
    {
        let t = &transactions[i];
        let ghost before = history.take(i as int);
        let ghost after = history.take(i + 1);
        let ghost seen = tickers_seen(before);
        proof {
            assert(after.drop_last() =~= before);
            assert(after.last() == t@);
            lemma_seen_once(before);
            if trade_failure(t@) is Some {
                assert(first_failure(after) is Some);
                lemma_failure_of_prefix(history, i + 1);
            }
        }
        let found = find_ticker(&book, &t.ticker);
        let (quantity, cost_basis): (i128, i128) = match found {
            Some(j) => (book[j].quantity, book[j].cost_basis),
            None => (0, 0),
        };
        proof {
            if found is None {
                assert(!seen.contains(t.ticker@)) by {
                    if seen.contains(t.ticker@) {
                        let m = choose|m: int| 0 <= m < seen.len() && seen[m] == t.ticker@;
                        assert(book[m].ticker@ == seen[m]);
                    }
                }
                lemma_unseen_is_not_held(before, t.ticker@);
            } else {
                let j = found->0 as int;
                assert(book[j].ticker@ == seen[j]);
                assert(seen.contains(t.ticker@));
            }
            assert(Lot { quantity: quantity as int, cost_basis: cost_basis as int } == holding(
                before,
                t.ticker@,
            ));
        }
        let ghost old_book = book@;
        match step(quantity, cost_basis, realized, t) {
            None => {
                proof {
                    assert(!history_fits(after));
                    if history_fits(history) {
                        lemma_prefix_fits(history, i + 1);
                    }
                }
                return Err(LedgerError::Overflow);
            },
            Some((new_quantity, new_cost, new_realized)) => {
                let entry = Entry {
                    ticker: t.ticker.clone(),
                    quantity: new_quantity,
                    cost_basis: new_cost,
                };
                match found {
                    Some(j) => {
                        book.set(j, entry);
                    },
                    None => {
                        book.push(entry);
                    },
                }
                realized = new_realized;
            },
        }
        proof {
            assert forall|k: int| 0 <= k < book.len() implies {
                &&& #[trigger] book[k].ticker@ == tickers_seen(after)[k]
                &&& book[k].quantity == holding(after, book[k].ticker@).quantity
                &&& book[k].cost_basis == holding(after, book[k].ticker@).cost_basis
                &&& in_range(book[k].cost_basis as int)
                &&& magnitude(book[k].quantity as int) <= (i + 1) * 0x8000_0000_0000_0000
            } by {
                if k < old_book.len() {
                    assert(old_book[k].ticker@ == seen[k]);
                    assert(tickers_seen(after)[k] == seen[k]);
                    if found is Some && k == found->0 {
                        assert(book[k].ticker@ == t.ticker@);
                    } else {
                        assert(book[k] == old_book[k]);
                        if found is Some {
                            assert(old_book[found->0 as int].ticker@ == seen[found->0 as int]);
                        }
                        assert(seen[k] != t.ticker@);
                    }
                } else {
                    assert(found is None);
                    assert(tickers_seen(after) == seen.push(t.ticker@));
                    assert(book[k].ticker@ == t.ticker@);
                }
            }
        }
        i = i + 1;
    }
    assert(history.take(i as int) =~= history);
    let ghost seen = tickers_seen(history);
    assert forall|m: int| 0 <= m < book.len() implies in_range(
        #[trigger] book[m].quantity as int,
    ) by {
        assert(book[m].ticker@ == seen[m]);
        assert(i * 0x8000_0000_0000_0000 <= 0xffff_ffff_ffff_ffff * 0x8000_0000_0000_0000);
    }
    let mut positions: Vec<Position> = Vec::new();
    let mut k: usize = 0;
    while k < book.len()
        invariant
            k <= book.len(),
            seen == tickers_seen(history),
            book.len() == seen.len(),
            forall|m: int|
                0 <= m < book.len() ==> {
                    &&& #[trigger] book[m].ticker@ == seen[m]
                    &&& book[m].quantity == holding(history, book[m].ticker@).quantity
                    &&& book[m].cost_basis == holding(history, book[m].ticker@).cost_basis
                    &&& in_range(book[m].cost_basis as int)
                    &&& in_range(book[m].quantity as int)
                },
            position_models(positions@) == open_among(history, seen.take(k as int)),
        decreases book.len() - k,
    {
        let e = &book[k];
        proof {
            assert(seen.take(k + 1).drop_last() =~= seen.take(k as int));
            assert(seen.take(k + 1).last() == e.ticker@);
        }
        if e.quantity > QUANTITY_EPSILON as i128 || e.quantity < -(QUANTITY_EPSILON as i128) {
            let average: i128 = amount_div_floor(e.cost_basis, e.quantity);
            let ghost earlier = position_models(positions@);
            positions.push(
                Position {
                    ticker: e.ticker.clone(),
                    quantity: e.quantity,
                    cost_basis: e.cost_basis,
                    average_cost: average,
                },
            );
            assert(position_models(positions@) =~= earlier.push(position_of(history, e.ticker@)));
        }
        k = k + 1;
    }
    assert(seen.take(k as int) =~= seen);
    Ok(Positions { positions, realized_pl: realized })
}

} // verus!
