//! What holds of the ledger for every history: statements that relate its functions
//! to one another, each proved from their definitions.

use vstd::prelude::*;
use crate::cash::cash_fits;
use crate::cash::cash_total;
use crate::cash::credit_of;
use crate::cash::debit_of;
use crate::cash::amount_of;
use crate::cash::lemma_sum_of_reordered;
use crate::cash::sum_of;
use crate::error::LedgerError;
use crate::ledger::Positions;
use crate::ledger::average_cost;
use crate::ledger::holding;
use crate::ledger::is_open;
use crate::ledger::open_among;
use crate::ledger::open_positions;
use crate::ledger::outcome_model;
use crate::ledger::position_of;
use crate::ledger::positions_outcome;
use crate::ledger::realized_pl;
use crate::ledger::sold_cost;
use crate::ledger::tickers_seen;
use crate::ledger::trade_gain;
use crate::ledger::lemma_seen_once;
use crate::ledger::lemma_unseen_is_not_held;
use crate::types::AssetTransaction;
use crate::types::CashFlow;
use crate::types::Trade;
use crate::types::TransactionType;
use crate::types::trades;
use crate::units::AMOUNT_EPSILON;
use crate::units::floor_div;
use crate::units::lemma_floor_div_of_multiple;
use crate::units::magnitude;

verus! {

/// The quantities of a history, added up.
pub open spec fn total_quantity(history: Seq<Trade>) -> int {
    sum_of(history, |t: Trade| t.quantity)
}

/// The values of the trades of a history, quantity times price, added up.
pub open spec fn total_value(history: Seq<Trade>) -> int {
    sum_of(history, |t: Trade| t.quantity * t.price)
}

/// Whether a history is nothing but purchases of one security.
pub open spec fn only_purchases_of(history: Seq<Trade>, ticker: Seq<char>) -> bool {
    forall|i: int|
        0 <= i < history.len() ==> (#[trigger] history[i]).side == TransactionType::Buy
            && history[i].ticker == ticker
}

/// After purchases only, all of one security, the quantity held is the sum of the
/// quantities bought, the cost basis is the sum of quantity times price, and the
/// average cost is the second sum divided by the first.
pub proof fn law_average_cost_of_purchases(history: Seq<Trade>, ticker: Seq<char>)
    requires
        only_purchases_of(history, ticker),
    ensures
        holding(history, ticker).quantity == total_quantity(history),
        holding(history, ticker).cost_basis == total_value(history),
        total_quantity(history) != 0 ==> average_cost(holding(history, ticker)) == floor_div(
            total_value(history),
            total_quantity(history),
        ),
        total_quantity(history) > 0 ==> average_cost(holding(history, ticker)) == total_value(
            history,
        ) / total_quantity(history),
    decreases history.len(),
{
    if history.len() > 0 {
        assert(history.last() == history[history.len() - 1]);
        assert(only_purchases_of(history.drop_last(), ticker)) by {
            assert forall|i: int| 0 <= i < history.drop_last().len() implies (
            #[trigger] history.drop_last()[i]).side == TransactionType::Buy
                && history.drop_last()[i].ticker == ticker by {
                assert(history.drop_last()[i] == history[i]);
            }
        }
        law_average_cost_of_purchases(history.drop_last(), ticker);
    }
}

/// A sale of all that is held of a security closes the position: the quantity is 0
/// and the cost basis is within the tolerance of 0. This is stated of a holding
/// that is open, or whose cost basis is within the tolerance already: a sale
/// against a holding that is not open takes no cost out.
pub proof fn law_full_liquidation(history: Seq<Trade>, sale: Trade)
    requires
        sale.side == TransactionType::Sell,
        sale.quantity == holding(history, sale.ticker).quantity,
        is_open(holding(history, sale.ticker)) || magnitude(
            holding(history, sale.ticker).cost_basis,
        ) <= AMOUNT_EPSILON,
    ensures
        holding(history.push(sale), sale.ticker).quantity == 0,
        magnitude(holding(history.push(sale), sale.ticker).cost_basis) <= AMOUNT_EPSILON,
        is_open(holding(history, sale.ticker)) ==> holding(
            history.push(sale),
            sale.ticker,
        ).cost_basis == 0,
        !is_open(holding(history.push(sale), sale.ticker)),
{
    let h = holding(history, sale.ticker);
    assert(history.push(sale).drop_last() =~= history);
    if is_open(h) {
        lemma_floor_div_of_multiple(h.cost_basis, h.quantity);
    }
}

/// The profit that the trade at place `n` of a history books: what `trade_gain` gives
/// it against the holding left by the trades before it.
pub open spec fn gain_at(history: Seq<Trade>, n: int) -> int {
    trade_gain(holding(history.take(n), history[n].ticker), history[n])
}

/// The gains booked by the first `n` trades of a history, added up.
pub open spec fn gains_through(history: Seq<Trade>, n: int) -> int
    decreases n,
{
    if n <= 0 {
        0
    } else {
        gains_through(history, n - 1) + gain_at(history, n - 1)
    }
}

/// A sale realizes its proceeds less the average cost before the sale times the
/// quantity sold, and the realized total grows by exactly that.
pub proof fn law_realized_on_sale(history: Seq<Trade>, sale: Trade)
    requires
        sale.side == TransactionType::Sell,
    ensures
        realized_pl(history.push(sale)) == realized_pl(history) + (sale.quantity * sale.price
            - sold_cost(holding(history, sale.ticker), sale.quantity)),
        is_open(holding(history, sale.ticker)) ==> sold_cost(
            holding(history, sale.ticker),
            sale.quantity,
        ) == floor_div(
            holding(history, sale.ticker).cost_basis * sale.quantity,
            holding(history, sale.ticker).quantity,
        ),
{
    assert(history.push(sale).drop_last() =~= history);
}

/// What a trade has booked is not revised by the trades that follow it.
pub proof fn law_gain_is_final(history: Seq<Trade>, later: Seq<Trade>, n: int)
    requires
        0 <= n < history.len(),
    ensures
        gain_at(history + later, n) == gain_at(history, n),
        realized_pl((history + later).take(n + 1)) == realized_pl(history.take(n + 1)),
{
    assert((history + later).take(n) =~= history.take(n));
    assert((history + later).take(n + 1) =~= history.take(n + 1));
}

/// The realized total of a history is the sum of what its trades have booked, each
/// at its own time.
pub proof fn law_realized_is_sum_of_gains(history: Seq<Trade>, n: int)
    requires
        0 <= n <= history.len(),
    ensures
        realized_pl(history.take(n)) == gains_through(history, n),
        n == history.len() ==> realized_pl(history) == gains_through(history, n),
    decreases n,
{
    if n > 0 {
        law_realized_is_sum_of_gains(history, n - 1);
        assert(history.take(n).drop_last() =~= history.take(n - 1));
        assert(history.take(n).last() == history[n - 1]);
    }
    if n == history.len() {
        assert(history.take(n) =~= history);
    }
}

/// The cash balance does not depend on the order of the movements: two lists that
/// hold the same movements have the same balance, and the ledger can hold the one
/// where it can hold the other.
pub proof fn law_cash_balance_ignores_order(a: Seq<CashFlow>, b: Seq<CashFlow>)
    requires
        a.to_multiset() == b.to_multiset(),
    ensures
        cash_total(a) == cash_total(b),
        cash_fits(a) == cash_fits(b),
{
    lemma_sum_of_reordered(a, b, |m: CashFlow| amount_of(m));
    lemma_sum_of_reordered(a, b, |m: CashFlow| credit_of(m));
    lemma_sum_of_reordered(a, b, |m: CashFlow| debit_of(m));
}

/// Whether `r` is what `compute_positions` may return for `transactions`.
pub open spec fn computed_from(transactions: Seq<AssetTransaction>, r: Result<
    Positions,
    LedgerError,
>) -> bool {
    outcome_model(r) == positions_outcome(trades(transactions))
}

/// Computing the positions twice from one history gives the same result twice: the
/// same failure, or the same positions in the same order with the same realized
/// total.
pub proof fn law_positions_are_a_function_of_history(
    transactions: Seq<AssetTransaction>,
    first: Result<Positions, LedgerError>,
    second: Result<Positions, LedgerError>,
)
    requires
        computed_from(transactions, first),
        computed_from(transactions, second),
    ensures
        outcome_model(first) == outcome_model(second),
        first is Ok <==> second is Ok,
        first is Ok ==> first->Ok_0@ == second->Ok_0@,
        first is Err ==> first->Err_0 == second->Err_0,
{
}

/// Every position among those selected is the position of one of the securities
/// given, and is open.
pub proof fn lemma_open_among_sound(history: Seq<Trade>, tickers: Seq<Seq<char>>, i: int)
    requires
        0 <= i < open_among(history, tickers).len(),
    ensures
        tickers.contains(open_among(history, tickers)[i].ticker),
        is_open(holding(history, open_among(history, tickers)[i].ticker)),
        open_among(history, tickers)[i] == position_of(
            history,
            open_among(history, tickers)[i].ticker,
        ),
    decreases tickers.len(),
{
    let earlier = open_among(history, tickers.drop_last());
    if i < earlier.len() {
        lemma_open_among_sound(history, tickers.drop_last(), i);
        let found = earlier[i].ticker;
        let k = choose|k: int| 0 <= k < tickers.drop_last().len() && tickers.drop_last()[k] == found;
        assert(tickers[k] == found);
    } else {
        assert(tickers[tickers.len() - 1] == tickers.last());
    }
}

/// Every security among those given whose holding is open has its position among
/// those selected.
pub proof fn lemma_open_among_complete(history: Seq<Trade>, tickers: Seq<Seq<char>>, k: int)
    requires
        0 <= k < tickers.len(),
        is_open(holding(history, tickers[k])),
    ensures
        exists|i: int|
            0 <= i < open_among(history, tickers).len() && (#[trigger] open_among(
                history,
                tickers,
            )[i]).ticker == tickers[k],
    decreases tickers.len(),
{
    let all = open_among(history, tickers);
    if k == tickers.len() - 1 {
        assert(all[all.len() - 1].ticker == tickers[k]);
    } else {
        lemma_open_among_complete(history, tickers.drop_last(), k);
        let earlier = open_among(history, tickers.drop_last());
        let i = choose|i: int| 0 <= i < earlier.len() && (#[trigger] earlier[i]).ticker == tickers[k];
        assert(all[i].ticker == tickers[k]);
    }
}

/// The open positions of a history are exactly the positions of the securities
/// whose holding is open after it, and no security has two of them.
pub proof fn law_open_positions(history: Seq<Trade>)
    ensures
        forall|i: int|
            0 <= i < open_positions(history).len() ==> is_open(
                holding(history, (#[trigger] open_positions(history)[i]).ticker),
            ) && open_positions(history)[i] == position_of(history, open_positions(history)[i].ticker),
        forall|ticker: Seq<char>| #[trigger]
            is_open(holding(history, ticker)) ==> exists|i: int|
                0 <= i < open_positions(history).len() && (#[trigger] open_positions(
                    history,
                )[i]).ticker == ticker,
        forall|i: int, j: int|
            0 <= i < j < open_positions(history).len() ==> (#[trigger] open_positions(
                history,
            )[i]).ticker != (#[trigger] open_positions(history)[j]).ticker,
{
    let seen = tickers_seen(history);
    let all = open_positions(history);
    assert forall|i: int| 0 <= i < all.len() implies is_open(
        holding(history, (#[trigger] all[i]).ticker),
    ) && all[i] == position_of(history, all[i].ticker) by {
        lemma_open_among_sound(history, seen, i);
    }
    assert forall|ticker: Seq<char>| #[trigger] is_open(holding(history, ticker)) implies exists|
        i: int,
    |
        0 <= i < all.len() && (#[trigger] all[i]).ticker == ticker by {
        if !seen.contains(ticker) {
            lemma_unseen_is_not_held(history, ticker);
        }
        let k = choose|k: int| 0 <= k < seen.len() && seen[k] == ticker;
        lemma_open_among_complete(history, seen, k);
    }
    lemma_seen_once(history);
    lemma_open_among_distinct(history, seen);
}

/// Where no security is given twice, no security has two positions among those
/// selected.
pub proof fn lemma_open_among_distinct(history: Seq<Trade>, tickers: Seq<Seq<char>>)
    requires
        forall|i: int, j: int| 0 <= i < j < tickers.len() ==> tickers[i] != tickers[j],
    ensures
        forall|i: int, j: int|
            0 <= i < j < open_among(history, tickers).len() ==> (#[trigger] open_among(
                history,
                tickers,
            )[i]).ticker != (#[trigger] open_among(history, tickers)[j]).ticker,
    decreases tickers.len(),
{
    if tickers.len() > 0 {
        let earlier = open_among(history, tickers.drop_last());
        let all = open_among(history, tickers);
        lemma_open_among_distinct(history, tickers.drop_last());
        assert forall|i: int, j: int| 0 <= i < j < all.len() implies (#[trigger] all[i]).ticker != (
        #[trigger] all[j]).ticker by {
            if j >= earlier.len() {
                lemma_open_among_sound(history, tickers.drop_last(), i);
                let k = choose|k: int|
                    0 <= k < tickers.drop_last().len() && tickers.drop_last()[k] == earlier[i].ticker;
                assert(tickers[k] == earlier[i].ticker);
                assert(all[j].ticker == tickers[tickers.len() - 1]);
            } else {
                assert(all[i] == earlier[i]);
                assert(all[j] == earlier[j]);
            }
        }
    }
}

} // verus!
