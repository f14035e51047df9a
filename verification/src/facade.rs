//! The views that a front end asks for, each composed from what the ledger engine
//! computes and from market prices supplied by the caller. Nothing here reads or
//! writes anything.

use vstd::prelude::*;
use crate::cash::cash_total;
use crate::cash::compute_cash_balance;
use crate::cash::cash_fits;
use crate::error::LedgerError;
use crate::ledger::Position;
use crate::ledger::PositionModel;
use crate::ledger::compute_positions;
use crate::ledger::position_models;
use crate::ledger::positions_outcome;
use crate::types::AssetTransaction;
use crate::types::CashFlow;
use crate::types::Date;
use crate::types::FlowType;
use crate::types::trades;
use crate::units::amount_add;
use crate::units::amount_mul;
use crate::units::in_range;
use crate::valuation::UnrealizedPl;
use crate::valuation::valuation_outcome;
use crate::valuation::value_at;

verus! {

/// One line of the list of positions: a security, the quantity held and the average
/// price paid for one share.
#[derive(Clone, Debug)]
pub struct PositionSlot {
    pub ticker: String,
    pub total_quantity: i128,
    pub average_price: i128,
}

/// A slot as the ledger reasons about it.
pub struct SlotModel {
    pub ticker: Seq<char>,
    pub total_quantity: int,
    pub average_price: int,
}

impl View for PositionSlot {
    type V = SlotModel;

    open spec fn view(&self) -> SlotModel {
        SlotModel {
            ticker: self.ticker@,
            total_quantity: self.total_quantity as int,
            average_price: self.average_price as int,
        }
    }
}

/// The views of a list of slots, in the order of the list.
pub open spec fn slot_models(slots: Seq<PositionSlot>) -> Seq<SlotModel> {
    slots.map_values(|s: PositionSlot| s@)
}

/// The slot that shows a position.
pub open spec fn slot_of(p: PositionModel) -> SlotModel {
    SlotModel { ticker: p.ticker, total_quantity: p.quantity, average_price: p.average_cost }
}

/// What the list of slots of a history is: the open positions, one slot each, or the
/// failure of the history.
pub open spec fn slots_outcome(transactions: Seq<AssetTransaction>) -> Result<
    Seq<SlotModel>,
    LedgerError,
> {
    match positions_outcome(trades(transactions)) {
        Ok(p) => Ok(p.positions.map_values(|p: PositionModel| slot_of(p))),
        Err(e) => Err(e),
    }
}

/// The view of a list of slots, or the failure in its place.
pub open spec fn slots_result_model(r: Result<Vec<PositionSlot>, LedgerError>) -> Result<
    Seq<SlotModel>,
    LedgerError,
> {
    match r {
        Ok(slots) => Ok(slot_models(slots@)),
        Err(e) => Err(e),
    }
}

/// The positions of a portfolio as a list of slots: one for each security whose
/// holding is open after the transactions given, in the order in which the
/// securities first appear.
pub fn get_portfolio_slots(transactions: &Vec<AssetTransaction>) -> (r: Result<
    Vec<PositionSlot>,
    LedgerError,
>)
    ensures
        slots_result_model(r) == slots_outcome(transactions@),
{
    let computed = match compute_positions(transactions) {
        Ok(computed) => computed,
        Err(e) => {
            return Err(e);
        },
    };
    let positions = computed.positions;
    let ghost wanted = position_models(positions@).map_values(|p: PositionModel| slot_of(p));
    let mut slots: Vec<PositionSlot> = Vec::new();
    let mut i: usize = 0;
    while i < positions.len()
        invariant
            i <= positions.len(),
            wanted == position_models(positions@).map_values(|p: PositionModel| slot_of(p)),
            slot_models(slots@) == wanted.take(i as int),
        decreases positions.len() - i,
    {
        let ghost earlier = slot_models(slots@);
        let p = &positions[i];
        slots.push(
            PositionSlot {
                ticker: p.ticker.clone(),
                total_quantity: p.quantity,
                average_price: p.average_cost,
            },
        );
        assert(slot_models(slots@) =~= earlier.push(wanted[i as int]));
        assert(wanted.take(i + 1) =~= wanted.take(i as int).push(wanted[i as int]));
        i = i + 1;
    }
    assert(wanted.take(i as int) =~= wanted);
    Ok(slots)
}

/// The current market price of one share of a security.
#[derive(Clone, Debug)]
pub struct MarketPrice {
    pub ticker: String,
    /// Millionths of a currency unit.
    pub price: i64,
}

/// The price that a list of prices gives for `ticker`: that of the last entry for
/// it, if there is one. A security without an entry has no known price.
pub open spec fn price_of(prices: Seq<MarketPrice>, ticker: Seq<char>) -> Option<i64>
    decreases prices.len(),
{
    if prices.len() == 0 {
        None
    } else if prices.last().ticker@ == ticker {
        Some(prices.last().price)
    } else {
        price_of(prices.drop_last(), ticker)
    }
}

/// Looks a security up in a list of prices.
pub fn find_price(prices: &Vec<MarketPrice>, ticker: &String) -> (r: Option<i64>)
    ensures
        r == price_of(prices@, ticker@),
{
    let mut found: Option<i64> = None;
    let mut i: usize = 0;
    while i < prices.len()
        invariant
            i <= prices.len(),
            found == price_of(prices@.take(i as int), ticker@),
        decreases prices.len() - i,
    {
        assert(prices@.take(i + 1).drop_last() =~= prices@.take(i as int));
        if prices[i].ticker == *ticker {
            found = Some(prices[i].price);
        }
        i = i + 1;
    }
    assert(prices@.take(i as int) =~= prices@);
    found
}

/// One line of the profit and loss table. The last three fields are absent where
/// the current price of the security is not known.
#[derive(Clone, Debug)]
pub struct ProfitLoss {
    pub ticker: String,
    pub total_quantity: i128,
    pub average_price: i128,
    pub current_price: Option<i64>,
    pub unrealized_pl: Option<i128>,
    pub unrealized_pl_percent: Option<i128>,
}

/// A line of the profit and loss table as the ledger reasons about it.
pub struct ProfitLossModel {
    pub ticker: Seq<char>,
    pub total_quantity: int,
    pub average_price: int,
    pub current_price: Option<i64>,
    pub unrealized_pl: Option<i128>,
    pub unrealized_pl_percent: Option<i128>,
}

impl View for ProfitLoss {
    type V = ProfitLossModel;

    open spec fn view(&self) -> ProfitLossModel {
        ProfitLossModel {
            ticker: self.ticker@,
            total_quantity: self.total_quantity as int,
            average_price: self.average_price as int,
            current_price: self.current_price,
            unrealized_pl: self.unrealized_pl,
            unrealized_pl_percent: self.unrealized_pl_percent,
        }
    }
}

/// The views of a list of lines, in the order of the list.
pub open spec fn profit_loss_models(rows: Seq<ProfitLoss>) -> Seq<ProfitLossModel> {
    rows.map_values(|r: ProfitLoss| r@)
}

/// The line of the table for one slot: without a price the slot alone, with a price
/// the slot and its valuation, or the failure of that valuation.
pub open spec fn profit_loss_of(slot: SlotModel, price: Option<i64>) -> Result<
    ProfitLossModel,
    LedgerError,
> {
    match price {
        None => Ok(
            ProfitLossModel {
                ticker: slot.ticker,
                total_quantity: slot.total_quantity,
                average_price: slot.average_price,
                current_price: None,
                unrealized_pl: None,
                unrealized_pl_percent: None,
            },
        ),
        Some(p) => match valuation_outcome(slot.total_quantity, slot.average_price, p as int) {
            Ok(u) => Ok(
                ProfitLossModel {
                    ticker: slot.ticker,
                    total_quantity: slot.total_quantity,
                    average_price: slot.average_price,
                    current_price: Some(p),
                    unrealized_pl: Some(u.pl),
                    unrealized_pl_percent: Some(u.pl_percent),
                },
            ),
            Err(e) => Err(e),
        },
    }
}

/// The table for a list of slots: a line for each, in order, or the failure of the
/// first slot whose valuation fails.
pub open spec fn profit_loss_table(slots: Seq<SlotModel>, prices: Seq<MarketPrice>) -> Result<
    Seq<ProfitLossModel>,
    LedgerError,
>
    decreases slots.len(),
{
    if slots.len() == 0 {
        Ok(Seq::empty())
    } else {
        match profit_loss_table(slots.drop_last(), prices) {
            Err(e) => Err(e),
            Ok(rows) => match profit_loss_of(slots.last(), price_of(prices, slots.last().ticker)) {
                Ok(row) => Ok(rows.push(row)),
                Err(e) => Err(e),
            },
        }
    }
}

/// The view of a table, or the failure in its place.
pub open spec fn table_result_model(r: Result<Vec<ProfitLoss>, LedgerError>) -> Result<
    Seq<ProfitLossModel>,
    LedgerError,
> {
    match r {
        Ok(rows) => Ok(profit_loss_models(rows@)),
        Err(e) => Err(e),
    }
}

/// A failure among the first slots of a list is the failure of the list.
pub proof fn lemma_table_fails_early(slots: Seq<SlotModel>, prices: Seq<MarketPrice>, n: int)
    requires
        0 <= n <= slots.len(),
        profit_loss_table(slots.take(n), prices) is Err,
    ensures
        profit_loss_table(slots, prices) == profit_loss_table(slots.take(n), prices),
    decreases slots.len() - n,
{
    if n == slots.len() {
        assert(slots.take(n) =~= slots);
    } else {
        assert(slots.take(n + 1).drop_last() =~= slots.take(n));
        lemma_table_fails_early(slots, prices, n + 1);
    }
}

/// The profit and loss table of a list of slots at the prices given. A slot whose
/// security has no price in the list keeps its line, with the price and the profit
/// absent. A negative price is rejected, and a valuation that 128 bits cannot hold
/// fails.
pub fn calculate_portfolio_pl(slots: &Vec<PositionSlot>, prices: &Vec<MarketPrice>) -> (r: Result<
    Vec<ProfitLoss>,
    LedgerError,
>)
    ensures
        table_result_model(r) == profit_loss_table(slot_models(slots@), prices@),
{
    let ghost models = slot_models(slots@);
    let mut rows: Vec<ProfitLoss> = Vec::new();
    let mut i: usize = 0;
    assert(profit_loss_models(rows@) =~= Seq::empty());
    while i < slots.len()
        invariant
            i <= slots.len(),
            models == slot_models(slots@),
            profit_loss_table(models.take(i as int), prices@) == Ok::<
                Seq<ProfitLossModel>,
                LedgerError,
            >(profit_loss_models(rows@)),
        decreases slots.len() - i,
    {
        let slot = &slots[i];
        let ghost earlier = profit_loss_models(rows@);
        proof {
            assert(models.take(i + 1).drop_last() =~= models.take(i as int));
            assert(models.take(i + 1).last() == slot@);
        }
        let price = find_price(prices, &slot.ticker);
        let (pl, percent): (Option<i128>, Option<i128>) = match price {
            None => (None, None),
            Some(p) => match value_at(slot.total_quantity, slot.average_price, p) {
                Ok(u) => (Some(u.pl), Some(u.pl_percent)),
                Err(e) => {
                    proof {
                        lemma_table_fails_early(models, prices@, i + 1);
                    }
                    return Err(e);
                },
            },
        };
        rows.push(
            ProfitLoss {
                ticker: slot.ticker.clone(),
                total_quantity: slot.total_quantity,
                average_price: slot.average_price,
                current_price: price,
                unrealized_pl: pl,
                unrealized_pl_percent: percent,
            },
        );
        assert(profit_loss_models(rows@) =~= earlier.push(rows@.last()@));
        i = i + 1;
    }
    assert(models.take(i as int) =~= models);
    Ok(rows)
}

/// The cash balance of a portfolio: the sum of the amounts of its movements.
pub fn get_cash_balance(movements: &Vec<CashFlow>) -> (r: Result<i128, LedgerError>)
    ensures
        match r {
            Ok(balance) => cash_fits(movements@) && balance == cash_total(movements@),
            Err(e) => e == LedgerError::Overflow && !cash_fits(movements@),
        },
{
    compute_cash_balance(movements)
}

/// One line of the cash history: a movement, and the balance once it is booked.
#[derive(Clone, Debug)]
pub struct CashFlowEntry {
    pub amount: i128,
    pub flow_type: FlowType,
    pub date: Date,
    pub description: Option<String>,
    pub balance: i128,
}

/// A line of the cash history as the ledger reasons about it.
pub struct CashFlowEntryModel {
    pub amount: int,
    pub flow_type: FlowType,
    pub date: Date,
    pub description: Option<Seq<char>>,
    pub balance: int,
}

/// The text of an optional description.
pub open spec fn text_of(description: Option<String>) -> Option<Seq<char>> {
    match description {
        Some(text) => Some(text@),
        None => None,
    }
}

impl View for CashFlowEntry {
    type V = CashFlowEntryModel;

    open spec fn view(&self) -> CashFlowEntryModel {
        CashFlowEntryModel {
            amount: self.amount as int,
            flow_type: self.flow_type,
            date: self.date,
            description: text_of(self.description),
            balance: self.balance as int,
        }
    }
}

/// The views of a list of lines, in the order of the list.
pub open spec fn entry_models(entries: Seq<CashFlowEntry>) -> Seq<CashFlowEntryModel> {
    entries.map_values(|e: CashFlowEntry| e@)
}

/// The line of the cash history for a movement that leaves the balance given.
pub open spec fn entry_of(m: CashFlow, balance: int) -> CashFlowEntryModel {
    CashFlowEntryModel {
        amount: m.amount as int,
        flow_type: m.flow_type,
        date: m.flow_date,
        description: text_of(m.description),
        balance,
    }
}

/// The cash history of a list of movements: a line for each, in the order of the
/// list, with the balance of all movements up to and including it.
pub open spec fn history_entries(movements: Seq<CashFlow>) -> Seq<CashFlowEntryModel> {
    Seq::new(
        movements.len(),
        |i: int| entry_of(movements[i], cash_total(movements.take(i + 1))),
    )
}

/// Whether the ledger can hold the balance after each movement of a list.
pub open spec fn running_fits(movements: Seq<CashFlow>) -> bool {
    forall|n: int| 0 <= n <= movements.len() ==> in_range(#[trigger] cash_total(movements.take(n)))
}

/// A copy of an optional text.
fn copy_text(text: &Option<String>) -> (r: Option<String>)
    ensures
        text_of(r) == text_of(*text),
{
    match text {
        Some(t) => Some(t.clone()),
        None => None,
    }
}

/// The cash history of a portfolio with its running balance. The movements are taken
/// in the order given, which the store makes the order of their dates. Fails where
/// the balance after some movement is more than 128 bits hold.
pub fn get_cash_flow_history(movements: &Vec<CashFlow>) -> (r: Result<
    Vec<CashFlowEntry>,
    LedgerError,
>)
    ensures
        match r {
            Ok(entries) => running_fits(movements@) && entry_models(entries@) == history_entries(
                movements@,
            ),
            Err(e) => e == LedgerError::Overflow && !running_fits(movements@),
        },
{
    let mut entries: Vec<CashFlowEntry> = Vec::new();
    let mut balance: i128 = 0;
    let mut i: usize = 0;
    assert(movements@.take(0).len() == 0);
    while i < movements.len()
        invariant
            i <= movements.len(),
            balance == cash_total(movements@.take(i as int)),
            forall|n: int| 0 <= n <= i ==> in_range(#[trigger] cash_total(movements@.take(n))),
            entries.len() == i,
            forall|k: int|
                0 <= k < i ==> (#[trigger] entries[k])@ == entry_of(
                    movements[k],
                    cash_total(movements@.take(k + 1)),
                ),
        decreases movements.len() - i,
    {
        let m = &movements[i];
        assert(movements@.take(i + 1).drop_last() =~= movements@.take(i as int));
        match amount_add(balance, m.amount) {
            Some(sum) => {
                balance = sum;
            },
            None => {
                assert(!in_range(cash_total(movements@.take(i + 1))));
                return Err(LedgerError::Overflow);
            },
        }
        entries.push(
            CashFlowEntry {
                amount: m.amount,
                flow_type: m.flow_type,
                date: m.flow_date,
                description: copy_text(&m.description),
                balance,
            },
        );
        i = i + 1;
    }
    assert(entry_models(entries@) =~= history_entries(movements@));
    Ok(entries)
}

/// One holding of the portfolio summary. The last three fields are absent where the
/// current price of the security is not known.
#[derive(Clone, Debug)]
pub struct Holding {
    pub ticker: String,
    pub quantity: i128,
    pub average_cost: i128,
    pub market_value: Option<i128>,
    pub unrealized_pnl: Option<i128>,
    pub unrealized_pnl_percent: Option<i128>,
}

/// A holding of the summary as the ledger reasons about it.
pub struct HoldingModel {
    pub ticker: Seq<char>,
    pub quantity: int,
    pub average_cost: int,
    pub market_value: Option<i128>,
    pub unrealized_pnl: Option<i128>,
    pub unrealized_pnl_percent: Option<i128>,
}

impl View for Holding {
    type V = HoldingModel;

    open spec fn view(&self) -> HoldingModel {
        HoldingModel {
            ticker: self.ticker@,
            quantity: self.quantity as int,
            average_cost: self.average_cost as int,
            market_value: self.market_value,
            unrealized_pnl: self.unrealized_pnl,
            unrealized_pnl_percent: self.unrealized_pnl_percent,
        }
    }
}

/// The views of a list of holdings, in the order of the list.
pub open spec fn holding_models(holdings: Seq<Holding>) -> Seq<HoldingModel> {
    holdings.map_values(|h: Holding| h@)
}

/// The totals of a portfolio: its holdings, their cash, and the sums over them.
#[derive(Clone, Debug)]
pub struct PortfolioSummary {
    pub holdings: Vec<Holding>,
    pub cash_balance: i128,
    /// The market value of the holdings whose price is known.
    pub total_value: i128,
    /// The paper profit of the holdings whose price is known.
    pub total_unrealized_pl: i128,
    pub total_realized_pl: i128,
}

/// A summary as the ledger reasons about it.
pub struct SummaryModel {
    pub holdings: Seq<HoldingModel>,
    pub cash_balance: int,
    pub total_value: int,
    pub total_unrealized_pl: int,
    pub total_realized_pl: int,
}

impl View for PortfolioSummary {
    type V = SummaryModel;

    open spec fn view(&self) -> SummaryModel {
        SummaryModel {
            holdings: holding_models(self.holdings@),
            cash_balance: self.cash_balance as int,
            total_value: self.total_value as int,
            total_unrealized_pl: self.total_unrealized_pl as int,
            total_realized_pl: self.total_realized_pl as int,
        }
    }
}

/// The holding that shows a position: without a price the position alone; with a
/// price also its market value, the quantity times the price, and its valuation.
pub open spec fn holding_of(p: PositionModel, price: Option<i64>) -> Result<
    HoldingModel,
    LedgerError,
> {
    match price {
        None => Ok(
            HoldingModel {
                ticker: p.ticker,
                quantity: p.quantity,
                average_cost: p.average_cost,
                market_value: None,
                unrealized_pnl: None,
                unrealized_pnl_percent: None,
            },
        ),
        Some(px) => match valuation_outcome(p.quantity, p.average_cost, px as int) {
            Err(e) => Err(e),
            Ok(u) => if in_range(p.quantity * px) {
                Ok(
                    HoldingModel {
                        ticker: p.ticker,
                        quantity: p.quantity,
                        average_cost: p.average_cost,
                        market_value: Some((p.quantity * px) as i128),
                        unrealized_pnl: Some(u.pl),
                        unrealized_pnl_percent: Some(u.pl_percent),
                    },
                )
            } else {
                Err(LedgerError::Overflow)
            },
        },
    }
}

/// An amount that may be absent, counted as 0 where it is.
pub open spec fn or_zero(amount: Option<i128>) -> int {
    match amount {
        Some(a) => a as int,
        None => 0,
    }
}

/// Holdings with the sums of their market values and paper profits.
pub struct Valued {
    pub holdings: Seq<HoldingModel>,
    pub total_value: int,
    pub total_unrealized_pl: int,
}

/// The holdings for a list of positions, in order, with their running sums; or the
/// failure of the first position whose holding or whose sums the ledger cannot hold.
pub open spec fn valued(positions: Seq<PositionModel>, prices: Seq<MarketPrice>) -> Result<
    Valued,
    LedgerError,
>
    decreases positions.len(),
{
    if positions.len() == 0 {
        Ok(Valued { holdings: Seq::empty(), total_value: 0, total_unrealized_pl: 0 })
    } else {
        match valued(positions.drop_last(), prices) {
            Err(e) => Err(e),
            Ok(v) => match holding_of(positions.last(), price_of(prices, positions.last().ticker)) {
                Err(e) => Err(e),
                Ok(h) => if in_range(v.total_value + or_zero(h.market_value)) && in_range(
                    v.total_unrealized_pl + or_zero(h.unrealized_pnl),
                ) {
                    Ok(
                        Valued {
                            holdings: v.holdings.push(h),
                            total_value: v.total_value + or_zero(h.market_value),
                            total_unrealized_pl: v.total_unrealized_pl + or_zero(h.unrealized_pnl),
                        },
                    )
                } else {
                    Err(LedgerError::Overflow)
                },
            },
        }
    }
}

/// A failure among the first positions of a list is the failure of the list.
pub proof fn lemma_valued_fails_early(
    positions: Seq<PositionModel>,
    prices: Seq<MarketPrice>,
    n: int,
)
    requires
        0 <= n <= positions.len(),
        valued(positions.take(n), prices) is Err,
    ensures
        valued(positions, prices) == valued(positions.take(n), prices),
    decreases positions.len() - n,
{
    if n == positions.len() {
        assert(positions.take(n) =~= positions);
    } else {
        assert(positions.take(n + 1).drop_last() =~= positions.take(n));
        lemma_valued_fails_early(positions, prices, n + 1);
    }
}

/// What the summary of a portfolio is: the failure of its history, or of its cash
/// balance, or of the valuation of its positions, whichever comes first in that
/// order; or else the holdings, the cash balance and the totals.
pub open spec fn summary_outcome(
    transactions: Seq<AssetTransaction>,
    movements: Seq<CashFlow>,
    prices: Seq<MarketPrice>,
) -> Result<SummaryModel, LedgerError> {
    match positions_outcome(trades(transactions)) {
        Err(e) => Err(e),
        Ok(p) => if !cash_fits(movements) {
            Err(LedgerError::Overflow)
        } else {
            match valued(p.positions, prices) {
                Err(e) => Err(e),
                Ok(v) => Ok(
                    SummaryModel {
                        holdings: v.holdings,
                        cash_balance: cash_total(movements),
                        total_value: v.total_value,
                        total_unrealized_pl: v.total_unrealized_pl,
                        total_realized_pl: p.realized_pl,
                    },
                ),
            }
        },
    }
}

/// The view of a summary, or the failure in its place.
pub open spec fn summary_result_model(r: Result<PortfolioSummary, LedgerError>) -> Result<
    SummaryModel,
    LedgerError,
> {
    match r {
        Ok(summary) => Ok(summary@),
        Err(e) => Err(e),
    }
}

/// The holding that shows one position at the price given, if any.
fn value_position(p: &Position, price: Option<i64>) -> (r: Result<Holding, LedgerError>)
    ensures
        match r {
            Ok(h) => holding_of(p@, price) == Ok::<HoldingModel, LedgerError>(h@),
            Err(e) => holding_of(p@, price) == Err::<HoldingModel, LedgerError>(e),
        },
{
    match price {
        None => Ok(
            Holding {
                ticker: p.ticker.clone(),
                quantity: p.quantity,
                average_cost: p.average_cost,
                market_value: None,
                unrealized_pnl: None,
                unrealized_pnl_percent: None,
            },
        ),
        Some(px) => {
            let u: UnrealizedPl = match value_at(p.quantity, p.average_cost, px) {
                Ok(u) => u,
                Err(e) => {
                    return Err(e);
                },
            };
            match amount_mul(p.quantity, px as i128) {
                Some(value) => Ok(
                    Holding {
                        ticker: p.ticker.clone(),
                        quantity: p.quantity,
                        average_cost: p.average_cost,
                        market_value: Some(value),
                        unrealized_pnl: Some(u.pl),
                        unrealized_pnl_percent: Some(u.pl_percent),
                    },
                ),
                None => Err(LedgerError::Overflow),
            }
        },
    }
}

/// The summary of a portfolio: its open positions valued at the prices given, its
/// cash balance, and the totals of market value, paper profit and realized profit.
/// A holding whose security has no price in the list is listed without a value and
/// adds nothing to the totals.
pub fn get_portfolio_summary(
    transactions: &Vec<AssetTransaction>,
    movements: &Vec<CashFlow>,
    prices: &Vec<MarketPrice>,
) -> (r: Result<PortfolioSummary, LedgerError>)
    ensures
        summary_result_model(r) == summary_outcome(transactions@, movements@, prices@),
{
    let computed = match compute_positions(transactions) {
        Ok(computed) => computed,
        Err(e) => {
            return Err(e);
        },
    };
    let cash_balance: i128 = match compute_cash_balance(movements) {
        Ok(balance) => balance,
        Err(e) => {
            return Err(e);
        },
    };
    let total_realized_pl: i128 = computed.realized_pl;
    let positions = computed.positions;
    let ghost models = position_models(positions@);
    let ghost history = trades(transactions@);
    let mut holdings: Vec<Holding> = Vec::new();
    let mut total_value: i128 = 0;
    let mut total_unrealized_pl: i128 = 0;
    let mut i: usize = 0;
    assert(holding_models(holdings@) =~= Seq::empty());
    while i < positions.len()
        invariant
            i <= positions.len(),
            models == position_models(positions@),
            history == trades(transactions@),
            positions_outcome(history) is Ok,
            positions_outcome(history)->Ok_0.positions == models,
            cash_fits(movements@),
            valued(models.take(i as int), prices@) == Ok::<Valued, LedgerError>(
                Valued {
                    holdings: holding_models(holdings@),
                    total_value: total_value as int,
                    total_unrealized_pl: total_unrealized_pl as int,
                },
            ),
            in_range(total_value as int),
            in_range(total_unrealized_pl as int),
        decreases positions.len() - i,
    {
        let p = &positions[i];
        let ghost earlier = holding_models(holdings@);
        proof {
            assert(models.take(i + 1).drop_last() =~= models.take(i as int));
            assert(models.take(i + 1).last() == p@);
        }
        let price = find_price(prices, &p.ticker);
        let h: Holding = match value_position(p, price) {
            Ok(h) => h,
            Err(e) => {
                proof {
                    lemma_valued_fails_early(models, prices@, i + 1);
                }
                return Err(e);
            },
        };
        let value: i128 = match h.market_value {
            Some(v) => v,
            None => 0,
        };
        let profit: i128 = match h.unrealized_pnl {
            Some(v) => v,
            None => 0,
        };
        let new_value = amount_add(total_value, value);
        let new_profit = amount_add(total_unrealized_pl, profit);
        match (new_value, new_profit) {
            (Some(v), Some(u)) => {
                total_value = v;
                total_unrealized_pl = u;
            },
            _ => {
                proof {
                    lemma_valued_fails_early(models, prices@, i + 1);
                }
                return Err(LedgerError::Overflow);
            },
        }
        holdings.push(h);
        assert(holding_models(holdings@) =~= earlier.push(h@));
        i = i + 1;
    }
    assert(models.take(i as int) =~= models);
    Ok(
        PortfolioSummary {
            holdings,
            cash_balance,
            total_value,
            total_unrealized_pl,
            total_realized_pl,
        },
    )
}

} // verus!
