//! The ticker tape: the main indices, the two exchange rates and the day's strongest
//! movers, as one list of lines.

use vstd::prelude::*;
use vstd::string::StringExecFns;

verus! {

/// What the provider gives for an index or an exchange rate: the last value and its
/// change in percent, both in millionths.
#[derive(Clone, Copy, Debug, PartialEq, Eq, Structural)]
pub struct Indicador {
    pub u: i64,
    pub c: i64,
}

/// One of the day's movers: its ticker, its last price and its change in percent,
/// the two numbers in millionths.
#[derive(Clone, Debug)]
pub struct SimpleTopChange {
    pub e: String,
    pub u: i64,
    pub c: i64,
}

/// One line of the tape.
#[derive(Clone, Debug)]
pub struct TickerData {
    pub symbol: String,
    pub price: i64,
    pub change: i64,
    pub change_percent: i64,
}

/// A line of the tape as the assembly reasons about it.
pub struct TickerModel {
    pub symbol: Seq<char>,
    pub price: i64,
    pub change: i64,
    pub change_percent: i64,
}

impl View for TickerData {
    type V = TickerModel;

    open spec fn view(&self) -> TickerModel {
        TickerModel {
            symbol: self.symbol@,
            price: self.price,
            change: self.change,
            change_percent: self.change_percent,
        }
    }
}

/// The views of a list of lines, in the order of the list.
pub open spec fn ticker_models(lines: Seq<TickerData>) -> Seq<TickerModel> {
    lines.map_values(|t: TickerData| t@)
}

/// The line of an index or an exchange rate under the name given, where the
/// provider gave it.
pub open spec fn linea_de_indicador(symbol: Seq<char>, indicador: Option<Indicador>) -> Seq<
    TickerModel,
> {
    match indicador {
        Some(i) => seq![TickerModel { symbol, price: i.u, change: 0, change_percent: i.c }],
        None => Seq::empty(),
    }
}

/// The line of a mover.
pub open spec fn linea_de_cambio(m: SimpleTopChange) -> TickerModel {
    TickerModel { symbol: m.e@, price: m.u, change: 0, change_percent: m.c }
}

/// The lines of the first five movers of a list, fewer where the list is shorter.
pub open spec fn lineas_de_cambios(cambios: Seq<SimpleTopChange>) -> Seq<TickerModel> {
    Seq::new(
        if cambios.len() < 5 {
            cambios.len()
        } else {
            5
        },
        |i: int| linea_de_cambio(cambios[i]),
    )
}

/// The tape: the IPC, the S&P 500, the dollar and the euro, each where the provider
/// gave it, then the first five of the risers and the first five of the fallers.
pub open spec fn cinta(
    ipc: Option<Indicador>,
    sp500: Option<Indicador>,
    usdmxn: Option<Indicador>,
    eurmxn: Option<Indicador>,
    suben: Seq<SimpleTopChange>,
    bajan: Seq<SimpleTopChange>,
) -> Seq<TickerModel> {
    linea_de_indicador("IPC"@, ipc) + linea_de_indicador("S&P 500"@, sp500) + linea_de_indicador(
        "USD/MXN"@,
        usdmxn,
    ) + linea_de_indicador("EUR/MXN"@, eurmxn) + lineas_de_cambios(suben) + lineas_de_cambios(bajan)
}

/// Adds the line of an index or an exchange rate, where the provider gave it.
fn push_indicador(data: &mut Vec<TickerData>, symbol: &str, indicador: Option<Indicador>)
    ensures
        ticker_models(final(data)@) == ticker_models(old(data)@) + linea_de_indicador(
            symbol@,
            indicador,
        ),
{
    let ghost before = ticker_models(data@);
    match indicador {
        Some(i) => {
            data.push(
                TickerData {
                    symbol: String::from_str(symbol),
                    price: i.u,
                    change: 0,
                    change_percent: i.c,
                },
            );
        },
        None => {},
    }
    assert(ticker_models(data@) =~= before + linea_de_indicador(symbol@, indicador));
}

/// Adds the lines of the first five movers of a list.
fn push_cambios(data: &mut Vec<TickerData>, cambios: &Vec<SimpleTopChange>)
    ensures
        ticker_models(final(data)@) == ticker_models(old(data)@) + lineas_de_cambios(cambios@),
{
    let ghost before = ticker_models(data@);
    let n: usize = if cambios.len() < 5 {
        cambios.len()
    } else {
        5
    };
    let mut i: usize = 0;
    while i < n
        invariant
            i <= n <= cambios.len(),
            n == lineas_de_cambios(cambios@).len(),
            ticker_models(data@) =~= before + lineas_de_cambios(cambios@).take(i as int),
        decreases n - i,
    {
        let m = &cambios[i];
        let ghost so_far = ticker_models(data@);
        data.push(TickerData { symbol: m.e.clone(), price: m.u, change: 0, change_percent: m.c });
        assert(ticker_models(data@) =~= so_far.push(linea_de_cambio(*m)));
        assert(lineas_de_cambios(cambios@).take(i + 1) =~= lineas_de_cambios(cambios@).take(
            i as int,
        ).push(linea_de_cambio(*m)));
        i = i + 1;
    }
    assert(lineas_de_cambios(cambios@).take(n as int) =~= lineas_de_cambios(cambios@));
}

/// Assembles the tape from what the provider gave for the indices, the exchange
/// rates and the movers. The change of a line is always 0: the provider gives the
/// change in percent only.
pub fn get_ticker_data(
    ipc: Option<Indicador>,
    sp500: Option<Indicador>,
    usdmxn: Option<Indicador>,
    eurmxn: Option<Indicador>,
    suben: &Vec<SimpleTopChange>,
    bajan: &Vec<SimpleTopChange>,
) -> (data: Vec<TickerData>)
    ensures
        ticker_models(data@) == cinta(ipc, sp500, usdmxn, eurmxn, suben@, bajan@),
{
    let mut data: Vec<TickerData> = Vec::new();
    assert(ticker_models(data@) =~= Seq::empty());
    push_indicador(&mut data, "IPC", ipc);
    push_indicador(&mut data, "S&P 500", sp500);
    push_indicador(&mut data, "USD/MXN", usdmxn);
    push_indicador(&mut data, "EUR/MXN", eurmxn);
    push_cambios(&mut data, suben);
    push_cambios(&mut data, bajan);
    assert(ticker_models(data@) =~= cinta(ipc, sp500, usdmxn, eurmxn, suben@, bajan@));
    data
}

} // verus!
