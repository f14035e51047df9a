//! Quotes: the provider's answer for one security is read into a quote, and a quote
//! with the previous close gives the figures shown for the security.

use vstd::prelude::*;
use crate::emisoras::optional_text;
use crate::emisoras::read_text;
use crate::emisoras::text_at;
use crate::json::Json;
use crate::json::Member;
use crate::json::find_member;
use crate::json::member_value;
use crate::units::PERCENT_SCALE;
use crate::units::PRICE_SCALE;
use crate::units::amount_div_floor;
use crate::units::floor_div;

verus! {

/// The quote of one security. Prices and the volume are in millionths; a figure
/// that the answer does not give as a number is absent.
#[derive(Clone, Debug)]
pub struct Cotizacion {
    pub simbolo: String,
    pub ultimo_precio: Option<i64>,
    pub precio_promedio: Option<i64>,
    pub volumen: Option<i64>,
    pub fecha: Option<String>,
}

/// A quote as the decoding reasons about it.
pub struct CotizacionModel {
    pub simbolo: Seq<char>,
    pub ultimo_precio: Option<i64>,
    pub precio_promedio: Option<i64>,
    pub volumen: Option<i64>,
    pub fecha: Option<Seq<char>>,
}

impl View for Cotizacion {
    type V = CotizacionModel;

    open spec fn view(&self) -> CotizacionModel {
        CotizacionModel {
            simbolo: self.simbolo@,
            ultimo_precio: self.ultimo_precio,
            precio_promedio: self.precio_promedio,
            volumen: self.volumen,
            fecha: optional_text(self.fecha),
        }
    }
}

/// The view of an optional quote.
pub open spec fn quote_model(c: Option<Cotizacion>) -> Option<CotizacionModel> {
    match c {
        Some(c) => Some(c@),
        None => None,
    }
}

/// The member `key` in millionths, where that member is a number.
pub open spec fn millionths_at(fields: Seq<Member>, key: Seq<char>) -> Option<i64> {
    match member_value(fields, key) {
        Some(v) => v.millionths(),
        None => None,
    }
}

/// The quote that the members of an object give for a security: the last price
/// under `u`, the average price under `p`, the volume under `v`, the date under `f`.
pub open spec fn cotizacion_de(simbolo: Seq<char>, fields: Seq<Member>) -> CotizacionModel {
    CotizacionModel {
        simbolo,
        ultimo_precio: millionths_at(fields, "u"@),
        precio_promedio: millionths_at(fields, "p"@),
        volumen: millionths_at(fields, "v"@),
        fecha: text_at(fields, "f"@),
    }
}

/// The quote of the first market of a security that holds an object.
pub open spec fn cotizacion_en_bolsas(simbolo: Seq<char>, bolsas: Seq<Member>) -> Option<
    CotizacionModel,
>
    decreases bolsas.len(),
{
    if bolsas.len() == 0 {
        None
    } else {
        match bolsas.first().value {
            Json::Object(fields) => Some(cotizacion_de(simbolo, fields@)),
            _ => cotizacion_en_bolsas(simbolo, bolsas.drop_first()),
        }
    }
}

/// The first quote of an answer: that of the first security that holds a market with
/// an object.
pub open spec fn primera_cotizacion(tickers: Seq<Member>) -> Option<CotizacionModel>
    decreases tickers.len(),
{
    if tickers.len() == 0 {
        None
    } else {
        let found = match tickers.first().value {
            Json::Object(bolsas) => cotizacion_en_bolsas(tickers.first().key@, bolsas@),
            _ => None,
        };
        if found is Some {
            found
        } else {
            primera_cotizacion(tickers.drop_first())
        }
    }
}

/// The member `key` in millionths, where that member is a number.
pub fn read_millionths(fields: &Vec<Member>, key: &str) -> (r: Option<i64>)
    ensures
        r == millionths_at(fields@, key@),
{
    match find_member(fields, key) {
        Some(v) => v.as_millionths(),
        None => None,
    }
}

/// The quote of the first market that holds an object.
fn leer_bolsas(simbolo: &String, bolsas: &Vec<Member>) -> (r: Option<Cotizacion>)
    ensures
        quote_model(r) == cotizacion_en_bolsas(simbolo@, bolsas@),
{
    let mut i: usize = 0;
    assert(bolsas@.skip(0) =~= bolsas@);
    while i < bolsas.len()
        invariant
            i <= bolsas.len(),
            cotizacion_en_bolsas(simbolo@, bolsas@) == cotizacion_en_bolsas(
                simbolo@,
                bolsas@.skip(i as int),
            ),
        decreases bolsas.len() - i,
    {
        proof {
            assert(bolsas@.skip(i as int).drop_first() =~= bolsas@.skip(i + 1));
            assert(bolsas@.skip(i as int).first() == bolsas@[i as int]);
        }
        match &bolsas[i].value {
            Json::Object(fields) => {
                return Some(
                    Cotizacion {
                        simbolo: simbolo.clone(),
                        ultimo_precio: read_millionths(fields, "u"),
                        precio_promedio: read_millionths(fields, "p"),
                        volumen: read_millionths(fields, "v"),
                        fecha: read_text(fields, "f"),
                    },
                );
            },
            _ => {},
        }
        i = i + 1;
    }
    assert(bolsas@.skip(i as int).len() == 0);
    None
}

/// Reads the answer to a request for quotes. The members of the document are the
/// securities, the members of a security its markets. The first market that holds
/// an object gives the quote; without one there is no quote.
pub fn leer_cotizacion(tickers: &Vec<Member>) -> (r: Option<Cotizacion>)
    ensures
        quote_model(r) == primera_cotizacion(tickers@),
{
    let mut i: usize = 0;
    assert(tickers@.skip(0) =~= tickers@);
    while i < tickers.len()
        invariant
            i <= tickers.len(),
            primera_cotizacion(tickers@) == primera_cotizacion(tickers@.skip(i as int)),
        decreases tickers.len() - i,
    {
        proof {
            assert(tickers@.skip(i as int).drop_first() =~= tickers@.skip(i + 1));
            assert(tickers@.skip(i as int).first() == tickers@[i as int]);
        }
        match &tickers[i].value {
            Json::Object(bolsas) => {
                let found = leer_bolsas(&tickers[i].key, bolsas);
                if found.is_some() {
                    return found;
                }
            },
            _ => {},
        }
        i = i + 1;
    }
    assert(tickers@.skip(i as int).len() == 0);
    None
}

/// The figures shown for one security. Prices and changes are in millionths of a
/// currency unit, the change in percent in millionths of a percent, the volume in
/// whole units.
#[derive(Clone, Copy, Debug, PartialEq, Eq, Structural)]
pub struct IntradiaData {
    pub price: i64,
    pub open: i64,
    pub high: i64,
    pub low: i64,
    pub volume: i64,
    pub change: i128,
    pub change_percent: i128,
}

/// A figure that may be absent, counted as 0 where it is.
pub open spec fn figure_or_zero(figure: Option<i64>) -> i64 {
    match figure {
        Some(f) => f,
        None => 0,
    }
}

/// A quantity in millionths as whole units, the fraction dropped.
pub open spec fn whole_units(millionths: i64) -> int {
    if millionths >= 0 {
        millionths as int / 1_000_000
    } else {
        -((-(millionths as int)) / 1_000_000)
    }
}

/// The figures for a security from its quote, if there is one, and the last price
/// before today, if the store has one.
///
/// The price is the last price of the quote, the opening price its average price,
/// each 0 where absent. Without an earlier price the opening price stands in for
/// the previous close. A price of 0 gives way to a positive previous close. The
/// change is the price less the previous close, and the change in percent is that
/// over the previous close, rounded down; both are 0 unless the previous close is
/// positive. High and low are not known and are 0.
pub open spec fn intradia_de(
    ultimo_precio: Option<i64>,
    precio_promedio: Option<i64>,
    volumen: Option<i64>,
    cierre_anterior: Option<i64>,
) -> IntradiaData {
    let open = figure_or_zero(precio_promedio);
    let previous = match cierre_anterior {
        Some(p) => p,
        None => open,
    };
    let quoted = figure_or_zero(ultimo_precio);
    let price = if quoted == 0 && previous > 0 {
        previous
    } else {
        quoted
    };
    IntradiaData {
        price,
        open,
        high: 0,
        low: 0,
        volume: whole_units(figure_or_zero(volumen)) as i64,
        change: if previous > 0 {
            (price - previous) as i128
        } else {
            0
        },
        change_percent: if previous > 0 {
            floor_div((price - previous) * (100 * PERCENT_SCALE), previous as int) as i128
        } else {
            0
        },
    }
}

/// The figures for a security from its quote and the last price before today.
pub fn calcular_intradia(cotizacion: &Option<Cotizacion>, cierre_anterior: Option<i64>) -> (r:
    IntradiaData)
    ensures
        r == (match cotizacion {
            Some(c) => intradia_de(c.ultimo_precio, c.precio_promedio, c.volumen, cierre_anterior),
            None => intradia_de(None, None, None, cierre_anterior),
        }),
{
    let (ultimo, promedio, volumen): (Option<i64>, Option<i64>, Option<i64>) = match cotizacion {
        Some(c) => (c.ultimo_precio, c.precio_promedio, c.volumen),
        None => (None, None, None),
    };
    let open: i64 = match promedio {
        Some(p) => p,
        None => 0,
    };
    let previous: i64 = match cierre_anterior {
        Some(p) => p,
        None => open,
    };
    let quoted: i64 = match ultimo {
        Some(p) => p,
        None => 0,
    };
    let price: i64 = if quoted == 0 && previous > 0 {
        previous
    } else {
        quoted
    };
    let traded: i64 = match volumen {
        Some(v) => v,
        None => 0,
    };
    let volume: i64 = if traded >= 0 {
        traded / PRICE_SCALE
    } else if traded == i64::MIN {
        -9_223_372_036_854
    } else {
        -((-traded) / PRICE_SCALE)
    };
    if previous > 0 {
        let change: i128 = price as i128 - previous as i128;
        let scaled: i128 = change * (100 * PERCENT_SCALE);
        IntradiaData {
            price,
            open,
            high: 0,
            low: 0,
            volume,
            change,
            change_percent: amount_div_floor(scaled, previous as i128),
        }
    } else {
        IntradiaData { price, open, high: 0, low: 0, volume, change: 0, change_percent: 0 }
    }
}

} // verus!
