//! The catalogue of issuers: the provider's answer, a document of tickers, series and
//! issuer data, is read into the rows that the store keeps.

use vstd::prelude::*;
use vstd::string::StringExecFns;
use crate::json::Json;
use crate::json::Member;
use crate::json::find_member;
use crate::json::member_value;
use crate::text::lower_case;
use crate::text::to_lower_case;

verus! {

/// What the provider tells of one issuer. `dividendos` is the part of the document
/// that lists its dividends, as it stands there.
#[derive(Debug)]
pub struct Emisora<'a> {
    pub razon_social: String,
    pub isin: String,
    pub bolsa: String,
    pub tipo_valor: Option<String>,
    pub tipo_valor_id: String,
    pub estatus: String,
    pub acciones_circulacion: Option<i64>,
    pub rangos_historicos: Option<String>,
    pub rangos_financieros: Option<String>,
    pub dividendos: Option<&'a Json>,
}

/// An issuer as the decoding reasons about it.
pub struct EmisoraModel {
    pub razon_social: Seq<char>,
    pub isin: Seq<char>,
    pub bolsa: Seq<char>,
    pub tipo_valor: Option<Seq<char>>,
    pub tipo_valor_id: Seq<char>,
    pub estatus: Seq<char>,
    pub acciones_circulacion: Option<i64>,
    pub rangos_historicos: Option<Seq<char>>,
    pub rangos_financieros: Option<Seq<char>>,
    pub dividendos: Option<Json>,
}

/// The text of an optional text.
pub open spec fn optional_text(text: Option<String>) -> Option<Seq<char>> {
    match text {
        Some(t) => Some(t@),
        None => None,
    }
}

/// What an optional reference refers to.
pub open spec fn referred(value: Option<&Json>) -> Option<Json> {
    match value {
        Some(v) => Some(*v),
        None => None,
    }
}

impl<'a> View for Emisora<'a> {
    type V = EmisoraModel;

    open spec fn view(&self) -> EmisoraModel {
        EmisoraModel {
            razon_social: self.razon_social@,
            isin: self.isin@,
            bolsa: self.bolsa@,
            tipo_valor: optional_text(self.tipo_valor),
            tipo_valor_id: self.tipo_valor_id@,
            estatus: self.estatus@,
            acciones_circulacion: self.acciones_circulacion,
            rangos_historicos: optional_text(self.rangos_historicos),
            rangos_financieros: optional_text(self.rangos_financieros),
            dividendos: referred(self.dividendos),
        }
    }
}

/// The text of the member `key`, where that member is a string.
pub open spec fn text_at(fields: Seq<Member>, key: Seq<char>) -> Option<Seq<char>> {
    match member_value(fields, key) {
        Some(v) => v.text(),
        None => None,
    }
}

/// The text of the member `key`, and the empty text where there is no such member
/// or it is no string.
pub open spec fn text_or_empty_at(fields: Seq<Member>, key: Seq<char>) -> Seq<char> {
    match text_at(fields, key) {
        Some(t) => t,
        None => Seq::empty(),
    }
}

/// The whole number of the member `key`, where that member is one.
pub open spec fn integer_at(fields: Seq<Member>, key: Seq<char>) -> Option<i64> {
    match member_value(fields, key) {
        Some(v) => v.integer(),
        None => None,
    }
}

/// The issuer that the members of an object describe.
pub open spec fn emisora_de(fields: Seq<Member>) -> EmisoraModel {
    EmisoraModel {
        razon_social: text_or_empty_at(fields, "razon_social"@),
        isin: text_or_empty_at(fields, "isin"@),
        bolsa: text_or_empty_at(fields, "bolsa"@),
        tipo_valor: text_at(fields, "tipo_valor_descripcion"@),
        tipo_valor_id: text_or_empty_at(fields, "tipo_valor_id"@),
        estatus: text_or_empty_at(fields, "estatus"@),
        acciones_circulacion: integer_at(fields, "acciones_en_circulacion"@),
        rangos_historicos: text_at(fields, "rango_historicos"@),
        rangos_financieros: text_at(fields, "rango_financieros"@),
        dividendos: member_value(fields, "dividendos"@),
    }
}

/// The text of the member `key`, where that member is a string.
pub fn read_text(fields: &Vec<Member>, key: &str) -> (r: Option<String>)
    ensures
        optional_text(r) == text_at(fields@, key@),
{
    match find_member(fields, key) {
        Some(v) => match v.as_str() {
            Some(t) => Some(String::from_str(t)),
            None => None,
        },
        None => None,
    }
}

/// The text of the member `key`, or the empty text.
pub fn read_text_or_empty(fields: &Vec<Member>, key: &str) -> (r: String)
    ensures
        r@ == text_or_empty_at(fields@, key@),
{
    match read_text(fields, key) {
        Some(t) => t,
        None => String::new(),
    }
}

/// The whole number of the member `key`, where that member is one.
pub fn read_integer(fields: &Vec<Member>, key: &str) -> (r: Option<i64>)
    ensures
        r == integer_at(fields@, key@),
{
    match find_member(fields, key) {
        Some(v) => v.as_i64(),
        None => None,
    }
}

/// Reads the data of one issuer from the members of its object. A text that is
/// missing, or is no string, is read as empty where the store wants a text and as
/// absent where it does not.
pub fn leer_emisora<'a>(fields: &'a Vec<Member>) -> (emisora: Emisora<'a>)
    ensures
        emisora@ == emisora_de(fields@),
{
    Emisora {
        razon_social: read_text_or_empty(fields, "razon_social"),
        isin: read_text_or_empty(fields, "isin"),
        bolsa: read_text_or_empty(fields, "bolsa"),
        tipo_valor: read_text(fields, "tipo_valor_descripcion"),
        tipo_valor_id: read_text_or_empty(fields, "tipo_valor_id"),
        estatus: read_text_or_empty(fields, "estatus"),
        acciones_circulacion: read_integer(fields, "acciones_en_circulacion"),
        rangos_historicos: read_text(fields, "rango_historicos"),
        rangos_financieros: read_text(fields, "rango_financieros"),
        dividendos: find_member(fields, "dividendos"),
    }
}

/// A row of the catalogue: the data of an issuer under its ticker and series.
#[derive(Debug)]
pub struct RegistroEmisora<'a> {
    pub ticker: String,
    pub serie: String,
    pub emisora: Emisora<'a>,
}

/// A row of the catalogue as the decoding reasons about it.
pub struct RegistroModel {
    pub ticker: Seq<char>,
    pub serie: Seq<char>,
    pub emisora: EmisoraModel,
}

impl<'a> View for RegistroEmisora<'a> {
    type V = RegistroModel;

    open spec fn view(&self) -> RegistroModel {
        RegistroModel { ticker: self.ticker@, serie: self.serie@, emisora: self.emisora@ }
    }
}

/// The views of a list of rows, in the order of the list.
pub open spec fn registro_models(rows: Seq<RegistroEmisora>) -> Seq<RegistroModel> {
    rows.map_values(|r: RegistroEmisora| r@)
}

/// The rows that one value of a list gives: one row where it is an object.
pub open spec fn registros_de_objeto(ticker: Seq<char>, serie: Seq<char>, v: Json) -> Seq<
    RegistroModel,
> {
    match v {
        Json::Object(fields) => seq![RegistroModel { ticker, serie, emisora: emisora_de(fields@) }],
        _ => Seq::empty(),
    }
}

/// The rows that the values of a list give, in the order of the list.
pub open spec fn registros_de_lista(ticker: Seq<char>, serie: Seq<char>, items: Seq<Json>) -> Seq<
    RegistroModel,
>
    decreases items.len(),
{
    if items.len() == 0 {
        Seq::empty()
    } else {
        registros_de_lista(ticker, serie, items.drop_last()) + registros_de_objeto(
            ticker,
            serie,
            items.last(),
        )
    }
}

/// The rows that one series gives: a row for each object of a list, where the series
/// holds a list; one row, where it holds an object; none otherwise.
pub open spec fn registros_de_serie(ticker: Seq<char>, serie: Seq<char>, v: Json) -> Seq<
    RegistroModel,
> {
    match v {
        Json::Array(items) => registros_de_lista(ticker, serie, items@),
        _ => registros_de_objeto(ticker, serie, v),
    }
}

/// The rows that the series of one ticker give, in the order of the series.
pub open spec fn registros_de_series(ticker: Seq<char>, series: Seq<Member>) -> Seq<RegistroModel>
    decreases series.len(),
{
    if series.len() == 0 {
        Seq::empty()
    } else {
        registros_de_series(ticker, series.drop_last()) + registros_de_serie(
            ticker,
            series.last().key@,
            series.last().value,
        )
    }
}

/// The rows that one ticker gives: those of its series, where it holds an object.
pub open spec fn registros_de_ticker(entrada: Member) -> Seq<RegistroModel> {
    match entrada.value {
        Json::Object(series) => registros_de_series(entrada.key@, series@),
        _ => Seq::empty(),
    }
}

/// The rows of the whole answer, in the order of its tickers.
pub open spec fn registros_de_respuesta(tickers: Seq<Member>) -> Seq<RegistroModel>
    decreases tickers.len(),
{
    if tickers.len() == 0 {
        Seq::empty()
    } else {
        registros_de_respuesta(tickers.drop_last()) + registros_de_ticker(tickers.last())
    }
}

/// The tickers of the answer that hold no object, in the order of the answer. Each
/// counts as one failure.
pub open spec fn tickers_sin_objeto(tickers: Seq<Member>) -> Seq<Seq<char>>
    decreases tickers.len(),
{
    if tickers.len() == 0 {
        Seq::empty()
    } else if tickers.last().value is Object {
        tickers_sin_objeto(tickers.drop_last())
    } else {
        tickers_sin_objeto(tickers.drop_last()).push(tickers.last().key@)
    }
}

/// What the answer of the catalogue holds: the rows to store, and the tickers that
/// held nothing to read.
#[derive(Debug)]
pub struct Catalogo<'a> {
    pub registros: Vec<RegistroEmisora<'a>>,
    pub sin_objeto: Vec<String>,
}

/// The texts of a list of strings.
pub open spec fn string_texts(items: Seq<String>) -> Seq<Seq<char>> {
    items.map_values(|s: String| s@)
}

/// Adds the row of one object to the rows, where the value is an object.
fn push_objeto<'a>(
    registros: &mut Vec<RegistroEmisora<'a>>,
    ticker: &String,
    serie: &String,
    v: &'a Json,
)
    ensures
        registro_models(final(registros)@) == registro_models(old(registros)@) + registros_de_objeto(
            ticker@,
            serie@,
            *v,
        ),
{
    let ghost before = registro_models(registros@);
    match v {
        Json::Object(fields) => {
            registros.push(
                RegistroEmisora {
                    ticker: ticker.clone(),
                    serie: serie.clone(),
                    emisora: leer_emisora(fields),
                },
            );
            assert(registro_models(registros@) =~= before + registros_de_objeto(ticker@, serie@, *v));
        },
        _ => {
            assert(registro_models(registros@) =~= before + registros_de_objeto(ticker@, serie@, *v));
        },
    }
}

/// Adds the rows of one series to the rows.
fn push_serie<'a>(
    registros: &mut Vec<RegistroEmisora<'a>>,
    ticker: &String,
    serie: &String,
    v: &'a Json,
)
    ensures
        registro_models(final(registros)@) == registro_models(old(registros)@) + registros_de_serie(
            ticker@,
            serie@,
            *v,
        ),
{
    let ghost before = registro_models(registros@);
    match v {
        Json::Array(items) => {
            let mut i: usize = 0;
            assert(registro_models(registros@) =~= before + registros_de_lista(
                ticker@,
                serie@,
                items@.take(0),
            ));
            while i < items.len()
                invariant
                    i <= items.len(),
                    registro_models(registros@) == before + registros_de_lista(
                        ticker@,
                        serie@,
                        items@.take(i as int),
                    ),
                decreases items.len() - i,
            {
                assert(items@.take(i + 1).drop_last() =~= items@.take(i as int));
                let ghost so_far = registro_models(registros@);
                push_objeto(registros, ticker, serie, &items[i]);
                assert(registro_models(registros@) =~= before + registros_de_lista(
                    ticker@,
                    serie@,
                    items@.take(i + 1),
                ));
                i = i + 1;
            }
            assert(items@.take(i as int) =~= items@);
        },
        _ => {
            push_objeto(registros, ticker, serie, v);
        },
    }
}

/// Reads the answer of the catalogue: the members of the document are the tickers,
/// the members of a ticker its series, and a series holds the data of one issuer or
/// a list of such data. Every object found gives one row, in the order of the
/// document. A ticker that holds no object gives no row and is reported.
pub fn leer_catalogo<'a>(tickers: &'a Vec<Member>) -> (catalogo: Catalogo<'a>)
    ensures
        registro_models(catalogo.registros@) == registros_de_respuesta(tickers@),
        string_texts(catalogo.sin_objeto@) == tickers_sin_objeto(tickers@),
{
    let mut registros: Vec<RegistroEmisora<'a>> = Vec::new();
    let mut sin_objeto: Vec<String> = Vec::new();
    let mut i: usize = 0;
    assert(registro_models(registros@) =~= registros_de_respuesta(tickers@.take(0)));
    assert(string_texts(sin_objeto@) =~= tickers_sin_objeto(tickers@.take(0)));
    while i < tickers.len()
        invariant
            i <= tickers.len(),
            registro_models(registros@) == registros_de_respuesta(tickers@.take(i as int)),
            string_texts(sin_objeto@) == tickers_sin_objeto(tickers@.take(i as int)),
        decreases tickers.len() - i,
    {
        let entrada = &tickers[i];
        assert(tickers@.take(i + 1).drop_last() =~= tickers@.take(i as int));
        assert(tickers@.take(i + 1).last() == *entrada);
        match &entrada.value {
            Json::Object(series) => {
                let ghost before = registro_models(registros@);
                let mut k: usize = 0;
                assert(registro_models(registros@) =~= before + registros_de_series(
                    entrada.key@,
                    series@.take(0),
                ));
                while k < series.len()
                    invariant
                        k <= series.len(),
                        registro_models(registros@) == before + registros_de_series(
                            entrada.key@,
                            series@.take(k as int),
                        ),
                    decreases series.len() - k,
                {
                    assert(series@.take(k + 1).drop_last() =~= series@.take(k as int));
                    push_serie(&mut registros, &entrada.key, &series[k].key, &series[k].value);
                    assert(registro_models(registros@) =~= before + registros_de_series(
                        entrada.key@,
                        series@.take(k + 1),
                    ));
                    k = k + 1;
                }
                assert(series@.take(k as int) =~= series@);
            },
            _ => {
                let ghost before = string_texts(sin_objeto@);
                sin_objeto.push(entrada.key.clone());
                assert(string_texts(sin_objeto@) =~= before.push(entrada.key@));
                assert(registro_models(registros@) =~= registros_de_respuesta(tickers@.take(i + 1)));
            },
        }
        i = i + 1;
    }
    assert(tickers@.take(i as int) =~= tickers@);
    Catalogo { registros, sin_objeto }
}

/// What the store is to do with a row of the catalogue.
#[derive(Clone, Copy, Debug, PartialEq, Eq, Structural)]
pub enum Guardado {
    Insertar,
    Actualizar,
}

/// What the store is to do with a row: update it where the store holds a row for
/// the same ticker and series, and insert it where it holds none.
pub fn guardado_para(existe: bool) -> (g: Guardado)
    ensures
        g == (if existe {
            Guardado::Actualizar
        } else {
            Guardado::Insertar
        }),
{
    if existe {
        Guardado::Actualizar
    } else {
        Guardado::Insertar
    }
}

/// The pattern that finds an issuer by a part of its name or of its ticker: the text
/// asked for in lower case, with a sign for any text before and after it.
pub open spec fn patron_de(query: Seq<char>) -> Seq<char> {
    "%"@ + lower_case(query) + "%"@
}

/// Builds the pattern under which the store is searched for issuers.
pub fn patron_de_busqueda(query: &str) -> (patron: String)
    ensures
        patron@ == patron_de(query@),
{
    let mut patron = String::from_str("%");
    patron.append(to_lower_case(query).as_str());
    patron.append("%");
    patron
}

/// The key under which the quote of an issuer is asked for: its ticker followed by
/// its series.
pub fn clave_de_cotizacion(emisoras: &str, serie: &str) -> (clave: String)
    ensures
        clave@ == emisoras@ + serie@,
{
    let mut clave = String::from_str(emisoras);
    clave.append(serie);
    clave
}

} // verus!
