//! The requests that the market data provider answers, as the addresses to ask at.
//! To fetch them is the caller's part.

use vstd::prelude::*;
use vstd::string::StringExecFns;
use crate::fechas::day_before;
use crate::fechas::local_now;
use crate::fechas::previous_day;
use crate::fechas::write_date;
use crate::fechas::written_date;
use crate::types::Date;

verus! {

/// Why a request for market data cannot be built.
#[derive(Clone, Copy, Debug, PartialEq, Eq, Structural)]
pub enum RequestError {
    /// No security was named.
    ListaVacia,
}

impl RequestError {
    /// The text shown for this failure.
    pub open spec fn message_text(self) -> Seq<char> {
        match self {
            RequestError::ListaVacia => "Lista de emisoras vacía"@,
        }
    }

    /// The text shown for this failure.
    pub fn message(&self) -> (text: String)
        ensures
            text@ == self.message_text(),
    {
        match self {
            RequestError::ListaVacia => String::from_str("Lista de emisoras vacía"),
        }
    }
}

/// An issuer found by a search: its registered name, its ticker and its series.
#[derive(Clone, Debug)]
pub struct EmisoraBusqueda {
    pub razon_social: String,
    pub emisoras: String,
    pub serie: String,
}

/// The texts of a list, as sequences of characters.
pub open spec fn texts(parts: Seq<&str>) -> Seq<Seq<char>> {
    parts.map_values(|p: &str| p@)
}

/// The texts of a list written one after the other with a comma between each two.
pub open spec fn comma_joined(parts: Seq<Seq<char>>) -> Seq<char>
    decreases parts.len(),
{
    if parts.len() == 0 {
        Seq::empty()
    } else if parts.len() == 1 {
        parts[0]
    } else {
        comma_joined(parts.drop_last()) + ","@ + parts.last()
    }
}

/// Writes the texts of a list one after the other with a comma between each two.
pub fn join_with_commas(parts: &[&str]) -> (joined: String)
    ensures
        joined@ == comma_joined(texts(parts@)),
{
    let ghost all = texts(parts@);
    let mut joined = String::new();
    let mut i: usize = 0;
    while i < parts.len()
        invariant
            i <= parts.len(),
            all == texts(parts@),
            joined@ == comma_joined(all.take(i as int)),
        decreases parts.len() - i,
    {
        proof {
            assert(all.take(i + 1).drop_last() =~= all.take(i as int));
            assert(all.take(i + 1).last() == parts@[i as int]@);
        }
        if i > 0 {
            joined.append(",");
        } else {
            assert(all.take(1)[0] == parts@[0]@);
            assert(joined@ + parts@[0]@ =~= parts@[0]@);
        }
        joined.append(parts[i]);
        i = i + 1;
    }
    assert(all.take(i as int) =~= all);
    joined
}

/// The key under which the provider serves this application.
pub fn api_token() -> (token: &'static str)
    ensures
        token@ == "10f433119085379e0dc544c3cd94e8"@,
{
    "10f433119085379e0dc544c3cd94e8"
}

/// The address of the hourly intraday prices of the securities named, between the
/// two dates given.
pub open spec fn intradia_url(emisoras: Seq<Seq<char>>, inicio: Seq<char>, final_: Seq<char>) -> Seq<
    char,
> {
    "https://api.databursatil.com/v2/intradia?token="@ + "10f433119085379e0dc544c3cd94e8"@
        + "&emisora_serie="@ + comma_joined(emisoras) + "&bolsa=BMV&intervalo=1h&inicio="@ + inicio
        + "&final="@ + final_
}

/// Builds the address to ask at for the hourly intraday prices of the securities
/// named, between the dates `inicio` and `final_`. A list without securities is
/// refused.
pub fn construir_url_intradia(emisoras: &[&str], inicio: &str, final_: &str) -> (r: Result<
    String,
    RequestError,
>)
    ensures
        match r {
            Ok(url) => emisoras@.len() > 0 && url@ == intradia_url(
                texts(emisoras@),
                inicio@,
                final_@,
            ),
            Err(e) => emisoras@.len() == 0 && e == RequestError::ListaVacia,
        },
{
    if emisoras.len() == 0 {
        return Err(RequestError::ListaVacia);
    }
    let emisoras_str = join_with_commas(emisoras);
    let mut url = String::from_str("https://api.databursatil.com/v2/intradia?token=");
    url.append(api_token());
    url.append("&emisora_serie=");
    url.append(emisoras_str.as_str());
    url.append("&bolsa=BMV&intervalo=1h&inicio=");
    url.append(inicio);
    url.append("&final=");
    url.append(final_);
    Ok(url)
}

/// The address of the catalogue of issuers.
pub open spec fn emisoras_url() -> Seq<char> {
    "https://api.databursatil.com/v2/emisoras?token="@ + "10f433119085379e0dc544c3cd94e8"@
}

/// Builds the address to ask at for the catalogue of issuers.
pub fn url_emisoras() -> (url: String)
    ensures
        url@ == emisoras_url(),
{
    let mut url = String::from_str("https://api.databursatil.com/v2/emisoras?token=");
    url.append(api_token());
    url
}

/// The address of the quote of one security on the BMV: its average price, its
/// volume and its last price.
pub open spec fn cotizaciones_url(emisora: Seq<char>) -> Seq<char> {
    "https://api.databursatil.com/v2/cotizaciones?token="@ + "10f433119085379e0dc544c3cd94e8"@
        + "&emisora_serie="@ + emisora + "&concepto=p,v,u&bolsa=bmv"@
}

/// Builds the address to ask at for the quote of one security.
pub fn url_cotizaciones(emisora: &str) -> (url: String)
    ensures
        url@ == cotizaciones_url(emisora@),
{
    let mut url = String::from_str("https://api.databursatil.com/v2/cotizaciones?token=");
    url.append(api_token());
    url.append("&emisora_serie=");
    url.append(emisora);
    url.append("&concepto=p,v,u&bolsa=bmv");
    url
}

/// The address of the five strongest movers of the local market on the day given,
/// by rise, fall, amount, volume and number of trades.
pub open spec fn top_url(fecha: Seq<char>) -> Seq<char> {
    "https://api.databursatil.com/v2/top?token="@ + "10f433119085379e0dc544c3cd94e8"@
        + "&variables=suben,bajan,importe,volumen,operaciones&bolsa=BMV&cantidad=5&mercado=local&inicio="@
        + fecha + "&final="@ + fecha
}

/// Builds the address to ask at for the strongest movers of one day.
pub fn url_top(fecha: &str) -> (url: String)
    ensures
        url@ == top_url(fecha@),
{
    let mut url = String::from_str("https://api.databursatil.com/v2/top?token=");
    url.append(api_token());
    url.append(
        "&variables=suben,bajan,importe,volumen,operaciones&bolsa=BMV&cantidad=5&mercado=local&inicio=",
    );
    url.append(fecha);
    url.append("&final=");
    url.append(fecha);
    url
}

/// The day whose movers are asked for at a given hour of a given day: before seven
/// in the morning the day before, where the calendar has one, and otherwise the
/// day itself.
pub open spec fn dia_de_consulta(hoy: Date, hora: u32, ayer: Option<Date>) -> Date {
    if hora < 7 {
        match ayer {
            Some(d) => d,
            None => hoy,
        }
    } else {
        hoy
    }
}

/// The address of the movers to ask for at a given hour of a given day, if the
/// calendar can write the day.
pub open spec fn top_url_at(hoy: Date, hora: u32) -> Option<Seq<char>> {
    match written_date(dia_de_consulta(hoy, hora, previous_day(hoy))) {
        Some(fecha) => Some(top_url(fecha)),
        None => None,
    }
}

/// Builds the address of the movers to ask for at a given hour of a given day: the
/// market opens in the morning, so before seven the movers of the day before are
/// asked for. Nothing is built where the three numbers of the day name no date.
pub fn url_top_para(hoy: Date, hora: u32) -> (r: Option<String>)
    ensures
        match r {
            Some(url) => top_url_at(hoy, hora) == Some(url@),
            None => top_url_at(hoy, hora) is None,
        },
{
    let dia = if hora < 7 {
        match day_before(hoy) {
            Some(d) => d,
            None => hoy,
        }
    } else {
        hoy
    };
    match write_date(dia) {
        Some(fecha) => Some(url_top(fecha.as_str())),
        None => None,
    }
}

/// Builds the address of the movers to ask for now, by the clock and the calendar
/// of this machine: it is the address for some day and some hour.
pub fn url_top_ahora() -> (r: Option<String>)
    ensures
        exists|hoy: Date, hora: u32|
            match r {
                Some(url) => #[trigger] top_url_at(hoy, hora) == Some(url@),
                None => top_url_at(hoy, hora) is None,
            },
{
    let (hoy, hora) = local_now();
    let r = url_top_para(hoy, hora);
    proof {
        let found = top_url_at(hoy, hora);
        assert(match r {
            Some(url) => found == Some(url@),
            None => found is None,
        });
    }
    r
}

/// The kinds of financial statement that the provider serves.
#[derive(Clone, Copy, Debug, PartialEq, Eq, Structural)]
pub enum Financiero {
    Flujos,
    Posicion,
    ResultadoTrimestre,
}

impl Financiero {
    /// The name under which the provider serves a kind of statement, which is also
    /// the member of the answer that holds it.
    pub open spec fn name(self) -> Seq<char> {
        match self {
            Financiero::Flujos => "flujos"@,
            Financiero::Posicion => "posicion"@,
            Financiero::ResultadoTrimestre => "resultado_trimestre"@,
        }
    }

    /// The name under which the provider serves this kind of statement.
    pub fn as_str(&self) -> (text: &'static str)
        ensures
            text@ == self.name(),
    {
        match self {
            Financiero::Flujos => "flujos",
            Financiero::Posicion => "posicion",
            Financiero::ResultadoTrimestre => "resultado_trimestre",
        }
    }
}

/// The address of one kind of financial statement of an issuer for one quarter.
pub open spec fn financieros_url(emisora: Seq<char>, trimestre: Seq<char>, tipo: Financiero) -> Seq<
    char,
> {
    "https://api.databursatil.com/v2/financieros?token="@ + "10f433119085379e0dc544c3cd94e8"@
        + "&emisora="@ + emisora + "&periodo="@ + trimestre + "&financieros="@ + tipo.name()
}

/// Builds the address to ask at for a financial statement.
pub fn url_financieros(emisora: &str, trimestre: &str, tipo: Financiero) -> (url: String)
    ensures
        url@ == financieros_url(emisora@, trimestre@, tipo),
{
    let mut url = String::from_str("https://api.databursatil.com/v2/financieros?token=");
    url.append(api_token());
    url.append("&emisora=");
    url.append(emisora);
    url.append("&periodo=");
    url.append(trimestre);
    url.append("&financieros=");
    url.append(tipo.as_str());
    url
}

/// The address of the four indices shown.
pub open spec fn indices_url() -> Seq<char> {
    "https://api.databursatil.com/v2/indices?token="@ + "10f433119085379e0dc544c3cd94e8"@
        + "&ticker=IPC,FTSEBIVA,SP500,DJIA"@
}

/// Builds the address to ask at for the indices.
pub fn url_indices() -> (url: String)
    ensures
        url@ == indices_url(),
{
    let mut url = String::from_str("https://api.databursatil.com/v2/indices?token=");
    url.append(api_token());
    url.append("&ticker=IPC,FTSEBIVA,SP500,DJIA");
    url
}

/// The address of the reference rates.
pub open spec fn tasas_url() -> Seq<char> {
    "https://api.databursatil.com/v2/tasas?token="@ + "10f433119085379e0dc544c3cd94e8"@
}

/// Builds the address to ask at for the reference rates.
pub fn url_tasas() -> (url: String)
    ensures
        url@ == tasas_url(),
{
    let mut url = String::from_str("https://api.databursatil.com/v2/tasas?token=");
    url.append(api_token());
    url
}

/// The address of the two exchange rates shown.
pub open spec fn divisas_url() -> Seq<char> {
    "https://api.databursatil.com/v2/divisas?token="@ + "10f433119085379e0dc544c3cd94e8"@
        + "&ticker=USDMXN,EURMXN"@
}

/// Builds the address to ask at for the exchange rates.
pub fn url_divisas() -> (url: String)
    ensures
        url@ == divisas_url(),
{
    let mut url = String::from_str("https://api.databursatil.com/v2/divisas?token=");
    url.append(api_token());
    url.append("&ticker=USDMXN,EURMXN");
    url
}

} // verus!
