//! Intraday prices: the provider's answer, a document of securities and of prices
//! under the time at which each was quoted, is read into the rows that the store
//! keeps.

use vstd::prelude::*;
use crate::fechas::FechaHora;
use crate::fechas::parse_date_time;
use crate::fechas::parsed_date_time;
use crate::json::Json;
use crate::json::JsonNumber;
use crate::json::Member;

verus! {

/// One intraday price: the security, the time of the quote, and the price as the
/// document gives it.
#[derive(Debug)]
pub struct PrecioIntradia<'a> {
    pub emisora: String,
    pub fecha_hora: FechaHora,
    pub precio: &'a JsonNumber,
}

/// An intraday price as the decoding reasons about it.
pub struct PrecioModel {
    pub emisora: Seq<char>,
    pub fecha_hora: FechaHora,
    pub precio: JsonNumber,
}

impl<'a> View for PrecioIntradia<'a> {
    type V = PrecioModel;

    open spec fn view(&self) -> PrecioModel {
        PrecioModel { emisora: self.emisora@, fecha_hora: self.fecha_hora, precio: *self.precio }
    }
}

/// The views of a list of prices, in the order of the list.
pub open spec fn precio_models(precios: Seq<PrecioIntradia>) -> Seq<PrecioModel> {
    precios.map_values(|p: PrecioIntradia| p@)
}

/// What has been read of an answer: the prices so far, and the time that could not
/// be read, once there is one. Reading stops there.
pub struct Lectura {
    pub precios: Seq<PrecioModel>,
    pub fecha_invalida: Option<Seq<char>>,
}

/// What has been read after one more member of a security: a member that holds a
/// number gives a price under the time that its key names, or stops the reading
/// where the key names no time; any other member is passed over.
pub open spec fn leer_punto(emisora: Seq<char>, punto: Member, leido: Lectura) -> Lectura {
    match punto.value {
        Json::Number(n) => match parsed_date_time(punto.key@) {
            Some(at) => Lectura {
                precios: leido.precios.push(
                    PrecioModel { emisora, fecha_hora: at, precio: n },
                ),
                fecha_invalida: None,
            },
            None => Lectura { precios: leido.precios, fecha_invalida: Some(punto.key@) },
        },
        _ => leido,
    }
}

/// What has been read after the members of one security, taken in order.
pub open spec fn leer_puntos(emisora: Seq<char>, puntos: Seq<Member>, leido: Lectura) -> Lectura
    decreases puntos.len(),
{
    if leido.fecha_invalida is Some || puntos.len() == 0 {
        leido
    } else {
        leer_puntos(emisora, puntos.drop_first(), leer_punto(emisora, puntos.first(), leido))
    }
}

/// What has been read after one security: its members where it holds an object.
pub open spec fn leer_emisora(entrada: Member, leido: Lectura) -> Lectura {
    match entrada.value {
        Json::Object(puntos) => leer_puntos(entrada.key@, puntos@, leido),
        _ => leido,
    }
}

/// What has been read after the securities of an answer, taken in order.
pub open spec fn leer_emisoras(tickers: Seq<Member>, leido: Lectura) -> Lectura
    decreases tickers.len(),
{
    if leido.fecha_invalida is Some || tickers.len() == 0 {
        leido
    } else {
        leer_emisoras(tickers.drop_first(), leer_emisora(tickers.first(), leido))
    }
}

/// What an answer holds: the prices to store, and the time that could not be read,
/// if there was one.
#[derive(Debug)]
pub struct IntradiaLeido<'a> {
    pub precios: Vec<PrecioIntradia<'a>>,
    pub fecha_invalida: Option<String>,
}

impl<'a> View for IntradiaLeido<'a> {
    type V = Lectura;

    open spec fn view(&self) -> Lectura {
        Lectura {
            precios: precio_models(self.precios@),
            fecha_invalida: match self.fecha_invalida {
                Some(t) => Some(t@),
                None => None,
            },
        }
    }
}

/// Reads the members of one security.
fn leer_serie<'a>(leido: &mut IntradiaLeido<'a>, emisora: &String, puntos: &'a Vec<Member>)
    requires
        old(leido).fecha_invalida is None,
    ensures
        final(leido)@ == leer_puntos(emisora@, puntos@, old(leido)@),
{
    let mut i: usize = 0;
    assert(puntos@.skip(0) =~= puntos@);
    while i < puntos.len()
        invariant
            i <= puntos.len(),
            leido.fecha_invalida is None,
            leer_puntos(emisora@, puntos@, old(leido)@) == leer_puntos(
                emisora@,
                puntos@.skip(i as int),
                leido@,
            ),
        decreases puntos.len() - i,
    {
        proof {
            assert(puntos@.skip(i as int).drop_first() =~= puntos@.skip(i + 1));
            assert(puntos@.skip(i as int).first() == puntos@[i as int]);
        }
        let punto = &puntos[i];
        match &punto.value {
            Json::Number(n) => {
                let ghost before = leido@;
                match parse_date_time(punto.key.as_str()) {
                    Ok(at) => {
                        leido.precios.push(
                            PrecioIntradia { emisora: emisora.clone(), fecha_hora: at, precio: n },
                        );
                        assert(leido@.precios =~= leer_punto(emisora@, *punto, before).precios);
                    },
                    Err(_) => {
                        leido.fecha_invalida = Some(punto.key.clone());
                        assert(leido@.precios =~= before.precios);
                        assert(leido@ == leer_punto(emisora@, *punto, before));
                        assert(leer_puntos(emisora@, puntos@.skip(i + 1), leido@) == leido@);
                        return ;
                    },
                }
            },
            _ => {},
        }
        i = i + 1;
    }
    assert(puntos@.skip(i as int).len() == 0);
}

/// Reads the answer to a request for intraday prices. The members of the document
/// are the securities; the members of a security that hold a number are its
/// prices, each under the time of its quote. The prices come in the order of the
/// document. A time that the calendar cannot read ends the reading: the prices
/// before it stand, and the text of the time is handed back.
pub fn leer_intradia<'a>(tickers: &'a Vec<Member>) -> (leido: IntradiaLeido<'a>)
    ensures
        leido@ == leer_emisoras(
            tickers@,
            Lectura { precios: Seq::empty(), fecha_invalida: None },
        ),
{
    let mut leido = IntradiaLeido { precios: Vec::new(), fecha_invalida: None };
    let ghost nada = Lectura { precios: Seq::empty(), fecha_invalida: None };
    let mut i: usize = 0;
    assert(tickers@.skip(0) =~= tickers@);
    assert(leido@.precios =~= nada.precios);
    while i < tickers.len()
        invariant
            i <= tickers.len(),
            leido.fecha_invalida is None,
            nada == (Lectura { precios: Seq::empty(), fecha_invalida: None }),
            leer_emisoras(tickers@, nada) == leer_emisoras(tickers@.skip(i as int), leido@),
        decreases tickers.len() - i,
    {
        proof {
            assert(tickers@.skip(i as int).drop_first() =~= tickers@.skip(i + 1));
            assert(tickers@.skip(i as int).first() == tickers@[i as int]);
        }
        match &tickers[i].value {
            Json::Object(puntos) => {
                let ghost before = leido@;
                leer_serie(&mut leido, &tickers[i].key, puntos);
                assert(leido@ == leer_emisora(tickers@[i as int], before));
                if leido.fecha_invalida.is_some() {
                    assert(leer_emisoras(tickers@.skip(i + 1), leido@) == leido@);
                    return leido;
                }
            },
            _ => {},
        }
        i = i + 1;
    }
    assert(tickers@.skip(i as int).len() == 0);
    leido
}

} // verus!
