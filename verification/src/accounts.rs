//! The users of the application and the portfolios they own.

use vstd::prelude::*;
use vstd::string::StringExecFns;
use crate::text::hex9;
use crate::text::to_hex9;

verus! {

/// A portfolio: its number in the store, its name, and the identifier under which
/// it is known outside the store.
#[derive(Clone, Debug)]
pub struct Portfolio {
    pub id: i32,
    pub nombre: String,
    pub id_hex: String,
}

/// A user of the application.
#[derive(Clone, Debug)]
pub struct Usuario {
    pub id: i32,
    pub nombre: String,
    pub email: Option<String>,
}

/// Why a portfolio is not created.
#[derive(Clone, Copy, Debug, PartialEq, Eq, Structural)]
pub enum AccountError {
    /// The user has a portfolio of that name already.
    NombreRepetido,
}

impl AccountError {
    /// The text shown for this failure.
    pub open spec fn message_text(self) -> Seq<char> {
        match self {
            AccountError::NombreRepetido => "Ya existe un portafolio con ese nombre. Por favor, elige otro."@,
        }
    }

    /// The text shown for this failure.
    pub fn message(&self) -> (text: String)
        ensures
            text@ == self.message_text(),
    {
        match self {
            AccountError::NombreRepetido => String::from_str(
                "Ya existe un portafolio con ese nombre. Por favor, elige otro.",
            ),
        }
    }
}

/// The name of the user that owns the portfolios created without naming a user.
pub fn usuario_por_defecto() -> (nombre: &'static str)
    ensures
        nombre@ == "MAKIMA"@,
{
    "MAKIMA"
}

/// Calls `rand::random::<u32>`. Nothing is claimed of the result: it is a number
/// drawn at random.
#[verifier::external_body]
fn random_u32() -> (n: u32)
{
    rand::random::<u32>()
}

/// The identifier made of a number: the number in nine hexadecimal digits.
pub fn id_hex_de(numero: u32) -> (id_hex: String)
    ensures
        id_hex@ == hex9(numero),
{
    to_hex9(numero)
}

/// A fresh identifier for a portfolio: a number drawn at random, in nine
/// hexadecimal digits.
pub fn add_portfolio() -> (id_hex: String)
    ensures
        exists|numero: u32| id_hex@ == #[trigger] hex9(numero),
{
    let numero: u32 = random_u32();
    let id_hex = id_hex_de(numero);
    assert(id_hex@ == hex9(numero));
    id_hex
}

/// The portfolio to store under a name, given whether the user has a portfolio of
/// that name already and the number that its identifier is made of. The number of
/// the portfolio in the store is 0 until the store has given it one.
pub fn portfolio_nuevo(nombre: String, ya_existe: bool, numero: u32) -> (r: Result<
    Portfolio,
    AccountError,
>)
    ensures
        match r {
            Err(e) => ya_existe && e == AccountError::NombreRepetido,
            Ok(p) => !ya_existe && p.id == 0 && p.nombre@ == nombre@ && p.id_hex@ == hex9(numero),
        },
{
    if ya_existe {
        Err(AccountError::NombreRepetido)
    } else {
        Ok(Portfolio { id: 0, nombre, id_hex: id_hex_de(numero) })
    }
}

/// The portfolio to store under a name, with an identifier drawn at random; refused
/// where the user has a portfolio of that name already.
pub fn create_portfolio(nombre: String, ya_existe: bool) -> (r: Result<Portfolio, AccountError>)
    ensures
        match r {
            Err(e) => ya_existe && e == AccountError::NombreRepetido,
            Ok(p) => !ya_existe && p.id == 0 && p.nombre@ == nombre@ && exists|numero: u32|
                p.id_hex@ == #[trigger] hex9(numero),
        },
{
    if ya_existe {
        return Err(AccountError::NombreRepetido);
    }
    let numero: u32 = random_u32();
    let r = portfolio_nuevo(nombre, false, numero);
    proof {
        if r is Ok {
            assert(r->Ok_0.id_hex@ == hex9(numero));
        }
    }
    r
}

/// The number under which a ticker stands in a list of the tickers of a portfolio:
/// that of the first line with that ticker.
pub open spec fn id_de_ticker(tickers: Seq<(i32, String, String, String)>, ticker: Seq<char>) -> Option<
    i32,
>
    decreases tickers.len(),
{
    if tickers.len() == 0 {
        None
    } else if tickers.first().1@ == ticker {
        Some(tickers.first().0)
    } else {
        id_de_ticker(tickers.drop_first(), ticker)
    }
}

/// Looks a ticker up in the list of the tickers of a portfolio, each line a number,
/// a ticker, an issuer and a series.
pub fn buscar_ticker(tickers: &Vec<(i32, String, String, String)>, ticker: &str) -> (r: Option<i32>)
    ensures
        r == id_de_ticker(tickers@, ticker@),
{
    let wanted = String::from_str(ticker);
    let mut i: usize = 0;
    assert(tickers@.skip(0) =~= tickers@);
    while i < tickers.len()
        invariant
            i <= tickers.len(),
            wanted@ == ticker@,
            id_de_ticker(tickers@, ticker@) == id_de_ticker(tickers@.skip(i as int), ticker@),
        decreases tickers.len() - i,
    {
        proof {
            assert(tickers@.skip(i as int).drop_first() =~= tickers@.skip(i + 1));
            assert(tickers@.skip(i as int).first() == tickers@[i as int]);
        }
        if tickers[i].1 == wanted {
            return Some(tickers[i].0);
        }
        i = i + 1;
    }
    assert(tickers@.skip(i as int).len() == 0);
    None
}

} // verus!
