//! Finding the rows of the catalogue of issuers that repeat an earlier row. Each
//! function is handed rows as the store holds them and names the rows to delete.

use vstd::prelude::*;
use vstd::string::StringExecFns;
use crate::text::to_upper_case;
use crate::text::trim_text;
use crate::text::trimmed;
use crate::text::upper_case;

verus! {

/// A row of the catalogue as far as the search for repeats reads it: the place of
/// the row in the store, and the ticker, the series and the ISIN of the issuer.
#[derive(Clone, Debug)]
pub struct FilaEmisora {
    pub ctid: String,
    pub emisoras: String,
    pub serie: String,
    pub isin: String,
}

/// The texts of a list of strings.
pub open spec fn textos(items: Seq<String>) -> Seq<Seq<char>> {
    items.map_values(|s: String| s@)
}

/// A list without its first item; the empty list where it has none.
pub open spec fn sin_el_primero(items: Seq<Seq<char>>) -> Seq<Seq<char>> {
    if items.len() == 0 {
        items
    } else {
        items.skip(1)
    }
}

/// Names the rows to delete from the rows that share one ISIN: all but the first.
pub fn eliminar_duplicados_isin(ctids: &Vec<String>) -> (sobrantes: Vec<String>)
    ensures
        textos(sobrantes@) == sin_el_primero(textos(ctids@)),
{
    let mut sobrantes: Vec<String> = Vec::new();
    let mut i: usize = 1;
    if ctids.len() == 0 {
        assert(textos(sobrantes@) =~= sin_el_primero(textos(ctids@)));
        return sobrantes;
    }
    assert(textos(sobrantes@) =~= textos(ctids@).subrange(1, 1));
    while i < ctids.len()
        invariant
            1 <= i <= ctids.len(),
            textos(sobrantes@) == textos(ctids@).subrange(1, i as int),
        decreases ctids.len() - i,
    {
        let ghost before = textos(sobrantes@);
        sobrantes.push(ctids[i].clone());
        assert(textos(sobrantes@) =~= before.push(ctids@[i as int]@));
        assert(textos(ctids@).subrange(1, i + 1) =~= textos(ctids@).subrange(1, i as int).push(
            ctids@[i as int]@,
        ));
        i = i + 1;
    }
    assert(textos(ctids@).subrange(1, i as int) =~= textos(ctids@).skip(1));
    sobrantes
}

/// Whether two rows name the same issuer: ticker, series and ISIN are the same.
pub open spec fn misma_emisora(a: FilaEmisora, b: FilaEmisora) -> bool {
    a.emisoras@ == b.emisoras@ && a.serie@ == b.serie@ && a.isin@ == b.isin@
}

/// The places of the rows that name the same issuer as the row just before them.
pub open spec fn repetidas_seguidas(filas: Seq<FilaEmisora>) -> Seq<Seq<char>>
    decreases filas.len(),
{
    if filas.len() < 2 {
        Seq::empty()
    } else if misma_emisora(filas[filas.len() - 2], filas.last()) {
        repetidas_seguidas(filas.drop_last()).push(filas.last().ctid@)
    } else {
        repetidas_seguidas(filas.drop_last())
    }
}

/// Names the rows to delete from rows that the store hands over in the order of
/// ticker, series and ISIN: every row that names the same issuer as the row before
/// it. Of a run of equal rows the first is kept.
pub fn eliminar_duplicados_emisoras_iterativo(filas: &Vec<FilaEmisora>) -> (borrar: Vec<String>)
    ensures
        textos(borrar@) == repetidas_seguidas(filas@),
{
    let mut borrar: Vec<String> = Vec::new();
    if filas.len() < 2 {
        assert(textos(borrar@) =~= repetidas_seguidas(filas@));
        return borrar;
    }
    let mut i: usize = 1;
    assert(textos(borrar@) =~= repetidas_seguidas(filas@.take(1)));
    while i < filas.len()
        invariant
            1 <= i <= filas.len(),
            textos(borrar@) == repetidas_seguidas(filas@.take(i as int)),
        decreases filas.len() - i,
    {
        proof {
            assert(filas@.take(i + 1).drop_last() =~= filas@.take(i as int));
        }
        let anterior = &filas[i - 1];
        let fila = &filas[i];
        let ghost before = textos(borrar@);
        if fila.emisoras == anterior.emisoras && fila.serie == anterior.serie && fila.isin
            == anterior.isin {
            borrar.push(fila.ctid.clone());
            assert(textos(borrar@) =~= before.push(fila.ctid@));
        }
        i = i + 1;
    }
    assert(filas@.take(i as int) =~= filas@);
    borrar
}

/// Of rows given as a key and a place each, the places of the rows whose key stands
/// in an earlier row.
pub open spec fn repetidas(claves: Seq<Seq<char>>, ctids: Seq<Seq<char>>) -> Seq<Seq<char>>
    decreases claves.len(),
{
    if claves.len() == 0 || ctids.len() != claves.len() {
        Seq::empty()
    } else if claves.drop_last().contains(claves.last()) {
        repetidas(claves.drop_last(), ctids.drop_last()).push(ctids.last())
    } else {
        repetidas(claves.drop_last(), ctids.drop_last())
    }
}

/// Whether a text stands in a list.
fn contiene(vistos: &Vec<String>, clave: &String) -> (r: bool)
    ensures
        r == textos(vistos@).contains(clave@),
{
    let mut i: usize = 0;
    while i < vistos.len()
        invariant
            i <= vistos.len(),
            forall|k: int| 0 <= k < i ==> textos(vistos@)[k] != clave@,
        decreases vistos.len() - i,
    {
        if vistos[i] == *clave {
            assert(textos(vistos@)[i as int] == clave@);
            return true;
        }
        i = i + 1;
    }
    false
}

/// The places of the rows whose key stands in an earlier row.
fn buscar_repetidas(claves: &Vec<String>, ctids: &Vec<String>) -> (borrar: Vec<String>)
    requires
        claves.len() == ctids.len(),
    ensures
        textos(borrar@) == repetidas(textos(claves@), textos(ctids@)),
{
    let mut borrar: Vec<String> = Vec::new();
    let mut vistos: Vec<String> = Vec::new();
    let mut i: usize = 0;
    assert(textos(borrar@) =~= repetidas(textos(claves@).take(0), textos(ctids@).take(0)));
    while i < claves.len()
        invariant
            i <= claves.len(),
            claves.len() == ctids.len(),
            textos(vistos@) =~= textos(claves@).take(i as int),
            textos(borrar@) == repetidas(textos(claves@).take(i as int), textos(ctids@).take(i as int)),
        decreases claves.len() - i,
    {
        proof {
            assert(textos(claves@).take(i + 1).drop_last() =~= textos(claves@).take(i as int));
            assert(textos(ctids@).take(i + 1).drop_last() =~= textos(ctids@).take(i as int));
        }
        let ghost before = textos(borrar@);
        if contiene(&vistos, &claves[i]) {
            borrar.push(ctids[i].clone());
            assert(textos(borrar@) =~= before.push(ctids@[i as int]@));
        }
        vistos.push(claves[i].clone());
        i = i + 1;
    }
    assert(textos(claves@).take(i as int) =~= textos(claves@));
    assert(textos(ctids@).take(i as int) =~= textos(ctids@));
    borrar
}

/// The key under which a row is compared: ticker, series and ISIN, each without the
/// white space at its ends, with a bar between them.
pub open spec fn clave_de_fila(fila: FilaEmisora) -> Seq<char> {
    trimmed(fila.emisoras@) + "|"@ + trimmed(fila.serie@) + "|"@ + trimmed(fila.isin@)
}

/// The places of a list of rows.
pub open spec fn lugares(filas: Seq<FilaEmisora>) -> Seq<Seq<char>> {
    filas.map_values(|f: FilaEmisora| f.ctid@)
}

/// Names the rows to delete from rows in any order: every row whose key, made of
/// ticker, series and ISIN without the white space at their ends, stands in an
/// earlier row.
pub fn eliminar_duplicados_emisoras_hashset(filas: &Vec<FilaEmisora>) -> (borrar: Vec<String>)
    ensures
        textos(borrar@) == repetidas(
            filas@.map_values(|f: FilaEmisora| clave_de_fila(f)),
            lugares(filas@),
        ),
{
    let ghost todas = filas@.map_values(|f: FilaEmisora| clave_de_fila(f));
    let mut claves: Vec<String> = Vec::new();
    let mut ctids: Vec<String> = Vec::new();
    let mut i: usize = 0;
    assert(textos(claves@) =~= todas.take(0));
    assert(textos(ctids@) =~= lugares(filas@).take(0));
    while i < filas.len()
        invariant
            i <= filas.len(),
            todas == filas@.map_values(|f: FilaEmisora| clave_de_fila(f)),
            claves.len() == i,
            ctids.len() == i,
            textos(claves@) == todas.take(i as int),
            textos(ctids@) == lugares(filas@).take(i as int),
        decreases filas.len() - i,
    {
        let fila = &filas[i];
        let mut clave = trim_text(fila.emisoras.as_str());
        clave.append("|");
        clave.append(trim_text(fila.serie.as_str()).as_str());
        clave.append("|");
        clave.append(trim_text(fila.isin.as_str()).as_str());
        assert(clave@ =~= clave_de_fila(*fila));
        let ghost claves_antes = textos(claves@);
        let ghost ctids_antes = textos(ctids@);
        claves.push(clave);
        ctids.push(fila.ctid.clone());
        assert(textos(claves@) =~= claves_antes.push(clave_de_fila(*fila)));
        assert(textos(ctids@) =~= ctids_antes.push(fila.ctid@));
        assert(todas.take(i + 1) =~= todas.take(i as int).push(clave_de_fila(*fila)));
        assert(lugares(filas@).take(i + 1) =~= lugares(filas@).take(i as int).push(fila.ctid@));
        i = i + 1;
    }
    assert(todas.take(i as int) =~= todas);
    assert(lugares(filas@).take(i as int) =~= lugares(filas@));
    buscar_repetidas(&claves, &ctids)
}

/// The key under which an ISIN is compared: without the white space at its ends, in
/// upper case.
pub open spec fn clave_de_isin(isin: Seq<char>) -> Seq<char> {
    upper_case(trimmed(isin))
}

/// Names the rows to delete from rows given as a place and an ISIN each: every row
/// whose ISIN, without the white space at its ends and in upper case, stands in an
/// earlier row. The store is asked again until a pass names no row.
pub fn eliminar_duplicados_isin_hashset(filas: &Vec<(String, String)>) -> (borrar: Vec<String>)
    ensures
        textos(borrar@) == repetidas(
            filas@.map_values(|f: (String, String)| clave_de_isin(f.1@)),
            filas@.map_values(|f: (String, String)| f.0@),
        ),
{
    let ghost todas = filas@.map_values(|f: (String, String)| clave_de_isin(f.1@));
    let ghost todos = filas@.map_values(|f: (String, String)| f.0@);
    let mut claves: Vec<String> = Vec::new();
    let mut ctids: Vec<String> = Vec::new();
    let mut i: usize = 0;
    assert(textos(claves@) =~= todas.take(0));
    assert(textos(ctids@) =~= todos.take(0));
    while i < filas.len()
        invariant
            i <= filas.len(),
            todas == filas@.map_values(|f: (String, String)| clave_de_isin(f.1@)),
            todos == filas@.map_values(|f: (String, String)| f.0@),
            claves.len() == i,
            ctids.len() == i,
            textos(claves@) == todas.take(i as int),
            textos(ctids@) == todos.take(i as int),
        decreases filas.len() - i,
    {
        let fila = &filas[i];
        let clave = to_upper_case(trim_text(fila.1.as_str()).as_str());
        let ghost claves_antes = textos(claves@);
        let ghost ctids_antes = textos(ctids@);
        claves.push(clave);
        ctids.push(fila.0.clone());
        assert(textos(claves@) =~= claves_antes.push(clave_de_isin(fila.1@)));
        assert(textos(ctids@) =~= ctids_antes.push(fila.0@));
        assert(todas.take(i + 1) =~= todas.take(i as int).push(clave_de_isin(fila.1@)));
        assert(todos.take(i + 1) =~= todos.take(i as int).push(fila.0@));
        i = i + 1;
    }
    assert(todas.take(i as int) =~= todas);
    assert(todos.take(i as int) =~= todos);
    buscar_repetidas(&claves, &ctids)
}

} // verus!
