//! Texts in order: a list of texts is put into the order of the standard library,
//! each text once.

use vstd::prelude::*;
use vstd::utf8::encode_utf8;
use vstd::utf8::encode_utf8_decode_utf8;
use crate::dedup::textos;
use crate::text::bytes_le;
use crate::text::text_before_or_equal;
use crate::text::text_le;

verus! {

/// Every sequence of bytes comes before or is itself.
pub proof fn lemma_bytes_le_reflexive(a: Seq<u8>)
    ensures
        bytes_le(a, a),
    decreases a.len(),
{
    if a.len() > 0 {
        lemma_bytes_le_reflexive(a.drop_first());
    }
}

/// Of two sequences of bytes one comes before the other or is it.
pub proof fn lemma_bytes_le_total(a: Seq<u8>, b: Seq<u8>)
    ensures
        bytes_le(a, b) || bytes_le(b, a),
    decreases a.len(),
{
    if a.len() > 0 && b.len() > 0 && a.first() == b.first() {
        lemma_bytes_le_total(a.drop_first(), b.drop_first());
    }
}

/// The order of sequences of bytes is transitive.
pub proof fn lemma_bytes_le_transitive(a: Seq<u8>, b: Seq<u8>, c: Seq<u8>)
    requires
        bytes_le(a, b),
        bytes_le(b, c),
    ensures
        bytes_le(a, c),
    decreases a.len(),
{
    if a.len() > 0 && b.len() > 0 && c.len() > 0 && a.first() == b.first() && b.first()
        == c.first() {
        lemma_bytes_le_transitive(a.drop_first(), b.drop_first(), c.drop_first());
    }
}

/// Two sequences of bytes that come before each other are one sequence.
pub proof fn lemma_bytes_le_antisymmetric(a: Seq<u8>, b: Seq<u8>)
    requires
        bytes_le(a, b),
        bytes_le(b, a),
    ensures
        a == b,
    decreases a.len(),
{
    if a.len() > 0 && b.len() > 0 {
        lemma_bytes_le_antisymmetric(a.drop_first(), b.drop_first());
        assert(a =~= seq![a.first()] + a.drop_first());
        assert(b =~= seq![b.first()] + b.drop_first());
    } else {
        assert(a =~= b);
    }
}

/// The order of texts is a total order: reflexive, total, transitive, and two texts
/// that come before each other are one text.
pub proof fn lemma_text_order(a: Seq<char>, b: Seq<char>, c: Seq<char>)
    ensures
        text_before_or_equal(a, a),
        text_before_or_equal(a, b) || text_before_or_equal(b, a),
        text_before_or_equal(a, b) && text_before_or_equal(b, c) ==> text_before_or_equal(a, c),
        text_before_or_equal(a, b) && text_before_or_equal(b, a) ==> a == b,
{
    lemma_bytes_le_reflexive(encode_utf8(a));
    lemma_bytes_le_total(encode_utf8(a), encode_utf8(b));
    if text_before_or_equal(a, b) && text_before_or_equal(b, c) {
        lemma_bytes_le_transitive(encode_utf8(a), encode_utf8(b), encode_utf8(c));
    }
    if text_before_or_equal(a, b) && text_before_or_equal(b, a) {
        lemma_bytes_le_antisymmetric(encode_utf8(a), encode_utf8(b));
        encode_utf8_decode_utf8(a);
        encode_utf8_decode_utf8(b);
    }
}

/// Whether text `a` comes before text `b` and is not `b`.
pub open spec fn text_before(a: Seq<char>, b: Seq<char>) -> bool {
    text_before_or_equal(a, b) && a != b
}

/// Whether a list of texts is in order, each text before the next.
pub open spec fn en_orden(items: Seq<Seq<char>>) -> bool {
    forall|a: int, b: int| 0 <= a < b < items.len() ==> text_before(items[a], items[b])
}

/// Puts a text into a list that is in order, unless the list holds it.
fn insertar_en_orden(lista: &mut Vec<String>, x: &String)
    requires
        en_orden(textos(old(lista)@)),
    ensures
        en_orden(textos(final(lista)@)),
        forall|t: Seq<char>| #[trigger]
            textos(final(lista)@).contains(t) <==> (textos(old(lista)@).contains(t) || t == x@),
{
    let ghost before = textos(lista@);
    let mut p: usize = 0;
    let mut found = false;
    while p < lista.len() && !found
        invariant
            p <= lista.len(),
            *lista == *old(lista),
            before == textos(lista@),
            forall|k: int| 0 <= k < p ==> !text_before_or_equal(x@, #[trigger] before[k]),
            found ==> p < lista.len() && text_before_or_equal(x@, before[p as int]),
        decreases lista.len() - p + (if found { 0int } else { 1int }),
    {
        if text_le(x.as_str(), lista[p].as_str()) {
            found = true;
        } else {
            p = p + 1;
        }
    }
    if found && lista[p] == *x {
        assert(before[p as int] == x@);
        assert(before.contains(x@));
        return ;
    }
    lista.insert(p, x.clone());
    proof {
        let after = textos(lista@);
        assert(after =~= before.insert(p as int, x@));
        assert forall|k: int| 0 <= k < p implies text_before(#[trigger] before[k], x@) by {
            lemma_text_order(x@, before[k], x@);
        }
        assert forall|k: int| p <= k < before.len() implies text_before(x@, #[trigger] before[k]) by {
            lemma_text_order(x@, before[p as int], before[k]);
            lemma_text_order(before[k], before[p as int], before[k]);
            if k > p {
                assert(text_before(before[p as int], before[k]));
            }
        }
        assert forall|a: int, b: int| 0 <= a < b < after.len() implies text_before(
            after[a],
            after[b],
        ) by {
            if b < p {
                assert(text_before(before[a], before[b]));
            } else if b == p {
                assert(text_before(before[a], x@));
            } else if a < p {
                assert(text_before(before[a], before[b - 1]));
            } else if a == p {
                assert(text_before(x@, before[b - 1]));
            } else {
                assert(text_before(before[a - 1], before[b - 1]));
            }
        }
        assert forall|t: Seq<char>| #[trigger] after.contains(t) <==> (before.contains(t) || t
            == x@) by {
            if after.contains(t) {
                let k = choose|k: int| 0 <= k < after.len() && after[k] == t;
                if k < p {
                    assert(before[k] == t);
                } else if k > p {
                    assert(before[k - 1] == t);
                }
            }
            if before.contains(t) {
                let k = choose|k: int| 0 <= k < before.len() && before[k] == t;
                if k < p {
                    assert(after[k] == t);
                } else {
                    assert(after[k + 1] == t);
                }
            }
            if t == x@ {
                assert(after[p as int] == t);
            }
        }
    }
}

/// The quarters for which the store holds a statement of an issuer, in order and
/// each once, from the quarters that the tables of the store name, in any order
/// and with repeats.
pub fn get_trimestres_disponibles(trimestres: &Vec<String>) -> (ordenados: Vec<String>)
    ensures
        en_orden(textos(ordenados@)),
        forall|t: Seq<char>| #[trigger]
            textos(ordenados@).contains(t) <==> textos(trimestres@).contains(t),
{
    let mut ordenados: Vec<String> = Vec::new();
    let mut i: usize = 0;
    while i < trimestres.len()
        invariant
            i <= trimestres.len(),
            en_orden(textos(ordenados@)),
            forall|t: Seq<char>| #[trigger]
                textos(ordenados@).contains(t) <==> textos(trimestres@).take(i as int).contains(t),
        decreases trimestres.len() - i,
    {
        let ghost before = textos(ordenados@);
        let ghost given = textos(trimestres@);
        insertar_en_orden(&mut ordenados, &trimestres[i]);
        proof {
            assert forall|t: Seq<char>| #[trigger]
                textos(ordenados@).contains(t) <==> given.take(i + 1).contains(t) by {
                let shorter = given.take(i as int);
                let longer = given.take(i + 1);
                assert(given[i as int] == trimestres@[i as int]@);
                if shorter.contains(t) {
                    let k = choose|k: int| 0 <= k < shorter.len() && shorter[k] == t;
                    assert(longer[k] == t);
                }
                if longer.contains(t) {
                    let k = choose|k: int| 0 <= k < longer.len() && longer[k] == t;
                    if k < i {
                        assert(shorter[k] == t);
                    }
                }
                assert(longer[i as int] == given[i as int]);
            }
        }
        i = i + 1;
    }
    assert(textos(trimestres@).take(i as int) =~= textos(trimestres@));
    ordenados
}

} // verus!
