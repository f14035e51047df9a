//! Small operations on texts that the rest of the library is built on.

use vstd::prelude::*;
use vstd::string::StringExecFns;
use vstd::string::StrSliceExecFns;
use vstd::string::StringSliceAdditionalSpecFns;
use vstd::utf8::encode_utf8;

verus! {

/// Whether `a` comes before `b`, or is `b`, in the order of the dictionary over
/// bytes: the order in which the standard library holds texts.
pub open spec fn bytes_le(a: Seq<u8>, b: Seq<u8>) -> bool
    decreases a.len(),
{
    if a.len() == 0 {
        true
    } else if b.len() == 0 {
        false
    } else if a.first() != b.first() {
        a.first() < b.first()
    } else {
        bytes_le(a.drop_first(), b.drop_first())
    }
}

/// Whether text `a` comes before text `b`, or is `b`, in the order in which the
/// standard library holds texts: that of their bytes in UTF-8.
pub open spec fn text_before_or_equal(a: Seq<char>, b: Seq<char>) -> bool {
    bytes_le(encode_utf8(a), encode_utf8(b))
}

/// Whether text `a` comes before text `b`, or is `b`, byte by byte.
pub fn text_le(a: &str, b: &str) -> (r: bool)
    ensures
        r == text_before_or_equal(a@, b@),
{
    let x = a.as_bytes();
    let y = b.as_bytes();
    let mut i: usize = 0;
    assert(x@.skip(0) =~= x@);
    assert(y@.skip(0) =~= y@);
    while i < x.len() && i < y.len()
        invariant
            i <= x.len(),
            i <= y.len(),
            x@ == a.spec_bytes(),
            y@ == b.spec_bytes(),
            bytes_le(x@, y@) == bytes_le(x@.skip(i as int), y@.skip(i as int)),
        decreases x.len() - i,
    {
        proof {
            assert(x@.skip(i as int).drop_first() =~= x@.skip(i + 1));
            assert(y@.skip(i as int).drop_first() =~= y@.skip(i + 1));
            assert(x@.skip(i as int).first() == x@[i as int]);
            assert(y@.skip(i as int).first() == y@[i as int]);
        }
        if x[i] != y[i] {
            return x[i] < y[i];
        }
        i = i + 1;
    }
    i == x.len()
}

/// The place of the last `mark` in a text, and -1 where the text holds none.
pub open spec fn last_index_of(text: Seq<char>, mark: char) -> int
    decreases text.len(),
{
    if text.len() == 0 {
        -1
    } else if text.last() == mark {
        text.len() - 1
    } else {
        last_index_of(text.drop_last(), mark)
    }
}

/// What follows the last `mark` in a text: the whole text, where it holds none.
pub open spec fn after_last(text: Seq<char>, mark: char) -> Seq<char> {
    text.subrange(last_index_of(text, mark) + 1, text.len() as int)
}

/// What follows the last `mark` in a text.
pub fn text_after_last(text: &str, mark: char) -> (r: String)
    ensures
        r@ == after_last(text@, mark),
{
    let n: usize = text.unicode_len();
    let mut start: usize = 0;
    let mut i: usize = 0;
    while i < n
        invariant
            i <= n,
            n == text@.len(),
            start <= i,
            start == last_index_of(text@.take(i as int), mark) + 1,
        decreases n - i,
    {
        assert(text@.take(i + 1).drop_last() =~= text@.take(i as int));
        if text.get_char(i) == mark {
            start = i + 1;
        }
        i = i + 1;
    }
    assert(text@.take(n as int) =~= text@);
    String::from_str(text.substring_char(start, n))
}

/// The lower-case digit of a number below sixteen.
pub open spec fn hex_digit(d: int) -> char {
    "0123456789abcdef"@[d]
}

/// A 32-bit number written in lower-case hexadecimal digits, filled with zeros
/// from the left to a width of nine.
pub open spec fn hex9(n: u32) -> Seq<char> {
    seq![
        '0',
        hex_digit((n as int / 0x1000_0000) % 16),
        hex_digit((n as int / 0x100_0000) % 16),
        hex_digit((n as int / 0x10_0000) % 16),
        hex_digit((n as int / 0x1_0000) % 16),
        hex_digit((n as int / 0x1000) % 16),
        hex_digit((n as int / 0x100) % 16),
        hex_digit((n as int / 0x10) % 16),
        hex_digit(n as int % 16),
    ]
}

/// Adds the lower-case hexadecimal digit of a number below sixteen to a text.
fn push_hex_digit(text: &mut String, d: u32)
    requires
        d < 16,
    ensures
        final(text)@ == old(text)@.push(hex_digit(d as int)),
{
    let digits = "0123456789abcdef";
    proof {
        reveal_strlit("0123456789abcdef");
    }
    let one = digits.substring_ascii(d as usize, d as usize + 1);
    assert(one@ =~= seq![hex_digit(d as int)]);
    text.append(one);
    assert(text@ =~= old(text)@.push(hex_digit(d as int)));
}

/// Writes a 32-bit number in lower-case hexadecimal digits, filled with zeros from
/// the left to a width of nine.
pub fn to_hex9(n: u32) -> (r: String)
    ensures
        r@ == hex9(n),
{
    let mut text = String::new();
    push_hex_digit(&mut text, 0);
    push_hex_digit(&mut text, (n / 0x1000_0000) % 16);
    push_hex_digit(&mut text, (n / 0x100_0000) % 16);
    push_hex_digit(&mut text, (n / 0x10_0000) % 16);
    push_hex_digit(&mut text, (n / 0x1_0000) % 16);
    push_hex_digit(&mut text, (n / 0x1000) % 16);
    push_hex_digit(&mut text, (n / 0x100) % 16);
    push_hex_digit(&mut text, (n / 0x10) % 16);
    push_hex_digit(&mut text, n % 16);
    proof {
        reveal_strlit("0123456789abcdef");
        assert(hex_digit(0) == '0');
        assert(text@ =~= hex9(n));
    }
    text
}

/// A text without the white space at its two ends, as `str::trim` of the standard
/// library gives it.
pub uninterp spec fn trimmed(text: Seq<char>) -> Seq<char>;

/// A text in upper case, as `str::to_uppercase` of the standard library gives it.
pub uninterp spec fn upper_case(text: Seq<char>) -> Seq<char>;

/// A text in lower case, as `str::to_lowercase` of the standard library gives it.
pub uninterp spec fn lower_case(text: Seq<char>) -> Seq<char>;

/// Calls `str::trim`. What counts as white space is the standard library's to say:
/// the contract gives the result a name.
#[verifier::external_body]
pub(crate) fn trim_text(text: &str) -> (r: String)
    ensures
        r@ == trimmed(text@),
{
    text.trim().to_string()
}

/// Calls `str::to_uppercase`. Which letter is the upper case of which is the
/// standard library's to say: the contract gives the result a name.
#[verifier::external_body]
pub(crate) fn to_upper_case(text: &str) -> (r: String)
    ensures
        r@ == upper_case(text@),
{
    text.to_uppercase()
}

/// Calls `str::to_lowercase`. Which letter is the lower case of which is the
/// standard library's to say: the contract gives the result a name.
#[verifier::external_body]
pub(crate) fn to_lower_case(text: &str) -> (r: String)
    ensures
        r@ == lower_case(text@),
{
    text.to_lowercase()
}

} // verus!
