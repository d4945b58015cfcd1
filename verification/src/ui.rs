//! What the apps hand to the display: colours, and text made from byte
//! buffers.
use vstd::prelude::*;
use vstd::string::StringSliceAdditionalSpecFns;
use vstd::utf8::*;

verus! {

/// A colour of the RGB565 display that depends on an app's state. `Green`
/// and `Yellow` are those of the display's palette; `Rgb(r, g, b)` gives
/// the 5-bit red, 6-bit green and 5-bit blue channels.
#[derive(Clone, Copy, Debug, PartialEq, Eq, Structural)]
pub enum Color {
    Green,
    Yellow,
    Rgb(u8, u8, u8),
}

/// The text that `bytes` encode in UTF-8, or `fallback` where they are
/// not valid UTF-8.
pub open spec fn text_or(bytes: Seq<u8>, fallback: Seq<char>) -> Seq<char> {
    if valid_utf8(bytes) {
        decode_utf8(bytes)
    } else {
        fallback
    }
}

/// `core::str::from_utf8`: the string slice that `v` encodes, and `None`
/// where `v` is not valid UTF-8 (the error is dropped).
#[verifier::external_body]
fn str_from_utf8(v: &[u8]) -> (res: Option<&str>)
    ensures
        res is Some <==> valid_utf8(v@),
        res matches Some(s) ==> s.spec_bytes() == v@,
{
    core::str::from_utf8(v).ok()
}

/// The text that `bytes` encode, or `fallback` where they are not valid
/// UTF-8.
pub fn utf8_text_or(bytes: &[u8], fallback: &str) -> (res: String)
    ensures
        res@ == text_or(bytes@, fallback@),
{
    match str_from_utf8(bytes) {
        Some(s) => {
            proof {
                encode_utf8_decode_utf8(s@);
            }
            s.to_owned()
        },
        None => fallback.to_owned(),
    }
}

/// The number that a run of ASCII decimal digits reads as.
pub open spec fn decimal_value(d: Seq<u8>) -> int
    decreases d.len(),
{
    if d.len() == 0 {
        0
    } else {
        decimal_value(d.drop_last()) * 10 + (d.last() - 48)
    }
}

/// A non-empty run of ASCII decimal digits, without a leading zero unless
/// it is the single digit `0`.
pub open spec fn is_decimal_text(d: Seq<u8>) -> bool {
    &&& d.len() > 0
    &&& forall|i: int| 0 <= i < d.len() ==> 48 <= #[trigger] d[i] <= 57
    &&& d.len() > 1 ==> d[0] != 48
}

/// The value of one, two and three digits.
pub proof fn lemma_decimal_value_small(a: u8, b: u8, c: u8)
    ensures
        decimal_value(seq![a]) == a - 48,
        decimal_value(seq![a, b]) == (a - 48) * 10 + (b - 48),
        decimal_value(seq![a, b, c]) == (a - 48) * 100 + (b - 48) * 10 + (c - 48),
{
    assert(seq![a].drop_last() =~= Seq::<u8>::empty());
    assert(seq![a, b].drop_last() =~= seq![a]);
    assert(seq![a, b, c].drop_last() =~= seq![a, b]);
    assert(decimal_value(Seq::<u8>::empty()) == 0);
    assert(seq![a].last() == a);
    assert(decimal_value(seq![a]) == a - 48);
    assert(seq![a, b].last() == b);
    assert(seq![a, b, c].last() == c);
    assert(decimal_value(seq![a, b]) == (a - 48) * 10 + (b - 48));
}

} // verus!
