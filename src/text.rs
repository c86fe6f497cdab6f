//! What the campaign rules need to know about display text.

use vstd::prelude::*;
use vstd::utf8::encode_utf8;

verus! {

/// A character with the Unicode `White_Space` property.
pub open spec fn is_white_space(c: char) -> bool {
    ('\u{9}' <= c && c <= '\u{d}') || c == ' ' || c == '\u{85}' || c == '\u{a0}' || c
        == '\u{1680}' || ('\u{2000}' <= c && c <= '\u{200a}') || c == '\u{2028}' || c
        == '\u{2029}' || c == '\u{202f}' || c == '\u{205f}' || c == '\u{3000}'
}

/// Text made of white space only (the empty text included).
pub open spec fn is_blank(s: Seq<char>) -> bool {
    forall|i: int| 0 <= i < s.len() ==> is_white_space(#[trigger] s[i])
}

/// `part` is a contiguous run of the characters of `whole`.
pub open spec fn is_slice_of(part: Seq<char>, whole: Seq<char>) -> bool {
    exists|i: int, j: int| 0 <= i <= j <= whole.len() && part == whole.subrange(i, j)
}

/// Length of the text in bytes, as UTF-8.
pub open spec fn byte_len(s: Seq<char>) -> nat {
    encode_utf8(s).len()
}

/// Relies on `str::trim`: the result is `s` with its leading and trailing
/// `White_Space` characters removed, so it is empty exactly when `s` holds
/// nothing else.
#[verifier::external_body]
fn trim(s: &str) -> (r: &str)
    ensures
        is_slice_of(r@, s@),
        r@.len() == 0 <==> is_blank(s@),
{
    s.trim()
}

/// Whether the text holds nothing but white space.
pub fn blank(s: &str) -> (r: bool)
    ensures
        r == is_blank(s@),
{
    trim(s).is_empty()
}

/// Length of the text in bytes.
pub fn text_byte_len(s: &str) -> (r: usize)
    ensures
        r as nat == byte_len(s@),
{
    s.as_bytes().len()
}

} // verus!
