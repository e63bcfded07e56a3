//! Text helpers.

use vstd::prelude::*;

verus! {

/// The lowercase form of a text, as `str::to_lowercase` computes it
/// (Unicode lowercase mapping of each character).
pub uninterp spec fn lowercase(s: Seq<char>) -> Seq<char>;

/// Whether every character of a text is ASCII.
pub open spec fn is_ascii_text(s: Seq<char>) -> bool {
    forall|i: int| 0 <= i < s.len() ==> (s[i] as u32) < 128
}

/// The ASCII lowercase of a character: `A` to `Z` become `a` to `z`, every
/// other character stays.
pub open spec fn ascii_lower_char(c: char) -> char {
    if 'A' <= c && c <= 'Z' {
        ((c as u32) + 32) as char
    } else {
        c
    }
}

/// The ASCII lowercase of a text, character by character.
pub open spec fn ascii_lowercase(s: Seq<char>) -> Seq<char> {
    s.map_values(|c: char| ascii_lower_char(c))
}

/// Lowercases a text with `str::to_lowercase` of std; the result is named
/// by `lowercase`, a function of the text alone. For an ASCII text the
/// documented Unicode lowercase mapping is the ASCII one (`A`-`Z` to
/// `a`-`z`, everything else unchanged), which the second clause states.
#[verifier::external_body]
pub(crate) fn to_lowercase(s: &str) -> (r: String)
    ensures
        r@ == lowercase(s@),
        is_ascii_text(s@) ==> r@ == ascii_lowercase(s@),
{
    s.to_lowercase()
}

/// Appends a character with `String::push` of std; the contract claims that
/// the string afterwards is the old one followed by the character.
#[verifier::external_body]
pub(crate) fn push_char(s: &mut String, c: char)
    ensures
        final(s)@ == old(s)@.push(c),
{
    s.push(c);
}

/// Whether a text equals a given one.
pub(crate) fn text_is(s: &String, expected: &str) -> (r: bool)
    ensures
        r == (s@ == expected@),
{
    let expected = String::from_str(expected);
    *s == expected
}

} // verus!
