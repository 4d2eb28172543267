//! The sanitiser that turns typed text into a name safe for files and
//! identifiers.
use vstd::prelude::*;

verus! {

/// Whether the `regex` crate's Unicode class `\w` matches `c`: alphabetic,
/// mark, decimal digit, connector punctuation or join control.
pub uninterp spec fn regex_word_char(c: char) -> bool;

/// An ASCII letter, an ASCII digit or `_`.
pub open spec fn ascii_word_char(c: char) -> bool {
    ('a' <= c && c <= 'z') || ('A' <= c && c <= 'Z') || ('0' <= c && c <= '9') || c == '_'
}

/// A character that the sanitiser keeps: a word character or `-`.
pub open spec fn kept_char(c: char) -> bool {
    if c <= '\u{7f}' {
        ascii_word_char(c) || c == '-'
    } else {
        regex_word_char(c)
    }
}

/// A kept character stays, any other becomes `_`.
pub open spec fn sanitised_char(c: char) -> char {
    if kept_char(c) {
        c
    } else {
        '_'
    }
}

/// The sanitised form of `s`, character by character.
pub open spec fn sanitised(s: Seq<char>) -> Seq<char> {
    s.map_values(|c: char| sanitised_char(c))
}

/// Relies on `regex::Regex::new` and `regex::Regex::replace_all` with the
/// pattern `[^\w\-]`: each match is one character outside `\w` and other than
/// `-`, and every such match is replaced by `_`. In ASCII, `\w` is exactly the
/// letters, the digits and `_`.
#[verifier::external_body]
pub(crate) fn replace_non_word(s: &str) -> (r: String)
    ensures
        r@.len() == s@.len(),
        forall|i: int|
            0 <= i < s@.len() ==> #[trigger] r@[i] == if s@[i] <= '\u{7f}' {
                if ascii_word_char(s@[i]) || s@[i] == '-' {
                    s@[i]
                } else {
                    '_'
                }
            } else if regex_word_char(s@[i]) {
                s@[i]
            } else {
                '_'
            },
{
    let re = regex::Regex::new(r"[^\w\-]").unwrap();
    re.replace_all(s, "_").into_owned()
}

/// `s` with every character outside the word characters and `-` replaced by
/// `_`.
pub fn sanitise(s: &str) -> (r: String)
    ensures
        r@ == sanitised(s@),
{
    let r = replace_non_word(s);
    assert(r@ =~= sanitised(s@));
    r
}

/// Sanitising keeps the length, leaves only kept characters, and changes no
/// character that was kept already.
pub proof fn lemma_sanitised_shape(s: Seq<char>)
    ensures
        sanitised(s).len() == s.len(),
        forall|i: int| 0 <= i < s.len() ==> kept_char(#[trigger] sanitised(s)[i]),
        forall|i: int| 0 <= i < s.len() && kept_char(s[i]) ==> #[trigger] sanitised(s)[i] == s[i],
{
}

/// Sanitising twice gives what sanitising once gives.
pub proof fn lemma_sanitised_idempotent(s: Seq<char>)
    ensures
        sanitised(sanitised(s)) == sanitised(s),
{
    assert(sanitised(sanitised(s)) =~= sanitised(s));
}

} // verus!
