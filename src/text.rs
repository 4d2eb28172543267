//! Character-level operations on `String` that the rest of the crate builds on.
use vstd::prelude::*;

verus! {

/// Relies on `String::push`: appends the character at the end of the string.
#[verifier::external_body]
pub(crate) fn push_char(s: &mut String, c: char)
    ensures
        final(s)@ == old(s)@.push(c),
{
    s.push(c);
}

/// The string without its last character; the empty string stays empty.
pub(crate) fn without_last(s: &str) -> (r: String)
    ensures
        s@.len() == 0 ==> r@ == s@,
        s@.len() > 0 ==> r@ == s@.drop_last(),
{
    let n = s.unicode_len();
    if n == 0 {
        String::new()
    } else {
        String::from_str(s.substring_char(0, n - 1))
    }
}

} // verus!
