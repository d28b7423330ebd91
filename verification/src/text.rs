//! Character and string primitives of `std` that the composition logic uses,
//! with what their documentation promises.
use vstd::prelude::*;

verus! {

/// `c` with an ASCII upper-case letter mapped to its lower-case letter and
/// every other character unchanged.
pub open spec fn ascii_lower(c: char) -> char {
    if 'A' <= c && c <= 'Z' {
        ((c as u32) + 32) as char
    } else {
        c
    }
}

/// `s` ends with the character `c`.
pub open spec fn ends_in(s: Seq<char>, c: char) -> bool {
    s.len() > 0 && s.last() == c
}

/// `s` without its last character; the empty sequence stays empty.
pub open spec fn pop_last(s: Seq<char>) -> Seq<char> {
    if s.len() > 0 {
        s.drop_last()
    } else {
        s
    }
}

/// `char::to_ascii_lowercase`: maps `'A'..='Z'` to `'a'..='z'` and leaves
/// every other character as it is.
#[verifier::external_body]
pub(crate) fn to_ascii_lowercase(c: char) -> (r: char)
    ensures
        r == ascii_lower(c),
{
    c.to_ascii_lowercase()
}

/// `char::is_uppercase`, which tests the Unicode `Uppercase` property.
/// Stated here only for ASCII letters: `'A'..='Z'` have the property and
/// `'a'..='z'` do not; what it returns for other characters is left unsaid.
#[verifier::external_body]
pub(crate) fn is_uppercase(c: char) -> (r: bool)
    ensures
        'A' <= c && c <= 'Z' ==> r,
        'a' <= c && c <= 'z' ==> !r,
{
    c.is_uppercase()
}

/// `String::push`: appends `c` to the end of `s`.
#[verifier::external_body]
pub(crate) fn string_push(s: &mut String, c: char)
    ensures
        final(s)@ == old(s)@.push(c),
{
    s.push(c)
}

/// `String::pop`: removes and returns the last character, or returns `None`
/// and leaves `s` as it is when `s` is empty.
#[verifier::external_body]
pub(crate) fn string_pop(s: &mut String) -> (r: Option<char>)
    ensures
        final(s)@ == pop_last(old(s)@),
        old(s)@.len() > 0 ==> r == Some(old(s)@.last()),
        old(s)@.len() == 0 ==> r is None,
{
    s.pop()
}

/// `String::clear`: removes every character.
#[verifier::external_body]
pub(crate) fn string_clear(s: &mut String)
    ensures
        final(s)@ == Seq::<char>::empty(),
{
    s.clear()
}

/// Whether the last character of `s` is `c`.
pub(crate) fn string_ends_with(s: &String, c: char) -> (r: bool)
    ensures
        r == ends_in(s@, c),
{
    let text = s.as_str();
    let n = text.unicode_len();
    n > 0 && text.get_char(n - 1) == c
}

} // verus!
