use vstd::prelude::*;

verus! {

/// Whether a character counts as whitespace under Unicode's
/// `White_Space` property; the exact character table is not spelled
/// out here, so this is left abstract.
pub uninterp spec fn whitespace_char(c: char) -> bool;

/// Relies on char::is_whitespace: true exactly for characters with
/// the Unicode `White_Space` property, a function of the character
/// alone. That property's documented table contains the space
/// character and no ASCII letter or digit.
#[verifier::external_body]
pub fn is_whitespace_char(c: char) -> (r: bool)
    ensures
        r == whitespace_char(c),
        c == ' ' ==> r,
        ('A' <= c && c <= 'Z') || ('a' <= c && c <= 'z') || ('0' <= c && c <= '9') ==> !r,
{
    c.is_whitespace()
}

/// Relies on String::push: appends the given character to the end of
/// the string.
#[verifier::external_body]
pub fn push_char(s: &mut String, c: char)
    ensures
        final(s)@ == old(s)@ + seq![c],
{
    s.push(c)
}

} // verus!
