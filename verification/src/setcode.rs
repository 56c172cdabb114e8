use crate::text::{is_whitespace_char, whitespace_char};
use vstd::prelude::*;

verus! {

/// Whether the text begins or ends with a whitespace character.
pub open spec fn edge_whitespace(s: Seq<char>) -> bool {
    s.len() > 0 && (whitespace_char(s[0]) || whitespace_char(s[s.len() - 1]))
}

/// Whether a set code is acceptable: exactly three characters, with
/// no leading or trailing whitespace.
pub open spec fn valid_set_code(s: Seq<char>) -> bool {
    s.len() == 3 && !edge_whitespace(s)
}

/// Validates a set code before any request is made: it must be a
/// trigram with no leading or trailing whitespace. Returns the code
/// itself on success and a descriptive message otherwise.
pub fn parse_set(set: &str) -> (r: Result<String, String>)
    ensures
        edge_whitespace(set@) ==> r is Err && r->Err_0@
            == "Set cannot have leading and trailing space"@,
        !edge_whitespace(set@) && set@.len() != 3 ==> r is Err && r->Err_0@
            == "Set must be a trigram"@,
        valid_set_code(set@) ==> r is Ok && r->Ok_0@ == set@,
{
    let n = set.unicode_len();
    if n > 0 && (is_whitespace_char(set.get_char(0)) || is_whitespace_char(
        set.get_char(n - 1),
    )) {
        Err("Set cannot have leading and trailing space".to_owned())
    } else if n != 3 {
        Err("Set must be a trigram".to_owned())
    } else {
        Ok(set.to_owned())
    }
}

} // verus!
