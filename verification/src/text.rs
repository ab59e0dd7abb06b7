//! Lists of rendered parts.

use itertools::Itertools;
use vstd::prelude::*;

verus! {

/// The texts of `parts`, in order.
pub open spec fn texts(parts: Seq<String>) -> Seq<Seq<char>> {
    parts.map_values(|part: String| part@)
}

/// The text of an optional string.
pub open spec fn option_text(text: Option<String>) -> Option<Seq<char>> {
    match text {
        Some(t) => Some(t@),
        None => None,
    }
}

/// The parts in order, with `separator` between every two neighbours. No
/// parts give the empty text.
pub open spec fn joined(parts: Seq<Seq<char>>, separator: Seq<char>) -> Seq<char>
    decreases parts.len(),
{
    if parts.len() == 0 {
        Seq::empty()
    } else if parts.len() == 1 {
        parts[0]
    } else {
        joined(parts.drop_last(), separator) + separator + parts.last()
    }
}

/// Trusted: `itertools::Itertools::join` on the strings of `parts`. It
/// writes each element by its `Display`, which for a string is its text, and
/// puts `separator` between neighbours; an empty list gives the empty string.
/// Its capacity estimate multiplies the separator's byte length by the number
/// of parts, so the separator is kept shorter than one element of `parts`,
/// which keeps the product below the size of `parts` itself.
#[verifier::external_body]
pub(crate) fn join(parts: &Vec<String>, separator: &str) -> (out: String)
    requires
        separator@.len() <= 2,
    ensures
        out@ == joined(texts(parts@), separator@),
{
    parts.iter().join(separator)
}

} // verus!
