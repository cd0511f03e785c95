//! Environment lookups as the frontend sees them: a variable that is not set
//! reads as the empty string.

use vstd::prelude::*;

verus! {

/// The text that a lookup yields: the value that was found, and the empty
/// text where nothing was.
pub open spec fn value_or_empty(found: Option<Seq<char>>) -> Seq<char> {
    match found {
        Some(value) => value,
        None => Seq::empty(),
    }
}

/// The view of the outcome of a lookup.
pub open spec fn found_view(found: Option<String>) -> Option<Seq<char>> {
    match found {
        Some(value) => Some(value@),
        None => None,
    }
}

/// Turns the outcome of a lookup into the string handed to the frontend:
/// the value itself where the variable is set, the empty string where it is
/// not.
pub fn env_var_or_empty(found: Option<String>) -> (value: String)
    ensures
        value@ == value_or_empty(found_view(found)),
{
    match found {
        Some(value) => value,
        None => String::new(),
    }
}

} // verus!
