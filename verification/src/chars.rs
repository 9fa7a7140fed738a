//! Conversion from the core's character sequences to owned strings.

use vstd::prelude::*;

verus! {

/// Relies on `String`'s `FromIterator<&char>` impl: collecting the
/// characters of a vector yields the string of exactly those characters,
/// in order.
#[verifier::external_body]
pub fn chars_to_string(v: &Vec<char>) -> (s: String)
    ensures
        s@ == v@,
{
    v.iter().collect()
}

} // verus!
