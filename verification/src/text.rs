//! Verified text mutation: appending a fixed farewell to a string.

use vstd::prelude::*;
use vstd::string::StringExecFns;

verus! {

/// Append the farewell suffix to the string in place.
pub fn modify_string(s: &mut String)
    ensures
        final(s)@ == old(s)@ + " and goodbye"@,
{
    s.append(" and goodbye");
}

} // verus!
