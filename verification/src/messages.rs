use vstd::prelude::*;
use vstd::string::StringExecFns;

verus! {

/// The diagnostic text reported when a named column of a result set has no
/// entry: the column's name followed by " is missing an entry".
pub fn column_error_message(name: &str) -> (r: String)
    ensures
        r@ == name@ + " is missing an entry"@,
{
    let s = String::from_str(name);
    s.concat(" is missing an entry")
}

} // verus!
