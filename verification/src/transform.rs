//! The one derived value of the handler: the input's name concatenated
//! with itself, separated by a single space.

use vstd::prelude::*;

verus! {

/// The name, one space, the name again.
pub open spec fn doubled(name: Seq<char>) -> Seq<char> {
    name + " "@ + name
}

/// Builds the doubled form of `name` as an owned string.
pub fn double_name(name: &str) -> (r: String)
    ensures
        r@ == doubled(name@),
{
    let mut out = String::from_str(name);
    out.append(" ");
    out.append(name);
    out
}

} // verus!
