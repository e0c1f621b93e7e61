//! The control surface's interface selector: a capture may target one named
//! interface, or every interface through a sentinel entry.

use crate::text::str_eq;
use vstd::prelude::*;

verus! {

/// The sentinel selector meaning "capture on all interfaces".
pub open spec fn spec_all_interfaces() -> Seq<char> {
    "Toutes les interfaces"@
}

/// Decides whether the user asked for a capture on all interfaces rather
/// than on one specific interface.
pub fn check_interface(interface: &str) -> (r: bool)
    ensures
        r == (interface@ == spec_all_interfaces()),
{
    str_eq(interface, "Toutes les interfaces")
}

/// Appends the all-interfaces sentinel to a list of interface names, so a
/// chooser can offer it alongside the real interfaces. The given names are
/// kept, in order; the sentinel comes last.
pub fn with_all_interfaces_option(names: Vec<String>) -> (r: Vec<String>)
    ensures
        r@.len() == names@.len() + 1,
        forall|i: int| 0 <= i < names@.len() ==> r@[i] == names@[i],
        r@[names@.len() as int]@ == spec_all_interfaces(),
{
    let mut all = names;
    all.push(String::from_str("Toutes les interfaces"));
    all
}

} // verus!
