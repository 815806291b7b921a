//! Small string helpers shared by the modules that compare text keys.

use vstd::prelude::*;

verus! {

/// Whether two string slices spell the same characters.
pub fn str_eq(a: &str, b: &str) -> (r: bool)
    ensures
        r == (a@ == b@),
{
    a.to_owned() == b.to_owned()
}

} // verus!
