//! Small operations on texts.

use vstd::prelude::*;
use vstd::string::*;

verus! {

/// Tells whether two texts are the same.
pub(crate) fn same_text(a: &str, b: &str) -> (same: bool)
    ensures
        same == (a@ == b@),
{
    a.to_owned() == b.to_owned()
}

/// Puts a cause after what it caused.
pub(crate) fn joined_by_colon(what: &str, cause: &str) -> (text: String)
    ensures
        text@ == what@ + ": "@ + cause@,
{
    what.to_owned().concat(": ").concat(cause)
}

} // verus!
