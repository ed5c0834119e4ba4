//! Failure of endpoint selection.

use vstd::prelude::*;
use vstd::string::*;

verus! {

/// None of the candidate endpoints answered the probe.
#[derive(Debug, Clone, Copy, PartialEq, Eq)]
pub struct NoCdnError;

impl NoCdnError {
    /// The text shown for this failure.
    pub open spec fn text() -> Seq<char> {
        "The cdn could not be found"@
    }

    /// Renders the failure as text.
    #[allow(clippy::inherent_to_string)]
    pub fn to_string(&self) -> (r: String)
        ensures
            r@ == Self::text(),
    {
        String::from_str("The cdn could not be found")
    }
}

} // verus!
