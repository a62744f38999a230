//! Failures of cookie transport.
use vstd::prelude::*;
use vstd::string::StringExecFns;

verus! {

/// The request carries no cookie of the name that was asked for.
#[derive(Debug)]
pub struct NoValueInCookie;

impl NoValueInCookie {
    /// The text shown for this error.
    pub open spec fn spec_message() -> Seq<char> {
        "Value in cookie not found"@
    }

    /// The text shown for this error.
    pub fn message(&self) -> (r: String)
        ensures
            r@ == Self::spec_message(),
    {
        String::from_str("Value in cookie not found")
    }
}

} // verus!
