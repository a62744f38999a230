//! Failures of the credential verifier.
use vstd::prelude::*;
use vstd::string::StringExecFns;

verus! {

/// The password could not be hashed.
#[derive(Debug)]
pub struct HashPasswordError;

impl HashPasswordError {
    /// The text shown for this error.
    pub open spec fn spec_message() -> Seq<char> {
        "Something went wrong during password encoding!"@
    }

    /// The text shown for this error.
    pub fn message(&self) -> (r: String)
        ensures
            r@ == Self::spec_message(),
    {
        String::from_str("Something went wrong during password encoding!")
    }
}

} // verus!
