//! The ways in which an operation of the service can fail.

use vstd::prelude::*;
use vstd::string::StringExecFns;

verus! {

/// Why an operation was refused. Every error ends the call it arises in.
#[derive(Debug, Clone, Copy, PartialEq, Eq, Structural)]
pub enum Error {
    /// The contract state exists already.
    AlreadyInitialized,
    /// The owner is no valid account identifier.
    InvalidAccount,
    /// The memo has 64 characters or more.
    InvalidArgument,
    /// The caller has no deposit at the given index.
    NotFound,
    /// The deposit is fulfilled: all its periods are counted as paid.
    PreconditionFailed,
}

impl Error {
    /// The text that describes the error.
    pub open spec fn spec_message(self) -> Seq<char> {
        match self {
            Error::AlreadyInitialized => "Already initialized"@,
            Error::InvalidAccount => "Invalid owner account"@,
            Error::InvalidArgument => "memo too long"@,
            Error::NotFound => "no deposit"@,
            Error::PreconditionFailed => "subscription fulfilled"@,
        }
    }

    /// Returns the text that describes the error.
    pub fn message(&self) -> (text: String)
        ensures
            text@ == self.spec_message(),
    {
        match self {
            Error::AlreadyInitialized => String::from_str("Already initialized"),
            Error::InvalidAccount => String::from_str("Invalid owner account"),
            Error::InvalidArgument => String::from_str("memo too long"),
            Error::NotFound => String::from_str("no deposit"),
            Error::PreconditionFailed => String::from_str("subscription fulfilled"),
        }
    }
}

} // verus!
