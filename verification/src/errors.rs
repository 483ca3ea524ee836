//! The error kinds that every operation of this crate surfaces to its caller.

use vstd::prelude::*;
use vstd::string::StringExecFns;

verus! {

/// An error of the data access layer.
///
/// Every failure is wrapped into one of these kinds and returned to the
/// immediate caller; nothing is retried internally and there are no
/// partial-success states.
#[derive(Debug, Clone)]
pub enum Error {
    /// A malformed or unreadable configuration document.
    Config { cause: String },
    /// A backend open, prepare, bind, or step failure, carrying the
    /// backend's message as cause text.
    DB { cause: String },
    /// An input/output failure outside the backend.
    IO { cause: String },
    /// A value that could not be converted between the generic value
    /// representation and a declared parameter type, or between a value
    /// and a backend-native type.
    Convert { cause: String },
}

impl Error {
    /// The text that [`Self::message`] returns.
    pub open spec fn message_spec(&self) -> Seq<char> {
        match self {
            Error::Config { cause } => "Config error, cause: "@ + cause@,
            Error::DB { cause } => "DB error, cause: "@ + cause@,
            Error::IO { cause } => "IO error, cause: "@ + cause@,
            Error::Convert { cause } => "Convert error, cause: "@ + cause@,
        }
    }

    /// A human-readable description: the kind of the error followed by its
    /// cause text.
    pub fn message(&self) -> (r: String)
        ensures
            r@ == self.message_spec(),
    {
        match self {
            Error::Config { cause } => String::from_str("Config error, cause: ").concat(
                cause.as_str(),
            ),
            Error::DB { cause } => String::from_str("DB error, cause: ").concat(cause.as_str()),
            Error::IO { cause } => String::from_str("IO error, cause: ").concat(cause.as_str()),
            Error::Convert { cause } => String::from_str("Convert error, cause: ").concat(
                cause.as_str(),
            ),
        }
    }
}

} // verus!
