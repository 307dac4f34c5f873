//! Errors of the function records and of the signature decoder.

use vstd::prelude::*;
use vstd::string::*;

verus! {

/// Why a function record could not be built, found or used.
#[derive(Debug, Clone, PartialEq, Eq)]
pub enum Error {
    /// No record has the requested identifier.
    NotFound,
    /// The relational store failed; the text is the store's own.
    DBError(String),
    /// The descriptor names a kind of type that is not supported; the text
    /// is the kind's symbolic name.
    UnsupportedType(String),
    /// An invocation came with a number of arguments other than the arity.
    MismatchedArgs,
    /// The outermost descriptor is not a function.
    NotAFunction,
    /// The descriptor bytes end before the descriptor is complete.
    CorruptFunctionDesc,
}

impl Error {
    /// The error that stands for a failure of the relational store: a
    /// record that was not found is `NotFound`, and any other failure is
    /// `DBError` with the store's own text.
    pub fn from_store(not_found: bool, text: String) -> (error: Error)
        ensures
            error == if not_found {
                Error::NotFound
            } else {
                Error::DBError(text)
            },
    {
        if not_found {
            Error::NotFound
        } else {
            Error::DBError(text)
        }
    }

    /// The text shown to a caller for this error.
    pub open spec fn message_spec(self) -> Seq<char> {
        match self {
            Error::NotFound => "resource not found"@,
            Error::DBError(text) => text@,
            Error::UnsupportedType(name) => "unsupported type: "@ + name@,
            Error::MismatchedArgs => "incorrect arguments"@,
            Error::NotAFunction => "not a function"@,
            Error::CorruptFunctionDesc => "corrupt function signature"@,
        }
    }

    /// Returns the text shown to a caller for this error.
    pub fn message(&self) -> (text: String)
        ensures
            text@ == self.message_spec(),
    {
        match self {
            Error::NotFound => String::from_str("resource not found"),
            Error::DBError(text) => text.clone(),
            Error::UnsupportedType(name) => String::from_str("unsupported type: ").concat(
                name.as_str(),
            ),
            Error::MismatchedArgs => String::from_str("incorrect arguments"),
            Error::NotAFunction => String::from_str("not a function"),
            Error::CorruptFunctionDesc => String::from_str("corrupt function signature"),
        }
    }
}

} // verus!
