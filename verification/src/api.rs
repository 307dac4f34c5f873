//! The errors a handler reports to an HTTP caller, and the answers that
//! stand for them.

use crate::backend::BackendError;
use crate::compiler::CompileError;
use crate::error::Error;
use crate::status::{Body, Status, StatusKind};
use crate::wasm::WasmError;
use vstd::prelude::*;
use vstd::std_specs::convert::FromSpecImpl;
use vstd::string::*;

verus! {

/// Why a request failed.
#[derive(Debug, Clone, PartialEq, Eq)]
pub enum APIError {
    WasmError(WasmError),
    DBError(Error),
    RegistryError(BackendError),
    NotAFunction,
    CompileError(CompileError),
    InternalError,
}

impl APIError {
    /// The text shown to a caller for this error.
    pub open spec fn message_spec(self) -> Seq<char> {
        match self {
            APIError::WasmError(e) => e.message_spec(),
            APIError::DBError(e) => e.message_spec(),
            APIError::RegistryError(e) => e.message_spec(),
            APIError::NotAFunction => "called identifier is not a function"@,
            APIError::CompileError(e) => e.message_spec(),
            APIError::InternalError => "internal error"@,
        }
    }

    /// The kind of answer that stands for this error: a missing record is
    /// `NotFound`; an error inside the service, a timeout and a lost worker
    /// are `InternalError`; everything else is the caller's `BadRequest`.
    pub open spec fn kind_spec(self) -> StatusKind {
        match self {
            APIError::DBError(Error::NotFound) => StatusKind::NotFound,
            APIError::InternalError => StatusKind::InternalError,
            APIError::RegistryError(BackendError::NoWorkersAvailable) => StatusKind::BadRequest,
            APIError::RegistryError(_) => StatusKind::InternalError,
            _ => StatusKind::BadRequest,
        }
    }

    /// Returns the text shown to a caller for this error.
    pub fn message(&self) -> (text: String)
        ensures
            text@ == self.message_spec(),
    {
        match self {
            APIError::WasmError(e) => e.message(),
            APIError::DBError(e) => e.message(),
            APIError::RegistryError(e) => e.message(),
            APIError::NotAFunction => String::from_str("called identifier is not a function"),
            APIError::CompileError(e) => e.message(),
            APIError::InternalError => String::from_str("internal error"),
        }
    }

    /// Returns the kind of answer that stands for this error.
    pub fn kind(&self) -> (kind: StatusKind)
        ensures
            kind == self.kind_spec(),
    {
        match self {
            APIError::DBError(Error::NotFound) => StatusKind::NotFound,
            APIError::InternalError => StatusKind::InternalError,
            APIError::RegistryError(BackendError::NoWorkersAvailable) => StatusKind::BadRequest,
            APIError::RegistryError(_) => StatusKind::InternalError,
            _ => StatusKind::BadRequest,
        }
    }

    /// The answer that stands for this error.
    pub fn into_status(self) -> (status: Status)
        ensures
            status.kind == self.kind_spec(),
            status.message matches Body::Text(text) && text@ == self.message_spec(),
    {
        let text = self.message();
        let kind = self.kind();
        Status::new(kind, Body::Text(text))
    }
}

impl From<WasmError> for APIError {
    fn from(error: WasmError) -> (wrapped: APIError) {
        APIError::WasmError(error)
    }
}

impl FromSpecImpl<WasmError> for APIError {
    open spec fn obeys_from_spec() -> bool {
        true
    }

    open spec fn from_spec(error: WasmError) -> APIError {
        APIError::WasmError(error)
    }
}

impl From<Error> for APIError {
    fn from(error: Error) -> (wrapped: APIError) {
        APIError::DBError(error)
    }
}

impl FromSpecImpl<Error> for APIError {
    open spec fn obeys_from_spec() -> bool {
        true
    }

    open spec fn from_spec(error: Error) -> APIError {
        APIError::DBError(error)
    }
}

impl From<BackendError> for APIError {
    fn from(error: BackendError) -> (wrapped: APIError) {
        APIError::RegistryError(error)
    }
}

impl FromSpecImpl<BackendError> for APIError {
    open spec fn obeys_from_spec() -> bool {
        true
    }

    open spec fn from_spec(error: BackendError) -> APIError {
        APIError::RegistryError(error)
    }
}

impl From<CompileError> for APIError {
    fn from(error: CompileError) -> (wrapped: APIError) {
        APIError::CompileError(error)
    }
}

impl FromSpecImpl<CompileError> for APIError {
    open spec fn obeys_from_spec() -> bool {
        true
    }

    open spec fn from_spec(error: CompileError) -> APIError {
        APIError::CompileError(error)
    }
}

} // verus!
