//! What the service answers to an HTTP caller.

use crate::function::Deployment;
use serde_json::Value;
use vstd::prelude::*;
use vstd::string::*;

verus! {

/// The kind of an answer.
#[derive(Clone, Copy, Debug, PartialEq, Eq, Structural)]
pub enum StatusKind {
    Success,
    BadRequest,
    InternalError,
    NotFound,
    Forbidden,
    UnsupportedMediaType,
}

impl StatusKind {
    /// The HTTP status code that stands for this kind.
    pub open spec fn http_code(self) -> u16 {
        match self {
            StatusKind::Success => 200,
            StatusKind::BadRequest => 400,
            StatusKind::InternalError => 500,
            StatusKind::NotFound => 404,
            StatusKind::Forbidden => 403,
            StatusKind::UnsupportedMediaType => 415,
        }
    }

    /// Returns the HTTP status code of this kind.
    pub fn as_http(&self) -> (code: u16)
        ensures
            code == self.http_code(),
    {
        match self {
            StatusKind::Success => 200,
            StatusKind::BadRequest => 400,
            StatusKind::InternalError => 500,
            StatusKind::NotFound => 404,
            StatusKind::Forbidden => 403,
            StatusKind::UnsupportedMediaType => 415,
        }
    }
}

/// The message of an answer: a text, a worker's result, or the record of a
/// deployment.
#[derive(Debug, PartialEq)]
pub enum Body {
    Text(String),
    Json(Value),
    Deployed(Deployment),
}

/// An answer: its kind and its message.
#[derive(Debug, PartialEq)]
pub struct Status {
    pub kind: StatusKind,
    pub message: Body,
}

impl Status {
    /// An answer of the given kind with the given message.
    pub fn new(kind: StatusKind, message: Body) -> (status: Self)
        ensures
            status.kind == kind,
            status.message == message,
    {
        Status { kind, message }
    }

    /// The answer to a request that succeeded and has nothing to report.
    pub fn ok() -> (status: Self)
        ensures
            status.kind == StatusKind::Success,
            status.message matches Body::Text(text) && text@ == "success"@,
    {
        Status::new(StatusKind::Success, Body::Text(String::from_str("success")))
    }

    /// The answer to a request that succeeded with `payload` as its result.
    pub fn ok_payload(payload: Body) -> (status: Self)
        ensures
            status.kind == StatusKind::Success,
            status.message == payload,
    {
        Status::new(StatusKind::Success, payload)
    }

    /// The answer to a request that failed inside the service.
    pub fn error(message: String) -> (status: Self)
        ensures
            status.kind == StatusKind::InternalError,
            status.message == Body::Text(message),
    {
        Status::new(StatusKind::InternalError, Body::Text(message))
    }
}

} // verus!
