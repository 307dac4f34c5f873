//! What a handler extracts from a request: the function to deploy, by the
//! request's content type, and the address of the caller.

use crate::deploy::DeployableFunction;
use crate::status::{Body, Status, StatusKind};
use crate::text::{has_prefix, utf8_error_text, utf8_text};
use vstd::prelude::*;
use vstd::string::*;

verus! {

/// A value that was extracted from a request body by its content type.
#[derive(Debug)]
pub struct WasmRepr<T>(pub T);

/// The network address of a caller.
#[derive(Debug, Clone, PartialEq, Eq)]
pub struct RemoteAddress(pub String);

/// How the body of a deployment request is to be read.
#[derive(Debug, Clone, Copy, PartialEq, Eq, Structural)]
pub enum PayloadKind {
    /// A JSON object that holds the source code.
    Json,
    /// The bytes of a compiled module.
    Wasm,
    /// The source code as text.
    Text,
}

/// How a body of the given content type is to be read, if at all.
pub open spec fn payload_kind_spec(content_type: Seq<char>) -> Option<PayloadKind> {
    if "application/json"@.is_prefix_of(content_type) {
        Some(PayloadKind::Json)
    } else if "application/wasm"@.is_prefix_of(content_type) {
        Some(PayloadKind::Wasm)
    } else if "application/text"@.is_prefix_of(content_type) {
        Some(PayloadKind::Text)
    } else {
        None
    }
}

/// Whether `status` refuses a request for its media type with `text`.
pub open spec fn refuses_media(status: Status, text: Seq<char>) -> bool {
    &&& status.kind == StatusKind::UnsupportedMediaType
    &&& status.message matches Body::Text(message)
    &&& message@ == text
}

/// Decides from the `Content-Type` header how the body of a deployment
/// request is to be read. A request without the header, or with a content
/// type that is none of the three known ones, is refused.
pub fn payload_kind(content_type: Option<&str>) -> (kind: Result<PayloadKind, Status>)
    ensures
        match content_type {
            None => kind matches Err(status) && refuses_media(
                status,
                "Content-Type must be provided"@,
            ),
            Some(given) => match payload_kind_spec(given@) {
                Some(expected) => kind matches Ok(found) && found == expected,
                None => kind matches Err(status) && refuses_media(
                    status,
                    "unsupported content type: "@ + given@,
                ),
            },
        },
{
    match content_type {
        None => Err(
            Status::new(
                StatusKind::UnsupportedMediaType,
                Body::Text(String::from_str("Content-Type must be provided")),
            ),
        ),
        Some(given) => {
            if has_prefix(given, "application/json") {
                Ok(PayloadKind::Json)
            } else if has_prefix(given, "application/wasm") {
                Ok(PayloadKind::Wasm)
            } else if has_prefix(given, "application/text") {
                Ok(PayloadKind::Text)
            } else {
                let message = String::from_str("unsupported content type: ").concat(given);
                Err(Status::new(StatusKind::UnsupportedMediaType, Body::Text(message)))
            }
        },
    }
}

impl WasmRepr<DeployableFunction> {
    /// The function that a body of compiled bytes holds.
    pub fn from_wasm(payload: Vec<u8>) -> (extracted: Self)
        ensures
            extracted.0 == DeployableFunction::Bytes(payload),
    {
        WasmRepr(DeployableFunction::from(payload))
    }

    /// The function that a body of source text holds. A body that is not
    /// UTF-8 is refused.
    pub fn from_text(payload: &[u8]) -> (extracted: Result<Self, Status>)
        ensures
            match extracted {
                Ok(repr) => {
                    &&& vstd::utf8::valid_utf8(payload@)
                    &&& repr.0 matches DeployableFunction::Body(code)
                    &&& code@ == vstd::utf8::decode_utf8(payload@)
                },
                Err(status) => !vstd::utf8::valid_utf8(payload@) && refuses_media(
                    status,
                    "malformed payload "@ + utf8_error_text(payload@),
                ),
            },
    {
        match utf8_text(payload) {
            Ok(code) => Ok(WasmRepr(DeployableFunction::from(code))),
            Err(fault) => {
                let message = String::from_str("malformed payload ").concat(fault.as_str());
                Err(Status::new(StatusKind::UnsupportedMediaType, Body::Text(message)))
            },
        }
    }
}

impl RemoteAddress {
    /// Decides the address of a caller: what the `X-Forwarded-For` header
    /// says if the request has one, the peer of the connection otherwise. A
    /// request with neither is refused as a bad request.
    pub fn resolve(forwarded: Option<String>, peer: Option<String>) -> (address: Result<
        RemoteAddress,
        Status,
    >)
        ensures
            match (forwarded, peer) {
                (Some(addr), _) => address matches Ok(found) && found.0 == addr,
                (None, Some(addr)) => address matches Ok(found) && found.0 == addr,
                (None, None) => {
                    &&& address matches Err(status)
                    &&& status.kind == StatusKind::BadRequest
                    &&& status.message matches Body::Text(text)
                    &&& text@ == "Unrecognized remote host"@
                },
            },
    {
        match forwarded {
            Some(addr) => Ok(RemoteAddress(addr)),
            None => match peer {
                Some(addr) => Ok(RemoteAddress(addr)),
                None => Err(
                    Status::new(
                        StatusKind::BadRequest,
                        Body::Text(String::from_str("Unrecognized remote host")),
                    ),
                ),
            },
        }
    }
}

} // verus!
