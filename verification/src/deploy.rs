//! The decisions of a deployment: what is deployed, under which name the
//! binary is stored, and what is recorded and answered.

use crate::api::APIError;
use crate::function::{Deployment, FunctionRecord, NewFunction};
use crate::signature::{parse_type, reports, TypeModel};
use crate::status::{Body, Status, StatusKind};
use crate::text::{decimal, decimal_spec};
use crate::wasm::{extract_description, WasmError};
use vstd::prelude::*;
use vstd::std_specs::convert::FromSpecImpl;
use vstd::string::*;

verus! {

/// A function as a caller hands it in: its source code, or its binary.
#[derive(Debug, Clone, PartialEq, Eq)]
pub enum DeployableFunction {
    Body(String),
    Bytes(Vec<u8>),
}

impl From<String> for DeployableFunction {
    fn from(payload: String) -> (function: DeployableFunction) {
        DeployableFunction::Body(payload)
    }
}

impl FromSpecImpl<String> for DeployableFunction {
    open spec fn obeys_from_spec() -> bool {
        true
    }

    open spec fn from_spec(payload: String) -> DeployableFunction {
        DeployableFunction::Body(payload)
    }
}

impl From<Vec<u8>> for DeployableFunction {
    fn from(payload: Vec<u8>) -> (function: DeployableFunction) {
        DeployableFunction::Bytes(payload)
    }
}

impl FromSpecImpl<Vec<u8>> for DeployableFunction {
    open spec fn obeys_from_spec() -> bool {
        true
    }

    open spec fn from_spec(payload: Vec<u8>) -> DeployableFunction {
        DeployableFunction::Bytes(payload)
    }
}

/// `rand::random`: a random number to tell apart the binaries of functions
/// of one name. Nothing is claimed of its value.
#[verifier::external_body]
fn random_suffix() -> (suffix: u32) {
    rand::random::<u32>()
}

/// The name under which the binary of the function `name` is stored, given
/// its suffix.
pub open spec fn blob_name_spec(name: Seq<char>, suffix: u32) -> Seq<char> {
    name + "_"@ + decimal_spec(suffix as nat)
}

/// Returns the name under which the binary of the function `name` is stored.
pub fn blob_name(name: &str, suffix: u32) -> (filename: String)
    ensures
        filename@ == blob_name_spec(name@, suffix),
{
    String::from_str(name).concat("_").concat(decimal(suffix).as_str())
}

/// A function that is ready to be stored: its name, its descriptor bytes,
/// the random suffix that was drawn for it and the name for its binary.
#[derive(Debug, Clone)]
pub struct Prepared {
    pub name: String,
    pub description: Vec<u8>,
    pub suffix: u32,
    pub filename: String,
}

/// Whether `outcome` is what preparation yields for a binary of which
/// extraction gave `extracted`, when `suffix` is the number drawn for it.
///
/// A failed extraction is passed on. An extracted descriptor must decode to
/// a function; if it does not, the decoder's error is the outcome and no
/// name is handed out for the binary. Otherwise the binary's name is the
/// function's name, an underscore and the suffix.
pub open spec fn prepared_as(
    extracted: Result<(String, Vec<u8>), WasmError>,
    suffix: u32,
    outcome: Result<Prepared, APIError>,
) -> bool {
    match extracted {
        Err(e) => outcome matches Err(APIError::WasmError(passed)) && passed == e,
        Ok((name, description)) => match parse_type(description@) {
            Ok((TypeModel::Function(_), _)) => {
                &&& outcome matches Ok(ready)
                &&& ready.name == name
                &&& ready.description == description
                &&& ready.suffix == suffix
                &&& ready.filename@ == blob_name_spec(name@, suffix)
            },
            Ok((_, _)) => outcome matches Err(APIError::DBError(e)) && e is NotAFunction,
            Err(failure) => outcome matches Err(APIError::DBError(e)) && reports(e, failure),
        },
    }
}

/// Decides what preparation yields from what extraction gave and from the
/// number drawn for the binary's name.
pub fn prepared(extracted: Result<(String, Vec<u8>), WasmError>, suffix: u32) -> (outcome: Result<
    Prepared,
    APIError,
>)
    ensures
        prepared_as(extracted, suffix, outcome),
{
    match extracted {
        Err(e) => Err(APIError::from(e)),
        Ok((name, description)) => {
            match FunctionRecord::describe(description.as_slice()) {
                Err(e) => Err(APIError::from(e)),
                Ok(_) => {
                    let filename = blob_name(name.as_str(), suffix);
                    Ok(Prepared { name, description, suffix, filename })
                },
            }
        },
    }
}

/// Prepares a binary for deployment: extracts the function's name and
/// descriptor from it, decodes the descriptor, and picks the name for the
/// stored binary, which is the function's name, an underscore and a random
/// number.
///
/// The outcome is the one that [`prepared`] gives for what extraction gave
/// and for the number drawn. A binary is only ever prepared if its
/// descriptor decodes to a function, so a binary that cannot be recorded is
/// refused before anything is stored.
pub fn prepare(bytes: &[u8]) -> (outcome: Result<Prepared, APIError>)
    ensures
        exists|extracted: Result<(String, Vec<u8>), WasmError>, suffix: u32| #[trigger]
            prepared_as(extracted, suffix, outcome),
        outcome matches Ok(ready) ==> {
            &&& parse_type(ready.description@) matches Ok((TypeModel::Function(_), _))
            &&& ready.filename@ == blob_name_spec(ready.name@, ready.suffix)
        },
        outcome matches Err(e) ==> e is WasmError || e is DBError,
{
    let extracted = extract_description(bytes);
    let suffix = random_suffix();
    let outcome = prepared(extracted, suffix);
    assert(prepared_as(extracted, suffix, outcome));
    outcome
}

/// Builds the record of a prepared function whose binary was stored at
/// `path`: the path serves as both of the record's addresses.
pub fn record<'a>(ready: &'a Prepared, path: &'a str) -> (outcome: Result<NewFunction<'a>, APIError>)
    ensures
        match parse_type(ready.description@) {
            Ok((TypeModel::Function(f), _)) => outcome matches Ok(row) && row.wf()
                && row.signature@ == *f && row.name@ == ready.name@ && row.uri@ == path@
                && row.user_uri@ == path@,
            Ok((_, _)) => outcome matches Err(APIError::DBError(e)) && e is NotAFunction,
            Err(failure) => outcome matches Err(APIError::DBError(e)) && reports(e, failure),
        },
{
    match FunctionRecord::new(ready.name.as_str(), path, path, ready.description.as_slice()) {
        Ok(row) => Ok(row),
        Err(e) => Err(APIError::from(e)),
    }
}

/// The answer to a deployment that stored `func`.
pub fn deployed(func: FunctionRecord) -> (status: Status)
    ensures
        status.kind == StatusKind::Success,
        status.message matches Body::Deployed(answer) && answer.id == func.id && answer.name
            == func.name && answer.uri == func.user_uri,
{
    Status::ok_payload(Body::Deployed(Deployment::new(func)))
}

} // verus!
