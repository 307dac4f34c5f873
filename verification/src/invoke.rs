//! The decisions of an invocation request before it reaches the registry.

use crate::api::APIError;
use crate::function::FunctionRecord;
use serde_json::Value;
use std::time::SystemTime;
use vstd::prelude::*;

verus! {

/// What a caller sends to invoke a function: the arguments.
#[derive(Debug)]
pub struct UserInvokeRequest {
    pub args: Vec<Value>,
}

/// The audit record of an invocation that is about to be stored.
#[derive(Debug, PartialEq)]
pub struct NewInvokeRequest {
    pub function_id: i32,
    pub user_addr: String,
    pub payload: Option<Value>,
}

/// The audit record of an invocation, as the relational store holds it.
#[derive(Debug)]
pub struct InvokeRequest {
    pub id: i32,
    pub created_at: SystemTime,
    pub function_id: i32,
    pub user_addr: String,
    pub payload: Option<Value>,
}

impl InvokeRequest {
    /// The audit record of an invocation of the function `function_id` by
    /// the caller at `user_addr` with the arguments `payload`.
    pub fn new(user_addr: String, function_id: i32, payload: Option<Value>) -> (row:
        NewInvokeRequest)
        ensures
            row.user_addr == user_addr,
            row.function_id == function_id,
            row.payload == payload,
    {
        NewInvokeRequest { user_addr, function_id, payload }
    }
}

/// Lets an invocation of `func` pass: the request must bring as many arguments
/// as the function has parameters.
pub fn check_request(func: &FunctionRecord, request: &UserInvokeRequest) -> (outcome: Result<(), APIError>)
    ensures
        func.arity == request.args@.len() ==> outcome is Ok,
        func.arity != request.args@.len() ==> (outcome matches Err(APIError::DBError(e)) && e
            is MismatchedArgs),
{
    match func.validate_args(&request.args) {
        Ok(()) => Ok(()),
        Err(e) => Err(APIError::from(e)),
    }
}

} // verus!
