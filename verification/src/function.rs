//! Function records.

use crate::error::Error;
use crate::signature::{
    lemma_encode_inverts_decode, parse_type, reports, valid_signature, valid_type, DecodeFailure,
    FunctionType, TypeDesc, TypeModel,
};
use serde_json::Value;
use std::time::SystemTime;
use vstd::prelude::*;

verus! {

#[verifier::external_type_specification]
#[verifier::external_body]
pub struct ExSystemTime(SystemTime);

/// A deployed function, as the relational store holds it.
#[derive(Debug)]
pub struct FunctionRecord {
    pub id: i32,
    pub arity: i32,
    pub created_at: SystemTime,
    pub updated_at: SystemTime,
    pub name: String,
    pub uri: String,
    pub user_uri: String,
    pub signature: FunctionType,
}

/// A function that is about to be stored.
#[derive(Debug)]
pub struct NewFunction<'a> {
    pub arity: i32,
    pub name: &'a str,
    pub uri: &'a str,
    pub user_uri: &'a str,
    pub signature: FunctionType,
}

/// What describing a function yields, given the parse of its descriptor
/// bytes: the signature if the outermost descriptor is a function,
/// `NotAFunction` if it is another descriptor.
pub open spec fn described(
    parsed: Result<(TypeModel, Seq<u8>), DecodeFailure>,
    outcome: Result<(usize, FunctionType), Error>,
) -> bool {
    match parsed {
        Ok((TypeModel::Function(f), _)) => outcome matches Ok((arity, signature)) && signature@
            == *f && arity == f.params.len(),
        Ok((_, _)) => outcome matches Err(e) && e is NotAFunction,
        Err(failure) => outcome matches Err(e) && reports(e, failure),
    }
}

impl<'a> NewFunction<'a> {
    /// The record's invariant: the arity is the number of parameters.
    pub open spec fn wf(self) -> bool {
        self.arity == self.signature@.params.len()
    }
}

impl FunctionRecord {
    /// Decodes the descriptor bytes of a function into its arity and its
    /// signature. Bytes behind the descriptor are not looked at.
    pub fn describe(description: &[u8]) -> (outcome: Result<(usize, FunctionType), Error>)
        ensures
            described(parse_type(description@), outcome),
    {
        let mut rest = description;
        match TypeDesc::decode(&mut rest) {
            Ok(TypeDesc::Function(func)) => {
                let arity = func.arity();
                Ok((arity, *func))
            },
            Ok(_) => Err(Error::NotAFunction),
            Err(e) => Err(e),
        }
    }

    /// Builds the record to store for a function from its name, its two
    /// addresses and its descriptor bytes.
    pub fn new<'a>(name: &'a str, uri: &'a str, user_uri: &'a str, description: &[u8]) -> (outcome:
        Result<NewFunction<'a>, Error>)
        ensures
            match parse_type(description@) {
                Ok((TypeModel::Function(f), _)) => outcome matches Ok(record) && record.wf()
                    && record.signature@ == *f && record.name@ == name@ && record.uri@ == uri@
                    && record.user_uri@ == user_uri@,
                Ok((_, _)) => outcome matches Err(e) && e is NotAFunction,
                Err(failure) => outcome matches Err(e) && reports(e, failure),
            },
    {
        match FunctionRecord::describe(description) {
            Ok((arity, signature)) => {
                proof {
                    lemma_encode_inverts_decode(description@);
                    let model = parse_type(description@)->Ok_0.0;
                    assert(valid_type(model));
                    assert(valid_signature(*model->Function_0));
                }
                Ok(NewFunction { arity: arity as i32, name, uri, user_uri, signature })
            },
            Err(e) => Err(e),
        }
    }

    /// Checks that an invocation brings as many arguments as the function
    /// has parameters.
    pub fn validate_args(&self, args: &Vec<Value>) -> (outcome: Result<(), Error>)
        ensures
            self.arity == args@.len() ==> outcome is Ok,
            self.arity != args@.len() ==> (outcome matches Err(e) && e is MismatchedArgs),
    {
        if self.arity >= 0 && self.arity as usize == args.len() {
            Ok(())
        } else {
            Err(Error::MismatchedArgs)
        }
    }
}

/// What a caller learns of a deployment: the function's identifier, its
/// name and the address under which it can be invoked.
#[derive(Debug, Clone, PartialEq, Eq)]
pub struct Deployment {
    pub id: i32,
    pub name: String,
    pub uri: String,
}

impl Deployment {
    /// The answer to the deployment of `func`.
    pub fn new(func: FunctionRecord) -> (answer: Self)
        ensures
            answer.id == func.id,
            answer.name == func.name,
            answer.uri == func.user_uri,
    {
        Deployment { id: func.id, name: func.name, uri: func.user_uri }
    }
}

} // verus!
