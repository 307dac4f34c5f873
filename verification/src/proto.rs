//! The messages that travel between the registry, the connection
//! supervisors and the workers.

use crate::signature::FunctionType;
use serde_json::Value;
use tokio::sync::oneshot::Sender;
use vstd::prelude::*;

verus! {

#[verifier::external_type_specification]
#[verifier::external_body]
pub struct ExValue(Value);

#[verifier::external_type_specification]
#[verifier::external_body]
#[verifier::reject_recursive_types(T)]
pub struct ExReplySender<T>(Sender<T>);

/// What a reply slot carries to the caller that waits on it.
#[derive(Debug, PartialEq)]
pub enum RegistryMsg {
    /// The worker's result for the invocation.
    InvokeResult(Value),
    /// The worker's connection went away while the invocation was pending.
    Disconnected,
}

/// What the registry places on a worker's dispatch channel.
#[derive(Debug)]
pub enum NodeMsg {
    /// Run a function on the worker and answer through `sender`.
    Invoke {
        name: String,
        uri: String,
        signature: FunctionType,
        args: Vec<Value>,
        sender: Sender<RegistryMsg>,
    },
}

/// A frame of the protocol spoken with a worker over its socket.
#[derive(Debug, PartialEq)]
pub enum WSProto {
    /// Server to worker: run this function with these arguments.
    Invoke {
        request_id: String,
        name: String,
        uri: String,
        signature: FunctionType,
        args: Vec<Value>,
    },
    /// Worker to server: the result of the request with this identifier.
    Result { request_id: String, content: Value },
}

/// The two kinds of protocol frame.
#[derive(Debug, Clone, Copy, PartialEq, Eq, Structural)]
pub enum WSProtoKind {
    Invoke,
    Result,
}

impl WSProto {
    /// The kind of this frame.
    pub fn kind(&self) -> (kind: WSProtoKind)
        ensures
            kind == match self {
                WSProto::Invoke { .. } => WSProtoKind::Invoke,
                WSProto::Result { .. } => WSProtoKind::Result,
            },
    {
        match self {
            WSProto::Invoke { .. } => WSProtoKind::Invoke,
            WSProto::Result { .. } => WSProtoKind::Result,
        }
    }

    /// Builds the frame that asks a worker to run a function.
    pub fn invoke_request(
        request_id: String,
        name: String,
        uri: String,
        signature: FunctionType,
        args: Vec<Value>,
    ) -> (frame: WSProto)
        ensures
            frame == (WSProto::Invoke { request_id, name, uri, signature, args }),
    {
        WSProto::Invoke { request_id, name, uri, signature, args }
    }
}

} // verus!
