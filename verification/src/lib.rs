//! Control-plane core of a function-as-a-service system: the worker pool and
//! its round-robin dispatch, the reply table that correlates worker responses
//! with pending invocations, the decisions of the per-connection supervisor,
//! and the decoder of function signature descriptors.

pub mod api;
pub mod backend;
pub mod channel;
pub mod compiler;
pub mod deploy;
pub mod error;
pub mod extract;
pub mod function;
pub mod ids;
pub mod invoke;
pub mod pool;
pub mod proto;
pub mod signature;
pub mod registry;
pub mod reply;
pub mod settings;
pub mod status;
pub mod storage;
pub mod supervisor;
pub mod text;
pub mod wasm;
