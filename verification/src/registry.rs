//! The registry of workers: registration, deregistration, and the decisions
//! of an invocation.
//!
//! An invocation waits twice, for room on the chosen worker's dispatch
//! channel and for the worker's reply. The waiting belongs to the runtime
//! that drives the registry; what is decided before, between and after the
//! two waits is decided here.

use crate::backend::BackendError;
use crate::channel::{dispatch_channel, poll_dispatch, reply_slot, valid_channel_size};
use crate::ids::fresh_worker_id;
use crate::pool::{advanced, selected, WorkerHandle, WorkersBucket};
use crate::proto::{NodeMsg, RegistryMsg};
use crate::settings::RegistrySettings;
use crate::signature::FunctionType;
use crate::status::{Body, Status, StatusKind};
use serde_json::Value;
use std::sync::Arc;
use tokio::sync::mpsc::Receiver;
use vstd::prelude::*;

verus! {

/// What a connection supervisor holds of its worker's registration: the
/// worker's identifier and the receiving half of its dispatch channel.
#[derive(Debug)]
pub struct RegistryHandle {
    pub id: u128,
    pub receiver: Receiver<NodeMsg>,
}

impl RegistryHandle {
    /// The handle of the worker `id` whose dispatch channel ends in
    /// `receiver`.
    pub fn new(id: u128, receiver: Receiver<NodeMsg>) -> (handle: Self)
        ensures
            handle.id == id,
            handle.receiver == receiver,
    {
        RegistryHandle { id, receiver }
    }

    /// Takes the next message off the dispatch channel, if one waits.
    pub fn poll(&mut self) -> (next: Option<NodeMsg>)
        ensures
            final(self).id == old(self).id,
    {
        poll_dispatch(&mut self.receiver)
    }
}

/// An invocation that has been assigned to a worker: the worker, the message
/// to place on its dispatch channel, the receiving half of the reply slot,
/// and the number of seconds within which the invocation has to end.
#[derive(Debug)]
pub struct Dispatch {
    pub worker: Arc<WorkerHandle>,
    pub msg: NodeMsg,
    pub receiver: tokio::sync::oneshot::Receiver<RegistryMsg>,
    pub timeout_secs: u64,
}

/// How the wait for room on the dispatch channel ended.
#[derive(Debug, Clone, Copy, PartialEq, Eq, Structural)]
pub enum SendOutcome {
    /// The message is on the channel.
    Sent,
    /// The channel stayed full for the whole deadline.
    TimedOut,
    /// The connection supervisor has dropped its end of the channel.
    Closed,
}

/// How the wait on the reply slot ended.
#[derive(Debug, PartialEq)]
pub enum ReplyOutcome {
    /// The slot delivered this message.
    Received(RegistryMsg),
    /// Nothing was delivered within the deadline.
    Elapsed,
    /// The slot was dropped without a delivery.
    Dropped,
}

/// Whether `result` is what an invocation returns when the wait on its reply
/// slot ended with `outcome`.
pub open spec fn concluded(outcome: ReplyOutcome, result: Result<Status, BackendError>) -> bool {
    match outcome {
        ReplyOutcome::Received(RegistryMsg::InvokeResult(value)) => {
            &&& result matches Ok(status)
            &&& status.kind == StatusKind::Success
            &&& status.message == Body::Json(value)
        },
        ReplyOutcome::Received(RegistryMsg::Disconnected) => result == Err::<
            Status,
            BackendError,
        >(BackendError::NoReply),
        ReplyOutcome::Dropped => result == Err::<Status, BackendError>(BackendError::NoReply),
        ReplyOutcome::Elapsed => result == Err::<Status, BackendError>(BackendError::Timeout),
    }
}

/// An invocation that reached a worker ends in exactly one of three ways:
/// with the worker's result, because the worker's connection went away, or
/// because the deadline passed; and each way shows in what is returned.
pub proof fn lemma_invocation_ends_one_way(
    outcome: ReplyOutcome,
    result: Result<Status, BackendError>,
)
    requires
        concluded(outcome, result),
    ensures
        result is Ok <==> outcome matches ReplyOutcome::Received(RegistryMsg::InvokeResult(_)),
        result == Err::<Status, BackendError>(BackendError::NoReply) <==> (outcome
            matches ReplyOutcome::Received(RegistryMsg::Disconnected) || outcome is Dropped),
        result == Err::<Status, BackendError>(BackendError::Timeout) <==> outcome is Elapsed,
        (if result is Ok {
            1int
        } else {
            0int
        }) + (if result == Err::<Status, BackendError>(BackendError::NoReply) {
            1int
        } else {
            0int
        }) + (if result == Err::<Status, BackendError>(BackendError::Timeout) {
            1int
        } else {
            0int
        }) == 1,
{
}

/// The registry of workers.
pub struct Registry {
    workers: WorkersBucket,
    channel_size: usize,
    timeout_secs: u64,
}

impl Registry {
    /// The pool of workers.
    pub closed spec fn pool(self) -> WorkersBucket {
        self.workers
    }

    /// The depth of each worker's dispatch channel.
    pub closed spec fn channel_depth(self) -> usize {
        self.channel_size
    }

    /// The deadline of an invocation, in seconds.
    pub closed spec fn deadline_secs(self) -> u64 {
        self.timeout_secs
    }

    /// The registry's invariant: that of its pool.
    pub open spec fn wf(self) -> bool {
        self.pool().wf()
    }

    /// Starts a registry without workers.
    pub fn start(settings: &RegistrySettings) -> (registry: Self)
        ensures
            registry.wf(),
            registry.pool().handles() == Seq::<WorkerHandle>::empty(),
            registry.pool().cursor() == 0,
            registry.channel_depth() == settings.channel_size,
            registry.deadline_secs() == settings.timeout_secs,
    {
        Registry {
            workers: WorkersBucket::new(),
            channel_size: settings.channel_size,
            timeout_secs: settings.timeout_secs as u64,
        }
    }

    /// The number of registered workers.
    pub fn size(&self) -> (n: usize)
        ensures
            n == self.pool().handles().len(),
    {
        self.workers.size()
    }

    /// The deadline of an invocation, in seconds.
    pub fn timeout_secs(&self) -> (secs: u64)
        ensures
            secs == self.deadline_secs(),
    {
        self.timeout_secs
    }

    /// Whether a dispatch channel of the configured depth can be made, which
    /// [`Registry::register`] asks for.
    pub fn can_register(&self) -> (possible: bool)
        ensures
            possible == valid_channel_size(self.channel_depth()),
    {
        self.channel_size > 0 && self.channel_size <= usize::MAX / 8
    }

    /// Registers a new worker: mints its identifier, makes its dispatch
    /// channel, appends the sending half to the pool and returns the
    /// receiving half with the identifier.
    ///
    /// The identifier is a random one. Should a worker of the pool have it
    /// already, the least number that no worker has is taken instead, so
    /// that the pool always grows by the one worker that was registered.
    pub fn register(&mut self) -> (handle: RegistryHandle)
        requires
            old(self).wf(),
            valid_channel_size(old(self).channel_depth()),
        ensures
            final(self).wf(),
            final(self).channel_depth() == old(self).channel_depth(),
            final(self).deadline_secs() == old(self).deadline_secs(),
            final(self).pool().cursor() == old(self).pool().cursor(),
            !old(self).pool().ids().contains(handle.id),
            final(self).pool().handles().len() == old(self).pool().handles().len() + 1,
            exists|worker: WorkerHandle|
                worker.id == handle.id && final(self).pool().handles() == old(
                    self,
                ).pool().handles().push(worker),
    {
        let worker_id = self.workers.free_id(fresh_worker_id());
        let (sender, receiver) = dispatch_channel(self.channel_size);
        let worker = WorkerHandle::new(worker_id, sender);
        let ghost before = self.workers.handles();
        self.workers.add(worker);
        assert(self.workers.handles() == before.push(worker));
        RegistryHandle::new(worker_id, receiver)
    }

    /// Takes the worker `worker_id` out of the pool. An identifier that the
    /// pool does not hold changes nothing.
    pub fn deregister(&mut self, worker_id: &u128)
        requires
            old(self).wf(),
        ensures
            final(self).wf(),
            final(self).channel_depth() == old(self).channel_depth(),
            final(self).deadline_secs() == old(self).deadline_secs(),
            final(self).pool().cursor() == old(self).pool().cursor(),
            final(self).pool().handles() == if old(self).pool().ids().contains(*worker_id) {
                old(self).pool().handles().remove(old(self).pool().ids().index_of(*worker_id))
            } else {
                old(self).pool().handles()
            },
            !final(self).pool().ids().contains(*worker_id),
    {
        let ghost before = self.workers;
        let _ = self.workers.remove(worker_id);
        proof {
            before.lemma_size_is_index_size();
            if before.ids().contains(*worker_id) {
                let at = before.ids().index_of(*worker_id);
                let after = self.workers.ids();
                assert(after =~= before.ids().remove(at));
                if after.contains(*worker_id) {
                    let j = choose|j: int| 0 <= j < after.len() && after[j] == *worker_id;
                    if j < at {
                        assert(before.ids()[j] == *worker_id);
                    } else {
                        assert(before.ids()[j + 1] == *worker_id);
                    }
                }
            }
        }
    }

    /// Begins an invocation: picks the next worker in rotation, makes the
    /// reply slot and builds the message for the worker's dispatch channel.
    ///
    /// Without workers the invocation fails at once with
    /// `NoWorkersAvailable`.
    pub fn invoke(&mut self, name: String, uri: String, signature: FunctionType, args: Vec<Value>)
        -> (begun: Result<Dispatch, BackendError>)
        requires
            old(self).wf(),
        ensures
            final(self).wf(),
            final(self).pool().handles() == old(self).pool().handles(),
            final(self).channel_depth() == old(self).channel_depth(),
            final(self).deadline_secs() == old(self).deadline_secs(),
            match begun {
                Ok(dispatch) => {
                    &&& old(self).pool().handles().len() > 0
                    &&& *dispatch.worker == old(self).pool().handles()[selected(
                        old(self).pool().cursor(),
                        old(self).pool().handles().len(),
                    )]
                    &&& final(self).pool().cursor() == advanced(
                        old(self).pool().cursor(),
                        old(self).pool().handles().len(),
                    )
                    &&& dispatch.timeout_secs == old(self).deadline_secs()
                    &&& dispatch.msg matches NodeMsg::Invoke {
                        name: sent_name,
                        uri: sent_uri,
                        signature: sent_signature,
                        args: sent_args,
                        sender: _,
                    } && sent_name == name && sent_uri == uri && sent_signature == signature
                        && sent_args == args
                },
                Err(e) => {
                    &&& e == BackendError::NoWorkersAvailable
                    &&& old(self).pool().handles().len() == 0
                    &&& final(self).pool().cursor() == old(self).pool().cursor()
                },
            },
    {
        let worker = match self.workers.get_worker() {
            Ok(worker) => worker,
            Err(e) => {
                return Err(e);
            },
        };
        let (sender, receiver) = reply_slot();
        let msg = NodeMsg::Invoke { name, uri, signature, args, sender };
        Ok(Dispatch { worker, msg, receiver, timeout_secs: self.timeout_secs })
    }

    /// Decides how an invocation goes on after the wait for room on the
    /// dispatch channel: it goes on if the message was sent, and fails with
    /// `Timeout` otherwise.
    pub fn after_send(outcome: SendOutcome) -> (decision: Result<(), BackendError>)
        ensures
            decision == match outcome {
                SendOutcome::Sent => Ok::<(), BackendError>(()),
                SendOutcome::TimedOut => Err(BackendError::Timeout),
                SendOutcome::Closed => Err(BackendError::Timeout),
            },
    {
        match outcome {
            SendOutcome::Sent => Ok(()),
            SendOutcome::TimedOut => Err(BackendError::Timeout),
            SendOutcome::Closed => Err(BackendError::Timeout),
        }
    }

    /// Decides what an invocation returns after the wait on its reply slot:
    /// the worker's result as a success, `NoReply` if the worker's
    /// connection went away, `Timeout` if nothing came within the deadline.
    pub fn conclude(outcome: ReplyOutcome) -> (result: Result<Status, BackendError>)
        ensures
            concluded(outcome, result),
    {
        match outcome {
            ReplyOutcome::Received(RegistryMsg::InvokeResult(value)) => Ok(
                Status::ok_payload(Body::Json(value)),
            ),
            ReplyOutcome::Received(RegistryMsg::Disconnected) => Err(BackendError::NoReply),
            ReplyOutcome::Dropped => Err(BackendError::NoReply),
            ReplyOutcome::Elapsed => Err(BackendError::Timeout),
        }
    }
}

} // verus!
