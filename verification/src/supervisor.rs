//! The decisions of a connection supervisor.
//!
//! A supervisor owns one worker's socket and runs two loops over it. The
//! outbound loop polls the worker's dispatch channel, forwards what it finds
//! and pings the worker after a run of idle polls. The inbound loop reads
//! the worker's frames and routes results to their callers. The socket and
//! the timers belong to the runtime; each function here is one step of a
//! loop, from what the runtime observed to what it has to do next.

use crate::channel::deliver;
use crate::ids::fresh_request_id;
use crate::proto::{NodeMsg, RegistryMsg, WSProto};
use crate::registry::Registry;
use crate::reply::WSReplyPool;
use core::ops::ControlFlow;
use tokio::sync::oneshot::Sender;
use vstd::prelude::*;

verus! {

/// The usual ping interval: after this many polls in a row that found
/// nothing to forward, the outbound loop pings the worker.
pub const PING_INTERVAL: usize = 100;

/// The number of milliseconds the outbound loop sleeps between two polls.
pub const POLL_PAUSE_MILLIS: u64 = 1;

/// The number of seconds of silence after which the inbound loop gives the
/// worker up.
pub const IDLE_DEADLINE_SECS: u64 = 60;

/// The payload of a ping frame.
pub open spec fn ping_payload_spec() -> Seq<u8> {
    seq![0x41u8, 0x42u8, 0x43u8]
}

/// Returns the payload of a ping frame.
pub fn ping_payload() -> (payload: Vec<u8>)
    ensures
        payload@ == ping_payload_spec(),
{
    let mut payload: Vec<u8> = Vec::new();
    payload.push(0x41);
    payload.push(0x42);
    payload.push(0x43);
    assert(payload@ =~= ping_payload_spec());
    payload
}

/// What the outbound loop has to do after a poll.
#[derive(Debug, PartialEq)]
pub enum RelayAction {
    /// Write this frame to the socket as text.
    Forward(WSProto),
    /// Write a ping frame with the ping payload to the socket.
    Ping,
    /// Write nothing.
    Wait,
}

/// Prepares an invocation for the socket: mints the request identifier,
/// registers the reply slot under it and builds the frame that carries the
/// identifier. The slot is in the table before the caller gets the frame, so
/// that no reply can arrive for an identifier that is not registered.
///
/// Were the new identifier already in the table, the slot it displaces is
/// told that its connection is gone.
pub fn send_to_worker(msg: NodeMsg, reply_pool: &mut WSReplyPool) -> (frame: WSProto)
    requires
        old(reply_pool).wf(),
    ensures
        final(reply_pool).wf(),
        match (msg, frame) {
            (
                NodeMsg::Invoke { name, uri, signature, args, sender },
                WSProto::Invoke {
                    request_id,
                    name: frame_name,
                    uri: frame_uri,
                    signature: frame_signature,
                    args: frame_args,
                },
            ) => {
                &&& frame_name == name
                &&& frame_uri == uri
                &&& frame_signature == signature
                &&& frame_args == args
                &&& final(reply_pool)@ == old(reply_pool)@.insert(request_id@, sender)
            },
            _ => false,
        },
{
    match msg {
        NodeMsg::Invoke { name, uri, signature, args, sender } => {
            let request_id = fresh_request_id();
            let frame = WSProto::invoke_request(request_id.clone(), name, uri, signature, args);
            match reply_pool.register(request_id, sender) {
                Some(displaced) => {
                    let _ = deliver(displaced, RegistryMsg::Disconnected);
                },
                None => {},
            }
            frame
        },
    }
}

/// Whether a poll that found nothing, after `idle` such polls in a row, is
/// the one at which the worker is pinged.
pub open spec fn ping_due(idle: usize, interval: usize) -> bool {
    idle + 1 >= interval
}

/// Where the count of idle polls stands after one more poll.
pub open spec fn idle_after(idle: usize, interval: usize, found: bool) -> usize {
    if found || ping_due(idle, interval) {
        0
    } else {
        (idle + 1) as usize
    }
}

/// One step of the outbound loop: decides what to write to the socket after
/// a poll of the dispatch channel that yielded `polled`.
///
/// A message is prepared as by [`send_to_worker`] and forwarded, and the
/// count of idle polls starts again. Without a message the count grows by
/// one; when it reaches `interval` the worker is pinged and the count
/// starts again.
pub fn worker_relay(
    idle: &mut usize,
    interval: usize,
    polled: Option<NodeMsg>,
    reply_pool: &mut WSReplyPool,
) -> (action: RelayAction)
    requires
        old(reply_pool).wf(),
    ensures
        final(reply_pool).wf(),
        *final(idle) == idle_after(*old(idle), interval, polled is Some),
        match polled {
            Some(NodeMsg::Invoke { name, uri, signature, args, sender }) => {
                &&& action matches RelayAction::Forward(
                    WSProto::Invoke {
                        request_id,
                        name: frame_name,
                        uri: frame_uri,
                        signature: frame_signature,
                        args: frame_args,
                    },
                )
                &&& frame_name == name
                &&& frame_uri == uri
                &&& frame_signature == signature
                &&& frame_args == args
                &&& final(reply_pool)@ == old(reply_pool)@.insert(request_id@, sender)
            },
            None => {
                &&& final(reply_pool)@ == old(reply_pool)@
                &&& if ping_due(*old(idle), interval) {
                    action is Ping
                } else {
                    action is Wait
                }
            },
        },
{
    match polled {
        Some(msg) => {
            let frame = send_to_worker(msg, reply_pool);
            *idle = 0;
            RelayAction::Forward(frame)
        },
        None => {
            if *idle >= interval || *idle + 1 >= interval {
                *idle = 0;
                RelayAction::Ping
            } else {
                *idle = *idle + 1;
                RelayAction::Wait
            }
        },
    }
}

/// Decides whether the outbound loop goes on after a write to the socket:
/// it ends on the first write that fails.
pub fn after_write(written: bool) -> (flow: ControlFlow<(), ()>)
    ensures
        flow == if written {
            ControlFlow::<(), ()>::Continue(())
        } else {
            ControlFlow::<(), ()>::Break(())
        },
{
    if written {
        ControlFlow::Continue(())
    } else {
        ControlFlow::Break(())
    }
}

/// Decides whether the inbound loop goes on after a result was handed to
/// the reply table: it goes on if the result reached its caller, and ends
/// if the table gave the result back, because no slot was registered for it
/// or because the slot's caller had gone.
pub fn after_delivery(outcome: Result<(), RegistryMsg>) -> (flow: ControlFlow<(), ()>)
    ensures
        flow is Continue <==> outcome is Ok,
        flow is Break <==> outcome is Err,
{
    match outcome {
        Ok(()) => ControlFlow::Continue(()),
        Err(_) => ControlFlow::Break(()),
    }
}

/// What the inbound loop observed.
#[derive(Debug, PartialEq)]
pub enum WorkerEvent {
    /// A text frame that holds this protocol frame.
    Frame(WSProto),
    /// A text frame that holds no protocol frame.
    Malformed,
    /// A pong frame.
    Pong,
    /// A close frame.
    Close,
    /// A frame of another kind.
    Other,
    /// No frame for [`IDLE_DEADLINE_SECS`] seconds.
    Silent,
    /// The socket failed or ended.
    Failed,
}

/// Whether the inbound loop may go on after an event, given the table of
/// pending requests before it.
pub open spec fn may_go_on(event: WorkerEvent, pending: Map<Seq<char>, Sender<RegistryMsg>>) -> bool {
    match event {
        WorkerEvent::Frame(WSProto::Result { request_id, content }) => pending.contains_key(
            request_id@,
        ),
        WorkerEvent::Frame(WSProto::Invoke { .. }) => false,
        WorkerEvent::Malformed => false,
        WorkerEvent::Pong => true,
        WorkerEvent::Close => false,
        WorkerEvent::Other => true,
        WorkerEvent::Silent => false,
        WorkerEvent::Failed => false,
    }
}

/// One step of the inbound loop: handles what the socket yielded and decides
/// whether the loop goes on.
///
/// A result for a pending request is routed to its caller, and
/// [`after_delivery`] decides from the outcome of the delivery: the loop goes
/// on if the result reached its caller; if the caller has given up waiting,
/// the result is treated as one for an unknown request. A result for an unknown request, an invocation sent
/// by the worker and a malformed frame are protocol violations: the loop
/// ends. It also ends on a close frame, on silence and on a failed socket.
/// A pong sets the time of the last heartbeat to `now`; it and frames of
/// other kinds let the loop go on.
pub fn process_worker_msg(
    event: WorkerEvent,
    now: u64,
    last_heartbeat: &mut u64,
    reply_pool: &mut WSReplyPool,
) -> (flow: ControlFlow<(), ()>)
    requires
        old(reply_pool).wf(),
    ensures
        final(reply_pool).wf(),
        final(reply_pool)@ == match event {
            WorkerEvent::Frame(WSProto::Result { request_id, content }) => old(reply_pool)@.remove(
                request_id@,
            ),
            _ => old(reply_pool)@,
        },
        *final(last_heartbeat) == if event is Pong {
            now
        } else {
            *old(last_heartbeat)
        },
        !may_go_on(event, old(reply_pool)@) ==> flow is Break,
        flow is Break ==> !may_go_on(event, old(reply_pool)@) || event
            matches WorkerEvent::Frame(WSProto::Result { .. }),
{
    match event {
        WorkerEvent::Frame(WSProto::Result { request_id, content }) => {
            after_delivery(
                reply_pool.reply(request_id.as_str(), RegistryMsg::InvokeResult(content)),
            )
        },
        WorkerEvent::Frame(WSProto::Invoke { .. }) => ControlFlow::Break(()),
        WorkerEvent::Malformed => ControlFlow::Break(()),
        WorkerEvent::Pong => {
            *last_heartbeat = now;
            ControlFlow::Continue(())
        },
        WorkerEvent::Close => ControlFlow::Break(()),
        WorkerEvent::Other => ControlFlow::Continue(()),
        WorkerEvent::Silent => ControlFlow::Break(()),
        WorkerEvent::Failed => ControlFlow::Break(()),
    }
}

/// Ends a connection once either of its loops has ended: the worker leaves
/// the pool, and every caller that still waits for a reply from it is told
/// that the connection is gone.
pub fn close_connection(registry: &mut Registry, worker_id: &u128, reply_pool: &mut WSReplyPool)
    requires
        old(registry).wf(),
        old(reply_pool).wf(),
    ensures
        final(registry).wf(),
        final(reply_pool).wf(),
        !final(registry).pool().ids().contains(*worker_id),
        final(registry).pool().handles() == if old(registry).pool().ids().contains(*worker_id) {
            old(registry).pool().handles().remove(
                old(registry).pool().ids().index_of(*worker_id),
            )
        } else {
            old(registry).pool().handles()
        },
        final(registry).pool().cursor() == old(registry).pool().cursor(),
        final(reply_pool)@ == Map::<Seq<char>, Sender<RegistryMsg>>::empty(),
{
    registry.deregister(worker_id);
    reply_pool.drain();
}

} // verus!
