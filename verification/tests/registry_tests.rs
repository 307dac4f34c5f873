use faas::backend::BackendError;
use faas::proto::{NodeMsg, RegistryMsg, WSProto};
use faas::registry::{Dispatch, Registry, RegistryHandle, ReplyOutcome, SendOutcome};
use faas::reply::WSReplyPool;
use faas::settings::RegistrySettings;
use faas::signature::{FunctionType, TypeDesc};
use faas::status::{Body, Status, StatusKind};
use faas::supervisor::{
    close_connection, process_worker_msg, worker_relay, RelayAction, WorkerEvent, PING_INTERVAL,
};
use serde_json::Value;
use std::ops::ControlFlow;

fn settings() -> RegistrySettings {
    RegistrySettings { channel_size: 4, timeout_secs: 1 }
}

fn signature() -> FunctionType {
    FunctionType {
        params: vec![TypeDesc::I32],
        shim_idx: 0,
        ret: TypeDesc::I32,
        inner_ret: Some(TypeDesc::Unit),
    }
}

fn ok_true() -> Value {
    let mut object = serde_json::Map::new();
    object.insert("ok".to_string(), Value::Bool(true));
    Value::Object(object)
}

/// One worker connection as the runtime would hold it.
struct Connection {
    handle: RegistryHandle,
    replies: WSReplyPool,
    idle: usize,
    heartbeat: u64,
}

impl Connection {
    fn open(registry: &mut Registry) -> Connection {
        assert!(registry.can_register());
        Connection {
            handle: registry.register(),
            replies: WSReplyPool::new(),
            idle: 0,
            heartbeat: 0,
        }
    }

    /// Runs one step of the outbound loop and returns the frame it forwards.
    fn forward(&mut self) -> Option<WSProto> {
        let polled = self.handle.poll();
        match worker_relay(&mut self.idle, PING_INTERVAL, polled, &mut self.replies) {
            RelayAction::Forward(frame) => Some(frame),
            _ => None,
        }
    }

    /// Feeds one event to the inbound loop.
    fn receive(&mut self, event: WorkerEvent) -> ControlFlow<(), ()> {
        process_worker_msg(event, 5, &mut self.heartbeat, &mut self.replies)
    }
}

fn begin(registry: &mut Registry, args: Vec<Value>) -> Dispatch {
    registry
        .invoke("f".to_string(), "store/f".to_string(), signature(), args)
        .unwrap()
}

/// Places the message of a dispatch on the worker's channel and returns the
/// worker's id with the receiving half of the reply slot.
fn send(dispatch: Dispatch) -> (u128, tokio::sync::oneshot::Receiver<RegistryMsg>) {
    let Dispatch { worker, msg, receiver, .. } = dispatch;
    worker.sender.try_send(msg).unwrap();
    (worker.id, receiver)
}

fn request_id_and_args(frame: &WSProto) -> (String, Vec<Value>) {
    match frame {
        WSProto::Invoke { request_id, args, .. } => (request_id.clone(), args.clone()),
        other => panic!("unexpected frame {:?}", other),
    }
}

fn conclude(receiver: &mut tokio::sync::oneshot::Receiver<RegistryMsg>) -> Result<Status, BackendError> {
    match receiver.try_recv() {
        Ok(msg) => Registry::conclude(ReplyOutcome::Received(msg)),
        Err(tokio::sync::oneshot::error::TryRecvError::Empty) => {
            Registry::conclude(ReplyOutcome::Elapsed)
        }
        Err(tokio::sync::oneshot::error::TryRecvError::Closed) => {
            Registry::conclude(ReplyOutcome::Dropped)
        }
    }
}

#[test]
fn start_takes_the_settings() {
    let registry = Registry::start(&RegistrySettings { channel_size: 16, timeout_secs: 30 });
    assert_eq!(registry.size(), 0);
    assert_eq!(registry.timeout_secs(), 30);
    assert!(registry.can_register());
}

#[test]
fn channel_of_depth_zero_cannot_be_made() {
    let registry = Registry::start(&RegistrySettings { channel_size: 0, timeout_secs: 30 });
    assert!(!registry.can_register());
    let registry =
        Registry::start(&RegistrySettings { channel_size: usize::MAX, timeout_secs: 30 });
    assert!(!registry.can_register());
    let registry =
        Registry::start(&RegistrySettings { channel_size: usize::MAX >> 3, timeout_secs: 30 });
    assert!(registry.can_register());
}

#[test]
fn invoke_without_workers_fails_fast() {
    let mut registry = Registry::start(&settings());
    let begun = registry.invoke("f".to_string(), "u".to_string(), signature(), vec![]);
    assert_eq!(begun.err(), Some(BackendError::NoWorkersAvailable));
}

#[test]
fn register_and_deregister_change_the_pool() {
    let mut registry = Registry::start(&settings());
    let first = registry.register();
    let second = registry.register();
    assert_ne!(first.id, second.id);
    assert_eq!(registry.size(), 2);
    registry.deregister(&first.id);
    assert_eq!(registry.size(), 1);
    registry.deregister(&first.id);
    assert_eq!(registry.size(), 1);
    registry.deregister(&second.id);
    assert_eq!(registry.size(), 0);
}

#[test]
fn invoke_builds_the_dispatch() {
    let mut registry = Registry::start(&settings());
    let handle = registry.register();
    let dispatch = registry
        .invoke("add".to_string(), "store/add".to_string(), signature(), vec![Value::from(2)])
        .unwrap();
    assert_eq!(dispatch.worker.id, handle.id);
    assert_eq!(dispatch.timeout_secs, 1);
    match dispatch.msg {
        NodeMsg::Invoke { name, uri, signature: sent, args, .. } => {
            assert_eq!(name, "add");
            assert_eq!(uri, "store/add");
            assert_eq!(sent, signature());
            assert_eq!(args, vec![Value::from(2)]);
        }
    }
}

#[test]
fn after_send_decides() {
    assert_eq!(Registry::after_send(SendOutcome::Sent), Ok(()));
    assert_eq!(Registry::after_send(SendOutcome::TimedOut), Err(BackendError::Timeout));
    assert_eq!(Registry::after_send(SendOutcome::Closed), Err(BackendError::Timeout));
}

#[test]
fn conclude_decides() {
    let received = Registry::conclude(ReplyOutcome::Received(RegistryMsg::InvokeResult(ok_true())));
    assert_eq!(
        received,
        Ok(Status { kind: StatusKind::Success, message: Body::Json(ok_true()) })
    );
    assert_eq!(
        Registry::conclude(ReplyOutcome::Received(RegistryMsg::Disconnected)),
        Err(BackendError::NoReply)
    );
    assert_eq!(Registry::conclude(ReplyOutcome::Dropped), Err(BackendError::NoReply));
    assert_eq!(Registry::conclude(ReplyOutcome::Elapsed), Err(BackendError::Timeout));
}

#[test]
fn round_robin_over_three_workers() {
    let mut registry = Registry::start(&settings());
    let mut connections =
        vec![Connection::open(&mut registry), Connection::open(&mut registry), Connection::open(&mut registry)];
    let ids: Vec<u128> = connections.iter().map(|c| c.handle.id).collect();
    let mut order = Vec::new();
    for _ in 0..6 {
        let (worker, mut receiver) = send(begin(&mut registry, vec![Value::from(1)]));
        order.push(worker);
        let connection = connections.iter_mut().find(|c| c.handle.id == worker).unwrap();
        let frame = connection.forward().unwrap();
        let (request_id, _) = request_id_and_args(&frame);
        let flow = connection.receive(WorkerEvent::Frame(WSProto::Result {
            request_id,
            content: ok_true(),
        }));
        assert_eq!(flow, ControlFlow::Continue(()));
        assert_eq!(
            conclude(&mut receiver),
            Ok(Status { kind: StatusKind::Success, message: Body::Json(ok_true()) })
        );
    }
    assert_eq!(order, vec![ids[0], ids[1], ids[2], ids[0], ids[1], ids[2]]);
}

#[test]
fn out_of_order_replies() {
    let mut registry = Registry::start(&settings());
    let mut connection = Connection::open(&mut registry);
    let mut receivers = Vec::new();
    let mut frames = Vec::new();
    for n in 1..=3 {
        let (_, receiver) = send(begin(&mut registry, vec![Value::from(n)]));
        receivers.push(receiver);
        frames.push(connection.forward().unwrap());
    }
    // the worker answers C, then A, then B, each with the arguments it was sent
    for i in [2usize, 0, 1] {
        let (request_id, args) = request_id_and_args(&frames[i]);
        let flow = connection.receive(WorkerEvent::Frame(WSProto::Result {
            request_id,
            content: Value::Array(args),
        }));
        assert_eq!(flow, ControlFlow::Continue(()));
    }
    for (i, receiver) in receivers.iter_mut().enumerate() {
        let expected = Value::Array(vec![Value::from(i + 1)]);
        assert_eq!(
            conclude(receiver),
            Ok(Status { kind: StatusKind::Success, message: Body::Json(expected) })
        );
    }
}

#[test]
fn worker_disconnect_mid_flight() {
    let mut registry = Registry::start(&settings());
    let mut connection = Connection::open(&mut registry);
    let (_, mut receiver) = send(begin(&mut registry, vec![Value::from(42)]));
    assert!(connection.forward().is_some());
    assert_eq!(connection.receive(WorkerEvent::Close), ControlFlow::Break(()));
    close_connection(&mut registry, &connection.handle.id, &mut connection.replies);
    assert_eq!(conclude(&mut receiver), Err(BackendError::NoReply));
    assert_eq!(registry.size(), 0);
    let next = registry.invoke("f".to_string(), "u".to_string(), signature(), vec![]);
    assert_eq!(next.err(), Some(BackendError::NoWorkersAvailable));
}

#[test]
fn disconnect_with_message_still_queued() {
    let mut registry = Registry::start(&settings());
    let mut connection = Connection::open(&mut registry);
    let (_, mut receiver) = send(begin(&mut registry, vec![Value::from(42)]));
    close_connection(&mut registry, &connection.handle.id, &mut connection.replies);
    drop(connection);
    assert_eq!(conclude(&mut receiver), Err(BackendError::NoReply));
}

#[test]
fn invoke_timeout_leaves_the_connection_alive() {
    let mut registry = Registry::start(&settings());
    let mut connection = Connection::open(&mut registry);
    let (_, mut receiver) = send(begin(&mut registry, vec![Value::from(1)]));
    assert!(connection.forward().is_some());
    // the worker never replies
    assert_eq!(conclude(&mut receiver), Err(BackendError::Timeout));
    assert_eq!(registry.size(), 1);
    assert_eq!(connection.replies.len(), 1);
    assert_eq!(connection.receive(WorkerEvent::Pong), ControlFlow::Continue(()));
}

#[test]
fn late_reply_after_timeout_ends_the_connection() {
    let mut registry = Registry::start(&settings());
    let mut connection = Connection::open(&mut registry);
    let (_, receiver) = send(begin(&mut registry, vec![Value::from(1)]));
    let frame = connection.forward().unwrap();
    drop(receiver);
    let (request_id, _) = request_id_and_args(&frame);
    let flow = connection.receive(WorkerEvent::Frame(WSProto::Result {
        request_id,
        content: Value::Null,
    }));
    assert_eq!(flow, ControlFlow::Break(()));
}

#[test]
fn protocol_violation_by_invoke_frame() {
    let mut registry = Registry::start(&settings());
    let mut connection = Connection::open(&mut registry);
    let _other = Connection::open(&mut registry);
    let (_, mut receiver) = send(begin(&mut registry, vec![Value::from(1)]));
    assert!(connection.forward().is_some());
    let violation = WSProto::invoke_request(
        "x".to_string(),
        "f".to_string(),
        "u".to_string(),
        signature(),
        vec![],
    );
    assert_eq!(connection.receive(WorkerEvent::Frame(violation)), ControlFlow::Break(()));
    close_connection(&mut registry, &connection.handle.id, &mut connection.replies);
    assert_eq!(registry.size(), 1);
    assert_eq!(conclude(&mut receiver), Err(BackendError::NoReply));
}

#[test]
fn protocol_violation_by_unknown_request_id() {
    let mut registry = Registry::start(&settings());
    let mut connection = Connection::open(&mut registry);
    let (_, mut receiver) = send(begin(&mut registry, vec![Value::from(1)]));
    assert!(connection.forward().is_some());
    let flow = connection.receive(WorkerEvent::Frame(WSProto::Result {
        request_id: "no-such-request".to_string(),
        content: Value::Null,
    }));
    assert_eq!(flow, ControlFlow::Break(()));
    assert_eq!(connection.replies.len(), 1);
    close_connection(&mut registry, &connection.handle.id, &mut connection.replies);
    assert_eq!(registry.size(), 0);
    assert_eq!(connection.replies.len(), 0);
    assert_eq!(conclude(&mut receiver), Err(BackendError::NoReply));
}

#[test]
fn every_registration_adds_one_worker() {
    let mut registry = Registry::start(&settings());
    let mut ids = Vec::new();
    for n in 1..=50 {
        let handle = registry.register();
        assert!(!ids.contains(&handle.id));
        ids.push(handle.id);
        assert_eq!(registry.size(), n);
    }
}
