use faas::proto::{NodeMsg, RegistryMsg, WSProto};
use faas::reply::WSReplyPool;
use faas::signature::{FunctionType, TypeDesc};
use faas::supervisor::{
    after_delivery, after_write, ping_payload, process_worker_msg, send_to_worker, worker_relay, RelayAction,
    WorkerEvent, IDLE_DEADLINE_SECS, PING_INTERVAL, POLL_PAUSE_MILLIS,
};
use serde_json::Value;
use std::ops::ControlFlow;
use tokio::sync::oneshot;

fn signature() -> FunctionType {
    FunctionType {
        params: vec![],
        shim_idx: 2,
        ret: TypeDesc::Unit,
        inner_ret: Some(TypeDesc::Unit),
    }
}

fn invoke_msg(args: Vec<Value>) -> (NodeMsg, oneshot::Receiver<RegistryMsg>) {
    let (sender, receiver) = oneshot::channel();
    let msg = NodeMsg::Invoke {
        name: "f".to_string(),
        uri: "store/f".to_string(),
        signature: signature(),
        args,
        sender,
    };
    (msg, receiver)
}

#[test]
fn constants() {
    assert_eq!(PING_INTERVAL, 100);
    assert_eq!(POLL_PAUSE_MILLIS, 1);
    assert_eq!(IDLE_DEADLINE_SECS, 60);
    assert_eq!(ping_payload(), vec![0x41, 0x42, 0x43]);
}

#[test]
fn send_to_worker_registers_before_it_returns_the_frame() {
    let mut replies = WSReplyPool::new();
    let (msg, mut receiver) = invoke_msg(vec![Value::from(3)]);
    let frame = send_to_worker(msg, &mut replies);
    assert_eq!(replies.len(), 1);
    match frame {
        WSProto::Invoke { request_id, name, uri, signature: sent, args } => {
            assert_eq!(name, "f");
            assert_eq!(uri, "store/f");
            assert_eq!(sent, signature());
            assert_eq!(args, vec![Value::from(3)]);
            assert_eq!(request_id.len(), 36);
            replies.reply(&request_id, RegistryMsg::InvokeResult(Value::from(9))).unwrap();
        }
        other => panic!("unexpected frame {:?}", other),
    }
    assert_eq!(receiver.try_recv(), Ok(RegistryMsg::InvokeResult(Value::from(9))));
}

#[test]
fn request_ids_differ() {
    let mut replies = WSReplyPool::new();
    let mut seen = Vec::new();
    for _ in 0..10 {
        let (msg, _receiver) = invoke_msg(vec![]);
        match send_to_worker(msg, &mut replies) {
            WSProto::Invoke { request_id, .. } => {
                assert!(!seen.contains(&request_id));
                seen.push(request_id);
            }
            other => panic!("unexpected frame {:?}", other),
        }
    }
    assert_eq!(replies.len(), 10);
}

#[test]
fn idle_relay_pings_every_interval() {
    let mut replies = WSReplyPool::new();
    let mut idle = 0usize;
    let mut pings = Vec::new();
    for step in 1..=250usize {
        match worker_relay(&mut idle, PING_INTERVAL, None, &mut replies) {
            RelayAction::Ping => pings.push(step),
            RelayAction::Wait => {}
            other => panic!("unexpected action {:?}", other),
        }
    }
    assert_eq!(pings, vec![100, 200]);
    assert_eq!(idle, 50);
}

#[test]
fn traffic_restarts_the_idle_count() {
    let mut replies = WSReplyPool::new();
    let mut idle = 0usize;
    for _ in 0..99 {
        assert_eq!(worker_relay(&mut idle, PING_INTERVAL, None, &mut replies), RelayAction::Wait);
    }
    assert_eq!(idle, 99);
    let (msg, _receiver) = invoke_msg(vec![]);
    match worker_relay(&mut idle, PING_INTERVAL, Some(msg), &mut replies) {
        RelayAction::Forward(WSProto::Invoke { name, .. }) => assert_eq!(name, "f"),
        other => panic!("unexpected action {:?}", other),
    }
    assert_eq!(idle, 0);
    assert_eq!(replies.len(), 1);
    for _ in 0..99 {
        assert_eq!(worker_relay(&mut idle, PING_INTERVAL, None, &mut replies), RelayAction::Wait);
    }
    assert_eq!(worker_relay(&mut idle, PING_INTERVAL, None, &mut replies), RelayAction::Ping);
    assert_eq!(idle, 0);
}

#[test]
fn relay_with_a_count_beyond_the_interval_pings() {
    let mut replies = WSReplyPool::new();
    let mut idle = usize::MAX;
    assert_eq!(worker_relay(&mut idle, PING_INTERVAL, None, &mut replies), RelayAction::Ping);
    assert_eq!(idle, 0);
}

#[test]
fn relay_with_other_intervals() {
    let mut replies = WSReplyPool::new();
    let mut idle = 0usize;
    let mut actions = Vec::new();
    for _ in 0..7 {
        actions.push(worker_relay(&mut idle, 3, None, &mut replies));
    }
    assert_eq!(
        actions,
        vec![
            RelayAction::Wait,
            RelayAction::Wait,
            RelayAction::Ping,
            RelayAction::Wait,
            RelayAction::Wait,
            RelayAction::Ping,
            RelayAction::Wait,
        ]
    );
    let mut idle = 0usize;
    assert_eq!(worker_relay(&mut idle, 1, None, &mut replies), RelayAction::Ping);
    assert_eq!(worker_relay(&mut idle, 0, None, &mut replies), RelayAction::Ping);
    assert_eq!(idle, 0);
}

#[test]
fn after_write_ends_on_failure() {
    assert_eq!(after_write(true), ControlFlow::Continue(()));
    assert_eq!(after_write(false), ControlFlow::Break(()));
}

#[test]
fn inbound_events() {
    let mut replies = WSReplyPool::new();
    let mut heartbeat = 1u64;
    let step = |event: WorkerEvent, replies: &mut WSReplyPool, heartbeat: &mut u64| {
        process_worker_msg(event, 77, heartbeat, replies)
    };
    assert_eq!(step(WorkerEvent::Other, &mut replies, &mut heartbeat), ControlFlow::Continue(()));
    assert_eq!(heartbeat, 1);
    assert_eq!(step(WorkerEvent::Pong, &mut replies, &mut heartbeat), ControlFlow::Continue(()));
    assert_eq!(heartbeat, 77);
    assert_eq!(step(WorkerEvent::Close, &mut replies, &mut heartbeat), ControlFlow::Break(()));
    assert_eq!(step(WorkerEvent::Malformed, &mut replies, &mut heartbeat), ControlFlow::Break(()));
    assert_eq!(step(WorkerEvent::Silent, &mut replies, &mut heartbeat), ControlFlow::Break(()));
    assert_eq!(step(WorkerEvent::Failed, &mut replies, &mut heartbeat), ControlFlow::Break(()));
    assert_eq!(heartbeat, 77);
}

#[test]
fn inbound_result_is_routed() {
    let mut replies = WSReplyPool::new();
    let mut heartbeat = 0u64;
    let (sender, mut receiver) = oneshot::channel();
    replies.register("abc".to_string(), sender);
    let flow = process_worker_msg(
        WorkerEvent::Frame(WSProto::Result { request_id: "abc".to_string(), content: Value::from(5) }),
        1,
        &mut heartbeat,
        &mut replies,
    );
    assert_eq!(flow, ControlFlow::Continue(()));
    assert_eq!(replies.len(), 0);
    assert_eq!(receiver.try_recv(), Ok(RegistryMsg::InvokeResult(Value::from(5))));
    assert_eq!(heartbeat, 0);
}

#[test]
fn frame_kinds() {
    let invoke = WSProto::invoke_request(
        "id-1".to_string(),
        "f".to_string(),
        "store/f".to_string(),
        signature(),
        vec![Value::from(1)],
    );
    assert_eq!(invoke.kind(), faas::proto::WSProtoKind::Invoke);
    assert_eq!(
        invoke,
        WSProto::Invoke {
            request_id: "id-1".to_string(),
            name: "f".to_string(),
            uri: "store/f".to_string(),
            signature: signature(),
            args: vec![Value::from(1)],
        }
    );
    let result = WSProto::Result { request_id: "id-1".to_string(), content: Value::Null };
    assert_eq!(result.kind(), faas::proto::WSProtoKind::Result);
}

#[test]
fn after_delivery_follows_the_outcome() {
    assert_eq!(after_delivery(Ok(())), ControlFlow::Continue(()));
    assert_eq!(after_delivery(Err(RegistryMsg::Disconnected)), ControlFlow::Break(()));
    assert_eq!(
        after_delivery(Err(RegistryMsg::InvokeResult(Value::from(1)))),
        ControlFlow::Break(())
    );
}
