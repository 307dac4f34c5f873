use faas::proto::RegistryMsg;
use faas::reply::WSReplyPool;
use serde_json::Value;
use tokio::sync::oneshot;

#[test]
fn new_table_is_empty() {
    let pool = WSReplyPool::new();
    assert_eq!(pool.len(), 0);
}

#[test]
fn register_then_reply_delivers() {
    let mut pool = WSReplyPool::new();
    let (sender, mut receiver) = oneshot::channel();
    assert!(pool.register("r1".to_string(), sender).is_none());
    assert_eq!(pool.len(), 1);
    assert_eq!(pool.reply("r1", RegistryMsg::InvokeResult(Value::from(7))), Ok(()));
    assert_eq!(pool.len(), 0);
    assert_eq!(receiver.try_recv(), Ok(RegistryMsg::InvokeResult(Value::from(7))));
}

#[test]
fn reply_for_unknown_id_comes_back() {
    let mut pool = WSReplyPool::new();
    let (sender, mut receiver) = oneshot::channel();
    pool.register("r1".to_string(), sender);
    let outcome = pool.reply("r2", RegistryMsg::InvokeResult(Value::from(1)));
    assert_eq!(outcome, Err(RegistryMsg::InvokeResult(Value::from(1))));
    assert_eq!(pool.len(), 1);
    assert!(receiver.try_recv().is_err());
}

#[test]
fn reply_is_routed_once() {
    let mut pool = WSReplyPool::new();
    let (sender, _receiver) = oneshot::channel();
    pool.register("r1".to_string(), sender);
    assert!(pool.reply("r1", RegistryMsg::InvokeResult(Value::Null)).is_ok());
    assert_eq!(
        pool.reply("r1", RegistryMsg::InvokeResult(Value::Null)),
        Err(RegistryMsg::InvokeResult(Value::Null))
    );
}

#[test]
fn reply_to_a_waiter_that_left_comes_back() {
    let mut pool = WSReplyPool::new();
    let (sender, receiver) = oneshot::channel();
    pool.register("r1".to_string(), sender);
    drop(receiver);
    let outcome = pool.reply("r1", RegistryMsg::InvokeResult(Value::from("late")));
    assert_eq!(outcome, Err(RegistryMsg::InvokeResult(Value::from("late"))));
    assert_eq!(pool.len(), 0);
}

#[test]
fn register_same_id_displaces() {
    let mut pool = WSReplyPool::new();
    let (first, mut first_receiver) = oneshot::channel();
    let (second, mut second_receiver) = oneshot::channel();
    assert!(pool.register("r".to_string(), first).is_none());
    let displaced = pool.register("r".to_string(), second).unwrap();
    assert_eq!(pool.len(), 1);
    displaced.send(RegistryMsg::Disconnected).unwrap();
    assert_eq!(first_receiver.try_recv(), Ok(RegistryMsg::Disconnected));
    pool.reply("r", RegistryMsg::InvokeResult(Value::from(2))).unwrap();
    assert_eq!(second_receiver.try_recv(), Ok(RegistryMsg::InvokeResult(Value::from(2))));
}

#[test]
fn replies_reach_their_own_slot_in_any_order() {
    let mut pool = WSReplyPool::new();
    let mut receivers = Vec::new();
    for i in 0..5 {
        let (sender, receiver) = oneshot::channel();
        pool.register(format!("req-{}", i), sender);
        receivers.push(receiver);
    }
    for i in [3, 0, 4, 1, 2] {
        pool.reply(&format!("req-{}", i), RegistryMsg::InvokeResult(Value::from(i))).unwrap();
    }
    assert_eq!(pool.len(), 0);
    for (i, receiver) in receivers.iter_mut().enumerate() {
        assert_eq!(receiver.try_recv(), Ok(RegistryMsg::InvokeResult(Value::from(i))));
    }
}

#[test]
fn ids_are_compared_exactly() {
    let mut pool = WSReplyPool::new();
    let (sender, _receiver) = oneshot::channel();
    pool.register("Abc".to_string(), sender);
    assert!(pool.reply("abc", RegistryMsg::Disconnected).is_err());
    assert!(pool.reply("Abc ", RegistryMsg::Disconnected).is_err());
    assert!(pool.reply("Ab", RegistryMsg::Disconnected).is_err());
    assert_eq!(pool.len(), 1);
    assert!(pool.reply("Abc", RegistryMsg::Disconnected).is_ok());
}

#[test]
fn drain_tells_every_waiter() {
    let mut pool = WSReplyPool::new();
    let mut receivers = Vec::new();
    for i in 0..4 {
        let (sender, receiver) = oneshot::channel();
        pool.register(format!("req-{}", i), sender);
        receivers.push(receiver);
    }
    pool.drain();
    assert_eq!(pool.len(), 0);
    for receiver in receivers.iter_mut() {
        assert_eq!(receiver.try_recv(), Ok(RegistryMsg::Disconnected));
    }
    assert!(pool.reply("req-0", RegistryMsg::Disconnected).is_err());
}

#[test]
fn drain_of_empty_table() {
    let mut pool = WSReplyPool::new();
    pool.drain();
    assert_eq!(pool.len(), 0);
}
