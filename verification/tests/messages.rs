use saga::messages::Envelope;
use saga::messages::Message;
use saga::messages::MessageType;
use std::sync::mpsc;
use std::time::SystemTime;
use uuid::Uuid;

#[test]
fn test_create_message() {
    let msg = Message::new(MessageType::HEARTBEAT)
        .arg("arg1".into())
        .args(vec!["arg2".into(), "arg3".into()]);
    assert_eq!(msg.message_type, MessageType::HEARTBEAT);
    assert_eq!(msg.args.len(), 3);
}

#[test]
fn arguments_keep_their_order() {
    let msg = Message::new(MessageType::REGISTER)
        .args(vec!["a".into(), "b".into()])
        .arg("c".into())
        .args(vec![])
        .args(vec!["d".into()]);
    assert_eq!(msg.args, vec!["a", "b", "c", "d"]);
}

#[test]
fn new_messages_have_no_arguments_and_fresh_ids() {
    let before = SystemTime::now();
    let first = Message::new(MessageType::LIST_NODES);
    let second = Message::new(MessageType::LIST_NODES);
    assert_eq!(first.args.len(), 0);
    assert_ne!(first.message_id, second.message_id);
    assert_eq!(first.message_id.get_version_num(), 4);
    let elapsed = match first.creation_time.duration_since(before) {
        Ok(elapsed) => elapsed,
        Err(earlier) => earlier.duration(),
    };
    assert!(elapsed.as_secs() < 60);
}

#[test]
fn stamped_message_keeps_id_and_time() {
    let id = Uuid::from_u128(0x0123456789abcdef0123456789abcdef);
    let time = SystemTime::UNIX_EPOCH;
    let msg = Message::stamped(MessageType::SHUTDOWN, id, time);
    assert_eq!(msg.message_type, MessageType::SHUTDOWN);
    assert_eq!(msg.message_id, id);
    assert_eq!(msg.creation_time, time);
    assert_eq!(msg.args.len(), 0);
    let msg = msg.arg("x".into());
    assert_eq!(msg.message_id, id);
    assert_eq!(msg.creation_time, time);
}

#[test]
fn registration_names_node_host_and_port() {
    let msg = Message::registration("n1", "127.0.0.1", 9000);
    assert_eq!(msg.message_type, MessageType::REGISTER);
    assert_eq!(msg.args, vec!["n1", "127.0.0.1", "9000"]);
    let msg = Message::registration("", "localhost", 0);
    assert_eq!(msg.args, vec!["", "localhost", "0"]);
}

#[test]
fn node_list_carries_the_names() {
    let msg = Message::node_list(vec!["n1".into(), "n2".into()]);
    assert_eq!(msg.message_type, MessageType::LIST_NODES);
    assert_eq!(msg.args, vec!["n1", "n2"]);
    assert_eq!(Message::node_list(vec![]).args.len(), 0);
}

#[test]
fn envelope_keeps_the_message_apart_from_the_channel() {
    let id = Uuid::from_u128(7);
    let time = SystemTime::UNIX_EPOCH;
    let (tx, rx): (mpsc::Sender<Message>, mpsc::Receiver<Message>) = mpsc::channel();
    let envelope: Envelope =
        Message::stamped(MessageType::LIST_NODES, id, time).arg("a".into()).response_chan(tx);
    assert!(envelope.response_chan.is_some());
    assert!(envelope.response_chan.as_ref().unwrap().send(Message::new(MessageType::HEARTBEAT)).is_ok());
    assert_eq!(rx.recv().unwrap().message_type, MessageType::HEARTBEAT);
    let message = envelope.into_message();
    assert_eq!(message.message_type, MessageType::LIST_NODES);
    assert_eq!(message.message_id, id);
    assert_eq!(message.creation_time, time);
    assert_eq!(message.args, vec!["a"]);
}

#[test]
fn sealed_envelope_asks_for_no_answer() {
    let envelope = Message::new(MessageType::HEARTBEAT).sealed();
    assert!(envelope.response_chan.is_none());
    assert_eq!(envelope.message.message_type, MessageType::HEARTBEAT);
}
