use rust_cast::message::{CastMessage, CastMessagePayload, EndpointId, Namespace};
use rust_cast::payload::{receiver, MessageType, RequestId};
use rust_cast::task::{
    ping_message, pong_message, request_message, typed_request_message, ConnectionState, PayloadHeader, ReadKind,
    RpcError, RpcMatch, StatusKind, TaskState, TaskStop, DEFAULT_RECEIVER_ID,
};

const RECEIVER_NS: &str = "urn:x-cast:com.google.cast.receiver";
const MEDIA_NS: &str = "urn:x-cast:com.google.cast.media";
const HEARTBEAT_NS: &str = "urn:x-cast:com.google.cast.tp.heartbeat";

fn msg(ns: &str, json: &str) -> CastMessage {
    CastMessage {
        namespace: Namespace(ns.to_string()),
        source: EndpointId("receiver-0".to_string()),
        destination: EndpointId("sender-0".to_string()),
        payload: CastMessagePayload::String(json.to_string()),
    }
}

fn header(id: Option<i32>, typ: &str) -> Option<PayloadHeader> {
    Some(PayloadHeader { request_id: id.map(RequestId), typ: MessageType(typ.to_string()) })
}

#[test]
fn reply_on_expected_namespace_answers_the_rpc() {
    let mut state: TaskState<u32> = TaskState::new();
    assert_eq!(state.on_rpc_sent(RequestId(5), Namespace(RECEIVER_NS.to_string()), 77), None);
    assert!(state.is_pending(RequestId(5)));
    let out = state.on_message_read(msg(RECEIVER_NS, "{\"x\":1}"), header(Some(5), "RECEIVER_STATUS"));
    assert_eq!(out.kind, ReadKind::Delivered);
    assert_eq!(out.status, StatusKind::ReceiverStatus);
    match out.rpc {
        RpcMatch::Replied(reply) => {
            assert_eq!(reply.request_id, RequestId(5));
            assert_eq!(reply.responder, 77);
            let p = reply.result.unwrap();
            assert_eq!(p.json, "{\"x\":1}");
            assert_eq!(p.typ.as_str(), "RECEIVER_STATUS");
        },
        other => panic!("unexpected {other:?}"),
    }
    assert!(!state.is_pending(RequestId(5)));
}

#[test]
fn reply_on_other_namespace_is_an_error() {
    let mut state: TaskState<u32> = TaskState::new();
    state.on_rpc_sent(RequestId(9), Namespace(MEDIA_NS.to_string()), 1);
    let out = state.on_message_read(msg(RECEIVER_NS, "{}"), header(Some(9), "RECEIVER_STATUS"));
    match out.rpc {
        RpcMatch::Replied(reply) => match reply.result {
            Err(RpcError::UnexpectedNamespace { expected, received }) => {
                assert_eq!(expected.as_str(), MEDIA_NS);
                assert_eq!(received.as_str(), RECEIVER_NS);
            },
            other => panic!("unexpected {other:?}"),
        },
        other => panic!("unexpected {other:?}"),
    }
    assert!(!state.is_pending(RequestId(9)));
}

#[test]
fn messages_that_answer_nothing() {
    let mut state: TaskState<u32> = TaskState::new();
    state.on_rpc_sent(RequestId(1), Namespace(MEDIA_NS.to_string()), 1);
    let unknown = state.on_message_read(msg("urn:other", "{}"), header(Some(1), "X"));
    assert_eq!(unknown.kind, ReadKind::UnknownNamespace);
    let invalid = state.on_message_read(msg(MEDIA_NS, "not json"), None);
    assert_eq!(invalid.kind, ReadKind::InvalidPayload);
    let ping = state.on_message_read(msg(HEARTBEAT_NS, "{}"), header(None, "PING"));
    assert_eq!(ping.kind, ReadKind::HeartbeatPing);
    let pong = state.on_message_read(msg(HEARTBEAT_NS, "{}"), header(None, "PONG"));
    assert_eq!(pong.kind, ReadKind::HeartbeatPong);
    let mut binary = msg(MEDIA_NS, "");
    binary.payload = CastMessagePayload::Binary(vec![1]);
    assert_eq!(state.on_message_read(binary, header(Some(1), "X")).kind, ReadKind::BinaryPayload);
    let broadcast = state.on_message_read(msg(MEDIA_NS, "{}"), header(Some(0), "MEDIA_STATUS"));
    assert_eq!(broadcast.status, StatusKind::MediaStatus);
    assert!(matches!(broadcast.rpc, RpcMatch::NoRequestId));
    let unmatched = state.on_message_read(msg(MEDIA_NS, "{}"), header(Some(2), "MEDIA_STATUS"));
    assert!(matches!(unmatched.rpc, RpcMatch::Unmatched(RequestId(2))));
    assert!(state.is_pending(RequestId(1)));
}

#[test]
fn timeout_answers_the_rpc_once() {
    let mut state: TaskState<&str> = TaskState::new();
    state.on_rpc_sent(RequestId(3), Namespace(MEDIA_NS.to_string()), "caller");
    let reply = state.on_rpc_timeout(RequestId(3));
    assert_eq!(reply.responder, "caller");
    assert!(matches!(reply.result, Err(RpcError::Timeout)));
    assert!(!state.is_pending(RequestId(3)));
}

#[test]
fn closing_answers_every_pending_rpc() {
    let mut state: TaskState<u32> = TaskState::new();
    state.on_rpc_sent(RequestId(1), Namespace(MEDIA_NS.to_string()), 10);
    state.on_rpc_sent(RequestId(2), Namespace(MEDIA_NS.to_string()), 20);
    let (closed, replies) = state.stop(TaskStop::HeartbeatLost);
    assert_eq!(closed, ConnectionState::ClosedErr);
    let mut responders: Vec<u32> = replies.iter().map(|r| r.responder).collect();
    responders.sort();
    assert_eq!(responders, vec![10, 20]);
    for r in &replies {
        assert!(matches!(r.result, Err(RpcError::TaskStopping(ConnectionState::ClosedErr))));
    }
    assert!(state.is_closed());
    assert!(!state.is_pending(RequestId(1)));
}

#[test]
fn shutdown_closes_ok() {
    let mut state: TaskState<u32> = TaskState::new();
    let (closed, replies) = state.stop(TaskStop::Shutdown);
    assert_eq!(closed, ConnectionState::ClosedOk);
    assert!(replies.is_empty());
    let mut other: TaskState<u32> = TaskState::new();
    assert_eq!(other.stop(TaskStop::EventsEnded).0, ConnectionState::ClosedOk);
}

#[test]
fn resending_an_id_hands_back_the_displaced_responder() {
    let mut state: TaskState<u32> = TaskState::new();
    state.on_rpc_sent(RequestId(4), Namespace(MEDIA_NS.to_string()), 1);
    assert_eq!(state.on_rpc_sent(RequestId(4), Namespace(MEDIA_NS.to_string()), 2), Some(1));
}

#[test]
fn failed_write_answers_at_once() {
    let mut state: TaskState<u32> = TaskState::new();
    let r = state.on_rpc_written(RequestId(6), Namespace(MEDIA_NS.to_string()), 5, Err("broken pipe"));
    assert_eq!(r, Err((5, "broken pipe")));
    assert!(!state.is_pending(RequestId(6)));
    let ok = state.on_rpc_written::<&str>(RequestId(6), Namespace(MEDIA_NS.to_string()), 5, Ok(()));
    assert_eq!(ok, Ok(None));
    assert!(state.is_pending(RequestId(6)));
}

#[test]
fn heartbeat_messages_are_addressed() {
    let sender = EndpointId("sender-7".to_string());
    let ping = ping_message(&sender, "{\"type\":\"PING\"}".to_string());
    assert_eq!(ping.namespace.as_str(), HEARTBEAT_NS);
    assert_eq!(ping.destination.as_str(), DEFAULT_RECEIVER_ID);
    assert_eq!(ping.source.as_str(), "sender-7");
    let pong = pong_message(&sender, EndpointId("web-3".to_string()), "{}".to_string());
    assert_eq!(pong.destination.as_str(), "web-3");
    assert_eq!(pong.namespace.as_str(), HEARTBEAT_NS);
}

#[test]
fn request_message_uses_the_request_namespace() {
    let m = typed_request_message::<receiver::GetStatusRequest>(
        &EndpointId("sender-0".to_string()),
        EndpointId("receiver-0".to_string()),
        "{\"requestId\":1,\"type\":\"GET_STATUS\"}".to_string(),
    );
    assert_eq!(m.namespace.as_str(), RECEIVER_NS);
    assert_eq!(m.source.as_str(), "sender-0");
    assert_eq!(m.destination.as_str(), "receiver-0");
}

#[test]
fn request_message_on_a_namespace() {
    let m = request_message(
        Namespace(MEDIA_NS.to_string()),
        &EndpointId("sender-0".to_string()),
        EndpointId("web-5".to_string()),
        "{}".to_string(),
    );
    assert_eq!(m.namespace.as_str(), MEDIA_NS);
    assert_eq!(m.destination.as_str(), "web-5");
    match m.payload {
        CastMessagePayload::String(s) => assert_eq!(s, "{}"),
        CastMessagePayload::Binary(_) => panic!("expected a text payload"),
    }
}
