use rust_cast::message::{CastMessagePayload, EndpointId, Namespace};
use rust_cast::payload::connection::{ConnectRequest, ConnectResponse};
use rust_cast::payload::heartbeat::{Ping, Pong};
use rust_cast::payload::media::{self, MimeType, QueueGetItemIdsResponse};
use rust_cast::payload::receiver::{GetStatusRequest, LaunchRequest, StopRequest};
use rust_cast::payload::{MessageType, RequestId, RequestInner, ResponseInner};

#[test]
fn request_namespaces_and_types() {
    assert_eq!(ConnectRequest::channel_namespace().as_str(), "urn:x-cast:com.google.cast.tp.connection");
    assert_eq!(ConnectRequest::message_type().as_str(), "CONNECT");
    assert_eq!(Ping::message_type().as_str(), "PING");
    assert_eq!(Pong::message_type().as_str(), "PONG");
    assert_eq!(Pong::channel_namespace().as_str(), "urn:x-cast:com.google.cast.tp.heartbeat");
    assert_eq!(GetStatusRequest::channel_namespace().as_str(), "urn:x-cast:com.google.cast.receiver");
    assert_eq!(GetStatusRequest::message_type().as_str(), "GET_STATUS");
    assert_eq!(LaunchRequest::message_type().as_str(), "LAUNCH");
    assert_eq!(StopRequest::message_type().as_str(), "STOP");
    assert_eq!(media::GetStatusRequest::channel_namespace().as_str(), "urn:x-cast:com.google.cast.media");
}

#[test]
fn response_type_names() {
    let names: Vec<String> = QueueGetItemIdsResponse::type_names().iter().map(|t| t.to_string()).collect();
    assert_eq!(names, vec!["QUEUE_ITEM_IDS", "INVALID_PLAYER_STATE", "INVALID_REQUEST"]);
    let connect: Vec<String> = ConnectResponse::type_names().iter().map(|t| t.to_string()).collect();
    assert_eq!(connect, vec!["CONNECT"]);
    assert_eq!(ConnectResponse::channel_namespace().as_str(), "urn:x-cast:com.google.cast.tp.connection");
}

#[test]
fn identifiers_and_conversions() {
    let t = MessageType::from_const("MEDIA_STATUS");
    assert_eq!(t.as_str(), "MEDIA_STATUS");
    assert!(t.same_as(&MessageType::from("MEDIA_STATUS".to_string())));
    assert_eq!(String::from(t.duplicate()), "MEDIA_STATUS");
    let e = EndpointId::from_const("receiver-0");
    assert!(!e.is_broadcast());
    assert!(EndpointId::broadcast().is_broadcast());
    assert_eq!(EndpointId::default_sender().as_str(), "sender-0");
    assert_eq!(EndpointId::default_receiver().to_string(), "receiver-0");
    let ns = Namespace::from("urn:x".to_string());
    assert!(ns.same_as(&Namespace::from_const("urn:x")));
    assert_eq!(MimeType::from_const(MimeType::TEXT_VTT).as_str(), "text/vtt");
    assert_eq!(MimeType::from_const(MimeType::EMPTY).to_string(), "");
    match CastMessagePayload::from("{}".to_string()) {
        CastMessagePayload::String(s) => assert_eq!(s, "{}"),
        CastMessagePayload::Binary(_) => panic!("expected text"),
    }
    match CastMessagePayload::from(vec![1u8, 2]) {
        CastMessagePayload::Binary(b) => assert_eq!(b, vec![1, 2]),
        CastMessagePayload::String(_) => panic!("expected binary"),
    }
}

#[test]
fn numeric_ids_convert_both_ways() {
    assert_eq!(i32::from(media::MediaSessionId::from(5)), 5);
    assert_eq!(media::ItemId::from(6).to_i32(), 6);
    assert_eq!(i32::from(media::TrackId::from(-1)), -1);
    assert_eq!(i32::from(media::SequenceNumber::from(9)), 9);
}

#[test]
fn ids_written_in_decimal_read_back() {
    for n in [0, 7, -7, 10, 1234567, i32::MAX, i32::MIN] {
        let id = media::ItemId(n);
        assert_eq!(id.to_string(), n.to_string());
        assert_eq!(id.to_string().parse::<media::ItemId>().unwrap(), id);
        assert_eq!(media::TrackId(n).to_string().parse::<media::TrackId>().unwrap(), media::TrackId(n));
        assert_eq!(media::MediaSessionId(n).to_string(), n.to_string());
        assert_eq!(media::SequenceNumber(n).to_string(), n.to_string());
        assert_eq!(RequestId(n).to_string(), n.to_string());
    }
}
