use rust_cast::codec::{decode_message, encode_message, CodecError};
use rust_cast::message::{CastMessage, CastMessagePayload, EndpointId, Namespace};

fn text_message() -> CastMessage {
    CastMessage {
        namespace: Namespace("ns".to_string()),
        source: EndpointId("s".to_string()),
        destination: EndpointId("d".to_string()),
        payload: CastMessagePayload::String("{}".to_string()),
    }
}

const TEXT_FRAME: [u8; 22] = [
    0, 0, 0, 18, // length
    0x08, 0x00, // protocol_version = CASTV2_1_0
    0x12, 0x01, b's', // source_id
    0x1a, 0x01, b'd', // destination_id
    0x22, 0x02, b'n', b's', // namespace
    0x28, 0x00, // payload_type = STRING
    0x32, 0x02, b'{', b'}', // payload_utf8
];

#[test]
fn encode_text_message_exact_bytes() {
    let bytes = encode_message(&text_message()).unwrap();
    assert_eq!(bytes, TEXT_FRAME.to_vec());
}

#[test]
fn decode_text_message_exact_bytes() {
    let (msg, used) = decode_message(&TEXT_FRAME).unwrap().unwrap();
    assert_eq!(used, TEXT_FRAME.len());
    assert_eq!(msg.namespace.as_str(), "ns");
    assert_eq!(msg.source.as_str(), "s");
    assert_eq!(msg.destination.as_str(), "d");
    match msg.payload {
        CastMessagePayload::String(s) => assert_eq!(s, "{}"),
        CastMessagePayload::Binary(_) => panic!("expected a text payload"),
    }
}

#[test]
fn binary_message_round_trip() {
    let msg = CastMessage {
        namespace: Namespace("urn:x-cast:com.google.cast.media".to_string()),
        source: EndpointId("sender-0".to_string()),
        destination: EndpointId("receiver-0".to_string()),
        payload: CastMessagePayload::Binary(vec![0, 1, 2, 255, 128]),
    };
    let mut bytes = encode_message(&msg).unwrap();
    let frame_len = bytes.len();
    // Trailing bytes of a following frame do not disturb the first one.
    bytes.extend_from_slice(&[0, 0, 0]);
    let (back, used) = decode_message(&bytes).unwrap().unwrap();
    assert_eq!(used, frame_len);
    assert_eq!(back.namespace, msg.namespace);
    assert_eq!(back.source, msg.source);
    assert_eq!(back.destination, msg.destination);
    match back.payload {
        CastMessagePayload::Binary(b) => assert_eq!(b, vec![0, 1, 2, 255, 128]),
        CastMessagePayload::String(_) => panic!("expected a binary payload"),
    }
}

#[test]
fn long_text_payload_round_trip() {
    let text = "x".repeat(300);
    let msg = CastMessage { payload: CastMessagePayload::String(text.clone()), ..text_message() };
    let bytes = encode_message(&msg).unwrap();
    let (back, _) = decode_message(&bytes).unwrap().unwrap();
    match back.payload {
        CastMessagePayload::String(s) => assert_eq!(s, text),
        CastMessagePayload::Binary(_) => panic!("expected a text payload"),
    }
}

#[test]
fn incomplete_frames_need_more_bytes() {
    assert_eq!(decode_message(&[]).unwrap().is_none(), true);
    assert_eq!(decode_message(&[0, 0, 0]).unwrap().is_none(), true);
    assert_eq!(decode_message(&TEXT_FRAME[..21]).unwrap().is_none(), true);
}

#[test]
fn malformed_frame_is_invalid() {
    let bad = [0u8, 0, 0, 2, 0xff, 0xff];
    assert_eq!(decode_message(&bad).err(), Some(CodecError::InvalidMessage));
}

#[test]
fn frame_missing_required_fields_is_invalid() {
    // Only the protocol version field.
    let bad = [0u8, 0, 0, 2, 0x08, 0x00];
    assert_eq!(decode_message(&bad).err(), Some(CodecError::InvalidMessage));
}

#[test]
fn unknown_fields_are_skipped() {
    let mut frame: Vec<u8> = TEXT_FRAME[4..].to_vec();
    // Field 15, varint 1, then field 14, length-delimited "ab".
    frame.extend_from_slice(&[0x78, 0x01, 0x72, 0x02, b'a', b'b']);
    let mut bytes = vec![0, 0, 0, frame.len() as u8];
    bytes.extend_from_slice(&frame);
    let (msg, used) = decode_message(&bytes).unwrap().unwrap();
    assert_eq!(used, bytes.len());
    assert_eq!(msg.namespace.as_str(), "ns");
}

#[test]
fn a_repeated_field_keeps_its_last_value() {
    let mut frame: Vec<u8> = TEXT_FRAME[4..].to_vec();
    // namespace again: "zz".
    frame.extend_from_slice(&[0x22, 0x02, b'z', b'z']);
    let mut bytes = vec![0, 0, 0, frame.len() as u8];
    bytes.extend_from_slice(&frame);
    let (msg, _) = decode_message(&bytes).unwrap().unwrap();
    assert_eq!(msg.namespace.as_str(), "zz");
}
