//! Wire framing of Cast messages.
//!
//! On the wire every message is a 4-byte big-endian length followed by that many
//! bytes of a protocol-buffers `CastMessage`:
//!
//! ```text
//! message CastMessage {
//!   required ProtocolVersion protocol_version = 1;  // CASTV2_1_0 = 0
//!   required string source_id = 2;
//!   required string destination_id = 3;
//!   required string namespace = 4;
//!   required PayloadType payload_type = 5;          // STRING = 0, BINARY = 1
//!   optional string payload_utf8 = 6;
//!   optional bytes payload_binary = 7;
//! }
//! ```
//!
//! The protocol-buffers primitives (tags, varints, length-delimited fields,
//! skipping unknown fields) come from the `protobuf` crate; the schema above and
//! the framing are this module's own.

use crate::message::{CastMessage, CastMessagePayload, CastMessageView, EndpointId, Namespace, PayloadView};
use vstd::prelude::*;
use vstd::utf8::*;

verus! {

// ---------------------------------------------------------------------------
// Protocol-buffers wire format.
// ---------------------------------------------------------------------------

/// Base-128 varint encoding, least significant group first.
pub open spec fn spec_varint(v: nat) -> Seq<u8>
    decreases v,
{
    if v < 128 {
        seq![v as u8]
    } else {
        seq![(v % 128 + 128) as u8] + spec_varint(v / 128)
    }
}

/// The key of a field: its number and wire type packed into a varint.
pub open spec fn spec_tag(field: nat, wire_type: nat) -> Seq<u8> {
    spec_varint(field * 8 + wire_type)
}

/// A varint (wire type 0) field.
pub open spec fn spec_varint_field(field: nat, v: nat) -> Seq<u8> {
    spec_tag(field, 0) + spec_varint(v)
}

/// The value part of a length-delimited field.
pub open spec fn spec_len_delimited(b: Seq<u8>) -> Seq<u8> {
    spec_varint(b.len()) + b
}

/// A length-delimited (wire type 2) field.
pub open spec fn spec_bytes_field(field: nat, b: Seq<u8>) -> Seq<u8> {
    spec_tag(field, 2) + spec_len_delimited(b)
}

/// A string field: its UTF-8 bytes, length-delimited.
pub open spec fn spec_string_field(field: nat, s: Seq<char>) -> Seq<u8> {
    spec_bytes_field(field, encode_utf8(s))
}

pub const FIELD_PROTOCOL_VERSION: u32 = 1;
pub const FIELD_SOURCE_ID: u32 = 2;
pub const FIELD_DESTINATION_ID: u32 = 3;
pub const FIELD_NAMESPACE: u32 = 4;
pub const FIELD_PAYLOAD_TYPE: u32 = 5;
pub const FIELD_PAYLOAD_UTF8: u32 = 6;
pub const FIELD_PAYLOAD_BINARY: u32 = 7;

/// `ProtocolVersion::CASTV2_1_0`.
pub const PROTOCOL_VERSION_CASTV2_1_0: i32 = 0;
/// `PayloadType::STRING`.
pub const PAYLOAD_TYPE_STRING: i32 = 0;
/// `PayloadType::BINARY`.
pub const PAYLOAD_TYPE_BINARY: i32 = 1;

/// The payload type a payload is sent with.
pub open spec fn spec_payload_type(p: PayloadView) -> nat {
    match p {
        PayloadView::Text(_) => 0,
        PayloadView::Bytes(_) => 1,
    }
}

/// The encoded fields of a message, in the order they are written: field `k`
/// of the message for `0 <= k < 6`.
pub open spec fn spec_field_piece(m: CastMessageView, k: int) -> Seq<u8> {
    if k == 0 {
        spec_varint_field(1, 0)
    } else if k == 1 {
        spec_string_field(2, m.source)
    } else if k == 2 {
        spec_string_field(3, m.destination)
    } else if k == 3 {
        spec_string_field(4, m.namespace)
    } else if k == 4 {
        spec_varint_field(5, spec_payload_type(m.payload))
    } else {
        match m.payload {
            PayloadView::Text(s) => spec_string_field(6, s),
            PayloadView::Bytes(b) => spec_bytes_field(7, b),
        }
    }
}

/// Fields `k..6` of a message, encoded.
pub open spec fn spec_pieces_from(m: CastMessageView, k: int) -> Seq<u8>
    decreases 6 - k,
{
    if k >= 6 {
        Seq::empty()
    } else {
        spec_field_piece(m, k) + spec_pieces_from(m, k + 1)
    }
}

/// The protocol-buffers encoding of a message.
pub open spec fn spec_encode_proto(m: CastMessageView) -> Seq<u8> {
    spec_pieces_from(m, 0)
}

/// A length as the 4 bytes of a big-endian `u32`.
pub open spec fn spec_be32(n: nat) -> Seq<u8> {
    seq![
        (n / 16777216 % 256) as u8,
        (n / 65536 % 256) as u8,
        (n / 256 % 256) as u8,
        (n % 256) as u8,
    ]
}

/// The value of the first 4 bytes read as a big-endian `u32`.
pub open spec fn spec_be32_value(b: Seq<u8>) -> nat {
    (b[0] as nat) * 16777216 + (b[1] as nat) * 65536 + (b[2] as nat) * 256 + (b[3] as nat)
}

/// A whole frame: the length of the encoded message, then the encoded message.
pub open spec fn spec_encode_frame(m: CastMessageView) -> Seq<u8> {
    spec_be32(spec_encode_proto(m).len()) + spec_encode_proto(m)
}

/// Errors of the framing layer.
#[derive(Clone, Copy, Debug, PartialEq, Eq, Structural)]
pub enum CodecError {
    /// The encoded message does not fit a 32-bit length prefix.
    FrameTooLarge,
    /// The frame's bytes are not a valid `CastMessage`.
    InvalidMessage,
}

// ---------------------------------------------------------------------------
// Writing, through `protobuf::CodedOutputStream`.
// ---------------------------------------------------------------------------

/// `CodedOutputStream::write_enum` on a stream that appends to `out`: the tag
/// of a varint field, then `value` as a varint. Appending to a `Vec` cannot fail.
#[verifier::external_body]
fn pb_write_enum(out: &mut Vec<u8>, field: u32, value: i32)
    requires
        1 <= field <= 0x1fff_ffff,
        0 <= value,
    ensures
        final(out)@ == old(out)@ + spec_varint_field(field as nat, value as nat),
{
    let mut os = protobuf::CodedOutputStream::vec(out);
    let _ = os.write_enum(field, value);
    let _ = os.flush();
}

/// `CodedOutputStream::write_string` on a stream that appends to `out`: the tag
/// of a length-delimited field, the byte length as a varint, then the UTF-8 bytes.
#[verifier::external_body]
fn pb_write_string(out: &mut Vec<u8>, field: u32, s: &str)
    requires
        1 <= field <= 0x1fff_ffff,
        encode_utf8(s@).len() <= u32::MAX,
    ensures
        final(out)@ == old(out)@ + spec_string_field(field as nat, s@),
{
    let mut os = protobuf::CodedOutputStream::vec(out);
    let _ = os.write_string(field, s);
    let _ = os.flush();
}

/// `CodedOutputStream::write_bytes` on a stream that appends to `out`: the tag
/// of a length-delimited field, the length as a varint, then the bytes.
#[verifier::external_body]
fn pb_write_bytes(out: &mut Vec<u8>, field: u32, b: &[u8])
    requires
        1 <= field <= 0x1fff_ffff,
        b@.len() <= u32::MAX,
    ensures
        final(out)@ == old(out)@ + spec_bytes_field(field as nat, b@),
{
    let mut os = protobuf::CodedOutputStream::vec(out);
    let _ = os.write_bytes(field, b);
    let _ = os.flush();
}

/// The length of the string's UTF-8 encoding in bytes.
fn utf8_len(s: &str) -> (n: usize)
    ensures
        n == encode_utf8(s@).len(),
{
    s.as_bytes().len()
}

// ---------------------------------------------------------------------------
// Encoding.
// ---------------------------------------------------------------------------

proof fn lemma_encode_proto_pieces(m: CastMessageView)
    ensures
        spec_encode_proto(m) =~= spec_field_piece(m, 0) + spec_field_piece(m, 1) + spec_field_piece(
            m,
            2,
        ) + spec_field_piece(m, 3) + spec_field_piece(m, 4) + spec_field_piece(m, 5),
{
    reveal_with_fuel(spec_pieces_from, 7);
}

/// The value of varint bytes: the low 7 bits of each byte, least significant
/// group first.
pub open spec fn spec_varint_value(b: Seq<u8>) -> nat
    decreases b.len(),
{
    if b.len() == 0 {
        0
    } else {
        (b[0] % 128) as nat + 128 * spec_varint_value(b.skip(1))
    }
}

/// The varint of `v` is at least one byte long, every byte but the last has
/// its high bit set, the last has it clear, and the 7-bit groups, least
/// significant first, add up to `v`. A value below 128 is the one byte of itself.
pub proof fn lemma_varint_groups(v: nat)
    ensures
        spec_varint(v).len() >= 1,
        spec_varint(v).last() < 128,
        forall|i: int| 0 <= i < spec_varint(v).len() - 1 ==> #[trigger] spec_varint(v)[i] >= 128,
        spec_varint_value(spec_varint(v)) == v,
        v < 128 ==> spec_varint(v) == seq![v as u8],
    decreases v,
{
    if v >= 128 {
        let rest = spec_varint(v / 128);
        lemma_varint_groups(v / 128);
        let b = spec_varint(v);
        assert(b == seq![(v % 128 + 128) as u8] + rest);
        assert(b.skip(1) =~= rest);
        assert(b.last() == rest.last());
        assert forall|i: int| 0 <= i < b.len() - 1 implies #[trigger] b[i] >= 128 by {
            if i > 0 {
                assert(b[i] == rest[i - 1]);
            }
        }
        assert(((v % 128 + 128) as u8) % 128 == v % 128);
        assert(b[0] % 128 == v % 128);
        assert(spec_varint_value(b) == (b[0] % 128) as nat + 128 * spec_varint_value(b.skip(1)));
        assert(v == v % 128 + 128 * (v / 128));
    } else {
        let b = spec_varint(v);
        assert(b.skip(1).len() == 0);
        assert(spec_varint_value(b.skip(1)) == 0);
        assert(spec_varint_value(b) == (b[0] % 128) as nat + 128 * spec_varint_value(b.skip(1)));
    }
}

/// The encoding of a message, byte for byte: `08 00` (protocol version 0), then
/// `12`, `1a` and `22` each before the length-delimited UTF-8 of the source,
/// the destination and the namespace, then `28` and the payload type (0 for
/// text, 1 for bytes), then `32` before a text payload or `3a` before a binary
/// one, length-delimited.
pub proof fn lemma_encode_proto_bytes(m: CastMessageView)
    ensures
        spec_encode_proto(m) == seq![0x08u8, 0x00u8, 0x12u8] + spec_varint(encode_utf8(m.source).len())
            + encode_utf8(m.source) + seq![0x1au8] + spec_varint(encode_utf8(m.destination).len())
            + encode_utf8(m.destination) + seq![0x22u8] + spec_varint(encode_utf8(m.namespace).len())
            + encode_utf8(m.namespace) + seq![0x28u8] + match m.payload {
            PayloadView::Text(t) => seq![0x00u8, 0x32u8] + spec_varint(encode_utf8(t).len())
                + encode_utf8(t),
            PayloadView::Bytes(b) => seq![0x01u8, 0x3au8] + spec_varint(b.len()) + b,
        },
{
    lemma_encode_proto_pieces(m);
    assert(spec_varint(0) == seq![0x00u8]);
    assert(spec_varint(1) == seq![0x01u8]);
    assert(spec_field_piece(m, 0) =~= seq![0x08u8, 0x00u8]);
    assert(spec_field_piece(m, 1) =~= seq![0x12u8] + spec_varint(encode_utf8(m.source).len())
        + encode_utf8(m.source));
    assert(spec_field_piece(m, 2) =~= seq![0x1au8] + spec_varint(encode_utf8(m.destination).len())
        + encode_utf8(m.destination));
    assert(spec_field_piece(m, 3) =~= seq![0x22u8] + spec_varint(encode_utf8(m.namespace).len())
        + encode_utf8(m.namespace));
    let tail = match m.payload {
        PayloadView::Text(t) => seq![0x00u8, 0x32u8] + spec_varint(encode_utf8(t).len()) + encode_utf8(t),
        PayloadView::Bytes(b) => seq![0x01u8, 0x3au8] + spec_varint(b.len()) + b,
    };
    match m.payload {
        PayloadView::Text(t) => {
            assert(spec_field_piece(m, 4) =~= seq![0x28u8, 0x00u8]);
            assert(spec_field_piece(m, 5) =~= seq![0x32u8] + spec_varint(encode_utf8(t).len())
                + encode_utf8(t));
            assert(spec_field_piece(m, 4) + spec_field_piece(m, 5) =~= seq![0x28u8] + tail);
        },
        PayloadView::Bytes(b) => {
            assert(spec_field_piece(m, 4) =~= seq![0x28u8, 0x01u8]);
            assert(spec_field_piece(m, 5) =~= seq![0x3au8] + spec_varint(b.len()) + b);
            assert(spec_field_piece(m, 4) + spec_field_piece(m, 5) =~= seq![0x28u8] + tail);
        },
    }
    assert(spec_encode_proto(m) =~= seq![0x08u8, 0x00u8, 0x12u8] + spec_varint(
        encode_utf8(m.source).len(),
    ) + encode_utf8(m.source) + seq![0x1au8] + spec_varint(encode_utf8(m.destination).len())
        + encode_utf8(m.destination) + seq![0x22u8] + spec_varint(encode_utf8(m.namespace).len())
        + encode_utf8(m.namespace) + seq![0x28u8] + tail);
}

/// The protocol-buffers encoding of `msg`; `FrameTooLarge` exactly when that
/// encoding is longer than a 32-bit length can say.
fn encode_proto(msg: &CastMessage) -> (r: Result<Vec<u8>, CodecError>)
    ensures
        match r {
            Ok(b) => b@ == spec_encode_proto(msg@) && b@.len() <= u32::MAX,
            Err(e) => e == CodecError::FrameTooLarge && spec_encode_proto(msg@).len() > u32::MAX,
        },
{
    proof {
        lemma_encode_proto_pieces(msg@);
    }
    let source = msg.source.as_str();
    let destination = msg.destination.as_str();
    let namespace = msg.namespace.as_str();
    if utf8_len(source) > 0xffff_ffff || utf8_len(destination) > 0xffff_ffff || utf8_len(namespace)
        > 0xffff_ffff {
        return Err(CodecError::FrameTooLarge);
    }
    let mut out: Vec<u8> = Vec::new();
    pb_write_enum(&mut out, FIELD_PROTOCOL_VERSION, PROTOCOL_VERSION_CASTV2_1_0);
    pb_write_string(&mut out, FIELD_SOURCE_ID, source);
    pb_write_string(&mut out, FIELD_DESTINATION_ID, destination);
    pb_write_string(&mut out, FIELD_NAMESPACE, namespace);
    match &msg.payload {
        CastMessagePayload::String(text) => {
            let text = text.as_str();
            if utf8_len(text) > 0xffff_ffff {
                return Err(CodecError::FrameTooLarge);
            }
            pb_write_enum(&mut out, FIELD_PAYLOAD_TYPE, PAYLOAD_TYPE_STRING);
            pb_write_string(&mut out, FIELD_PAYLOAD_UTF8, text);
        },
        CastMessagePayload::Binary(bytes) => {
            if bytes.len() > 0xffff_ffff {
                return Err(CodecError::FrameTooLarge);
            }
            pb_write_enum(&mut out, FIELD_PAYLOAD_TYPE, PAYLOAD_TYPE_BINARY);
            pb_write_bytes(&mut out, FIELD_PAYLOAD_BINARY, bytes.as_slice());
        },
    }
    assert(out@ =~= spec_encode_proto(msg@));
    if out.len() > 0xffff_ffff {
        return Err(CodecError::FrameTooLarge);
    }
    Ok(out)
}

/// The 4 bytes of `n` in big-endian order.
fn be32_bytes(n: u32) -> (r: Vec<u8>)
    ensures
        r@ == spec_be32(n as nat),
{
    let b0 = (n / 16777216) as u8;
    let b1 = (n / 65536 % 256) as u8;
    let b2 = (n / 256 % 256) as u8;
    let b3 = (n % 256) as u8;
    let r = vec![b0, b1, b2, b3];
    assert(r@ =~= spec_be32(n as nat));
    r
}

/// Encodes `msg` as one frame: a 4-byte big-endian length, then the message's
/// protocol-buffers encoding. Fails with `FrameTooLarge` exactly when the
/// encoding is longer than a 32-bit length can say.
pub fn encode_message(msg: &CastMessage) -> (r: Result<Vec<u8>, CodecError>)
    ensures
        match r {
            Ok(b) => spec_encode_proto(msg@).len() <= u32::MAX && b@ == spec_encode_frame(msg@),
            Err(e) => e == CodecError::FrameTooLarge && spec_encode_proto(msg@).len() > u32::MAX,
        },
{
    let proto = encode_proto(msg)?;
    let mut frame = be32_bytes(proto.len() as u32);
    frame.extend_from_slice(proto.as_slice());
    assert(frame@ =~= spec_encode_frame(msg@));
    Ok(frame)
}

// ---------------------------------------------------------------------------
// Reading, through `protobuf::CodedInputStream`.
// ---------------------------------------------------------------------------

/// What `CodedInputStream::read_raw_tag_or_eof` reads at the start of `rem`:
/// the tag and the number of bytes it took.
pub uninterp spec fn spec_pb_read_tag(rem: Seq<u8>) -> Option<(u32, usize)>;

/// What `CodedInputStream::read_int32` reads at the start of `rem`.
pub uninterp spec fn spec_pb_read_int32(rem: Seq<u8>) -> Option<(i32, usize)>;

/// What `CodedInputStream::read_string` reads at the start of `rem`.
pub uninterp spec fn spec_pb_read_string(rem: Seq<u8>) -> Option<(Seq<char>, usize)>;

/// What `CodedInputStream::read_bytes` reads at the start of `rem`.
pub uninterp spec fn spec_pb_read_bytes(rem: Seq<u8>) -> Option<(Seq<u8>, usize)>;

/// How many bytes `protobuf::rt::read_unknown_or_skip_group` skips at the start
/// of `rem` for the value of a field with tag `tag`.
pub uninterp spec fn spec_pb_skip_field(rem: Seq<u8>, tag: u32) -> Option<usize>;

/// `CodedInputStream::read_raw_tag_or_eof` on the bytes of `buf` from `pos` on:
/// the tag, a varint, and the number of bytes it took; `None` on a malformed
/// varint. A canonical varint of a `u32` reads as that value.
#[verifier::external_body]
fn pb_read_tag(buf: &[u8], pos: usize) -> (r: Option<(u32, usize)>)
    requires
        pos < buf@.len(),
    ensures
        r == spec_pb_read_tag(buf@.skip(pos as int)),
        r matches Some((t, n)) ==> 1 <= n <= buf@.len() - pos,
        forall|t: u32| #[trigger]
            spec_varint(t as nat).is_prefix_of(buf@.skip(pos as int)) ==> r == Some(
                (t, spec_varint(t as nat).len() as usize),
            ),
{
    let mut is = protobuf::CodedInputStream::from_bytes(&buf[pos..]);
    match is.read_raw_tag_or_eof() {
        Ok(Some(t)) => Some((t, is.pos() as usize)),
        _ => None,
    }
}

/// `CodedInputStream::read_int32` on the bytes of `buf` from `pos` on: a varint
/// read as an `i32`, and the number of bytes it took. A canonical varint of a
/// non-negative `i32` reads as that value.
#[verifier::external_body]
fn pb_read_int32(buf: &[u8], pos: usize) -> (r: Option<(i32, usize)>)
    requires
        pos <= buf@.len(),
    ensures
        r == spec_pb_read_int32(buf@.skip(pos as int)),
        r matches Some((v, n)) ==> n <= buf@.len() - pos,
        forall|v: i32| #![trigger spec_varint(v as nat)]
            0 <= v && spec_varint(v as nat).is_prefix_of(buf@.skip(pos as int)) ==> r == Some(
                (v, spec_varint(v as nat).len() as usize),
            ),
{
    let mut is = protobuf::CodedInputStream::from_bytes(&buf[pos..]);
    match is.read_int32() {
        Ok(v) => Some((v, is.pos() as usize)),
        Err(_) => None,
    }
}

/// `CodedInputStream::read_string` on the bytes of `buf` from `pos` on: a
/// varint length, then that many bytes of UTF-8; `None` when they are missing
/// or not UTF-8. The length-delimited UTF-8 encoding of a string reads as that string.
#[verifier::external_body]
fn pb_read_string(buf: &[u8], pos: usize) -> (r: Option<(String, usize)>)
    requires
        pos <= buf@.len(),
    ensures
        r matches Some((s, n)) ==> spec_pb_read_string(buf@.skip(pos as int)) == Some((s@, n)),
        r is None ==> spec_pb_read_string(buf@.skip(pos as int)) is None,
        r matches Some((s, n)) ==> n <= buf@.len() - pos,
        forall|c: Seq<char>| #![trigger spec_len_delimited(encode_utf8(c))]
            encode_utf8(c).len() <= u32::MAX && spec_len_delimited(encode_utf8(c)).is_prefix_of(
                buf@.skip(pos as int),
            ) ==> r is Some && r.unwrap().0@ == c && r.unwrap().1
                == spec_len_delimited(encode_utf8(c)).len(),
{
    let mut is = protobuf::CodedInputStream::from_bytes(&buf[pos..]);
    match is.read_string() {
        Ok(s) => Some((s, is.pos() as usize)),
        Err(_) => None,
    }
}

/// `CodedInputStream::read_bytes` on the bytes of `buf` from `pos` on: a varint
/// length, then that many bytes; `None` when they are missing. A
/// length-delimited byte string reads as that byte string.
#[verifier::external_body]
fn pb_read_bytes(buf: &[u8], pos: usize) -> (r: Option<(Vec<u8>, usize)>)
    requires
        pos <= buf@.len(),
    ensures
        r matches Some((b, n)) ==> spec_pb_read_bytes(buf@.skip(pos as int)) == Some((b@, n)),
        r is None ==> spec_pb_read_bytes(buf@.skip(pos as int)) is None,
        r matches Some((b, n)) ==> n <= buf@.len() - pos,
        forall|c: Seq<u8>| #![trigger spec_len_delimited(c)]
            c.len() <= u32::MAX && spec_len_delimited(c).is_prefix_of(buf@.skip(pos as int)) ==> r is Some
                && r.unwrap().0@ == c && r.unwrap().1 == spec_len_delimited(c).len(),
{
    let mut is = protobuf::CodedInputStream::from_bytes(&buf[pos..]);
    match is.read_bytes() {
        Ok(b) => Some((b, is.pos() as usize)),
        Err(_) => None,
    }
}

/// `protobuf::rt::read_unknown_or_skip_group` on the bytes of `buf` from `pos`
/// on, for a field with tag `tag` that the schema does not know: the number of
/// bytes its value takes; `None` when the tag or the value is malformed.
#[verifier::external_body]
fn pb_skip_field(buf: &[u8], pos: usize, tag: u32) -> (r: Option<usize>)
    requires
        pos <= buf@.len(),
    ensures
        r == spec_pb_skip_field(buf@.skip(pos as int), tag),
        r matches Some(n) ==> n <= buf@.len() - pos,
{
    let mut is = protobuf::CodedInputStream::from_bytes(&buf[pos..]);
    match protobuf::rt::read_unknown_or_skip_group(tag, &mut is, &mut protobuf::UnknownFields::new()) {
        Ok(()) => Some(is.pos() as usize),
        Err(_) => None,
    }
}

// ---------------------------------------------------------------------------
// Decoding.
// ---------------------------------------------------------------------------

/// The fields of a `CastMessage` read so far; a field read twice keeps its last value.
#[verifier::ext_equal]
pub struct WireFields {
    pub protocol_version: Option<i32>,
    pub source_id: Option<Seq<char>>,
    pub destination_id: Option<Seq<char>>,
    pub namespace: Option<Seq<char>>,
    pub payload_type: Option<i32>,
    pub payload_utf8: Option<Seq<char>>,
    pub payload_binary: Option<Seq<u8>>,
}

pub open spec fn spec_no_fields() -> WireFields {
    WireFields {
        protocol_version: None,
        source_id: None,
        destination_id: None,
        namespace: None,
        payload_type: None,
        payload_utf8: None,
        payload_binary: None,
    }
}

/// Reads the value of a field with tag `tag` from the start of `rem` into
/// `acc`: the updated fields and the number of bytes the value took. A tag the
/// schema does not know (another field number, or a known one with another wire
/// type) has its value skipped.
pub open spec fn spec_read_field(rem: Seq<u8>, tag: u32, acc: WireFields) -> Option<
    (WireFields, usize),
> {
    if tag == 8 {
        match spec_pb_read_int32(rem) {
            Some((v, n)) => Some((WireFields { protocol_version: Some(v), ..acc }, n)),
            None => None,
        }
    } else if tag == 18 {
        match spec_pb_read_string(rem) {
            Some((v, n)) => Some((WireFields { source_id: Some(v), ..acc }, n)),
            None => None,
        }
    } else if tag == 26 {
        match spec_pb_read_string(rem) {
            Some((v, n)) => Some((WireFields { destination_id: Some(v), ..acc }, n)),
            None => None,
        }
    } else if tag == 34 {
        match spec_pb_read_string(rem) {
            Some((v, n)) => Some((WireFields { namespace: Some(v), ..acc }, n)),
            None => None,
        }
    } else if tag == 40 {
        match spec_pb_read_int32(rem) {
            Some((v, n)) => Some((WireFields { payload_type: Some(v), ..acc }, n)),
            None => None,
        }
    } else if tag == 50 {
        match spec_pb_read_string(rem) {
            Some((v, n)) => Some((WireFields { payload_utf8: Some(v), ..acc }, n)),
            None => None,
        }
    } else if tag == 58 {
        match spec_pb_read_bytes(rem) {
            Some((v, n)) => Some((WireFields { payload_binary: Some(v), ..acc }, n)),
            None => None,
        }
    } else {
        match spec_pb_skip_field(rem, tag) {
            Some(n) => Some((acc, n)),
            None => None,
        }
    }
}

/// Reads fields from `rem` until it is used up.
pub open spec fn spec_decode_fields(rem: Seq<u8>, acc: WireFields) -> Option<WireFields>
    decreases rem.len(),
{
    if rem.len() == 0 {
        Some(acc)
    } else {
        match spec_pb_read_tag(rem) {
            None => None,
            Some((tag, n)) => {
                if n < 1 || n > rem.len() {
                    None
                } else {
                    let rest = rem.skip(n as int);
                    match spec_read_field(rest, tag, acc) {
                        None => None,
                        Some((acc2, m)) => {
                            if m > rest.len() {
                                None
                            } else {
                                spec_decode_fields(rest.skip(m as int), acc2)
                            }
                        },
                    }
                }
            },
        }
    }
}

/// The message the fields make: all required fields must be present. A payload
/// type other than `BINARY` is read as `STRING`; a missing payload is empty.
pub open spec fn spec_message_from_fields(f: WireFields) -> Option<CastMessageView> {
    if f.protocol_version is Some && f.source_id is Some && f.destination_id is Some
        && f.namespace is Some && f.payload_type is Some {
        Some(
            CastMessageView {
                namespace: f.namespace.unwrap(),
                source: f.source_id.unwrap(),
                destination: f.destination_id.unwrap(),
                payload: if f.payload_type.unwrap() == PAYLOAD_TYPE_BINARY {
                    PayloadView::Bytes(
                        match f.payload_binary {
                            Some(b) => b,
                            None => Seq::empty(),
                        },
                    )
                } else {
                    PayloadView::Text(
                        match f.payload_utf8 {
                            Some(t) => t,
                            None => Seq::empty(),
                        },
                    )
                },
            },
        )
    } else {
        None
    }
}

/// The message that protocol-buffers bytes decode to, if any.
pub open spec fn spec_decode_proto(b: Seq<u8>) -> Option<CastMessageView> {
    match spec_decode_fields(b, spec_no_fields()) {
        Some(f) => spec_message_from_fields(f),
        None => None,
    }
}

/// The tag that starts piece `k` of the encoding of `m`.
pub open spec fn spec_piece_tag(m: CastMessageView, k: int) -> nat {
    if k == 0 {
        8
    } else if k == 1 {
        18
    } else if k == 2 {
        26
    } else if k == 3 {
        34
    } else if k == 4 {
        40
    } else {
        match m.payload {
            PayloadView::Text(_) => 50,
            PayloadView::Bytes(_) => 58,
        }
    }
}

/// The value part of piece `k` of the encoding of `m`.
pub open spec fn spec_piece_value(m: CastMessageView, k: int) -> Seq<u8> {
    if k == 0 {
        spec_varint(0)
    } else if k == 1 {
        spec_len_delimited(encode_utf8(m.source))
    } else if k == 2 {
        spec_len_delimited(encode_utf8(m.destination))
    } else if k == 3 {
        spec_len_delimited(encode_utf8(m.namespace))
    } else if k == 4 {
        spec_varint(spec_payload_type(m.payload))
    } else {
        match m.payload {
            PayloadView::Text(s) => spec_len_delimited(encode_utf8(s)),
            PayloadView::Bytes(b) => spec_len_delimited(b),
        }
    }
}

/// The fields read after the first `k` pieces of the encoding of `m`.
pub open spec fn spec_fields_upto(m: CastMessageView, k: int) -> WireFields {
    WireFields {
        protocol_version: if k >= 1 {
            Some(0i32)
        } else {
            None
        },
        source_id: if k >= 2 {
            Some(m.source)
        } else {
            None
        },
        destination_id: if k >= 3 {
            Some(m.destination)
        } else {
            None
        },
        namespace: if k >= 4 {
            Some(m.namespace)
        } else {
            None
        },
        payload_type: if k >= 5 {
            Some(spec_payload_type(m.payload) as i32)
        } else {
            None
        },
        payload_utf8: if k >= 6 {
            match m.payload {
                PayloadView::Text(s) => Some(s),
                PayloadView::Bytes(_) => None,
            }
        } else {
            None
        },
        payload_binary: if k >= 6 {
            match m.payload {
                PayloadView::Bytes(b) => Some(b),
                PayloadView::Text(_) => None,
            }
        } else {
            None
        },
    }
}

proof fn lemma_varint_nonempty(v: nat)
    ensures
        spec_varint(v).len() >= 1,
    decreases v,
{
}

proof fn lemma_pieces_step(m: CastMessageView, k: int)
    requires
        0 <= k < 6,
    ensures
        spec_pieces_from(m, k) == spec_varint(spec_piece_tag(m, k)) + spec_piece_value(m, k)
            + spec_pieces_from(m, k + 1),
        spec_pieces_from(m, k).len() >= 1,
{
    let t = spec_varint(spec_piece_tag(m, k));
    let v = spec_piece_value(m, k);
    let r = spec_pieces_from(m, k + 1);
    assert(spec_field_piece(m, k) =~= t + v);
    assert(spec_pieces_from(m, k) =~= t + v + r);
    lemma_varint_nonempty(spec_piece_tag(m, k));
}

proof fn lemma_pieces_done(m: CastMessageView, k: int)
    requires
        0 <= k <= 6,
        spec_pieces_from(m, k).len() == 0,
    ensures
        k == 6,
{
    if k < 6 {
        lemma_pieces_step(m, k);
    }
}

/// After the tag of piece `k` and its value have been read, what is left is
/// the pieces after `k`.
proof fn lemma_after_piece(b: Seq<u8>, pos: int, n: int, len: int, m: CastMessageView, k: int)
    requires
        0 <= k < 6,
        0 <= pos <= b.len(),
        b.skip(pos) == spec_pieces_from(m, k),
        n == spec_varint(spec_piece_tag(m, k)).len(),
        len == spec_piece_value(m, k).len(),
    ensures
        pos + n + len <= b.len(),
        spec_varint(spec_piece_tag(m, k)).is_prefix_of(b.skip(pos)),
        spec_piece_value(m, k).is_prefix_of(b.skip(pos + n)),
        b.skip(pos + n + len) == spec_pieces_from(m, k + 1),
{
    lemma_pieces_step(m, k);
    let t = spec_varint(spec_piece_tag(m, k));
    let v = spec_piece_value(m, k);
    let r = spec_pieces_from(m, k + 1);
    assert(b.skip(pos) =~= t + v + r);
    assert(t =~= b.skip(pos).subrange(0, t.len() as int));
    assert(b.skip(pos + n) =~= b.skip(pos).skip(n));
    assert((t + v + r).skip(n) =~= v + r);
    assert(b.skip(pos + n) =~= v + r);
    assert(v =~= b.skip(pos + n).subrange(0, v.len() as int));
    assert(b.skip(pos + n + len) =~= b.skip(pos + n).skip(len));
    assert((v + r).skip(len) =~= r);
    assert(b.skip(pos + n + len) =~= r);
}

/// The fields a decoding has collected.
struct FieldsRead {
    protocol_version: Option<i32>,
    source_id: Option<String>,
    destination_id: Option<String>,
    namespace: Option<String>,
    payload_type: Option<i32>,
    payload_utf8: Option<String>,
    payload_binary: Option<Vec<u8>>,
}

spec fn spec_opt_text(o: Option<String>) -> Option<Seq<char>> {
    match o {
        Some(s) => Some(s@),
        None => None,
    }
}

spec fn spec_opt_bytes(o: Option<Vec<u8>>) -> Option<Seq<u8>> {
    match o {
        Some(b) => Some(b@),
        None => None,
    }
}

impl View for FieldsRead {
    type V = WireFields;

    closed spec fn view(&self) -> WireFields {
        WireFields {
            protocol_version: self.protocol_version,
            source_id: spec_opt_text(self.source_id),
            destination_id: spec_opt_text(self.destination_id),
            namespace: spec_opt_text(self.namespace),
            payload_type: self.payload_type,
            payload_utf8: spec_opt_text(self.payload_utf8),
            payload_binary: spec_opt_bytes(self.payload_binary),
        }
    }
}

/// `bytes` are the encoding of `m`, short enough for a 32-bit frame length.
pub open spec fn spec_encodes(bytes: Seq<u8>, m: CastMessageView) -> bool {
    spec_encode_proto(m) == bytes && bytes.len() <= u32::MAX
}

proof fn lemma_prefix_len(a: Seq<u8>, b: Seq<u8>)
    requires
        a.is_prefix_of(b),
    ensures
        a.len() <= b.len(),
{
}

/// Decodes protocol-buffers bytes as a `CastMessage`: `None` exactly when the
/// bytes are not a well-formed message with all required fields. Bytes that are
/// the encoding of a message decode to that message.
fn decode_proto(bytes: &[u8]) -> (r: Option<CastMessage>)
    ensures
        r is None ==> spec_decode_proto(bytes@) is None,
        r matches Some(msg) ==> spec_decode_proto(bytes@) == Some(msg@),
        forall|m: CastMessageView| #[trigger] spec_encodes(bytes@, m) ==> r is Some && r.unwrap()@ == m,
{
    let mut acc = FieldsRead {
        protocol_version: None,
        source_id: None,
        destination_id: None,
        namespace: None,
        payload_type: None,
        payload_utf8: None,
        payload_binary: None,
    };
    let mut pos: usize = 0;
    let ghost mut k: int = 0;
    proof {
        assert(bytes@.skip(0) =~= bytes@);
        assert(acc@ =~= spec_no_fields());
        assert forall|m: CastMessageView| #[trigger] spec_encodes(bytes@, m) implies acc@
            == spec_fields_upto(m, 0) by {
            assert(acc@ =~= spec_fields_upto(m, 0));
        }
    }
    while pos < bytes.len()
        invariant
            pos <= bytes@.len(),
            spec_decode_fields(bytes@, spec_no_fields()) == spec_decode_fields(
                bytes@.skip(pos as int),
                acc@,
            ),
            forall|m: CastMessageView| #[trigger]
                spec_encodes(bytes@, m) ==> 0 <= k <= 6 && bytes@.skip(pos as int)
                    == spec_pieces_from(m, k) && acc@ == spec_fields_upto(m, k),
        decreases bytes@.len() - pos,
    {
        let ghost pos0 = pos as int;
        let ghost acc0 = acc@;
        let ghost rem = bytes@.skip(pos0);
        proof {
            assert forall|m: CastMessageView| #[trigger] spec_encodes(bytes@, m) implies k < 6
                && spec_varint(spec_piece_tag(m, k)).is_prefix_of(rem) by {
                if k == 6 {
                    assert(spec_pieces_from(m, 6).len() == 0);
                }
                lemma_pieces_step(m, k);
                lemma_varint_nonempty(spec_piece_value(m, k).len());
                lemma_after_piece(bytes@, pos0, spec_varint(spec_piece_tag(m, k)).len() as int,
                    spec_piece_value(m, k).len() as int, m, k);
            }
        }
        let tag_read = pb_read_tag(bytes, pos);
        proof {
            assert forall|m: CastMessageView| #[trigger] spec_encodes(bytes@, m) implies tag_read
                == Some(((spec_piece_tag(m, k) as u32), spec_varint(spec_piece_tag(m, k)).len() as usize))
                by {
                let t = spec_piece_tag(m, k) as u32;
                assert(spec_varint(t as nat) == spec_varint(spec_piece_tag(m, k)));
                assert(spec_varint(t as nat).is_prefix_of(bytes@.skip(pos as int)));
            }
        }
        let (tag, n) = match tag_read {
            Some(x) => x,
            None => {
                return None;
            },
        };
        let vpos = pos + n;
        proof {
            assert(rem.skip(n as int) =~= bytes@.skip(vpos as int));
        }
        if tag == 8 {
            let val = pb_read_int32(bytes, vpos);
            proof {
                assert forall|m: CastMessageView| #[trigger] spec_encodes(bytes@, m) implies k == 0
                    && val == Some((0i32, 1usize)) by {
                    let v: i32 = 0;
                    lemma_after_piece(bytes@, pos0, n as int, spec_piece_value(m, k).len() as int, m, k);
                    assert(spec_varint(v as nat) == spec_piece_value(m, k));
                }
            }
            let (v, vlen) = match val {
                Some(x) => x,
                None => {
                    return None;
                },
            };
            acc.protocol_version = Some(v);
            pos = vpos + vlen;
        } else if tag == 18 || tag == 26 || tag == 34 || tag == 50 {
            let val = pb_read_string(bytes, vpos);
            proof {
                assert forall|m: CastMessageView| #[trigger] spec_encodes(bytes@, m) implies {
                    &&& (tag == 18 ==> k == 1)
                    &&& (tag == 26 ==> k == 2)
                    &&& (tag == 34 ==> k == 3)
                    &&& (tag == 50 ==> k == 5)
                    &&& val is Some
                    &&& spec_len_delimited(encode_utf8(val.unwrap().0@)) == spec_piece_value(m, k)
                    &&& val.unwrap().0@ == (if k == 1 {
                        m.source
                    } else if k == 2 {
                        m.destination
                    } else if k == 3 {
                        m.namespace
                    } else {
                        match m.payload {
                            PayloadView::Text(s) => s,
                            PayloadView::Bytes(_) => Seq::empty(),
                        }
                    })
                    &&& val.unwrap().1 == spec_piece_value(m, k).len()
                } by {
                    lemma_after_piece(bytes@, pos0, n as int, spec_piece_value(m, k).len() as int, m, k);
                    let c = if k == 1 {
                        m.source
                    } else if k == 2 {
                        m.destination
                    } else if k == 3 {
                        m.namespace
                    } else {
                        match m.payload {
                            PayloadView::Text(s) => s,
                            PayloadView::Bytes(_) => Seq::empty(),
                        }
                    };
                    assert(spec_len_delimited(encode_utf8(c)) == spec_piece_value(m, k));
                    lemma_prefix_len(spec_piece_value(m, k), bytes@.skip(vpos as int));
                    assert(encode_utf8(c).len() <= u32::MAX);
                }
            }
            let (v, vlen) = match val {
                Some(x) => x,
                None => {
                    return None;
                },
            };
            if tag == 18 {
                acc.source_id = Some(v);
            } else if tag == 26 {
                acc.destination_id = Some(v);
            } else if tag == 34 {
                acc.namespace = Some(v);
            } else {
                acc.payload_utf8 = Some(v);
            }
            pos = vpos + vlen;
        } else if tag == 40 {
            let val = pb_read_int32(bytes, vpos);
            proof {
                assert forall|m: CastMessageView| #[trigger] spec_encodes(bytes@, m) implies k == 4
                    && val == Some(((spec_payload_type(m.payload) as i32), 1usize)) by {
                    let v: i32 = spec_payload_type(m.payload) as i32;
                    lemma_after_piece(bytes@, pos0, n as int, spec_piece_value(m, k).len() as int, m, k);
                    assert(spec_varint(v as nat) == spec_piece_value(m, k));
                }
            }
            let (v, vlen) = match val {
                Some(x) => x,
                None => {
                    return None;
                },
            };
            acc.payload_type = Some(v);
            pos = vpos + vlen;
        } else if tag == 58 {
            let val = pb_read_bytes(bytes, vpos);
            proof {
                assert forall|m: CastMessageView| #[trigger] spec_encodes(bytes@, m) implies {
                    &&& k == 5
                    &&& val is Some
                    &&& m.payload == PayloadView::Bytes(val.unwrap().0@)
                    &&& val.unwrap().1 == spec_piece_value(m, k).len()
                } by {
                    lemma_after_piece(bytes@, pos0, n as int, spec_piece_value(m, k).len() as int, m, k);
                    if let PayloadView::Bytes(c) = m.payload {
                        lemma_prefix_len(spec_piece_value(m, k), bytes@.skip(vpos as int));
                        assert(spec_len_delimited(c).is_prefix_of(bytes@.skip(vpos as int)));
                    }
                }
            }
            let (v, vlen) = match val {
                Some(x) => x,
                None => {
                    return None;
                },
            };
            acc.payload_binary = Some(v);
            pos = vpos + vlen;
        } else {
            let skipped = pb_skip_field(bytes, vpos, tag);
            let vlen = match skipped {
                Some(x) => x,
                None => {
                    return None;
                },
            };
            pos = vpos + vlen;
        }
        proof {
            let rest = bytes@.skip(vpos as int);
            assert(rest.skip((pos - vpos) as int) =~= bytes@.skip(pos as int));
            assert forall|m: CastMessageView| #[trigger] spec_encodes(bytes@, m) implies 0 <= k + 1
                <= 6 && bytes@.skip(pos as int) == spec_pieces_from(m, k + 1) && acc@
                == spec_fields_upto(m, k + 1) by {
                lemma_after_piece(bytes@, pos0, n as int, spec_piece_value(m, k).len() as int, m, k);
                assert(acc@ =~= spec_fields_upto(m, k + 1));
            }
            k = k + 1;
        }
    }
    proof {
        assert(bytes@.skip(pos as int) =~= Seq::<u8>::empty());
        assert forall|m: CastMessageView| #[trigger] spec_encodes(bytes@, m) implies k == 6 by {
            lemma_pieces_done(m, k);
        }
    }
    let FieldsRead {
        protocol_version,
        source_id,
        destination_id,
        namespace,
        payload_type,
        payload_utf8,
        payload_binary,
    } = acc;
    if protocol_version.is_none() {
        return None;
    }
    let source = match source_id {
        Some(s) => s,
        None => {
            return None;
        },
    };
    let destination = match destination_id {
        Some(s) => s,
        None => {
            return None;
        },
    };
    let namespace = match namespace {
        Some(s) => s,
        None => {
            return None;
        },
    };
    let ptype = match payload_type {
        Some(t) => t,
        None => {
            return None;
        },
    };
    let payload = if ptype == PAYLOAD_TYPE_BINARY {
        CastMessagePayload::Binary(
            match payload_binary {
                Some(b) => b,
                None => Vec::new(),
            },
        )
    } else {
        CastMessagePayload::String(
            match payload_utf8 {
                Some(t) => t,
                None => String::new(),
            },
        )
    };
    let msg = CastMessage {
        namespace: Namespace(namespace),
        source: EndpointId(source),
        destination: EndpointId(destination),
        payload,
    };
    proof {
        assert forall|m: CastMessageView| #[trigger] spec_encodes(bytes@, m) implies msg@ == m by {
            assert(msg@ =~= m);
        }
    }
    Some(msg)
}

/// The length a frame header announces.
fn be32_value(buf: &[u8]) -> (r: u64)
    requires
        buf@.len() >= 4,
    ensures
        r == spec_be32_value(buf@),
        r <= u32::MAX,
{
    (buf[0] as u64) * 16777216 + (buf[1] as u64) * 65536 + (buf[2] as u64) * 256 + (buf[3] as u64)
}

/// A frame length is written most significant byte first, and reading the 4
/// bytes back gives the length.
pub proof fn lemma_be32_roundtrip(n: nat)
    requires
        n <= u32::MAX,
    ensures
        spec_be32_value(spec_be32(n)) == n,
        spec_be32(n).len() == 4,
        spec_be32(n)[0] == n / 16777216,
        spec_be32(n)[3] == n % 256,
        n < 256 ==> spec_be32(n) == seq![0u8, 0u8, 0u8, n as u8],
{
    assert(n / 16777216 < 256) by (nonlinear_arith)
        requires
            n <= u32::MAX,
    ;
}

/// Decodes one frame from the start of `buf`.
///
/// `Ok(None)` while `buf` holds less than the whole frame: fewer than 4 bytes,
/// or fewer than the length the first 4 bytes announce. Otherwise the frame's
/// message and the number of bytes the frame took, or `InvalidMessage` when the
/// frame's bytes are not a well-formed `CastMessage`. A buffer that starts with
/// the frame of a message decodes to that message.
pub fn decode_message(buf: &[u8]) -> (r: Result<Option<(CastMessage, usize)>, CodecError>)
    ensures
        buf@.len() < 4 ==> r matches Ok(None),
        buf@.len() >= 4 && buf@.len() < 4 + spec_be32_value(buf@) ==> r matches Ok(None),
        buf@.len() >= 4 && buf@.len() >= 4 + spec_be32_value(buf@) ==> match spec_decode_proto(
            buf@.subrange(4, 4 + spec_be32_value(buf@) as int),
        ) {
            None => r == Err::<Option<(CastMessage, usize)>, CodecError>(CodecError::InvalidMessage),
            Some(m) => r matches Ok(Some((msg, n))) && msg@ == m && n == 4 + spec_be32_value(buf@),
        },
        forall|m: CastMessageView| #[trigger]
            spec_encode_frame(m).is_prefix_of(buf@) && spec_encode_proto(m).len() <= u32::MAX
                ==> (r matches Ok(Some((msg, n))) && msg@ == m && n == spec_encode_frame(m).len()),
{
    proof {
        assert forall|m: CastMessageView| #[trigger]
            spec_encode_frame(m).is_prefix_of(buf@) && spec_encode_proto(m).len() <= u32::MAX
            implies buf@.len() >= 4 && spec_be32_value(buf@) == spec_encode_proto(m).len()
            && buf@.len() >= 4 + spec_be32_value(buf@) && spec_encodes(
            buf@.subrange(4, 4 + spec_be32_value(buf@) as int),
            m,
        ) by {
            let p = spec_encode_proto(m);
            let f = spec_encode_frame(m);
            lemma_be32_roundtrip(p.len());
            assert(f =~= spec_be32(p.len()) + p);
            assert(buf@.subrange(0, f.len() as int) =~= f);
            assert forall|i: int| 0 <= i < p.len() implies buf@[4 + i] == p[i] by {
                assert(buf@.subrange(0, f.len() as int)[4 + i] == f[4 + i]);
            }
            assert(buf@.subrange(0, 4) =~= spec_be32(p.len()));
            assert(buf@.subrange(4, 4 + p.len() as int) =~= p);
        }
    }
    if buf.len() < 4 {
        return Ok(None);
    }
    let len = be32_value(buf);
    if (buf.len() as u64) < len + 4 {
        return Ok(None);
    }
    let end = (len + 4) as usize;
    let proto = vstd::slice::slice_subrange(buf, 4, end);
    match decode_proto(proto) {
        Some(msg) => Ok(Some((msg, end))),
        None => Err(CodecError::InvalidMessage),
    }
}

} // verus!
