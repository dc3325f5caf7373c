//! The SOME/IP base wire header: its byte layout, validity, and the trusted
//! bridge to the `someip_parse` codec that encodes and decodes it.
//!
//! A frame starts with a 16 byte header: a 4 byte message id, a 4 byte
//! length (counting every byte after the first 8), a 4 byte request id, a
//! protocol version byte (always 0x01), an interface version byte, a message
//! type byte and a return code byte. When the message type byte carries the
//! TP flag, a 4 byte TP sub-header follows before the payload.

use vstd::prelude::*;

verus! {

/// Message id reserved for service-discovery messages.
pub const SD_MESSAGE_ID: u32 = 0xFFFF_8100;

/// The message kinds the protocol defines.
#[derive(Clone, Copy, Debug, PartialEq, Eq, Structural)]
pub enum MessageKind {
    Request,
    RequestNoReturn,
    Notification,
    Response,
    Error,
}

/// The fields of one base wire header, as plain values.
#[derive(Clone, Copy, Debug, PartialEq, Eq, Structural)]
pub struct WireHeader {
    pub message_id: u32,
    /// Byte count of everything after the first 8 header bytes.
    pub length: u32,
    pub request_id: u32,
    pub interface_version: u8,
    pub message_type: MessageKind,
    /// Whether the message type byte carried the TP flag, in which case a
    /// 4 byte TP sub-header sits between the header and the payload.
    pub has_tp: bool,
    pub return_code: u8,
}

/// The value of the big-endian 16 bit field at offset `i`.
pub open spec fn be16(b: Seq<u8>, i: int) -> int {
    b[i] * 0x100 + b[i + 1]
}

/// The value of the big-endian 32 bit field at offset `i`.
pub open spec fn be32(b: Seq<u8>, i: int) -> int {
    b[i] * 0x100_0000 + b[i + 1] * 0x1_0000 + b[i + 2] * 0x100 + b[i + 3]
}

/// The value of the big-endian 24 bit field at offset `i`.
pub open spec fn be24(b: Seq<u8>, i: int) -> int {
    b[i] * 0x1_0000 + b[i + 1] * 0x100 + b[i + 2]
}

/// Reads the big-endian 16 bit field at offset `i`.
pub fn read_be16(b: &[u8], i: usize) -> (r: u16)
    requires
        i + 2 <= b@.len(),
    ensures
        r == be16(b@, i as int),
{
    // The exec length bounds `i + 2` by a machine word, which the view
    // length in the precondition alone would not.
    let _len: usize = b.len();
    (b[i] as u16) * 0x100 + (b[i + 1] as u16)
}

/// Reads the big-endian 32 bit field at offset `i`.
pub fn read_be32(b: &[u8], i: usize) -> (r: u32)
    requires
        i + 4 <= b@.len(),
    ensures
        r == be32(b@, i as int),
{
    // The exec length bounds `i + 4` by a machine word, which the view
    // length in the precondition alone would not.
    let _len: usize = b.len();
    (b[i] as u32) * 0x100_0000 + (b[i + 1] as u32) * 0x1_0000 + (b[i + 2] as u32) * 0x100 + (b[i
        + 3] as u32)
}

/// Whether `t` is one of the message type bytes the protocol defines,
/// with or without the TP flag (0x20).
pub open spec fn valid_message_type_byte(t: u8) -> bool {
    ||| t == 0x00
    ||| t == 0x01
    ||| t == 0x02
    ||| t == 0x80
    ||| t == 0x81
    ||| t == 0x20
    ||| t == 0x21
    ||| t == 0x22
    ||| t == 0xA0
    ||| t == 0xA1
}

/// Whether the message type byte `t` carries the TP flag.
pub open spec fn has_tp_flag(t: u8) -> bool {
    ||| t == 0x20
    ||| t == 0x21
    ||| t == 0x22
    ||| t == 0xA0
    ||| t == 0xA1
}

/// The message kind encoded by the message type byte `t`.
pub open spec fn kind_of_byte(t: u8) -> MessageKind {
    if t == 0x00 || t == 0x20 {
        MessageKind::Request
    } else if t == 0x01 || t == 0x21 {
        MessageKind::RequestNoReturn
    } else if t == 0x02 || t == 0x22 {
        MessageKind::Notification
    } else if t == 0x80 || t == 0xA0 {
        MessageKind::Response
    } else {
        MessageKind::Error
    }
}

/// The message type byte of a kind, without the TP flag.
pub open spec fn message_type_byte(k: MessageKind) -> u8 {
    match k {
        MessageKind::Request => 0x00,
        MessageKind::RequestNoReturn => 0x01,
        MessageKind::Notification => 0x02,
        MessageKind::Response => 0x80,
        MessageKind::Error => 0x81,
    }
}

/// Whether `b` starts with a structurally valid wire header: 16 header
/// bytes whose length field is at least 8, a supported protocol version,
/// a known message type byte, and 4 further bytes when the TP flag asks
/// for a TP sub-header.
pub open spec fn header_parse_ok(b: Seq<u8>) -> bool {
    &&& b.len() >= 16
    &&& be32(b, 4) >= 8
    &&& b[12] == 0x01u8
    &&& valid_message_type_byte(b[14])
    &&& (has_tp_flag(b[14]) ==> b.len() >= 20)
}

/// The header value encoded at the front of `b`.
pub open spec fn spec_header(b: Seq<u8>) -> WireHeader {
    WireHeader {
        message_id: be32(b, 0) as u32,
        length: be32(b, 4) as u32,
        request_id: be32(b, 8) as u32,
        interface_version: b[13],
        message_type: kind_of_byte(b[14]),
        has_tp: has_tp_flag(b[14]),
        return_code: b[15],
    }
}

/// Offset of the payload within a frame that starts with header bytes `b`.
pub open spec fn payload_offset(b: Seq<u8>) -> int {
    if has_tp_flag(b[14]) {
        20
    } else {
        16
    }
}

/// Whether `b` is exactly the 16 byte encoding of the header `h`
/// (which carries no TP sub-header).
pub open spec fn is_base_header_bytes(b: Seq<u8>, h: WireHeader) -> bool {
    &&& b.len() == 16
    &&& be32(b, 0) == h.message_id
    &&& be32(b, 4) == h.length
    &&& be32(b, 8) == h.request_id
    &&& b[12] == 0x01u8
    &&& b[13] == h.interface_version
    &&& b[14] == message_type_byte(h.message_type)
    &&& b[15] == h.return_code
}

/// Law: the message type byte of a kind is always a known byte, decodes
/// back to that kind, and never carries the TP flag.
pub proof fn lemma_message_type_byte_round_trip(k: MessageKind)
    ensures
        valid_message_type_byte(message_type_byte(k)),
        kind_of_byte(message_type_byte(k)) == k,
        !has_tp_flag(message_type_byte(k)),
{
}

/// Relies on `someip_parse::SomeipHeader::read`: it succeeds exactly when
/// the input starts with 16 header bytes whose length field is at least 8,
/// whose protocol version byte is 0x01 and whose message type byte (TP flag
/// included) is known, followed by 4 more bytes whenever the TP flag is
/// set; each field is read big-endian from its fixed offset.
#[verifier::external_body]
pub(crate) fn parse_base_header(bytes: &[u8]) -> (r: Option<WireHeader>)
    ensures
        r is Some <==> header_parse_ok(bytes@),
        r matches Some(h) ==> h == spec_header(bytes@),
{
    let mut cursor = std::io::Cursor::new(bytes);
    let h = someip_parse::SomeipHeader::read(&mut cursor).ok()?;
    let message_type = match h.message_type {
        someip_parse::MessageType::Request => MessageKind::Request,
        someip_parse::MessageType::RequestNoReturn => MessageKind::RequestNoReturn,
        someip_parse::MessageType::Notification => MessageKind::Notification,
        someip_parse::MessageType::Response => MessageKind::Response,
        someip_parse::MessageType::Error => MessageKind::Error,
    };
    Some(WireHeader {
        message_id: h.message_id, length: h.length, request_id: h.request_id,
        interface_version: h.interface_version, message_type,
        has_tp: h.tp_header.is_some(), return_code: h.return_code,
    })
}

/// Relies on `someip_parse::SomeipHeader::base_to_bytes`: it returns exactly
/// the 16 base header bytes, each multi-byte field big-endian, the protocol
/// version byte 0x01, and no TP flag since no TP sub-header is given.
#[verifier::external_body]
pub(crate) fn encode_base_header(h: &WireHeader) -> (r: Vec<u8>)
    requires
        !h.has_tp,
    ensures
        is_base_header_bytes(r@, *h),
{
    let message_type = match h.message_type {
        MessageKind::Request => someip_parse::MessageType::Request,
        MessageKind::RequestNoReturn => someip_parse::MessageType::RequestNoReturn,
        MessageKind::Notification => someip_parse::MessageType::Notification,
        MessageKind::Response => someip_parse::MessageType::Response,
        MessageKind::Error => someip_parse::MessageType::Error,
    };
    let wire = someip_parse::SomeipHeader {
        message_id: h.message_id, length: h.length, request_id: h.request_id,
        interface_version: h.interface_version, message_type,
        return_code: h.return_code, tp_header: None,
    };
    wire.base_to_bytes().to_vec()
}

} // verus!
