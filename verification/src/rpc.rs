//! The request/response engine: it frames one typed request for the wire
//! and classifies the frames that come back until the answer to the
//! pending request arrives.
//!
//! The engine assumes at most one outstanding request per connection: the
//! next response- or error-typed frame is taken to answer the most recent
//! request, so no request-id demultiplexing is performed.

use vstd::prelude::*;

use crate::errors::SomeIpClientError;
use crate::frame::{
    frame_complete, spec_frame, spec_frame_len, spec_payload, ExtractOutcome, FrameAccumulator,
};
use crate::wire::{
    be32, encode_base_header, header_parse_ok, is_base_header_bytes, kind_of_byte, MessageKind,
    WireHeader,
};

verus! {

/// The header of a request frame, as the engine builds it: the message id
/// packs the service id with the masked method id, the request id packs
/// the caller's id with session number one, and the length counts the
/// 8 trailing header bytes plus the payload.
pub open spec fn request_header(
    service_id: u16,
    method_id: u16,
    request_id: u16,
    interface_version: u8,
    payload_len: int,
) -> WireHeader {
    WireHeader {
        message_id: (service_id * 0x1_0000 + (method_id % 0x8000)) as u32,
        length: (8 + payload_len) as u32,
        request_id: (request_id * 0x1_0000 + 1) as u32,
        interface_version,
        message_type: MessageKind::Request,
        has_tp: false,
        return_code: 0x00,
    }
}

/// Builds the bytes of one request frame: the 16 header bytes followed by
/// the serialized payload, as one logical write.
pub fn build_request_frame(
    service_id: u16,
    method_id: u16,
    request_id: u16,
    interface_version: u8,
    payload: &[u8],
) -> (r: Vec<u8>)
    requires
        payload@.len() + 8 <= u32::MAX,
    ensures
        r@.len() == 16 + payload@.len(),
        is_base_header_bytes(
            r@.subrange(0, 16),
            request_header(
                service_id,
                method_id,
                request_id,
                interface_version,
                payload@.len() as int,
            ),
        ),
        r@.skip(16) == payload@,
{
    let payload_len = payload.len();
    let header = WireHeader {
        message_id: (service_id as u32) * 0x1_0000 + ((method_id % 0x8000) as u32),
        length: 8 + payload_len as u32,
        request_id: (request_id as u32) * 0x1_0000 + 1,
        interface_version,
        message_type: MessageKind::Request,
        has_tp: false,
        return_code: 0x00,
    };
    let mut r = encode_base_header(&header);
    let ghost header_bytes = r@;
    r.extend_from_slice(payload);
    proof {
        assert(r@.subrange(0, 16) =~= header_bytes);
        assert(r@.skip(16) =~= payload@);
    }
    r
}

/// What one scan of the buffered bytes decides for a pending request.
pub ghost enum RpcScan {
    /// No complete frame of interest is buffered yet; `rest` is the whole
    /// retained buffer.
    NeedMore { rest: Seq<u8> },
    /// The frame at the front is structurally invalid; the buffer is kept
    /// as `rest` and the call fails hard.
    Malformed { rest: Seq<u8> },
    /// An error-typed frame answered the request.
    ErrorReceived { return_code: u8, rest: Seq<u8> },
    /// A response-typed frame answered the request with `payload`.
    Responded { payload: Seq<u8>, rest: Seq<u8> },
}

/// Scans the buffer `b` for the frame that answers the pending request,
/// discarding complete frames of any other message kind.
pub open spec fn rpc_scan(b: Seq<u8>) -> RpcScan
    decreases b.len(),
{
    if !frame_complete(b) {
        RpcScan::NeedMore { rest: b }
    } else if be32(b, 4) < 8 {
        RpcScan::Malformed { rest: b }
    } else {
        let f = spec_frame(b);
        if !header_parse_ok(f) {
            RpcScan::Malformed { rest: b }
        } else {
            let rest = b.skip(spec_frame_len(b));
            if kind_of_byte(f[14]) is Error {
                RpcScan::ErrorReceived { return_code: f[15], rest }
            } else if kind_of_byte(f[14]) is Response {
                RpcScan::Responded { payload: spec_payload(f), rest }
            } else {
                rpc_scan(rest)
            }
        }
    }
}

/// What the engine reports after digesting the buffered bytes.
pub enum RpcPoll {
    /// More bytes must be read before the answer can be seen.
    Pending,
    /// The call failed: a malformed frame or an error-typed answer.
    Failed { error: SomeIpClientError },
    /// The call succeeded with this response payload.
    Complete { payload: Vec<u8> },
}

/// How a poll result and the buffer left behind reflect one scan outcome.
pub open spec fn poll_reflects_scan(s: RpcScan, r: RpcPoll, buf: Seq<u8>) -> bool {
    match s {
        RpcScan::NeedMore { rest } => r is Pending && buf == rest,
        RpcScan::Malformed { rest } => (r matches RpcPoll::Failed { error } && error
            == SomeIpClientError::ReadError) && buf == rest,
        RpcScan::ErrorReceived { return_code, rest } => (r matches RpcPoll::Failed { error }
            && error == (SomeIpClientError::ErrorResponse { return_code })) && buf == rest,
        RpcScan::Responded { payload, rest } => (r matches RpcPoll::Complete { payload: p } && p@
            == payload) && buf == rest,
    }
}

/// Digests the buffered bytes for the pending request: extracts complete
/// frames off the front, discards the kinds that do not answer a request,
/// and reports the first error- or response-typed frame, a malformed
/// frame, or the need for more bytes.
pub fn poll_response(acc: &mut FrameAccumulator) -> (r: RpcPoll)
    ensures
        poll_reflects_scan(rpc_scan(old(acc)@), r, final(acc)@),
{
    loop
        invariant
            rpc_scan(acc@) == rpc_scan(old(acc)@),
        decreases acc@.len(),
    {
        let ghost before = acc@;
        match acc.try_extract_frame() {
            ExtractOutcome::Incomplete => {
                proof {
                    assert(rpc_scan(before) == (RpcScan::NeedMore { rest: before }));
                }
                return RpcPoll::Pending;
            },
            ExtractOutcome::Malformed => {
                proof {
                    assert(rpc_scan(before) == (RpcScan::Malformed { rest: before }));
                }
                return RpcPoll::Failed { error: SomeIpClientError::ReadError };
            },
            ExtractOutcome::Extracted { frame } => {
                let ghost f = spec_frame(before);
                let ghost rest = before.skip(spec_frame_len(before));
                proof {
                    assert(header_parse_ok(f));
                    assert(f.len() == spec_frame_len(before));
                    assert(be32(before, 4) >= 8);
                    assert(frame.header == crate::wire::spec_header(f));
                }
                match frame.header.message_type {
                    MessageKind::Error => {
                        proof {
                            assert(rpc_scan(before) == (RpcScan::ErrorReceived {
                                return_code: f[15],
                                rest,
                            }));
                        }
                        return RpcPoll::Failed {
                            error: SomeIpClientError::ErrorResponse {
                                return_code: frame.header.return_code,
                            },
                        };
                    },
                    MessageKind::Response => {
                        proof {
                            assert(rpc_scan(before) == (RpcScan::Responded {
                                payload: spec_payload(f),
                                rest,
                            }));
                        }
                        let payload = frame.payload();
                        return RpcPoll::Complete { payload };
                    },
                    _ => {
                        proof {
                            assert(rpc_scan(before) == rpc_scan(rest));
                        }
                    },
                }
            },
        }
    }
}

/// Law: accumulation is chunk-size independent. When a scan still needs
/// more bytes, scanning the buffer extended by a further chunk decides the
/// same as scanning the retained remainder extended by that chunk, so any
/// split of a byte stream into chunks yields the same answer.
pub proof fn lemma_scan_chunk_independent(b: Seq<u8>, rest: Seq<u8>, c: Seq<u8>)
    requires
        rpc_scan(b) == (RpcScan::NeedMore { rest }),
    ensures
        rpc_scan(b + c) == rpc_scan(rest + c),
    decreases b.len(),
{
    if !frame_complete(b) {
        assert(b + c =~= rest + c);
    } else {
        let n = spec_frame_len(b);
        let f = spec_frame(b);
        assert(frame_complete(b + c));
        assert(spec_frame(b + c) =~= f);
        assert((b + c).skip(n) =~= b.skip(n) + c);
        lemma_scan_chunk_independent(b.skip(n), rest, c);
    }
}

/// Law: an error-typed frame at the front of the buffer fails the call
/// with the frame's return code; its body is never handed out as a
/// response payload.
pub proof fn lemma_error_frame_rejected(b: Seq<u8>)
    requires
        frame_complete(b),
        header_parse_ok(spec_frame(b)),
        kind_of_byte(spec_frame(b)[14]) is Error,
    ensures
        rpc_scan(b) == (RpcScan::ErrorReceived {
            return_code: spec_frame(b)[15],
            rest: b.skip(spec_frame_len(b)),
        }),
{
    assert(spec_frame(b).len() >= 16);
}

/// Law: a response-typed frame at the front of the buffer completes the
/// call with exactly that frame's payload bytes.
pub proof fn lemma_response_frame_completes(b: Seq<u8>)
    requires
        frame_complete(b),
        header_parse_ok(spec_frame(b)),
        kind_of_byte(spec_frame(b)[14]) is Response,
    ensures
        rpc_scan(b) == (RpcScan::Responded {
            payload: spec_payload(spec_frame(b)),
            rest: b.skip(spec_frame_len(b)),
        }),
{
    assert(spec_frame(b).len() >= 16);
}

} // verus!
