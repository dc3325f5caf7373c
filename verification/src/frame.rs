//! The frame accumulator: it owns the receive buffer of one stream
//! connection, grows it with newly read bytes, and carves complete
//! length-delimited frames off its front.

use vstd::prelude::*;

use crate::errors::SomeIpClientError;
use crate::wire::{
    be32, header_parse_ok, parse_base_header, payload_offset, spec_header, WireHeader,
};

verus! {

/// Whether the buffer `b` holds one complete frame at its front: a full
/// header, and at least as many bytes as the length field announces.
pub open spec fn frame_complete(b: Seq<u8>) -> bool {
    b.len() >= 16 && b.len() >= 8 + be32(b, 4)
}

/// The byte count of the frame at the front of `b`: the 8 bytes before
/// the length field plus the count the length field announces.
pub open spec fn spec_frame_len(b: Seq<u8>) -> int {
    8 + be32(b, 4)
}

/// The bytes of the frame at the front of `b`.
pub open spec fn spec_frame(b: Seq<u8>) -> Seq<u8> {
    b.subrange(0, spec_frame_len(b))
}

/// The payload bytes of the frame `f`: everything after the header and,
/// when present, the TP sub-header.
pub open spec fn spec_payload(f: Seq<u8>) -> Seq<u8> {
    f.subrange(payload_offset(f), f.len() as int)
}

/// One complete frame carved out of the stream.
pub struct SomeIpFrame {
    pub header: WireHeader,
    pub bytes: Vec<u8>,
}

impl SomeIpFrame {
    /// Whether the frame is exactly one well-formed wire message whose
    /// header field mirrors its bytes.
    pub open spec fn wf(&self) -> bool {
        &&& header_parse_ok(self.bytes@)
        &&& self.bytes@.len() == spec_frame_len(self.bytes@)
        &&& self.header == spec_header(self.bytes@)
    }

    /// The payload bytes of the frame.
    pub fn payload(&self) -> (r: Vec<u8>)
        requires
            self.wf(),
        ensures
            r@ == spec_payload(self.bytes@),
    {
        let offset: usize = if self.header.has_tp {
            20
        } else {
            16
        };
        vstd::slice::slice_to_vec(
            vstd::slice::slice_subrange(self.bytes.as_slice(), offset, self.bytes.len()),
        )
    }
}

/// The three outcomes of trying to carve a frame off the buffer.
pub enum ExtractOutcome {
    /// A complete, structurally valid frame was removed from the buffer.
    Extracted { frame: SomeIpFrame },
    /// The buffer does not yet hold a complete frame; it was not changed.
    Incomplete,
    /// The buffer holds a complete frame whose header is structurally
    /// invalid; the buffer was not changed.
    Malformed,
}

/// The growable receive buffer of one stream connection.
#[derive(Debug)]
pub struct FrameAccumulator {
    buf: Vec<u8>,
}

impl View for FrameAccumulator {
    type V = Seq<u8>;

    closed spec fn view(&self) -> Seq<u8> {
        self.buf@
    }
}

impl FrameAccumulator {
    /// An empty accumulator for a fresh connection.
    pub fn new() -> (r: Self)
        ensures
            r@ == Seq::<u8>::empty(),
    {
        FrameAccumulator { buf: Vec::new() }
    }

    /// How many bytes are buffered.
    pub fn len(&self) -> (r: usize)
        ensures
            r == self@.len(),
    {
        self.buf.len()
    }

    /// Adds newly read bytes to the tail of the buffer.
    pub fn append(&mut self, chunk: &[u8])
        ensures
            final(self)@ == old(self)@ + chunk@,
    {
        self.buf.extend_from_slice(chunk);
    }

    /// Tries to carve one frame off the front of the buffer: succeeds
    /// exactly when a complete, structurally valid frame is buffered, in
    /// which case those bytes are removed and any remainder is retained;
    /// an incomplete or invalid buffer is left unchanged.
    pub fn try_extract_frame(&mut self) -> (r: ExtractOutcome)
        ensures
            !frame_complete(old(self)@) ==> r is Incomplete && final(self)@ == old(self)@,
            frame_complete(old(self)@) && !header_parse_ok(spec_frame(old(self)@)) ==> r
                is Malformed && final(self)@ == old(self)@,
            frame_complete(old(self)@) && header_parse_ok(spec_frame(old(self)@)) ==> (r matches
                ExtractOutcome::Extracted { frame } && frame.wf() && frame.bytes@ == spec_frame(
                old(self)@,
            ) && final(self)@ == old(self)@.skip(spec_frame_len(old(self)@))),
    {
        if self.buf.len() < 16 {
            return ExtractOutcome::Incomplete;
        }
        let length = crate::wire::read_be32(self.buf.as_slice(), 4);
        if (self.buf.len() as u64) < 8u64 + (length as u64) {
            return ExtractOutcome::Incomplete;
        }
        let total: usize = (length as usize) + 8;
        let frame_slice = vstd::slice::slice_subrange(self.buf.as_slice(), 0, total);
        match parse_base_header(frame_slice) {
            None => ExtractOutcome::Malformed,
            Some(header) => {
                let bytes = vstd::slice::slice_to_vec(frame_slice);
                let rest = vstd::slice::slice_to_vec(
                    vstd::slice::slice_subrange(self.buf.as_slice(), total, self.buf.len()),
                );
                self.buf = rest;
                proof {
                    assert(self@ =~= old(self)@.skip(spec_frame_len(old(self)@)));
                }
                ExtractOutcome::Extracted { frame: SomeIpFrame { header, bytes } }
            },
        }
    }

    /// Classifies a zero-byte read from the transport: with an empty
    /// buffer the peer closed the connection normally; with buffered bytes
    /// it reset in the middle of a frame.
    pub fn on_eof(&self) -> (r: SomeIpClientError)
        ensures
            self@.len() == 0 ==> r == SomeIpClientError::ConnectionClosed,
            self@.len() > 0 ==> r == SomeIpClientError::TruncatedFrame,
    {
        if self.buf.len() == 0 {
            SomeIpClientError::ConnectionClosed
        } else {
            SomeIpClientError::TruncatedFrame
        }
    }
}

/// Law: for every header and payload pair, the buffer made of the
/// header's 16 byte encoding followed by the payload, with the length
/// field counting the 8 trailing header bytes plus the payload, is one
/// complete, structurally valid frame; extracting it yields the header
/// back and the payload bytes unchanged.
pub proof fn lemma_header_payload_frame(b: Seq<u8>, h: WireHeader)
    requires
        !h.has_tp,
        b.len() >= 16,
        crate::wire::is_base_header_bytes(b.subrange(0, 16), h),
        h.length == b.len() - 8,
    ensures
        frame_complete(b),
        spec_frame(b) == b,
        header_parse_ok(b),
        spec_header(b) == h,
        spec_payload(b) == b.skip(16),
{
    let hb = b.subrange(0, 16);
    assert(b[12] == hb[12] && b[13] == hb[13] && b[14] == hb[14] && b[15] == hb[15]);
    assert(be32(b, 0) == be32(hb, 0) && be32(b, 4) == be32(hb, 4) && be32(b, 8) == be32(hb, 8));
    crate::wire::lemma_message_type_byte_round_trip(h.message_type);
    assert(spec_frame(b) =~= b);
    assert(spec_payload(b) =~= b.skip(16));
}

/// Law: a buffer holding exactly the announced byte count of one valid
/// frame is complete and the carved frame is that whole buffer, its
/// payload the unchanged byte suffix; a buffer holding fewer bytes than
/// announced is incomplete.
pub proof fn lemma_exact_frame_extraction(b: Seq<u8>)
    requires
        header_parse_ok(b),
    ensures
        b.len() == 8 + be32(b, 4) ==> frame_complete(b) && spec_frame(b) == b && spec_payload(b)
            == b.subrange(payload_offset(b), b.len() as int),
        b.len() < 8 + be32(b, 4) ==> !frame_complete(b),
{
    if b.len() == 8 + be32(b, 4) {
        assert(spec_frame(b) =~= b);
    }
}

} // verus!
