//! The codec that cuts a byte stream into frames and writes frames into it.

use vstd::prelude::*;
use crate::framed_header::{
    be_u32_bytes, be_u32_value, lemma_be_u32_roundtrip, FramedHdr, FramedHdrRef, HEADER_SIZE,
};

verus! {

/// Whether `b` starts with a complete frame: a header announcing `N` and
/// at least `N` payload bytes after it (a lone header announcing zero is a
/// complete frame with an empty payload).
pub open spec fn has_frame(b: Seq<u8>) -> bool {
    &&& b.len() >= HEADER_SIZE
    &&& b.len() >= HEADER_SIZE + be_u32_value(b)
}

/// The payload of the frame at the start of `b`.
pub open spec fn frame_payload(b: Seq<u8>) -> Seq<u8> {
    b.subrange(HEADER_SIZE as int, HEADER_SIZE + be_u32_value(b))
}

/// What follows the frame at the start of `b`.
pub open spec fn frame_rest(b: Seq<u8>) -> Seq<u8> {
    b.subrange(HEADER_SIZE + be_u32_value(b), b.len() as int)
}

/// The bytes of one frame carrying `data`: the header announces the length
/// of `data` taken modulo 2^32, as the encoder's conversion to `u32` does.
pub open spec fn frame_bytes(data: Seq<u8>) -> Seq<u8> {
    be_u32_bytes((data.len() % 0x1_0000_0000) as u32) + data
}

/// The header of a frame carrying `data` announces its length, when the
/// length fits in 32 bits.
pub proof fn lemma_frame_announces_length(data: Seq<u8>, rest: Seq<u8>)
    requires
        data.len() < 0x1_0000_0000,
    ensures
        be_u32_value(frame_bytes(data) + rest) == data.len(),
        (frame_bytes(data) + rest).len() == HEADER_SIZE + data.len() + rest.len(),
{
    let n = (data.len() % 0x1_0000_0000) as u32;
    lemma_be_u32_roundtrip(n);
    let b = frame_bytes(data) + rest;
    assert(b[0] == be_u32_bytes(n)[0]);
    assert(b[1] == be_u32_bytes(n)[1]);
    assert(b[2] == be_u32_bytes(n)[2]);
    assert(b[3] == be_u32_bytes(n)[3]);
}

/// What the encoder writes, the decoder gives back: a buffer that starts
/// with the frame of `data` decodes to `data` and keeps what follows the
/// frame. It holds for every payload shorter than 2^32 bytes.
pub proof fn lemma_decode_encoded(data: Seq<u8>, rest: Seq<u8>)
    requires
        data.len() < 0x1_0000_0000,
    ensures
        has_frame(frame_bytes(data) + rest),
        frame_payload(frame_bytes(data) + rest) == data,
        frame_rest(frame_bytes(data) + rest) == rest,
{
    lemma_frame_announces_length(data, rest);
    let b = frame_bytes(data) + rest;
    assert(frame_payload(b) =~= data);
    assert(frame_rest(b) =~= rest);
}

/// The decoder never takes an incomplete frame: every proper prefix of the
/// bytes of a frame leaves the decoder waiting.
pub proof fn lemma_incomplete_frame_waits(data: Seq<u8>, k: int)
    requires
        data.len() < 0x1_0000_0000,
        0 <= k < frame_bytes(data).len(),
    ensures
        !has_frame(frame_bytes(data).take(k)),
{
    let b = frame_bytes(data).take(k);
    if k >= HEADER_SIZE {
        lemma_frame_announces_length(data, Seq::empty());
        assert(frame_bytes(data) + Seq::<u8>::empty() =~= frame_bytes(data));
        assert(b[0] == frame_bytes(data)[0]);
        assert(b[1] == frame_bytes(data)[1]);
        assert(b[2] == frame_bytes(data)[2]);
        assert(b[3] == frame_bytes(data)[3]);
    }
}

/// The bytes of a sequence of frames, one after the other.
pub open spec fn frames_bytes(frames: Seq<Seq<u8>>) -> Seq<u8>
    decreases frames.len(),
{
    if frames.len() == 0 {
        Seq::empty()
    } else {
        frame_bytes(frames[0]) + frames_bytes(frames.drop_first())
    }
}

/// The payloads that decoding `b` again and again gives, until the decoder
/// waits for more bytes.
pub open spec fn decode_all(b: Seq<u8>) -> Seq<Seq<u8>>
    decreases b.len(),
{
    if has_frame(b) {
        seq![frame_payload(b)] + decode_all(frame_rest(b))
    } else {
        Seq::empty()
    }
}

/// A stream of frames decodes into the payloads that were encoded, in the
/// order they were encoded, when every payload is shorter than 2^32 bytes.
pub proof fn lemma_decode_stream(frames: Seq<Seq<u8>>)
    requires
        forall|i: int| 0 <= i < frames.len() ==> #[trigger] frames[i].len() < 0x1_0000_0000,
    ensures
        decode_all(frames_bytes(frames)) == frames,
    decreases frames.len(),
{
    if frames.len() > 0 {
        let tail = frames.drop_first();
        assert forall|i: int| 0 <= i < tail.len() implies #[trigger] tail[i].len() < 0x1_0000_0000 by {
            assert(tail[i] == frames[i + 1]);
        }
        lemma_decode_stream(tail);
        let rest = frames_bytes(tail);
        lemma_decode_encoded(frames[0], rest);
        assert(decode_all(frames_bytes(frames)) =~= seq![frames[0]] + tail);
        assert(seq![frames[0]] + tail =~= frames);
    } else {
        assert(!has_frame(frames_bytes(frames)));
        assert(decode_all(frames_bytes(frames)) =~= frames);
    }
}

/// The wire format of a frame: the four header bytes announce the payload
/// length in big-endian order, and the payload follows unchanged; the
/// payload taken out of a buffer is exactly the announced number of bytes
/// after the header, unchanged, and what stays is everything after them.
pub proof fn lemma_frame_layout(data: Seq<u8>, b: Seq<u8>)
    ensures
        frame_bytes(data).len() == HEADER_SIZE + data.len(),
        frame_bytes(data).subrange(0, HEADER_SIZE as int) == be_u32_bytes(
            (data.len() % 0x1_0000_0000) as u32,
        ),
        frame_bytes(data).subrange(HEADER_SIZE as int, frame_bytes(data).len() as int) == data,
        data.len() < 0x1_0000_0000 ==> be_u32_value(frame_bytes(data)) == data.len(),
        has_frame(b) ==> {
            &&& frame_payload(b).len() == be_u32_value(b)
            &&& forall|i: int|
                0 <= i < frame_payload(b).len() ==> #[trigger] frame_payload(b)[i] == b[HEADER_SIZE
                    + i]
            &&& forall|i: int|
                0 <= i < frame_rest(b).len() ==> #[trigger] frame_rest(b)[i] == b[HEADER_SIZE
                    + be_u32_value(b) + i]
            &&& frame_rest(b).len() == b.len() - HEADER_SIZE - be_u32_value(b)
        },
{
    let n = (data.len() % 0x1_0000_0000) as u32;
    lemma_be_u32_roundtrip(n);
    assert(frame_bytes(data).subrange(0, HEADER_SIZE as int) =~= be_u32_bytes(n));
    assert(frame_bytes(data).subrange(HEADER_SIZE as int, frame_bytes(data).len() as int) =~= data);
    if data.len() < 0x1_0000_0000 {
        lemma_frame_announces_length(data, Seq::empty());
        assert(frame_bytes(data) + Seq::<u8>::empty() =~= frame_bytes(data));
    }
}

/// A decoder and encoder of length-prefixed frames.
pub struct FramedCodec(());

impl FramedCodec {
    /// A new codec.
    pub fn new() -> (r: FramedCodec) {
        FramedCodec(())
    }

    /// Takes the first complete frame out of `buf` and returns its payload;
    /// returns `None` and leaves `buf` as it is while no complete frame is
    /// there.
    pub fn decode(&mut self, buf: &mut Vec<u8>) -> (r: Option<Vec<u8>>)
        ensures
            r is Some <==> has_frame(old(buf)@),
            r matches Some(m) ==> m@ == frame_payload(old(buf)@) && final(buf)@ == frame_rest(
                old(buf)@,
            ),
            r matches Some(m) ==> {
                &&& m@ == old(buf)@.subrange(
                    HEADER_SIZE as int,
                    HEADER_SIZE + be_u32_value(old(buf)@),
                )
                &&& final(buf)@ == old(buf)@.subrange(
                    HEADER_SIZE + be_u32_value(old(buf)@),
                    old(buf)@.len() as int,
                )
            },
            r is None ==> final(buf)@ == old(buf)@,
    {
        if buf.len() < FramedHdr::size() {
            return None;
        }
        let msg_size: usize = {
            let (head, _) = buf.as_slice().split_at(FramedHdrRef::size());
            let hdr = FramedHdrRef::new(head);
            hdr.get_size() as usize
        };
        if buf.len() - FramedHdrRef::size() >= msg_size {
            let rest = buf.split_off(FramedHdrRef::size() + msg_size);
            let payload = buf.split_off(FramedHdrRef::size());
            *buf = rest;
            Some(payload)
        } else {
            None
        }
    }

    /// Appends one frame carrying `data` to `buf`.
    pub fn encode(&mut self, data: Vec<u8>, buf: &mut Vec<u8>)
        ensures
            final(buf)@ == old(buf)@ + frame_bytes(data@),
            final(buf)@ == old(buf)@ + be_u32_bytes((data@.len() % 0x1_0000_0000) as u32) + data@,
    {
        let len = data.len();
        let mut header = FramedHdr::new();
        header.set_size(len as u32);
        assert((len as u32) == ((len as u64) % 0x1_0000_0000u64) as u32) by (bit_vector);
        assert((len as u64) % 0x1_0000_0000u64 == len as nat % 0x1_0000_0000);
        buf.reserve(data.len().saturating_add(FramedHdr::size()));
        let ghost before = buf@;
        let hb = header.buf();
        buf.extend_from_slice(hb);
        assert(buf@ =~= before + hb@);
        let mut data = data;
        buf.append(&mut data);
    }
}

} // verus!
