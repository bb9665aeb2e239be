//! Frames on the byte stream: one byte for the kind of message, two bytes
//! for the length of the payload, most significant byte first, and then the
//! payload.
//!
//! A stream may deliver a frame in pieces, or several frames at once. The
//! receiver therefore collects what it reads, and takes frames from the
//! front of what it has collected.

use vstd::prelude::*;

verus! {

/// The kind of a frame that carries a handshake.
pub const KIND_START: u8 = 1;

/// The kind of a frame that carries a move.
pub const KIND_MOVE: u8 = 2;

/// The kind of a frame that carries an acknowledgment.
pub const KIND_ACK: u8 = 3;

/// The length of the kind and the length field together.
pub const HEADER_LEN: usize = 3;

/// The longest payload that the length field can state.
pub const MAX_PAYLOAD: usize = 65535;

/// The frame of a payload of at most `MAX_PAYLOAD` bytes.
pub open spec fn frame_of(kind: u8, payload: Seq<u8>) -> Seq<u8> {
    seq![kind, (payload.len() / 256) as u8, (payload.len() % 256) as u8] + payload
}

/// The payload length that the header at the front of a buffer states.
pub open spec fn declared_len(buf: Seq<u8>) -> int {
    buf[1] as int * 256 + buf[2] as int
}

/// A buffer starts with a whole frame.
pub open spec fn has_frame(buf: Seq<u8>) -> bool {
    buf.len() >= HEADER_LEN && buf.len() >= HEADER_LEN + declared_len(buf)
}

/// The kind of the frame at the front of a buffer.
pub open spec fn first_kind(buf: Seq<u8>) -> u8 {
    buf[0]
}

/// The payload of the frame at the front of a buffer.
pub open spec fn first_payload(buf: Seq<u8>) -> Seq<u8> {
    buf.subrange(HEADER_LEN as int, HEADER_LEN + declared_len(buf))
}

/// What follows the frame at the front of a buffer.
pub open spec fn after_first(buf: Seq<u8>) -> Seq<u8> {
    buf.subrange(HEADER_LEN + declared_len(buf), buf.len() as int)
}

/// Copies a part of a buffer.
pub fn copy_range(buf: &Vec<u8>, from: usize, to: usize) -> (part: Vec<u8>)
    requires
        from <= to <= buf.len(),
    ensures
        part@ == buf@.subrange(from as int, to as int),
{
    let mut part: Vec<u8> = Vec::new();
    let mut i: usize = from;
    while i < to
        invariant
            from <= i <= to <= buf.len(),
            part@ == buf@.subrange(from as int, i as int),
        decreases to - i,
    {
        part.push(buf[i]);
        assert(buf@.subrange(from as int, i as int).push(buf@[i as int]) =~= buf@.subrange(
            from as int,
            i + 1,
        ));
        i = i + 1;
    }
    part
}

/// Appends a buffer to another.
pub fn append_bytes(target: &mut Vec<u8>, bytes: &Vec<u8>)
    ensures
        final(target)@ == old(target)@ + bytes@,
{
    let mut i: usize = 0;
    while i < bytes.len()
        invariant
            i <= bytes.len(),
            target@ == old(target)@ + bytes@.subrange(0, i as int),
        decreases bytes.len() - i,
    {
        target.push(bytes[i]);
        assert(bytes@.subrange(0, i as int).push(bytes@[i as int]) =~= bytes@.subrange(0, i + 1));
        assert(target@ =~= old(target)@ + bytes@.subrange(0, i + 1));
        i = i + 1;
    }
    assert(bytes@.subrange(0, bytes.len() as int) =~= bytes@);
}

/// Puts a payload in a frame.
///
/// `None` exactly when the payload is longer than `MAX_PAYLOAD`.
pub fn encode_frame(kind: u8, payload: &Vec<u8>) -> (frame: Option<Vec<u8>>)
    ensures
        frame is Some <==> payload.len() <= MAX_PAYLOAD,
        frame matches Some(f) ==> f@ == frame_of(kind, payload@),
{
    if payload.len() > MAX_PAYLOAD {
        return None;
    }
    let mut frame: Vec<u8> = Vec::new();
    frame.push(kind);
    frame.push((payload.len() / 256) as u8);
    frame.push((payload.len() % 256) as u8);
    append_bytes(&mut frame, payload);
    assert(frame@ =~= frame_of(kind, payload@));
    Some(frame)
}

/// A frame taken from the front of a buffer, and what followed it.
pub struct Split {
    pub kind: u8,
    pub payload: Vec<u8>,
    pub rest: Vec<u8>,
}

/// Takes the frame at the front of a buffer.
///
/// `None` exactly when the buffer does not yet hold a whole frame.
pub fn split_frame(buf: &Vec<u8>) -> (split: Option<Split>)
    ensures
        split is Some <==> has_frame(buf@),
        split matches Some(s) ==> s.kind == first_kind(buf@) && s.payload@ == first_payload(buf@)
            && s.rest@ == after_first(buf@),
{
    if buf.len() < HEADER_LEN {
        return None;
    }
    let len: usize = buf[1] as usize * 256 + buf[2] as usize;
    if buf.len() - HEADER_LEN < len {
        return None;
    }
    let payload = copy_range(buf, HEADER_LEN, HEADER_LEN + len);
    let rest = copy_range(buf, HEADER_LEN + len, buf.len());
    Some(Split { kind: buf[0], payload, rest })
}

/// A frame, whatever follows it, is taken from the front as it was put in.
pub proof fn lemma_frame_round_trip(kind: u8, payload: Seq<u8>, tail: Seq<u8>)
    requires
        payload.len() <= MAX_PAYLOAD,
    ensures
        has_frame(frame_of(kind, payload) + tail),
        first_kind(frame_of(kind, payload) + tail) == kind,
        first_payload(frame_of(kind, payload) + tail) == payload,
        after_first(frame_of(kind, payload) + tail) == tail,
{
    let buf = frame_of(kind, payload) + tail;
    assert(buf[0] == kind);
    assert(buf[1] == (payload.len() / 256) as u8);
    assert(buf[2] == (payload.len() % 256) as u8);
    assert(declared_len(buf) == payload.len());
    assert(first_payload(buf) =~= payload);
    assert(after_first(buf) =~= tail);
}

/// A frame that has not arrived whole is not taken: no proper prefix of a
/// frame holds a frame.
pub proof fn lemma_partial_frame(kind: u8, payload: Seq<u8>, n: int)
    requires
        payload.len() <= MAX_PAYLOAD,
        0 <= n < frame_of(kind, payload).len(),
    ensures
        !has_frame(frame_of(kind, payload).subrange(0, n)),
{
    let frame = frame_of(kind, payload);
    let part = frame.subrange(0, n);
    if n >= HEADER_LEN {
        assert(part[1] == frame[1]);
        assert(part[2] == frame[2]);
        assert(declared_len(part) == payload.len());
    }
}

} // verus!
