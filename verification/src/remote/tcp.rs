//! Envelopes on a byte stream.
//!
//! Each envelope travels in a frame: a four-byte big-endian length followed
//! by exactly that many bytes, which hold the envelope's record.

use vstd::prelude::*;
use bytes::{Buf, BufMut, BytesMut};
use crate::remote::envelope::{Envelope, EnvelopeView};
use crate::remote::wire::{blank, lemma_record_round_trip, parse, record};

verus! {

#[verifier::external_type_specification]
#[verifier::external_body]
pub struct ExBytesMut(bytes::BytesMut);

/// The bytes that a buffer holds, first to last.
pub uninterp spec fn contents(buf: BytesMut) -> Seq<u8>;

/// `BytesMut::len`: the number of bytes in the buffer.
#[verifier::external_body]
fn buffered(buf: &BytesMut) -> (n: usize)
    ensures
        n == contents(*buf).len(),
{
    buf.len()
}

/// Indexing a `BytesMut` as a slice: the byte at position `i`. The index
/// must be in bounds, where the outside code would panic.
#[verifier::external_body]
fn byte_at(buf: &BytesMut, i: usize) -> (b: u8)
    requires
        i < contents(*buf).len(),
    ensures
        b == contents(*buf)[i as int],
{
    buf[i]
}

/// `Buf::advance` on a `BytesMut`: drops the first `cnt` bytes. It panics
/// past the end, which the precondition leaves out.
#[verifier::external_body]
fn advance(buf: &mut BytesMut, cnt: usize)
    requires
        cnt <= contents(*old(buf)).len(),
    ensures
        contents(*final(buf)) == contents(*old(buf)).skip(cnt as int),
{
    buf.advance(cnt)
}

/// `BytesMut::split_to`: returns the first `at` bytes and leaves the rest in
/// the buffer. It panics where `at` is past the end, which the precondition
/// leaves out.
#[verifier::external_body]
fn split_to(buf: &mut BytesMut, at: usize) -> (head: BytesMut)
    requires
        at <= contents(*old(buf)).len(),
    ensures
        contents(head) == contents(*old(buf)).take(at as int),
        contents(*final(buf)) == contents(*old(buf)).skip(at as int),
{
    buf.split_to(at)
}

/// `BytesMut::reserve`: makes room for `additional` more bytes and leaves the
/// contents alone. The precondition keeps the new size within what can be
/// allocated.
#[verifier::external_body]
fn reserve(buf: &mut BytesMut, additional: usize)
    requires
        contents(*old(buf)).len() + additional <= isize::MAX,
    ensures
        contents(*final(buf)) == contents(*old(buf)),
{
    buf.reserve(additional)
}

/// `BufMut::put_u32` on a `BytesMut`: appends the four bytes of `n`, most
/// significant first. The precondition keeps the new size within what can be
/// allocated.
#[verifier::external_body]
fn put_u32(buf: &mut BytesMut, n: u32)
    requires
        contents(*old(buf)).len() + 4 <= isize::MAX,
    ensures
        contents(*final(buf)) == contents(*old(buf)) + be_bytes(n),
{
    buf.put_u32(n)
}

/// `BytesMut::extend_from_slice`: appends the bytes of `extend`. The
/// precondition keeps the new size within what can be allocated.
#[verifier::external_body]
fn extend_from_slice(buf: &mut BytesMut, extend: &[u8])
    requires
        contents(*old(buf)).len() + extend@.len() <= isize::MAX,
    ensures
        contents(*final(buf)) == contents(*old(buf)) + extend@,
{
    buf.extend_from_slice(extend)
}

/// Copies a `BytesMut` out through `to_vec` of the slice it dereferences to.
#[verifier::external_body]
fn to_vec(buf: &BytesMut) -> (bytes: Vec<u8>)
    ensures
        bytes@ == contents(*buf),
{
    buf.to_vec()
}

/// The four bytes of `n`, most significant first.
pub open spec fn be_bytes(n: u32) -> Seq<u8> {
    seq![(n >> 24) as u8, (n >> 16) as u8, (n >> 8) as u8, n as u8]
}

/// The number that four bytes spell, most significant first.
pub open spec fn be_value(b0: u8, b1: u8, b2: u8, b3: u8) -> u32 {
    ((b0 as u32) << 24) | ((b1 as u32) << 16) | ((b2 as u32) << 8) | (b3 as u32)
}

/// The frame of a payload: its length, then the payload.
pub open spec fn frame(payload: Seq<u8>) -> Seq<u8> {
    be_bytes(payload.len() as u32) + payload
}

/// The length that the first four bytes of a stream announce.
pub open spec fn announced(stream: Seq<u8>) -> int
    recommends
        stream.len() >= 4,
{
    be_value(stream[0], stream[1], stream[2], stream[3]) as int
}

/// Whether a stream begins with a whole frame.
pub open spec fn has_frame(stream: Seq<u8>) -> bool {
    stream.len() >= 4 && stream.len() >= 4 + announced(stream)
}

/// The payload of the frame that a stream begins with.
pub open spec fn first_payload(stream: Seq<u8>) -> Seq<u8>
    recommends
        has_frame(stream),
{
    stream.subrange(4, 4 + announced(stream))
}

/// What is left of a stream behind its first frame.
pub open spec fn after_frame(stream: Seq<u8>) -> Seq<u8>
    recommends
        has_frame(stream),
{
    stream.skip(4 + announced(stream))
}

/// Why the codec refused.
#[derive(Clone, Copy, Debug, PartialEq, Eq, Structural)]
pub enum FrameError {
    /// On writing: the payload's length does not fit the four-byte prefix,
    /// or the buffer cannot grow by the frame.
    TooLarge,
    /// On reading: the frame does not hold an envelope record.
    Malformed,
}

/// Whether `payload` can be framed behind `buffered` bytes.
pub open spec fn fits(buffered: int, payload: Seq<u8>) -> bool {
    payload.len() <= u32::MAX && buffered + 4 + payload.len() <= isize::MAX
}

/// The codec for envelopes on a stream.
pub struct EnvelopeCodec;

impl EnvelopeCodec {
    /// Takes the first envelope off `src`, if its frame is there in full.
    /// Until then nothing is consumed. A frame that holds no envelope record
    /// is consumed and reported.
    pub fn decode(&mut self, src: &mut BytesMut) -> (res: Result<Option<Envelope>, FrameError>)
        ensures
            !has_frame(contents(*old(src))) ==> res == Ok::<Option<Envelope>, FrameError>(None)
                && contents(*final(src)) == contents(*old(src)),
            has_frame(contents(*old(src))) ==> contents(*final(src)) == after_frame(
                contents(*old(src)),
            ) && match parse(first_payload(contents(*old(src))), blank()) {
                Some(v) => res is Ok && res.unwrap() is Some && res.unwrap().unwrap()@ == v,
                None => res == Err::<Option<Envelope>, FrameError>(FrameError::Malformed),
            },
    {
        match self.decode_frame(src) {
            None => Ok(None),
            Some(payload) => match Envelope::from_bytes(payload.as_slice()) {
                Some(envelope) => Ok(Some(envelope)),
                None => Err(FrameError::Malformed),
            },
        }
    }

    /// Appends the frame of `item` to `dst`. An envelope whose record is too
    /// long for the prefix is refused and `dst` is left as it was.
    pub fn encode(&mut self, item: Envelope, dst: &mut BytesMut) -> (res: Result<(), FrameError>)
        ensures
            fits(contents(*old(dst)).len() as int, record(item@)) ==> res is Ok && contents(
                *final(dst),
            ) == contents(*old(dst)) + frame(record(item@)),
            !fits(contents(*old(dst)).len() as int, record(item@)) ==> res == Err::<
                (),
                FrameError,
            >(FrameError::TooLarge) && contents(*final(dst)) == contents(*old(dst)),
    {
        let payload = item.to_bytes();
        self.encode_frame(payload.as_slice(), dst)
    }

    /// Takes the first frame off `src`, if it is there in full, and returns
    /// its payload. Until then nothing is consumed.
    pub fn decode_frame(&mut self, src: &mut BytesMut) -> (payload: Option<Vec<u8>>)
        ensures
            has_frame(contents(*old(src))) ==> payload is Some && payload.unwrap()@
                == first_payload(contents(*old(src))) && contents(*final(src)) == after_frame(
                contents(*old(src)),
            ),
            !has_frame(contents(*old(src))) ==> payload is None && contents(*final(src))
                == contents(*old(src)),
    {
        let have: usize = buffered(src);
        if have < 4 {
            return None;
        }
        let len: usize = prefix_value(byte_at(src, 0), byte_at(src, 1), byte_at(src, 2), byte_at(src, 3));
        let body: usize = have - 4;
        if body < len {
            let missing: usize = len - body;
            if have <= isize::MAX as usize && missing <= isize::MAX as usize - have {
                reserve(src, missing);
            }
            return None;
        }
        let ghost stream = contents(*src);
        advance(src, 4);
        let head = split_to(src, len);
        let bytes = to_vec(&head);
        proof {
            assert(stream.skip(4).take(len as int) =~= stream.subrange(4, 4 + len));
            assert(stream.skip(4).skip(len as int) =~= stream.skip(4 + len));
        }
        Some(bytes)
    }

    /// Appends the frame of `payload` to `dst`. A payload too long for the
    /// prefix is refused and `dst` is left as it was.
    pub fn encode_frame(&mut self, payload: &[u8], dst: &mut BytesMut) -> (res: Result<
        (),
        FrameError,
    >)
        ensures
            fits(contents(*old(dst)).len() as int, payload@) ==> res is Ok && contents(*final(dst))
                == contents(*old(dst)) + frame(payload@),
            !fits(contents(*old(dst)).len() as int, payload@) ==> res == Err::<(), FrameError>(
                FrameError::TooLarge,
            ) && contents(*final(dst)) == contents(*old(dst)),
    {
        let have: usize = buffered(dst);
        let size: usize = payload.len();
        let limit: usize = isize::MAX as usize;
        if size > u32::MAX as usize || have > limit || size > limit - have || limit - have - size < 4 {
            return Err(FrameError::TooLarge);
        }
        reserve(dst, 4 + size);
        put_u32(dst, size as u32);
        extend_from_slice(dst, payload);
        proof {
            assert(contents(*dst) =~= contents(*old(dst)) + frame(payload@));
        }
        Ok(())
    }
}

/// The length that a prefix announces, as a size.
fn prefix_value(b0: u8, b1: u8, b2: u8, b3: u8) -> (n: usize)
    ensures
        n == be_value(b0, b1, b2, b3),
{
    let n: u32 = ((b0 as u32) << 24) | ((b1 as u32) << 16) | ((b2 as u32) << 8) | (b3 as u32);
    n as usize
}

/// A prefix spells the length it was written from.
pub proof fn lemma_prefix_round_trip(n: u32)
    ensures
        be_bytes(n).len() == 4,
        be_value(be_bytes(n)[0], be_bytes(n)[1], be_bytes(n)[2], be_bytes(n)[3]) == n,
{
    assert(((((n >> 24) as u8) as u32) << 24) | ((((n >> 16) as u8) as u32) << 16) | ((((n >> 8) as u8) as u32) << 8)
        | ((n as u8) as u32) == n) by (bit_vector);
}

/// Framing round trip. What `encode` appends, `decode` takes off again: a
/// stream that begins with the frame of a payload yields that payload, and
/// what follows the frame is left for the next call.
pub proof fn lemma_frame_round_trip(payload: Seq<u8>, rest: Seq<u8>)
    requires
        payload.len() <= u32::MAX,
    ensures
        has_frame(frame(payload) + rest),
        first_payload(frame(payload) + rest) == payload,
        after_frame(frame(payload) + rest) == rest,
{
    let n = payload.len() as u32;
    let stream = frame(payload) + rest;
    lemma_prefix_round_trip(n);
    assert(stream[0] == be_bytes(n)[0]);
    assert(stream[1] == be_bytes(n)[1]);
    assert(stream[2] == be_bytes(n)[2]);
    assert(stream[3] == be_bytes(n)[3]);
    assert(announced(stream) == payload.len());
    assert(stream.subrange(4, 4 + announced(stream)) =~= payload);
    assert(stream.skip(4 + announced(stream)) =~= rest);
}

/// Envelope round trip. A stream that begins with what `encode` wrote for an
/// envelope yields that envelope on `decode`, field for field, and what
/// follows the frame is left for the next call.
pub proof fn lemma_envelope_round_trip(e: EnvelopeView, rest: Seq<u8>)
    requires
        record(e).len() <= u32::MAX,
        vstd::utf8::encode_utf8(e.message_type).len() <= u64::MAX,
        e.payload.len() <= u64::MAX,
        vstd::utf8::encode_utf8(e.sender_node).len() <= u64::MAX,
        vstd::utf8::encode_utf8(e.target_actor).len() <= u64::MAX,
    ensures
        has_frame(frame(record(e)) + rest),
        parse(first_payload(frame(record(e)) + rest), blank()) == Some(e),
        after_frame(frame(record(e)) + rest) == rest,
{
    lemma_frame_round_trip(record(e), rest);
    lemma_record_round_trip(e);
}

/// A stream that is shorter than its first frame holds no frame: `decode`
/// waits for more bytes.
pub proof fn lemma_partial_frame_waits(payload: Seq<u8>, cut: int)
    requires
        payload.len() <= u32::MAX,
        0 <= cut < 4 + payload.len(),
    ensures
        !has_frame(frame(payload).take(cut)),
{
    let n = payload.len() as u32;
    let part = frame(payload).take(cut);
    if cut >= 4 {
        lemma_prefix_round_trip(n);
        assert(part[0] == be_bytes(n)[0]);
        assert(part[1] == be_bytes(n)[1]);
        assert(part[2] == be_bytes(n)[2]);
        assert(part[3] == be_bytes(n)[3]);
    }
}

} // verus!
