//! The envelope record as bytes.
//!
//! The record is written as a sequence of fields. Each field begins with a
//! key, a varint of the field's number times eight plus its wire kind; a
//! number or a flag follows as a varint, a string or a byte string as a
//! varint length and that many bytes. A field that holds its type's default
//! (zero, false, empty) is left out. The fields and their numbers:
//! `message_type` 1, `payload` 2, `correlation_id` 3, `sender_node` 4,
//! `target_actor` 5, `is_response` 6.

use vstd::prelude::*;
use vstd::slice::{slice_subrange, slice_to_vec};
use vstd::utf8::{decode_utf8, encode_utf8, valid_utf8};
use crate::remote::envelope::{Envelope, EnvelopeView};

verus! {

/// The largest number of bytes read for one varint.
pub const VARINT_LIMIT: u8 = 10;

/// The wire kind of a varint field.
pub const KIND_VARINT: u64 = 0;

/// The wire kind of a field of eight fixed bytes.
pub const KIND_FIXED64: u64 = 1;

/// The wire kind of a length-delimited field.
pub const KIND_BYTES: u64 = 2;

/// The wire kind of a field of four fixed bytes.
pub const KIND_FIXED32: u64 = 5;

/// A number as a varint: seven bits to a byte, least significant first, the
/// high bit set on every byte but the last.
pub open spec fn varint(v: u64) -> Seq<u8>
    decreases v,
{
    if v < 128 {
        seq![v as u8]
    } else {
        seq![(v % 128 + 128) as u8] + varint(v / 128)
    }
}

/// The varint that `bytes` begin with, read from at most `budget` bytes: its
/// value and its length. None where the bytes end first, the budget is used
/// up, or the value does not fit 64 bits.
pub open spec fn read_varint(bytes: Seq<u8>, budget: nat) -> Option<(u64, int)>
    decreases budget,
{
    if budget == 0 || bytes.len() == 0 {
        None
    } else if bytes[0] < 128 {
        Some((bytes[0] as u64, 1int))
    } else {
        match read_varint(bytes.skip(1), (budget - 1) as nat) {
            Some((high, n)) => if high <= u64::MAX / 128 {
                Some(((high * 128 + (bytes[0] - 128)) as u64, n + 1))
            } else {
                None
            },
            None => None,
        }
    }
}

/// A varint that was read is at least one byte long and lies within the
/// bytes and the budget.
pub proof fn lemma_read_varint_bounds(bytes: Seq<u8>, budget: nat)
    ensures
        read_varint(bytes, budget) is Some ==> 1 <= read_varint(bytes, budget).unwrap().1
            <= bytes.len() && read_varint(bytes, budget).unwrap().1 <= budget,
    decreases budget,
{
    if budget != 0 && bytes.len() != 0 && bytes[0] >= 128 {
        lemma_read_varint_bounds(bytes.skip(1), (budget - 1) as nat);
    }
}

/// A varint is at least one and at most ten bytes long.
pub proof fn lemma_varint_width(v: u64)
    ensures
        1 <= varint(v).len() <= 10,
{
    reveal_with_fuel(varint, 11);
}

/// A varint reads back as the number it was written from, whatever follows
/// it.
pub proof fn lemma_varint_round_trip(v: u64, rest: Seq<u8>, budget: nat)
    requires
        varint(v).len() <= budget,
    ensures
        read_varint(varint(v) + rest, budget) == Some((v, varint(v).len() as int)),
    decreases v,
{
    let bytes = varint(v) + rest;
    if v < 128 {
        assert(bytes[0] == v as u8);
    } else {
        assert(bytes[0] == (v % 128 + 128) as u8);
        assert(bytes.skip(1) =~= varint(v / 128) + rest);
        lemma_varint_round_trip(v / 128, rest, (budget - 1) as nat);
    }
}

/// Appends the varint of `v`.
pub fn put_varint(out: &mut Vec<u8>, v: u64)
    ensures
        final(out)@ == old(out)@ + varint(v),
{
    let mut rest: u64 = v;
    while rest >= 128
        invariant
            old(out)@ + varint(v) == out@ + varint(rest),
        decreases rest,
    {
        let ghost before = out@;
        out.push((rest % 128 + 128) as u8);
        proof {
            assert(before + varint(rest) =~= before.push((rest % 128 + 128) as u8) + varint(
                rest / 128,
            ));
        }
        rest = rest / 128;
    }
    let ghost before = out@;
    out.push(rest as u8);
    proof {
        assert(before + varint(rest) =~= before.push(rest as u8));
    }
}

/// Reads the varint at position `at`: its value and the position behind it.
pub fn take_varint(bytes: &[u8], at: usize, budget: u8) -> (found: Option<(u64, usize)>)
    requires
        at <= bytes@.len(),
    ensures
        match read_varint(bytes@.skip(at as int), budget as nat) {
            Some((v, n)) => found is Some && found.unwrap().0 == v && found.unwrap().1 == at + n
                && at + n <= bytes@.len(),
            None => found is None,
        },
    decreases budget,
{
    proof {
        lemma_read_varint_bounds(bytes@.skip(at as int), budget as nat);
    }
    if budget == 0 || at >= bytes.len() {
        return None;
    }
    let b: u8 = bytes[at];
    if b < 128 {
        return Some((b as u64, at + 1));
    }
    proof {
        assert(bytes@.skip(at as int).skip(1) =~= bytes@.skip(at + 1));
        lemma_read_varint_bounds(bytes@.skip(at + 1), (budget - 1) as nat);
    }
    match take_varint(bytes, at + 1, budget - 1) {
        Some((high, next)) => {
            if high <= u64::MAX / 128 {
                Some((high * 128 + (b - 128) as u64, next))
            } else {
                None
            }
        },
        None => None,
    }
}

/// The largest field number that a key can carry.
pub const MAX_TAG: u64 = 0x1fff_ffff;

/// The key of field `tag` with wire kind `kind`.
pub open spec fn key(tag: u64, kind: u64) -> Seq<u8> {
    varint((tag * 8 + kind) as u64)
}

/// A length-delimited field; nothing for an empty body.
pub open spec fn bytes_field(tag: u64, body: Seq<u8>) -> Seq<u8> {
    if body.len() == 0 {
        Seq::<u8>::empty()
    } else {
        key(tag, KIND_BYTES) + (varint(body.len() as u64) + body)
    }
}

/// A varint field; nothing for zero.
pub open spec fn number_field(tag: u64, v: u64) -> Seq<u8> {
    if v == 0 {
        Seq::<u8>::empty()
    } else {
        key(tag, KIND_VARINT) + varint(v)
    }
}

/// A flag as a number.
pub open spec fn flag(b: bool) -> u64 {
    if b {
        1
    } else {
        0
    }
}

/// The bytes of an envelope record: its six fields in the order of their
/// numbers.
pub open spec fn record(e: EnvelopeView) -> Seq<u8> {
    bytes_field(1, encode_utf8(e.message_type)) + (bytes_field(2, e.payload) + (number_field(
        3,
        e.correlation_id,
    ) + (bytes_field(4, encode_utf8(e.sender_node)) + (bytes_field(
        5,
        encode_utf8(e.target_actor),
    ) + number_field(6, flag(e.is_response))))))
}

/// The envelope in which every field holds its default.
pub open spec fn blank() -> EnvelopeView {
    EnvelopeView {
        message_type: Seq::<char>::empty(),
        payload: Seq::<u8>::empty(),
        correlation_id: 0,
        sender_node: Seq::<char>::empty(),
        target_actor: Seq::<char>::empty(),
        is_response: false,
    }
}

/// Whether `tag` is the number of one of the envelope's fields.
pub open spec fn known(tag: u64) -> bool {
    1 <= tag <= 6
}

/// What a varint field does to the envelope read so far: it sets the
/// correlation id or the response flag, is an error on a field of another
/// type, and is passed over on an unknown field.
pub open spec fn merge_number(acc: EnvelopeView, tag: u64, v: u64) -> Option<EnvelopeView> {
    if tag == 3 {
        Some(EnvelopeView { correlation_id: v, ..acc })
    } else if tag == 6 {
        Some(EnvelopeView { is_response: v != 0, ..acc })
    } else if known(tag) {
        None
    } else {
        Some(acc)
    }
}

/// What a length-delimited field does to the envelope read so far: it sets a
/// string, which must be UTF-8, or the payload, is an error on a field of
/// another type, and is passed over on an unknown field.
pub open spec fn merge_bytes(acc: EnvelopeView, tag: u64, body: Seq<u8>) -> Option<EnvelopeView> {
    if tag == 2 {
        Some(EnvelopeView { payload: body, ..acc })
    } else if tag == 1 || tag == 4 || tag == 5 {
        if valid_utf8(body) {
            if tag == 1 {
                Some(EnvelopeView { message_type: decode_utf8(body), ..acc })
            } else if tag == 4 {
                Some(EnvelopeView { sender_node: decode_utf8(body), ..acc })
            } else {
                Some(EnvelopeView { target_actor: decode_utf8(body), ..acc })
            }
        } else {
            None
        }
    } else if known(tag) {
        None
    } else {
        Some(acc)
    }
}

/// What a varint field numbered `tag` does when its value stands at the head
/// of `rest`: the envelope after it and the length of the value.
pub open spec fn number_at(rest: Seq<u8>, tag: u64, acc: EnvelopeView) -> Option<
    (EnvelopeView, int),
> {
    match read_varint(rest, VARINT_LIMIT as nat) {
        None => None,
        Some((v, m)) => match merge_number(acc, tag, v) {
            Some(next) => Some((next, m)),
            None => None,
        },
    }
}

/// What a length-delimited field numbered `tag` does when its length stands
/// at the head of `rest`: the envelope after it and the length of length and
/// body together.
pub open spec fn bytes_at(rest: Seq<u8>, tag: u64, acc: EnvelopeView) -> Option<
    (EnvelopeView, int),
> {
    match read_varint(rest, VARINT_LIMIT as nat) {
        None => None,
        Some((len, m)) => if 0 <= m <= rest.len() && len <= rest.len() - m {
            match merge_bytes(acc, tag, rest.subrange(m, m + len)) {
                Some(next) => Some((next, m + len)),
                None => None,
            }
        } else {
            None
        },
    }
}

/// What a field of `width` fixed bytes numbered `tag` does: it is passed
/// over, and is an error on a known field or where the bytes end first.
pub open spec fn fixed_at(rest: Seq<u8>, tag: u64, acc: EnvelopeView, width: int) -> Option<
    (EnvelopeView, int),
> {
    if known(tag) || rest.len() < width {
        None
    } else {
        Some((acc, width))
    }
}

/// The field that `bytes` begin with, read on top of `acc`: the envelope
/// after it and the field's length. None where the key or a length is cut
/// short or too large, the field number is zero, a known field has the wrong
/// wire kind, a string is not UTF-8, or the wire kind is none of varint,
/// fixed and length-delimited.
pub open spec fn field(bytes: Seq<u8>, acc: EnvelopeView) -> Option<(EnvelopeView, int)> {
    match read_varint(bytes, VARINT_LIMIT as nat) {
        None => None,
        Some((k, n)) => {
            let tag = k / 8;
            let kind = k % 8;
            let rest = bytes.skip(n);
            let body = if tag == 0 || tag > MAX_TAG {
                None
            } else if kind == KIND_VARINT {
                number_at(rest, tag, acc)
            } else if kind == KIND_BYTES {
                bytes_at(rest, tag, acc)
            } else if kind == KIND_FIXED64 {
                fixed_at(rest, tag, acc, 8)
            } else if kind == KIND_FIXED32 {
                fixed_at(rest, tag, acc, 4)
            } else {
                None
            };
            match body {
                Some((next, m)) => Some((next, n + m)),
                None => None,
            }
        },
    }
}

/// The envelope that `bytes` spell when read field by field on top of `acc`,
/// a later field replacing an earlier one of the same number. None where
/// some field cannot be read.
pub open spec fn parse(bytes: Seq<u8>, acc: EnvelopeView) -> Option<EnvelopeView>
    decreases bytes.len(),
{
    if bytes.len() == 0 {
        Some(acc)
    } else {
        match field(bytes, acc) {
            Some((next, n)) => if 1 <= n <= bytes.len() {
                parse(bytes.skip(n), next)
            } else {
                None
            },
            None => None,
        }
    }
}

/// `String::from_utf8`: the string that the bytes spell, if they are UTF-8.
#[verifier::external_body]
fn text_of(bytes: Vec<u8>) -> (text: Option<String>)
    ensures
        text is Some <==> valid_utf8(bytes@),
        text is Some ==> text.unwrap()@ == decode_utf8(bytes@),
{
    String::from_utf8(bytes).ok()
}

fn put_bytes_field(out: &mut Vec<u8>, tag: u64, body: &[u8])
    requires
        known(tag),
    ensures
        final(out)@ == old(out)@ + bytes_field(tag, body@),
{
    if body.len() > 0 {
        let ghost before = out@;
        put_varint(out, tag * 8 + KIND_BYTES);
        put_varint(out, body.len() as u64);
        let ghost head = out@;
        out.extend_from_slice(body);
        proof {
            assert(out@ =~= head + body@);
            assert(out@ =~= before + bytes_field(tag, body@));
        }
    } else {
        assert(out@ =~= out@ + bytes_field(tag, body@));
    }
}

fn put_number_field(out: &mut Vec<u8>, tag: u64, v: u64)
    requires
        known(tag),
    ensures
        final(out)@ == old(out)@ + number_field(tag, v),
{
    if v != 0 {
        let ghost before = out@;
        put_varint(out, tag * 8 + KIND_VARINT);
        put_varint(out, v);
        proof {
            assert(out@ =~= before + number_field(tag, v));
        }
    } else {
        assert(out@ =~= out@ + number_field(tag, v));
    }
}

impl Envelope {
    /// The envelope as the bytes of its record.
    pub fn to_bytes(&self) -> (bytes: Vec<u8>)
        ensures
            bytes@ == record(self@),
    {
        let ghost f1 = bytes_field(1, encode_utf8(self@.message_type));
        let ghost f2 = bytes_field(2, self@.payload);
        let ghost f3 = number_field(3, self@.correlation_id);
        let ghost f4 = bytes_field(4, encode_utf8(self@.sender_node));
        let ghost f5 = bytes_field(5, encode_utf8(self@.target_actor));
        let ghost f6 = number_field(6, flag(self@.is_response));
        let mut out: Vec<u8> = Vec::new();
        put_bytes_field(&mut out, 1, self.message_type.as_str().as_bytes());
        assert(out@ =~= f1);
        put_bytes_field(&mut out, 2, self.payload.as_slice());
        put_number_field(&mut out, 3, self.correlation_id);
        put_bytes_field(&mut out, 4, self.sender_node.as_str().as_bytes());
        put_bytes_field(&mut out, 5, self.target_actor.as_str().as_bytes());
        put_number_field(&mut out, 6, if self.is_response { 1 } else { 0 });
        proof {
            assert(out@ == ((((f1 + f2) + f3) + f4) + f5) + f6);
            assert((((f1 + f2) + f3) + f4) + f5 + f6 =~= (((f1 + f2) + f3) + f4) + (f5 + f6));
            assert(((f1 + f2) + f3) + f4 + (f5 + f6) =~= ((f1 + f2) + f3) + (f4 + (f5 + f6)));
            assert((f1 + f2) + f3 + (f4 + (f5 + f6)) =~= (f1 + f2) + (f3 + (f4 + (f5 + f6))));
            assert(f1 + f2 + (f3 + (f4 + (f5 + f6))) =~= f1 + (f2 + (f3 + (f4 + (f5 + f6)))));
        }
        out
    }

    /// Reads an envelope from the bytes of a record. Fields that are left
    /// out hold their defaults.
    pub fn from_bytes(bytes: &[u8]) -> (envelope: Option<Envelope>)
        ensures
            match parse(bytes@, blank()) {
                Some(v) => envelope is Some && envelope.unwrap()@ == v,
                None => envelope is None,
            },
    {
        let mut acc = Envelope {
            message_type: String::new(),
            payload: Vec::new(),
            correlation_id: 0,
            sender_node: String::new(),
            target_actor: String::new(),
            is_response: false,
        };
        let mut at: usize = 0;
        proof {
            assert(acc@ =~= blank());
            assert(bytes@.skip(0) =~= bytes@);
        }
        while at < bytes.len()
            invariant
                at <= bytes@.len(),
                parse(bytes@, blank()) == parse(bytes@.skip(at as int), acc@),
            decreases bytes@.len() - at,
        {
            match take_field(bytes, at, &mut acc) {
                Some(next) => {
                    proof {
                        assert(bytes@.skip(at as int).skip(next - at) =~= bytes@.skip(next as int));
                    }
                    at = next;
                },
                None => {
                    return None;
                },
            }
        }
        Some(acc)
    }
}

/// Reads the value of a varint field numbered `tag` at position `at`.
fn take_number(bytes: &[u8], at: usize, tag: u64, acc: &mut Envelope) -> (next: Option<usize>)
    requires
        at <= bytes@.len(),
    ensures
        match number_at(bytes@.skip(at as int), tag, old(acc)@) {
            Some((after, m)) => next is Some && next.unwrap() == at + m && final(acc)@ == after
                && 1 <= m && at + m <= bytes@.len(),
            None => next is None,
        },
{
    proof {
        lemma_read_varint_bounds(bytes@.skip(at as int), VARINT_LIMIT as nat);
    }
    match take_varint(bytes, at, VARINT_LIMIT) {
        Some((v, after)) => {
            if tag == 3 {
                acc.correlation_id = v;
                Some(after)
            } else if tag == 6 {
                acc.is_response = v != 0;
                Some(after)
            } else if tag >= 1 && tag <= 6 {
                None
            } else {
                Some(after)
            }
        },
        None => None,
    }
}

/// Reads length and body of a length-delimited field numbered `tag` at
/// position `at`.
fn take_bytes(bytes: &[u8], at: usize, tag: u64, acc: &mut Envelope) -> (next: Option<usize>)
    requires
        at <= bytes@.len(),
    ensures
        match bytes_at(bytes@.skip(at as int), tag, old(acc)@) {
            Some((after, m)) => next is Some && next.unwrap() == at + m && final(acc)@ == after
                && 1 <= m && at + m <= bytes@.len(),
            None => next is None,
        },
{
    let ghost rest = bytes@.skip(at as int);
    proof {
        lemma_read_varint_bounds(rest, VARINT_LIMIT as nat);
    }
    let (len, start): (u64, usize) = match take_varint(bytes, at, VARINT_LIMIT) {
        Some(pair) => pair,
        None => {
            return None;
        },
    };
    if len > (bytes.len() - start) as u64 {
        return None;
    }
    let end: usize = start + len as usize;
    let body = slice_to_vec(slice_subrange(bytes, start, end));
    proof {
        assert(body@ =~= rest.subrange(start - at, start - at + len));
    }
    if tag == 2 {
        acc.payload = body;
        Some(end)
    } else if tag == 1 || tag == 4 || tag == 5 {
        match text_of(body) {
            Some(text) => {
                if tag == 1 {
                    acc.message_type = text;
                } else if tag == 4 {
                    acc.sender_node = text;
                } else {
                    acc.target_actor = text;
                }
                Some(end)
            },
            None => None,
        }
    } else if tag >= 1 && tag <= 6 {
        None
    } else {
        Some(end)
    }
}

/// Reads the field at position `at` on top of `acc`; returns the position
/// behind it.
fn take_field(bytes: &[u8], at: usize, acc: &mut Envelope) -> (next: Option<usize>)
    requires
        at <= bytes@.len(),
    ensures
        match field(bytes@.skip(at as int), old(acc)@) {
            Some((after, n)) => next is Some && next.unwrap() == at + n && final(acc)@ == after
                && 1 <= n && at + n <= bytes@.len(),
            None => next is None,
        },
{
    let ghost here = bytes@.skip(at as int);
    proof {
        lemma_read_varint_bounds(here, VARINT_LIMIT as nat);
    }
    let (k, start): (u64, usize) = match take_varint(bytes, at, VARINT_LIMIT) {
        Some(pair) => pair,
        None => {
            return None;
        },
    };
    let tag: u64 = k / 8;
    let kind: u64 = k % 8;
    proof {
        let n = read_varint(here, VARINT_LIMIT as nat).unwrap().1;
        assert(here.skip(n) =~= bytes@.skip(start as int));
    }
    if tag == 0 || tag > MAX_TAG {
        None
    } else if kind == KIND_VARINT {
        take_number(bytes, start, tag, acc)
    } else if kind == KIND_BYTES {
        take_bytes(bytes, start, tag, acc)
    } else if kind == KIND_FIXED64 {
        if tag <= 6 || bytes.len() - start < 8 {
            None
        } else {
            Some(start + 8)
        }
    } else if kind == KIND_FIXED32 {
        if tag <= 6 || bytes.len() - start < 4 {
            None
        } else {
            Some(start + 4)
        }
    } else {
        None
    }
}

/// A key reads back as the field number and wire kind it was made of.
proof fn lemma_key_round_trip(tag: u64, kind: u64, rest: Seq<u8>)
    requires
        1 <= tag <= MAX_TAG,
        kind < 8,
    ensures
        read_varint(key(tag, kind) + rest, VARINT_LIMIT as nat) == Some(
            ((tag * 8 + kind) as u64, key(tag, kind).len() as int),
        ),
        (tag * 8 + kind) / 8 == tag,
        (tag * 8 + kind) % 8 == kind,
        (key(tag, kind) + rest).skip(key(tag, kind).len() as int) == rest,
{
    lemma_varint_width((tag * 8 + kind) as u64);
    lemma_varint_round_trip((tag * 8 + kind) as u64, rest, VARINT_LIMIT as nat);
    assert((key(tag, kind) + rest).skip(key(tag, kind).len() as int) =~= rest);
}

/// A varint field that was written is read as that number, and reading goes
/// on behind it.
proof fn lemma_number_step(tag: u64, v: u64, rest: Seq<u8>, acc: EnvelopeView)
    requires
        tag == 3 || tag == 6,
        v != 0,
    ensures
        parse(number_field(tag, v) + rest, acc) == parse(
            rest,
            merge_number(acc, tag, v).unwrap(),
        ),
{
    let k = key(tag, KIND_VARINT);
    let tail = varint(v) + rest;
    let bytes = number_field(tag, v) + rest;
    assert(bytes =~= k + tail);
    lemma_key_round_trip(tag, KIND_VARINT, tail);
    lemma_varint_width(v);
    lemma_varint_round_trip(v, rest, VARINT_LIMIT as nat);
    assert(tail.skip(varint(v).len() as int) =~= rest);
    let n = k.len() as int;
    let m = varint(v).len() as int;
    assert(number_at(tail, tag, acc) == Some((merge_number(acc, tag, v).unwrap(), m)));
    assert(field(bytes, acc) == Some((merge_number(acc, tag, v).unwrap(), n + m)));
    assert(bytes.skip(n + m) =~= rest);
}

/// A length-delimited field that was written is read as that body, and
/// reading goes on behind it.
proof fn lemma_bytes_step(tag: u64, body: Seq<u8>, rest: Seq<u8>, acc: EnvelopeView)
    requires
        tag == 1 || tag == 2 || tag == 4 || tag == 5,
        tag != 2 ==> valid_utf8(body),
        0 < body.len() <= u64::MAX,
    ensures
        parse(bytes_field(tag, body) + rest, acc) == parse(
            rest,
            merge_bytes(acc, tag, body).unwrap(),
        ),
{
    let k = key(tag, KIND_BYTES);
    let len = body.len() as u64;
    let tail = varint(len) + (body + rest);
    let bytes = bytes_field(tag, body) + rest;
    assert(bytes =~= k + tail);
    lemma_key_round_trip(tag, KIND_BYTES, tail);
    lemma_varint_width(len);
    lemma_varint_round_trip(len, body + rest, VARINT_LIMIT as nat);
    let n = k.len() as int;
    let m = varint(len).len() as int;
    assert(tail.subrange(m, m + len) =~= body);
    assert(bytes_at(tail, tag, acc) == Some((merge_bytes(acc, tag, body).unwrap(), m + len)));
    assert(field(bytes, acc) == Some((merge_bytes(acc, tag, body).unwrap(), n + (m + len))));
    assert(bytes.skip(n + (m + len)) =~= rest);
}

/// A string is empty where its bytes are.
proof fn lemma_empty_text(text: Seq<char>)
    requires
        encode_utf8(text).len() == 0,
    ensures
        text == Seq::<char>::empty(),
{
    vstd::utf8::encode_utf8_decode_utf8(text);
    assert(encode_utf8(text) =~= Seq::<u8>::empty());
    assert(valid_utf8(Seq::<u8>::empty()));
    assert(decode_utf8(Seq::<u8>::empty()) =~= Seq::<char>::empty());
}

/// Envelope round trip. Reading the bytes that an envelope was written to
/// gives that envelope, field for field. The bound on the lengths is that of
/// the length prefix, which every string and byte string in memory meets.
pub proof fn lemma_record_round_trip(e: EnvelopeView)
    requires
        encode_utf8(e.message_type).len() <= u64::MAX,
        e.payload.len() <= u64::MAX,
        encode_utf8(e.sender_node).len() <= u64::MAX,
        encode_utf8(e.target_actor).len() <= u64::MAX,
    ensures
        parse(record(e), blank()) == Some(e),
{
    let b1 = encode_utf8(e.message_type);
    let b4 = encode_utf8(e.sender_node);
    let b5 = encode_utf8(e.target_actor);
    vstd::utf8::encode_utf8_valid_utf8(e.message_type);
    vstd::utf8::encode_utf8_valid_utf8(e.sender_node);
    vstd::utf8::encode_utf8_valid_utf8(e.target_actor);
    vstd::utf8::encode_utf8_decode_utf8(e.message_type);
    vstd::utf8::encode_utf8_decode_utf8(e.sender_node);
    vstd::utf8::encode_utf8_decode_utf8(e.target_actor);
    let none = Seq::<u8>::empty();
    let t6 = number_field(6, flag(e.is_response));
    let t5 = bytes_field(5, b5) + t6;
    let t4 = bytes_field(4, b4) + t5;
    let t3 = number_field(3, e.correlation_id) + t4;
    let t2 = bytes_field(2, e.payload) + t3;
    let t1 = bytes_field(1, b1) + t2;
    let a0 = blank();
    let a1 = EnvelopeView { message_type: e.message_type, ..a0 };
    let a2 = EnvelopeView { payload: e.payload, ..a1 };
    let a3 = EnvelopeView { correlation_id: e.correlation_id, ..a2 };
    let a4 = EnvelopeView { sender_node: e.sender_node, ..a3 };
    let a5 = EnvelopeView { target_actor: e.target_actor, ..a4 };
    let a6 = EnvelopeView { is_response: e.is_response, ..a5 };
    assert(parse(t1, a0) == parse(t2, a1)) by {
        if b1.len() == 0 {
            lemma_empty_text(e.message_type);
            assert(t1 =~= t2);
        } else {
            lemma_bytes_step(1, b1, t2, a0);
        }
    }
    assert(parse(t2, a1) == parse(t3, a2)) by {
        if e.payload.len() == 0 {
            assert(e.payload =~= Seq::<u8>::empty());
            assert(t2 =~= t3);
        } else {
            lemma_bytes_step(2, e.payload, t3, a1);
        }
    }
    assert(parse(t3, a2) == parse(t4, a3)) by {
        if e.correlation_id == 0 {
            assert(t3 =~= t4);
        } else {
            lemma_number_step(3, e.correlation_id, t4, a2);
        }
    }
    assert(parse(t4, a3) == parse(t5, a4)) by {
        if b4.len() == 0 {
            lemma_empty_text(e.sender_node);
            assert(t4 =~= t5);
        } else {
            lemma_bytes_step(4, b4, t5, a3);
        }
    }
    assert(parse(t5, a4) == parse(t6, a5)) by {
        if b5.len() == 0 {
            lemma_empty_text(e.target_actor);
            assert(t5 =~= t6);
        } else {
            lemma_bytes_step(5, b5, t6, a4);
        }
    }
    assert(parse(t6, a5) == Some(a6)) by {
        if e.is_response {
            lemma_number_step(6, 1, none, a5);
            assert(t6 + none =~= t6);
        } else {
            assert(t6 =~= none);
        }
    }
    assert(a6 == e);
    assert(t1 == record(e));
}

} // verus!
