//! The wire format of the video stream in extend mode.
//!
//! The host sends one version byte, and then one message for each encoded
//! access unit: the length of the unit in four bytes, most significant first,
//! and the unit itself.
use vstd::prelude::*;

verus! {

/// The version of the wire format, which the host sends before anything else.
pub const EXTEND_PROTOCOL_VERSION: u8 = 1;

/// A payload whose length does not fit the four bytes that announce it.
#[derive(Debug, Clone, Copy, PartialEq, Eq, Structural)]
pub struct TooLarge;

/// The number that four bytes stand for, most significant first.
pub open spec fn from_be(b: Seq<u8>) -> nat {
    (b[0] * 0x100_0000 + b[1] * 0x1_0000 + b[2] * 0x100 + b[3]) as nat
}

/// The four bytes that stand for `n`, most significant first.
pub open spec fn to_be(n: nat) -> Seq<u8> {
    seq![
        (n / 0x100_0000 % 0x100) as u8,
        (n / 0x1_0000 % 0x100) as u8,
        (n / 0x100 % 0x100) as u8,
        (n % 0x100) as u8,
    ]
}

/// `payload` can be framed: its length fits in four bytes.
pub open spec fn fits(payload: Seq<u8>) -> bool {
    payload.len() <= u32::MAX
}

/// The message that carries `payload`.
pub open spec fn message_of(payload: Seq<u8>) -> Seq<u8> {
    to_be(payload.len()) + payload
}

/// The messages that carry `payloads`, one behind the other.
pub open spec fn messages_of(payloads: Seq<Seq<u8>>) -> Seq<u8>
    decreases payloads.len(),
{
    if payloads.len() == 0 {
        seq![]
    } else {
        messages_of(payloads.drop_last()) + message_of(payloads.last())
    }
}

/// What the host has sent once it has sent `payloads`.
pub open spec fn stream_of(payloads: Seq<Seq<u8>>) -> Seq<u8> {
    seq![EXTEND_PROTOCOL_VERSION] + messages_of(payloads)
}

/// The payloads of the messages that are complete in `bytes`, as a receiver
/// takes them off.
pub open spec fn payloads_in(bytes: Seq<u8>) -> Seq<Seq<u8>>
    decreases bytes.len(),
{
    if bytes.len() < 4 || bytes.len() - 4 < from_be(bytes) {
        seq![]
    } else {
        seq![bytes.subrange(4, 4 + from_be(bytes) as int)] + payloads_in(
            bytes.skip(4 + from_be(bytes) as int),
        )
    }
}

/// The payloads in what a receiver has read from the start of the connection:
/// none, unless the version byte is the one it knows.
pub open spec fn received(bytes: Seq<u8>) -> Seq<Seq<u8>> {
    if bytes.len() == 0 || bytes[0] != EXTEND_PROTOCOL_VERSION {
        seq![]
    } else {
        payloads_in(bytes.skip(1))
    }
}

/// The bytes that announce a payload of `len` bytes.
pub fn frame_header(len: usize) -> (res: Result<Vec<u8>, TooLarge>)
    ensures
        len <= u32::MAX ==> (res matches Ok(header) && header@ == to_be(len as nat)),
        len > u32::MAX ==> res is Err,
{
    if len > 0xffff_ffff {
        return Err(TooLarge);
    }
    let n: u32 = len as u32;
    let mut header: Vec<u8> = Vec::new();
    header.push((n / 0x100_0000 % 0x100) as u8);
    header.push((n / 0x1_0000 % 0x100) as u8);
    header.push((n / 0x100 % 0x100) as u8);
    header.push((n % 0x100) as u8);
    assert(header@ == to_be(len as nat));
    Ok(header)
}

/// The header says how long the payload is.
pub proof fn lemma_header_is_length(n: nat)
    requires
        n <= u32::MAX,
    ensures
        to_be(n).len() == 4,
        from_be(to_be(n)) == n,
{
}

/// Only the first four bytes decide what length a header announces.
proof fn lemma_header_front(a: Seq<u8>, b: Seq<u8>)
    requires
        a.len() >= 4,
    ensures
        from_be(a + b) == from_be(a),
{
}

/// A message is taken off whole, whatever follows it.
proof fn lemma_first_message(payload: Seq<u8>, rest: Seq<u8>)
    requires
        fits(payload),
    ensures
        payloads_in(message_of(payload) + rest) == seq![payload] + payloads_in(rest),
{
    let bytes = message_of(payload) + rest;
    let n = payload.len();
    lemma_header_is_length(n);
    assert(bytes == to_be(n) + (payload + rest));
    lemma_header_front(to_be(n), payload + rest);
    assert(from_be(bytes) == n);
    assert(bytes.subrange(4, 4 + n as int) == payload);
    assert(bytes.skip(4 + n as int) == rest);
}

/// Joining sequences can be grouped either way.
proof fn lemma_regroup<T>(a: Seq<T>, b: Seq<T>, c: Seq<T>)
    ensures
        (a + b) + c == a + (b + c),
{
}

/// What is read up to the middle of a message is what was sent in the messages
/// before it.
proof fn lemma_cut_messages(payloads: Seq<Seq<u8>>, rest: Seq<u8>)
    requires
        forall|i: int| 0 <= i < payloads.len() ==> fits(#[trigger] payloads[i]),
    ensures
        payloads_in(messages_of(payloads) + rest) == payloads + payloads_in(rest),
    decreases payloads.len(),
{
    if payloads.len() == 0 {
        assert(messages_of(payloads) + rest == rest);
        assert(payloads + payloads_in(rest) == payloads_in(rest));
    } else {
        let front = payloads.drop_last();
        let last = payloads.last();
        assert forall|i: int| 0 <= i < front.len() implies fits(#[trigger] front[i]) by {
            assert(front[i] == payloads[i]);
        }
        assert(fits(payloads[payloads.len() - 1]));
        let m = message_of(last);
        assert(messages_of(payloads) == messages_of(front) + m);
        lemma_regroup(messages_of(front), m, rest);
        lemma_cut_messages(front, m + rest);
        lemma_first_message(last, rest);
        lemma_regroup(front, seq![last], payloads_in(rest));
        assert(front + seq![last] == payloads);
    }
}

/// A receiver gets back the payloads that were sent, in order: from the whole
/// stream all of them, and from a stream that breaks off inside a message those
/// of the messages before it.
pub proof fn law_stream_is_read_back(payloads: Seq<Seq<u8>>, next: Seq<u8>, cut: int)
    requires
        forall|i: int| 0 <= i < payloads.len() ==> fits(#[trigger] payloads[i]),
        fits(next),
        0 <= cut < message_of(next).len(),
    ensures
        received(stream_of(payloads)) == payloads,
        received(stream_of(payloads) + message_of(next).take(cut)) == payloads,
{
    let part = message_of(next).take(cut);
    let none: Seq<u8> = seq![];
    lemma_header_is_length(next.len());
    assert(payloads_in(part) == Seq::<Seq<u8>>::empty()) by {
        if cut >= 4 {
            assert(part == to_be(next.len()) + next.take(cut - 4));
            lemma_header_front(to_be(next.len()), next.take(cut - 4));
        }
    }
    lemma_cut_messages(payloads, part);
    lemma_cut_messages(payloads, none);
    assert(messages_of(payloads) + none == messages_of(payloads));
    assert(payloads_in(none) == Seq::<Seq<u8>>::empty());
    assert(payloads + Seq::<Seq<u8>>::empty() == payloads);
    assert(stream_of(payloads).skip(1) == messages_of(payloads));
    assert((stream_of(payloads) + part).skip(1) == messages_of(payloads) + part);
}

/// Two runs that send different payloads send different bytes.
pub proof fn law_stream_is_unambiguous(a: Seq<Seq<u8>>, b: Seq<Seq<u8>>)
    requires
        forall|i: int| 0 <= i < a.len() ==> fits(#[trigger] a[i]),
        forall|i: int| 0 <= i < b.len() ==> fits(#[trigger] b[i]),
        stream_of(a) == stream_of(b),
    ensures
        a == b,
{
    let none: Seq<u8> = seq![];
    law_stream_is_read_back(a, none, 0);
    law_stream_is_read_back(b, none, 0);
}

/// The bytes that announce a payload stand for its length: the first is worth most.
pub proof fn law_header_bytes_are_weighed(n: nat)
    requires
        n <= 0xffff_ffff,
    ensures
        to_be(n).len() == 4,
        to_be(n)[0] * 0x100_0000 + to_be(n)[1] * 0x1_0000 + to_be(n)[2] * 0x100 + to_be(n)[3] == n,
{
}

/// What the host sends: the byte one, and then for each payload the four bytes of
/// its length, most significant first, and the payload itself. Every payload whose
/// length four bytes can hold is sent.
pub proof fn law_stream_is_byte_for_byte(payloads: Seq<Seq<u8>>, payload: Seq<u8>)
    requires
        payload.len() <= 0xffff_ffff,
    ensures
        fits(payload),
        stream_of(seq![]) == seq![1u8],
        exists|a: u8, b: u8, c: u8, d: u8|
            a * 0x100_0000 + b * 0x1_0000 + c * 0x100 + d == payload.len() && stream_of(
                payloads.push(payload),
            ) == stream_of(payloads) + #[trigger] seq![a, b, c, d] + payload,
{
    let n = payload.len();
    let head = to_be(n);
    law_header_bytes_are_weighed(n);
    let none: Seq<Seq<u8>> = seq![];
    assert(messages_of(none) == Seq::<u8>::empty());
    assert(stream_of(none) == seq![1u8]);
    let all = payloads.push(payload);
    assert(all.drop_last() == payloads);
    assert(all.last() == payload);
    assert(head == seq![head[0], head[1], head[2], head[3]]);
    assert(stream_of(all) == stream_of(payloads) + seq![head[0], head[1], head[2], head[3]]
        + payload);
}

} // verus!
