//! Framing of multiplexed traffic.
//!
//! Every ad-hoc stream and every datagram starts with the id of the handler
//! it is meant for: four bytes, most significant first. What follows the id
//! belongs to the handler.
//!
//! On the handshake stream, the diff stream and the stat stream, messages
//! follow one another. Each is led by its length in bytes, again four bytes,
//! most significant first, and no message is longer than
//! [`MAX_MESSAGE_LEN`].

use bytes::Bytes;
use vstd::prelude::*;

verus! {

/// Number of bytes taken by a handler id at the start of a stream or datagram.
pub const HANDLER_ID_LEN: usize = 4;

/// The number that the first four bytes of `b` spell, most significant first.
pub open spec fn be_u32(b: Seq<u8>) -> int
    recommends
        b.len() >= 4,
{
    b[0] as int * 0x100_0000 + b[1] as int * 0x1_0000 + b[2] as int * 0x100 + b[3] as int
}

/// The four bytes that spell `id`, most significant first.
pub open spec fn be_bytes(id: u32) -> Seq<u8> {
    seq![
        (id as int / 0x100_0000) as u8,
        (id as int / 0x1_0000 % 0x100) as u8,
        (id as int / 0x100 % 0x100) as u8,
        (id as int % 0x100) as u8,
    ]
}

/// Most bytes that one message on a stream may have.
pub const MAX_MESSAGE_LEN: usize = 0x4000_0000;

/// Why bytes could not be framed or taken apart.
#[derive(Clone, Copy, Debug, PartialEq, Eq, Structural)]
pub enum WireError {
    /// Fewer bytes than a handler id or a length takes.
    Truncated,
    /// A message of more than `MAX_MESSAGE_LEN` bytes.
    TooLong,
}

/// `Bytes` of the bytes crate, a shared slice of bytes. What it holds is
/// spoken of through [`bytes_contents`].
#[verifier::external_type_specification]
#[verifier::external_body]
pub struct ExBytes(bytes::Bytes);

/// The bytes that a `Bytes` value holds, in order.
pub uninterp spec fn bytes_contents(b: Bytes) -> Seq<u8>;

/// `Bytes::len`: the number of bytes held.
#[verifier::external_body]
fn bytes_len(b: &Bytes) -> (n: usize)
    ensures
        n == bytes_contents(*b).len(),
{
    b.len()
}

/// `Bytes::split_off`: `b` keeps the bytes before `at`, the result holds the
/// bytes from `at` on. The outside function panics when `at` is past the end.
#[verifier::external_body]
fn bytes_split_off(b: &mut Bytes, at: usize) -> (tail: Bytes)
    requires
        at <= bytes_contents(*old(b)).len(),
    ensures
        bytes_contents(*final(b)) == bytes_contents(*old(b)).subrange(0, at as int),
        bytes_contents(tail) == bytes_contents(*old(b)).subrange(
            at as int,
            bytes_contents(*old(b)).len() as int,
        ),
{
    b.split_off(at)
}

/// `AsRef<[u8]>` of `Bytes`: the held bytes as a slice.
#[verifier::external_body]
fn bytes_as_slice(b: &Bytes) -> (s: &[u8])
    ensures
        s@ == bytes_contents(*b),
{
    b.as_ref()
}

/// Reads the handler id that `header` starts with.
///
/// `None` exactly when `header` is shorter than an id.
pub fn decode_handler_id(header: &[u8]) -> (id: Option<u32>)
    ensures
        header@.len() < 4 ==> id is None,
        header@.len() >= 4 ==> id == Some(be_u32(header@) as u32),
        header@.len() >= 4 ==> 0 <= be_u32(header@) <= u32::MAX,
{
    if header.len() < HANDLER_ID_LEN {
        return None;
    }
    let b0: u32 = header[0] as u32;
    let b1: u32 = header[1] as u32;
    let b2: u32 = header[2] as u32;
    let b3: u32 = header[3] as u32;
    Some(b0 * 0x100_0000 + b1 * 0x1_0000 + b2 * 0x100 + b3)
}

/// Spells `id` as the four bytes that open a stream or datagram.
pub fn encode_handler_id(id: u32) -> (out: [u8; 4])
    ensures
        out@ == be_bytes(id),
{
    let out: [u8; 4] = [
        (id / 0x100_0000) as u8,
        (id / 0x1_0000 % 0x100) as u8,
        (id / 0x100 % 0x100) as u8,
        (id % 0x100) as u8,
    ];
    assert(out@ =~= be_bytes(id));
    out
}

/// Builds the bytes of a datagram, or the opening bytes of a stream, for
/// handler `id` with `payload`.
pub fn frame(id: u32, payload: &[u8]) -> (out: Vec<u8>)
    ensures
        out@ == be_bytes(id) + payload@,
{
    let head = encode_handler_id(id);
    let mut out: Vec<u8> = Vec::new();
    out.push(head[0]);
    out.push(head[1]);
    out.push(head[2]);
    out.push(head[3]);
    assert(out@ =~= be_bytes(id));
    let mut i: usize = 0;
    while i < payload.len()
        invariant
            i <= payload@.len(),
            out@ == be_bytes(id) + payload@.subrange(0, i as int),
        decreases payload@.len() - i,
    {
        out.push(payload[i]);
        i += 1;
        assert(out@ =~= be_bytes(id) + payload@.subrange(0, i as int));
    }
    assert(payload@.subrange(0, i as int) =~= payload@);
    out
}

/// Takes a datagram apart into the handler id and the handler's payload.
///
/// Fails exactly when the datagram is shorter than a handler id.
pub fn split_datagram(datagram: Bytes) -> (r: Result<(u32, Bytes), WireError>)
    ensures
        bytes_contents(datagram).len() < 4 <==> r is Err,
        r matches Err(e) ==> e == WireError::Truncated,
        r matches Ok((id, payload)) ==> {
            &&& id == be_u32(bytes_contents(datagram))
            &&& bytes_contents(payload) == bytes_contents(datagram).subrange(
                4,
                bytes_contents(datagram).len() as int,
            )
        },
{
    let mut head = datagram;
    if bytes_len(&head) < HANDLER_ID_LEN {
        return Err(WireError::Truncated);
    }
    let payload = bytes_split_off(&mut head, HANDLER_ID_LEN);
    match decode_handler_id(bytes_as_slice(&head)) {
        Some(id) => Ok((id, payload)),
        None => Err(WireError::Truncated),
    }
}

/// What reading the length of a message from `header` comes to.
pub open spec fn message_len(header: Seq<u8>) -> Result<usize, WireError> {
    if header.len() < 4 {
        Err(WireError::Truncated)
    } else if be_u32(header) > MAX_MESSAGE_LEN {
        Err(WireError::TooLong)
    } else {
        Ok(be_u32(header) as usize)
    }
}

/// The four bytes that lead a message of `len` bytes on a stream.
///
/// Fails exactly when `len` is more than `MAX_MESSAGE_LEN`.
pub fn encode_message_len(len: usize) -> (r: Result<[u8; 4], WireError>)
    ensures
        match r {
            Ok(header) => len <= MAX_MESSAGE_LEN && header@ == be_bytes(len as u32),
            Err(e) => len > MAX_MESSAGE_LEN && e == WireError::TooLong,
        },
{
    if len > MAX_MESSAGE_LEN {
        return Err(WireError::TooLong);
    }
    Ok(encode_handler_id(len as u32))
}

/// Reads the length of the message that `header` leads.
///
/// Fails with `Truncated` when `header` is shorter than a length, and with
/// `TooLong` when the length is more than `MAX_MESSAGE_LEN`.
pub fn decode_message_len(header: &[u8]) -> (r: Result<usize, WireError>)
    ensures
        r == message_len(header@),
{
    match decode_handler_id(header) {
        None => Err(WireError::Truncated),
        Some(len) => {
            if len as usize > MAX_MESSAGE_LEN {
                Err(WireError::TooLong)
            } else {
                Ok(len as usize)
            }
        },
    }
}

/// Builds the bytes of one message on a stream: its length, then `msg`.
///
/// Fails exactly when `msg` is longer than `MAX_MESSAGE_LEN`.
pub fn frame_message(msg: &[u8]) -> (r: Result<Vec<u8>, WireError>)
    ensures
        match r {
            Ok(out) => msg@.len() <= MAX_MESSAGE_LEN && out@ == be_bytes(msg@.len() as u32)
                + msg@,
            Err(e) => msg@.len() > MAX_MESSAGE_LEN && e == WireError::TooLong,
        },
{
    if msg.len() > MAX_MESSAGE_LEN {
        return Err(WireError::TooLong);
    }
    Ok(frame(msg.len() as u32, msg))
}

/// The length read back from the header of a message is the length that the
/// header was built for.
pub proof fn lemma_message_len_round_trip(len: usize, rest: Seq<u8>)
    requires
        len <= MAX_MESSAGE_LEN,
    ensures
        message_len(be_bytes(len as u32) + rest) == Ok::<usize, WireError>(len),
{
    lemma_frame_round_trip(len as u32, rest);
}

/// Decoding undoes encoding: the id read back from a frame is the id it was
/// built for, and what follows the id is the payload.
pub proof fn lemma_frame_round_trip(id: u32, payload: Seq<u8>)
    ensures
        be_u32(be_bytes(id) + payload) == id,
        (be_bytes(id) + payload).len() == payload.len() + 4,
        (be_bytes(id) + payload).subrange(4, payload.len() as int + 4) == payload,
{
    let framed = be_bytes(id) + payload;
    assert(framed.subrange(4, payload.len() as int + 4) =~= payload);
}

} // verus!
