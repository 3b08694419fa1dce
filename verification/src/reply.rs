//! Frames that the server sends to the kernel.
//!
//! A frame is a header of sixteen bytes and a body. The header holds the
//! length of the whole frame, an error field and the number of the request
//! that the frame answers. The kernel takes a frame only in one piece: it is
//! written with one call, and a write that stops short is an error.

use crate::decoder::{take, DecodeError};
use crate::header::OutHeader;
use crate::wire::{put_bytes, Wire};
use vstd::prelude::*;

verus! {

/// Whether a body of `n` bytes fits in one frame. The length of a frame
/// travels as a 32-bit number.
pub open spec fn fits(n: nat) -> bool {
    16 + n <= u32::MAX
}

/// The header of the frame that carries `error` and a body of `n` bytes for
/// request `unique`.
pub open spec fn frame_header(unique: u64, error: i32, n: nat) -> OutHeader {
    OutHeader { len: (16 + n) as u32, error, unique }
}

/// The frame that carries `error` and `body` for request `unique`.
pub open spec fn frame(unique: u64, error: i32, body: Seq<u8>) -> Seq<u8> {
    frame_header(unique, error, body.len()).encoded() + body
}

/// The frame that answers request `unique` with an error number: the number
/// is negated, and the body is empty.
pub open spec fn error_frame(unique: u64, errno: i32) -> Seq<u8> {
    frame(unique, (-errno) as i32, Seq::empty())
}

/// What is read back from a frame is the header it was made with, the field
/// `unique` among it, followed by the body; and the header's length is the
/// length of the frame.
pub proof fn lemma_frame(unique: u64, error: i32, body: Seq<u8>)
    requires
        fits(body.len()),
    ensures
        frame(unique, error, body).len() == 16 + body.len(),
        take::<OutHeader>(frame(unique, error, body)) == Ok::<_, DecodeError>(
            (frame_header(unique, error, body.len()), body),
        ),
        OutHeader::decoded(frame(unique, error, body).take(16)).unique == unique,
        OutHeader::decoded(frame(unique, error, body).take(16)).error == error,
        OutHeader::decoded(frame(unique, error, body).take(16)).len == frame(
            unique,
            error,
            body,
        ).len(),
{
    let h = frame_header(unique, error, body.len());
    h.lemma_encoded();
    crate::decoder::lemma_take(h, body);
}

/// The header for a body of `body_len` bytes, for a caller that writes header
/// and body as two pieces of one vectored write. `None` where the frame would
/// be too long.
pub fn reply_header(unique: u64, error: i32, body_len: usize) -> (r: Option<OutHeader>)
    ensures
        r == if fits(body_len as nat) {
            Some(frame_header(unique, error, body_len as nat))
        } else {
            None
        },
{
    if body_len > 0xffff_ffff - 16 {
        None
    } else {
        Some(OutHeader { len: (body_len + 16) as u32, error, unique })
    }
}

/// The whole frame in one buffer, for a body that fits.
pub(crate) fn build_frame(unique: u64, error: i32, body: &[u8]) -> (f: Vec<u8>)
    requires
        fits(body@.len()),
    ensures
        f@ == frame(unique, error, body@),
{
    let header = OutHeader { len: (body.len() + 16) as u32, error, unique };
    let mut out: Vec<u8> = Vec::new();
    header.encode(&mut out);
    put_bytes(&mut out, body);
    out
}

/// The whole frame in one buffer. `None` where the frame would be too long.
pub fn encode_frame(unique: u64, error: i32, body: &[u8]) -> (r: Option<Vec<u8>>)
    ensures
        match r {
            Some(f) => fits(body@.len()) && f@ == frame(unique, error, body@),
            None => !fits(body@.len()),
        },
{
    if body.len() > 0xffff_ffff - 16 {
        None
    } else {
        Some(build_frame(unique, error, body))
    }
}

/// The frame of a successful reply with `body`. `None` where the frame would
/// be too long.
pub fn encode_reply(unique: u64, body: &[u8]) -> (r: Option<Vec<u8>>)
    ensures
        match r {
            Some(f) => fits(body@.len()) && f@ == frame(unique, 0, body@),
            None => !fits(body@.len()),
        },
{
    encode_frame(unique, 0, body)
}

/// The frame of a reply that reports the error number `errno`.
pub fn encode_error(unique: u64, errno: i32) -> (f: Vec<u8>)
    requires
        errno > i32::MIN,
    ensures
        f@ == error_frame(unique, errno),
        f@.len() == 16,
{
    let body: Vec<u8> = Vec::new();
    let out = build_frame(unique, -errno, body.as_slice());
    proof {
        lemma_frame(unique, (-errno) as i32, body@);
        assert(body@ =~= Seq::<u8>::empty());
    }
    out
}

/// A write that took fewer bytes than the frame holds.
#[derive(Clone, Copy, Debug, PartialEq, Eq, Structural)]
pub struct ShortWrite {
    /// The length of the frame.
    pub expected: usize,
    /// The number of bytes that the write took.
    pub written: usize,
}

/// Judges the result of the one write of a frame of `expected` bytes.
pub fn check_written(expected: usize, written: usize) -> (r: Result<(), ShortWrite>)
    ensures
        r == if written < expected {
            Err::<(), _>(ShortWrite { expected, written })
        } else {
            Ok(())
        },
{
    if written < expected {
        Err(ShortWrite { expected, written })
    } else {
        Ok(())
    }
}

} // verus!
