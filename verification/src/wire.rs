//! Fixed-width integers as they travel between the kernel and the server,
//! and the values that are made of them.
//!
//! Every integer of the protocol is stored least significant byte first: a
//! number of four bytes is two numbers of two bytes, the lower one first,
//! and a number of eight bytes is two numbers of four bytes in the same way.
//! Signed fields are two's complement.
//!
//! The functions that say what bytes stand for are opaque, so that a proof
//! about a struct of many fields deals with whole fields and not with their
//! bytes. Reveal them to compute with them.

use vstd::prelude::*;

verus! {

/// The number that two bytes stand for.
#[verifier::opaque]
pub open spec fn u16_le(s: Seq<u8>) -> u16
    recommends
        s.len() == 2,
{
    (s[0] as int + s[1] as int * 0x100) as u16
}

/// The number that four bytes stand for.
#[verifier::opaque]
pub open spec fn u32_le(s: Seq<u8>) -> u32
    recommends
        s.len() == 4,
{
    (u16_le(s.subrange(0, 2)) as int + u16_le(s.subrange(2, 4)) as int * 0x1_0000) as u32
}

/// The number that eight bytes stand for.
#[verifier::opaque]
pub open spec fn u64_le(s: Seq<u8>) -> u64
    recommends
        s.len() == 8,
{
    (u32_le(s.subrange(0, 4)) as int + u32_le(s.subrange(4, 8)) as int * 0x1_0000_0000) as u64
}

/// The two bytes that stand for `v`.
#[verifier::opaque]
pub open spec fn u16_bytes(v: u16) -> Seq<u8> {
    seq![(v % 0x100) as u8, (v / 0x100) as u8]
}

/// The four bytes that stand for `v`.
#[verifier::opaque]
pub open spec fn u32_bytes(v: u32) -> Seq<u8> {
    u16_bytes((v % 0x1_0000) as u16) + u16_bytes((v / 0x1_0000) as u16)
}

/// The eight bytes that stand for `v`.
#[verifier::opaque]
pub open spec fn u64_bytes(v: u64) -> Seq<u8> {
    u32_bytes((v % 0x1_0000_0000) as u32) + u32_bytes((v / 0x1_0000_0000) as u32)
}

/// The 16-bit number stored at `at`.
pub open spec fn u16_at(s: Seq<u8>, at: int) -> u16 {
    u16_le(s.subrange(at, at + 2))
}

/// The 32-bit number stored at `at`.
pub open spec fn u32_at(s: Seq<u8>, at: int) -> u32 {
    u32_le(s.subrange(at, at + 4))
}

/// The 64-bit number stored at `at`.
pub open spec fn u64_at(s: Seq<u8>, at: int) -> u64 {
    u64_le(s.subrange(at, at + 8))
}

/// `n` zero bytes.
pub open spec fn zeros(n: nat) -> Seq<u8> {
    Seq::new(n, |i: int| 0u8)
}

/// The signed reading of a 32-bit word.
pub open spec fn i32_of(v: u32) -> i32 {
    if v < 0x8000_0000 {
        v as i32
    } else {
        (v - 0x1_0000_0000) as i32
    }
}

/// The 32-bit word whose signed reading is `v`.
pub open spec fn u32_of(v: i32) -> u32 {
    if v >= 0 {
        v as u32
    } else {
        (v + 0x1_0000_0000) as u32
    }
}

/// The signed reading of a 64-bit word.
pub open spec fn i64_of(v: u64) -> i64 {
    if v < 0x8000_0000_0000_0000 {
        v as i64
    } else {
        (v - 0x1_0000_0000_0000_0000) as i64
    }
}

/// The 64-bit word whose signed reading is `v`.
pub open spec fn u64_of(v: i64) -> u64 {
    if v >= 0 {
        v as u64
    } else {
        (v + 0x1_0000_0000_0000_0000) as u64
    }
}

/// The two bytes of a number stand for that number.
pub proof fn lemma_u16_bytes(v: u16)
    ensures
        u16_bytes(v).len() == 2,
        u16_le(u16_bytes(v)) == v,
{
    reveal(u16_bytes);
    reveal(u16_le);
}

/// Two bytes are the bytes of the number that they stand for.
pub proof fn lemma_u16_le(s: Seq<u8>)
    requires
        s.len() == 2,
    ensures
        u16_bytes(u16_le(s)) == s,
{
    reveal(u16_bytes);
    reveal(u16_le);
    let v = u16_le(s);
    assert(v == s[0] + s[1] * 0x100);
    assert(v % 0x100 == s[0] && v / 0x100 == s[1]);
    assert(u16_bytes(v) =~= s);
}

/// The four bytes of a number stand for that number.
pub proof fn lemma_u32_bytes(v: u32)
    ensures
        u32_bytes(v).len() == 4,
        u32_le(u32_bytes(v)) == v,
{
    reveal(u32_bytes);
    reveal(u32_le);
    let lo = (v % 0x1_0000) as u16;
    let hi = (v / 0x1_0000) as u16;
    lemma_u16_bytes(lo);
    lemma_u16_bytes(hi);
    assert(u32_bytes(v).subrange(0, 2) =~= u16_bytes(lo));
    assert(u32_bytes(v).subrange(2, 4) =~= u16_bytes(hi));
}

/// Four bytes are the bytes of the number that they stand for.
pub proof fn lemma_u32_le(s: Seq<u8>)
    requires
        s.len() == 4,
    ensures
        u32_bytes(u32_le(s)) == s,
{
    reveal(u32_bytes);
    reveal(u32_le);
    let lo = u16_le(s.subrange(0, 2));
    let hi = u16_le(s.subrange(2, 4));
    let v = u32_le(s);
    assert(v == lo + hi * 0x1_0000);
    assert(v % 0x1_0000 == lo && v / 0x1_0000 == hi);
    lemma_u16_le(s.subrange(0, 2));
    lemma_u16_le(s.subrange(2, 4));
    assert(u32_bytes(v) == s.subrange(0, 2) + s.subrange(2, 4));
    assert(s.subrange(0, 2) + s.subrange(2, 4) =~= s);
}

/// The eight bytes of a number stand for that number.
pub proof fn lemma_u64_bytes(v: u64)
    ensures
        u64_bytes(v).len() == 8,
        u64_le(u64_bytes(v)) == v,
{
    reveal(u64_bytes);
    reveal(u64_le);
    let lo = (v % 0x1_0000_0000) as u32;
    let hi = (v / 0x1_0000_0000) as u32;
    lemma_u32_bytes(lo);
    lemma_u32_bytes(hi);
    assert(u64_bytes(v).subrange(0, 4) =~= u32_bytes(lo));
    assert(u64_bytes(v).subrange(4, 8) =~= u32_bytes(hi));
}

/// Eight bytes are the bytes of the number that they stand for.
pub proof fn lemma_u64_le(s: Seq<u8>)
    requires
        s.len() == 8,
    ensures
        u64_bytes(u64_le(s)) == s,
{
    reveal(u64_bytes);
    reveal(u64_le);
    let lo = u32_le(s.subrange(0, 4));
    let hi = u32_le(s.subrange(4, 8));
    let v = u64_le(s);
    assert(v == lo + hi * 0x1_0000_0000);
    assert(v % 0x1_0000_0000 == lo && v / 0x1_0000_0000 == hi);
    lemma_u32_le(s.subrange(0, 4));
    lemma_u32_le(s.subrange(4, 8));
    assert(u64_bytes(v) == s.subrange(0, 4) + s.subrange(4, 8));
    assert(s.subrange(0, 4) + s.subrange(4, 8) =~= s);
}

/// The signed and the unsigned reading of a 32-bit word give each other.
pub proof fn lemma_signed_32(v: u32, w: i32)
    ensures
        u32_of(i32_of(v)) == v,
        i32_of(u32_of(w)) == w,
{
}

/// The signed and the unsigned reading of a 64-bit word give each other.
pub proof fn lemma_signed_64(v: u64, w: i64)
    ensures
        u64_of(i64_of(v)) == v,
        i64_of(u64_of(w)) == w,
{
}

/// Reads two bytes of `buf`, starting at `at`.
pub fn get_u16(buf: &[u8], at: usize) -> (v: u16)
    requires
        at + 2 <= buf.len(),
    ensures
        v == u16_le(buf@.subrange(at as int, at + 2)),
{
    proof {
        reveal(u16_le);
    }
    let b0: u16 = buf[at] as u16;
    let b1: u16 = buf[at + 1] as u16;
    b0 + b1 * 0x100
}

/// Reads four bytes of `buf`, starting at `at`.
pub fn get_u32(buf: &[u8], at: usize) -> (v: u32)
    requires
        at + 4 <= buf.len(),
    ensures
        v == u32_le(buf@.subrange(at as int, at + 4)),
{
    let lo: u32 = get_u16(buf, at) as u32;
    let hi: u32 = get_u16(buf, at + 2) as u32;
    proof {
        reveal(u32_le);
        let s = buf@.subrange(at as int, at + 4);
        assert(s.subrange(0, 2) =~= buf@.subrange(at as int, at + 2));
        assert(s.subrange(2, 4) =~= buf@.subrange(at + 2, at + 4));
    }
    lo + hi * 0x1_0000
}

/// Reads eight bytes of `buf`, starting at `at`.
pub fn get_u64(buf: &[u8], at: usize) -> (v: u64)
    requires
        at + 8 <= buf.len(),
    ensures
        v == u64_le(buf@.subrange(at as int, at + 8)),
{
    proof {
        reveal(u64_le);
    }
    let lo: u64 = get_u32(buf, at) as u64;
    let hi: u64 = get_u32(buf, at + 4) as u64;
    proof {
        let s = buf@.subrange(at as int, at + 8);
        assert(s.subrange(0, 4) =~= buf@.subrange(at as int, at + 4));
        assert(s.subrange(4, 8) =~= buf@.subrange(at + 4, at + 8));
    }
    lo + hi * 0x1_0000_0000
}

/// Reads four bytes of `buf` as a signed number.
pub fn get_i32(buf: &[u8], at: usize) -> (v: i32)
    requires
        at + 4 <= buf.len(),
    ensures
        v == i32_of(u32_le(buf@.subrange(at as int, at + 4))),
{
    to_i32(get_u32(buf, at))
}

/// Reads eight bytes of `buf` as a signed number.
pub fn get_i64(buf: &[u8], at: usize) -> (v: i64)
    requires
        at + 8 <= buf.len(),
    ensures
        v == i64_of(u64_le(buf@.subrange(at as int, at + 8))),
{
    to_i64(get_u64(buf, at))
}

/// The signed reading of `v`.
pub fn to_i32(v: u32) -> (r: i32)
    ensures
        r == i32_of(v),
{
    if v < 0x8000_0000 {
        v as i32
    } else {
        let low: i32 = (v - 0x8000_0000) as i32;
        low - 0x7fff_ffff - 1
    }
}

/// The word whose signed reading is `v`.
pub fn to_u32(v: i32) -> (r: u32)
    ensures
        r == u32_of(v),
{
    if v >= 0 {
        v as u32
    } else {
        let low: u32 = (v + 0x7fff_ffff + 1) as u32;
        low + 0x8000_0000
    }
}

/// The signed reading of `v`.
pub fn to_i64(v: u64) -> (r: i64)
    ensures
        r == i64_of(v),
{
    if v < 0x8000_0000_0000_0000 {
        v as i64
    } else {
        let low: i64 = (v - 0x8000_0000_0000_0000) as i64;
        low - 0x7fff_ffff_ffff_ffff - 1
    }
}

/// The word whose signed reading is `v`.
pub fn to_u64(v: i64) -> (r: u64)
    ensures
        r == u64_of(v),
{
    if v >= 0 {
        v as u64
    } else {
        let low: u64 = (v + 0x7fff_ffff_ffff_ffff + 1) as u64;
        low + 0x8000_0000_0000_0000
    }
}

/// Appends the two bytes of `v` to `out`.
pub fn put_u16(out: &mut Vec<u8>, v: u16)
    ensures
        final(out)@ == old(out)@ + u16_bytes(v),
{
    proof {
        reveal(u16_bytes);
    }
    out.push((v % 0x100) as u8);
    out.push((v / 0x100) as u8);
    assert(out@ =~= old(out)@ + u16_bytes(v));
}

/// Appends the four bytes of `v` to `out`.
pub fn put_u32(out: &mut Vec<u8>, v: u32)
    ensures
        final(out)@ == old(out)@ + u32_bytes(v),
{
    put_u16(out, (v % 0x1_0000) as u16);
    put_u16(out, (v / 0x1_0000) as u16);
    proof {
        reveal(u32_bytes);
    }
    assert(out@ =~= old(out)@ + u32_bytes(v));
}

/// Appends the eight bytes of `v` to `out`.
pub fn put_u64(out: &mut Vec<u8>, v: u64)
    ensures
        final(out)@ == old(out)@ + u64_bytes(v),
{
    proof {
        reveal(u64_bytes);
    }
    put_u32(out, (v % 0x1_0000_0000) as u32);
    put_u32(out, (v / 0x1_0000_0000) as u32);
    assert(out@ =~= old(out)@ + u64_bytes(v));
}

/// Appends the four bytes of the signed number `v` to `out`.
pub fn put_i32(out: &mut Vec<u8>, v: i32)
    ensures
        final(out)@ == old(out)@ + u32_bytes(u32_of(v)),
{
    put_u32(out, to_u32(v));
}

/// Appends the eight bytes of the signed number `v` to `out`.
pub fn put_i64(out: &mut Vec<u8>, v: i64)
    ensures
        final(out)@ == old(out)@ + u64_bytes(u64_of(v)),
{
    put_u64(out, to_u64(v));
}

/// A value with a fixed image on the wire.
pub trait Wire: Sized {
    /// The number of bytes of the image.
    spec fn wire_len() -> nat;

    /// The value that `bytes` stand for.
    spec fn decoded(bytes: Seq<u8>) -> Self;

    /// The image of the value.
    spec fn encoded(self) -> Seq<u8>;

    /// Decoding undoes encoding.
    proof fn lemma_encoded(self)
        ensures
            self.encoded().len() == Self::wire_len(),
            Self::decoded(self.encoded()) == self,
    ;

    /// The number of bytes of the image.
    fn size() -> (n: usize)
        ensures
            n == Self::wire_len(),
    ;

    /// Reads the value from its image.
    fn decode(buf: &[u8]) -> (v: Self)
        requires
            buf@.len() == Self::wire_len(),
        ensures
            v == Self::decoded(buf@),
    ;

    /// Appends the image to `out`.
    fn encode(&self, out: &mut Vec<u8>)
        ensures
            final(out)@ == old(out)@ + self.encoded(),
    ;
}

/// Appends `n` zero bytes to `out`.
pub fn put_zeros(out: &mut Vec<u8>, n: usize)
    ensures
        final(out)@ == old(out)@ + zeros(n as nat),
{
    let mut i: usize = 0;
    while i < n
        invariant
            i <= n,
            out@ == old(out)@ + zeros(i as nat),
        decreases n - i,
    {
        out.push(0u8);
        i += 1;
        assert(out@ =~= old(out)@ + zeros(i as nat));
    }
}

/// Appends `data` to `out`.
pub fn put_bytes(out: &mut Vec<u8>, data: &[u8])
    ensures
        final(out)@ == old(out)@ + data@,
{
    out.extend_from_slice(data);
    assert(out@ =~= old(out)@ + data@);
}

} // verus!
