//! The headers of the protocol and the arguments of the handshake.

use crate::abi::{FUSE_KERNEL_MINOR_VERSION, FUSE_KERNEL_VERSION};
use crate::wire::{
    get_i32, get_u16, get_u32, get_u64, i32_of, lemma_u16_bytes, lemma_u32_bytes, lemma_u32_le,
    lemma_u64_bytes, lemma_u64_le, put_i32, put_u16, put_u32, put_u64, put_zeros, u16_at, u16_bytes,
    u32_at, u32_bytes, u32_of, u64_at, u64_bytes, zeros, Wire,
};
use vstd::prelude::*;

verus! {

/// The header that starts every request.
#[derive(Clone, Copy, Debug, PartialEq, Eq, Structural)]
pub struct InHeader {
    /// The length of the whole request, this header included.
    pub len: u32,
    /// The operation that is asked for.
    pub opcode: u32,
    /// The number by which the kernel tells its requests apart.
    pub unique: u64,
    /// The inode that the request is about.
    pub nodeid: u64,
    /// The user on whose behalf the kernel asks.
    pub uid: u32,
    /// The group of that user.
    pub gid: u32,
    /// The process on whose behalf the kernel asks.
    pub pid: u32,
    pub padding: u32,
}

impl Wire for InHeader {
    open spec fn wire_len() -> nat {
        40
    }

    open spec fn decoded(bytes: Seq<u8>) -> Self {
        InHeader {
            len: u32_at(bytes, 0),
            opcode: u32_at(bytes, 4),
            unique: u64_at(bytes, 8),
            nodeid: u64_at(bytes, 16),
            uid: u32_at(bytes, 24),
            gid: u32_at(bytes, 28),
            pid: u32_at(bytes, 32),
            padding: u32_at(bytes, 36),
        }
    }

    open spec fn encoded(self) -> Seq<u8> {
        u32_bytes(self.len) + u32_bytes(self.opcode) + u64_bytes(self.unique)
            + u64_bytes(self.nodeid) + u32_bytes(self.uid) + u32_bytes(self.gid)
            + u32_bytes(self.pid) + u32_bytes(self.padding)
    }

    proof fn lemma_encoded(self) {
        let e = self.encoded();
        lemma_u32_bytes(self.len);
        lemma_u32_bytes(self.opcode);
        lemma_u64_bytes(self.unique);
        lemma_u64_bytes(self.nodeid);
        lemma_u32_bytes(self.uid);
        lemma_u32_bytes(self.gid);
        lemma_u32_bytes(self.pid);
        lemma_u32_bytes(self.padding);
        assert(e.subrange(0, 4) =~= u32_bytes(self.len));
        assert(e.subrange(4, 8) =~= u32_bytes(self.opcode));
        assert(e.subrange(8, 16) =~= u64_bytes(self.unique));
        assert(e.subrange(16, 24) =~= u64_bytes(self.nodeid));
        assert(e.subrange(24, 28) =~= u32_bytes(self.uid));
        assert(e.subrange(28, 32) =~= u32_bytes(self.gid));
        assert(e.subrange(32, 36) =~= u32_bytes(self.pid));
        assert(e.subrange(36, 40) =~= u32_bytes(self.padding));
    }

    fn size() -> usize {
        40
    }

    fn decode(buf: &[u8]) -> Self {
        InHeader {
            len: get_u32(buf, 0),
            opcode: get_u32(buf, 4),
            unique: get_u64(buf, 8),
            nodeid: get_u64(buf, 16),
            uid: get_u32(buf, 24),
            gid: get_u32(buf, 28),
            pid: get_u32(buf, 32),
            padding: get_u32(buf, 36),
        }
    }

    fn encode(&self, out: &mut Vec<u8>) {
        put_u32(out, self.len);
        put_u32(out, self.opcode);
        put_u64(out, self.unique);
        put_u64(out, self.nodeid);
        put_u32(out, self.uid);
        put_u32(out, self.gid);
        put_u32(out, self.pid);
        put_u32(out, self.padding);
        assert(out@ =~= old(out)@ + self.encoded());
    }
}

impl InHeader {
    /// Encoding undoes decoding: no bit of an image is lost.
    pub proof fn lemma_decoded(bytes: Seq<u8>)
        requires
            bytes.len() == Self::wire_len(),
        ensures
            Self::decoded(bytes).encoded() == bytes,
    {
        lemma_u32_le(bytes.subrange(0, 4));
        lemma_u32_le(bytes.subrange(4, 8));
        lemma_u64_le(bytes.subrange(8, 16));
        lemma_u64_le(bytes.subrange(16, 24));
        lemma_u32_le(bytes.subrange(24, 28));
        lemma_u32_le(bytes.subrange(28, 32));
        lemma_u32_le(bytes.subrange(32, 36));
        lemma_u32_le(bytes.subrange(36, 40));
        assert(Self::decoded(bytes).encoded() =~= bytes);
    }
}

/// The header that starts every reply and every notification.
#[derive(Clone, Copy, Debug, PartialEq, Eq, Structural)]
pub struct OutHeader {
    /// The length of the whole frame, this header included.
    pub len: u32,
    /// Zero, a negated error number, or the code of a notification.
    pub error: i32,
    /// The number of the request that is answered; zero in a notification.
    pub unique: u64,
}

impl Wire for OutHeader {
    open spec fn wire_len() -> nat {
        16
    }

    open spec fn decoded(bytes: Seq<u8>) -> Self {
        OutHeader {
            len: u32_at(bytes, 0),
            error: i32_of(u32_at(bytes, 4)),
            unique: u64_at(bytes, 8),
        }
    }

    open spec fn encoded(self) -> Seq<u8> {
        u32_bytes(self.len) + u32_bytes(u32_of(self.error)) + u64_bytes(self.unique)
    }

    proof fn lemma_encoded(self) {
        let e = self.encoded();
        lemma_u32_bytes(self.len);
        lemma_u32_bytes(u32_of(self.error));
        lemma_u64_bytes(self.unique);
        assert(e.subrange(0, 4) =~= u32_bytes(self.len));
        assert(e.subrange(4, 8) =~= u32_bytes(u32_of(self.error)));
        assert(e.subrange(8, 16) =~= u64_bytes(self.unique));
    }

    fn size() -> usize {
        16
    }

    fn decode(buf: &[u8]) -> Self {
        OutHeader {
            len: get_u32(buf, 0),
            error: get_i32(buf, 4),
            unique: get_u64(buf, 8),
        }
    }

    fn encode(&self, out: &mut Vec<u8>) {
        put_u32(out, self.len);
        put_i32(out, self.error);
        put_u64(out, self.unique);
        assert(out@ =~= old(out)@ + self.encoded());
    }
}

/// What the kernel offers when it opens a connection.
#[derive(Clone, Copy, Debug, PartialEq, Eq, Structural)]
pub struct InitIn {
    pub major: u32,
    pub minor: u32,
    pub max_readahead: u32,
    pub flags: u32,
}

impl Wire for InitIn {
    open spec fn wire_len() -> nat {
        16
    }

    open spec fn decoded(bytes: Seq<u8>) -> Self {
        InitIn {
            major: u32_at(bytes, 0),
            minor: u32_at(bytes, 4),
            max_readahead: u32_at(bytes, 8),
            flags: u32_at(bytes, 12),
        }
    }

    open spec fn encoded(self) -> Seq<u8> {
        u32_bytes(self.major) + u32_bytes(self.minor) + u32_bytes(self.max_readahead)
            + u32_bytes(self.flags)
    }

    proof fn lemma_encoded(self) {
        let e = self.encoded();
        lemma_u32_bytes(self.major);
        lemma_u32_bytes(self.minor);
        lemma_u32_bytes(self.max_readahead);
        lemma_u32_bytes(self.flags);
        assert(e.subrange(0, 4) =~= u32_bytes(self.major));
        assert(e.subrange(4, 8) =~= u32_bytes(self.minor));
        assert(e.subrange(8, 12) =~= u32_bytes(self.max_readahead));
        assert(e.subrange(12, 16) =~= u32_bytes(self.flags));
    }

    fn size() -> usize {
        16
    }

    fn decode(buf: &[u8]) -> Self {
        InitIn {
            major: get_u32(buf, 0),
            minor: get_u32(buf, 4),
            max_readahead: get_u32(buf, 8),
            flags: get_u32(buf, 12),
        }
    }

    fn encode(&self, out: &mut Vec<u8>) {
        put_u32(out, self.major);
        put_u32(out, self.minor);
        put_u32(out, self.max_readahead);
        put_u32(out, self.flags);
        assert(out@ =~= old(out)@ + self.encoded());
    }
}

/// What the server answers when the kernel opens a connection.
///
/// The image ends in words that the protocol keeps for later use; they are sent as
/// zeros.
#[derive(Clone, Copy, Debug, PartialEq, Eq, Structural)]
pub struct InitOut {
    pub major: u32,
    pub minor: u32,
    pub max_readahead: u32,
    pub flags: u32,
    pub max_background: u16,
    pub congestion_threshold: u16,
    pub max_write: u32,
    pub time_gran: u32,
    pub max_pages: u16,
}

impl Wire for InitOut {
    open spec fn wire_len() -> nat {
        64
    }

    open spec fn decoded(bytes: Seq<u8>) -> Self {
        InitOut {
            major: u32_at(bytes, 0),
            minor: u32_at(bytes, 4),
            max_readahead: u32_at(bytes, 8),
            flags: u32_at(bytes, 12),
            max_background: u16_at(bytes, 16),
            congestion_threshold: u16_at(bytes, 18),
            max_write: u32_at(bytes, 20),
            time_gran: u32_at(bytes, 24),
            max_pages: u16_at(bytes, 28),
        }
    }

    open spec fn encoded(self) -> Seq<u8> {
        u32_bytes(self.major) + u32_bytes(self.minor) + u32_bytes(self.max_readahead)
            + u32_bytes(self.flags) + u16_bytes(self.max_background)
            + u16_bytes(self.congestion_threshold) + u32_bytes(self.max_write)
            + u32_bytes(self.time_gran) + u16_bytes(self.max_pages) + zeros(2) + zeros(32)
    }

    proof fn lemma_encoded(self) {
        let e = self.encoded();
        lemma_u32_bytes(self.major);
        lemma_u32_bytes(self.minor);
        lemma_u32_bytes(self.max_readahead);
        lemma_u32_bytes(self.flags);
        lemma_u16_bytes(self.max_background);
        lemma_u16_bytes(self.congestion_threshold);
        lemma_u32_bytes(self.max_write);
        lemma_u32_bytes(self.time_gran);
        lemma_u16_bytes(self.max_pages);
        assert(e.subrange(0, 4) =~= u32_bytes(self.major));
        assert(e.subrange(4, 8) =~= u32_bytes(self.minor));
        assert(e.subrange(8, 12) =~= u32_bytes(self.max_readahead));
        assert(e.subrange(12, 16) =~= u32_bytes(self.flags));
        assert(e.subrange(16, 18) =~= u16_bytes(self.max_background));
        assert(e.subrange(18, 20) =~= u16_bytes(self.congestion_threshold));
        assert(e.subrange(20, 24) =~= u32_bytes(self.max_write));
        assert(e.subrange(24, 28) =~= u32_bytes(self.time_gran));
        assert(e.subrange(28, 30) =~= u16_bytes(self.max_pages));
    }

    fn size() -> usize {
        64
    }

    fn decode(buf: &[u8]) -> Self {
        InitOut {
            major: get_u32(buf, 0),
            minor: get_u32(buf, 4),
            max_readahead: get_u32(buf, 8),
            flags: get_u32(buf, 12),
            max_background: get_u16(buf, 16),
            congestion_threshold: get_u16(buf, 18),
            max_write: get_u32(buf, 20),
            time_gran: get_u32(buf, 24),
            max_pages: get_u16(buf, 28),
        }
    }

    fn encode(&self, out: &mut Vec<u8>) {
        put_u32(out, self.major);
        put_u32(out, self.minor);
        put_u32(out, self.max_readahead);
        put_u32(out, self.flags);
        put_u16(out, self.max_background);
        put_u16(out, self.congestion_threshold);
        put_u32(out, self.max_write);
        put_u32(out, self.time_gran);
        put_u16(out, self.max_pages);
        put_zeros(out, 2);
        put_zeros(out, 32);
        assert(out@ =~= old(out)@ + self.encoded());
    }
}

/// An answer that names the version of the protocol that this library speaks
/// and leaves all else at zero.
pub open spec fn unset_init_out() -> InitOut {
    InitOut {
        major: FUSE_KERNEL_VERSION,
        minor: FUSE_KERNEL_MINOR_VERSION,
        max_readahead: 0,
        flags: 0,
        max_background: 0,
        congestion_threshold: 0,
        max_write: 0,
        time_gran: 0,
        max_pages: 0,
    }
}

impl Default for InitOut {
    fn default() -> (r: Self)
        ensures
            r == unset_init_out(),
    {
        InitOut {
            major: FUSE_KERNEL_VERSION,
            minor: FUSE_KERNEL_MINOR_VERSION,
            max_readahead: 0,
            flags: 0,
            max_background: 0,
            congestion_threshold: 0,
            max_write: 0,
            time_gran: 0,
            max_pages: 0,
        }
    }
}

} // verus!
