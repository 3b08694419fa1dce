//! The fixed part of each request, one struct for each layout of the protocol.

use crate::wire::{
    get_u32, get_u64, lemma_u32_bytes, lemma_u64_bytes, put_u32, put_u64, u32_at, u32_bytes, u64_at,
    u64_bytes, Wire,
};
use vstd::prelude::*;
use vstd::slice::slice_subrange;

verus! {

/// The arguments of `FUSE_FORGET`.
#[derive(Clone, Copy, Debug, PartialEq, Eq, Structural)]
pub struct ForgetIn {
    pub nlookup: u64,
}

impl Wire for ForgetIn {
    open spec fn wire_len() -> nat {
        8
    }

    open spec fn decoded(bytes: Seq<u8>) -> Self {
        ForgetIn {
            nlookup: u64_at(bytes, 0),
        }
    }

    open spec fn encoded(self) -> Seq<u8> {
        u64_bytes(self.nlookup)
    }

    proof fn lemma_encoded(self) {
        lemma_u64_bytes(self.nlookup);
        assert(self.encoded().subrange(0, 8) =~= self.encoded());
    }

    fn size() -> usize {
        8
    }

    fn decode(buf: &[u8]) -> Self {
        ForgetIn {
            nlookup: get_u64(buf, 0),
        }
    }

    fn encode(&self, out: &mut Vec<u8>) {
        put_u64(out, self.nlookup);
        assert(out@ =~= old(out)@ + self.encoded());
    }
}

/// The arguments of `FUSE_GETATTR`.
#[derive(Clone, Copy, Debug, PartialEq, Eq, Structural)]
pub struct GetattrIn {
    pub getattr_flags: u32,
    pub dummy: u32,
    pub fh: u64,
}

impl Wire for GetattrIn {
    open spec fn wire_len() -> nat {
        16
    }

    open spec fn decoded(bytes: Seq<u8>) -> Self {
        GetattrIn {
            getattr_flags: u32_at(bytes, 0),
            dummy: u32_at(bytes, 4),
            fh: u64_at(bytes, 8),
        }
    }

    open spec fn encoded(self) -> Seq<u8> {
        u32_bytes(self.getattr_flags) + u32_bytes(self.dummy) + u64_bytes(self.fh)
    }

    proof fn lemma_encoded(self) {
        let e = self.encoded();
        lemma_u32_bytes(self.getattr_flags);
        lemma_u32_bytes(self.dummy);
        lemma_u64_bytes(self.fh);
        assert(e.subrange(0, 4) =~= u32_bytes(self.getattr_flags));
        assert(e.subrange(4, 8) =~= u32_bytes(self.dummy));
        assert(e.subrange(8, 16) =~= u64_bytes(self.fh));
    }

    fn size() -> usize {
        16
    }

    fn decode(buf: &[u8]) -> Self {
        GetattrIn {
            getattr_flags: get_u32(buf, 0),
            dummy: get_u32(buf, 4),
            fh: get_u64(buf, 8),
        }
    }

    fn encode(&self, out: &mut Vec<u8>) {
        put_u32(out, self.getattr_flags);
        put_u32(out, self.dummy);
        put_u64(out, self.fh);
        assert(out@ =~= old(out)@ + self.encoded());
    }
}

/// The arguments of `FUSE_SETATTR`.
#[derive(Clone, Copy, Debug, PartialEq, Eq, Structural)]
pub struct SetattrIn {
    /// Which of the fields below are to be set.
    pub valid: u32,
    pub padding: u32,
    pub fh: u64,
    pub size: u64,
    pub lock_owner: u64,
    pub atime: u64,
    pub mtime: u64,
    pub ctime: u64,
    pub atimensec: u32,
    pub mtimensec: u32,
    pub ctimensec: u32,
    pub mode: u32,
    pub unused4: u32,
    pub uid: u32,
    pub gid: u32,
    pub unused5: u32,
}

impl Wire for SetattrIn {
    open spec fn wire_len() -> nat {
        88
    }

    open spec fn decoded(bytes: Seq<u8>) -> Self {
        SetattrIn {
            valid: u32_at(bytes, 0),
            padding: u32_at(bytes, 4),
            fh: u64_at(bytes, 8),
            size: u64_at(bytes, 16),
            lock_owner: u64_at(bytes, 24),
            atime: u64_at(bytes, 32),
            mtime: u64_at(bytes, 40),
            ctime: u64_at(bytes, 48),
            atimensec: u32_at(bytes, 56),
            mtimensec: u32_at(bytes, 60),
            ctimensec: u32_at(bytes, 64),
            mode: u32_at(bytes, 68),
            unused4: u32_at(bytes, 72),
            uid: u32_at(bytes, 76),
            gid: u32_at(bytes, 80),
            unused5: u32_at(bytes, 84),
        }
    }

    open spec fn encoded(self) -> Seq<u8> {
        u32_bytes(self.valid) + u32_bytes(self.padding) + u64_bytes(self.fh) + u64_bytes(self.size)
            + u64_bytes(self.lock_owner) + u64_bytes(self.atime) + u64_bytes(self.mtime)
            + u64_bytes(self.ctime) + u32_bytes(self.atimensec) + u32_bytes(self.mtimensec)
            + u32_bytes(self.ctimensec) + u32_bytes(self.mode) + u32_bytes(self.unused4)
            + u32_bytes(self.uid) + u32_bytes(self.gid) + u32_bytes(self.unused5)
    }

    proof fn lemma_encoded(self) {
        let e = self.encoded();
        lemma_u32_bytes(self.valid);
        lemma_u32_bytes(self.padding);
        lemma_u64_bytes(self.fh);
        lemma_u64_bytes(self.size);
        lemma_u64_bytes(self.lock_owner);
        lemma_u64_bytes(self.atime);
        lemma_u64_bytes(self.mtime);
        lemma_u64_bytes(self.ctime);
        lemma_u32_bytes(self.atimensec);
        lemma_u32_bytes(self.mtimensec);
        lemma_u32_bytes(self.ctimensec);
        lemma_u32_bytes(self.mode);
        lemma_u32_bytes(self.unused4);
        lemma_u32_bytes(self.uid);
        lemma_u32_bytes(self.gid);
        lemma_u32_bytes(self.unused5);
        assert(e.subrange(0, 4) =~= u32_bytes(self.valid));
        assert(e.subrange(4, 8) =~= u32_bytes(self.padding));
        assert(e.subrange(8, 16) =~= u64_bytes(self.fh));
        assert(e.subrange(16, 24) =~= u64_bytes(self.size));
        assert(e.subrange(24, 32) =~= u64_bytes(self.lock_owner));
        assert(e.subrange(32, 40) =~= u64_bytes(self.atime));
        assert(e.subrange(40, 48) =~= u64_bytes(self.mtime));
        assert(e.subrange(48, 56) =~= u64_bytes(self.ctime));
        assert(e.subrange(56, 60) =~= u32_bytes(self.atimensec));
        assert(e.subrange(60, 64) =~= u32_bytes(self.mtimensec));
        assert(e.subrange(64, 68) =~= u32_bytes(self.ctimensec));
        assert(e.subrange(68, 72) =~= u32_bytes(self.mode));
        assert(e.subrange(72, 76) =~= u32_bytes(self.unused4));
        assert(e.subrange(76, 80) =~= u32_bytes(self.uid));
        assert(e.subrange(80, 84) =~= u32_bytes(self.gid));
        assert(e.subrange(84, 88) =~= u32_bytes(self.unused5));
    }

    fn size() -> usize {
        88
    }

    fn decode(buf: &[u8]) -> Self {
        SetattrIn {
            valid: get_u32(buf, 0),
            padding: get_u32(buf, 4),
            fh: get_u64(buf, 8),
            size: get_u64(buf, 16),
            lock_owner: get_u64(buf, 24),
            atime: get_u64(buf, 32),
            mtime: get_u64(buf, 40),
            ctime: get_u64(buf, 48),
            atimensec: get_u32(buf, 56),
            mtimensec: get_u32(buf, 60),
            ctimensec: get_u32(buf, 64),
            mode: get_u32(buf, 68),
            unused4: get_u32(buf, 72),
            uid: get_u32(buf, 76),
            gid: get_u32(buf, 80),
            unused5: get_u32(buf, 84),
        }
    }

    fn encode(&self, out: &mut Vec<u8>) {
        put_u32(out, self.valid);
        put_u32(out, self.padding);
        put_u64(out, self.fh);
        put_u64(out, self.size);
        put_u64(out, self.lock_owner);
        put_u64(out, self.atime);
        put_u64(out, self.mtime);
        put_u64(out, self.ctime);
        put_u32(out, self.atimensec);
        put_u32(out, self.mtimensec);
        put_u32(out, self.ctimensec);
        put_u32(out, self.mode);
        put_u32(out, self.unused4);
        put_u32(out, self.uid);
        put_u32(out, self.gid);
        put_u32(out, self.unused5);
        assert(out@ =~= old(out)@ + self.encoded());
    }
}

/// The arguments of `FUSE_MKNOD`; the name follows.
#[derive(Clone, Copy, Debug, PartialEq, Eq, Structural)]
pub struct MknodIn {
    pub mode: u32,
    pub rdev: u32,
    pub umask: u32,
    pub padding: u32,
}

impl Wire for MknodIn {
    open spec fn wire_len() -> nat {
        16
    }

    open spec fn decoded(bytes: Seq<u8>) -> Self {
        MknodIn {
            mode: u32_at(bytes, 0),
            rdev: u32_at(bytes, 4),
            umask: u32_at(bytes, 8),
            padding: u32_at(bytes, 12),
        }
    }

    open spec fn encoded(self) -> Seq<u8> {
        u32_bytes(self.mode) + u32_bytes(self.rdev) + u32_bytes(self.umask)
            + u32_bytes(self.padding)
    }

    proof fn lemma_encoded(self) {
        let e = self.encoded();
        lemma_u32_bytes(self.mode);
        lemma_u32_bytes(self.rdev);
        lemma_u32_bytes(self.umask);
        lemma_u32_bytes(self.padding);
        assert(e.subrange(0, 4) =~= u32_bytes(self.mode));
        assert(e.subrange(4, 8) =~= u32_bytes(self.rdev));
        assert(e.subrange(8, 12) =~= u32_bytes(self.umask));
        assert(e.subrange(12, 16) =~= u32_bytes(self.padding));
    }

    fn size() -> usize {
        16
    }

    fn decode(buf: &[u8]) -> Self {
        MknodIn {
            mode: get_u32(buf, 0),
            rdev: get_u32(buf, 4),
            umask: get_u32(buf, 8),
            padding: get_u32(buf, 12),
        }
    }

    fn encode(&self, out: &mut Vec<u8>) {
        put_u32(out, self.mode);
        put_u32(out, self.rdev);
        put_u32(out, self.umask);
        put_u32(out, self.padding);
        assert(out@ =~= old(out)@ + self.encoded());
    }
}

/// The arguments of `FUSE_MKDIR`; the name follows.
#[derive(Clone, Copy, Debug, PartialEq, Eq, Structural)]
pub struct MkdirIn {
    pub mode: u32,
    pub umask: u32,
}

impl Wire for MkdirIn {
    open spec fn wire_len() -> nat {
        8
    }

    open spec fn decoded(bytes: Seq<u8>) -> Self {
        MkdirIn {
            mode: u32_at(bytes, 0),
            umask: u32_at(bytes, 4),
        }
    }

    open spec fn encoded(self) -> Seq<u8> {
        u32_bytes(self.mode) + u32_bytes(self.umask)
    }

    proof fn lemma_encoded(self) {
        let e = self.encoded();
        lemma_u32_bytes(self.mode);
        lemma_u32_bytes(self.umask);
        assert(e.subrange(0, 4) =~= u32_bytes(self.mode));
        assert(e.subrange(4, 8) =~= u32_bytes(self.umask));
    }

    fn size() -> usize {
        8
    }

    fn decode(buf: &[u8]) -> Self {
        MkdirIn {
            mode: get_u32(buf, 0),
            umask: get_u32(buf, 4),
        }
    }

    fn encode(&self, out: &mut Vec<u8>) {
        put_u32(out, self.mode);
        put_u32(out, self.umask);
        assert(out@ =~= old(out)@ + self.encoded());
    }
}

/// The arguments of `FUSE_RENAME`; the two names follow.
#[derive(Clone, Copy, Debug, PartialEq, Eq, Structural)]
pub struct RenameIn {
    pub newdir: u64,
}

impl Wire for RenameIn {
    open spec fn wire_len() -> nat {
        8
    }

    open spec fn decoded(bytes: Seq<u8>) -> Self {
        RenameIn {
            newdir: u64_at(bytes, 0),
        }
    }

    open spec fn encoded(self) -> Seq<u8> {
        u64_bytes(self.newdir)
    }

    proof fn lemma_encoded(self) {
        lemma_u64_bytes(self.newdir);
        assert(self.encoded().subrange(0, 8) =~= self.encoded());
    }

    fn size() -> usize {
        8
    }

    fn decode(buf: &[u8]) -> Self {
        RenameIn {
            newdir: get_u64(buf, 0),
        }
    }

    fn encode(&self, out: &mut Vec<u8>) {
        put_u64(out, self.newdir);
        assert(out@ =~= old(out)@ + self.encoded());
    }
}

/// The arguments of `FUSE_RENAME2`; the two names follow.
#[derive(Clone, Copy, Debug, PartialEq, Eq, Structural)]
pub struct Rename2In {
    pub newdir: u64,
    pub flags: u32,
    pub padding: u32,
}

impl Wire for Rename2In {
    open spec fn wire_len() -> nat {
        16
    }

    open spec fn decoded(bytes: Seq<u8>) -> Self {
        Rename2In {
            newdir: u64_at(bytes, 0),
            flags: u32_at(bytes, 8),
            padding: u32_at(bytes, 12),
        }
    }

    open spec fn encoded(self) -> Seq<u8> {
        u64_bytes(self.newdir) + u32_bytes(self.flags) + u32_bytes(self.padding)
    }

    proof fn lemma_encoded(self) {
        let e = self.encoded();
        lemma_u64_bytes(self.newdir);
        lemma_u32_bytes(self.flags);
        lemma_u32_bytes(self.padding);
        assert(e.subrange(0, 8) =~= u64_bytes(self.newdir));
        assert(e.subrange(8, 12) =~= u32_bytes(self.flags));
        assert(e.subrange(12, 16) =~= u32_bytes(self.padding));
    }

    fn size() -> usize {
        16
    }

    fn decode(buf: &[u8]) -> Self {
        Rename2In {
            newdir: get_u64(buf, 0),
            flags: get_u32(buf, 8),
            padding: get_u32(buf, 12),
        }
    }

    fn encode(&self, out: &mut Vec<u8>) {
        put_u64(out, self.newdir);
        put_u32(out, self.flags);
        put_u32(out, self.padding);
        assert(out@ =~= old(out)@ + self.encoded());
    }
}

/// The arguments of `FUSE_LINK`; the new name follows.
#[derive(Clone, Copy, Debug, PartialEq, Eq, Structural)]
pub struct LinkIn {
    pub oldnodeid: u64,
}

impl Wire for LinkIn {
    open spec fn wire_len() -> nat {
        8
    }

    open spec fn decoded(bytes: Seq<u8>) -> Self {
        LinkIn {
            oldnodeid: u64_at(bytes, 0),
        }
    }

    open spec fn encoded(self) -> Seq<u8> {
        u64_bytes(self.oldnodeid)
    }

    proof fn lemma_encoded(self) {
        lemma_u64_bytes(self.oldnodeid);
        assert(self.encoded().subrange(0, 8) =~= self.encoded());
    }

    fn size() -> usize {
        8
    }

    fn decode(buf: &[u8]) -> Self {
        LinkIn {
            oldnodeid: get_u64(buf, 0),
        }
    }

    fn encode(&self, out: &mut Vec<u8>) {
        put_u64(out, self.oldnodeid);
        assert(out@ =~= old(out)@ + self.encoded());
    }
}

/// The arguments of `FUSE_OPEN` and `FUSE_OPENDIR`.
#[derive(Clone, Copy, Debug, PartialEq, Eq, Structural)]
pub struct OpenIn {
    pub flags: u32,
    pub unused: u32,
}

impl Wire for OpenIn {
    open spec fn wire_len() -> nat {
        8
    }

    open spec fn decoded(bytes: Seq<u8>) -> Self {
        OpenIn {
            flags: u32_at(bytes, 0),
            unused: u32_at(bytes, 4),
        }
    }

    open spec fn encoded(self) -> Seq<u8> {
        u32_bytes(self.flags) + u32_bytes(self.unused)
    }

    proof fn lemma_encoded(self) {
        let e = self.encoded();
        lemma_u32_bytes(self.flags);
        lemma_u32_bytes(self.unused);
        assert(e.subrange(0, 4) =~= u32_bytes(self.flags));
        assert(e.subrange(4, 8) =~= u32_bytes(self.unused));
    }

    fn size() -> usize {
        8
    }

    fn decode(buf: &[u8]) -> Self {
        OpenIn {
            flags: get_u32(buf, 0),
            unused: get_u32(buf, 4),
        }
    }

    fn encode(&self, out: &mut Vec<u8>) {
        put_u32(out, self.flags);
        put_u32(out, self.unused);
        assert(out@ =~= old(out)@ + self.encoded());
    }
}

/// The arguments of `FUSE_READ`, `FUSE_READDIR` and `FUSE_READDIRPLUS`.
#[derive(Clone, Copy, Debug, PartialEq, Eq, Structural)]
pub struct ReadIn {
    pub fh: u64,
    pub offset: u64,
    pub size: u32,
    pub read_flags: u32,
    pub lock_owner: u64,
    pub flags: u32,
    pub padding: u32,
}

impl Wire for ReadIn {
    open spec fn wire_len() -> nat {
        40
    }

    open spec fn decoded(bytes: Seq<u8>) -> Self {
        ReadIn {
            fh: u64_at(bytes, 0),
            offset: u64_at(bytes, 8),
            size: u32_at(bytes, 16),
            read_flags: u32_at(bytes, 20),
            lock_owner: u64_at(bytes, 24),
            flags: u32_at(bytes, 32),
            padding: u32_at(bytes, 36),
        }
    }

    open spec fn encoded(self) -> Seq<u8> {
        u64_bytes(self.fh) + u64_bytes(self.offset) + u32_bytes(self.size)
            + u32_bytes(self.read_flags) + u64_bytes(self.lock_owner) + u32_bytes(self.flags)
            + u32_bytes(self.padding)
    }

    proof fn lemma_encoded(self) {
        let e = self.encoded();
        lemma_u64_bytes(self.fh);
        lemma_u64_bytes(self.offset);
        lemma_u32_bytes(self.size);
        lemma_u32_bytes(self.read_flags);
        lemma_u64_bytes(self.lock_owner);
        lemma_u32_bytes(self.flags);
        lemma_u32_bytes(self.padding);
        assert(e.subrange(0, 8) =~= u64_bytes(self.fh));
        assert(e.subrange(8, 16) =~= u64_bytes(self.offset));
        assert(e.subrange(16, 20) =~= u32_bytes(self.size));
        assert(e.subrange(20, 24) =~= u32_bytes(self.read_flags));
        assert(e.subrange(24, 32) =~= u64_bytes(self.lock_owner));
        assert(e.subrange(32, 36) =~= u32_bytes(self.flags));
        assert(e.subrange(36, 40) =~= u32_bytes(self.padding));
    }

    fn size() -> usize {
        40
    }

    fn decode(buf: &[u8]) -> Self {
        ReadIn {
            fh: get_u64(buf, 0),
            offset: get_u64(buf, 8),
            size: get_u32(buf, 16),
            read_flags: get_u32(buf, 20),
            lock_owner: get_u64(buf, 24),
            flags: get_u32(buf, 32),
            padding: get_u32(buf, 36),
        }
    }

    fn encode(&self, out: &mut Vec<u8>) {
        put_u64(out, self.fh);
        put_u64(out, self.offset);
        put_u32(out, self.size);
        put_u32(out, self.read_flags);
        put_u64(out, self.lock_owner);
        put_u32(out, self.flags);
        put_u32(out, self.padding);
        assert(out@ =~= old(out)@ + self.encoded());
    }
}

/// The arguments of `FUSE_WRITE`; `size` bytes of data follow.
#[derive(Clone, Copy, Debug, PartialEq, Eq, Structural)]
pub struct WriteIn {
    pub fh: u64,
    pub offset: u64,
    /// The length of the data that follows.
    pub size: u32,
    pub write_flags: u32,
    pub lock_owner: u64,
    pub flags: u32,
    pub padding: u32,
}

impl Wire for WriteIn {
    open spec fn wire_len() -> nat {
        40
    }

    open spec fn decoded(bytes: Seq<u8>) -> Self {
        WriteIn {
            fh: u64_at(bytes, 0),
            offset: u64_at(bytes, 8),
            size: u32_at(bytes, 16),
            write_flags: u32_at(bytes, 20),
            lock_owner: u64_at(bytes, 24),
            flags: u32_at(bytes, 32),
            padding: u32_at(bytes, 36),
        }
    }

    open spec fn encoded(self) -> Seq<u8> {
        u64_bytes(self.fh) + u64_bytes(self.offset) + u32_bytes(self.size)
            + u32_bytes(self.write_flags) + u64_bytes(self.lock_owner) + u32_bytes(self.flags)
            + u32_bytes(self.padding)
    }

    proof fn lemma_encoded(self) {
        let e = self.encoded();
        lemma_u64_bytes(self.fh);
        lemma_u64_bytes(self.offset);
        lemma_u32_bytes(self.size);
        lemma_u32_bytes(self.write_flags);
        lemma_u64_bytes(self.lock_owner);
        lemma_u32_bytes(self.flags);
        lemma_u32_bytes(self.padding);
        assert(e.subrange(0, 8) =~= u64_bytes(self.fh));
        assert(e.subrange(8, 16) =~= u64_bytes(self.offset));
        assert(e.subrange(16, 20) =~= u32_bytes(self.size));
        assert(e.subrange(20, 24) =~= u32_bytes(self.write_flags));
        assert(e.subrange(24, 32) =~= u64_bytes(self.lock_owner));
        assert(e.subrange(32, 36) =~= u32_bytes(self.flags));
        assert(e.subrange(36, 40) =~= u32_bytes(self.padding));
    }

    fn size() -> usize {
        40
    }

    fn decode(buf: &[u8]) -> Self {
        WriteIn {
            fh: get_u64(buf, 0),
            offset: get_u64(buf, 8),
            size: get_u32(buf, 16),
            write_flags: get_u32(buf, 20),
            lock_owner: get_u64(buf, 24),
            flags: get_u32(buf, 32),
            padding: get_u32(buf, 36),
        }
    }

    fn encode(&self, out: &mut Vec<u8>) {
        put_u64(out, self.fh);
        put_u64(out, self.offset);
        put_u32(out, self.size);
        put_u32(out, self.write_flags);
        put_u64(out, self.lock_owner);
        put_u32(out, self.flags);
        put_u32(out, self.padding);
        assert(out@ =~= old(out)@ + self.encoded());
    }
}

/// The arguments of `FUSE_FLUSH`.
#[derive(Clone, Copy, Debug, PartialEq, Eq, Structural)]
pub struct FlushIn {
    pub fh: u64,
    pub unused: u32,
    pub padding: u32,
    pub lock_owner: u64,
}

impl Wire for FlushIn {
    open spec fn wire_len() -> nat {
        24
    }

    open spec fn decoded(bytes: Seq<u8>) -> Self {
        FlushIn {
            fh: u64_at(bytes, 0),
            unused: u32_at(bytes, 8),
            padding: u32_at(bytes, 12),
            lock_owner: u64_at(bytes, 16),
        }
    }

    open spec fn encoded(self) -> Seq<u8> {
        u64_bytes(self.fh) + u32_bytes(self.unused) + u32_bytes(self.padding)
            + u64_bytes(self.lock_owner)
    }

    proof fn lemma_encoded(self) {
        let e = self.encoded();
        lemma_u64_bytes(self.fh);
        lemma_u32_bytes(self.unused);
        lemma_u32_bytes(self.padding);
        lemma_u64_bytes(self.lock_owner);
        assert(e.subrange(0, 8) =~= u64_bytes(self.fh));
        assert(e.subrange(8, 12) =~= u32_bytes(self.unused));
        assert(e.subrange(12, 16) =~= u32_bytes(self.padding));
        assert(e.subrange(16, 24) =~= u64_bytes(self.lock_owner));
    }

    fn size() -> usize {
        24
    }

    fn decode(buf: &[u8]) -> Self {
        FlushIn {
            fh: get_u64(buf, 0),
            unused: get_u32(buf, 8),
            padding: get_u32(buf, 12),
            lock_owner: get_u64(buf, 16),
        }
    }

    fn encode(&self, out: &mut Vec<u8>) {
        put_u64(out, self.fh);
        put_u32(out, self.unused);
        put_u32(out, self.padding);
        put_u64(out, self.lock_owner);
        assert(out@ =~= old(out)@ + self.encoded());
    }
}

/// The arguments of `FUSE_RELEASE` and `FUSE_RELEASEDIR`.
#[derive(Clone, Copy, Debug, PartialEq, Eq, Structural)]
pub struct ReleaseIn {
    pub fh: u64,
    pub flags: u32,
    pub release_flags: u32,
    pub lock_owner: u64,
}

impl Wire for ReleaseIn {
    open spec fn wire_len() -> nat {
        24
    }

    open spec fn decoded(bytes: Seq<u8>) -> Self {
        ReleaseIn {
            fh: u64_at(bytes, 0),
            flags: u32_at(bytes, 8),
            release_flags: u32_at(bytes, 12),
            lock_owner: u64_at(bytes, 16),
        }
    }

    open spec fn encoded(self) -> Seq<u8> {
        u64_bytes(self.fh) + u32_bytes(self.flags) + u32_bytes(self.release_flags)
            + u64_bytes(self.lock_owner)
    }

    proof fn lemma_encoded(self) {
        let e = self.encoded();
        lemma_u64_bytes(self.fh);
        lemma_u32_bytes(self.flags);
        lemma_u32_bytes(self.release_flags);
        lemma_u64_bytes(self.lock_owner);
        assert(e.subrange(0, 8) =~= u64_bytes(self.fh));
        assert(e.subrange(8, 12) =~= u32_bytes(self.flags));
        assert(e.subrange(12, 16) =~= u32_bytes(self.release_flags));
        assert(e.subrange(16, 24) =~= u64_bytes(self.lock_owner));
    }

    fn size() -> usize {
        24
    }

    fn decode(buf: &[u8]) -> Self {
        ReleaseIn {
            fh: get_u64(buf, 0),
            flags: get_u32(buf, 8),
            release_flags: get_u32(buf, 12),
            lock_owner: get_u64(buf, 16),
        }
    }

    fn encode(&self, out: &mut Vec<u8>) {
        put_u64(out, self.fh);
        put_u32(out, self.flags);
        put_u32(out, self.release_flags);
        put_u64(out, self.lock_owner);
        assert(out@ =~= old(out)@ + self.encoded());
    }
}

/// The arguments of `FUSE_FSYNC` and `FUSE_FSYNCDIR`.
#[derive(Clone, Copy, Debug, PartialEq, Eq, Structural)]
pub struct FsyncIn {
    pub fh: u64,
    pub fsync_flags: u32,
    pub padding: u32,
}

impl Wire for FsyncIn {
    open spec fn wire_len() -> nat {
        16
    }

    open spec fn decoded(bytes: Seq<u8>) -> Self {
        FsyncIn {
            fh: u64_at(bytes, 0),
            fsync_flags: u32_at(bytes, 8),
            padding: u32_at(bytes, 12),
        }
    }

    open spec fn encoded(self) -> Seq<u8> {
        u64_bytes(self.fh) + u32_bytes(self.fsync_flags) + u32_bytes(self.padding)
    }

    proof fn lemma_encoded(self) {
        let e = self.encoded();
        lemma_u64_bytes(self.fh);
        lemma_u32_bytes(self.fsync_flags);
        lemma_u32_bytes(self.padding);
        assert(e.subrange(0, 8) =~= u64_bytes(self.fh));
        assert(e.subrange(8, 12) =~= u32_bytes(self.fsync_flags));
        assert(e.subrange(12, 16) =~= u32_bytes(self.padding));
    }

    fn size() -> usize {
        16
    }

    fn decode(buf: &[u8]) -> Self {
        FsyncIn {
            fh: get_u64(buf, 0),
            fsync_flags: get_u32(buf, 8),
            padding: get_u32(buf, 12),
        }
    }

    fn encode(&self, out: &mut Vec<u8>) {
        put_u64(out, self.fh);
        put_u32(out, self.fsync_flags);
        put_u32(out, self.padding);
        assert(out@ =~= old(out)@ + self.encoded());
    }
}

/// The arguments of `FUSE_GETXATTR`, where the name follows, and of `FUSE_LISTXATTR`.
#[derive(Clone, Copy, Debug, PartialEq, Eq, Structural)]
pub struct GetxattrIn {
    pub size: u32,
    pub padding: u32,
}

impl Wire for GetxattrIn {
    open spec fn wire_len() -> nat {
        8
    }

    open spec fn decoded(bytes: Seq<u8>) -> Self {
        GetxattrIn {
            size: u32_at(bytes, 0),
            padding: u32_at(bytes, 4),
        }
    }

    open spec fn encoded(self) -> Seq<u8> {
        u32_bytes(self.size) + u32_bytes(self.padding)
    }

    proof fn lemma_encoded(self) {
        let e = self.encoded();
        lemma_u32_bytes(self.size);
        lemma_u32_bytes(self.padding);
        assert(e.subrange(0, 4) =~= u32_bytes(self.size));
        assert(e.subrange(4, 8) =~= u32_bytes(self.padding));
    }

    fn size() -> usize {
        8
    }

    fn decode(buf: &[u8]) -> Self {
        GetxattrIn {
            size: get_u32(buf, 0),
            padding: get_u32(buf, 4),
        }
    }

    fn encode(&self, out: &mut Vec<u8>) {
        put_u32(out, self.size);
        put_u32(out, self.padding);
        assert(out@ =~= old(out)@ + self.encoded());
    }
}

/// The arguments of `FUSE_SETXATTR`; the name and `size` bytes of value follow.
#[derive(Clone, Copy, Debug, PartialEq, Eq, Structural)]
pub struct SetxattrIn {
    /// The length of the value that follows the name.
    pub size: u32,
    pub flags: u32,
}

impl Wire for SetxattrIn {
    open spec fn wire_len() -> nat {
        8
    }

    open spec fn decoded(bytes: Seq<u8>) -> Self {
        SetxattrIn {
            size: u32_at(bytes, 0),
            flags: u32_at(bytes, 4),
        }
    }

    open spec fn encoded(self) -> Seq<u8> {
        u32_bytes(self.size) + u32_bytes(self.flags)
    }

    proof fn lemma_encoded(self) {
        let e = self.encoded();
        lemma_u32_bytes(self.size);
        lemma_u32_bytes(self.flags);
        assert(e.subrange(0, 4) =~= u32_bytes(self.size));
        assert(e.subrange(4, 8) =~= u32_bytes(self.flags));
    }

    fn size() -> usize {
        8
    }

    fn decode(buf: &[u8]) -> Self {
        SetxattrIn {
            size: get_u32(buf, 0),
            flags: get_u32(buf, 4),
        }
    }

    fn encode(&self, out: &mut Vec<u8>) {
        put_u32(out, self.size);
        put_u32(out, self.flags);
        assert(out@ =~= old(out)@ + self.encoded());
    }
}

/// A byte range lock.
#[derive(Clone, Copy, Debug, PartialEq, Eq, Structural)]
pub struct FileLock {
    pub start: u64,
    pub end: u64,
    pub typ: u32,
    pub pid: u32,
}

impl Wire for FileLock {
    open spec fn wire_len() -> nat {
        24
    }

    open spec fn decoded(bytes: Seq<u8>) -> Self {
        FileLock {
            start: u64_at(bytes, 0),
            end: u64_at(bytes, 8),
            typ: u32_at(bytes, 16),
            pid: u32_at(bytes, 20),
        }
    }

    open spec fn encoded(self) -> Seq<u8> {
        u64_bytes(self.start) + u64_bytes(self.end) + u32_bytes(self.typ) + u32_bytes(self.pid)
    }

    proof fn lemma_encoded(self) {
        let e = self.encoded();
        lemma_u64_bytes(self.start);
        lemma_u64_bytes(self.end);
        lemma_u32_bytes(self.typ);
        lemma_u32_bytes(self.pid);
        assert(e.subrange(0, 8) =~= u64_bytes(self.start));
        assert(e.subrange(8, 16) =~= u64_bytes(self.end));
        assert(e.subrange(16, 20) =~= u32_bytes(self.typ));
        assert(e.subrange(20, 24) =~= u32_bytes(self.pid));
    }

    fn size() -> usize {
        24
    }

    fn decode(buf: &[u8]) -> Self {
        FileLock {
            start: get_u64(buf, 0),
            end: get_u64(buf, 8),
            typ: get_u32(buf, 16),
            pid: get_u32(buf, 20),
        }
    }

    fn encode(&self, out: &mut Vec<u8>) {
        put_u64(out, self.start);
        put_u64(out, self.end);
        put_u32(out, self.typ);
        put_u32(out, self.pid);
        assert(out@ =~= old(out)@ + self.encoded());
    }
}

/// The arguments of `FUSE_GETLK`, `FUSE_SETLK` and `FUSE_SETLKW`.
#[derive(Clone, Copy, Debug, PartialEq, Eq, Structural)]
pub struct LkIn {
    pub fh: u64,
    pub owner: u64,
    pub lk: FileLock,
    pub lk_flags: u32,
    pub padding: u32,
}

impl Wire for LkIn {
    open spec fn wire_len() -> nat {
        48
    }

    open spec fn decoded(bytes: Seq<u8>) -> Self {
        LkIn {
            fh: u64_at(bytes, 0),
            owner: u64_at(bytes, 8),
            lk: FileLock::decoded(bytes.subrange(16, 40)),
            lk_flags: u32_at(bytes, 40),
            padding: u32_at(bytes, 44),
        }
    }

    open spec fn encoded(self) -> Seq<u8> {
        u64_bytes(self.fh) + u64_bytes(self.owner) + self.lk.encoded() + u32_bytes(self.lk_flags)
            + u32_bytes(self.padding)
    }

    proof fn lemma_encoded(self) {
        let e = self.encoded();
        lemma_u64_bytes(self.fh);
        lemma_u64_bytes(self.owner);
        self.lk.lemma_encoded();
        lemma_u32_bytes(self.lk_flags);
        lemma_u32_bytes(self.padding);
        assert(e.subrange(0, 8) =~= u64_bytes(self.fh));
        assert(e.subrange(8, 16) =~= u64_bytes(self.owner));
        assert(e.subrange(16, 40) =~= self.lk.encoded());
        assert(e.subrange(40, 44) =~= u32_bytes(self.lk_flags));
        assert(e.subrange(44, 48) =~= u32_bytes(self.padding));
    }

    fn size() -> usize {
        48
    }

    fn decode(buf: &[u8]) -> Self {
        LkIn {
            fh: get_u64(buf, 0),
            owner: get_u64(buf, 8),
            lk: FileLock::decode(slice_subrange(buf, 16, 40)),
            lk_flags: get_u32(buf, 40),
            padding: get_u32(buf, 44),
        }
    }

    fn encode(&self, out: &mut Vec<u8>) {
        put_u64(out, self.fh);
        put_u64(out, self.owner);
        self.lk.encode(out);
        put_u32(out, self.lk_flags);
        put_u32(out, self.padding);
        assert(out@ =~= old(out)@ + self.encoded());
    }
}

/// The arguments of `FUSE_ACCESS`.
#[derive(Clone, Copy, Debug, PartialEq, Eq, Structural)]
pub struct AccessIn {
    pub mask: u32,
    pub padding: u32,
}

impl Wire for AccessIn {
    open spec fn wire_len() -> nat {
        8
    }

    open spec fn decoded(bytes: Seq<u8>) -> Self {
        AccessIn {
            mask: u32_at(bytes, 0),
            padding: u32_at(bytes, 4),
        }
    }

    open spec fn encoded(self) -> Seq<u8> {
        u32_bytes(self.mask) + u32_bytes(self.padding)
    }

    proof fn lemma_encoded(self) {
        let e = self.encoded();
        lemma_u32_bytes(self.mask);
        lemma_u32_bytes(self.padding);
        assert(e.subrange(0, 4) =~= u32_bytes(self.mask));
        assert(e.subrange(4, 8) =~= u32_bytes(self.padding));
    }

    fn size() -> usize {
        8
    }

    fn decode(buf: &[u8]) -> Self {
        AccessIn {
            mask: get_u32(buf, 0),
            padding: get_u32(buf, 4),
        }
    }

    fn encode(&self, out: &mut Vec<u8>) {
        put_u32(out, self.mask);
        put_u32(out, self.padding);
        assert(out@ =~= old(out)@ + self.encoded());
    }
}

/// The arguments of `FUSE_CREATE`; the name follows.
#[derive(Clone, Copy, Debug, PartialEq, Eq, Structural)]
pub struct CreateIn {
    pub flags: u32,
    pub mode: u32,
    pub umask: u32,
    pub padding: u32,
}

impl Wire for CreateIn {
    open spec fn wire_len() -> nat {
        16
    }

    open spec fn decoded(bytes: Seq<u8>) -> Self {
        CreateIn {
            flags: u32_at(bytes, 0),
            mode: u32_at(bytes, 4),
            umask: u32_at(bytes, 8),
            padding: u32_at(bytes, 12),
        }
    }

    open spec fn encoded(self) -> Seq<u8> {
        u32_bytes(self.flags) + u32_bytes(self.mode) + u32_bytes(self.umask)
            + u32_bytes(self.padding)
    }

    proof fn lemma_encoded(self) {
        let e = self.encoded();
        lemma_u32_bytes(self.flags);
        lemma_u32_bytes(self.mode);
        lemma_u32_bytes(self.umask);
        lemma_u32_bytes(self.padding);
        assert(e.subrange(0, 4) =~= u32_bytes(self.flags));
        assert(e.subrange(4, 8) =~= u32_bytes(self.mode));
        assert(e.subrange(8, 12) =~= u32_bytes(self.umask));
        assert(e.subrange(12, 16) =~= u32_bytes(self.padding));
    }

    fn size() -> usize {
        16
    }

    fn decode(buf: &[u8]) -> Self {
        CreateIn {
            flags: get_u32(buf, 0),
            mode: get_u32(buf, 4),
            umask: get_u32(buf, 8),
            padding: get_u32(buf, 12),
        }
    }

    fn encode(&self, out: &mut Vec<u8>) {
        put_u32(out, self.flags);
        put_u32(out, self.mode);
        put_u32(out, self.umask);
        put_u32(out, self.padding);
        assert(out@ =~= old(out)@ + self.encoded());
    }
}

/// The arguments of `FUSE_INTERRUPT`.
#[derive(Clone, Copy, Debug, PartialEq, Eq, Structural)]
pub struct InterruptIn {
    /// The number of the request that is interrupted.
    pub unique: u64,
}

impl Wire for InterruptIn {
    open spec fn wire_len() -> nat {
        8
    }

    open spec fn decoded(bytes: Seq<u8>) -> Self {
        InterruptIn {
            unique: u64_at(bytes, 0),
        }
    }

    open spec fn encoded(self) -> Seq<u8> {
        u64_bytes(self.unique)
    }

    proof fn lemma_encoded(self) {
        lemma_u64_bytes(self.unique);
        assert(self.encoded().subrange(0, 8) =~= self.encoded());
    }

    fn size() -> usize {
        8
    }

    fn decode(buf: &[u8]) -> Self {
        InterruptIn {
            unique: get_u64(buf, 0),
        }
    }

    fn encode(&self, out: &mut Vec<u8>) {
        put_u64(out, self.unique);
        assert(out@ =~= old(out)@ + self.encoded());
    }
}

/// The arguments of `FUSE_BMAP`.
#[derive(Clone, Copy, Debug, PartialEq, Eq, Structural)]
pub struct BmapIn {
    pub block: u64,
    pub blocksize: u32,
    pub padding: u32,
}

impl Wire for BmapIn {
    open spec fn wire_len() -> nat {
        16
    }

    open spec fn decoded(bytes: Seq<u8>) -> Self {
        BmapIn {
            block: u64_at(bytes, 0),
            blocksize: u32_at(bytes, 8),
            padding: u32_at(bytes, 12),
        }
    }

    open spec fn encoded(self) -> Seq<u8> {
        u64_bytes(self.block) + u32_bytes(self.blocksize) + u32_bytes(self.padding)
    }

    proof fn lemma_encoded(self) {
        let e = self.encoded();
        lemma_u64_bytes(self.block);
        lemma_u32_bytes(self.blocksize);
        lemma_u32_bytes(self.padding);
        assert(e.subrange(0, 8) =~= u64_bytes(self.block));
        assert(e.subrange(8, 12) =~= u32_bytes(self.blocksize));
        assert(e.subrange(12, 16) =~= u32_bytes(self.padding));
    }

    fn size() -> usize {
        16
    }

    fn decode(buf: &[u8]) -> Self {
        BmapIn {
            block: get_u64(buf, 0),
            blocksize: get_u32(buf, 8),
            padding: get_u32(buf, 12),
        }
    }

    fn encode(&self, out: &mut Vec<u8>) {
        put_u64(out, self.block);
        put_u32(out, self.blocksize);
        put_u32(out, self.padding);
        assert(out@ =~= old(out)@ + self.encoded());
    }
}

/// The arguments of `FUSE_IOCTL`; `in_size` bytes of data follow.
#[derive(Clone, Copy, Debug, PartialEq, Eq, Structural)]
pub struct IoctlIn {
    pub fh: u64,
    pub flags: u32,
    pub cmd: u32,
    pub arg: u64,
    /// The length of the data that follows.
    pub in_size: u32,
    pub out_size: u32,
}

impl Wire for IoctlIn {
    open spec fn wire_len() -> nat {
        32
    }

    open spec fn decoded(bytes: Seq<u8>) -> Self {
        IoctlIn {
            fh: u64_at(bytes, 0),
            flags: u32_at(bytes, 8),
            cmd: u32_at(bytes, 12),
            arg: u64_at(bytes, 16),
            in_size: u32_at(bytes, 24),
            out_size: u32_at(bytes, 28),
        }
    }

    open spec fn encoded(self) -> Seq<u8> {
        u64_bytes(self.fh) + u32_bytes(self.flags) + u32_bytes(self.cmd) + u64_bytes(self.arg)
            + u32_bytes(self.in_size) + u32_bytes(self.out_size)
    }

    proof fn lemma_encoded(self) {
        let e = self.encoded();
        lemma_u64_bytes(self.fh);
        lemma_u32_bytes(self.flags);
        lemma_u32_bytes(self.cmd);
        lemma_u64_bytes(self.arg);
        lemma_u32_bytes(self.in_size);
        lemma_u32_bytes(self.out_size);
        assert(e.subrange(0, 8) =~= u64_bytes(self.fh));
        assert(e.subrange(8, 12) =~= u32_bytes(self.flags));
        assert(e.subrange(12, 16) =~= u32_bytes(self.cmd));
        assert(e.subrange(16, 24) =~= u64_bytes(self.arg));
        assert(e.subrange(24, 28) =~= u32_bytes(self.in_size));
        assert(e.subrange(28, 32) =~= u32_bytes(self.out_size));
    }

    fn size() -> usize {
        32
    }

    fn decode(buf: &[u8]) -> Self {
        IoctlIn {
            fh: get_u64(buf, 0),
            flags: get_u32(buf, 8),
            cmd: get_u32(buf, 12),
            arg: get_u64(buf, 16),
            in_size: get_u32(buf, 24),
            out_size: get_u32(buf, 28),
        }
    }

    fn encode(&self, out: &mut Vec<u8>) {
        put_u64(out, self.fh);
        put_u32(out, self.flags);
        put_u32(out, self.cmd);
        put_u64(out, self.arg);
        put_u32(out, self.in_size);
        put_u32(out, self.out_size);
        assert(out@ =~= old(out)@ + self.encoded());
    }
}

/// The arguments of `FUSE_POLL`.
#[derive(Clone, Copy, Debug, PartialEq, Eq, Structural)]
pub struct PollIn {
    pub fh: u64,
    pub kh: u64,
    pub flags: u32,
    pub events: u32,
}

impl Wire for PollIn {
    open spec fn wire_len() -> nat {
        24
    }

    open spec fn decoded(bytes: Seq<u8>) -> Self {
        PollIn {
            fh: u64_at(bytes, 0),
            kh: u64_at(bytes, 8),
            flags: u32_at(bytes, 16),
            events: u32_at(bytes, 20),
        }
    }

    open spec fn encoded(self) -> Seq<u8> {
        u64_bytes(self.fh) + u64_bytes(self.kh) + u32_bytes(self.flags) + u32_bytes(self.events)
    }

    proof fn lemma_encoded(self) {
        let e = self.encoded();
        lemma_u64_bytes(self.fh);
        lemma_u64_bytes(self.kh);
        lemma_u32_bytes(self.flags);
        lemma_u32_bytes(self.events);
        assert(e.subrange(0, 8) =~= u64_bytes(self.fh));
        assert(e.subrange(8, 16) =~= u64_bytes(self.kh));
        assert(e.subrange(16, 20) =~= u32_bytes(self.flags));
        assert(e.subrange(20, 24) =~= u32_bytes(self.events));
    }

    fn size() -> usize {
        24
    }

    fn decode(buf: &[u8]) -> Self {
        PollIn {
            fh: get_u64(buf, 0),
            kh: get_u64(buf, 8),
            flags: get_u32(buf, 16),
            events: get_u32(buf, 20),
        }
    }

    fn encode(&self, out: &mut Vec<u8>) {
        put_u64(out, self.fh);
        put_u64(out, self.kh);
        put_u32(out, self.flags);
        put_u32(out, self.events);
        assert(out@ =~= old(out)@ + self.encoded());
    }
}

/// The arguments of `FUSE_NOTIFY_REPLY`; the retrieved data follow.
#[derive(Clone, Copy, Debug, PartialEq, Eq, Structural)]
pub struct NotifyRetrieveIn {
    pub dummy1: u64,
    pub offset: u64,
    pub size: u32,
    pub dummy2: u32,
    pub dummy3: u64,
    pub dummy4: u64,
}

impl Wire for NotifyRetrieveIn {
    open spec fn wire_len() -> nat {
        40
    }

    open spec fn decoded(bytes: Seq<u8>) -> Self {
        NotifyRetrieveIn {
            dummy1: u64_at(bytes, 0),
            offset: u64_at(bytes, 8),
            size: u32_at(bytes, 16),
            dummy2: u32_at(bytes, 20),
            dummy3: u64_at(bytes, 24),
            dummy4: u64_at(bytes, 32),
        }
    }

    open spec fn encoded(self) -> Seq<u8> {
        u64_bytes(self.dummy1) + u64_bytes(self.offset) + u32_bytes(self.size)
            + u32_bytes(self.dummy2) + u64_bytes(self.dummy3) + u64_bytes(self.dummy4)
    }

    proof fn lemma_encoded(self) {
        let e = self.encoded();
        lemma_u64_bytes(self.dummy1);
        lemma_u64_bytes(self.offset);
        lemma_u32_bytes(self.size);
        lemma_u32_bytes(self.dummy2);
        lemma_u64_bytes(self.dummy3);
        lemma_u64_bytes(self.dummy4);
        assert(e.subrange(0, 8) =~= u64_bytes(self.dummy1));
        assert(e.subrange(8, 16) =~= u64_bytes(self.offset));
        assert(e.subrange(16, 20) =~= u32_bytes(self.size));
        assert(e.subrange(20, 24) =~= u32_bytes(self.dummy2));
        assert(e.subrange(24, 32) =~= u64_bytes(self.dummy3));
        assert(e.subrange(32, 40) =~= u64_bytes(self.dummy4));
    }

    fn size() -> usize {
        40
    }

    fn decode(buf: &[u8]) -> Self {
        NotifyRetrieveIn {
            dummy1: get_u64(buf, 0),
            offset: get_u64(buf, 8),
            size: get_u32(buf, 16),
            dummy2: get_u32(buf, 20),
            dummy3: get_u64(buf, 24),
            dummy4: get_u64(buf, 32),
        }
    }

    fn encode(&self, out: &mut Vec<u8>) {
        put_u64(out, self.dummy1);
        put_u64(out, self.offset);
        put_u32(out, self.size);
        put_u32(out, self.dummy2);
        put_u64(out, self.dummy3);
        put_u64(out, self.dummy4);
        assert(out@ =~= old(out)@ + self.encoded());
    }
}

/// The arguments of `FUSE_BATCH_FORGET`; `count` entries follow.
#[derive(Clone, Copy, Debug, PartialEq, Eq, Structural)]
pub struct BatchForgetIn {
    /// The number of entries that follow.
    pub count: u32,
    pub dummy: u32,
}

impl Wire for BatchForgetIn {
    open spec fn wire_len() -> nat {
        8
    }

    open spec fn decoded(bytes: Seq<u8>) -> Self {
        BatchForgetIn {
            count: u32_at(bytes, 0),
            dummy: u32_at(bytes, 4),
        }
    }

    open spec fn encoded(self) -> Seq<u8> {
        u32_bytes(self.count) + u32_bytes(self.dummy)
    }

    proof fn lemma_encoded(self) {
        let e = self.encoded();
        lemma_u32_bytes(self.count);
        lemma_u32_bytes(self.dummy);
        assert(e.subrange(0, 4) =~= u32_bytes(self.count));
        assert(e.subrange(4, 8) =~= u32_bytes(self.dummy));
    }

    fn size() -> usize {
        8
    }

    fn decode(buf: &[u8]) -> Self {
        BatchForgetIn {
            count: get_u32(buf, 0),
            dummy: get_u32(buf, 4),
        }
    }

    fn encode(&self, out: &mut Vec<u8>) {
        put_u32(out, self.count);
        put_u32(out, self.dummy);
        assert(out@ =~= old(out)@ + self.encoded());
    }
}

/// One entry of `FUSE_BATCH_FORGET`.
#[derive(Clone, Copy, Debug, PartialEq, Eq, Structural)]
pub struct ForgetOne {
    pub nodeid: u64,
    pub nlookup: u64,
}

impl Wire for ForgetOne {
    open spec fn wire_len() -> nat {
        16
    }

    open spec fn decoded(bytes: Seq<u8>) -> Self {
        ForgetOne {
            nodeid: u64_at(bytes, 0),
            nlookup: u64_at(bytes, 8),
        }
    }

    open spec fn encoded(self) -> Seq<u8> {
        u64_bytes(self.nodeid) + u64_bytes(self.nlookup)
    }

    proof fn lemma_encoded(self) {
        let e = self.encoded();
        lemma_u64_bytes(self.nodeid);
        lemma_u64_bytes(self.nlookup);
        assert(e.subrange(0, 8) =~= u64_bytes(self.nodeid));
        assert(e.subrange(8, 16) =~= u64_bytes(self.nlookup));
    }

    fn size() -> usize {
        16
    }

    fn decode(buf: &[u8]) -> Self {
        ForgetOne {
            nodeid: get_u64(buf, 0),
            nlookup: get_u64(buf, 8),
        }
    }

    fn encode(&self, out: &mut Vec<u8>) {
        put_u64(out, self.nodeid);
        put_u64(out, self.nlookup);
        assert(out@ =~= old(out)@ + self.encoded());
    }
}

/// The arguments of `FUSE_FALLOCATE`.
#[derive(Clone, Copy, Debug, PartialEq, Eq, Structural)]
pub struct FallocateIn {
    pub fh: u64,
    pub offset: u64,
    pub length: u64,
    pub mode: u32,
    pub padding: u32,
}

impl Wire for FallocateIn {
    open spec fn wire_len() -> nat {
        32
    }

    open spec fn decoded(bytes: Seq<u8>) -> Self {
        FallocateIn {
            fh: u64_at(bytes, 0),
            offset: u64_at(bytes, 8),
            length: u64_at(bytes, 16),
            mode: u32_at(bytes, 24),
            padding: u32_at(bytes, 28),
        }
    }

    open spec fn encoded(self) -> Seq<u8> {
        u64_bytes(self.fh) + u64_bytes(self.offset) + u64_bytes(self.length) + u32_bytes(self.mode)
            + u32_bytes(self.padding)
    }

    proof fn lemma_encoded(self) {
        let e = self.encoded();
        lemma_u64_bytes(self.fh);
        lemma_u64_bytes(self.offset);
        lemma_u64_bytes(self.length);
        lemma_u32_bytes(self.mode);
        lemma_u32_bytes(self.padding);
        assert(e.subrange(0, 8) =~= u64_bytes(self.fh));
        assert(e.subrange(8, 16) =~= u64_bytes(self.offset));
        assert(e.subrange(16, 24) =~= u64_bytes(self.length));
        assert(e.subrange(24, 28) =~= u32_bytes(self.mode));
        assert(e.subrange(28, 32) =~= u32_bytes(self.padding));
    }

    fn size() -> usize {
        32
    }

    fn decode(buf: &[u8]) -> Self {
        FallocateIn {
            fh: get_u64(buf, 0),
            offset: get_u64(buf, 8),
            length: get_u64(buf, 16),
            mode: get_u32(buf, 24),
            padding: get_u32(buf, 28),
        }
    }

    fn encode(&self, out: &mut Vec<u8>) {
        put_u64(out, self.fh);
        put_u64(out, self.offset);
        put_u64(out, self.length);
        put_u32(out, self.mode);
        put_u32(out, self.padding);
        assert(out@ =~= old(out)@ + self.encoded());
    }
}

/// The arguments of `FUSE_LSEEK`.
#[derive(Clone, Copy, Debug, PartialEq, Eq, Structural)]
pub struct LseekIn {
    pub fh: u64,
    pub offset: u64,
    pub whence: u32,
    pub padding: u32,
}

impl Wire for LseekIn {
    open spec fn wire_len() -> nat {
        24
    }

    open spec fn decoded(bytes: Seq<u8>) -> Self {
        LseekIn {
            fh: u64_at(bytes, 0),
            offset: u64_at(bytes, 8),
            whence: u32_at(bytes, 16),
            padding: u32_at(bytes, 20),
        }
    }

    open spec fn encoded(self) -> Seq<u8> {
        u64_bytes(self.fh) + u64_bytes(self.offset) + u32_bytes(self.whence)
            + u32_bytes(self.padding)
    }

    proof fn lemma_encoded(self) {
        let e = self.encoded();
        lemma_u64_bytes(self.fh);
        lemma_u64_bytes(self.offset);
        lemma_u32_bytes(self.whence);
        lemma_u32_bytes(self.padding);
        assert(e.subrange(0, 8) =~= u64_bytes(self.fh));
        assert(e.subrange(8, 16) =~= u64_bytes(self.offset));
        assert(e.subrange(16, 20) =~= u32_bytes(self.whence));
        assert(e.subrange(20, 24) =~= u32_bytes(self.padding));
    }

    fn size() -> usize {
        24
    }

    fn decode(buf: &[u8]) -> Self {
        LseekIn {
            fh: get_u64(buf, 0),
            offset: get_u64(buf, 8),
            whence: get_u32(buf, 16),
            padding: get_u32(buf, 20),
        }
    }

    fn encode(&self, out: &mut Vec<u8>) {
        put_u64(out, self.fh);
        put_u64(out, self.offset);
        put_u32(out, self.whence);
        put_u32(out, self.padding);
        assert(out@ =~= old(out)@ + self.encoded());
    }
}

/// The arguments of `FUSE_COPY_FILE_RANGE`.
#[derive(Clone, Copy, Debug, PartialEq, Eq, Structural)]
pub struct CopyFileRangeIn {
    pub fh_in: u64,
    pub off_in: u64,
    pub nodeid_out: u64,
    pub fh_out: u64,
    pub off_out: u64,
    pub len: u64,
    pub flags: u64,
}

impl Wire for CopyFileRangeIn {
    open spec fn wire_len() -> nat {
        56
    }

    open spec fn decoded(bytes: Seq<u8>) -> Self {
        CopyFileRangeIn {
            fh_in: u64_at(bytes, 0),
            off_in: u64_at(bytes, 8),
            nodeid_out: u64_at(bytes, 16),
            fh_out: u64_at(bytes, 24),
            off_out: u64_at(bytes, 32),
            len: u64_at(bytes, 40),
            flags: u64_at(bytes, 48),
        }
    }

    open spec fn encoded(self) -> Seq<u8> {
        u64_bytes(self.fh_in) + u64_bytes(self.off_in) + u64_bytes(self.nodeid_out)
            + u64_bytes(self.fh_out) + u64_bytes(self.off_out) + u64_bytes(self.len)
            + u64_bytes(self.flags)
    }

    proof fn lemma_encoded(self) {
        let e = self.encoded();
        lemma_u64_bytes(self.fh_in);
        lemma_u64_bytes(self.off_in);
        lemma_u64_bytes(self.nodeid_out);
        lemma_u64_bytes(self.fh_out);
        lemma_u64_bytes(self.off_out);
        lemma_u64_bytes(self.len);
        lemma_u64_bytes(self.flags);
        assert(e.subrange(0, 8) =~= u64_bytes(self.fh_in));
        assert(e.subrange(8, 16) =~= u64_bytes(self.off_in));
        assert(e.subrange(16, 24) =~= u64_bytes(self.nodeid_out));
        assert(e.subrange(24, 32) =~= u64_bytes(self.fh_out));
        assert(e.subrange(32, 40) =~= u64_bytes(self.off_out));
        assert(e.subrange(40, 48) =~= u64_bytes(self.len));
        assert(e.subrange(48, 56) =~= u64_bytes(self.flags));
    }

    fn size() -> usize {
        56
    }

    fn decode(buf: &[u8]) -> Self {
        CopyFileRangeIn {
            fh_in: get_u64(buf, 0),
            off_in: get_u64(buf, 8),
            nodeid_out: get_u64(buf, 16),
            fh_out: get_u64(buf, 24),
            off_out: get_u64(buf, 32),
            len: get_u64(buf, 40),
            flags: get_u64(buf, 48),
        }
    }

    fn encode(&self, out: &mut Vec<u8>) {
        put_u64(out, self.fh_in);
        put_u64(out, self.off_in);
        put_u64(out, self.nodeid_out);
        put_u64(out, self.fh_out);
        put_u64(out, self.off_out);
        put_u64(out, self.len);
        put_u64(out, self.flags);
        assert(out@ =~= old(out)@ + self.encoded());
    }
}

} // verus!
