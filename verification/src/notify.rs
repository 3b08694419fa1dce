//! Notifications: frames that the server sends to the kernel on its own.
//!
//! A notification answers no request. Its header names the request zero,
//! and holds the code of the notification where a reply holds an error.

use crate::abi::{
    FUSE_NOTIFY_DELETE, FUSE_NOTIFY_INVAL_ENTRY, FUSE_NOTIFY_INVAL_INODE, FUSE_NOTIFY_POLL,
    FUSE_NOTIFY_RETRIEVE, FUSE_NOTIFY_STORE,
};
use crate::decoder::zero;
use crate::reply::{build_frame, fits, frame};
use crate::wire::{
    get_i64, get_u32, get_u64, i64_of, lemma_u32_bytes, lemma_u64_bytes, put_bytes, put_i64,
    put_u32, put_u64, u32_at, u32_bytes, u64_at, u64_bytes, u64_of, Wire,
};
use vstd::prelude::*;

verus! {


/// The body of `FUSE_NOTIFY_POLL`.
#[derive(Clone, Copy, Debug, PartialEq, Eq, Structural)]
pub struct NotifyPollWakeupOut {
    pub kh: u64,
}

impl Wire for NotifyPollWakeupOut {
    open spec fn wire_len() -> nat {
        8
    }

    open spec fn decoded(bytes: Seq<u8>) -> Self {
        NotifyPollWakeupOut {
            kh: u64_at(bytes, 0),
        }
    }

    open spec fn encoded(self) -> Seq<u8> {
        u64_bytes(self.kh)
    }

    proof fn lemma_encoded(self) {
        lemma_u64_bytes(self.kh);
        assert(self.encoded().subrange(0, 8) =~= self.encoded());
    }

    fn size() -> usize {
        8
    }

    fn decode(buf: &[u8]) -> Self {
        NotifyPollWakeupOut {
            kh: get_u64(buf, 0),
        }
    }

    fn encode(&self, out: &mut Vec<u8>) {
        put_u64(out, self.kh);
        assert(out@ =~= old(out)@ + self.encoded());
    }
}

/// The body of `FUSE_NOTIFY_INVAL_INODE`.
#[derive(Clone, Copy, Debug, PartialEq, Eq, Structural)]
pub struct NotifyInvalInodeOut {
    pub ino: u64,
    pub off: i64,
    pub len: i64,
}

impl Wire for NotifyInvalInodeOut {
    open spec fn wire_len() -> nat {
        24
    }

    open spec fn decoded(bytes: Seq<u8>) -> Self {
        NotifyInvalInodeOut {
            ino: u64_at(bytes, 0),
            off: i64_of(u64_at(bytes, 8)),
            len: i64_of(u64_at(bytes, 16)),
        }
    }

    open spec fn encoded(self) -> Seq<u8> {
        u64_bytes(self.ino) + u64_bytes(u64_of(self.off)) + u64_bytes(u64_of(self.len))
    }

    proof fn lemma_encoded(self) {
        let e = self.encoded();
        lemma_u64_bytes(self.ino);
        lemma_u64_bytes(u64_of(self.off));
        lemma_u64_bytes(u64_of(self.len));
        assert(e.subrange(0, 8) =~= u64_bytes(self.ino));
        assert(e.subrange(8, 16) =~= u64_bytes(u64_of(self.off)));
        assert(e.subrange(16, 24) =~= u64_bytes(u64_of(self.len)));
    }

    fn size() -> usize {
        24
    }

    fn decode(buf: &[u8]) -> Self {
        NotifyInvalInodeOut {
            ino: get_u64(buf, 0),
            off: get_i64(buf, 8),
            len: get_i64(buf, 16),
        }
    }

    fn encode(&self, out: &mut Vec<u8>) {
        put_u64(out, self.ino);
        put_i64(out, self.off);
        put_i64(out, self.len);
        assert(out@ =~= old(out)@ + self.encoded());
    }
}

/// The body of `FUSE_NOTIFY_INVAL_ENTRY`; the name and a zero byte follow.
#[derive(Clone, Copy, Debug, PartialEq, Eq, Structural)]
pub struct NotifyInvalEntryOut {
    pub parent: u64,
    pub namelen: u32,
    pub padding: u32,
}

impl Wire for NotifyInvalEntryOut {
    open spec fn wire_len() -> nat {
        16
    }

    open spec fn decoded(bytes: Seq<u8>) -> Self {
        NotifyInvalEntryOut {
            parent: u64_at(bytes, 0),
            namelen: u32_at(bytes, 8),
            padding: u32_at(bytes, 12),
        }
    }

    open spec fn encoded(self) -> Seq<u8> {
        u64_bytes(self.parent) + u32_bytes(self.namelen) + u32_bytes(self.padding)
    }

    proof fn lemma_encoded(self) {
        let e = self.encoded();
        lemma_u64_bytes(self.parent);
        lemma_u32_bytes(self.namelen);
        lemma_u32_bytes(self.padding);
        assert(e.subrange(0, 8) =~= u64_bytes(self.parent));
        assert(e.subrange(8, 12) =~= u32_bytes(self.namelen));
        assert(e.subrange(12, 16) =~= u32_bytes(self.padding));
    }

    fn size() -> usize {
        16
    }

    fn decode(buf: &[u8]) -> Self {
        NotifyInvalEntryOut {
            parent: get_u64(buf, 0),
            namelen: get_u32(buf, 8),
            padding: get_u32(buf, 12),
        }
    }

    fn encode(&self, out: &mut Vec<u8>) {
        put_u64(out, self.parent);
        put_u32(out, self.namelen);
        put_u32(out, self.padding);
        assert(out@ =~= old(out)@ + self.encoded());
    }
}

/// The body of `FUSE_NOTIFY_DELETE`; the name and a zero byte follow.
#[derive(Clone, Copy, Debug, PartialEq, Eq, Structural)]
pub struct NotifyDeleteOut {
    pub parent: u64,
    pub child: u64,
    pub namelen: u32,
    pub padding: u32,
}

impl Wire for NotifyDeleteOut {
    open spec fn wire_len() -> nat {
        24
    }

    open spec fn decoded(bytes: Seq<u8>) -> Self {
        NotifyDeleteOut {
            parent: u64_at(bytes, 0),
            child: u64_at(bytes, 8),
            namelen: u32_at(bytes, 16),
            padding: u32_at(bytes, 20),
        }
    }

    open spec fn encoded(self) -> Seq<u8> {
        u64_bytes(self.parent) + u64_bytes(self.child) + u32_bytes(self.namelen)
            + u32_bytes(self.padding)
    }

    proof fn lemma_encoded(self) {
        let e = self.encoded();
        lemma_u64_bytes(self.parent);
        lemma_u64_bytes(self.child);
        lemma_u32_bytes(self.namelen);
        lemma_u32_bytes(self.padding);
        assert(e.subrange(0, 8) =~= u64_bytes(self.parent));
        assert(e.subrange(8, 16) =~= u64_bytes(self.child));
        assert(e.subrange(16, 20) =~= u32_bytes(self.namelen));
        assert(e.subrange(20, 24) =~= u32_bytes(self.padding));
    }

    fn size() -> usize {
        24
    }

    fn decode(buf: &[u8]) -> Self {
        NotifyDeleteOut {
            parent: get_u64(buf, 0),
            child: get_u64(buf, 8),
            namelen: get_u32(buf, 16),
            padding: get_u32(buf, 20),
        }
    }

    fn encode(&self, out: &mut Vec<u8>) {
        put_u64(out, self.parent);
        put_u64(out, self.child);
        put_u32(out, self.namelen);
        put_u32(out, self.padding);
        assert(out@ =~= old(out)@ + self.encoded());
    }
}

/// The body of `FUSE_NOTIFY_STORE`; `size` bytes of data follow.
#[derive(Clone, Copy, Debug, PartialEq, Eq, Structural)]
pub struct NotifyStoreOut {
    pub nodeid: u64,
    pub offset: u64,
    pub size: u32,
    pub padding: u32,
}

impl Wire for NotifyStoreOut {
    open spec fn wire_len() -> nat {
        24
    }

    open spec fn decoded(bytes: Seq<u8>) -> Self {
        NotifyStoreOut {
            nodeid: u64_at(bytes, 0),
            offset: u64_at(bytes, 8),
            size: u32_at(bytes, 16),
            padding: u32_at(bytes, 20),
        }
    }

    open spec fn encoded(self) -> Seq<u8> {
        u64_bytes(self.nodeid) + u64_bytes(self.offset) + u32_bytes(self.size)
            + u32_bytes(self.padding)
    }

    proof fn lemma_encoded(self) {
        let e = self.encoded();
        lemma_u64_bytes(self.nodeid);
        lemma_u64_bytes(self.offset);
        lemma_u32_bytes(self.size);
        lemma_u32_bytes(self.padding);
        assert(e.subrange(0, 8) =~= u64_bytes(self.nodeid));
        assert(e.subrange(8, 16) =~= u64_bytes(self.offset));
        assert(e.subrange(16, 20) =~= u32_bytes(self.size));
        assert(e.subrange(20, 24) =~= u32_bytes(self.padding));
    }

    fn size() -> usize {
        24
    }

    fn decode(buf: &[u8]) -> Self {
        NotifyStoreOut {
            nodeid: get_u64(buf, 0),
            offset: get_u64(buf, 8),
            size: get_u32(buf, 16),
            padding: get_u32(buf, 20),
        }
    }

    fn encode(&self, out: &mut Vec<u8>) {
        put_u64(out, self.nodeid);
        put_u64(out, self.offset);
        put_u32(out, self.size);
        put_u32(out, self.padding);
        assert(out@ =~= old(out)@ + self.encoded());
    }
}

/// The body of `FUSE_NOTIFY_RETRIEVE`.
#[derive(Clone, Copy, Debug, PartialEq, Eq, Structural)]
pub struct NotifyRetrieveOut {
    pub notify_unique: u64,
    pub nodeid: u64,
    pub offset: u64,
    pub size: u32,
    pub padding: u32,
}

impl Wire for NotifyRetrieveOut {
    open spec fn wire_len() -> nat {
        32
    }

    open spec fn decoded(bytes: Seq<u8>) -> Self {
        NotifyRetrieveOut {
            notify_unique: u64_at(bytes, 0),
            nodeid: u64_at(bytes, 8),
            offset: u64_at(bytes, 16),
            size: u32_at(bytes, 24),
            padding: u32_at(bytes, 28),
        }
    }

    open spec fn encoded(self) -> Seq<u8> {
        u64_bytes(self.notify_unique) + u64_bytes(self.nodeid) + u64_bytes(self.offset)
            + u32_bytes(self.size) + u32_bytes(self.padding)
    }

    proof fn lemma_encoded(self) {
        let e = self.encoded();
        lemma_u64_bytes(self.notify_unique);
        lemma_u64_bytes(self.nodeid);
        lemma_u64_bytes(self.offset);
        lemma_u32_bytes(self.size);
        lemma_u32_bytes(self.padding);
        assert(e.subrange(0, 8) =~= u64_bytes(self.notify_unique));
        assert(e.subrange(8, 16) =~= u64_bytes(self.nodeid));
        assert(e.subrange(16, 24) =~= u64_bytes(self.offset));
        assert(e.subrange(24, 28) =~= u32_bytes(self.size));
        assert(e.subrange(28, 32) =~= u32_bytes(self.padding));
    }

    fn size() -> usize {
        32
    }

    fn decode(buf: &[u8]) -> Self {
        NotifyRetrieveOut {
            notify_unique: get_u64(buf, 0),
            nodeid: get_u64(buf, 8),
            offset: get_u64(buf, 16),
            size: get_u32(buf, 24),
            padding: get_u32(buf, 28),
        }
    }

    fn encode(&self, out: &mut Vec<u8>) {
        put_u64(out, self.notify_unique);
        put_u64(out, self.nodeid);
        put_u64(out, self.offset);
        put_u32(out, self.size);
        put_u32(out, self.padding);
        assert(out@ =~= old(out)@ + self.encoded());
    }
}

/// The frame of the notification with the given code and body.
pub open spec fn notification(code: u32, body: Seq<u8>) -> Seq<u8>
    recommends
        code <= i32::MAX,
{
    frame(0, code as i32, body)
}

/// The body of a notification that carries a name: the fixed part, the name
/// and the zero byte that ends it.
pub open spec fn named<T: Wire>(arg: T, name: Seq<u8>) -> Seq<u8> {
    arg.encoded() + name + zero()
}

/// Builds the frame of a notification whose body is the image of `arg`
/// followed by `tail`.
fn build_notification<T: Wire>(code: u32, arg: &T, tail: &[u8], end: bool) -> (f: Vec<u8>)
    requires
        code <= i32::MAX,
        fits(
            T::wire_len() + tail@.len() + if end {
                1nat
            } else {
                0nat
            },
        ),
    ensures
        f@ == notification(
            code,
            if end {
                arg.encoded() + tail@ + zero()
            } else {
                arg.encoded() + tail@
            },
        ),
{
    let mut body: Vec<u8> = Vec::new();
    arg.encode(&mut body);
    put_bytes(&mut body, tail);
    if end {
        body.push(0u8);
    }
    proof {
        arg.lemma_encoded();
        assert(body@ =~= if end {
            arg.encoded() + tail@ + zero()
        } else {
            arg.encoded() + tail@
        });
    }
    build_frame(0, code as i32, body.as_slice())
}

/// Tells the kernel that a poll, known to it by `kh`, has events to report.
pub fn notify_poll_wakeup(kh: u64) -> (f: Vec<u8>)
    ensures
        f@ == notification(FUSE_NOTIFY_POLL, (NotifyPollWakeupOut { kh }).encoded()),
{
    let arg = NotifyPollWakeupOut { kh };
    let none: Vec<u8> = Vec::new();
    let f = build_notification(FUSE_NOTIFY_POLL, &arg, none.as_slice(), false);
    assert(arg.encoded() + none@ =~= arg.encoded());
    f
}

/// Tells the kernel to drop what it has cached of the inode `ino`: its
/// attributes, and its data from `off` on for `len` bytes.
pub fn notify_inval_inode(ino: u64, off: i64, len: i64) -> (f: Vec<u8>)
    ensures
        f@ == notification(
            FUSE_NOTIFY_INVAL_INODE,
            (NotifyInvalInodeOut { ino, off, len }).encoded(),
        ),
{
    let arg = NotifyInvalInodeOut { ino, off, len };
    let none: Vec<u8> = Vec::new();
    let f = build_notification(FUSE_NOTIFY_INVAL_INODE, &arg, none.as_slice(), false);
    assert(arg.encoded() + none@ =~= arg.encoded());
    f
}

/// Tells the kernel to drop the entry `name` of the directory `parent` from
/// its cache. `None` where the name is too long for one frame.
pub fn notify_inval_entry(parent: u64, name: &[u8]) -> (r: Option<Vec<u8>>)
    ensures
        match r {
            Some(f) => fits(17 + name@.len()) && f@ == notification(
                FUSE_NOTIFY_INVAL_ENTRY,
                named(
                    NotifyInvalEntryOut { parent, namelen: name@.len() as u32, padding: 0 },
                    name@,
                ),
            ),
            None => !fits(17 + name@.len()),
        },
{
    if name.len() > 0xffff_ffff - 33 {
        return None;
    }
    let arg = NotifyInvalEntryOut { parent, namelen: name.len() as u32, padding: 0 };
    Some(build_notification(FUSE_NOTIFY_INVAL_ENTRY, &arg, name, true))
}

/// Tells the kernel that the entry `name` of the directory `parent`, which
/// was the inode `child`, is gone. `None` where the name is too long for one
/// frame.
pub fn notify_delete(parent: u64, child: u64, name: &[u8]) -> (r: Option<Vec<u8>>)
    ensures
        match r {
            Some(f) => fits(25 + name@.len()) && f@ == notification(
                FUSE_NOTIFY_DELETE,
                named(
                    NotifyDeleteOut { parent, child, namelen: name@.len() as u32, padding: 0 },
                    name@,
                ),
            ),
            None => !fits(25 + name@.len()),
        },
{
    if name.len() > 0xffff_ffff - 41 {
        return None;
    }
    let arg = NotifyDeleteOut { parent, child, namelen: name.len() as u32, padding: 0 };
    Some(build_notification(FUSE_NOTIFY_DELETE, &arg, name, true))
}

/// Hands the kernel `data` for its cache of the inode `ino`, to stand from
/// `offset` on. `None` where the data are too long for one frame.
pub fn notify_store(ino: u64, offset: u64, data: &[u8]) -> (r: Option<Vec<u8>>)
    ensures
        match r {
            Some(f) => fits(24 + data@.len()) && f@ == notification(
                FUSE_NOTIFY_STORE,
                (NotifyStoreOut {
                    nodeid: ino,
                    offset,
                    size: data@.len() as u32,
                    padding: 0,
                }).encoded() + data@,
            ),
            None => !fits(24 + data@.len()),
        },
{
    if data.len() > 0xffff_ffff - 40 {
        return None;
    }
    let arg = NotifyStoreOut { nodeid: ino, offset, size: data.len() as u32, padding: 0 };
    Some(build_notification(FUSE_NOTIFY_STORE, &arg, data, false))
}

/// Asks the kernel for `size` bytes of what it has cached of the inode
/// `ino`, from `offset` on. The kernel answers with a request of its own
/// that names `unique`.
pub fn notify_retrieve(unique: u64, ino: u64, offset: u64, size: u32) -> (f: Vec<u8>)
    ensures
        f@ == notification(
            FUSE_NOTIFY_RETRIEVE,
            (NotifyRetrieveOut {
                notify_unique: unique,
                nodeid: ino,
                offset,
                size,
                padding: 0,
            }).encoded(),
        ),
{
    let arg = NotifyRetrieveOut { notify_unique: unique, nodeid: ino, offset, size, padding: 0 };
    let none: Vec<u8> = Vec::new();
    let f = build_notification(FUSE_NOTIFY_RETRIEVE, &arg, none.as_slice(), false);
    assert(arg.encoded() + none@ =~= arg.encoded());
    f
}

} // verus!
