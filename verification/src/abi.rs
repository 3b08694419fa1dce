//! The numbers of the kernel protocol, version 7.31.

use vstd::prelude::*;

verus! {

/// The major version of the protocol that this library speaks.
pub const FUSE_KERNEL_VERSION: u32 = 7;

/// The minor version of the protocol that this library speaks.
pub const FUSE_KERNEL_MINOR_VERSION: u32 = 31;

// Capabilities that the two sides agree on during the handshake.
pub const FUSE_ASYNC_READ: u32 = 0x0000_0001;

pub const FUSE_POSIX_LOCKS: u32 = 0x0000_0002;

pub const FUSE_FILE_OPS: u32 = 0x0000_0004;

pub const FUSE_ATOMIC_O_TRUNC: u32 = 0x0000_0008;

pub const FUSE_EXPORT_SUPPORT: u32 = 0x0000_0010;

pub const FUSE_BIG_WRITES: u32 = 0x0000_0020;

pub const FUSE_DONT_MASK: u32 = 0x0000_0040;

pub const FUSE_FLOCK_LOCKS: u32 = 0x0000_0400;

pub const FUSE_HAS_IOCTL_DIR: u32 = 0x0000_0800;

pub const FUSE_AUTO_INVAL_DATA: u32 = 0x0000_1000;

pub const FUSE_DO_READDIRPLUS: u32 = 0x0000_2000;

pub const FUSE_READDIRPLUS_AUTO: u32 = 0x0000_4000;

pub const FUSE_ASYNC_DIO: u32 = 0x0000_8000;

pub const FUSE_WRITEBACK_CACHE: u32 = 0x0001_0000;

pub const FUSE_NO_OPEN_SUPPORT: u32 = 0x0002_0000;

pub const FUSE_PARALLEL_DIROPS: u32 = 0x0004_0000;

pub const FUSE_HANDLE_KILLPRIV: u32 = 0x0008_0000;

pub const FUSE_POSIX_ACL: u32 = 0x0010_0000;

pub const FUSE_MAX_PAGES: u32 = 0x0040_0000;

pub const FUSE_NO_OPENDIR_SUPPORT: u32 = 0x0100_0000;

// Operations.
pub const FUSE_LOOKUP: u32 = 1;

pub const FUSE_FORGET: u32 = 2;

pub const FUSE_GETATTR: u32 = 3;

pub const FUSE_SETATTR: u32 = 4;

pub const FUSE_READLINK: u32 = 5;

pub const FUSE_SYMLINK: u32 = 6;

pub const FUSE_MKNOD: u32 = 8;

pub const FUSE_MKDIR: u32 = 9;

pub const FUSE_UNLINK: u32 = 10;

pub const FUSE_RMDIR: u32 = 11;

pub const FUSE_RENAME: u32 = 12;

pub const FUSE_LINK: u32 = 13;

pub const FUSE_OPEN: u32 = 14;

pub const FUSE_READ: u32 = 15;

pub const FUSE_WRITE: u32 = 16;

pub const FUSE_STATFS: u32 = 17;

pub const FUSE_RELEASE: u32 = 18;

pub const FUSE_FSYNC: u32 = 20;

pub const FUSE_SETXATTR: u32 = 21;

pub const FUSE_GETXATTR: u32 = 22;

pub const FUSE_LISTXATTR: u32 = 23;

pub const FUSE_REMOVEXATTR: u32 = 24;

pub const FUSE_FLUSH: u32 = 25;

pub const FUSE_INIT: u32 = 26;

pub const FUSE_OPENDIR: u32 = 27;

pub const FUSE_READDIR: u32 = 28;

pub const FUSE_RELEASEDIR: u32 = 29;

pub const FUSE_FSYNCDIR: u32 = 30;

pub const FUSE_GETLK: u32 = 31;

pub const FUSE_SETLK: u32 = 32;

pub const FUSE_SETLKW: u32 = 33;

pub const FUSE_ACCESS: u32 = 34;

pub const FUSE_CREATE: u32 = 35;

pub const FUSE_INTERRUPT: u32 = 36;

pub const FUSE_BMAP: u32 = 37;

pub const FUSE_DESTROY: u32 = 38;

pub const FUSE_IOCTL: u32 = 39;

pub const FUSE_POLL: u32 = 40;

pub const FUSE_NOTIFY_REPLY: u32 = 41;

pub const FUSE_BATCH_FORGET: u32 = 42;

pub const FUSE_FALLOCATE: u32 = 43;

pub const FUSE_READDIRPLUS: u32 = 44;

pub const FUSE_RENAME2: u32 = 45;

pub const FUSE_LSEEK: u32 = 46;

pub const FUSE_COPY_FILE_RANGE: u32 = 47;

// Notifications.
pub const FUSE_NOTIFY_POLL: u32 = 1;

pub const FUSE_NOTIFY_INVAL_INODE: u32 = 2;

pub const FUSE_NOTIFY_INVAL_ENTRY: u32 = 3;

pub const FUSE_NOTIFY_STORE: u32 = 4;

pub const FUSE_NOTIFY_RETRIEVE: u32 = 5;

pub const FUSE_NOTIFY_DELETE: u32 = 6;

// Error numbers of Linux that the core itself sends or reacts to.
pub const ENOENT: i32 = 2;

pub const EINTR: i32 = 4;

pub const EIO: i32 = 5;

pub const ENODEV: i32 = 19;

pub const ENOSYS: i32 = 38;

pub const EPROTO: i32 = 71;

/// Every capability that the core knows: the twenty declared above.
pub const RECOGNIZED_FLAGS: u32 = 0x015f_fc7f;

/// The capabilities that a server asks for unless it says otherwise:
/// `FUSE_ASYNC_READ`, `FUSE_ATOMIC_O_TRUNC`, `FUSE_AUTO_INVAL_DATA`,
/// `FUSE_ASYNC_DIO`, `FUSE_PARALLEL_DIROPS` and `FUSE_HANDLE_KILLPRIV`.
pub const DEFAULT_FLAGS: u32 = 0x000c_9009;

/// The two masks are made of the capabilities that their comments name.
pub proof fn lemma_masks()
    ensures
        RECOGNIZED_FLAGS == FUSE_ASYNC_READ | FUSE_POSIX_LOCKS | FUSE_FILE_OPS | FUSE_ATOMIC_O_TRUNC
            | FUSE_EXPORT_SUPPORT | FUSE_BIG_WRITES | FUSE_DONT_MASK | FUSE_FLOCK_LOCKS
            | FUSE_HAS_IOCTL_DIR | FUSE_AUTO_INVAL_DATA | FUSE_DO_READDIRPLUS
            | FUSE_READDIRPLUS_AUTO | FUSE_ASYNC_DIO | FUSE_WRITEBACK_CACHE | FUSE_NO_OPEN_SUPPORT
            | FUSE_PARALLEL_DIROPS | FUSE_HANDLE_KILLPRIV | FUSE_POSIX_ACL | FUSE_MAX_PAGES
            | FUSE_NO_OPENDIR_SUPPORT,
        DEFAULT_FLAGS == FUSE_ASYNC_READ | FUSE_ATOMIC_O_TRUNC | FUSE_AUTO_INVAL_DATA
            | FUSE_ASYNC_DIO | FUSE_PARALLEL_DIROPS | FUSE_HANDLE_KILLPRIV,
        DEFAULT_FLAGS & !RECOGNIZED_FLAGS == 0,
        FUSE_BIG_WRITES & !RECOGNIZED_FLAGS == 0,
        FUSE_MAX_PAGES & !RECOGNIZED_FLAGS == 0,
{
    assert(0x015f_fc7fu32 == 0x0000_0001u32 | 0x0000_0002u32 | 0x0000_0004u32 | 0x0000_0008u32
        | 0x0000_0010u32 | 0x0000_0020u32 | 0x0000_0040u32 | 0x0000_0400u32 | 0x0000_0800u32
        | 0x0000_1000u32 | 0x0000_2000u32 | 0x0000_4000u32 | 0x0000_8000u32 | 0x0001_0000u32
        | 0x0002_0000u32 | 0x0004_0000u32 | 0x0008_0000u32 | 0x0010_0000u32 | 0x0040_0000u32
        | 0x0100_0000u32) by (bit_vector);
    assert(0x000c_9009u32 == 0x0000_0001u32 | 0x0000_0008u32 | 0x0000_1000u32 | 0x0000_8000u32
        | 0x0004_0000u32 | 0x0008_0000u32) by (bit_vector);
    assert(0x000c_9009u32 & !0x015f_fc7fu32 == 0) by (bit_vector);
    assert(0x0000_0020u32 & !0x015f_fc7fu32 == 0) by (bit_vector);
    assert(0x0040_0000u32 & !0x015f_fc7fu32 == 0) by (bit_vector);
}

} // verus!
