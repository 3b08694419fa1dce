use polyfuse::abi;
use polyfuse::request::{parse, Operation};
use polyfuse::wire::Wire;
use polyfuse::InHeader;
use polyfuse_kernel::fuse_opcode;

#[test]
fn protocol_version_is_that_of_the_kernel_crate() {
    assert_eq!(abi::FUSE_KERNEL_VERSION, polyfuse_kernel::FUSE_KERNEL_VERSION);
    assert_eq!(abi::FUSE_KERNEL_VERSION, 7);
    assert_eq!(abi::FUSE_KERNEL_MINOR_VERSION, polyfuse_kernel::FUSE_KERNEL_MINOR_VERSION);
    assert_eq!(abi::FUSE_KERNEL_MINOR_VERSION, 31);
}

#[test]
fn capability_bits_are_those_of_the_kernel_crate() {
    assert_eq!(abi::FUSE_ASYNC_READ, polyfuse_kernel::FUSE_ASYNC_READ);
    assert_eq!(abi::FUSE_POSIX_LOCKS, polyfuse_kernel::FUSE_POSIX_LOCKS);
    assert_eq!(abi::FUSE_FILE_OPS, polyfuse_kernel::FUSE_FILE_OPS);
    assert_eq!(abi::FUSE_ATOMIC_O_TRUNC, polyfuse_kernel::FUSE_ATOMIC_O_TRUNC);
    assert_eq!(abi::FUSE_EXPORT_SUPPORT, polyfuse_kernel::FUSE_EXPORT_SUPPORT);
    assert_eq!(abi::FUSE_BIG_WRITES, polyfuse_kernel::FUSE_BIG_WRITES);
    assert_eq!(abi::FUSE_DONT_MASK, polyfuse_kernel::FUSE_DONT_MASK);
    assert_eq!(abi::FUSE_FLOCK_LOCKS, polyfuse_kernel::FUSE_FLOCK_LOCKS);
    assert_eq!(abi::FUSE_HAS_IOCTL_DIR, polyfuse_kernel::FUSE_HAS_IOCTL_DIR);
    assert_eq!(abi::FUSE_AUTO_INVAL_DATA, polyfuse_kernel::FUSE_AUTO_INVAL_DATA);
    assert_eq!(abi::FUSE_DO_READDIRPLUS, polyfuse_kernel::FUSE_DO_READDIRPLUS);
    assert_eq!(abi::FUSE_READDIRPLUS_AUTO, polyfuse_kernel::FUSE_READDIRPLUS_AUTO);
    assert_eq!(abi::FUSE_ASYNC_DIO, polyfuse_kernel::FUSE_ASYNC_DIO);
    assert_eq!(abi::FUSE_WRITEBACK_CACHE, polyfuse_kernel::FUSE_WRITEBACK_CACHE);
    assert_eq!(abi::FUSE_NO_OPEN_SUPPORT, polyfuse_kernel::FUSE_NO_OPEN_SUPPORT);
    assert_eq!(abi::FUSE_PARALLEL_DIROPS, polyfuse_kernel::FUSE_PARALLEL_DIROPS);
    assert_eq!(abi::FUSE_HANDLE_KILLPRIV, polyfuse_kernel::FUSE_HANDLE_KILLPRIV);
    assert_eq!(abi::FUSE_POSIX_ACL, polyfuse_kernel::FUSE_POSIX_ACL);
    assert_eq!(abi::FUSE_MAX_PAGES, polyfuse_kernel::FUSE_MAX_PAGES);
    assert_eq!(abi::FUSE_NO_OPENDIR_SUPPORT, polyfuse_kernel::FUSE_NO_OPENDIR_SUPPORT);
}

#[test]
fn recognized_flags_are_the_twenty_capabilities() {
    let all = [
        abi::FUSE_ASYNC_READ,
        abi::FUSE_POSIX_LOCKS,
        abi::FUSE_FILE_OPS,
        abi::FUSE_ATOMIC_O_TRUNC,
        abi::FUSE_EXPORT_SUPPORT,
        abi::FUSE_BIG_WRITES,
        abi::FUSE_DONT_MASK,
        abi::FUSE_FLOCK_LOCKS,
        abi::FUSE_HAS_IOCTL_DIR,
        abi::FUSE_AUTO_INVAL_DATA,
        abi::FUSE_DO_READDIRPLUS,
        abi::FUSE_READDIRPLUS_AUTO,
        abi::FUSE_ASYNC_DIO,
        abi::FUSE_WRITEBACK_CACHE,
        abi::FUSE_NO_OPEN_SUPPORT,
        abi::FUSE_PARALLEL_DIROPS,
        abi::FUSE_HANDLE_KILLPRIV,
        abi::FUSE_POSIX_ACL,
        abi::FUSE_MAX_PAGES,
        abi::FUSE_NO_OPENDIR_SUPPORT,
    ];
    let mut mask = 0u32;
    for bit in all {
        assert_eq!(bit.count_ones(), 1);
        assert_eq!(mask & bit, 0);
        mask |= bit;
    }
    assert_eq!(abi::RECOGNIZED_FLAGS, mask);
    assert_eq!(abi::RECOGNIZED_FLAGS, 0x015f_fc7f);
}

#[test]
fn default_flags_are_the_six_capabilities() {
    assert_eq!(
        abi::DEFAULT_FLAGS,
        abi::FUSE_ASYNC_READ
            | abi::FUSE_ATOMIC_O_TRUNC
            | abi::FUSE_AUTO_INVAL_DATA
            | abi::FUSE_ASYNC_DIO
            | abi::FUSE_PARALLEL_DIROPS
            | abi::FUSE_HANDLE_KILLPRIV
    );
}

#[test]
fn opcodes_are_those_of_the_kernel_crate() {
    assert_eq!(abi::FUSE_LOOKUP, polyfuse_kernel::FUSE_LOOKUP);
    assert_eq!(abi::FUSE_FORGET, polyfuse_kernel::FUSE_FORGET);
    assert_eq!(abi::FUSE_GETATTR, polyfuse_kernel::FUSE_GETATTR);
    assert_eq!(abi::FUSE_SETATTR, polyfuse_kernel::FUSE_SETATTR);
    assert_eq!(abi::FUSE_READLINK, polyfuse_kernel::FUSE_READLINK);
    assert_eq!(abi::FUSE_SYMLINK, polyfuse_kernel::FUSE_SYMLINK);
    assert_eq!(abi::FUSE_MKNOD, polyfuse_kernel::FUSE_MKNOD);
    assert_eq!(abi::FUSE_MKDIR, polyfuse_kernel::FUSE_MKDIR);
    assert_eq!(abi::FUSE_UNLINK, polyfuse_kernel::FUSE_UNLINK);
    assert_eq!(abi::FUSE_RMDIR, polyfuse_kernel::FUSE_RMDIR);
    assert_eq!(abi::FUSE_RENAME, polyfuse_kernel::FUSE_RENAME);
    assert_eq!(abi::FUSE_LINK, polyfuse_kernel::FUSE_LINK);
    assert_eq!(abi::FUSE_OPEN, polyfuse_kernel::FUSE_OPEN);
    assert_eq!(abi::FUSE_READ, polyfuse_kernel::FUSE_READ);
    assert_eq!(abi::FUSE_WRITE, polyfuse_kernel::FUSE_WRITE);
    assert_eq!(abi::FUSE_STATFS, polyfuse_kernel::FUSE_STATFS);
    assert_eq!(abi::FUSE_RELEASE, polyfuse_kernel::FUSE_RELEASE);
    assert_eq!(abi::FUSE_FSYNC, polyfuse_kernel::FUSE_FSYNC);
    assert_eq!(abi::FUSE_SETXATTR, polyfuse_kernel::FUSE_SETXATTR);
    assert_eq!(abi::FUSE_GETXATTR, polyfuse_kernel::FUSE_GETXATTR);
    assert_eq!(abi::FUSE_LISTXATTR, polyfuse_kernel::FUSE_LISTXATTR);
    assert_eq!(abi::FUSE_REMOVEXATTR, polyfuse_kernel::FUSE_REMOVEXATTR);
    assert_eq!(abi::FUSE_FLUSH, polyfuse_kernel::FUSE_FLUSH);
    assert_eq!(abi::FUSE_INIT, polyfuse_kernel::FUSE_INIT);
    assert_eq!(abi::FUSE_OPENDIR, polyfuse_kernel::FUSE_OPENDIR);
    assert_eq!(abi::FUSE_READDIR, polyfuse_kernel::FUSE_READDIR);
    assert_eq!(abi::FUSE_RELEASEDIR, polyfuse_kernel::FUSE_RELEASEDIR);
    assert_eq!(abi::FUSE_FSYNCDIR, polyfuse_kernel::FUSE_FSYNCDIR);
    assert_eq!(abi::FUSE_GETLK, polyfuse_kernel::FUSE_GETLK);
    assert_eq!(abi::FUSE_SETLK, polyfuse_kernel::FUSE_SETLK);
    assert_eq!(abi::FUSE_SETLKW, polyfuse_kernel::FUSE_SETLKW);
    assert_eq!(abi::FUSE_ACCESS, polyfuse_kernel::FUSE_ACCESS);
    assert_eq!(abi::FUSE_CREATE, polyfuse_kernel::FUSE_CREATE);
    assert_eq!(abi::FUSE_INTERRUPT, polyfuse_kernel::FUSE_INTERRUPT);
    assert_eq!(abi::FUSE_BMAP, polyfuse_kernel::FUSE_BMAP);
    assert_eq!(abi::FUSE_DESTROY, polyfuse_kernel::FUSE_DESTROY);
    assert_eq!(abi::FUSE_IOCTL, polyfuse_kernel::FUSE_IOCTL);
    assert_eq!(abi::FUSE_POLL, polyfuse_kernel::FUSE_POLL);
    assert_eq!(abi::FUSE_NOTIFY_REPLY, polyfuse_kernel::FUSE_NOTIFY_REPLY);
    assert_eq!(abi::FUSE_BATCH_FORGET, polyfuse_kernel::FUSE_BATCH_FORGET);
    assert_eq!(abi::FUSE_FALLOCATE, polyfuse_kernel::FUSE_FALLOCATE);
    assert_eq!(abi::FUSE_READDIRPLUS, polyfuse_kernel::FUSE_READDIRPLUS);
    assert_eq!(abi::FUSE_RENAME2, polyfuse_kernel::FUSE_RENAME2);
    assert_eq!(abi::FUSE_LSEEK, polyfuse_kernel::FUSE_LSEEK);
    assert_eq!(abi::FUSE_COPY_FILE_RANGE, polyfuse_kernel::FUSE_COPY_FILE_RANGE);
}

#[test]
fn notification_codes_are_those_of_the_kernel_crate() {
    assert_eq!(abi::FUSE_NOTIFY_POLL, polyfuse_kernel::FUSE_NOTIFY_POLL);
    assert_eq!(abi::FUSE_NOTIFY_INVAL_INODE, polyfuse_kernel::FUSE_NOTIFY_INVAL_INODE);
    assert_eq!(abi::FUSE_NOTIFY_INVAL_ENTRY, polyfuse_kernel::FUSE_NOTIFY_INVAL_ENTRY);
    assert_eq!(abi::FUSE_NOTIFY_STORE, polyfuse_kernel::FUSE_NOTIFY_STORE);
    assert_eq!(abi::FUSE_NOTIFY_RETRIEVE, polyfuse_kernel::FUSE_NOTIFY_RETRIEVE);
    assert_eq!(abi::FUSE_NOTIFY_DELETE, polyfuse_kernel::FUSE_NOTIFY_DELETE);
}

#[test]
fn error_numbers_are_those_of_the_system() {
    assert_eq!(abi::ENOENT, libc::ENOENT);
    assert_eq!(abi::EINTR, libc::EINTR);
    assert_eq!(abi::EIO, libc::EIO);
    assert_eq!(abi::ENODEV, libc::ENODEV);
    assert_eq!(abi::ENOSYS, libc::ENOSYS);
    assert_eq!(abi::EPROTO, libc::EPROTO);
    assert_eq!(abi::ENOENT, 2);
    assert_eq!(abi::EINTR, 4);
    assert_eq!(abi::EIO, 5);
    assert_eq!(abi::ENODEV, 19);
    assert_eq!(abi::ENOSYS, 38);
    assert_eq!(abi::EPROTO, 71);
}

fn bare_request(opcode: u32) -> Vec<u8> {
    let header = InHeader {
        len: 40,
        opcode,
        unique: 1,
        nodeid: 1,
        uid: 0,
        gid: 0,
        pid: 0,
        padding: 0,
    };
    let mut buf = Vec::new();
    header.encode(&mut buf);
    buf
}

#[test]
fn the_parser_knows_the_operations_that_the_kernel_crate_knows() {
    for opcode in 0..5000u32 {
        let buf = bare_request(opcode);
        let unknown =
            matches!(parse(&buf), Ok((_, Operation::Unknown { opcode: n })) if n == opcode);
        let theirs = fuse_opcode::try_from(opcode).is_ok();
        if opcode == polyfuse_kernel::CUSE_INIT {
            assert!(theirs);
            assert!(unknown);
        } else {
            assert_eq!(unknown, !theirs, "opcode {}", opcode);
        }
    }
}
