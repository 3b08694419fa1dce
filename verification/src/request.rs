//! The typed view of a request.
//!
//! A request is a header, the fixed arguments of its operation, and what the
//! operation adds to them: names that end in a zero byte, data of a declared
//! length, or all that is left of the message. `parse` takes one whole
//! message apart. What it hands out borrows from the message.

use crate::abi::{
    FUSE_ACCESS, FUSE_BATCH_FORGET, FUSE_BMAP, FUSE_COPY_FILE_RANGE, FUSE_CREATE, FUSE_DESTROY,
    FUSE_FALLOCATE, FUSE_FLUSH, FUSE_FORGET, FUSE_FSYNC, FUSE_FSYNCDIR, FUSE_GETATTR, FUSE_GETLK,
    FUSE_GETXATTR, FUSE_INIT, FUSE_INTERRUPT, FUSE_IOCTL, FUSE_LINK, FUSE_LISTXATTR, FUSE_LOOKUP,
    FUSE_LSEEK, FUSE_MKDIR, FUSE_MKNOD, FUSE_NOTIFY_REPLY, FUSE_OPEN, FUSE_OPENDIR, FUSE_POLL,
    FUSE_READ, FUSE_READDIR, FUSE_READDIRPLUS, FUSE_READLINK, FUSE_RELEASE, FUSE_RELEASEDIR,
    FUSE_REMOVEXATTR, FUSE_RENAME, FUSE_RENAME2, FUSE_RMDIR, FUSE_SETATTR, FUSE_SETLK, FUSE_SETLKW,
    FUSE_SETXATTR, FUSE_STATFS, FUSE_SYMLINK, FUSE_UNLINK, FUSE_WRITE,
};
use crate::args::{
    AccessIn, BatchForgetIn, BmapIn, CopyFileRangeIn, CreateIn, FallocateIn, FlushIn, ForgetIn,
    ForgetOne, FsyncIn, GetattrIn, GetxattrIn, InterruptIn, IoctlIn, LinkIn, LkIn, LseekIn,
    MkdirIn, MknodIn, NotifyRetrieveIn, OpenIn, PollIn, ReadIn, ReleaseIn, Rename2In, RenameIn,
    SetattrIn, SetxattrIn, WriteIn,
};
use crate::decoder::{
    is_name, lemma_take, lemma_take_bytes, lemma_take_name, take, take_bytes, take_name, zero,
    DecodeError, Decoder,
};
use crate::header::{InHeader, InitIn};
use crate::wire::{put_bytes, Wire};
use vstd::prelude::*;
use vstd::slice::slice_subrange;

verus! {

/// One operation that the kernel asks for, with its arguments.
///
/// `B` is a string of bytes: a slice of the message in a parsed request, a
/// sequence in its view.
#[allow(inconsistent_fields)]
#[derive(Clone, Copy, Debug, PartialEq, Eq)]
pub enum Operation<B> {
    /// Look up the entry `name` of a directory.
    Lookup { name: B },
    /// Drop references to an inode.
    Forget { arg: ForgetIn },
    /// Read the attributes of an inode.
    Getattr { arg: GetattrIn },
    /// Change the attributes of an inode.
    Setattr { arg: SetattrIn },
    /// Read the target of a symbolic link.
    Readlink,
    /// Create the symbolic link `name` with the target `link`.
    Symlink { name: B, link: B },
    /// Create a file node.
    Mknod { arg: MknodIn, name: B },
    /// Create a directory.
    Mkdir { arg: MkdirIn, name: B },
    /// Remove a file.
    Unlink { name: B },
    /// Remove a directory.
    Rmdir { name: B },
    /// Move the entry `name` to `newname` in the directory that `arg` gives.
    Rename { arg: RenameIn, name: B, newname: B },
    /// Create a hard link.
    Link { arg: LinkIn, newname: B },
    /// Open a file.
    Open { arg: OpenIn },
    /// Read from a file.
    Read { arg: ReadIn },
    /// Write `data`, of `arg.size` bytes, to a file.
    Write { arg: WriteIn, data: B },
    /// Read the statistics of the filesystem.
    Statfs,
    /// Close a file.
    Release { arg: ReleaseIn },
    /// Flush a file to storage.
    Fsync { arg: FsyncIn },
    /// Set the extended attribute `name` to `value`, of `arg.size` bytes.
    Setxattr { arg: SetxattrIn, name: B, value: B },
    /// Read an extended attribute.
    Getxattr { arg: GetxattrIn, name: B },
    /// List the extended attributes.
    Listxattr { arg: GetxattrIn },
    /// Remove an extended attribute.
    Removexattr { name: B },
    /// A file descriptor of the file is closed.
    Flush { arg: FlushIn },
    /// Open the connection.
    Init { arg: InitIn },
    /// Open a directory.
    Opendir { arg: OpenIn },
    /// Read entries of a directory.
    Readdir { arg: ReadIn },
    /// Close a directory.
    Releasedir { arg: ReleaseIn },
    /// Flush a directory to storage.
    Fsyncdir { arg: FsyncIn },
    /// Test for a lock.
    Getlk { arg: LkIn },
    /// Take or release a lock.
    Setlk { arg: LkIn },
    /// Take a lock, waiting for it.
    Setlkw { arg: LkIn },
    /// Check the access rights.
    Access { arg: AccessIn },
    /// Create and open a file.
    Create { arg: CreateIn, name: B },
    /// Give up an earlier request.
    Interrupt { arg: InterruptIn },
    /// Map a block of a file to a block of the device.
    Bmap { arg: BmapIn },
    /// The filesystem is unmounted.
    Destroy,
    /// A device control call with `data`, of `arg.in_size` bytes.
    Ioctl { arg: IoctlIn, data: B },
    /// Poll a file for events.
    Poll { arg: PollIn },
    /// The answer to a retrieve notification: `data` is all that follows `arg`.
    NotifyReply { arg: NotifyRetrieveIn, data: B },
    /// Drop references to several inodes: `entries` holds `arg.count` images of `ForgetOne`.
    BatchForget { arg: BatchForgetIn, entries: B },
    /// Reserve or free space of a file.
    Fallocate { arg: FallocateIn },
    /// Read entries of a directory with their attributes.
    Readdirplus { arg: ReadIn },
    /// Move an entry, with flags.
    Rename2 { arg: Rename2In, name: B, newname: B },
    /// Find data or a hole in a file.
    Lseek { arg: LseekIn },
    /// Copy a range of bytes from one file to another.
    CopyFileRange { arg: CopyFileRangeIn },
    /// An operation that the core does not know, with its number.
    Unknown { opcode: u32 },
}

impl<'a> View for Operation<&'a [u8]> {
    type V = Operation<Seq<u8>>;

    open spec fn view(&self) -> Operation<Seq<u8>> {
        match *self {
            Operation::Lookup { name } => Operation::Lookup { name: name@ },
            Operation::Forget { arg } => Operation::Forget { arg },
            Operation::Getattr { arg } => Operation::Getattr { arg },
            Operation::Setattr { arg } => Operation::Setattr { arg },
            Operation::Readlink => Operation::Readlink,
            Operation::Symlink { name, link } => Operation::Symlink { name: name@, link: link@ },
            Operation::Mknod { arg, name } => Operation::Mknod { arg, name: name@ },
            Operation::Mkdir { arg, name } => Operation::Mkdir { arg, name: name@ },
            Operation::Unlink { name } => Operation::Unlink { name: name@ },
            Operation::Rmdir { name } => Operation::Rmdir { name: name@ },
            Operation::Rename { arg, name, newname } => Operation::Rename {
                arg,
                name: name@,
                newname: newname@,
            },
            Operation::Link { arg, newname } => Operation::Link { arg, newname: newname@ },
            Operation::Open { arg } => Operation::Open { arg },
            Operation::Read { arg } => Operation::Read { arg },
            Operation::Write { arg, data } => Operation::Write { arg, data: data@ },
            Operation::Statfs => Operation::Statfs,
            Operation::Release { arg } => Operation::Release { arg },
            Operation::Fsync { arg } => Operation::Fsync { arg },
            Operation::Setxattr { arg, name, value } => Operation::Setxattr {
                arg,
                name: name@,
                value: value@,
            },
            Operation::Getxattr { arg, name } => Operation::Getxattr { arg, name: name@ },
            Operation::Listxattr { arg } => Operation::Listxattr { arg },
            Operation::Removexattr { name } => Operation::Removexattr { name: name@ },
            Operation::Flush { arg } => Operation::Flush { arg },
            Operation::Init { arg } => Operation::Init { arg },
            Operation::Opendir { arg } => Operation::Opendir { arg },
            Operation::Readdir { arg } => Operation::Readdir { arg },
            Operation::Releasedir { arg } => Operation::Releasedir { arg },
            Operation::Fsyncdir { arg } => Operation::Fsyncdir { arg },
            Operation::Getlk { arg } => Operation::Getlk { arg },
            Operation::Setlk { arg } => Operation::Setlk { arg },
            Operation::Setlkw { arg } => Operation::Setlkw { arg },
            Operation::Access { arg } => Operation::Access { arg },
            Operation::Create { arg, name } => Operation::Create { arg, name: name@ },
            Operation::Interrupt { arg } => Operation::Interrupt { arg },
            Operation::Bmap { arg } => Operation::Bmap { arg },
            Operation::Destroy => Operation::Destroy,
            Operation::Ioctl { arg, data } => Operation::Ioctl { arg, data: data@ },
            Operation::Poll { arg } => Operation::Poll { arg },
            Operation::NotifyReply { arg, data } => Operation::NotifyReply { arg, data: data@ },
            Operation::BatchForget { arg, entries } => Operation::BatchForget {
                arg,
                entries: entries@,
            },
            Operation::Fallocate { arg } => Operation::Fallocate { arg },
            Operation::Readdirplus { arg } => Operation::Readdirplus { arg },
            Operation::Rename2 { arg, name, newname } => Operation::Rename2 {
                arg,
                name: name@,
                newname: newname@,
            },
            Operation::Lseek { arg } => Operation::Lseek { arg },
            Operation::CopyFileRange { arg } => Operation::CopyFileRange { arg },
            Operation::Unknown { opcode } => Operation::Unknown { opcode },
        }
    }
}

/// Whether the core knows the operation with the number `opcode`.
pub open spec fn is_known(opcode: u32) -> bool {
    matches!(
        opcode,
        FUSE_LOOKUP
            | FUSE_FORGET
            | FUSE_GETATTR
            | FUSE_SETATTR
            | FUSE_READLINK
            | FUSE_SYMLINK
            | FUSE_MKNOD
            | FUSE_MKDIR
            | FUSE_UNLINK
            | FUSE_RMDIR
            | FUSE_RENAME
            | FUSE_LINK
            | FUSE_OPEN
            | FUSE_READ
            | FUSE_WRITE
            | FUSE_STATFS
            | FUSE_RELEASE
            | FUSE_FSYNC
            | FUSE_SETXATTR
            | FUSE_GETXATTR
            | FUSE_LISTXATTR
            | FUSE_REMOVEXATTR
            | FUSE_FLUSH
            | FUSE_INIT
            | FUSE_OPENDIR
            | FUSE_READDIR
            | FUSE_RELEASEDIR
            | FUSE_FSYNCDIR
            | FUSE_GETLK
            | FUSE_SETLK
            | FUSE_SETLKW
            | FUSE_ACCESS
            | FUSE_CREATE
            | FUSE_INTERRUPT
            | FUSE_BMAP
            | FUSE_DESTROY
            | FUSE_IOCTL
            | FUSE_POLL
            | FUSE_NOTIFY_REPLY
            | FUSE_BATCH_FORGET
            | FUSE_FALLOCATE
            | FUSE_READDIRPLUS
            | FUSE_RENAME2
            | FUSE_LSEEK
            | FUSE_COPY_FILE_RANGE
    )
}

impl Operation<Seq<u8>> {
    /// The number of the operation.
    pub open spec fn opcode(self) -> u32 {
        match self {
            Operation::Lookup { .. } => FUSE_LOOKUP,
            Operation::Forget { .. } => FUSE_FORGET,
            Operation::Getattr { .. } => FUSE_GETATTR,
            Operation::Setattr { .. } => FUSE_SETATTR,
            Operation::Readlink => FUSE_READLINK,
            Operation::Symlink { .. } => FUSE_SYMLINK,
            Operation::Mknod { .. } => FUSE_MKNOD,
            Operation::Mkdir { .. } => FUSE_MKDIR,
            Operation::Unlink { .. } => FUSE_UNLINK,
            Operation::Rmdir { .. } => FUSE_RMDIR,
            Operation::Rename { .. } => FUSE_RENAME,
            Operation::Link { .. } => FUSE_LINK,
            Operation::Open { .. } => FUSE_OPEN,
            Operation::Read { .. } => FUSE_READ,
            Operation::Write { .. } => FUSE_WRITE,
            Operation::Statfs => FUSE_STATFS,
            Operation::Release { .. } => FUSE_RELEASE,
            Operation::Fsync { .. } => FUSE_FSYNC,
            Operation::Setxattr { .. } => FUSE_SETXATTR,
            Operation::Getxattr { .. } => FUSE_GETXATTR,
            Operation::Listxattr { .. } => FUSE_LISTXATTR,
            Operation::Removexattr { .. } => FUSE_REMOVEXATTR,
            Operation::Flush { .. } => FUSE_FLUSH,
            Operation::Init { .. } => FUSE_INIT,
            Operation::Opendir { .. } => FUSE_OPENDIR,
            Operation::Readdir { .. } => FUSE_READDIR,
            Operation::Releasedir { .. } => FUSE_RELEASEDIR,
            Operation::Fsyncdir { .. } => FUSE_FSYNCDIR,
            Operation::Getlk { .. } => FUSE_GETLK,
            Operation::Setlk { .. } => FUSE_SETLK,
            Operation::Setlkw { .. } => FUSE_SETLKW,
            Operation::Access { .. } => FUSE_ACCESS,
            Operation::Create { .. } => FUSE_CREATE,
            Operation::Interrupt { .. } => FUSE_INTERRUPT,
            Operation::Bmap { .. } => FUSE_BMAP,
            Operation::Destroy => FUSE_DESTROY,
            Operation::Ioctl { .. } => FUSE_IOCTL,
            Operation::Poll { .. } => FUSE_POLL,
            Operation::NotifyReply { .. } => FUSE_NOTIFY_REPLY,
            Operation::BatchForget { .. } => FUSE_BATCH_FORGET,
            Operation::Fallocate { .. } => FUSE_FALLOCATE,
            Operation::Readdirplus { .. } => FUSE_READDIRPLUS,
            Operation::Rename2 { .. } => FUSE_RENAME2,
            Operation::Lseek { .. } => FUSE_LSEEK,
            Operation::CopyFileRange { .. } => FUSE_COPY_FILE_RANGE,
            Operation::Unknown { opcode } => opcode,
        }
    }

    /// What follows the header in a request for the operation.
    pub open spec fn image(self) -> Seq<u8> {
        match self {
            Operation::Lookup { name } => name + zero(),
            Operation::Forget { arg } => arg.encoded(),
            Operation::Getattr { arg } => arg.encoded(),
            Operation::Setattr { arg } => arg.encoded(),
            Operation::Readlink => Seq::empty(),
            Operation::Symlink { name, link } => name + zero() + link + zero(),
            Operation::Mknod { arg, name } => arg.encoded() + name + zero(),
            Operation::Mkdir { arg, name } => arg.encoded() + name + zero(),
            Operation::Unlink { name } => name + zero(),
            Operation::Rmdir { name } => name + zero(),
            Operation::Rename { arg, name, newname } => arg.encoded() + name + zero() + newname
                + zero(),
            Operation::Link { arg, newname } => arg.encoded() + newname + zero(),
            Operation::Open { arg } => arg.encoded(),
            Operation::Read { arg } => arg.encoded(),
            Operation::Write { arg, data } => arg.encoded() + data,
            Operation::Statfs => Seq::empty(),
            Operation::Release { arg } => arg.encoded(),
            Operation::Fsync { arg } => arg.encoded(),
            Operation::Setxattr { arg, name, value } => arg.encoded() + name + zero() + value,
            Operation::Getxattr { arg, name } => arg.encoded() + name + zero(),
            Operation::Listxattr { arg } => arg.encoded(),
            Operation::Removexattr { name } => name + zero(),
            Operation::Flush { arg } => arg.encoded(),
            Operation::Init { arg } => arg.encoded(),
            Operation::Opendir { arg } => arg.encoded(),
            Operation::Readdir { arg } => arg.encoded(),
            Operation::Releasedir { arg } => arg.encoded(),
            Operation::Fsyncdir { arg } => arg.encoded(),
            Operation::Getlk { arg } => arg.encoded(),
            Operation::Setlk { arg } => arg.encoded(),
            Operation::Setlkw { arg } => arg.encoded(),
            Operation::Access { arg } => arg.encoded(),
            Operation::Create { arg, name } => arg.encoded() + name + zero(),
            Operation::Interrupt { arg } => arg.encoded(),
            Operation::Bmap { arg } => arg.encoded(),
            Operation::Destroy => Seq::empty(),
            Operation::Ioctl { arg, data } => arg.encoded() + data,
            Operation::Poll { arg } => arg.encoded(),
            Operation::NotifyReply { arg, data } => arg.encoded() + data,
            Operation::BatchForget { arg, entries } => arg.encoded() + entries,
            Operation::Fallocate { arg } => arg.encoded(),
            Operation::Readdirplus { arg } => arg.encoded(),
            Operation::Rename2 { arg, name, newname } => arg.encoded() + name + zero() + newname
                + zero(),
            Operation::Lseek { arg } => arg.encoded(),
            Operation::CopyFileRange { arg } => arg.encoded(),
            Operation::Unknown { .. } => Seq::empty(),
        }
    }

    /// Whether the parts of the operation fit together, so that a request
    /// can be made of them: no name holds a zero byte, every length that the
    /// arguments declare is the length of what it speaks of, and an unknown
    /// operation has a number that the core does not know.
    pub open spec fn is_well_formed(self) -> bool {
        match self {
            Operation::Lookup { name } => is_name(name),
            Operation::Symlink { name, link } => is_name(name) && is_name(link),
            Operation::Mknod { name, .. } => is_name(name),
            Operation::Mkdir { name, .. } => is_name(name),
            Operation::Unlink { name } => is_name(name),
            Operation::Rmdir { name } => is_name(name),
            Operation::Rename { name, newname, .. } => is_name(name) && is_name(newname),
            Operation::Link { newname, .. } => is_name(newname),
            Operation::Write { arg, data } => data.len() == arg.size,
            Operation::Setxattr { arg, name, value } => is_name(name) && value.len() == arg.size,
            Operation::Getxattr { name, .. } => is_name(name),
            Operation::Removexattr { name } => is_name(name),
            Operation::Create { name, .. } => is_name(name),
            Operation::Ioctl { arg, data } => data.len() == arg.in_size,
            Operation::BatchForget { arg, entries } => entries.len() == arg.count * 16,
            Operation::Rename2 { name, newname, .. } => is_name(name) && is_name(newname),
            Operation::Unknown { opcode } => !is_known(opcode),
            _ => true,
        }
    }
}

/// Two names, one after the other.
pub open spec fn two_names(p: Seq<u8>) -> Result<(Seq<u8>, Seq<u8>), DecodeError> {
    match take_name(p) {
        Ok((first, p)) => match take_name(p) {
            Ok((second, _)) => Ok((first, second)),
            Err(e) => Err(e),
        },
        Err(e) => Err(e),
    }
}

/// Fixed arguments and a name.
pub open spec fn arg_and_name<T: Wire>(p: Seq<u8>) -> Result<(T, Seq<u8>), DecodeError> {
    match take::<T>(p) {
        Ok((arg, p)) => match take_name(p) {
            Ok((name, _)) => Ok((arg, name)),
            Err(e) => Err(e),
        },
        Err(e) => Err(e),
    }
}

/// Fixed arguments and two names.
pub open spec fn arg_and_two_names<T: Wire>(p: Seq<u8>) -> Result<
    (T, Seq<u8>, Seq<u8>),
    DecodeError,
> {
    match take::<T>(p) {
        Ok((arg, p)) => match two_names(p) {
            Ok((first, second)) => Ok((arg, first, second)),
            Err(e) => Err(e),
        },
        Err(e) => Err(e),
    }
}

/// The operation that the bytes `p`, which follow the header of a request
/// with the number `opcode`, stand for.
pub open spec fn parse_payload(opcode: u32, p: Seq<u8>) -> Result<Operation<Seq<u8>>, DecodeError> {
    match opcode {
        FUSE_LOOKUP => match take_name(p) {
            Ok((name, _)) => Ok(Operation::Lookup { name }),
            Err(e) => Err(e),
        },
        FUSE_FORGET => match take::<ForgetIn>(p) {
            Ok((arg, _)) => Ok(Operation::Forget { arg }),
            Err(e) => Err(e),
        },
        FUSE_GETATTR => match take::<GetattrIn>(p) {
            Ok((arg, _)) => Ok(Operation::Getattr { arg }),
            Err(e) => Err(e),
        },
        FUSE_SETATTR => match take::<SetattrIn>(p) {
            Ok((arg, _)) => Ok(Operation::Setattr { arg }),
            Err(e) => Err(e),
        },
        FUSE_READLINK => Ok(Operation::Readlink),
        FUSE_SYMLINK => match two_names(p) {
            Ok((name, link)) => Ok(Operation::Symlink { name, link }),
            Err(e) => Err(e),
        },
        FUSE_MKNOD => match arg_and_name::<MknodIn>(p) {
            Ok((arg, name)) => Ok(Operation::Mknod { arg, name }),
            Err(e) => Err(e),
        },
        FUSE_MKDIR => match arg_and_name::<MkdirIn>(p) {
            Ok((arg, name)) => Ok(Operation::Mkdir { arg, name }),
            Err(e) => Err(e),
        },
        FUSE_UNLINK => match take_name(p) {
            Ok((name, _)) => Ok(Operation::Unlink { name }),
            Err(e) => Err(e),
        },
        FUSE_RMDIR => match take_name(p) {
            Ok((name, _)) => Ok(Operation::Rmdir { name }),
            Err(e) => Err(e),
        },
        FUSE_RENAME => match arg_and_two_names::<RenameIn>(p) {
            Ok((arg, name, newname)) => Ok(Operation::Rename { arg, name, newname }),
            Err(e) => Err(e),
        },
        FUSE_LINK => match arg_and_name::<LinkIn>(p) {
            Ok((arg, newname)) => Ok(Operation::Link { arg, newname }),
            Err(e) => Err(e),
        },
        FUSE_OPEN => match take::<OpenIn>(p) {
            Ok((arg, _)) => Ok(Operation::Open { arg }),
            Err(e) => Err(e),
        },
        FUSE_READ => match take::<ReadIn>(p) {
            Ok((arg, _)) => Ok(Operation::Read { arg }),
            Err(e) => Err(e),
        },
        FUSE_WRITE => match take::<WriteIn>(p) {
            Ok((arg, p)) => match take_bytes(p, arg.size as nat) {
                Ok((data, _)) => Ok(Operation::Write { arg, data }),
                Err(e) => Err(e),
            },
            Err(e) => Err(e),
        },
        FUSE_STATFS => Ok(Operation::Statfs),
        FUSE_RELEASE => match take::<ReleaseIn>(p) {
            Ok((arg, _)) => Ok(Operation::Release { arg }),
            Err(e) => Err(e),
        },
        FUSE_FSYNC => match take::<FsyncIn>(p) {
            Ok((arg, _)) => Ok(Operation::Fsync { arg }),
            Err(e) => Err(e),
        },
        FUSE_SETXATTR => match take::<SetxattrIn>(p) {
            Ok((arg, p)) => match take_name(p) {
                Ok((name, p)) => match take_bytes(p, arg.size as nat) {
                    Ok((value, _)) => Ok(Operation::Setxattr { arg, name, value }),
                    Err(e) => Err(e),
                },
                Err(e) => Err(e),
            },
            Err(e) => Err(e),
        },
        FUSE_GETXATTR => match arg_and_name::<GetxattrIn>(p) {
            Ok((arg, name)) => Ok(Operation::Getxattr { arg, name }),
            Err(e) => Err(e),
        },
        FUSE_LISTXATTR => match take::<GetxattrIn>(p) {
            Ok((arg, _)) => Ok(Operation::Listxattr { arg }),
            Err(e) => Err(e),
        },
        FUSE_REMOVEXATTR => match take_name(p) {
            Ok((name, _)) => Ok(Operation::Removexattr { name }),
            Err(e) => Err(e),
        },
        FUSE_FLUSH => match take::<FlushIn>(p) {
            Ok((arg, _)) => Ok(Operation::Flush { arg }),
            Err(e) => Err(e),
        },
        FUSE_INIT => match take::<InitIn>(p) {
            Ok((arg, _)) => Ok(Operation::Init { arg }),
            Err(e) => Err(e),
        },
        FUSE_OPENDIR => match take::<OpenIn>(p) {
            Ok((arg, _)) => Ok(Operation::Opendir { arg }),
            Err(e) => Err(e),
        },
        FUSE_READDIR => match take::<ReadIn>(p) {
            Ok((arg, _)) => Ok(Operation::Readdir { arg }),
            Err(e) => Err(e),
        },
        FUSE_RELEASEDIR => match take::<ReleaseIn>(p) {
            Ok((arg, _)) => Ok(Operation::Releasedir { arg }),
            Err(e) => Err(e),
        },
        FUSE_FSYNCDIR => match take::<FsyncIn>(p) {
            Ok((arg, _)) => Ok(Operation::Fsyncdir { arg }),
            Err(e) => Err(e),
        },
        FUSE_GETLK => match take::<LkIn>(p) {
            Ok((arg, _)) => Ok(Operation::Getlk { arg }),
            Err(e) => Err(e),
        },
        FUSE_SETLK => match take::<LkIn>(p) {
            Ok((arg, _)) => Ok(Operation::Setlk { arg }),
            Err(e) => Err(e),
        },
        FUSE_SETLKW => match take::<LkIn>(p) {
            Ok((arg, _)) => Ok(Operation::Setlkw { arg }),
            Err(e) => Err(e),
        },
        FUSE_ACCESS => match take::<AccessIn>(p) {
            Ok((arg, _)) => Ok(Operation::Access { arg }),
            Err(e) => Err(e),
        },
        FUSE_CREATE => match arg_and_name::<CreateIn>(p) {
            Ok((arg, name)) => Ok(Operation::Create { arg, name }),
            Err(e) => Err(e),
        },
        FUSE_INTERRUPT => match take::<InterruptIn>(p) {
            Ok((arg, _)) => Ok(Operation::Interrupt { arg }),
            Err(e) => Err(e),
        },
        FUSE_BMAP => match take::<BmapIn>(p) {
            Ok((arg, _)) => Ok(Operation::Bmap { arg }),
            Err(e) => Err(e),
        },
        FUSE_DESTROY => Ok(Operation::Destroy),
        FUSE_IOCTL => match take::<IoctlIn>(p) {
            Ok((arg, p)) => match take_bytes(p, arg.in_size as nat) {
                Ok((data, _)) => Ok(Operation::Ioctl { arg, data }),
                Err(e) => Err(e),
            },
            Err(e) => Err(e),
        },
        FUSE_POLL => match take::<PollIn>(p) {
            Ok((arg, _)) => Ok(Operation::Poll { arg }),
            Err(e) => Err(e),
        },
        FUSE_NOTIFY_REPLY => match take::<NotifyRetrieveIn>(p) {
            Ok((arg, data)) => Ok(Operation::NotifyReply { arg, data }),
            Err(e) => Err(e),
        },
        FUSE_BATCH_FORGET => match take::<BatchForgetIn>(p) {
            Ok((arg, p)) => match take_bytes(p, arg.count as nat * 16) {
                Ok((entries, _)) => Ok(Operation::BatchForget { arg, entries }),
                Err(e) => Err(e),
            },
            Err(e) => Err(e),
        },
        FUSE_FALLOCATE => match take::<FallocateIn>(p) {
            Ok((arg, _)) => Ok(Operation::Fallocate { arg }),
            Err(e) => Err(e),
        },
        FUSE_READDIRPLUS => match take::<ReadIn>(p) {
            Ok((arg, _)) => Ok(Operation::Readdirplus { arg }),
            Err(e) => Err(e),
        },
        FUSE_RENAME2 => match arg_and_two_names::<Rename2In>(p) {
            Ok((arg, name, newname)) => Ok(Operation::Rename2 { arg, name, newname }),
            Err(e) => Err(e),
        },
        FUSE_LSEEK => match take::<LseekIn>(p) {
            Ok((arg, _)) => Ok(Operation::Lseek { arg }),
            Err(e) => Err(e),
        },
        FUSE_COPY_FILE_RANGE => match take::<CopyFileRangeIn>(p) {
            Ok((arg, _)) => Ok(Operation::CopyFileRange { arg }),
            Err(e) => Err(e),
        },
        _ => Ok(Operation::Unknown { opcode }),
    }
}

/// The header and the operation that the message `buf` stands for.
///
/// A message shorter than a header is an error, and so is a header that
/// declares more bytes than the message holds. A header that declares fewer
/// is taken as it is. All that follows the header in the message is read as
/// the operation demands; what the operation leaves over is passed by.
pub open spec fn parse_request(buf: Seq<u8>) -> Result<
    (InHeader, Operation<Seq<u8>>),
    DecodeError,
> {
    match take::<InHeader>(buf) {
        Ok((header, p)) => if header.len > buf.len() {
            Err(DecodeError::LengthOverrun)
        } else {
            match parse_payload(header.opcode, p) {
                Ok(op) => Ok((header, op)),
                Err(e) => Err(e),
            }
        },
        Err(e) => Err(e),
    }
}

/// The message that asks for `op`, under a header that takes all but its
/// length and the number of the operation from `header`.
pub open spec fn request_image(header: InHeader, op: Operation<Seq<u8>>) -> Seq<u8> {
    request_header(header, op).encoded() + op.image()
}

/// The header of the message that asks for `op`.
pub open spec fn request_header(header: InHeader, op: Operation<Seq<u8>>) -> InHeader {
    InHeader { len: (40 + op.image().len()) as u32, opcode: op.opcode(), ..header }
}

/// Reads the `count` entries of a batch.
fn fetch_entries<'a>(decoder: &mut Decoder<'a>, count: u32) -> (r: Result<&'a [u8], DecodeError>)
    ensures
        match r {
            Ok(data) => take_bytes(old(decoder)@, count as nat * 16) == Ok::<_, DecodeError>(
                (data@, final(decoder)@),
            ),
            Err(e) => take_bytes(old(decoder)@, count as nat * 16) == Err::<(Seq<u8>, Seq<u8>), _>(
                e,
            ) && final(decoder)@ == old(decoder)@,
        },
{
    let left: usize = decoder.remaining();
    if count as u64 * 16 > left as u64 {
        Err(DecodeError::LengthOverrun)
    } else {
        decoder.fetch_bytes(count as usize * 16)
    }
}

/// Reads what follows the header of a request with the number `opcode`.
fn parse_operation<'a>(opcode: u32, payload: &'a [u8]) -> (r: Result<
    Operation<&'a [u8]>,
    DecodeError,
>)
    ensures
        match r {
            Ok(op) => parse_payload(opcode, payload@) == Ok::<_, DecodeError>(op@),
            Err(e) => parse_payload(opcode, payload@) == Err::<Operation<Seq<u8>>, _>(e),
        },
{
    let mut decoder = Decoder::new(payload);
    match opcode {
        FUSE_LOOKUP => {
            let name = decoder.fetch_str()?;
            Ok(Operation::Lookup { name })
        },
        FUSE_FORGET => {
            let arg: ForgetIn = decoder.fetch()?;
            Ok(Operation::Forget { arg })
        },
        FUSE_GETATTR => {
            let arg: GetattrIn = decoder.fetch()?;
            Ok(Operation::Getattr { arg })
        },
        FUSE_SETATTR => {
            let arg: SetattrIn = decoder.fetch()?;
            Ok(Operation::Setattr { arg })
        },
        FUSE_READLINK => {
            Ok(Operation::Readlink)
        },
        FUSE_SYMLINK => {
            let name = decoder.fetch_str()?;
            let link = decoder.fetch_str()?;
            Ok(Operation::Symlink { name, link })
        },
        FUSE_MKNOD => {
            let arg: MknodIn = decoder.fetch()?;
            let name = decoder.fetch_str()?;
            Ok(Operation::Mknod { arg, name })
        },
        FUSE_MKDIR => {
            let arg: MkdirIn = decoder.fetch()?;
            let name = decoder.fetch_str()?;
            Ok(Operation::Mkdir { arg, name })
        },
        FUSE_UNLINK => {
            let name = decoder.fetch_str()?;
            Ok(Operation::Unlink { name })
        },
        FUSE_RMDIR => {
            let name = decoder.fetch_str()?;
            Ok(Operation::Rmdir { name })
        },
        FUSE_RENAME => {
            let arg: RenameIn = decoder.fetch()?;
            let name = decoder.fetch_str()?;
            let newname = decoder.fetch_str()?;
            Ok(Operation::Rename { arg, name, newname })
        },
        FUSE_LINK => {
            let arg: LinkIn = decoder.fetch()?;
            let newname = decoder.fetch_str()?;
            Ok(Operation::Link { arg, newname })
        },
        FUSE_OPEN => {
            let arg: OpenIn = decoder.fetch()?;
            Ok(Operation::Open { arg })
        },
        FUSE_READ => {
            let arg: ReadIn = decoder.fetch()?;
            Ok(Operation::Read { arg })
        },
        FUSE_WRITE => {
            let arg: WriteIn = decoder.fetch()?;
            let data = decoder.fetch_bytes(arg.size as usize)?;
            Ok(Operation::Write { arg, data })
        },
        FUSE_STATFS => {
            Ok(Operation::Statfs)
        },
        FUSE_RELEASE => {
            let arg: ReleaseIn = decoder.fetch()?;
            Ok(Operation::Release { arg })
        },
        FUSE_FSYNC => {
            let arg: FsyncIn = decoder.fetch()?;
            Ok(Operation::Fsync { arg })
        },
        FUSE_SETXATTR => {
            let arg: SetxattrIn = decoder.fetch()?;
            let name = decoder.fetch_str()?;
            let value = decoder.fetch_bytes(arg.size as usize)?;
            Ok(Operation::Setxattr { arg, name, value })
        },
        FUSE_GETXATTR => {
            let arg: GetxattrIn = decoder.fetch()?;
            let name = decoder.fetch_str()?;
            Ok(Operation::Getxattr { arg, name })
        },
        FUSE_LISTXATTR => {
            let arg: GetxattrIn = decoder.fetch()?;
            Ok(Operation::Listxattr { arg })
        },
        FUSE_REMOVEXATTR => {
            let name = decoder.fetch_str()?;
            Ok(Operation::Removexattr { name })
        },
        FUSE_FLUSH => {
            let arg: FlushIn = decoder.fetch()?;
            Ok(Operation::Flush { arg })
        },
        FUSE_INIT => {
            let arg: InitIn = decoder.fetch()?;
            Ok(Operation::Init { arg })
        },
        FUSE_OPENDIR => {
            let arg: OpenIn = decoder.fetch()?;
            Ok(Operation::Opendir { arg })
        },
        FUSE_READDIR => {
            let arg: ReadIn = decoder.fetch()?;
            Ok(Operation::Readdir { arg })
        },
        FUSE_RELEASEDIR => {
            let arg: ReleaseIn = decoder.fetch()?;
            Ok(Operation::Releasedir { arg })
        },
        FUSE_FSYNCDIR => {
            let arg: FsyncIn = decoder.fetch()?;
            Ok(Operation::Fsyncdir { arg })
        },
        FUSE_GETLK => {
            let arg: LkIn = decoder.fetch()?;
            Ok(Operation::Getlk { arg })
        },
        FUSE_SETLK => {
            let arg: LkIn = decoder.fetch()?;
            Ok(Operation::Setlk { arg })
        },
        FUSE_SETLKW => {
            let arg: LkIn = decoder.fetch()?;
            Ok(Operation::Setlkw { arg })
        },
        FUSE_ACCESS => {
            let arg: AccessIn = decoder.fetch()?;
            Ok(Operation::Access { arg })
        },
        FUSE_CREATE => {
            let arg: CreateIn = decoder.fetch()?;
            let name = decoder.fetch_str()?;
            Ok(Operation::Create { arg, name })
        },
        FUSE_INTERRUPT => {
            let arg: InterruptIn = decoder.fetch()?;
            Ok(Operation::Interrupt { arg })
        },
        FUSE_BMAP => {
            let arg: BmapIn = decoder.fetch()?;
            Ok(Operation::Bmap { arg })
        },
        FUSE_DESTROY => {
            Ok(Operation::Destroy)
        },
        FUSE_IOCTL => {
            let arg: IoctlIn = decoder.fetch()?;
            let data = decoder.fetch_bytes(arg.in_size as usize)?;
            Ok(Operation::Ioctl { arg, data })
        },
        FUSE_POLL => {
            let arg: PollIn = decoder.fetch()?;
            Ok(Operation::Poll { arg })
        },
        FUSE_NOTIFY_REPLY => {
            let arg: NotifyRetrieveIn = decoder.fetch()?;
            let data = decoder.fetch_rest();
            Ok(Operation::NotifyReply { arg, data })
        },
        FUSE_BATCH_FORGET => {
            let arg: BatchForgetIn = decoder.fetch()?;
            let entries = fetch_entries(&mut decoder, arg.count)?;
            Ok(Operation::BatchForget { arg, entries })
        },
        FUSE_FALLOCATE => {
            let arg: FallocateIn = decoder.fetch()?;
            Ok(Operation::Fallocate { arg })
        },
        FUSE_READDIRPLUS => {
            let arg: ReadIn = decoder.fetch()?;
            Ok(Operation::Readdirplus { arg })
        },
        FUSE_RENAME2 => {
            let arg: Rename2In = decoder.fetch()?;
            let name = decoder.fetch_str()?;
            let newname = decoder.fetch_str()?;
            Ok(Operation::Rename2 { arg, name, newname })
        },
        FUSE_LSEEK => {
            let arg: LseekIn = decoder.fetch()?;
            Ok(Operation::Lseek { arg })
        },
        FUSE_COPY_FILE_RANGE => {
            let arg: CopyFileRangeIn = decoder.fetch()?;
            Ok(Operation::CopyFileRange { arg })
        },
        opcode => Ok(Operation::Unknown { opcode }),
    }
}

/// Takes the message `buf` apart.
pub fn parse<'a>(buf: &'a [u8]) -> (r: Result<(InHeader, Operation<&'a [u8]>), DecodeError>)
    ensures
        match r {
            Ok((header, op)) => parse_request(buf@) == Ok::<_, DecodeError>((header, op@)),
            Err(e) => parse_request(buf@) == Err::<(InHeader, Operation<Seq<u8>>), _>(e),
        },
{
    let mut decoder = Decoder::new(buf);
    let header: InHeader = decoder.fetch()?;
    if header.len as usize > buf.len() {
        return Err(DecodeError::LengthOverrun);
    }
    let payload = decoder.fetch_rest();
    let op = parse_operation(header.opcode, payload)?;
    Ok((header, op))
}

impl<'a> Operation<&'a [u8]> {
    /// The number of the operation.
    pub fn opcode(&self) -> (r: u32)
        ensures
            r == self@.opcode(),
    {
        match *self {
            Operation::Lookup { .. } => FUSE_LOOKUP,
            Operation::Forget { .. } => FUSE_FORGET,
            Operation::Getattr { .. } => FUSE_GETATTR,
            Operation::Setattr { .. } => FUSE_SETATTR,
            Operation::Readlink => FUSE_READLINK,
            Operation::Symlink { .. } => FUSE_SYMLINK,
            Operation::Mknod { .. } => FUSE_MKNOD,
            Operation::Mkdir { .. } => FUSE_MKDIR,
            Operation::Unlink { .. } => FUSE_UNLINK,
            Operation::Rmdir { .. } => FUSE_RMDIR,
            Operation::Rename { .. } => FUSE_RENAME,
            Operation::Link { .. } => FUSE_LINK,
            Operation::Open { .. } => FUSE_OPEN,
            Operation::Read { .. } => FUSE_READ,
            Operation::Write { .. } => FUSE_WRITE,
            Operation::Statfs => FUSE_STATFS,
            Operation::Release { .. } => FUSE_RELEASE,
            Operation::Fsync { .. } => FUSE_FSYNC,
            Operation::Setxattr { .. } => FUSE_SETXATTR,
            Operation::Getxattr { .. } => FUSE_GETXATTR,
            Operation::Listxattr { .. } => FUSE_LISTXATTR,
            Operation::Removexattr { .. } => FUSE_REMOVEXATTR,
            Operation::Flush { .. } => FUSE_FLUSH,
            Operation::Init { .. } => FUSE_INIT,
            Operation::Opendir { .. } => FUSE_OPENDIR,
            Operation::Readdir { .. } => FUSE_READDIR,
            Operation::Releasedir { .. } => FUSE_RELEASEDIR,
            Operation::Fsyncdir { .. } => FUSE_FSYNCDIR,
            Operation::Getlk { .. } => FUSE_GETLK,
            Operation::Setlk { .. } => FUSE_SETLK,
            Operation::Setlkw { .. } => FUSE_SETLKW,
            Operation::Access { .. } => FUSE_ACCESS,
            Operation::Create { .. } => FUSE_CREATE,
            Operation::Interrupt { .. } => FUSE_INTERRUPT,
            Operation::Bmap { .. } => FUSE_BMAP,
            Operation::Destroy => FUSE_DESTROY,
            Operation::Ioctl { .. } => FUSE_IOCTL,
            Operation::Poll { .. } => FUSE_POLL,
            Operation::NotifyReply { .. } => FUSE_NOTIFY_REPLY,
            Operation::BatchForget { .. } => FUSE_BATCH_FORGET,
            Operation::Fallocate { .. } => FUSE_FALLOCATE,
            Operation::Readdirplus { .. } => FUSE_READDIRPLUS,
            Operation::Rename2 { .. } => FUSE_RENAME2,
            Operation::Lseek { .. } => FUSE_LSEEK,
            Operation::CopyFileRange { .. } => FUSE_COPY_FILE_RANGE,
            Operation::Unknown { opcode } => opcode,
        }
    }

    /// Appends to `out` what follows the header in a request for the
    /// operation.
    pub fn encode(&self, out: &mut Vec<u8>)
        ensures
            final(out)@ == old(out)@ + self@.image(),
    {
        match *self {
        Operation::Lookup { name } => {
            put_name(out, name);
        },
        Operation::Forget { arg } => {
            arg.encode(out);
        },
        Operation::Getattr { arg } => {
            arg.encode(out);
        },
        Operation::Setattr { arg } => {
            arg.encode(out);
        },
        Operation::Readlink => {},
        Operation::Symlink { name, link } => {
            put_name(out, name);
            put_name(out, link);
        },
        Operation::Mknod { arg, name } => {
            arg.encode(out);
            put_name(out, name);
        },
        Operation::Mkdir { arg, name } => {
            arg.encode(out);
            put_name(out, name);
        },
        Operation::Unlink { name } => {
            put_name(out, name);
        },
        Operation::Rmdir { name } => {
            put_name(out, name);
        },
        Operation::Rename { arg, name, newname } => {
            arg.encode(out);
            put_name(out, name);
            put_name(out, newname);
        },
        Operation::Link { arg, newname } => {
            arg.encode(out);
            put_name(out, newname);
        },
        Operation::Open { arg } => {
            arg.encode(out);
        },
        Operation::Read { arg } => {
            arg.encode(out);
        },
        Operation::Write { arg, data } => {
            arg.encode(out);
            put_bytes(out, data);
        },
        Operation::Statfs => {},
        Operation::Release { arg } => {
            arg.encode(out);
        },
        Operation::Fsync { arg } => {
            arg.encode(out);
        },
        Operation::Setxattr { arg, name, value } => {
            arg.encode(out);
            put_name(out, name);
            put_bytes(out, value);
        },
        Operation::Getxattr { arg, name } => {
            arg.encode(out);
            put_name(out, name);
        },
        Operation::Listxattr { arg } => {
            arg.encode(out);
        },
        Operation::Removexattr { name } => {
            put_name(out, name);
        },
        Operation::Flush { arg } => {
            arg.encode(out);
        },
        Operation::Init { arg } => {
            arg.encode(out);
        },
        Operation::Opendir { arg } => {
            arg.encode(out);
        },
        Operation::Readdir { arg } => {
            arg.encode(out);
        },
        Operation::Releasedir { arg } => {
            arg.encode(out);
        },
        Operation::Fsyncdir { arg } => {
            arg.encode(out);
        },
        Operation::Getlk { arg } => {
            arg.encode(out);
        },
        Operation::Setlk { arg } => {
            arg.encode(out);
        },
        Operation::Setlkw { arg } => {
            arg.encode(out);
        },
        Operation::Access { arg } => {
            arg.encode(out);
        },
        Operation::Create { arg, name } => {
            arg.encode(out);
            put_name(out, name);
        },
        Operation::Interrupt { arg } => {
            arg.encode(out);
        },
        Operation::Bmap { arg } => {
            arg.encode(out);
        },
        Operation::Destroy => {},
        Operation::Ioctl { arg, data } => {
            arg.encode(out);
            put_bytes(out, data);
        },
        Operation::Poll { arg } => {
            arg.encode(out);
        },
        Operation::NotifyReply { arg, data } => {
            arg.encode(out);
            put_bytes(out, data);
        },
        Operation::BatchForget { arg, entries } => {
            arg.encode(out);
            put_bytes(out, entries);
        },
        Operation::Fallocate { arg } => {
            arg.encode(out);
        },
        Operation::Readdirplus { arg } => {
            arg.encode(out);
        },
        Operation::Rename2 { arg, name, newname } => {
            arg.encode(out);
            put_name(out, name);
            put_name(out, newname);
        },
        Operation::Lseek { arg } => {
            arg.encode(out);
        },
        Operation::CopyFileRange { arg } => {
            arg.encode(out);
        },
        Operation::Unknown { .. } => {},
        }
        assert(out@ =~= old(out)@ + self@.image());
    }
}

/// Appends `name` and the zero byte that ends it to `out`.
fn put_name(out: &mut Vec<u8>, name: &[u8])
    ensures
        final(out)@ == old(out)@ + name@ + zero(),
{
    put_bytes(out, name);
    out.push(0u8);
    assert(out@ =~= old(out)@ + name@ + zero());
}

/// Makes the message that asks for `op`. The header takes its length from
/// the message and the number of the operation from `op`, and the rest from
/// `header`. `None` where the message would be longer than its header can
/// say.
pub fn encode_request(header: &InHeader, op: &Operation<&[u8]>) -> (r: Option<Vec<u8>>)
    ensures
        match r {
            Some(buf) => 40 + op@.image().len() <= u32::MAX && buf@ == request_image(*header, op@),
            None => 40 + op@.image().len() > u32::MAX,
        },
{
    let mut payload: Vec<u8> = Vec::new();
    op.encode(&mut payload);
    assert(payload@ =~= op@.image());
    if payload.len() > 0xffff_ffff - 40 {
        return None;
    }
    let full = InHeader {
        len: (payload.len() + 40) as u32,
        opcode: op.opcode(),
        unique: header.unique,
        nodeid: header.nodeid,
        uid: header.uid,
        gid: header.gid,
        pid: header.pid,
        padding: header.padding,
    };
    let mut out: Vec<u8> = Vec::new();
    full.encode(&mut out);
    put_bytes(&mut out, payload.as_slice());
    assert(out@ =~= request_image(*header, op@));
    Some(out)
}

/// The entries that the bytes of a batch stand for.
pub open spec fn forget_entries(entries: Seq<u8>) -> Seq<ForgetOne> {
    Seq::new(entries.len() / 16, |i: int| ForgetOne::decoded(entries.subrange(16 * i, 16 * i + 16)))
}

/// The entry with the number `i` of a batch; `None` beyond the last one.
pub fn forget_entry(entries: &[u8], i: usize) -> (r: Option<ForgetOne>)
    ensures
        r == if i < forget_entries(entries@).len() {
            Some(forget_entries(entries@)[i as int])
        } else {
            None
        },
{
    if i >= entries.len() / 16 {
        None
    } else {
        let piece = slice_subrange(entries, 16 * i, 16 * i + 16);
        Some(ForgetOne::decode(piece))
    }
}

/// A name and its zero byte stand for the name.
proof fn lemma_name_image(name: Seq<u8>)
    requires
        is_name(name),
    ensures
        take_name(name + zero()) == Ok::<_, DecodeError>((name, Seq::<u8>::empty())),
{
    lemma_take_name(name, Seq::empty());
    assert(name + zero() + Seq::<u8>::empty() =~= name + zero());
}

/// Two names with their zero bytes stand for the two names.
proof fn lemma_two_names_image(first: Seq<u8>, second: Seq<u8>)
    requires
        is_name(first),
        is_name(second),
    ensures
        two_names(first + zero() + second + zero()) == Ok::<_, DecodeError>((first, second)),
{
    lemma_take_name(first, second + zero());
    lemma_name_image(second);
    assert(first + zero() + (second + zero()) =~= first + zero() + second + zero());
}

/// The image of fixed arguments stands for them.
proof fn lemma_arg_image<T: Wire>(arg: T)
    ensures
        take::<T>(arg.encoded()) == Ok::<_, DecodeError>((arg, Seq::<u8>::empty())),
{
    lemma_take(arg, Seq::empty());
    assert(arg.encoded() + Seq::<u8>::empty() =~= arg.encoded());
}

/// Bytes of a declared length are read back whole.
proof fn lemma_bytes_image(data: Seq<u8>)
    ensures
        take_bytes(data, data.len()) == Ok::<_, DecodeError>((data, Seq::<u8>::empty())),
{
    lemma_take_bytes(data, Seq::empty());
    assert(data + Seq::<u8>::empty() =~= data);
}

/// Fixed arguments and a name are read back.
proof fn lemma_arg_and_name_image<T: Wire>(arg: T, name: Seq<u8>)
    requires
        is_name(name),
    ensures
        arg_and_name::<T>(arg.encoded() + name + zero()) == Ok::<_, DecodeError>((arg, name)),
{
    lemma_take(arg, name + zero());
    lemma_name_image(name);
    assert(arg.encoded() + (name + zero()) =~= arg.encoded() + name + zero());
}

/// Fixed arguments and two names are read back.
proof fn lemma_arg_and_two_names_image<T: Wire>(arg: T, first: Seq<u8>, second: Seq<u8>)
    requires
        is_name(first),
        is_name(second),
    ensures
        arg_and_two_names::<T>(arg.encoded() + first + zero() + second + zero()) == Ok::<
            _,
            DecodeError,
        >((arg, first, second)),
{
    lemma_take(arg, first + zero() + second + zero());
    lemma_two_names_image(first, second);
    assert(arg.encoded() + (first + zero() + second + zero()) =~= arg.encoded() + first + zero()
        + second + zero());
}

/// Fixed arguments, a name and data of a declared length are read back.
proof fn lemma_arg_name_data_image<T: Wire>(arg: T, name: Seq<u8>, data: Seq<u8>)
    requires
        is_name(name),
    ensures
        take::<T>(arg.encoded() + name + zero() + data) == Ok::<_, DecodeError>(
            (arg, name + zero() + data),
        ),
        take_name(name + zero() + data) == Ok::<_, DecodeError>((name, data)),
        take_bytes(data, data.len()) == Ok::<_, DecodeError>((data, Seq::<u8>::empty())),
{
    lemma_take(arg, name + zero() + data);
    lemma_take_name(name, data);
    lemma_bytes_image(data);
    assert(arg.encoded() + (name + zero() + data) =~= arg.encoded() + name + zero() + data);
}

/// What follows the header of a request for an operation is read back as
/// that operation.
pub proof fn lemma_reparse_payload(op: Operation<Seq<u8>>)
    requires
        op.is_well_formed(),
    ensures
        parse_payload(op.opcode(), op.image()) == Ok::<_, DecodeError>(op),
{
    match op {
        Operation::Lookup { name } => {
            lemma_name_image(name);
        },
        Operation::Forget { arg } => {
            lemma_arg_image(arg);
        },
        Operation::Getattr { arg } => {
            lemma_arg_image(arg);
        },
        Operation::Setattr { arg } => {
            lemma_arg_image(arg);
        },
        Operation::Readlink => {},
        Operation::Symlink { name, link } => {
            lemma_two_names_image(name, link);
        },
        Operation::Mknod { arg, name } => {
            lemma_arg_and_name_image(arg, name);
        },
        Operation::Mkdir { arg, name } => {
            lemma_arg_and_name_image(arg, name);
        },
        Operation::Unlink { name } => {
            lemma_name_image(name);
        },
        Operation::Rmdir { name } => {
            lemma_name_image(name);
        },
        Operation::Rename { arg, name, newname } => {
            lemma_arg_and_two_names_image(arg, name, newname);
        },
        Operation::Link { arg, newname } => {
            lemma_arg_and_name_image(arg, newname);
        },
        Operation::Open { arg } => {
            lemma_arg_image(arg);
        },
        Operation::Read { arg } => {
            lemma_arg_image(arg);
        },
        Operation::Write { arg, data } => {
            lemma_take(arg, data);
            lemma_bytes_image(data);
        },
        Operation::Statfs => {},
        Operation::Release { arg } => {
            lemma_arg_image(arg);
        },
        Operation::Fsync { arg } => {
            lemma_arg_image(arg);
        },
        Operation::Setxattr { arg, name, value } => {
            lemma_arg_name_data_image(arg, name, value);
        },
        Operation::Getxattr { arg, name } => {
            lemma_arg_and_name_image(arg, name);
        },
        Operation::Listxattr { arg } => {
            lemma_arg_image(arg);
        },
        Operation::Removexattr { name } => {
            lemma_name_image(name);
        },
        Operation::Flush { arg } => {
            lemma_arg_image(arg);
        },
        Operation::Init { arg } => {
            lemma_arg_image(arg);
        },
        Operation::Opendir { arg } => {
            lemma_arg_image(arg);
        },
        Operation::Readdir { arg } => {
            lemma_arg_image(arg);
        },
        Operation::Releasedir { arg } => {
            lemma_arg_image(arg);
        },
        Operation::Fsyncdir { arg } => {
            lemma_arg_image(arg);
        },
        Operation::Getlk { arg } => {
            lemma_arg_image(arg);
        },
        Operation::Setlk { arg } => {
            lemma_arg_image(arg);
        },
        Operation::Setlkw { arg } => {
            lemma_arg_image(arg);
        },
        Operation::Access { arg } => {
            lemma_arg_image(arg);
        },
        Operation::Create { arg, name } => {
            lemma_arg_and_name_image(arg, name);
        },
        Operation::Interrupt { arg } => {
            lemma_arg_image(arg);
        },
        Operation::Bmap { arg } => {
            lemma_arg_image(arg);
        },
        Operation::Destroy => {},
        Operation::Ioctl { arg, data } => {
            lemma_take(arg, data);
            lemma_bytes_image(data);
        },
        Operation::Poll { arg } => {
            lemma_arg_image(arg);
        },
        Operation::NotifyReply { arg, data } => {
            lemma_take(arg, data);
        },
        Operation::BatchForget { arg, entries } => {
            lemma_take(arg, entries);
            lemma_bytes_image(entries);
        },
        Operation::Fallocate { arg } => {
            lemma_arg_image(arg);
        },
        Operation::Readdirplus { arg } => {
            lemma_arg_image(arg);
        },
        Operation::Rename2 { arg, name, newname } => {
            lemma_arg_and_two_names_image(arg, name, newname);
        },
        Operation::Lseek { arg } => {
            lemma_arg_image(arg);
        },
        Operation::CopyFileRange { arg } => {
            lemma_arg_image(arg);
        },
        Operation::Unknown { .. } => {},
    }
}

/// A message made of the parts of an operation is read back as that
/// operation, under the header that the message was given.
pub proof fn lemma_reparse(header: InHeader, op: Operation<Seq<u8>>)
    requires
        op.is_well_formed(),
        40 + op.image().len() <= u32::MAX,
    ensures
        parse_request(request_image(header, op)) == Ok::<_, DecodeError>(
            (request_header(header, op), op),
        ),
{
    lemma_take(request_header(header, op), op.image());
    lemma_reparse_payload(op);
}

/// The header that comes out of a message is the one that the message starts
/// with: put back into bytes, it gives the first forty bytes of the message.
pub proof fn lemma_header_kept(buf: Seq<u8>)
    requires
        parse_request(buf) is Ok,
    ensures
        parse_request(buf)->Ok_0.0.encoded() == buf.take(40),
{
    InHeader::lemma_decoded(buf.take(40));
}

/// Whether a request for the operation with the number `opcode` may end
/// with its header: the operation has no arguments, or the core does not
/// know it.
pub open spec fn is_bare(opcode: u32) -> bool {
    opcode == FUSE_READLINK || opcode == FUSE_STATFS || opcode == FUSE_DESTROY || !is_known(opcode)
}

/// A message of forty bytes, which is a header and nothing else, is taken
/// where it declares no more than forty bytes and asks for an operation
/// that may end with its header, and nowhere else.
pub proof fn lemma_bare_header(buf: Seq<u8>)
    requires
        buf.len() == 40,
    ensures
        parse_request(buf) is Ok <==> InHeader::decoded(buf).len <= 40 && is_bare(
            InHeader::decoded(buf).opcode,
        ),
{
    assert(buf.take(40) =~= buf);
    assert(buf.skip(40) =~= Seq::<u8>::empty());
}

/// One message from the kernel, as it was read.
#[derive(Debug)]
pub struct Request {
    buf: Vec<u8>,
}

impl View for Request {
    type V = Seq<u8>;

    closed spec fn view(&self) -> Seq<u8> {
        self.buf@
    }
}

impl Request {
    /// The request that the message `buf` holds.
    pub fn new(buf: Vec<u8>) -> (r: Self)
        ensures
            r@ == buf@,
    {
        Request { buf }
    }

    /// The message.
    pub fn bytes(&self) -> (r: &[u8])
        ensures
            r@ == self@,
    {
        self.buf.as_slice()
    }

    /// The header of the request.
    pub fn header(&self) -> (r: Result<InHeader, DecodeError>)
        ensures
            match r {
                Ok(header) => take::<InHeader>(self@) matches Ok((h, _)) && h == header,
                Err(e) => take::<InHeader>(self@) == Err::<(InHeader, Seq<u8>), _>(e),
            },
    {
        let mut decoder = Decoder::new(self.buf.as_slice());
        decoder.fetch()
    }

    /// The number by which the kernel knows the request, to be named in the
    /// reply. `None` where the message is too short to hold a header.
    pub fn unique(&self) -> (r: Option<u64>)
        ensures
            r == match take::<InHeader>(self@) {
                Ok((header, _)) => Some(header.unique),
                Err(_) => None,
            },
    {
        match self.header() {
            Ok(header) => Some(header.unique),
            Err(_) => None,
        }
    }

    /// The operation that the request asks for.
    pub fn operation(&self) -> (r: Result<Operation<&[u8]>, DecodeError>)
        ensures
            match r {
                Ok(op) => parse_request(self@) matches Ok((_, o)) && o == op@,
                Err(e) => parse_request(self@) == Err::<(InHeader, Operation<Seq<u8>>), _>(e),
            },
    {
        let (_, op) = parse(self.buf.as_slice())?;
        Ok(op)
    }
}

} // verus!
