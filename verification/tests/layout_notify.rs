use polyfuse::notify::{
    NotifyDeleteOut, NotifyInvalEntryOut, NotifyInvalInodeOut, NotifyPollWakeupOut,
    NotifyRetrieveOut, NotifyStoreOut,
};
use polyfuse::wire::Wire;
use polyfuse_kernel::{
    fuse_notify_delete_out, fuse_notify_inval_entry_out, fuse_notify_inval_inode_out,
    fuse_notify_poll_wakeup_out, fuse_notify_retrieve_out, fuse_notify_store_out,
};
use zerocopy::{FromBytes, IntoBytes};

#[test]
fn notify_poll_wakeup_out_has_the_layout_of_fuse_notify_poll_wakeup_out() {
    let ours = NotifyPollWakeupOut {
        kh: 0x8877_6655_4433_2211,
    };
    let mut bytes = vec![0x5a];
    ours.encode(&mut bytes);
    assert_eq!(bytes[0], 0x5a);
    let bytes = &bytes[1..];
    assert_eq!(bytes.len(), std::mem::size_of::<fuse_notify_poll_wakeup_out>());
    assert_eq!(NotifyPollWakeupOut::size(), bytes.len());
    let theirs = fuse_notify_poll_wakeup_out::read_from_bytes(bytes).unwrap();
    assert_eq!(theirs.kh, ours.kh);
    assert_eq!(theirs.as_bytes(), bytes);
    assert_eq!(NotifyPollWakeupOut::decode(bytes), ours);
}

#[test]
fn notify_inval_inode_out_has_the_layout_of_fuse_notify_inval_inode_out() {
    let ours = NotifyInvalInodeOut {
        ino: 0x8877_6655_4433_2211,
        off: -1250999896492,
        len: -1250999896493,
    };
    let mut bytes = vec![0x5a];
    ours.encode(&mut bytes);
    assert_eq!(bytes[0], 0x5a);
    let bytes = &bytes[1..];
    assert_eq!(bytes.len(), std::mem::size_of::<fuse_notify_inval_inode_out>());
    assert_eq!(NotifyInvalInodeOut::size(), bytes.len());
    let theirs = fuse_notify_inval_inode_out::read_from_bytes(bytes).unwrap();
    assert_eq!(theirs.ino, ours.ino);
    assert_eq!(theirs.off, ours.off);
    assert_eq!(theirs.len, ours.len);
    assert_eq!(theirs.as_bytes(), bytes);
    assert_eq!(NotifyInvalInodeOut::decode(bytes), ours);
}

#[test]
fn notify_inval_entry_out_has_the_layout_of_fuse_notify_inval_entry_out() {
    let ours = NotifyInvalEntryOut {
        parent: 0x8877_6655_4433_2211,
        namelen: 0xbfd0_e1f2,
        padding: 0xbecf_e0f1,
    };
    let mut bytes = vec![0x5a];
    ours.encode(&mut bytes);
    assert_eq!(bytes[0], 0x5a);
    let bytes = &bytes[1..];
    assert_eq!(bytes.len(), std::mem::size_of::<fuse_notify_inval_entry_out>());
    assert_eq!(NotifyInvalEntryOut::size(), bytes.len());
    let theirs = fuse_notify_inval_entry_out::read_from_bytes(bytes).unwrap();
    assert_eq!(theirs.parent, ours.parent);
    assert_eq!(theirs.namelen, ours.namelen);
    assert_eq!(theirs.padding, ours.padding);
    assert_eq!(theirs.as_bytes(), bytes);
    assert_eq!(NotifyInvalEntryOut::decode(bytes), ours);
}

#[test]
fn notify_delete_out_has_the_layout_of_fuse_notify_delete_out() {
    let ours = NotifyDeleteOut {
        parent: 0x8877_6655_4433_2211,
        child: 0x8978_6756_4534_2312,
        namelen: 0xbecf_e0f1,
        padding: 0xbdce_dff0,
    };
    let mut bytes = vec![0x5a];
    ours.encode(&mut bytes);
    assert_eq!(bytes[0], 0x5a);
    let bytes = &bytes[1..];
    assert_eq!(bytes.len(), std::mem::size_of::<fuse_notify_delete_out>());
    assert_eq!(NotifyDeleteOut::size(), bytes.len());
    let theirs = fuse_notify_delete_out::read_from_bytes(bytes).unwrap();
    assert_eq!(theirs.parent, ours.parent);
    assert_eq!(theirs.child, ours.child);
    assert_eq!(theirs.namelen, ours.namelen);
    assert_eq!(theirs.padding, ours.padding);
    assert_eq!(theirs.as_bytes(), bytes);
    assert_eq!(NotifyDeleteOut::decode(bytes), ours);
}

#[test]
fn notify_store_out_has_the_layout_of_fuse_notify_store_out() {
    let ours = NotifyStoreOut {
        nodeid: 0x8877_6655_4433_2211,
        offset: 0x8978_6756_4534_2312,
        size: 0xbecf_e0f1,
        padding: 0xbdce_dff0,
    };
    let mut bytes = vec![0x5a];
    ours.encode(&mut bytes);
    assert_eq!(bytes[0], 0x5a);
    let bytes = &bytes[1..];
    assert_eq!(bytes.len(), std::mem::size_of::<fuse_notify_store_out>());
    assert_eq!(NotifyStoreOut::size(), bytes.len());
    let theirs = fuse_notify_store_out::read_from_bytes(bytes).unwrap();
    assert_eq!(theirs.nodeid, ours.nodeid);
    assert_eq!(theirs.offset, ours.offset);
    assert_eq!(theirs.size, ours.size);
    assert_eq!(theirs.padding, ours.padding);
    assert_eq!(theirs.as_bytes(), bytes);
    assert_eq!(NotifyStoreOut::decode(bytes), ours);
}

#[test]
fn notify_retrieve_out_has_the_layout_of_fuse_notify_retrieve_out() {
    let ours = NotifyRetrieveOut {
        notify_unique: 0x8877_6655_4433_2211,
        nodeid: 0x8978_6756_4534_2312,
        offset: 0x8a79_6857_4635_2413,
        size: 0xbdce_dff0,
        padding: 0xbccd_deef,
    };
    let mut bytes = vec![0x5a];
    ours.encode(&mut bytes);
    assert_eq!(bytes[0], 0x5a);
    let bytes = &bytes[1..];
    assert_eq!(bytes.len(), std::mem::size_of::<fuse_notify_retrieve_out>());
    assert_eq!(NotifyRetrieveOut::size(), bytes.len());
    let theirs = fuse_notify_retrieve_out::read_from_bytes(bytes).unwrap();
    assert_eq!(theirs.notify_unique, ours.notify_unique);
    assert_eq!(theirs.nodeid, ours.nodeid);
    assert_eq!(theirs.offset, ours.offset);
    assert_eq!(theirs.size, ours.size);
    assert_eq!(theirs.padding, ours.padding);
    assert_eq!(theirs.as_bytes(), bytes);
    assert_eq!(NotifyRetrieveOut::decode(bytes), ours);
}
