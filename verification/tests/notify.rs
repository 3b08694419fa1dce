use polyfuse::notify::{
    notify_delete, notify_inval_entry, notify_inval_inode, notify_poll_wakeup, notify_retrieve,
    notify_store,
};
use polyfuse::wire::Wire;
use polyfuse::OutHeader;

fn header(frame: &[u8]) -> OutHeader {
    OutHeader::decode(&frame[..16])
}

#[test]
fn poll_wakeup_frame() {
    let frame = notify_poll_wakeup(0x0102);
    assert_eq!(header(&frame), OutHeader { len: 24, error: 1, unique: 0 });
    assert_eq!(&frame[16..], &0x0102u64.to_le_bytes());
}

#[test]
fn inval_inode_frame() {
    let frame = notify_inval_inode(1, 0, 0);
    assert_eq!(header(&frame), OutHeader { len: 40, error: 2, unique: 0 });
    let mut body = Vec::new();
    body.extend_from_slice(&1u64.to_le_bytes());
    body.extend_from_slice(&0i64.to_le_bytes());
    body.extend_from_slice(&0i64.to_le_bytes());
    assert_eq!(&frame[16..], &body[..]);
}

#[test]
fn inval_inode_frame_with_negative_range() {
    let frame = notify_inval_inode(7, -1, i64::MIN);
    assert_eq!(&frame[24..32], &[0xff; 8]);
    assert_eq!(&frame[32..40], &i64::MIN.to_le_bytes());
}

#[test]
fn inval_entry_frame() {
    let frame = notify_inval_entry(3, b"gone.txt").unwrap();
    assert_eq!(header(&frame), OutHeader { len: 41, error: 3, unique: 0 });
    let mut body = Vec::new();
    body.extend_from_slice(&3u64.to_le_bytes());
    body.extend_from_slice(&8u32.to_le_bytes());
    body.extend_from_slice(&0u32.to_le_bytes());
    body.extend_from_slice(b"gone.txt\0");
    assert_eq!(&frame[16..], &body[..]);
}

#[test]
fn store_frame() {
    let frame = notify_store(1, 4096, b"2026-10-28T00:00:00").unwrap();
    assert_eq!(header(&frame), OutHeader { len: 59, error: 4, unique: 0 });
    let mut body = Vec::new();
    body.extend_from_slice(&1u64.to_le_bytes());
    body.extend_from_slice(&4096u64.to_le_bytes());
    body.extend_from_slice(&19u32.to_le_bytes());
    body.extend_from_slice(&0u32.to_le_bytes());
    body.extend_from_slice(b"2026-10-28T00:00:00");
    assert_eq!(&frame[16..], &body[..]);
}

#[test]
fn store_frame_without_data() {
    let frame = notify_store(1, 0, b"").unwrap();
    assert_eq!(header(&frame), OutHeader { len: 40, error: 4, unique: 0 });
}

#[test]
fn retrieve_frame() {
    let frame = notify_retrieve(77, 1, 0, 1024);
    assert_eq!(header(&frame), OutHeader { len: 48, error: 5, unique: 0 });
    let mut body = Vec::new();
    body.extend_from_slice(&77u64.to_le_bytes());
    body.extend_from_slice(&1u64.to_le_bytes());
    body.extend_from_slice(&0u64.to_le_bytes());
    body.extend_from_slice(&1024u32.to_le_bytes());
    body.extend_from_slice(&0u32.to_le_bytes());
    assert_eq!(&frame[16..], &body[..]);
}

#[test]
fn delete_frame() {
    let frame = notify_delete(1, 9, b"x").unwrap();
    assert_eq!(header(&frame), OutHeader { len: 42, error: 6, unique: 0 });
    let mut body = Vec::new();
    body.extend_from_slice(&1u64.to_le_bytes());
    body.extend_from_slice(&9u64.to_le_bytes());
    body.extend_from_slice(&1u32.to_le_bytes());
    body.extend_from_slice(&0u32.to_le_bytes());
    body.extend_from_slice(b"x\0");
    assert_eq!(&frame[16..], &body[..]);
}
