use polyfuse::abi;
use polyfuse::buffer::{MAX_WRITE_SIZE, RECV_BUF_SIZE};
use polyfuse::wire::Wire;
use polyfuse::{Buffer, DecodeError, InHeader, Operation, ReadEvent, ReceiveStep};

fn lookup(unique: u64, name: &[u8]) -> Vec<u8> {
    let header = InHeader {
        len: 41 + name.len() as u32,
        opcode: abi::FUSE_LOOKUP,
        unique,
        nodeid: 1,
        uid: 0,
        gid: 0,
        pid: 0,
        padding: 0,
    };
    let mut buf = Vec::new();
    header.encode(&mut buf);
    buf.extend_from_slice(name);
    buf.push(0);
    buf
}

#[test]
fn storage_takes_the_largest_write_and_a_page() {
    assert_eq!(MAX_WRITE_SIZE, 16 * 1024 * 1024);
    assert_eq!(RECV_BUF_SIZE, 16 * 1024 * 1024 + 4096);
}

#[test]
fn new_buffer_holds_no_message() {
    let buffer = Buffer::new();
    assert_eq!(buffer.parse(), Err(DecodeError::ShortBuffer));
    let buffer = Buffer::default();
    assert_eq!(buffer.parse(), Err(DecodeError::ShortBuffer));
}

#[test]
fn received_message_is_cut_to_what_was_read() {
    let mut storage = lookup(3, b"file");
    let count = storage.len();
    storage.resize(count + 100, 0xff);
    let mut buffer = Buffer::new();
    assert!(matches!(buffer.receive(storage, ReadEvent::Data(count)), ReceiveStep::Ready));
    let (header, op) = buffer.parse().unwrap();
    assert_eq!(header.unique, 3);
    assert_eq!(op, Operation::Lookup { name: &b"file"[..] });
}

#[test]
fn count_beyond_the_storage_keeps_the_storage() {
    let storage = lookup(3, b"file");
    let mut buffer = Buffer::new();
    assert!(matches!(buffer.receive(storage, ReadEvent::Data(usize::MAX)), ReceiveStep::Ready));
    assert_eq!(buffer.parse().unwrap().1, Operation::Lookup { name: &b"file"[..] });
}

#[test]
fn closed_connection_leaves_the_buffer() {
    let mut buffer = Buffer::new();
    buffer.receive(lookup(4, b"kept"), ReadEvent::Data(45));
    let step = buffer.receive(vec![0; 64], ReadEvent::Failed(Some(abi::ENODEV)));
    assert!(matches!(step, ReceiveStep::Closed));
    assert_eq!(buffer.parse().unwrap().1, Operation::Lookup { name: &b"kept"[..] });
}

#[test]
fn interrupted_reads_are_made_again() {
    let mut buffer = Buffer::new();
    buffer.receive(lookup(4, b"kept"), ReadEvent::Data(45));
    for errno in [abi::ENOENT, abi::EINTR] {
        match buffer.receive(vec![1, 2, 3], ReadEvent::Failed(Some(errno))) {
            ReceiveStep::Retry(storage) => assert_eq!(storage, vec![1, 2, 3]),
            other => panic!("unexpected step: {:?}", other),
        }
        assert_eq!(buffer.parse().unwrap().0.unique, 4);
    }
}

#[test]
fn other_errors_are_fatal_and_leave_the_buffer() {
    let mut buffer = Buffer::new();
    buffer.receive(lookup(4, b"kept"), ReadEvent::Data(45));
    for errno in [Some(abi::EIO), Some(1), Some(0), Some(-19), None] {
        let step = buffer.receive(vec![0; 8], ReadEvent::Failed(errno));
        assert!(matches!(step, ReceiveStep::Fatal));
        assert_eq!(buffer.parse().unwrap().0.unique, 4);
    }
}
