use polyfuse::abi;
use polyfuse::session::{
    judge, max_pages_for, negotiate, Verdict, BUFFER_HEADER_SIZE, DEFAULT_MAX_WRITE,
    MAX_MAX_PAGES, MINIMUM_SUPPORTED_MINOR_VERSION,
};
use polyfuse::wire::Wire;
use polyfuse::{
    classify_error, init_buffer_size, try_init, CapabilityFlags, Config, DecodeError, ErrorAction,
    InHeader, InitIn, InitOut, InvalidThreshold, NextStep, Operation, OutHeader, ReadEvent,
    Session,
};
use polyfuse_kernel::fuse_init_out;
use zerocopy::FromBytes;

fn init_message(unique: u64, init: InitIn) -> Vec<u8> {
    let header = InHeader {
        len: 56,
        opcode: abi::FUSE_INIT,
        unique,
        nodeid: 0,
        uid: 0,
        gid: 0,
        pid: 0,
        padding: 0,
    };
    let mut buf = Vec::new();
    header.encode(&mut buf);
    init.encode(&mut buf);
    buf
}

fn modern(flags: u32) -> InitIn {
    InitIn { major: 7, minor: 31, max_readahead: 131072, flags }
}

fn open_session(config: &Config, init: InitIn) -> (InitOut, Session) {
    let step = try_init(config, &init_message(1, init), 4096).unwrap();
    let header = OutHeader::decode(&step.reply[..16]);
    assert_eq!(header, OutHeader { len: 80, error: 0, unique: 1 });
    assert_eq!(step.reply.len(), 80);
    (InitOut::decode(&step.reply[16..]), step.session.unwrap())
}

#[test]
fn constants_of_the_session() {
    assert_eq!(MINIMUM_SUPPORTED_MINOR_VERSION, 23);
    assert_eq!(DEFAULT_MAX_WRITE, 16 * 1024 * 1024);
    assert_eq!(MAX_MAX_PAGES, 256);
    assert_eq!(BUFFER_HEADER_SIZE, 4096);
}

#[test]
fn handshake_with_a_modern_kernel() {
    let init = modern(abi::FUSE_MAX_PAGES | abi::FUSE_ASYNC_READ);
    let step = try_init(&Config::default(), &init_message(2, init), 4096).unwrap();
    assert_eq!(step.reply.len(), 80);
    assert_eq!(OutHeader::decode(&step.reply[..16]), OutHeader { len: 80, error: 0, unique: 2 });
    let out = InitOut::decode(&step.reply[16..]);
    assert_eq!(
        out,
        InitOut {
            major: 7,
            minor: 31,
            max_readahead: 131072,
            flags: abi::FUSE_ASYNC_READ | abi::FUSE_BIG_WRITES | abi::FUSE_MAX_PAGES,
            max_background: 0,
            congestion_threshold: 0,
            max_write: 16777216,
            time_gran: 1,
            max_pages: 4096,
        }
    );
    let session = step.session.unwrap();
    assert_eq!(session.bufsize(), 16781312);
    assert!(!session.exited());
    let conn = session.conn();
    assert_eq!(conn.proto_major(), 7);
    assert_eq!(conn.proto_minor(), 31);
    assert_eq!(conn.max_readahead(), 131072);
    assert_eq!(conn.max_write(), 16777216);
    assert_eq!(conn.max_background(), 0);
    assert_eq!(conn.congestion_threshold(), 0);
    assert_eq!(conn.time_gran(), 1);
    assert_eq!(conn.max_pages(), Some(4096));
    assert_eq!(conn.raw_flags(), 0x0040_0021);
    assert_eq!(conn.flags().bits(), 0x0040_0021);
    assert!(!conn.no_open_support());
    assert!(!conn.no_opendir_support());
}

#[test]
fn answer_is_read_by_the_kernel_crate_as_it_was_meant() {
    let init = modern(abi::FUSE_MAX_PAGES | abi::FUSE_ASYNC_READ);
    let mut config = Config::default();
    config.max_background(12).congestion_threshold(9).time_gran(1000);
    let step = try_init(&config, &init_message(2, init), 4096).unwrap();
    let theirs = fuse_init_out::read_from_bytes(&step.reply[16..]).unwrap();
    assert_eq!(theirs.major, 7);
    assert_eq!(theirs.minor, 31);
    assert_eq!(theirs.max_readahead, 131072);
    assert_eq!(theirs.flags, 0x0040_0021);
    assert_eq!(theirs.max_background, 12);
    assert_eq!(theirs.congestion_threshold, 9);
    assert_eq!(theirs.max_write, 16777216);
    assert_eq!(theirs.time_gran, 1000);
    assert_eq!(theirs.max_pages, 4096);
    assert_eq!(theirs.padding, 0);
    assert_eq!(theirs.unused, [0; 8]);
}

#[test]
fn handshake_with_a_kernel_that_is_ahead() {
    let config = Config::default();
    let future = InitIn { major: 8, minor: 0, max_readahead: 131072, flags: 0xffff_ffff };
    let step = try_init(&config, &init_message(1, future), 4096).unwrap();
    assert!(step.session.is_none());
    assert_eq!(OutHeader::decode(&step.reply[..16]), OutHeader { len: 80, error: 0, unique: 1 });
    let out = InitOut::decode(&step.reply[16..]);
    assert_eq!(
        out,
        InitOut {
            major: 7,
            minor: 31,
            max_readahead: 0,
            flags: 0,
            max_background: 0,
            congestion_threshold: 0,
            max_write: 0,
            time_gran: 0,
            max_pages: 0,
        }
    );
    assert_eq!(&step.reply[24..], &[0u8; 56][..]);
    let step = try_init(&config, &init_message(2, modern(0)), 4096).unwrap();
    assert_eq!(OutHeader::decode(&step.reply[..16]).unique, 2);
    assert!(step.session.is_some());
}

#[test]
fn kernel_ahead_by_major_version_is_never_accepted() {
    for major in [8u32, 9, 100, u32::MAX] {
        for minor in [0u32, 23, 31, u32::MAX] {
            let init = InitIn { major, minor, max_readahead: 0, flags: 0 };
            assert_eq!(judge(&init), Verdict::Downgrade);
            let step = try_init(&Config::default(), &init_message(1, init), 4096).unwrap();
            assert!(step.session.is_none());
            assert_eq!(InitOut::decode(&step.reply[16..]).major, 7);
        }
    }
}

#[test]
fn handshake_with_a_kernel_that_is_too_old() {
    let old = InitIn { major: 7, minor: 20, max_readahead: 131072, flags: 0 };
    let step = try_init(&Config::default(), &init_message(3, old), 4096).unwrap();
    assert!(step.session.is_none());
    assert_eq!(step.reply.len(), 16);
    assert_eq!(OutHeader::decode(&step.reply), OutHeader { len: 16, error: -71, unique: 3 });
    assert_eq!(-abi::EPROTO, -71);
}

#[test]
fn versions_at_the_edges() {
    let v = |major, minor| judge(&InitIn { major, minor, max_readahead: 0, flags: 0 });
    assert_eq!(v(7, 23), Verdict::Accept);
    assert_eq!(v(7, 22), Verdict::Unsupported);
    assert_eq!(v(7, 0), Verdict::Unsupported);
    assert_eq!(v(6, 31), Verdict::Unsupported);
    assert_eq!(v(0, 0), Verdict::Unsupported);
    assert_eq!(v(7, 31), Verdict::Accept);
    assert_eq!(v(7, 32), Verdict::Accept);
    assert_eq!(v(7, u32::MAX), Verdict::Accept);
    assert_eq!(v(8, 0), Verdict::Downgrade);
}

#[test]
fn other_operations_before_the_handshake_are_refused() {
    let header = InHeader {
        len: 50,
        opcode: abi::FUSE_LOOKUP,
        unique: 4,
        nodeid: 1,
        uid: 0,
        gid: 0,
        pid: 0,
        padding: 0,
    };
    let mut buf = Vec::new();
    header.encode(&mut buf);
    buf.extend_from_slice(b"hello.txt\0");
    let step = try_init(&Config::default(), &buf, 4096).unwrap();
    assert!(step.session.is_none());
    assert_eq!(OutHeader::decode(&step.reply), OutHeader { len: 16, error: -5, unique: 4 });
    assert_eq!(step.reply.len(), 16);
}

#[test]
fn messages_too_short_for_the_handshake_are_errors() {
    let config = Config::default();
    assert_eq!(try_init(&config, &[], 4096).err(), Some(DecodeError::ShortBuffer));
    let message = init_message(1, modern(0));
    assert_eq!(try_init(&config, &message[..39], 4096).err(), Some(DecodeError::ShortBuffer));
    assert_eq!(try_init(&config, &message[..40], 4096).err(), Some(DecodeError::ShortBuffer));
    assert_eq!(try_init(&config, &message[..55], 4096).err(), Some(DecodeError::ShortBuffer));
    assert!(try_init(&config, &message[..56], 4096).is_ok());
}

#[test]
fn handshake_reads_the_offer_from_a_buffer_larger_than_the_message() {
    let mut message = init_message(1, modern(abi::FUSE_ASYNC_READ));
    message.resize(init_buffer_size(4096).unwrap(), 0);
    let step = try_init(&Config::default(), &message, 4096).unwrap();
    assert!(step.session.is_some());
}

#[test]
fn minor_version_is_the_smaller_of_the_two() {
    for (theirs, agreed) in [(23u32, 23u32), (27, 27), (31, 31), (32, 31), (u32::MAX, 31)] {
        let init = InitIn { major: 7, minor: theirs, max_readahead: 0, flags: 0 };
        let (out, session) = open_session(&Config::default(), init);
        assert_eq!(out.minor, agreed);
        assert_eq!(out.major, 7);
        assert_eq!(session.conn().proto_minor(), agreed);
    }
}

#[test]
fn readahead_is_the_smaller_of_the_two() {
    let mut config = Config::default();
    let (out, _) = open_session(&config, modern(0));
    assert_eq!(out.max_readahead, 131072);
    config.max_readahead(4096);
    let (out, session) = open_session(&config, modern(0));
    assert_eq!(out.max_readahead, 4096);
    assert_eq!(session.conn().max_readahead(), 4096);
    config.max_readahead(131072);
    assert_eq!(open_session(&config, modern(0)).0.max_readahead, 131072);
}

#[test]
fn answer_holds_what_both_sides_name_and_big_writes() {
    let mut config = Config::default();
    config.flags().insert(CapabilityFlags::from_bits_truncate(abi::FUSE_POSIX_LOCKS));
    let offered = abi::FUSE_ASYNC_READ
        | abi::FUSE_POSIX_LOCKS
        | abi::FUSE_FLOCK_LOCKS
        | abi::FUSE_PARALLEL_DIROPS
        | abi::FUSE_WRITEBACK_CACHE;
    let (out, session) = open_session(&config, modern(offered));
    assert_eq!(
        out.flags,
        abi::FUSE_ASYNC_READ
            | abi::FUSE_POSIX_LOCKS
            | abi::FUSE_PARALLEL_DIROPS
            | abi::FUSE_BIG_WRITES
    );
    assert_eq!(session.conn().raw_flags(), out.flags);
    assert_eq!(session.conn().max_pages(), None);
    assert_eq!(out.max_pages, 0);
}

#[test]
fn big_writes_is_set_whatever_the_two_sides_name() {
    let mut config = Config::default();
    config.flags().remove(CapabilityFlags::all());
    let (out, _) = open_session(&config, modern(0));
    assert_eq!(out.flags, abi::FUSE_BIG_WRITES);
    let (out, _) = open_session(&config, modern(0xffff_ffff));
    assert_eq!(out.flags, abi::FUSE_BIG_WRITES | abi::FUSE_MAX_PAGES);
}

#[test]
fn unknown_capabilities_are_kept_by_the_session_and_not_sent() {
    let unknown = 0x0000_0380 | 0x0020_0000 | 0x0080_0000 | 0xfe00_0000;
    assert_eq!(unknown & abi::RECOGNIZED_FLAGS, 0);
    assert_eq!(unknown | abi::RECOGNIZED_FLAGS, 0xffff_ffff);
    let (out, session) = open_session(&Config::default(), modern(unknown | abi::FUSE_ASYNC_READ));
    assert_eq!(out.flags, abi::FUSE_ASYNC_READ | abi::FUSE_BIG_WRITES);
    assert_eq!(session.conn().raw_flags(), unknown | abi::FUSE_ASYNC_READ | abi::FUSE_BIG_WRITES);
    assert_eq!(session.conn().raw_flags() & !abi::RECOGNIZED_FLAGS, unknown);
    assert_eq!(session.conn().flags().bits(), abi::FUSE_ASYNC_READ | abi::FUSE_BIG_WRITES);
}

#[test]
fn known_capabilities_are_in_force_where_the_server_asked_for_them() {
    let offered = abi::FUSE_NO_OPEN_SUPPORT | abi::FUSE_NO_OPENDIR_SUPPORT;
    let (_, session) = open_session(&Config::default(), modern(offered));
    assert!(!session.conn().no_open_support());
    assert!(!session.conn().no_opendir_support());
    let mut config = Config::default();
    config.flags().insert(CapabilityFlags::from_bits_truncate(abi::FUSE_NO_OPEN_SUPPORT));
    let (out, session) = open_session(&config, modern(offered));
    assert!(session.conn().no_open_support());
    assert!(!session.conn().no_opendir_support());
    assert_eq!(out.flags, abi::FUSE_NO_OPEN_SUPPORT | abi::FUSE_BIG_WRITES);
}

#[test]
fn buffer_is_a_header_and_the_largest_write() {
    let mut config = Config::default();
    for max_write in [0u32, 1, 4096, 131072, 16777216, u32::MAX] {
        config.max_write(max_write);
        let (out, session) = open_session(&config, modern(0));
        assert_eq!(out.max_write, max_write);
        assert_eq!(session.conn().max_write(), max_write);
        assert_eq!(session.bufsize(), 4096 + max_write as u64);
    }
}

#[test]
fn pages_are_counted_for_the_largest_write() {
    assert_eq!(max_pages_for(16 * 1024 * 1024, 4096), 4096);
    assert_eq!(max_pages_for(0, 4096), 0);
    assert_eq!(max_pages_for(1, 4096), 1);
    assert_eq!(max_pages_for(4096, 4096), 1);
    assert_eq!(max_pages_for(4097, 4096), 2);
    assert_eq!(max_pages_for(131072, 4096), 32);
    assert_eq!(max_pages_for(16 * 1024 * 1024, 65536), 256);
    assert_eq!(max_pages_for(u32::MAX, u32::MAX), 1);
    assert_eq!(max_pages_for(7, 1), 7);
}

#[test]
fn pages_are_held_to_sixteen_bits() {
    assert_eq!(max_pages_for(65535 * 4096, 4096), 65535);
    assert_eq!(max_pages_for(65535 * 4096 + 1, 4096), 65535);
    assert_eq!(max_pages_for(256 * 1024 * 1024, 4096), 65535);
    assert_eq!(max_pages_for(u32::MAX, 4096), 65535);
    assert_eq!(max_pages_for(u32::MAX, 1), 65535);
    assert_eq!(max_pages_for(65536, 1), 65535);
    assert_eq!(max_pages_for(65535, 1), 65535);
    assert_eq!(max_pages_for(65534, 1), 65534);
}

#[test]
fn pages_are_agreed_on_where_the_kernel_offers_them() {
    let mut config = Config::default();
    config.max_write(1024 * 1024);
    let (out, session) = open_session(&config, modern(abi::FUSE_MAX_PAGES));
    assert_eq!(out.max_pages, 256);
    assert_eq!(out.flags, abi::FUSE_MAX_PAGES | abi::FUSE_BIG_WRITES);
    assert_eq!(session.conn().max_pages(), Some(256));
    let (out, session) = open_session(&config, modern(0));
    assert_eq!(out.max_pages, 0);
    assert_eq!(session.conn().max_pages(), None);
    let step = try_init(&config, &init_message(1, modern(abi::FUSE_MAX_PAGES)), 16384).unwrap();
    assert_eq!(step.session.unwrap().conn().max_pages(), Some(64));
}

#[test]
fn negotiate_gives_the_answer_of_the_handshake() {
    let config = Config::default();
    let init = modern(abi::FUSE_MAX_PAGES | abi::FUSE_ASYNC_READ);
    let (out, _) = open_session(&config, init);
    assert_eq!(negotiate(&config, &init, 4096), out);
}

#[test]
fn default_configuration() {
    let (out, session) = open_session(
        &Config::default(),
        InitIn { major: 7, minor: 31, max_readahead: u32::MAX, flags: 0xffff_ffff },
    );
    assert_eq!(out.max_readahead, u32::MAX);
    assert_eq!(out.max_write, 16 * 1024 * 1024);
    assert_eq!(out.max_background, 0);
    assert_eq!(out.congestion_threshold, 0);
    assert_eq!(out.time_gran, 1);
    assert_eq!(
        out.flags,
        abi::FUSE_ASYNC_READ
            | abi::FUSE_ATOMIC_O_TRUNC
            | abi::FUSE_AUTO_INVAL_DATA
            | abi::FUSE_ASYNC_DIO
            | abi::FUSE_PARALLEL_DIROPS
            | abi::FUSE_HANDLE_KILLPRIV
            | abi::FUSE_BIG_WRITES
            | abi::FUSE_MAX_PAGES
    );
    assert_eq!(session.conn().raw_flags(), out.flags | !abi::RECOGNIZED_FLAGS);
}

#[test]
fn setters_change_one_value_each() {
    let mut config = Config::default();
    config.max_readahead(1).max_write(2).max_background(3).time_gran(4);
    let (out, _) = open_session(
        &config,
        InitIn { major: 7, minor: 31, max_readahead: u32::MAX, flags: 0 },
    );
    assert_eq!(out.max_readahead, 1);
    assert_eq!(out.max_write, 2);
    assert_eq!(out.max_background, 3);
    assert_eq!(out.congestion_threshold, 0);
    assert_eq!(out.time_gran, 4);
    assert_eq!(out.flags, abi::FUSE_BIG_WRITES);
}

fn threshold_after(max_background: u16, threshold: u16) -> u16 {
    let mut config = Config::default();
    config.max_background(max_background).congestion_threshold(threshold);
    open_session(&config, modern(0)).0.congestion_threshold
}

#[test]
fn congestion_threshold_defaults_to_three_quarters() {
    assert_eq!(threshold_after(100, 0), 75);
    assert_eq!(threshold_after(12, 0), 9);
    assert_eq!(threshold_after(0, 0), 0);
    assert_eq!(threshold_after(1, 0), 0);
    assert_eq!(threshold_after(2, 0), 1);
    assert_eq!(threshold_after(3, 0), 2);
    assert_eq!(threshold_after(21845, 0), 16383);
    assert_eq!(threshold_after(21846, 0), 16384);
    assert_eq!(threshold_after(65535, 0), 49151);
}

#[test]
fn congestion_threshold_is_kept_where_it_is_given() {
    assert_eq!(threshold_after(100, 1), 1);
    assert_eq!(threshold_after(100, 100), 100);
    assert_eq!(threshold_after(65535, 65535), 65535);
}

#[test]
fn congestion_threshold_follows_the_limit_of_the_moment() {
    let mut config = Config::default();
    config.max_background(100).congestion_threshold(0).max_background(8);
    let (out, _) = open_session(&config, modern(0));
    assert_eq!(out.max_background, 8);
    assert_eq!(out.congestion_threshold, 75);
}

#[test]
fn congestion_threshold_above_the_limit_is_refused() {
    let mut config = Config::default();
    config.max_background(10);
    assert_eq!(
        config.checked_congestion_threshold(11),
        Err(InvalidThreshold { threshold: 11, max_background: 10 })
    );
    assert_eq!(open_session(&config, modern(0)).0.congestion_threshold, 0);
    assert_eq!(config.checked_congestion_threshold(10), Ok(()));
    assert_eq!(open_session(&config, modern(0)).0.congestion_threshold, 10);
    assert_eq!(config.checked_congestion_threshold(0), Ok(()));
    assert_eq!(open_session(&config, modern(0)).0.congestion_threshold, 7);
    let mut config = Config::default();
    assert_eq!(
        config.checked_congestion_threshold(1),
        Err(InvalidThreshold { threshold: 1, max_background: 0 })
    );
}

#[test]
fn configured_capabilities_can_be_read_and_changed() {
    let mut config = Config::default();
    assert_eq!(config.capabilities().bits(), abi::DEFAULT_FLAGS);
    config.flags().remove(CapabilityFlags::from_bits_truncate(abi::FUSE_ASYNC_READ));
    config.flags().insert(CapabilityFlags::from_bits_truncate(abi::FUSE_POSIX_ACL));
    assert_eq!(config.capabilities().bits(), 0x001c_9008);
    *config.flags() = CapabilityFlags::empty();
    assert!(config.capabilities().is_empty());
}

#[test]
fn capability_sets() {
    assert_eq!(CapabilityFlags::empty().bits(), 0);
    assert!(CapabilityFlags::empty().is_empty());
    assert_eq!(CapabilityFlags::all().bits(), 0x015f_fc7f);
    assert!(!CapabilityFlags::all().is_empty());
    assert_eq!(CapabilityFlags::default().bits(), 0x000c_9009);
    assert_eq!(CapabilityFlags::from_bits_truncate(0xffff_ffff).bits(), 0x015f_fc7f);
    assert_eq!(CapabilityFlags::from_bits_truncate(0x0000_0381).bits(), 1);
    assert_eq!(CapabilityFlags::from_bits(0x0000_0381), None);
    assert_eq!(CapabilityFlags::from_bits(0x0000_0080), None);
    assert_eq!(CapabilityFlags::from_bits(0x0040_0001).map(|f| f.bits()), Some(0x0040_0001));
    assert_eq!(CapabilityFlags::from_bits(0).map(|f| f.bits()), Some(0));
}

#[test]
fn capability_set_operations() {
    let a = CapabilityFlags::from_bits_truncate(0b0011);
    let b = CapabilityFlags::from_bits_truncate(0b0110);
    assert_eq!(a.union(b).bits(), 0b0111);
    assert_eq!(a.intersection(b).bits(), 0b0010);
    assert!(a.contains(CapabilityFlags::from_bits_truncate(0b0001)));
    assert!(a.contains(a));
    assert!(a.contains(CapabilityFlags::empty()));
    assert!(!a.contains(b));
    let mut c = a;
    c.insert(b);
    assert_eq!(c.bits(), 0b0111);
    c.remove(a);
    assert_eq!(c.bits(), 0b0100);
    c.remove(CapabilityFlags::all());
    assert!(c.is_empty());
}

#[test]
fn bootstrap_buffer_takes_the_most_pages() {
    assert_eq!(init_buffer_size(4096), Some(1052672));
    assert_eq!(init_buffer_size(65536), Some(4096 + 65536 * 256));
    assert_eq!(init_buffer_size(0), Some(4096));
    assert_eq!(init_buffer_size(usize::MAX), None);
    assert_eq!(init_buffer_size(usize::MAX / 256), None);
    let most = (usize::MAX - 4096) / 256;
    assert_eq!(init_buffer_size(most), Some(most * 256 + 4096));
}

#[test]
fn errors_of_a_read_are_told_apart() {
    assert_eq!(classify_error(Some(abi::ENODEV)), ErrorAction::Shutdown);
    assert_eq!(classify_error(Some(abi::ENOENT)), ErrorAction::Retry);
    assert_eq!(classify_error(Some(abi::EINTR)), ErrorAction::Retry);
    assert_eq!(classify_error(Some(abi::EIO)), ErrorAction::Fatal);
    assert_eq!(classify_error(Some(abi::EPROTO)), ErrorAction::Fatal);
    assert_eq!(classify_error(Some(0)), ErrorAction::Fatal);
    assert_eq!(classify_error(Some(-19)), ErrorAction::Fatal);
    assert_eq!(classify_error(None), ErrorAction::Fatal);
}

fn session() -> Session {
    open_session(&Config::default(), modern(abi::FUSE_ASYNC_READ)).1
}

fn lookup(unique: u64) -> Vec<u8> {
    let header = InHeader {
        len: 50,
        opcode: abi::FUSE_LOOKUP,
        unique,
        nodeid: 1,
        uid: 0,
        gid: 0,
        pid: 0,
        padding: 0,
    };
    let mut buf = Vec::new();
    header.encode(&mut buf);
    buf.extend_from_slice(b"hello.txt\0");
    buf
}

#[test]
fn unmounted_filesystem_ends_the_session() {
    let mut session = session();
    assert!(!session.exited());
    let step = session.next_request(vec![0; 128], ReadEvent::Failed(Some(abi::ENODEV)));
    assert!(matches!(step, NextStep::Shutdown));
    assert!(session.exited());
    assert_eq!(session.bufsize(), 16781312);
}

#[test]
fn interrupted_request_is_followed_by_the_next() {
    let mut session = session();
    let buf = vec![0u8; 128];
    let buf = match session.next_request(buf, ReadEvent::Failed(Some(abi::ENOENT))) {
        NextStep::Retry(buf) => buf,
        other => panic!("unexpected step: {:?}", other),
    };
    assert_eq!(buf.len(), 128);
    assert!(!session.exited());
    let mut buf = buf;
    let message = lookup(17);
    buf[..50].copy_from_slice(&message);
    match session.next_request(buf, ReadEvent::Data(50)) {
        NextStep::Yield(request) => {
            assert_eq!(request.bytes(), &message[..]);
            assert_eq!(request.unique(), Some(17));
            assert_eq!(request.operation(), Ok(Operation::Lookup { name: &b"hello.txt"[..] }));
        }
        other => panic!("unexpected step: {:?}", other),
    }
    assert!(!session.exited());
}

#[test]
fn interrupted_read_is_made_again() {
    let mut session = session();
    match session.next_request(vec![9, 9], ReadEvent::Failed(Some(abi::EINTR))) {
        NextStep::Retry(buf) => assert_eq!(buf, vec![9, 9]),
        other => panic!("unexpected step: {:?}", other),
    }
    assert!(!session.exited());
}

#[test]
fn other_errors_of_a_read_go_to_the_caller() {
    let mut session = session();
    for errno in [Some(abi::EIO), Some(abi::EPROTO), Some(1), None] {
        let step = session.next_request(vec![0; 16], ReadEvent::Failed(errno));
        assert!(matches!(step, NextStep::Fatal));
        assert!(!session.exited());
    }
}

#[test]
fn message_is_handed_on_without_a_look_at_its_header() {
    let mut session = session();
    match session.next_request(vec![1, 2, 3, 4], ReadEvent::Data(3)) {
        NextStep::Yield(request) => {
            assert_eq!(request.bytes(), &[1, 2, 3]);
            assert_eq!(request.operation(), Err(DecodeError::ShortBuffer));
        }
        other => panic!("unexpected step: {:?}", other),
    }
    match session.next_request(vec![1, 2, 3, 4], ReadEvent::Data(0)) {
        NextStep::Yield(request) => assert_eq!(request.bytes(), &[] as &[u8]),
        other => panic!("unexpected step: {:?}", other),
    }
    match session.next_request(vec![1, 2, 3, 4], ReadEvent::Data(5)) {
        NextStep::Yield(request) => assert_eq!(request.bytes(), &[1, 2, 3, 4]),
        other => panic!("unexpected step: {:?}", other),
    }
}

#[test]
fn ended_session_stays_ended() {
    let mut session = session();
    session.exit();
    assert!(session.exited());
    session.exit();
    assert!(session.exited());
    for event in [
        ReadEvent::Data(0),
        ReadEvent::Failed(Some(abi::ENOENT)),
        ReadEvent::Failed(Some(abi::EINTR)),
        ReadEvent::Failed(Some(abi::EIO)),
        ReadEvent::Failed(Some(abi::ENODEV)),
        ReadEvent::Failed(None),
    ] {
        session.next_request(vec![0; 4], event);
        assert!(session.exited());
    }
}

#[test]
fn unset_answer_is_that_of_the_kernel_crate() {
    let ours = InitOut::default();
    let theirs = fuse_init_out::default();
    assert_eq!(ours.major, theirs.major);
    assert_eq!(ours.minor, theirs.minor);
    assert_eq!(ours.max_readahead, theirs.max_readahead);
    assert_eq!(ours.flags, theirs.flags);
    assert_eq!(ours.max_background, theirs.max_background);
    assert_eq!(ours.congestion_threshold, theirs.congestion_threshold);
    assert_eq!(ours.max_write, theirs.max_write);
    assert_eq!(ours.time_gran, theirs.time_gran);
    assert_eq!(ours.max_pages, theirs.max_pages);
    assert_eq!((ours.major, ours.minor), (7, 31));
}
