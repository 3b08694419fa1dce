//! The session: what a server asks of the kernel, the handshake that opens
//! the connection, and what the two sides have agreed on.

use crate::abi::{
    DEFAULT_FLAGS, EINTR, EIO, ENODEV, ENOENT, EPROTO, FUSE_BIG_WRITES, FUSE_INIT,
    FUSE_KERNEL_MINOR_VERSION, FUSE_KERNEL_VERSION, FUSE_MAX_PAGES, FUSE_NO_OPENDIR_SUPPORT,
    FUSE_NO_OPEN_SUPPORT, RECOGNIZED_FLAGS,
};
use crate::decoder::{take, DecodeError, Decoder};
use crate::header::{unset_init_out, InHeader, InitIn, InitOut, OutHeader};
use crate::reply::{build_frame, encode_error, error_frame, frame};
use crate::request::Request;
use crate::wire::Wire;
use vstd::prelude::*;

verus! {

/// The oldest minor version of the protocol that the core speaks.
pub const MINIMUM_SUPPORTED_MINOR_VERSION: u32 = 23;

/// The largest write that a server accepts unless it says otherwise: 16 MiB.
pub const DEFAULT_MAX_WRITE: u32 = 0x0100_0000;

/// The largest number of pages that the kernel puts into one request.
pub const MAX_MAX_PAGES: usize = 256;

/// The room that a receive buffer keeps for what precedes the data of a write.
pub const BUFFER_HEADER_SIZE: usize = 0x1000;

/// What is made of sets under a mask lies under the mask.
proof fn lemma_masked(a: u32, b: u32, m: u32)
    by (bit_vector)
    requires
        a & !m == 0,
    ensures
        (a & b) & !m == 0,
        (a & !b) & !m == 0,
        b & !m == 0 ==> (a | b) & !m == 0,
{
}

/// What lies under a mask has nothing outside it.
proof fn lemma_truncated(b: u32, m: u32)
    by (bit_vector)
    ensures
        (b & m) & !m == 0,
        0u32 & !m == 0,
        m & !m == 0,
{
}

/// A set of capabilities, all of them known to the core.
#[derive(Clone, Copy, Debug, PartialEq, Eq)]
pub struct CapabilityFlags {
    bits: u32,
}

impl View for CapabilityFlags {
    type V = u32;

    closed spec fn view(&self) -> u32 {
        self.bits
    }
}

impl CapabilityFlags {
    #[verifier::type_invariant]
    spec fn inv(self) -> bool {
        self.bits & !RECOGNIZED_FLAGS == 0
    }

    /// Whether the set holds known capabilities only. Every set that the
    /// functions of this type hand out does.
    pub open spec fn is_valid(self) -> bool {
        self@ & !RECOGNIZED_FLAGS == 0
    }

    /// The empty set.
    pub fn empty() -> (r: Self)
        ensures
            r@ == 0,
            r.is_valid(),
    {
        proof {
            lemma_truncated(0, RECOGNIZED_FLAGS);
        }
        CapabilityFlags { bits: 0 }
    }

    /// The set of all capabilities that the core knows.
    pub fn all() -> (r: Self)
        ensures
            r@ == RECOGNIZED_FLAGS,
            r.is_valid(),
    {
        proof {
            lemma_truncated(0, RECOGNIZED_FLAGS);
        }
        CapabilityFlags { bits: RECOGNIZED_FLAGS }
    }

    /// The set with the given bits, where all of them are known.
    pub fn from_bits(bits: u32) -> (r: Option<Self>)
        ensures
            r is Some <==> bits & !RECOGNIZED_FLAGS == 0,
            r matches Some(f) ==> f@ == bits && f.is_valid(),
    {
        if bits & !RECOGNIZED_FLAGS == 0 {
            Some(CapabilityFlags { bits })
        } else {
            None
        }
    }

    /// The set with those of the given bits that are known.
    pub fn from_bits_truncate(bits: u32) -> (r: Self)
        ensures
            r@ == bits & RECOGNIZED_FLAGS,
            r.is_valid(),
    {
        proof {
            lemma_truncated(bits, RECOGNIZED_FLAGS);
        }
        CapabilityFlags { bits: bits & RECOGNIZED_FLAGS }
    }

    /// The bits of the set.
    pub fn bits(&self) -> (r: u32)
        ensures
            r == self@,
            self.is_valid(),
    {
        proof {
            use_type_invariant(self);
        }
        self.bits
    }

    /// Whether the set is empty.
    pub fn is_empty(&self) -> (r: bool)
        ensures
            r == (self@ == 0),
    {
        self.bits == 0
    }

    /// Whether every capability of `other` is in the set.
    pub fn contains(&self, other: CapabilityFlags) -> (r: bool)
        ensures
            r == (self@ & other@ == other@),
    {
        self.bits & other.bits == other.bits
    }

    /// Adds the capabilities of `other`.
    pub fn insert(&mut self, other: CapabilityFlags)
        ensures
            final(self)@ == old(self)@ | other@,
            final(self).is_valid(),
    {
        proof {
            use_type_invariant(&*self);
            use_type_invariant(&other);
            lemma_masked(self.bits, other.bits, RECOGNIZED_FLAGS);
        }
        self.bits = self.bits | other.bits;
    }

    /// Takes out the capabilities of `other`.
    pub fn remove(&mut self, other: CapabilityFlags)
        ensures
            final(self)@ == old(self)@ & !other@,
            final(self).is_valid(),
    {
        proof {
            use_type_invariant(&*self);
            lemma_masked(self.bits, other.bits, RECOGNIZED_FLAGS);
        }
        self.bits = self.bits & !other.bits;
    }

    /// The capabilities that are in either set.
    pub fn union(self, other: CapabilityFlags) -> (r: Self)
        ensures
            r@ == self@ | other@,
            r.is_valid(),
    {
        proof {
            use_type_invariant(&self);
            use_type_invariant(&other);
            lemma_masked(self.bits, other.bits, RECOGNIZED_FLAGS);
        }
        CapabilityFlags { bits: self.bits | other.bits }
    }

    /// The capabilities that are in both sets.
    pub fn intersection(self, other: CapabilityFlags) -> (r: Self)
        ensures
            r@ == self@ & other@,
            r.is_valid(),
    {
        proof {
            use_type_invariant(&self);
            lemma_masked(self.bits, other.bits, RECOGNIZED_FLAGS);
        }
        CapabilityFlags { bits: self.bits & other.bits }
    }
}

impl Default for CapabilityFlags {
    /// The capabilities that a server asks for unless it says otherwise.
    fn default() -> (r: Self)
        ensures
            r@ == DEFAULT_FLAGS,
            r.is_valid(),
    {
        proof {
            crate::abi::lemma_masks();
        }
        CapabilityFlags { bits: DEFAULT_FLAGS }
    }
}

/// What a configuration holds.
pub struct ConfigView {
    pub flags: u32,
    pub max_readahead: u32,
    pub max_background: u16,
    pub congestion_threshold: u16,
    pub max_write: u32,
    pub time_gran: u32,
}

/// What a server asks of the kernel when the connection opens.
#[derive(Clone, Copy, Debug)]
pub struct Config {
    max_readahead: u32,
    flags: CapabilityFlags,
    max_background: u16,
    congestion_threshold: u16,
    max_write: u32,
    time_gran: u32,
}

impl View for Config {
    type V = ConfigView;

    closed spec fn view(&self) -> ConfigView {
        ConfigView {
            flags: self.flags@,
            max_readahead: self.max_readahead,
            max_background: self.max_background,
            congestion_threshold: self.congestion_threshold,
            max_write: self.max_write,
            time_gran: self.time_gran,
        }
    }
}

/// The threshold that stands for "not set": three quarters of the limit on
/// background requests.
pub open spec fn default_threshold(max_background: u16) -> u16 {
    (max_background * 3 / 4) as u16
}

/// A threshold above the limit on background requests.
#[derive(Clone, Copy, Debug, PartialEq, Eq, Structural)]
pub struct InvalidThreshold {
    pub threshold: u16,
    pub max_background: u16,
}

impl Default for Config {
    fn default() -> (r: Self)
        ensures
            r@ == (ConfigView {
                flags: DEFAULT_FLAGS,
                max_readahead: u32::MAX,
                max_background: 0,
                congestion_threshold: 0,
                max_write: DEFAULT_MAX_WRITE,
                time_gran: 1,
            }),
    {
        Config {
            max_readahead: u32::MAX,
            flags: CapabilityFlags::default(),
            max_background: 0,
            congestion_threshold: 0,
            max_write: DEFAULT_MAX_WRITE,
            time_gran: 1,
        }
    }
}

impl Config {
    /// The capabilities that the server asks for.
    pub fn capabilities(&self) -> (r: CapabilityFlags)
        ensures
            r@ == self@.flags,
            r.is_valid(),
    {
        proof {
            use_type_invariant(&self.flags);
        }
        self.flags
    }

    /// The capabilities that the server asks for, open to change.
    pub fn flags(&mut self) -> (r: &mut CapabilityFlags)
        ensures
            r@ == old(self)@.flags,
            final(self)@ == (ConfigView { flags: final(r)@, ..old(self)@ }),
    {
        &mut self.flags
    }

    /// Sets the upper bound on what the kernel reads ahead.
    pub fn max_readahead(&mut self, value: u32) -> (r: &mut Self)
        ensures
            r@ == (ConfigView { max_readahead: value, ..old(self)@ }),
            *final(self) == *final(r),
    {
        self.max_readahead = value;
        self
    }

    /// Sets the largest write that the server accepts.
    pub fn max_write(&mut self, value: u32) -> (r: &mut Self)
        ensures
            r@ == (ConfigView { max_write: value, ..old(self)@ }),
            *final(self) == *final(r),
    {
        self.max_write = value;
        self
    }

    /// Sets the largest number of background requests that may be pending.
    pub fn max_background(&mut self, max_background: u16) -> (r: &mut Self)
        ensures
            r@ == (ConfigView { max_background, ..old(self)@ }),
            *final(self) == *final(r),
    {
        self.max_background = max_background;
        self
    }

    /// Sets the number of pending background requests at which the kernel
    /// takes the filesystem for congested. Zero stands for three quarters of
    /// the limit on background requests, as that limit is now.
    ///
    /// A threshold above that limit is a mistake of the caller; use
    /// `checked_congestion_threshold` where the value is not known to be good.
    pub fn congestion_threshold(&mut self, threshold: u16) -> (r: &mut Self)
        requires
            threshold <= old(self)@.max_background,
        ensures
            r@ == (ConfigView {
                congestion_threshold: if threshold == 0 {
                    default_threshold(old(self)@.max_background)
                } else {
                    threshold
                },
                ..old(self)@
            }),
            *final(self) == *final(r),
    {
        if threshold == 0 {
            let wide: u32 = self.max_background as u32 * 3 / 4;
            self.congestion_threshold = wide as u16;
        } else {
            self.congestion_threshold = threshold;
        }
        self
    }

    /// Sets the threshold as `congestion_threshold` does, after testing it: a
    /// threshold above the limit on background requests is refused, and the
    /// configuration stays as it is.
    pub fn checked_congestion_threshold(&mut self, threshold: u16) -> (r: Result<
        (),
        InvalidThreshold,
    >)
        ensures
            match r {
                Ok(()) => threshold <= old(self)@.max_background && final(self)@ == (ConfigView {
                    congestion_threshold: if threshold == 0 {
                        default_threshold(old(self)@.max_background)
                    } else {
                        threshold
                    },
                    ..old(self)@
                }),
                Err(e) => threshold > old(self)@.max_background && final(self)@ == old(self)@ && e
                    == (InvalidThreshold { threshold, max_background: old(self)@.max_background }),
            },
    {
        if threshold > self.max_background {
            Err(InvalidThreshold { threshold, max_background: self.max_background })
        } else {
            self.congestion_threshold(threshold);
            Ok(())
        }
    }

    /// Sets the granularity of timestamps, in nanoseconds.
    pub fn time_gran(&mut self, time_gran: u32) -> (r: &mut Self)
        ensures
            r@ == (ConfigView { time_gran, ..old(self)@ }),
            *final(self) == *final(r),
    {
        self.time_gran = time_gran;
        self
    }
}

/// What the two sides of a connection have agreed on.
#[derive(Clone, Copy, Debug)]
pub struct ConnectionInfo {
    out: InitOut,
}

impl View for ConnectionInfo {
    type V = InitOut;

    closed spec fn view(&self) -> InitOut {
        self.out
    }
}

impl ConnectionInfo {
    /// The major version of the protocol.
    pub fn proto_major(&self) -> (r: u32)
        ensures
            r == self@.major,
    {
        self.out.major
    }

    /// The minor version of the protocol.
    pub fn proto_minor(&self) -> (r: u32)
        ensures
            r == self@.minor,
    {
        self.out.minor
    }

    /// The capabilities in force, as far as the core knows them.
    pub fn flags(&self) -> (r: CapabilityFlags)
        ensures
            r@ == self@.flags & RECOGNIZED_FLAGS,
    {
        CapabilityFlags::from_bits_truncate(self.out.flags)
    }

    /// The capabilities in force as the session keeps them: those of the
    /// answer, and those that the kernel named and the core does not know.
    pub fn raw_flags(&self) -> (r: u32)
        ensures
            r == self@.flags,
    {
        self.out.flags
    }

    /// Whether the kernel takes a server without an `open` handler: it then
    /// reads the answer "not implemented" to an open as success and sends no
    /// further opens.
    pub fn no_open_support(&self) -> (r: bool)
        ensures
            r == (self@.flags & FUSE_NO_OPEN_SUPPORT != 0),
    {
        self.out.flags & FUSE_NO_OPEN_SUPPORT != 0
    }

    /// Whether the kernel takes a server without an `opendir` handler.
    pub fn no_opendir_support(&self) -> (r: bool)
        ensures
            r == (self@.flags & FUSE_NO_OPENDIR_SUPPORT != 0),
    {
        self.out.flags & FUSE_NO_OPENDIR_SUPPORT != 0
    }

    /// The upper bound on what the kernel reads ahead.
    pub fn max_readahead(&self) -> (r: u32)
        ensures
            r == self@.max_readahead,
    {
        self.out.max_readahead
    }

    /// The largest write that the kernel sends.
    pub fn max_write(&self) -> (r: u32)
        ensures
            r == self@.max_write,
    {
        self.out.max_write
    }

    /// The largest number of background requests that may be pending.
    pub fn max_background(&self) -> (r: u16)
        ensures
            r == self@.max_background,
    {
        self.out.max_background
    }

    /// The number of pending background requests at which the kernel takes
    /// the filesystem for congested.
    pub fn congestion_threshold(&self) -> (r: u16)
        ensures
            r == self@.congestion_threshold,
    {
        self.out.congestion_threshold
    }

    /// The granularity of timestamps, in nanoseconds.
    pub fn time_gran(&self) -> (r: u32)
        ensures
            r == self@.time_gran,
    {
        self.out.time_gran
    }

    /// The largest number of pages of one request, where the kernel has
    /// offered to go beyond its old limit.
    pub fn max_pages(&self) -> (r: Option<u16>)
        ensures
            r == if self@.flags & FUSE_MAX_PAGES != 0 {
                Some(self@.max_pages)
            } else {
                None
            },
    {
        if self.out.flags & FUSE_MAX_PAGES != 0 {
            Some(self.out.max_pages)
        } else {
            None
        }
    }
}

/// What a session holds.
pub struct SessionView {
    pub conn: InitOut,
    pub bufsize: nat,
    pub exited: bool,
}

/// An open connection to the kernel.
///
/// A session comes out of a successful handshake and in no other way, so a
/// server that reads requests through its session reads none before the
/// handshake is done.
#[derive(Debug)]
pub struct Session {
    conn: ConnectionInfo,
    bufsize: u64,
    exited: bool,
}

impl View for Session {
    type V = SessionView;

    closed spec fn view(&self) -> SessionView {
        SessionView { conn: self.conn@, bufsize: self.bufsize as nat, exited: self.exited }
    }
}

impl Session {
    /// What was agreed on when the session was opened.
    pub fn conn(&self) -> (r: &ConnectionInfo)
        ensures
            r@ == self@.conn,
    {
        &self.conn
    }

    /// The size of the buffer that takes any one request of this session.
    pub fn bufsize(&self) -> (r: u64)
        ensures
            r == self@.bufsize,
    {
        self.bufsize
    }

    /// Whether the session has ended.
    pub fn exited(&self) -> (r: bool)
        ensures
            r == self@.exited,
    {
        self.exited
    }

    /// Ends the session. A session that has ended stays so: nothing sets the
    /// mark back.
    pub fn exit(&mut self)
        ensures
            final(self)@ == (SessionView { exited: true, ..old(self)@ }),
    {
        self.exited = true;
    }
}

/// The smaller of two numbers.
pub open spec fn min_u32(a: u32, b: u32) -> u32 {
    if a < b {
        a
    } else {
        b
    }
}

/// The number of pages that a write of `max_write` bytes takes, held to what
/// sixteen bits can say.
pub open spec fn pages_for(max_write: u32, page_size: u32) -> u16
    recommends
        page_size > 0,
{
    let pages = (max_write + page_size - 1) / (page_size as int);
    if pages > u16::MAX {
        u16::MAX
    } else {
        pages as u16
    }
}

/// How the core takes the version that the kernel offers.
#[derive(Clone, Copy, Debug, PartialEq, Eq, Structural)]
pub enum Verdict {
    /// The kernel is ahead: it is told our version and will offer again.
    Downgrade,
    /// The kernel is too old to be served.
    Unsupported,
    /// The versions fit.
    Accept,
}

/// How the core takes the version in `init`.
pub open spec fn verdict(init: InitIn) -> Verdict {
    if init.major > FUSE_KERNEL_VERSION {
        Verdict::Downgrade
    } else if init.major < FUSE_KERNEL_VERSION || init.minor < MINIMUM_SUPPORTED_MINOR_VERSION {
        Verdict::Unsupported
    } else {
        Verdict::Accept
    }
}

/// What the core says of itself to a kernel that is ahead: its version, and
/// nothing else.
pub open spec fn advertised() -> InitOut {
    unset_init_out()
}

/// What the core answers to an offer that it accepts.
pub open spec fn negotiated(config: ConfigView, init: InitIn, page_size: u32) -> InitOut {
    let paged = init.flags & FUSE_MAX_PAGES != 0;
    let common = config.flags & (init.flags & RECOGNIZED_FLAGS) | FUSE_BIG_WRITES;
    InitOut {
        major: FUSE_KERNEL_VERSION,
        minor: min_u32(FUSE_KERNEL_MINOR_VERSION, init.minor),
        max_readahead: min_u32(config.max_readahead, init.max_readahead),
        flags: if paged {
            common | FUSE_MAX_PAGES
        } else {
            common
        },
        max_background: config.max_background,
        congestion_threshold: config.congestion_threshold,
        max_write: config.max_write,
        time_gran: config.time_gran,
        max_pages: if paged {
            pages_for(config.max_write, page_size)
        } else {
            0
        },
    }
}

/// What the session keeps of an accepted offer: the answer, and with it the
/// capabilities that the kernel named and the core does not know.
pub open spec fn agreed(config: ConfigView, init: InitIn, page_size: u32) -> InitOut {
    let out = negotiated(config, init, page_size);
    InitOut { flags: out.flags | (init.flags & !RECOGNIZED_FLAGS), ..out }
}

/// The session that an accepted offer opens.
pub open spec fn opened(config: ConfigView, init: InitIn, page_size: u32) -> SessionView {
    SessionView {
        conn: agreed(config, init, page_size),
        bufsize: (BUFFER_HEADER_SIZE + config.max_write) as nat,
        exited: false,
    }
}

/// What one step of the handshake comes to.
pub struct InitStepView {
    pub reply: Seq<u8>,
    pub session: Option<SessionView>,
}

/// What one step of the handshake comes to: the frame to send to the kernel
/// and, where the handshake is done, the session.
#[derive(Debug)]
pub struct InitStep {
    pub reply: Vec<u8>,
    pub session: Option<Session>,
}

impl View for InitStep {
    type V = InitStepView;

    open spec fn view(&self) -> InitStepView {
        InitStepView {
            reply: self.reply@,
            session: match self.session {
                Some(s) => Some(s@),
                None => None,
            },
        }
    }
}

/// The step that the core takes on the message `buf` while the handshake is
/// not done.
pub open spec fn init_step(config: ConfigView, buf: Seq<u8>, page_size: u32) -> Result<
    InitStepView,
    DecodeError,
> {
    match take::<InHeader>(buf) {
        Err(e) => Err(e),
        Ok((header, rest)) => if header.opcode != FUSE_INIT {
            Ok(InitStepView { reply: error_frame(header.unique, EIO), session: None })
        } else {
            match take::<InitIn>(rest) {
                Err(e) => Err(e),
                Ok((init, _)) => Ok(
                    match verdict(init) {
                        Verdict::Downgrade => InitStepView {
                            reply: frame(header.unique, 0, advertised().encoded()),
                            session: None,
                        },
                        Verdict::Unsupported => InitStepView {
                            reply: error_frame(header.unique, EPROTO),
                            session: None,
                        },
                        Verdict::Accept => InitStepView {
                            reply: frame(
                                header.unique,
                                0,
                                negotiated(config, init, page_size).encoded(),
                            ),
                            session: Some(opened(config, init, page_size)),
                        },
                    },
                ),
            }
        },
    }
}

/// How the core takes the version in `init`.
pub fn judge(init: &InitIn) -> (v: Verdict)
    ensures
        v == verdict(*init),
{
    if init.major > FUSE_KERNEL_VERSION {
        Verdict::Downgrade
    } else if init.major < FUSE_KERNEL_VERSION || init.minor < MINIMUM_SUPPORTED_MINOR_VERSION {
        Verdict::Unsupported
    } else {
        Verdict::Accept
    }
}

/// The number of pages that a write of `max_write` bytes takes, held to what
/// sixteen bits can say.
pub fn max_pages_for(max_write: u32, page_size: u32) -> (r: u16)
    requires
        page_size > 0,
    ensures
        r == pages_for(max_write, page_size),
{
    let pages: u64 = (max_write as u64 + page_size as u64 - 1) / (page_size as u64);
    if pages > 0xffff {
        0xffff
    } else {
        pages as u16
    }
}

/// The answer to an offer whose version the core accepts.
pub fn negotiate(config: &Config, init: &InitIn, page_size: u32) -> (out: InitOut)
    requires
        page_size > 0,
    ensures
        out == negotiated(config@, *init, page_size),
{
    let capable = CapabilityFlags::from_bits_truncate(init.flags);
    let paged = init.flags & FUSE_MAX_PAGES != 0;
    let common: u32 = config.flags.intersection(capable).bits() | FUSE_BIG_WRITES;
    InitOut {
        major: FUSE_KERNEL_VERSION,
        minor: if FUSE_KERNEL_MINOR_VERSION < init.minor {
            FUSE_KERNEL_MINOR_VERSION
        } else {
            init.minor
        },
        max_readahead: if config.max_readahead < init.max_readahead {
            config.max_readahead
        } else {
            init.max_readahead
        },
        flags: if paged {
            common | FUSE_MAX_PAGES
        } else {
            common
        },
        max_background: config.max_background,
        congestion_threshold: config.congestion_threshold,
        max_write: config.max_write,
        time_gran: config.time_gran,
        max_pages: if paged {
            max_pages_for(config.max_write, page_size)
        } else {
            0
        },
    }
}

/// Takes one step of the handshake on the message `buf`, read from the
/// kernel while no session is open.
///
/// Whatever the message is, the kernel gets an answer. A message that is no
/// offer is refused with an I/O error. An offer from a kernel that is ahead
/// is answered with the version that the core speaks, and the kernel will
/// offer again. An offer from a kernel that is too old is refused with a
/// protocol error. Any other offer is accepted, and the session is open.
/// A message too short to hold what it should is an error, and nothing is
/// to be sent.
pub fn try_init(config: &Config, buf: &[u8], page_size: u32) -> (r: Result<InitStep, DecodeError>)
    requires
        page_size > 0,
    ensures
        match r {
            Ok(step) => init_step(config@, buf@, page_size) == Ok::<_, DecodeError>(step@),
            Err(e) => init_step(config@, buf@, page_size) == Err::<InitStepView, _>(e),
        },
{
    let mut decoder = Decoder::new(buf);
    let header: InHeader = decoder.fetch()?;
    if header.opcode != FUSE_INIT {
        return Ok(InitStep { reply: encode_error(header.unique, EIO), session: None });
    }
    let init: InitIn = decoder.fetch()?;
    match judge(&init) {
        Verdict::Downgrade => {
            let out = InitOut::default();
            Ok(InitStep { reply: init_reply(header.unique, &out), session: None })
        },
        Verdict::Unsupported => {
            Ok(InitStep { reply: encode_error(header.unique, EPROTO), session: None })
        },
        Verdict::Accept => {
            let out = negotiate(config, &init, page_size);
            let reply = init_reply(header.unique, &out);
            let conn = ConnectionInfo {
                out: InitOut { flags: out.flags | (init.flags & !RECOGNIZED_FLAGS), ..out },
            };
            let bufsize: u64 = BUFFER_HEADER_SIZE as u64 + conn.max_write() as u64;
            Ok(InitStep { reply, session: Some(Session { conn, bufsize, exited: false }) })
        },
    }
}

/// The frame that carries the answer `out` to the offer `unique`.
fn init_reply(unique: u64, out: &InitOut) -> (f: Vec<u8>)
    ensures
        f@ == frame(unique, 0, out.encoded()),
{
    let mut body: Vec<u8> = Vec::new();
    out.encode(&mut body);
    proof {
        out.lemma_encoded();
        assert(body@ =~= out.encoded());
    }
    build_frame(unique, 0, body.as_slice())
}

/// How the flags of an answer relate to those of the two sides: `c` is what
/// the server asks for, `k` what the kernel offers, `m` the known bits, and
/// `big` and `pages` the two bits that the core sets by itself.
proof fn lemma_answer_flags(c: u32, k: u32, m: u32, big: u32, pages: u32)
    by (bit_vector)
    requires
        c & !m == 0,
        big & !m == 0,
        pages & !m == 0,
    ensures
        (c & k) & !(c & (k & m) | big) == 0,
        (c & k) & !((c & (k & m) | big) | pages) == 0,
        (c & (k & m) | big) & big == big,
        ((c & (k & m) | big) | pages) & big == big,
        ((c & (k & m) | big) | (k & !m)) & !m == k & !m,
        (((c & (k & m) | big) | pages) | (k & !m)) & !m == k & !m,
        k & pages == 0 ==> ((c & (k & m) | big) | (k & !m)) & pages == big & pages,
        (((c & (k & m) | big) | pages) | (k & !m)) & pages == pages,
{
}

/// The answer to a kernel that speaks major version 7 and a minor version
/// that the core serves keeps the major version, takes the smaller of the
/// two minor versions, and holds every capability that both sides name, and
/// `FUSE_BIG_WRITES` besides.
pub proof fn lemma_accepted_offer(config: ConfigView, init: InitIn, page_size: u32)
    requires
        config.flags & !RECOGNIZED_FLAGS == 0,
        init.major == FUSE_KERNEL_VERSION,
        init.minor >= MINIMUM_SUPPORTED_MINOR_VERSION,
    ensures
        verdict(init) == Verdict::Accept,
        negotiated(config, init, page_size).major == FUSE_KERNEL_VERSION,
        negotiated(config, init, page_size).minor == min_u32(FUSE_KERNEL_MINOR_VERSION, init.minor),
        negotiated(config, init, page_size).minor >= MINIMUM_SUPPORTED_MINOR_VERSION,
        (config.flags & init.flags) & !negotiated(config, init, page_size).flags == 0,
        negotiated(config, init, page_size).flags & FUSE_BIG_WRITES == FUSE_BIG_WRITES,
{
    crate::abi::lemma_masks();
    lemma_answer_flags(config.flags, init.flags, RECOGNIZED_FLAGS, FUSE_BIG_WRITES, FUSE_MAX_PAGES);
}

/// What the session keeps of the kernel's capabilities beyond those that the
/// core knows is what the kernel sent, bit for bit.
pub proof fn lemma_unknown_flags_kept(config: ConfigView, init: InitIn, page_size: u32)
    requires
        config.flags & !RECOGNIZED_FLAGS == 0,
    ensures
        agreed(config, init, page_size).flags & !RECOGNIZED_FLAGS == init.flags
            & !RECOGNIZED_FLAGS,
        opened(config, init, page_size).conn.flags & !RECOGNIZED_FLAGS == init.flags
            & !RECOGNIZED_FLAGS,
{
    crate::abi::lemma_masks();
    lemma_answer_flags(config.flags, init.flags, RECOGNIZED_FLAGS, FUSE_BIG_WRITES, FUSE_MAX_PAGES);
}

/// A session knows a limit on pages exactly where the kernel offered one.
pub proof fn lemma_paged(config: ConfigView, init: InitIn, page_size: u32)
    requires
        config.flags & !RECOGNIZED_FLAGS == 0,
    ensures
        (agreed(config, init, page_size).flags & FUSE_MAX_PAGES != 0) == (init.flags
            & FUSE_MAX_PAGES != 0),
        init.flags & FUSE_MAX_PAGES != 0 ==> agreed(config, init, page_size).max_pages
            == pages_for(config.max_write, page_size),
{
    crate::abi::lemma_masks();
    lemma_answer_flags(config.flags, init.flags, RECOGNIZED_FLAGS, FUSE_BIG_WRITES, FUSE_MAX_PAGES);
    assert(FUSE_BIG_WRITES & FUSE_MAX_PAGES == 0) by (bit_vector);
    assert(FUSE_MAX_PAGES != 0);
}

/// Whatever the configuration and the message, a session that the handshake
/// opens has a receive buffer of `BUFFER_HEADER_SIZE` bytes and the largest
/// write that was agreed on, which is the one that the server asked for.
pub proof fn lemma_buffer_size(config: ConfigView, buf: Seq<u8>, page_size: u32)
    ensures
        init_step(config, buf, page_size) matches Ok(step) ==> (step.session matches Some(s) ==> {
            &&& s.bufsize == BUFFER_HEADER_SIZE + s.conn.max_write
            &&& s.conn.max_write == config.max_write
            &&& !s.exited
        }),
{
}

/// An offer from a kernel whose major version is beyond 7 opens no session:
/// the answer names the version that the core speaks, and the handshake goes
/// on with the next message.
pub proof fn lemma_kernel_ahead(config: ConfigView, buf: Seq<u8>, page_size: u32)
    requires
        take::<InHeader>(buf) matches Ok((header, rest)) && header.opcode == FUSE_INIT && (take::<
            InitIn,
        >(rest) matches Ok((init, _)) && init.major > FUSE_KERNEL_VERSION),
    ensures
        init_step(config, buf, page_size) matches Ok(step) && step.session is None && step.reply
            == frame(take::<InHeader>(buf)->Ok_0.0.unique, 0, advertised().encoded()),
        advertised().major == FUSE_KERNEL_VERSION,
{
}

/// The handshake opens a session on the offers that the core accepts and on
/// no other message.
pub proof fn lemma_session_opened(config: ConfigView, buf: Seq<u8>, page_size: u32)
    ensures
        (init_step(config, buf, page_size) matches Ok(step) && step.session is Some) <==> (take::<
            InHeader,
        >(buf) matches Ok((header, rest)) && header.opcode == FUSE_INIT && (take::<InitIn>(
            rest,
        ) matches Ok((init, _)) && verdict(init) == Verdict::Accept)),
{
}

/// The size of the buffer that takes any message of the handshake: the room
/// for a header and the largest number of pages that the kernel may send.
/// `None` where the size is beyond what the machine can address.
pub fn init_buffer_size(page_size: usize) -> (r: Option<usize>)
    ensures
        r == if BUFFER_HEADER_SIZE + page_size * MAX_MAX_PAGES <= usize::MAX {
            Some((BUFFER_HEADER_SIZE + page_size * MAX_MAX_PAGES) as usize)
        } else {
            None
        },
{
    match page_size.checked_mul(MAX_MAX_PAGES) {
        None => None,
        Some(pages) => pages.checked_add(BUFFER_HEADER_SIZE),
    }
}

/// What one read from the kernel came to.
#[derive(Clone, Copy, Debug, PartialEq, Eq, Structural)]
pub enum ReadEvent {
    /// The read took a message of this many bytes.
    Data(usize),
    /// The read failed, with this error number where the system gave one.
    Failed(Option<i32>),
}

/// What a reader does after a read that failed.
#[derive(Clone, Copy, Debug, PartialEq, Eq, Structural)]
pub enum ErrorAction {
    /// The filesystem is unmounted: no request will come.
    Shutdown,
    /// Nothing is lost: read again.
    Retry,
    /// The error ends the reading and goes to the caller.
    Fatal,
}

/// What a reader does after a read that failed with `errno`.
///
/// `ENODEV` says that the filesystem is unmounted. `ENOENT` says that the
/// request was interrupted before it was read, and `EINTR` that the read
/// itself was: in both cases the reader reads again.
pub open spec fn error_action(errno: Option<i32>) -> ErrorAction {
    if errno == Some(ENODEV) {
        ErrorAction::Shutdown
    } else if errno == Some(ENOENT) || errno == Some(EINTR) {
        ErrorAction::Retry
    } else {
        ErrorAction::Fatal
    }
}

/// What a reader does after a read that failed with `errno`.
pub fn classify_error(errno: Option<i32>) -> (r: ErrorAction)
    ensures
        r == error_action(errno),
{
    match errno {
        Some(code) => if code == ENODEV {
            ErrorAction::Shutdown
        } else if code == ENOENT || code == EINTR {
            ErrorAction::Retry
        } else {
            ErrorAction::Fatal
        },
        None => ErrorAction::Fatal,
    }
}

/// What the reader of a session does next.
#[derive(Debug)]
pub enum NextStep {
    /// Hands this request to the server.
    Yield(Request),
    /// Stops: there are no more requests.
    Shutdown,
    /// Reads again, into the buffer that comes back.
    Retry(Vec<u8>),
    /// Fails with the error of the read.
    Fatal,
}

impl Session {
    /// Receives the next request, as far as that is a matter of the core: it
    /// decides what follows the read that came to `event`, made into `buf`.
    /// The caller reads, and reads again as long as it is told to.
    ///
    /// A message that was read is handed on at once, cut to the length that
    /// was read; whether its header fits that length is for the parser to
    /// say. A failed read ends the session, is made again, or fails the
    /// caller, as `error_action` tells.
    pub fn next_request(&mut self, buf: Vec<u8>, event: ReadEvent) -> (step: NextStep)
        ensures
            match event {
                ReadEvent::Data(len) => step matches NextStep::Yield(request) && request@
                    == buf@.take(
                    if len <= buf@.len() {
                        len as int
                    } else {
                        buf@.len() as int
                    },
                ) && final(self)@ == old(self)@,
                ReadEvent::Failed(errno) => match error_action(errno) {
                    ErrorAction::Shutdown => step is Shutdown && final(self)@ == (SessionView {
                        exited: true,
                        ..old(self)@
                    }),
                    ErrorAction::Retry => step matches NextStep::Retry(again) && again@ == buf@
                        && final(self)@ == old(self)@,
                    ErrorAction::Fatal => step is Fatal && final(self)@ == old(self)@,
                },
            },
            old(self)@.exited ==> final(self)@.exited,
    {
        match event {
            ReadEvent::Data(len) => {
                let mut buf = buf;
                buf.truncate(len);
                NextStep::Yield(Request::new(buf))
            },
            ReadEvent::Failed(errno) => match classify_error(errno) {
                ErrorAction::Shutdown => {
                    self.exit();
                    NextStep::Shutdown
                },
                ErrorAction::Retry => NextStep::Retry(buf),
                ErrorAction::Fatal => NextStep::Fatal,
            },
        }
    }
}

/// A message that is an offer which the core accepts is answered with one
/// frame of eighty bytes: a header that names the offer and reports no
/// error, and the answer that `negotiated` gives, which is read back from
/// the frame as it was written.
pub proof fn lemma_accepted_reply(
    config: ConfigView,
    header: InHeader,
    init: InitIn,
    rest: Seq<u8>,
    page_size: u32,
)
    requires
        header.opcode == FUSE_INIT,
        verdict(init) == Verdict::Accept,
    ensures
        init_step(config, header.encoded() + init.encoded() + rest, page_size) == Ok::<
            _,
            DecodeError,
        >(
            InitStepView {
                reply: frame(header.unique, 0, negotiated(config, init, page_size).encoded()),
                session: Some(opened(config, init, page_size)),
            },
        ),
        take::<OutHeader>(
            frame(header.unique, 0, negotiated(config, init, page_size).encoded()),
        ) == Ok::<_, DecodeError>(
            (
                OutHeader { len: 80, error: 0, unique: header.unique },
                negotiated(config, init, page_size).encoded(),
            ),
        ),
        InitOut::decoded(negotiated(config, init, page_size).encoded()) == negotiated(
            config,
            init,
            page_size,
        ),
{
    let out = negotiated(config, init, page_size);
    out.lemma_encoded();
    crate::reply::lemma_frame(header.unique, 0, out.encoded());
    crate::decoder::lemma_take(header, init.encoded() + rest);
    crate::decoder::lemma_take(init, rest);
    assert(header.encoded() + (init.encoded() + rest) =~= header.encoded() + init.encoded() + rest);
}

} // verus!
