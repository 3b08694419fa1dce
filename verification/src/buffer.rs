//! A receive buffer that is filled by one read and then taken apart.

use crate::decoder::DecodeError;
use crate::header::InHeader;
use crate::request::{parse, parse_request, Operation};
use crate::session::{classify_error, error_action, ErrorAction, ReadEvent};
use vstd::prelude::*;

verus! {

/// The largest write that a buffer takes.
pub const MAX_WRITE_SIZE: usize = 0x0100_0000;

/// The size of the storage behind a buffer: the largest write, and room for
/// what precedes its data.
pub const RECV_BUF_SIZE: usize = 0x0100_1000;

/// What a receiver does after one read.
#[derive(Debug)]
pub enum ReceiveStep {
    /// A message is in the buffer.
    Ready,
    /// The connection to the kernel is closed.
    Closed,
    /// Reads again, into the storage that comes back.
    Retry(Vec<u8>),
    /// Fails with the error of the read.
    Fatal,
}

/// The last message that was received.
#[derive(Debug)]
pub struct Buffer {
    recv_buf: Vec<u8>,
}

impl View for Buffer {
    type V = Seq<u8>;

    closed spec fn view(&self) -> Seq<u8> {
        self.recv_buf@
    }
}

impl Default for Buffer {
    fn default() -> (r: Self)
        ensures
            r@ == Seq::<u8>::empty(),
    {
        Buffer::new()
    }
}

impl Buffer {
    /// A buffer that holds no message yet.
    pub fn new() -> (r: Self)
        ensures
            r@ == Seq::<u8>::empty(),
    {
        Buffer { recv_buf: Vec::with_capacity(RECV_BUF_SIZE) }
    }

    /// Receives a message, as far as that is a matter of the core: it
    /// decides what follows the read that came to `event`, made into
    /// `storage`. The caller reads, and reads again as long as it is told to.
    ///
    /// A message that was read replaces the one in the buffer. A read that
    /// failed leaves the buffer as it was, whatever follows.
    pub fn receive(&mut self, storage: Vec<u8>, event: ReadEvent) -> (step: ReceiveStep)
        ensures
            match event {
                ReadEvent::Data(count) => step is Ready && final(self)@ == storage@.take(
                    if count <= storage@.len() {
                        count as int
                    } else {
                        storage@.len() as int
                    },
                ),
                ReadEvent::Failed(errno) => final(self)@ == old(self)@ && match error_action(
                    errno,
                ) {
                    ErrorAction::Shutdown => step is Closed,
                    ErrorAction::Retry => step matches ReceiveStep::Retry(again) && again@
                        == storage@,
                    ErrorAction::Fatal => step is Fatal,
                },
            },
    {
        match event {
            ReadEvent::Data(count) => {
                let mut storage = storage;
                storage.truncate(count);
                self.recv_buf = storage;
                ReceiveStep::Ready
            },
            ReadEvent::Failed(errno) => match classify_error(errno) {
                ErrorAction::Shutdown => ReceiveStep::Closed,
                ErrorAction::Retry => ReceiveStep::Retry(storage),
                ErrorAction::Fatal => ReceiveStep::Fatal,
            },
        }
    }

    /// Takes the message in the buffer apart.
    pub fn parse(&self) -> (r: Result<(InHeader, Operation<&[u8]>), DecodeError>)
        ensures
            match r {
                Ok((header, op)) => parse_request(self@) == Ok::<_, DecodeError>((header, op@)),
                Err(e) => parse_request(self@) == Err::<(InHeader, Operation<Seq<u8>>), _>(e),
            },
    {
        parse(self.recv_buf.as_slice())
    }
}

} // verus!
