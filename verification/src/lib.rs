//! The core of a FUSE server.
//!
//! The kernel forwards the calls on a mounted filesystem to a server process
//! as messages on a channel. This library is the part of such a server that
//! knows the protocol: it reads the integers and structs of the wire format,
//! takes a request apart into a typed operation, frames replies and
//! notifications, and conducts the handshake that opens a session.
//!
//! Nothing here reads or writes the channel. A server reads a message, hands
//! the bytes to this library, and writes the frames that it gets back.
//!
//! The wire format is that of a little-endian machine.

pub mod abi;
pub mod args;
pub mod buffer;
pub mod decoder;
pub mod header;
pub mod notify;
pub mod reply;
pub mod request;
pub mod session;
pub mod wire;

pub use buffer::{Buffer, ReceiveStep};
pub use decoder::{DecodeError, Decoder};
pub use header::{InHeader, InitIn, InitOut, OutHeader};
pub use reply::{check_written, encode_error, encode_frame, encode_reply, reply_header, ShortWrite};
pub use request::{encode_request, forget_entry, parse, Operation, Request};
pub use session::{
    classify_error, init_buffer_size, try_init, CapabilityFlags, Config, ConnectionInfo,
    ErrorAction, InitStep, InvalidThreshold, NextStep, ReadEvent, Session,
};
