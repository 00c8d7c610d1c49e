//! Pipe-friendly stream transcoder between serialization formats.
//!
//! A byte stream is split into discrete messages according to an input
//! framing rule, each message is decoded from the source format into a
//! format-neutral value, re-encoded into the target format, re-framed
//! according to an output framing rule, and appended to a byte sink.

pub mod codec;
pub mod display;
pub mod error;
pub mod format;
pub mod framing;
pub mod panser;

pub use codec::deserialize;
pub use codec::serialize;
pub use codec::transcode;
pub use display::Radix;
pub use error::Error;
pub use format::FromFormat;
pub use format::ToFormat;
pub use framing::Framing;
pub use panser::transcode_stream;
pub use panser::Panser;
