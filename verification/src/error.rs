//! The error type for transcoding operations.
//!
//! Every kind except `Eof` is fatal to a run. `Eof` is the normal
//! termination signal of the reading side and is not an error.

use vstd::prelude::*;

verus! {

/// The error type for transcoding operations.
///
/// Errors that originate in a format library carry that library's message.
#[derive(Debug)]
pub enum Error {
    /// Decoding/encoding of the Bincode format failed.
    Bincode(String),
    /// Decoding/encoding of the CBOR format failed.
    Cbor(String),
    /// Deserializing from environment variables failed.
    Envy(String),
    /// End-of-File (EOF) reached.
    Eof,
    /// A generic or custom error occurred. The message holds the details.
    Generic(String),
    /// An I/O operation failed.
    Io(String),
    /// Decoding/encoding of the JSON format failed.
    Json(String),
    /// Decoding of the MessagePack format failed.
    MsgpackDecode(String),
    /// Encoding of the MessagePack format failed.
    MsgpackEncode(String),
    /// Converting a string to an integer failed.
    ParseInt(String),
    /// Decoding/encoding of the Pickle format failed.
    Pickle(String),
    /// Decoding/encoding of the TOML format failed.
    TomlDecode(String),
    /// Encoding of the TOML format failed.
    TomlEncode(String),
    /// A sized frame declared more payload bytes than the stream holds.
    TruncatedBody,
    /// A sized frame's four-byte length header was cut short by the stream end.
    TruncatedHeader,
    /// Decoding from a URL failed.
    UrlDecode(String),
    /// Encoding to a URL failed.
    UrlEncode(String),
    /// A UTF-8 operation failed.
    Utf8(String),
    /// Decoding/encoding of the YAML format failed.
    Yaml(String),
}

impl Error {
    /// Gets an error code related to the error.
    ///
    /// This is useful as an exit code for a command line application, where
    /// a non-zero integer indicates a failure.
    pub fn code(&self) -> (c: i32)
        ensures
            c == 0 <==> self is Eof,
            self is Generic ==> c == 2,
            self is Io ==> c == 3,
            self is ParseInt ==> c == 4,
            self is Utf8 ==> c == 5,
            self is TruncatedHeader || self is TruncatedBody ==> c == 1,
            self is Json || self is MsgpackDecode || self is MsgpackEncode ==> c == 1,
            self is Bincode || self is Cbor || self is Envy || self is Pickle ==> c == 1,
            self is TomlDecode || self is TomlEncode ==> c == 1,
            self is UrlDecode || self is UrlEncode || self is Yaml ==> c == 1,
    {
        match *self {
            Error::Bincode(..) => 1,
            Error::Cbor(..) => 1,
            Error::Envy(..) => 1,
            Error::Eof => 0,  // Not actually an error
            Error::Generic(..) => 2,
            Error::Io(..) => 3,
            Error::Json(..) => 1,
            Error::MsgpackDecode(..) => 1,
            Error::MsgpackEncode(..) => 1,
            Error::ParseInt(..) => 4,
            Error::Pickle(..) => 1,
            Error::TomlDecode(..) => 1,
            Error::TomlEncode(..) => 1,
            Error::TruncatedBody => 1,
            Error::TruncatedHeader => 1,
            Error::UrlDecode(..) => 1,
            Error::UrlEncode(..) => 1,
            Error::Utf8(..) => 5,
            Error::Yaml(..) => 1,
        }
    }

    /// A short name of the error's kind.
    pub fn description(&self) -> (d: &'static str)
        ensures
            self is Bincode ==> d@ == "Bincode"@,
            self is Cbor ==> d@ == "CBOR"@,
            self is Envy ==> d@ == "Envy error"@,
            self is Eof ==> d@ == "EOF"@,
            self is Generic ==> d@ == "Generic"@,
            self is Io ==> d@ == "IO"@,
            self is Json ==> d@ == "JSON"@,
            self is MsgpackDecode ==> d@ == "MessagePack decoding"@,
            self is MsgpackEncode ==> d@ == "MessagePack encoding"@,
            self is ParseInt ==> d@ == "Parse integer"@,
            self is Pickle ==> d@ == "Pickle"@,
            self is TomlDecode ==> d@ == "TOML decoding"@,
            self is TomlEncode ==> d@ == "TOML encoding"@,
            self is TruncatedBody ==> d@ == "Truncated frame body"@,
            self is TruncatedHeader ==> d@ == "Truncated frame header"@,
            self is UrlDecode ==> d@ == "URL decoding"@,
            self is UrlEncode ==> d@ == "URL encoding"@,
            self is Utf8 ==> d@ == "UTF-8"@,
            self is Yaml ==> d@ == "YAML"@,
    {
        match *self {
            Error::Bincode(..) => "Bincode",
            Error::Cbor(..) => "CBOR",
            Error::Envy(..) => "Envy error",
            Error::Eof => "EOF",
            Error::Generic(..) => "Generic",
            Error::Io(..) => "IO",
            Error::Json(..) => "JSON",
            Error::MsgpackDecode(..) => "MessagePack decoding",
            Error::MsgpackEncode(..) => "MessagePack encoding",
            Error::ParseInt(..) => "Parse integer",
            Error::Pickle(..) => "Pickle",
            Error::TomlDecode(..) => "TOML decoding",
            Error::TomlEncode(..) => "TOML encoding",
            Error::TruncatedBody => "Truncated frame body",
            Error::TruncatedHeader => "Truncated frame header",
            Error::UrlDecode(..) => "URL decoding",
            Error::UrlEncode(..) => "URL encoding",
            Error::Utf8(..) => "UTF-8",
            Error::Yaml(..) => "YAML",
        }
    }

    /// The detailed message carried by the error, where one was recorded.
    pub fn message(&self) -> (m: &str)
        ensures
            self is Json ==> m@ == self->Json_0@,
            self is Bincode ==> m@ == self->Bincode_0@,
            self is Cbor ==> m@ == self->Cbor_0@,
            self is Envy ==> m@ == self->Envy_0@,
            self is Generic ==> m@ == self->Generic_0@,
            self is Io ==> m@ == self->Io_0@,
            self is MsgpackDecode ==> m@ == self->MsgpackDecode_0@,
            self is MsgpackEncode ==> m@ == self->MsgpackEncode_0@,
            self is ParseInt ==> m@ == self->ParseInt_0@,
            self is Pickle ==> m@ == self->Pickle_0@,
            self is TomlDecode ==> m@ == self->TomlDecode_0@,
            self is TomlEncode ==> m@ == self->TomlEncode_0@,
            self is UrlDecode ==> m@ == self->UrlDecode_0@,
            self is UrlEncode ==> m@ == self->UrlEncode_0@,
            self is Utf8 ==> m@ == self->Utf8_0@,
            self is Yaml ==> m@ == self->Yaml_0@,
            self is Eof ==> m@ == "End of file reached"@,
            self is TruncatedBody ==> m@ == "Fewer frame body bytes than the size header declared"@,
            self is TruncatedHeader ==> m@ == "Stream ended inside a frame's size header"@,
    {
        match *self {
            Error::Bincode(ref m) => m.as_str(),
            Error::Cbor(ref m) => m.as_str(),
            Error::Envy(ref m) => m.as_str(),
            Error::Eof => "End of file reached",
            Error::Generic(ref m) => m.as_str(),
            Error::Io(ref m) => m.as_str(),
            Error::Json(ref m) => m.as_str(),
            Error::MsgpackDecode(ref m) => m.as_str(),
            Error::MsgpackEncode(ref m) => m.as_str(),
            Error::ParseInt(ref m) => m.as_str(),
            Error::Pickle(ref m) => m.as_str(),
            Error::TomlDecode(ref m) => m.as_str(),
            Error::TomlEncode(ref m) => m.as_str(),
            Error::TruncatedBody => "Fewer frame body bytes than the size header declared",
            Error::TruncatedHeader => "Stream ended inside a frame's size header",
            Error::UrlDecode(ref m) => m.as_str(),
            Error::UrlEncode(ref m) => m.as_str(),
            Error::Utf8(ref m) => m.as_str(),
            Error::Yaml(ref m) => m.as_str(),
        }
    }
}

} // verus!
