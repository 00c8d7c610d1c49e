//! Format codecs: decoding bytes into a format-neutral value and encoding
//! that value back into bytes.
//!
//! The per-format decode and encode routines are supplied by existing
//! format libraries; each is reached through one trusted wrapper, and each
//! call's result is deterministic in its arguments, so it is given a name:
//! an uninterpreted specification function that the wrapper's contract
//! applies. The dispatch over formats, the classification of their errors,
//! and when success is owed are verified here against those names.

use crate::error::Error;
use crate::format::{FromFormat, ToFormat};
use vstd::prelude::*;

verus! {

/// The format-neutral intermediate value all codecs decode into and
/// encode from: a tagged tree of null, booleans, numbers, strings,
/// arrays and string-keyed maps.
#[verifier::external_type_specification]
#[verifier::external_body]
pub struct ExValue(serde_json::Value);

/// What a format-neutral value holds, as a mathematical sequence: the
/// abstract contents of the tagged tree. Two values with the same
/// contents decode from and encode to the same bytes, which is all the
/// contracts here need of it.
pub uninterp spec fn value_model(v: serde_json::Value) -> Seq<u8>;

/// The contents decoded from a JSON byte string, or nothing when it is
/// malformed.
pub uninterp spec fn json_decoding(s: Seq<u8>) -> Option<Seq<u8>>;

/// The contents decoded from a Bincode byte string, or nothing.
pub uninterp spec fn bincode_decoding(s: Seq<u8>) -> Option<Seq<u8>>;

/// The contents decoded from a CBOR byte string, or nothing.
pub uninterp spec fn cbor_decoding(s: Seq<u8>) -> Option<Seq<u8>>;

/// The contents decoded from a MessagePack byte string, or nothing.
pub uninterp spec fn msgpack_decoding(s: Seq<u8>) -> Option<Seq<u8>>;

/// The contents decoded from a Pickle byte string, or nothing.
pub uninterp spec fn pickle_decoding(s: Seq<u8>) -> Option<Seq<u8>>;

/// The contents decoded from a TOML byte string, or nothing.
pub uninterp spec fn toml_decoding(s: Seq<u8>) -> Option<Seq<u8>>;

/// The contents decoded from a URL-form-encoded byte string, or nothing.
pub uninterp spec fn url_decoding(s: Seq<u8>) -> Option<Seq<u8>>;

/// The contents decoded from a YAML byte string, or nothing.
pub uninterp spec fn yaml_decoding(s: Seq<u8>) -> Option<Seq<u8>>;

/// The JSON encoding of a value's contents.
pub uninterp spec fn json_encoding(m: Seq<u8>) -> Seq<u8>;

/// The pretty-printed JSON encoding of a value's contents.
pub uninterp spec fn hjson_encoding(m: Seq<u8>) -> Seq<u8>;

/// The Bincode encoding of a value's contents.
pub uninterp spec fn bincode_encoding(m: Seq<u8>) -> Seq<u8>;

/// The CBOR encoding of a value's contents.
pub uninterp spec fn cbor_encoding(m: Seq<u8>) -> Seq<u8>;

/// The MessagePack encoding of a value's contents.
pub uninterp spec fn msgpack_encoding(m: Seq<u8>) -> Seq<u8>;

/// The Pickle encoding of a value's contents.
pub uninterp spec fn pickle_encoding(m: Seq<u8>) -> Seq<u8>;

/// The YAML encoding of a value's contents.
pub uninterp spec fn yaml_encoding(m: Seq<u8>) -> Seq<u8>;

/// The TOML encoding of a value's contents, or nothing for a value the
/// format cannot represent.
pub uninterp spec fn toml_encoding(m: Seq<u8>) -> Option<Seq<u8>>;

/// The URL-form encoding of a value's contents, or nothing for a value
/// that is not a flat map of scalars.
pub uninterp spec fn url_encoding(m: Seq<u8>) -> Option<Seq<u8>>;

/// Relies on serde_json::from_slice: decodes a JSON byte string into a
/// value, or reports why it is malformed; the result depends on the bytes
/// alone.
#[verifier::external_body]
fn decode_json(input: &[u8]) -> (r: Result<serde_json::Value, String>)
    ensures
        r is Ok <==> json_decoding(input@) is Some,
        r is Ok ==> value_model(r->Ok_0) == json_decoding(input@)->Some_0,
{
    serde_json::from_slice::<serde_json::Value>(input).map_err(|e| e.to_string())
}

/// Relies on bincode::deserialize: decodes a Bincode byte string; the
/// result depends on the bytes alone.
#[verifier::external_body]
fn decode_bincode(input: &[u8]) -> (r: Result<serde_json::Value, String>)
    ensures
        r is Ok <==> bincode_decoding(input@) is Some,
        r is Ok ==> value_model(r->Ok_0) == bincode_decoding(input@)->Some_0,
{
    bincode::deserialize::<serde_json::Value>(input).map_err(|e| e.to_string())
}

/// Relies on serde_cbor::from_slice: decodes a CBOR byte string; the
/// result depends on the bytes alone.
#[verifier::external_body]
fn decode_cbor(input: &[u8]) -> (r: Result<serde_json::Value, String>)
    ensures
        r is Ok <==> cbor_decoding(input@) is Some,
        r is Ok ==> value_model(r->Ok_0) == cbor_decoding(input@)->Some_0,
{
    serde_cbor::from_slice::<serde_json::Value>(input).map_err(|e| e.to_string())
}

/// Relies on rmp_serde::from_slice: decodes a MessagePack byte string;
/// the result depends on the bytes alone.
#[verifier::external_body]
fn decode_msgpack(input: &[u8]) -> (r: Result<serde_json::Value, String>)
    ensures
        r is Ok <==> msgpack_decoding(input@) is Some,
        r is Ok ==> value_model(r->Ok_0) == msgpack_decoding(input@)->Some_0,
{
    rmp_serde::from_slice::<serde_json::Value>(input).map_err(|e| e.to_string())
}

/// Relies on serde_pickle::from_slice with default options: decodes a
/// Pickle byte string; the result depends on the bytes alone.
#[verifier::external_body]
fn decode_pickle(input: &[u8]) -> (r: Result<serde_json::Value, String>)
    ensures
        r is Ok <==> pickle_decoding(input@) is Some,
        r is Ok ==> value_model(r->Ok_0) == pickle_decoding(input@)->Some_0,
{
    serde_pickle::from_slice::<serde_json::Value>(input, serde_pickle::DeOptions::new()).map_err(
        |e| e.to_string(),
    )
}

/// Relies on toml::from_slice: decodes a TOML byte string; the result
/// depends on the bytes alone.
#[verifier::external_body]
fn decode_toml(input: &[u8]) -> (r: Result<serde_json::Value, String>)
    ensures
        r is Ok <==> toml_decoding(input@) is Some,
        r is Ok ==> value_model(r->Ok_0) == toml_decoding(input@)->Some_0,
{
    toml::from_slice::<serde_json::Value>(input).map_err(|e| e.to_string())
}

/// Relies on serde_urlencoded::from_bytes: decodes a URL-form-encoded
/// byte string; the result depends on the bytes alone.
#[verifier::external_body]
fn decode_url(input: &[u8]) -> (r: Result<serde_json::Value, String>)
    ensures
        r is Ok <==> url_decoding(input@) is Some,
        r is Ok ==> value_model(r->Ok_0) == url_decoding(input@)->Some_0,
{
    serde_urlencoded::from_bytes::<serde_json::Value>(input).map_err(|e| e.to_string())
}

/// Relies on serde_yaml::from_slice: decodes a YAML byte string; the
/// result depends on the bytes alone.
#[verifier::external_body]
fn decode_yaml(input: &[u8]) -> (r: Result<serde_json::Value, String>)
    ensures
        r is Ok <==> yaml_decoding(input@) is Some,
        r is Ok ==> value_model(r->Ok_0) == yaml_decoding(input@)->Some_0,
{
    serde_yaml::from_slice::<serde_json::Value>(input).map_err(|e| e.to_string())
}

/// Relies on bincode::serialize: encodes a value as Bincode bytes,
/// depending on its contents alone. Its serializer fails only on a writer
/// error or a sequence of unknown length; the byte-vector writer cannot
/// fail and a JSON value's sequences and maps have known lengths, so the
/// call succeeds on every value.
#[verifier::external_body]
fn encode_bincode(value: &serde_json::Value) -> (r: Result<Vec<u8>, String>)
    ensures
        r is Ok,
        r->Ok_0@ == bincode_encoding(value_model(*value)),
{
    bincode::serialize(value).map_err(|e| e.to_string())
}

/// Relies on serde_cbor::to_vec: encodes a value as CBOR bytes, depending
/// on its contents alone. Its serializer fails only on a writer error or
/// a 128-bit integer beyond the 64-bit range; the byte-vector writer
/// cannot fail and a JSON value's numbers are 64-bit, so the call
/// succeeds on every value.
#[verifier::external_body]
fn encode_cbor(value: &serde_json::Value) -> (r: Result<Vec<u8>, String>)
    ensures
        r is Ok,
        r->Ok_0@ == cbor_encoding(value_model(*value)),
{
    serde_cbor::to_vec(value).map_err(|e| e.to_string())
}

/// Relies on serde_json::to_vec_pretty: encodes a value as
/// pretty-printed JSON bytes, depending on its contents alone. Its
/// documentation says serialization fails only when a `Serialize`
/// implementation fails or a map has non-string keys; a JSON value's own
/// implementation never fails and its maps are keyed by strings, so the
/// call succeeds on every value.
#[verifier::external_body]
fn encode_hjson(value: &serde_json::Value) -> (r: Result<Vec<u8>, String>)
    ensures
        r is Ok,
        r->Ok_0@ == hjson_encoding(value_model(*value)),
{
    serde_json::to_vec_pretty(value).map_err(|e| e.to_string())
}

/// Relies on serde_json::to_vec: encodes a value as JSON bytes, depending
/// on its contents alone. Its documentation says serialization fails only
/// when a `Serialize` implementation fails or a map has non-string keys;
/// a JSON value's own implementation never fails and its maps are keyed
/// by strings, so the call succeeds on every value.
#[verifier::external_body]
fn encode_json(value: &serde_json::Value) -> (r: Result<Vec<u8>, String>)
    ensures
        r is Ok,
        r->Ok_0@ == json_encoding(value_model(*value)),
{
    serde_json::to_vec(value).map_err(|e| e.to_string())
}

/// Relies on rmp_serde::to_vec: encodes a value as MessagePack bytes,
/// depending on its contents alone. Its serializer fails only on a writer
/// error or in its extension-type paths; the byte-vector writer cannot
/// fail and a JSON value never uses extension types, so the call succeeds
/// on every value.
#[verifier::external_body]
fn encode_msgpack(value: &serde_json::Value) -> (r: Result<Vec<u8>, String>)
    ensures
        r is Ok,
        r->Ok_0@ == msgpack_encoding(value_model(*value)),
{
    rmp_serde::to_vec(value).map_err(|e| e.to_string())
}

/// Relies on serde_pickle::to_vec with default options (pickle protocol
/// three): encodes a value as Pickle bytes, depending on its contents
/// alone. Its serializer propagates only writer errors, and the
/// byte-vector writer cannot fail, so the call succeeds on every value.
#[verifier::external_body]
fn encode_pickle(value: &serde_json::Value) -> (r: Result<Vec<u8>, String>)
    ensures
        r is Ok,
        r->Ok_0@ == pickle_encoding(value_model(*value)),
{
    serde_pickle::to_vec(value, serde_pickle::SerOptions::new()).map_err(|e| e.to_string())
}

/// Relies on toml::to_vec: encodes a value as TOML bytes, depending on
/// its contents alone; a value the format cannot represent is rejected.
#[verifier::external_body]
fn encode_toml(value: &serde_json::Value) -> (r: Result<Vec<u8>, String>)
    ensures
        r is Ok <==> toml_encoding(value_model(*value)) is Some,
        r is Ok ==> r->Ok_0@ == toml_encoding(value_model(*value))->Some_0,
{
    toml::to_vec(value).map_err(|e| e.to_string())
}

/// Relies on serde_urlencoded::to_string: encodes a value as a
/// URL-form-encoded string, depending on its contents alone; a value
/// that is not a flat map of scalars is rejected.
#[verifier::external_body]
fn encode_url(value: &serde_json::Value) -> (r: Result<Vec<u8>, String>)
    ensures
        r is Ok <==> url_encoding(value_model(*value)) is Some,
        r is Ok ==> r->Ok_0@ == url_encoding(value_model(*value))->Some_0,
{
    serde_urlencoded::to_string(value).map(String::into_bytes).map_err(|e| e.to_string())
}

/// Relies on serde_yaml::to_vec: encodes a value as YAML bytes, depending
/// on its contents alone. Its serializer propagates only writer errors,
/// and the byte-vector writer cannot fail, so the call succeeds on every
/// value.
#[verifier::external_body]
fn encode_yaml(value: &serde_json::Value) -> (r: Result<Vec<u8>, String>)
    ensures
        r is Ok,
        r->Ok_0@ == yaml_encoding(value_model(*value)),
{
    serde_yaml::to_vec(value).map_err(|e| e.to_string())
}

/// The contents decoded from `s` under the input format, or nothing when
/// the bytes are malformed for it. Deserializing from environment
/// variables has no byte-stream form, so nothing ever decodes under it.
pub open spec fn decoded(s: Seq<u8>, from: FromFormat) -> Option<Seq<u8>> {
    match from {
        FromFormat::Bincode => bincode_decoding(s),
        FromFormat::Cbor => cbor_decoding(s),
        FromFormat::Envy => Option::None,
        FromFormat::Hjson => json_decoding(s),
        FromFormat::Json => json_decoding(s),
        FromFormat::Msgpack => msgpack_decoding(s),
        FromFormat::Pickle => pickle_decoding(s),
        FromFormat::Toml => toml_decoding(s),
        FromFormat::Url => url_decoding(s),
        FromFormat::Yaml => yaml_decoding(s),
    }
}

/// The encoding of contents `m` under the output format, or nothing for
/// contents the format cannot represent. Only TOML and URL-form encoding
/// reject any value.
pub open spec fn encoded(m: Seq<u8>, to: ToFormat) -> Option<Seq<u8>> {
    match to {
        ToFormat::Bincode => Option::Some(bincode_encoding(m)),
        ToFormat::Cbor => Option::Some(cbor_encoding(m)),
        ToFormat::Hjson => Option::Some(hjson_encoding(m)),
        ToFormat::Json => Option::Some(json_encoding(m)),
        ToFormat::Msgpack => Option::Some(msgpack_encoding(m)),
        ToFormat::Pickle => Option::Some(pickle_encoding(m)),
        ToFormat::Toml => toml_encoding(m),
        ToFormat::Url => url_encoding(m),
        ToFormat::Yaml => Option::Some(yaml_encoding(m)),
    }
}

/// The bytes of `s` transcoded from one format to the other: decoded,
/// then re-encoded, or nothing when either step rejects its input.
pub open spec fn transcoded(s: Seq<u8>, from: FromFormat, to: ToFormat) -> Option<Seq<u8>> {
    match decoded(s, from) {
        Option::Some(m) => encoded(m, to),
        Option::None => Option::None,
    }
}

/// The error kind that a failed decode of `from` carries.
pub open spec fn decode_error_of(from: FromFormat, e: Error) -> bool {
    match from {
        FromFormat::Bincode => e is Bincode,
        FromFormat::Cbor => e is Cbor,
        FromFormat::Envy => e is Generic,
        FromFormat::Hjson => e is Json,
        FromFormat::Json => e is Json,
        FromFormat::Msgpack => e is MsgpackDecode,
        FromFormat::Pickle => e is Pickle,
        FromFormat::Toml => e is TomlDecode,
        FromFormat::Url => e is UrlDecode,
        FromFormat::Yaml => e is Yaml,
    }
}

/// The error kind that a failed encode into `to` carries.
pub open spec fn encode_error_of(to: ToFormat, e: Error) -> bool {
    match to {
        ToFormat::Bincode => e is Bincode,
        ToFormat::Cbor => e is Cbor,
        ToFormat::Hjson => e is Json,
        ToFormat::Json => e is Json,
        ToFormat::Msgpack => e is MsgpackEncode,
        ToFormat::Pickle => e is Pickle,
        ToFormat::Toml => e is TomlEncode,
        ToFormat::Url => e is UrlEncode,
        ToFormat::Yaml => e is Yaml,
    }
}

/// Deserialize to a format-neutral, arbitrary value.
///
/// Every format is decoded into the same value type, so that any decoded
/// message can be re-encoded into any output format. The call succeeds
/// exactly when the bytes decode under the input format, and the value's
/// contents are the decoding's.
///
/// # Errors
///
/// A failed decode carries the error kind of the input format with the
/// format library's message; an input format without a byte-stream form
/// is rejected with a generic error.
pub fn deserialize(input: &[u8], from: FromFormat) -> (r: Result<serde_json::Value, Error>)
    ensures
        r is Ok <==> decoded(input@, from) is Some,
        r is Ok ==> value_model(r->Ok_0) == decoded(input@, from)->Some_0,
        r is Err ==> decode_error_of(from, r->Err_0),
{
    match from {
        FromFormat::Bincode => match decode_bincode(input) {
            Ok(v) => Ok(v),
            Err(m) => Err(Error::Bincode(m)),
        },
        FromFormat::Cbor => match decode_cbor(input) {
            Ok(v) => Ok(v),
            Err(m) => Err(Error::Cbor(m)),
        },
        FromFormat::Envy => Err(
            Error::Generic("the envy format cannot be decoded from a byte stream".to_owned()),
        ),
        FromFormat::Hjson => match decode_json(input) {
            Ok(v) => Ok(v),
            Err(m) => Err(Error::Json(m)),
        },
        FromFormat::Json => match decode_json(input) {
            Ok(v) => Ok(v),
            Err(m) => Err(Error::Json(m)),
        },
        FromFormat::Msgpack => match decode_msgpack(input) {
            Ok(v) => Ok(v),
            Err(m) => Err(Error::MsgpackDecode(m)),
        },
        FromFormat::Pickle => match decode_pickle(input) {
            Ok(v) => Ok(v),
            Err(m) => Err(Error::Pickle(m)),
        },
        FromFormat::Toml => match decode_toml(input) {
            Ok(v) => Ok(v),
            Err(m) => Err(Error::TomlDecode(m)),
        },
        FromFormat::Url => match decode_url(input) {
            Ok(v) => Ok(v),
            Err(m) => Err(Error::UrlDecode(m)),
        },
        FromFormat::Yaml => match decode_yaml(input) {
            Ok(v) => Ok(v),
            Err(m) => Err(Error::Yaml(m)),
        },
    }
}

/// Serialize from a format-neutral, arbitrary value.
///
/// The call succeeds exactly when the output format can represent the
/// value's contents — every format but TOML and URL-form accepts all of
/// them — and the bytes returned are the contents' encoding.
///
/// # Errors
///
/// A failed encode carries the error kind of the output format with the
/// format library's message.
pub fn serialize(value: serde_json::Value, to: ToFormat) -> (r: Result<Vec<u8>, Error>)
    ensures
        r is Ok <==> encoded(value_model(value), to) is Some,
        r is Ok ==> r->Ok_0@ == encoded(value_model(value), to)->Some_0,
        r is Err ==> encode_error_of(to, r->Err_0),
{
    match to {
        ToFormat::Bincode => match encode_bincode(&value) {
            Ok(b) => Ok(b),
            Err(m) => Err(Error::Bincode(m)),
        },
        ToFormat::Cbor => match encode_cbor(&value) {
            Ok(b) => Ok(b),
            Err(m) => Err(Error::Cbor(m)),
        },
        ToFormat::Hjson => match encode_hjson(&value) {
            Ok(b) => Ok(b),
            Err(m) => Err(Error::Json(m)),
        },
        ToFormat::Json => match encode_json(&value) {
            Ok(b) => Ok(b),
            Err(m) => Err(Error::Json(m)),
        },
        ToFormat::Msgpack => match encode_msgpack(&value) {
            Ok(b) => Ok(b),
            Err(m) => Err(Error::MsgpackEncode(m)),
        },
        ToFormat::Pickle => match encode_pickle(&value) {
            Ok(b) => Ok(b),
            Err(m) => Err(Error::Pickle(m)),
        },
        ToFormat::Toml => match encode_toml(&value) {
            Ok(b) => Ok(b),
            Err(m) => Err(Error::TomlEncode(m)),
        },
        ToFormat::Url => match encode_url(&value) {
            Ok(b) => Ok(b),
            Err(m) => Err(Error::UrlEncode(m)),
        },
        ToFormat::Yaml => match encode_yaml(&value) {
            Ok(b) => Ok(b),
            Err(m) => Err(Error::Yaml(m)),
        },
    }
}

/// Convert the input in one format to the output of another format.
///
/// The input is decoded into the format-neutral value and re-encoded;
/// the value never persists beyond the one message's transcoding. The
/// call succeeds exactly when the input decodes and the output format
/// can represent the decoded contents, and the bytes returned are their
/// encoding.
///
/// # Errors
///
/// The decode error of the input format or the encode error of the
/// output format, whichever step failed first.
pub fn transcode(input: &[u8], from: FromFormat, to: ToFormat) -> (r: Result<Vec<u8>, Error>)
    ensures
        r is Ok <==> transcoded(input@, from, to) is Some,
        r is Ok ==> r->Ok_0@ == transcoded(input@, from, to)->Some_0,
        decoded(input@, from) is None ==> r is Err && decode_error_of(from, r->Err_0),
        decoded(input@, from) is Some && encoded(decoded(input@, from)->Some_0, to) is None ==> r
            is Err && encode_error_of(to, r->Err_0),
{
    match deserialize(input, from) {
        Ok(v) => serialize(v, to),
        Err(e) => Err(e),
    }
}

} // verus!
