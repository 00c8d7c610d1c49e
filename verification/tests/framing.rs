//! Wire-level tests of frame reading and writing, and inputs that
//! produce each decode error kind.

use panser::framing::{be_u32, push_be_u32, read_frame, write_frame};
use panser::{Error, Framing, FromFormat, Radix, ToFormat};

#[test]
fn big_endian_length_round_trips() {
    let mut bytes: Vec<u8> = Vec::new();
    push_be_u32(&mut bytes, 0x01020304);
    assert_eq!(bytes, vec![0x01, 0x02, 0x03, 0x04]);
    assert_eq!(be_u32(bytes[0], bytes[1], bytes[2], bytes[3]), 0x01020304);
    assert_eq!(be_u32(0, 0, 1, 2), 258);
}

#[test]
fn sized_frame_write_then_read_round_trips() {
    let payload: &[u8] = b"hello frame";
    let mut wire: Vec<u8> = Vec::new();
    write_frame(&mut wire, payload, Some(Framing::Sized), None);
    assert_eq!(&wire[..4], &[0, 0, 0, payload.len() as u8]);
    assert_eq!(&wire[4..], payload);
    match read_frame(&wire, 0, Some(Framing::Sized)) {
        Ok(Some((read, next))) => {
            assert_eq!(read, payload.to_vec());
            assert_eq!(next, wire.len());
        }
        other => panic!("unexpected read result: {:?}", other),
    }
}

#[test]
fn delimited_frame_write_then_read_round_trips() {
    let payload: &[u8] = b"no newline here";
    let mut wire: Vec<u8> = Vec::new();
    write_frame(&mut wire, payload, Some(Framing::Delimited(0x0A)), None);
    assert_eq!(wire.last(), Some(&0x0Au8));
    match read_frame(&wire, 0, Some(Framing::Delimited(0x0A))) {
        Ok(Some((read, next))) => {
            assert_eq!(read, payload.to_vec());
            assert_eq!(next, wire.len());
        }
        other => panic!("unexpected read result: {:?}", other),
    }
}

#[test]
fn unframed_read_takes_the_whole_stream_once() {
    let wire: &[u8] = b"whole stream";
    match read_frame(wire, 0, None) {
        Ok(Some((read, next))) => {
            assert_eq!(read, wire.to_vec());
            assert_eq!(next, wire.len());
            assert!(matches!(read_frame(wire, next, None), Ok(None)));
        }
        other => panic!("unexpected read result: {:?}", other),
    }
}

#[test]
fn delimited_read_splits_at_the_marker() {
    let wire: &[u8] = b"one\ntwo";
    let (first, next) = match read_frame(wire, 0, Some(Framing::Delimited(0x0A))) {
        Ok(Some(f)) => f,
        other => panic!("unexpected read result: {:?}", other),
    };
    assert_eq!(first, b"one".to_vec());
    let (second, end) = match read_frame(wire, next, Some(Framing::Delimited(0x0A))) {
        Ok(Some(f)) => f,
        other => panic!("unexpected read result: {:?}", other),
    };
    assert_eq!(second, b"two".to_vec());
    assert_eq!(end, wire.len());
    assert!(matches!(read_frame(wire, end, Some(Framing::Delimited(0x0A))), Ok(None)));
}

#[test]
fn sized_read_reports_truncation_kind() {
    assert!(matches!(
        read_frame(&[0, 0], 0, Some(Framing::Sized)),
        Err(Error::TruncatedHeader)
    ));
    assert!(matches!(
        read_frame(&[0, 0, 0, 9, 1, 2], 0, Some(Framing::Sized)),
        Err(Error::TruncatedBody)
    ));
}

#[test]
fn write_data_renders_each_byte_with_a_trailing_space() {
    let mut out: Vec<u8> = Vec::new();
    panser::display::write_data(&mut out, &[0x00, 0xFF, 0x10], Some(Radix::Hexadecimal));
    assert_eq!(String::from_utf8(out).unwrap(), "0 FF 10 ");
    let mut raw: Vec<u8> = Vec::new();
    panser::display::write_data(&mut raw, &[0x00, 0xFF, 0x10], None);
    assert_eq!(raw, vec![0x00, 0xFF, 0x10]);
}

#[test]
fn cbor_decode_error_is_classified() {
    let r = panser::transcode(&[0xff, 0xff], FromFormat::Cbor, ToFormat::Json);
    assert!(matches!(r, Err(Error::Cbor(_))));
}

#[test]
fn pickle_decode_error_is_classified() {
    let r = panser::transcode(&[0x80], FromFormat::Pickle, ToFormat::Json);
    assert!(matches!(r, Err(Error::Pickle(_))));
}

#[test]
fn toml_decode_error_is_classified() {
    let r = panser::transcode(b"= not toml", FromFormat::Toml, ToFormat::Json);
    assert!(matches!(r, Err(Error::TomlDecode(_))));
}

#[test]
fn yaml_decode_error_is_classified() {
    let r = panser::transcode(b"{unclosed: [", FromFormat::Yaml, ToFormat::Json);
    assert!(matches!(r, Err(Error::Yaml(_))));
}
