//! Tests of format selection, delimiter configuration, error codes, and
//! per-format round trips through the format-neutral value.

use panser::{Error, Framing, FromFormat, Radix, ToFormat};

#[test]
fn to_format_from_str_is_case_insensitive() {
    assert!(matches!(ToFormat::from_str("json"), Ok(ToFormat::Json)));
    assert!(matches!(ToFormat::from_str("JSON"), Ok(ToFormat::Json)));
    assert!(matches!(ToFormat::from_str("jSoN"), Ok(ToFormat::Json)));
    assert!(matches!(ToFormat::from_str("msgpack"), Ok(ToFormat::Msgpack)));
    assert!(matches!(ToFormat::from_str("Bincode"), Ok(ToFormat::Bincode)));
    assert!(matches!(ToFormat::from_str("CBOR"), Ok(ToFormat::Cbor)));
    assert!(matches!(ToFormat::from_str("hjson"), Ok(ToFormat::Hjson)));
    assert!(matches!(ToFormat::from_str("pickle"), Ok(ToFormat::Pickle)));
    assert!(matches!(ToFormat::from_str("toml"), Ok(ToFormat::Toml)));
    assert!(matches!(ToFormat::from_str("url"), Ok(ToFormat::Url)));
    assert!(matches!(ToFormat::from_str("yaml"), Ok(ToFormat::Yaml)));
    assert!(ToFormat::from_str("nope").is_err());
    assert!(ToFormat::from_str("envy").is_err());
    assert!(ToFormat::from_str("").is_err());
}

#[test]
fn from_format_from_str_accepts_envy() {
    assert!(matches!(FromFormat::from_str("envy"), Ok(FromFormat::Envy)));
    assert!(matches!(FromFormat::from_str("Envy"), Ok(FromFormat::Envy)));
    assert!(matches!(FromFormat::from_str("yaml"), Ok(FromFormat::Yaml)));
    assert!(FromFormat::from_str("jsonx").is_err());
}

#[test]
fn radix_from_str_accepts_letters_and_words() {
    assert!(matches!(Radix::from_str("b"), Ok(Radix::Binary)));
    assert!(matches!(Radix::from_str("BIN"), Ok(Radix::Binary)));
    assert!(matches!(Radix::from_str("Binary"), Ok(Radix::Binary)));
    assert!(matches!(Radix::from_str("d"), Ok(Radix::Decimal)));
    assert!(matches!(Radix::from_str("Decimal"), Ok(Radix::Decimal)));
    assert!(matches!(Radix::from_str("H"), Ok(Radix::Hexadecimal)));
    assert!(matches!(Radix::from_str("hex"), Ok(Radix::Hexadecimal)));
    assert!(matches!(Radix::from_str("oct"), Ok(Radix::Octal)));
    assert!(Radix::from_str("x").is_err());
}

#[test]
fn possible_values_are_all_parseable() {
    let to = ToFormat::possible_values();
    assert_eq!(to.len(), 27);
    for name in to {
        assert!(ToFormat::from_str(name).is_ok());
    }
    let from = FromFormat::possible_values();
    assert_eq!(from.len(), 30);
    for name in from {
        assert!(FromFormat::from_str(name).is_ok());
    }
    let radix = Radix::possible_values();
    assert_eq!(radix.len(), 32);
    for name in radix {
        assert!(Radix::from_str(name).is_ok());
    }
}

#[test]
fn delimiter_strings_in_every_radix_notation() {
    for s in ["1010b", "10d", "0Ah", "012o", "0A", "0AH", "0ah", "1010B", "10D", "012O"] {
        match panser::framing::to_framing_delimited(s) {
            Ok(Some(Framing::Delimited(d))) => assert_eq!(d, 10, "delimiter string {}", s),
            other => panic!("unexpected result for {}: {:?}", s, other),
        }
    }
    match panser::framing::to_framing_delimited("FFh") {
        Ok(Some(Framing::Delimited(d))) => assert_eq!(d, 255),
        _ => panic!("FFh should parse"),
    }
    match panser::framing::to_framing_delimited("0") {
        Ok(Some(Framing::Delimited(d))) => assert_eq!(d, 0),
        _ => panic!("0 should parse as hexadecimal zero"),
    }
}

#[test]
fn bad_delimiter_strings_are_parse_errors() {
    for s in ["", "h", "zzh", "100h", "256d", "2b", "8o", "-1d", "1.5d"] {
        let r = panser::framing::to_framing_delimited(s);
        assert!(matches!(r, Err(Error::ParseInt(_))), "delimiter string {:?}", s);
    }
}

#[test]
fn error_codes_classify_failures() {
    assert_eq!(Error::Eof.code(), 0);
    assert_eq!(Error::Generic("g".to_owned()).code(), 2);
    assert_eq!(Error::Io("io".to_owned()).code(), 3);
    assert_eq!(Error::ParseInt("p".to_owned()).code(), 4);
    assert_eq!(Error::Utf8("u".to_owned()).code(), 5);
    assert_eq!(Error::Json("j".to_owned()).code(), 1);
    assert_eq!(Error::TruncatedHeader.code(), 1);
    assert_eq!(Error::TruncatedBody.code(), 1);
    assert_eq!(Error::Yaml("y".to_owned()).code(), 1);
}

#[test]
fn error_descriptions_name_the_kind() {
    assert_eq!(Error::Json("x".to_owned()).description(), "JSON");
    assert_eq!(Error::Eof.description(), "EOF");
    assert_eq!(Error::Io("x".to_owned()).description(), "IO");
    assert_eq!(Error::Eof.message(), "End of file reached");
    assert_eq!(Error::Json("bad".to_owned()).message(), "bad");
}

const SAMPLE: &[u8] = b"{\"bool\":true,\"n\":5,\"s\":\"x\",\"a\":[1,2]}";

fn canonical_json(input: &[u8]) -> Vec<u8> {
    panser::transcode(input, FromFormat::Json, ToFormat::Json).unwrap()
}

fn round_trips(to: ToFormat, from: FromFormat, input: &[u8]) {
    let encoded = panser::transcode(input, FromFormat::Json, to).unwrap();
    let back = panser::transcode(&encoded, from, ToFormat::Json).unwrap();
    assert_eq!(back, canonical_json(input));
}

#[test]
fn json_value_round_trips_through_json() {
    round_trips(ToFormat::Json, FromFormat::Json, SAMPLE);
}

#[test]
fn json_value_round_trips_through_msgpack() {
    round_trips(ToFormat::Msgpack, FromFormat::Msgpack, SAMPLE);
}

#[test]
fn json_value_round_trips_through_cbor() {
    round_trips(ToFormat::Cbor, FromFormat::Cbor, SAMPLE);
}

#[test]
fn json_value_round_trips_through_yaml() {
    round_trips(ToFormat::Yaml, FromFormat::Yaml, SAMPLE);
}

#[test]
fn json_value_round_trips_through_pickle() {
    round_trips(ToFormat::Pickle, FromFormat::Pickle, SAMPLE);
}

#[test]
fn json_value_round_trips_through_hjson() {
    round_trips(ToFormat::Hjson, FromFormat::Hjson, SAMPLE);
}

#[test]
fn flat_string_map_round_trips_through_url() {
    round_trips(ToFormat::Url, FromFormat::Url, b"{\"a\":\"1\",\"b\":\"two\"}");
}

#[test]
fn json_encoding_is_compact() {
    let out = panser::transcode(b"{ \"a\" : 1 }", FromFormat::Json, ToFormat::Json).unwrap();
    assert_eq!(out, b"{\"a\":1}".to_vec());
}

#[test]
fn hjson_encoding_is_pretty_printed() {
    let out = panser::transcode(b"{\"a\":1}", FromFormat::Json, ToFormat::Hjson).unwrap();
    assert_eq!(out, b"{\n  \"a\": 1\n}".to_vec());
}

#[test]
fn transcoding_twice_equals_transcoding_once() {
    let once = panser::transcode(SAMPLE, FromFormat::Json, ToFormat::Json).unwrap();
    let twice = panser::transcode(&once, FromFormat::Json, ToFormat::Json).unwrap();
    assert_eq!(once, twice);
}

#[test]
fn builder_defaults_select_no_framing() {
    let p = panser::Panser::new();
    assert!(matches!(p.input_framing(), Ok(None)));
    assert!(matches!(p.output_framing(), Ok(None)));
}

#[test]
fn builder_selects_sized_and_delimited_framing() {
    let p = panser::Panser::new().sized_input(true).delimited_output(Some("0Ah"));
    assert!(matches!(p.input_framing(), Ok(Some(Framing::Sized))));
    assert!(matches!(p.output_framing(), Ok(Some(Framing::Delimited(10)))));
}

#[test]
fn builder_rejects_a_bad_delimiter_configuration() {
    let p = panser::Panser::new().delimited_input(Some("xyz"));
    assert!(matches!(p.input_framing(), Err(Error::ParseInt(_))));
}

#[test]
fn envy_input_fails_the_run_with_no_output() {
    let mut out: Vec<u8> = Vec::new();
    let r = panser::transcode_stream(
        b"{}",
        FromFormat::Envy,
        ToFormat::Json,
        None,
        None,
        None,
        &mut out,
    );
    assert!(matches!(r, Err(Error::Generic(_))));
    assert!(out.is_empty());
}

#[test]
fn envy_cannot_decode_a_byte_stream() {
    let r = panser::transcode(b"{}", FromFormat::Envy, ToFormat::Json);
    assert!(matches!(r, Err(Error::Generic(_))));
}

#[test]
fn toml_rejects_a_value_it_cannot_represent() {
    let r = panser::transcode(b"null", FromFormat::Json, ToFormat::Toml);
    assert!(matches!(r, Err(Error::TomlEncode(_))));
}

#[test]
fn url_rejects_nested_values() {
    let r = panser::transcode(b"{\"a\":{\"b\":1}}", FromFormat::Json, ToFormat::Url);
    assert!(matches!(r, Err(Error::UrlEncode(_))));
}

#[test]
fn msgpack_decode_error_is_classified() {
    let r = panser::transcode(&[0xc1], FromFormat::Msgpack, ToFormat::Json);
    assert!(matches!(r, Err(Error::MsgpackDecode(_))));
}

#[test]
fn json_decode_error_is_classified() {
    let r = panser::transcode(b"{", FromFormat::Json, ToFormat::Msgpack);
    assert!(matches!(r, Err(Error::Json(_))));
}

#[test]
fn bincode_value_cannot_be_decoded_without_a_schema() {
    let encoded = panser::transcode(SAMPLE, FromFormat::Json, ToFormat::Bincode).unwrap();
    assert!(!encoded.is_empty());
    let r = panser::transcode(&encoded, FromFormat::Bincode, ToFormat::Json);
    assert!(matches!(r, Err(Error::Bincode(_))));
}

#[test]
fn toml_map_round_trips() {
    let input = b"{\"name\":\"x\",\"count\":3}";
    let encoded = panser::transcode(input, FromFormat::Json, ToFormat::Toml).unwrap();
    let back = panser::transcode(&encoded, FromFormat::Toml, ToFormat::Json).unwrap();
    assert_eq!(back, canonical_json(input));
}
