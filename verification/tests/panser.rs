//! End-to-end tests of the transcode pipeline over in-memory byte streams.

use panser::{Error, Framing, FromFormat, Radix, ToFormat};

/// Runs one whole pipeline over `input` and returns the sink's contents.
fn run(
    input: &[u8],
    from: FromFormat,
    to: ToFormat,
    input_framing: Option<Framing>,
    output_framing: Option<Framing>,
    radix: Option<Radix>,
) -> Result<Vec<u8>, Error> {
    let mut out: Vec<u8> = Vec::new();
    panser::transcode_stream(input, from, to, input_framing, output_framing, radix, &mut out)
        .map(|_| out)
}

/// The framings selected by the given builder configuration.
fn framings(
    delimited_input: Option<&str>,
    delimited_output: Option<&str>,
    sized_input: bool,
    sized_output: bool,
) -> (Option<Framing>, Option<Framing>) {
    let p = panser::Panser::new()
        .delimited_input(delimited_input)
        .delimited_output(delimited_output)
        .sized_input(sized_input)
        .sized_output(sized_output);
    (
        p.input_framing().expect("input framing"),
        p.output_framing().expect("output framing"),
    )
}

const JSON_BOOL: &[u8] = b"{\"bool\":true}";
const MSGPACK_BOOL: [u8; 7] = [0x81, 0xa4, 0x62, 0x6f, 0x6f, 0x6c, 0xc3];

#[test]
fn it_works() {
    let buf = run(JSON_BOOL, FromFormat::Json, ToFormat::Msgpack, None, None, None).unwrap();
    assert_eq!(buf, vec![0x81, 0xa4, 0x62, 0x6f, 0x6f, 0x6c, 0xc3]);
}

#[test]
fn hex_radix_works() {
    let buf = run(
        JSON_BOOL,
        FromFormat::Json,
        ToFormat::Msgpack,
        None,
        None,
        Some(Radix::Hexadecimal),
    )
    .unwrap();
    assert_eq!(String::from_utf8(buf).unwrap(), "81 A4 62 6F 6F 6C C3 ");
}

#[test]
fn dec_radix_works() {
    let buf = run(
        JSON_BOOL,
        FromFormat::Json,
        ToFormat::Msgpack,
        None,
        None,
        Some(Radix::Decimal),
    )
    .unwrap();
    assert_eq!(String::from_utf8(buf).unwrap(), "129 164 98 111 111 108 195 ");
}

#[test]
fn bin_radix_works() {
    let buf = run(
        JSON_BOOL,
        FromFormat::Json,
        ToFormat::Msgpack,
        None,
        None,
        Some(Radix::Binary),
    )
    .unwrap();
    assert_eq!(
        String::from_utf8(buf).unwrap(),
        "10000001 10100100 1100010 1101111 1101111 1101100 11000011 "
    );
}

#[test]
fn oct_radix_works() {
    let buf = run(
        JSON_BOOL,
        FromFormat::Json,
        ToFormat::Msgpack,
        None,
        None,
        Some(Radix::Octal),
    )
    .unwrap();
    assert_eq!(String::from_utf8(buf).unwrap(), "201 244 142 157 157 154 303 ");
}

#[test]
fn sized_output_works() {
    let (inf, outf) = framings(None, None, false, true);
    let buf = run(JSON_BOOL, FromFormat::Json, ToFormat::Msgpack, inf, outf, None).unwrap();
    assert_eq!(
        buf,
        vec![0x00, 0x00, 0x00, 0x07, 0x81, 0xa4, 0x62, 0x6f, 0x6f, 0x6c, 0xc3]
    );
}

#[test]
fn sized_input_works() {
    let (inf, outf) = framings(None, None, true, false);
    let input: Vec<u8> = vec![
        0x00, 0x00, 0x00, 0x0d, 0x7b, 0x22, 0x62, 0x6f, 0x6f, 0x6c, 0x22, 0x3a, 0x74, 0x72, 0x75,
        0x65, 0x7d,
    ];
    let buf = run(&input, FromFormat::Json, ToFormat::Msgpack, inf, outf, None).unwrap();
    assert_eq!(buf, vec![0x81, 0xa4, 0x62, 0x6f, 0x6f, 0x6c, 0xc3]);
}

#[test]
fn sized_works() {
    let (inf, outf) = framings(None, None, true, true);
    let input: Vec<u8> = vec![
        0x00, 0x00, 0x00, 0x0d, 0x7b, 0x22, 0x62, 0x6f, 0x6f, 0x6c, 0x22, 0x3a, 0x74, 0x72, 0x75,
        0x65, 0x7d,
    ];
    let buf = run(&input, FromFormat::Json, ToFormat::Msgpack, inf, outf, None).unwrap();
    assert_eq!(
        buf,
        vec![0x00, 0x00, 0x00, 0x07, 0x81, 0xa4, 0x62, 0x6f, 0x6f, 0x6c, 0xc3]
    );
}

#[test]
fn delimited_works() {
    let (inf, outf) = framings(Some("0Ah"), Some("0Ah"), false, false);
    let input: Vec<u8> = vec![
        0x7b, 0x22, 0x62, 0x6f, 0x6f, 0x6c, 0x22, 0x3a, 0x74, 0x72, 0x75, 0x65, 0x7d, 0x0A,
    ];
    let buf = run(&input, FromFormat::Json, ToFormat::Msgpack, inf, outf, None).unwrap();
    assert_eq!(buf, vec![0x81, 0xa4, 0x62, 0x6f, 0x6f, 0x6c, 0xc3, 0x0A]);
}

#[test]
fn delimited_input_works() {
    let (inf, outf) = framings(Some("0Ah"), None, false, false);
    let input: Vec<u8> = vec![
        0x7b, 0x22, 0x62, 0x6f, 0x6f, 0x6c, 0x22, 0x3a, 0x74, 0x72, 0x75, 0x65, 0x7d, 0x0A,
    ];
    let buf = run(&input, FromFormat::Json, ToFormat::Msgpack, inf, outf, None).unwrap();
    assert_eq!(buf, vec![0x81, 0xa4, 0x62, 0x6f, 0x6f, 0x6c, 0xc3]);
}

#[test]
fn delimited_output_works() {
    let (inf, outf) = framings(None, Some("0Ah"), false, false);
    let input: Vec<u8> = vec![
        0x7b, 0x22, 0x62, 0x6f, 0x6f, 0x6c, 0x22, 0x3a, 0x74, 0x72, 0x75, 0x65, 0x7d,
    ];
    let buf = run(&input, FromFormat::Json, ToFormat::Msgpack, inf, outf, None).unwrap();
    assert_eq!(buf, vec![0x81, 0xa4, 0x62, 0x6f, 0x6f, 0x6c, 0xc3, 0x0A]);
}

#[test]
fn delimited_input_sized_output_works() {
    let (inf, outf) = framings(Some("0Ah"), None, false, true);
    let input: Vec<u8> = vec![
        0x7b, 0x22, 0x62, 0x6f, 0x6f, 0x6c, 0x22, 0x3a, 0x74, 0x72, 0x75, 0x65, 0x7d, 0x0A,
    ];
    let buf = run(&input, FromFormat::Json, ToFormat::Msgpack, inf, outf, None).unwrap();
    assert_eq!(
        buf,
        vec![0x00, 0x00, 0x00, 0x07, 0x81, 0xa4, 0x62, 0x6f, 0x6f, 0x6c, 0xc3]
    );
}

#[test]
fn sized_input_delimited_output_works() {
    let (inf, outf) = framings(None, Some("0Ah"), true, false);
    let input: Vec<u8> = vec![
        0x00, 0x00, 0x00, 0x0d, 0x7b, 0x22, 0x62, 0x6f, 0x6f, 0x6c, 0x22, 0x3a, 0x74, 0x72, 0x75,
        0x65, 0x7d,
    ];
    let buf = run(&input, FromFormat::Json, ToFormat::Msgpack, inf, outf, None).unwrap();
    assert_eq!(buf, vec![0x81, 0xa4, 0x62, 0x6f, 0x6f, 0x6c, 0xc3, 0x0A]);
}

#[test]
fn transcode_json_to_msgpack() {
    let buf = panser::transcode(JSON_BOOL, FromFormat::Json, ToFormat::Msgpack).unwrap();
    assert_eq!(buf, MSGPACK_BOOL.to_vec());
}

#[test]
fn empty_stream_is_end_of_stream_not_empty_frame() {
    let mut out: Vec<u8> = Vec::new();
    let n = panser::transcode_stream(
        b"",
        FromFormat::Json,
        ToFormat::Msgpack,
        None,
        None,
        None,
        &mut out,
    )
    .unwrap();
    assert_eq!(n, 0);
    assert!(out.is_empty());
}

#[test]
fn delimited_final_frame_may_be_unterminated() {
    let (inf, outf) = framings(Some("0Ah"), None, false, false);
    let buf = run(JSON_BOOL, FromFormat::Json, ToFormat::Msgpack, inf, outf, None).unwrap();
    assert_eq!(buf, MSGPACK_BOOL.to_vec());
}

#[test]
fn sized_truncated_body_fails_with_no_output() {
    let input: Vec<u8> = vec![0x00, 0x00, 0x00, 0x0d, 0x7b, 0x22, 0x62, 0x6f, 0x6f];
    let mut out: Vec<u8> = Vec::new();
    let r = panser::transcode_stream(
        &input,
        FromFormat::Json,
        ToFormat::Msgpack,
        Some(Framing::Sized),
        None,
        None,
        &mut out,
    );
    assert!(matches!(r, Err(Error::TruncatedBody)));
    assert!(out.is_empty());
}

#[test]
fn sized_truncated_header_fails_with_no_output() {
    let input: Vec<u8> = vec![0x00, 0x00];
    let mut out: Vec<u8> = Vec::new();
    let r = panser::transcode_stream(
        &input,
        FromFormat::Json,
        ToFormat::Msgpack,
        Some(Framing::Sized),
        None,
        None,
        &mut out,
    );
    assert!(matches!(r, Err(Error::TruncatedHeader)));
    assert!(out.is_empty());
}

#[test]
fn three_delimited_messages_in_order() {
    let mut input: Vec<u8> = Vec::new();
    input.extend_from_slice(b"{\"a\":1}\n");
    input.extend_from_slice(b"{\"b\":2}\n");
    input.extend_from_slice(b"{\"c\":3}\n");
    let mut out: Vec<u8> = Vec::new();
    let n = panser::transcode_stream(
        &input,
        FromFormat::Json,
        ToFormat::Msgpack,
        Some(Framing::Delimited(0x0A)),
        Some(Framing::Delimited(0x0A)),
        None,
        &mut out,
    )
    .unwrap();
    assert_eq!(n, 3);
    let mut expected: Vec<u8> = Vec::new();
    for part in [&b"{\"a\":1}"[..], &b"{\"b\":2}"[..], &b"{\"c\":3}"[..]] {
        expected.extend_from_slice(
            &panser::transcode(part, FromFormat::Json, ToFormat::Msgpack).unwrap(),
        );
        expected.push(0x0A);
    }
    assert_eq!(out, expected);
}

#[test]
fn failing_frame_leaves_only_prior_frames_in_output() {
    let mut input: Vec<u8> = Vec::new();
    input.extend_from_slice(b"{\"a\":1}\n");
    input.extend_from_slice(b"not json\n");
    input.extend_from_slice(b"{\"c\":3}\n");
    let mut out: Vec<u8> = Vec::new();
    let r = panser::transcode_stream(
        &input,
        FromFormat::Json,
        ToFormat::Msgpack,
        Some(Framing::Delimited(0x0A)),
        Some(Framing::Delimited(0x0A)),
        None,
        &mut out,
    );
    assert!(matches!(r, Err(Error::Json(_))));
    let mut expected: Vec<u8> =
        panser::transcode(b"{\"a\":1}", FromFormat::Json, ToFormat::Msgpack).unwrap();
    expected.push(0x0A);
    assert_eq!(out, expected);
}

#[test]
fn sized_header_is_rendered_with_radix() {
    let (inf, outf) = framings(None, None, false, true);
    let buf = run(
        JSON_BOOL,
        FromFormat::Json,
        ToFormat::Msgpack,
        inf,
        outf,
        Some(Radix::Hexadecimal),
    )
    .unwrap();
    assert_eq!(String::from_utf8(buf).unwrap(), "0 0 0 7 81 A4 62 6F 6F 6C C3 ");
}

#[test]
fn delimiter_marker_stays_raw_under_radix() {
    let (inf, outf) = framings(None, Some("0Ah"), false, false);
    let buf = run(
        JSON_BOOL,
        FromFormat::Json,
        ToFormat::Msgpack,
        inf,
        outf,
        Some(Radix::Hexadecimal),
    )
    .unwrap();
    let mut expected: Vec<u8> = b"81 A4 62 6F 6F 6C C3 ".to_vec();
    expected.push(0x0A);
    assert_eq!(buf, expected);
}
