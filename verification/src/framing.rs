//! Message framing: how a continuous byte stream is split into discrete
//! frames on input, and how frame boundaries are re-imposed on output.

use crate::display::{maybe_rendered, write_data, Radix};
use crate::error::Error;
use vstd::prelude::*;
use vstd::string::StrSliceExecFns;

verus! {

/// The available framing options.
///
/// The absence of framing is expressed as `Option::<Framing>::None`: the
/// whole stream is then one message whose boundary is the end of the stream.
#[derive(Clone, Copy, Debug, PartialEq, Eq, Structural)]
pub enum Framing {
    /// Prefix the total message size as an unsigned 32-bit big-endian integer.
    Sized,
    /// Terminate each message with a single marker byte.
    Delimited(u8),
}

/// The four bytes of `n` in big-endian (network) order.
pub open spec fn be_bytes(n: u32) -> Seq<u8> {
    seq![
        (n / 0x1000000) as u8,
        ((n / 0x10000) % 0x100) as u8,
        ((n / 0x100) % 0x100) as u8,
        (n % 0x100) as u8,
    ]
}

/// The unsigned 32-bit value read from four bytes in big-endian order.
pub open spec fn be_val(b0: u8, b1: u8, b2: u8, b3: u8) -> u32 {
    (b0 * 0x1000000 + b1 * 0x10000 + b2 * 0x100 + b3) as u32
}

/// Reading back the four big-endian bytes of a value yields the value.
pub proof fn lemma_be_round_trip(n: u32)
    ensures
        be_val(be_bytes(n)[0], be_bytes(n)[1], be_bytes(n)[2], be_bytes(n)[3]) == n,
{
    assert((n / 0x1000000) * 0x1000000 + ((n / 0x10000) % 0x100) * 0x10000
        + ((n / 0x100) % 0x100) * 0x100 + (n % 0x100) == n) by (nonlinear_arith);
}

/// Appends the four big-endian bytes of `n` to `out`.
pub fn push_be_u32(out: &mut Vec<u8>, n: u32)
    ensures
        final(out)@ == old(out)@ + be_bytes(n),
{
    out.push((n / 0x1000000) as u8);
    out.push(((n / 0x10000) % 0x100) as u8);
    out.push(((n / 0x100) % 0x100) as u8);
    out.push((n % 0x100) as u8);
    assert(out@ =~= old(out)@ + be_bytes(n));
}

/// Combines four bytes in big-endian order into an unsigned 32-bit value.
pub fn be_u32(b0: u8, b1: u8, b2: u8, b3: u8) -> (n: u32)
    ensures
        n == be_val(b0, b1, b2, b3),
{
    (b0 as u32) * 0x1000000 + (b1 as u32) * 0x10000 + (b2 as u32) * 0x100 + (b3 as u32)
}

/// The index of the first occurrence of `d` in `s`, or `s.len()` if absent.
pub open spec fn delim_pos(s: Seq<u8>, d: u8) -> nat
    decreases s.len(),
{
    if s.len() == 0 {
        0
    } else if s[0] == d {
        0
    } else {
        (delim_pos(s.skip(1), d) + 1) as nat
    }
}

/// `delim_pos` is the unique position of the first marker byte: it is in
/// bounds exactly when the marker occurs, the marker stands at it, and no
/// earlier byte equals the marker.
pub proof fn lemma_delim_pos(s: Seq<u8>, d: u8)
    ensures
        delim_pos(s, d) <= s.len(),
        delim_pos(s, d) < s.len() ==> s[delim_pos(s, d) as int] == d,
        forall|i: int| 0 <= i < delim_pos(s, d) ==> s[i] != d,
    decreases s.len(),
{
    if s.len() == 0 {
    } else if s[0] == d {
    } else {
        lemma_delim_pos(s.skip(1), d);
        assert forall|i: int| 0 <= i < delim_pos(s, d) implies s[i] != d by {
            if i > 0 {
                assert(s.skip(1)[i - 1] == s[i]);
            }
        }
    }
}

/// Whether one whole frame can be read from the head of `s`.
///
/// Reading fails only under sized framing, when the stream ends inside the
/// length header or before the declared payload length is reached.
pub open spec fn frame_ok(s: Seq<u8>, framing: Option<Framing>) -> bool {
    match framing {
        Option::None => true,
        Option::Some(Framing::Sized) => s.len() >= 4 && s.len() >= 4 + be_val(
            s[0],
            s[1],
            s[2],
            s[3],
        ),
        Option::Some(Framing::Delimited(_)) => true,
    }
}

/// The payload of the frame at the head of `s`.
pub open spec fn frame_payload(s: Seq<u8>, framing: Option<Framing>) -> Seq<u8> {
    match framing {
        Option::None => s,
        Option::Some(Framing::Sized) => s.subrange(4, 4 + be_val(s[0], s[1], s[2], s[3]) as int),
        Option::Some(Framing::Delimited(d)) => s.subrange(0, delim_pos(s, d) as int),
    }
}

/// How many bytes of `s` the frame at its head occupies, marker included.
pub open spec fn frame_consumed(s: Seq<u8>, framing: Option<Framing>) -> int {
    match framing {
        Option::None => s.len() as int,
        Option::Some(Framing::Sized) => 4 + be_val(s[0], s[1], s[2], s[3]) as int,
        Option::Some(Framing::Delimited(d)) => if delim_pos(s, d) + 1 <= s.len() {
            delim_pos(s, d) as int + 1
        } else {
            s.len() as int
        },
    }
}

/// The payloads of the well-formed frames at the head of `s`, in order,
/// up to the end of the stream or the first truncated frame.
pub open spec fn frames_of(s: Seq<u8>, framing: Option<Framing>) -> Seq<Seq<u8>>
    decreases s.len(),
{
    if s.len() == 0 {
        Seq::empty()
    } else if !frame_ok(s, framing) {
        Seq::empty()
    } else {
        seq![frame_payload(s, framing)] + frames_of(s.skip(frame_consumed(s, framing)), framing)
    }
}

/// Whether the whole stream `s` splits into well-formed frames.
pub open spec fn frames_ok(s: Seq<u8>, framing: Option<Framing>) -> bool
    decreases s.len(),
{
    if s.len() == 0 {
        true
    } else if !frame_ok(s, framing) {
        false
    } else {
        frames_ok(s.skip(frame_consumed(s, framing)), framing)
    }
}

/// When splitting fails, whether the stream ends inside a length header
/// (fewer than four bytes left) rather than inside a declared payload.
pub open spec fn truncation_is_header(s: Seq<u8>, framing: Option<Framing>) -> bool
    decreases s.len(),
{
    if s.len() == 0 {
        false
    } else if !frame_ok(s, framing) {
        s.len() < 4
    } else {
        truncation_is_header(s.skip(frame_consumed(s, framing)), framing)
    }
}

/// Reads one frame from `input` at offset `pos`.
///
/// Returns `Ok(None)` at the clean end of the stream, `Ok(Some((payload,
/// next)))` with the frame's payload and the offset of the byte after the
/// frame, or the framing error when a sized frame is cut short. Under
/// delimited framing a final unterminated message is a valid frame.
pub fn read_frame(input: &[u8], pos: usize, framing: Option<Framing>) -> (r: Result<
    Option<(Vec<u8>, usize)>,
    Error,
>)
    requires
        pos <= input@.len(),
    ensures
        match r {
            Ok(Option::None) => input@.skip(pos as int).len() == 0,
            Ok(Option::Some((payload, next))) => {
                let s = input@.skip(pos as int);
                &&& s.len() > 0
                &&& frame_ok(s, framing)
                &&& payload@ == frame_payload(s, framing)
                &&& next == pos + frame_consumed(s, framing)
                &&& next <= input@.len()
            },
            Err(e) => {
                let s = input@.skip(pos as int);
                &&& s.len() > 0
                &&& !frame_ok(s, framing)
                &&& (e is TruncatedHeader <==> s.len() < 4)
                &&& (e is TruncatedBody <==> s.len() >= 4)
            },
        },
{
    let ghost s = input@.skip(pos as int);
    let len = input.len();
    if pos == len {
        return Ok(Option::None);
    }
    match framing {
        Option::None => {
            let mut buf: Vec<u8> = Vec::new();
            let mut i: usize = pos;
            while i < len
                invariant
                    pos <= i <= len,
                    len == input@.len(),
                    s == input@.skip(pos as int),
                    buf@ == input@.subrange(pos as int, i as int),
                decreases len - i,
            {
                buf.push(input[i]);
                i = i + 1;
                assert(buf@ =~= input@.subrange(pos as int, i as int));
            }
            assert(buf@ =~= s);
            Ok(Option::Some((buf, len)))
        },
        Option::Some(Framing::Sized) => {
            if len - pos < 4 {
                return Err(Error::TruncatedHeader);
            }
            let n = be_u32(input[pos], input[pos + 1], input[pos + 2], input[pos + 3]);
            assert(s[0] == input@[pos as int] && s[1] == input@[pos + 1] && s[2] == input@[pos + 2]
                && s[3] == input@[pos + 3]);
            let n_usize = n as usize;
            if len - pos - 4 < n_usize {
                return Err(Error::TruncatedBody);
            }
            let start = pos + 4;
            let mut buf: Vec<u8> = Vec::new();
            let mut i: usize = start;
            while i < start + n_usize
                invariant
                    start <= i <= start + n_usize,
                    start + n_usize <= len == input@.len(),
                    start == pos + 4,
                    buf@ == input@.subrange(start as int, i as int),
                decreases start + n_usize - i,
            {
                buf.push(input[i]);
                i = i + 1;
                assert(buf@ =~= input@.subrange(start as int, i as int));
            }
            assert(buf@ =~= frame_payload(s, framing));
            Ok(Option::Some((buf, start + n_usize)))
        },
        Option::Some(Framing::Delimited(d)) => {
            let mut buf: Vec<u8> = Vec::new();
            let mut i: usize = pos;
            while i < len && input[i] != d
                invariant
                    pos <= i <= len,
                    len == input@.len(),
                    buf@ == input@.subrange(pos as int, i as int),
                    forall|k: int| pos <= k < i ==> input@[k] != d,
                decreases len - i,
            {
                buf.push(input[i]);
                i = i + 1;
                assert(buf@ =~= input@.subrange(pos as int, i as int));
            }
            proof {
                lemma_delim_pos(s, d);
                assert forall|k: int| 0 <= k < i - pos implies s[k] != d by {
                    assert(s[k] == input@[pos + k]);
                }
                if i < len {
                    assert(s[i - pos] == input@[i as int]);
                }
                assert(delim_pos(s, d) == i - pos) by {
                    if delim_pos(s, d) < i - pos {
                        assert(s[delim_pos(s, d) as int] == d);
                    } else if delim_pos(s, d) > i - pos {
                        assert(s[i - pos] != d);
                    }
                }
                assert(buf@ =~= frame_payload(s, framing));
            }
            if i < len {
                Ok(Option::Some((buf, i + 1)))
            } else {
                Ok(Option::Some((buf, i)))
            }
        },
    }
}

/// The bytes appended to the sink for one outgoing frame: the payload
/// (rendered if a radix is chosen) wrapped according to the framing mode.
/// The delimiter marker is always written as a raw byte, and the sized
/// header runs through the same rendering as the payload.
pub open spec fn framed_output(p: Seq<u8>, framing: Option<Framing>, radix: Option<Radix>) -> Seq<
    u8,
> {
    match framing {
        Option::None => maybe_rendered(p, radix),
        Option::Some(Framing::Sized) => maybe_rendered(be_bytes(p.len() as u32), radix)
            + maybe_rendered(p, radix),
        Option::Some(Framing::Delimited(d)) => maybe_rendered(p, radix) + seq![d],
    }
}

/// Appends one correctly framed output message to `out`.
pub fn write_frame(out: &mut Vec<u8>, payload: &[u8], framing: Option<Framing>, radix: Option<
    Radix,
>)
    requires
        framing == Option::Some(Framing::Sized) ==> payload@.len() <= u32::MAX,
    ensures
        final(out)@ == old(out)@ + framed_output(payload@, framing, radix),
{
    match framing {
        Option::None => {
            write_data(out, payload, radix);
        },
        Option::Some(Framing::Sized) => {
            let mut header: Vec<u8> = Vec::new();
            push_be_u32(&mut header, payload.len() as u32);
            write_data(out, header.as_slice(), radix);
            write_data(out, payload, radix);
            assert(out@ =~= old(out)@ + framed_output(payload@, framing, radix));
        },
        Option::Some(Framing::Delimited(d)) => {
            write_data(out, payload, radix);
            out.push(d);
            assert(out@ =~= old(out)@ + framed_output(payload@, framing, radix));
        },
    }
}

/// The bytes appended to the sink for a sequence of encoded messages,
/// each framed and rendered in turn.
pub open spec fn outputs_of(encs: Seq<Seq<u8>>, framing: Option<Framing>, radix: Option<
    Radix,
>) -> Seq<u8>
    decreases encs.len(),
{
    if encs.len() == 0 {
        Seq::empty()
    } else {
        framed_output(encs[0], framing, radix) + outputs_of(encs.skip(1), framing, radix)
    }
}

/// Framed output grows one whole message at a time.
pub proof fn lemma_outputs_push(
    encs: Seq<Seq<u8>>,
    e: Seq<u8>,
    framing: Option<Framing>,
    radix: Option<Radix>,
)
    ensures
        outputs_of(encs.push(e), framing, radix) == outputs_of(encs, framing, radix)
            + framed_output(e, framing, radix),
    decreases encs.len(),
{
    if encs.len() == 0 {
        assert(encs.push(e).skip(1) =~= Seq::<Seq<u8>>::empty());
        assert(outputs_of(encs.push(e).skip(1), framing, radix) == Seq::<u8>::empty());
        assert(outputs_of(encs.push(e), framing, radix) =~= outputs_of(encs, framing, radix)
            + framed_output(e, framing, radix));
    } else {
        assert(encs.push(e).skip(1) =~= encs.skip(1).push(e));
        lemma_outputs_push(encs.skip(1), e, framing, radix);
        assert(encs.push(e)[0] == encs[0]);
        assert(outputs_of(encs.push(e), framing, radix) =~= outputs_of(encs, framing, radix)
            + framed_output(e, framing, radix));
    }
}

/// Sized framing round-trip: reading a frame back from the written output
/// of any payload that fits the 32-bit length header yields that payload
/// and consumes the whole output.
pub proof fn lemma_sized_round_trip(p: Seq<u8>)
    requires
        p.len() <= u32::MAX,
    ensures
        ({
            let s = framed_output(p, Option::Some(Framing::Sized), Option::None);
            &&& frame_ok(s, Option::Some(Framing::Sized))
            &&& frame_payload(s, Option::Some(Framing::Sized)) == p
            &&& frame_consumed(s, Option::Some(Framing::Sized)) == s.len()
        }),
{
    let n = p.len() as u32;
    let s = be_bytes(n) + p;
    lemma_be_round_trip(n);
    assert(s[0] == be_bytes(n)[0] && s[1] == be_bytes(n)[1] && s[2] == be_bytes(n)[2] && s[3]
        == be_bytes(n)[3]);
    assert(be_val(s[0], s[1], s[2], s[3]) == n);
    assert(s.subrange(4, 4 + n as int) =~= p);
}

/// The four big-endian bytes of the value read from four bytes are those
/// four bytes.
pub proof fn lemma_be_bytes_of_val(b0: u8, b1: u8, b2: u8, b3: u8)
    ensures
        be_bytes(be_val(b0, b1, b2, b3)) =~= seq![b0, b1, b2, b3],
{
    let n = be_val(b0, b1, b2, b3);
    assert(n == b0 * 0x1000000 + b1 * 0x10000 + b2 * 0x100 + b3);
    assert(n / 0x1000000 == b0 && (n / 0x10000) % 0x100 == b1 && (n / 0x100) % 0x100 == b2 && n
        % 0x100 == b3) by (nonlinear_arith)
        requires
            n == b0 * 0x1000000 + b1 * 0x10000 + b2 * 0x100 + b3,
            b0 <= 255,
            b1 <= 255,
            b2 <= 255,
            b3 <= 255,
    ;
}

/// Re-framing the head frame of a well-formed sized stream writes back
/// exactly the bytes it was read from.
proof fn lemma_sized_head(s: Seq<u8>)
    requires
        s.len() > 0,
        frame_ok(s, Option::Some(Framing::Sized)),
    ensures
        framed_output(frame_payload(s, Option::Some(Framing::Sized)), Option::Some(Framing::Sized),
            Option::None,
        ) == s.subrange(0, frame_consumed(s, Option::Some(Framing::Sized))),
{
    let f = Option::Some(Framing::Sized);
    let p = frame_payload(s, f);
    let c = frame_consumed(s, f);
    lemma_be_bytes_of_val(s[0], s[1], s[2], s[3]);
    assert(p.len() == be_val(s[0], s[1], s[2], s[3]));
    assert(be_bytes(p.len() as u32) =~= seq![s[0], s[1], s[2], s[3]]);
    assert(framed_output(p, f, Option::None) =~= s.subrange(0, c));
}

/// Writing back the frames read from a well-formed sized stream
/// reproduces the stream byte for byte: sized framing loses nothing.
pub proof fn lemma_sized_reframe_identity(s: Seq<u8>)
    requires
        frames_ok(s, Option::Some(Framing::Sized)),
    ensures
        outputs_of(frames_of(s, Option::Some(Framing::Sized)), Option::Some(Framing::Sized),
            Option::None,
        ) == s,
    decreases s.len(),
{
    let f = Option::Some(Framing::Sized);
    if s.len() == 0 {
        assert(outputs_of(frames_of(s, f), f, Option::None) =~= s);
    } else {
        let p = frame_payload(s, f);
        let c = frame_consumed(s, f);
        let rest = s.skip(c);
        lemma_sized_reframe_identity(rest);
        lemma_sized_head(s);
        let q = frames_of(s, f);
        assert(q[0] == p);
        assert(q.skip(1) =~= frames_of(rest, f));
        assert(outputs_of(q, f, Option::None) =~= s.subrange(0, c) + rest);
        assert(s.subrange(0, c) + rest =~= s);
    }
}

/// Reading one frame from the head of a framed message followed by more
/// stream leaves exactly the rest of the stream: framing is prefix-free
/// for payloads that respect the mode (a length that fits the header, a
/// payload free of the marker byte).
pub proof fn lemma_frame_prepend(p: Seq<u8>, rest: Seq<u8>, framing: Option<Framing>)
    requires
        framing is Some,
        framing == Option::Some(Framing::Sized) ==> p.len() <= u32::MAX,
        forall|d: u8|
            framing == Option::Some(Framing::Delimited(d)) ==> forall|i: int|
                0 <= i < p.len() ==> p[i] != d,
    ensures
        frames_of(framed_output(p, framing, Option::None) + rest, framing) == seq![p] + frames_of(
            rest,
            framing,
        ),
        frames_ok(framed_output(p, framing, Option::None) + rest, framing) == frames_ok(
            rest,
            framing,
        ),
{
    let s = framed_output(p, framing, Option::None) + rest;
    match framing {
        Option::None => {},
        Option::Some(Framing::Sized) => {
            let n = p.len() as u32;
            lemma_be_round_trip(n);
            assert(s[0] == be_bytes(n)[0] && s[1] == be_bytes(n)[1] && s[2] == be_bytes(n)[2]
                && s[3] == be_bytes(n)[3]);
            assert(be_val(s[0], s[1], s[2], s[3]) == n);
            assert(frame_ok(s, framing));
            assert(frame_payload(s, framing) =~= p);
            assert(s.skip(frame_consumed(s, framing)) =~= rest);
            assert(frames_of(s, framing) =~= seq![p] + frames_of(rest, framing));
        },
        Option::Some(Framing::Delimited(d)) => {
            lemma_delim_pos(s, d);
            assert(s[p.len() as int] == d);
            assert forall|k: int| 0 <= k < p.len() implies s[k] != d by {
                assert(s[k] == p[k]);
            }
            assert(delim_pos(s, d) == p.len()) by {
                if delim_pos(s, d) < p.len() {
                    assert(s[delim_pos(s, d) as int] == d);
                }
            }
            assert(frame_payload(s, framing) =~= p);
            assert(frame_consumed(s, framing) == p.len() + 1);
            assert(s.skip(frame_consumed(s, framing)) =~= rest);
            assert(frames_of(s, framing) =~= seq![p] + frames_of(rest, framing));
        },
    }
}

/// Stream round-trip: a stream written as any number of framed messages
/// splits back into exactly those messages, in order, for any framed
/// mode and any payloads that respect it. With no framing the whole
/// stream is a single message instead, so this law concerns the two
/// framed modes.
pub proof fn lemma_stream_round_trip(ps: Seq<Seq<u8>>, framing: Option<Framing>)
    requires
        framing is Some,
        framing == Option::Some(Framing::Sized) ==> forall|k: int|
            0 <= k < ps.len() ==> #[trigger] ps[k].len() <= u32::MAX,
        forall|d: u8|
            framing == Option::Some(Framing::Delimited(d)) ==> forall|k: int, i: int|
                0 <= k < ps.len() && 0 <= i < ps[k].len() ==> ps[k][i] != d,
    ensures
        frames_ok(outputs_of(ps, framing, Option::None), framing),
        frames_of(outputs_of(ps, framing, Option::None), framing) == ps,
    decreases ps.len(),
{
    if ps.len() == 0 {
        assert(frames_of(outputs_of(ps, framing, Option::None), framing) =~= ps);
    } else {
        lemma_stream_round_trip(ps.skip(1), framing);
        lemma_frame_prepend(ps[0], outputs_of(ps.skip(1), framing, Option::None), framing);
        assert(seq![ps[0]] + ps.skip(1) =~= ps);
    }
}

/// The value of `c` as a digit under `base`, accepting both letter cases,
/// or nothing when `c` is not a digit of that base.
pub open spec fn char_digit(c: char, base: nat) -> Option<nat> {
    let v: int = if 0x30 <= c as int && c as int <= 0x39 {
        c as int - 0x30
    } else if 0x61 <= c as int && c as int <= 0x66 {
        c as int - 0x61 + 10
    } else if 0x41 <= c as int && c as int <= 0x46 {
        c as int - 0x41 + 10
    } else {
        -1
    };
    if 0 <= v && v < base {
        Option::Some(v as nat)
    } else {
        Option::None
    }
}

/// The value of a numeral under `base`, or nothing when the string is
/// empty or holds a character that is not a digit of that base.
pub open spec fn numeral_value(s: Seq<char>, base: nat) -> Option<nat>
    decreases s.len(),
{
    if s.len() == 0 {
        Option::None
    } else if s.len() == 1 {
        char_digit(s[0], base)
    } else {
        match numeral_value(s.drop_last(), base) {
            Option::Some(hi) => match char_digit(s.last(), base) {
                Option::Some(lo) => Option::Some(hi * base + lo),
                Option::None => Option::None,
            },
            Option::None => Option::None,
        }
    }
}

/// A numeral has a value exactly when it is nonempty and all digits.
pub proof fn lemma_numeral_some_iff(s: Seq<char>, base: nat)
    ensures
        numeral_value(s, base) is Some <==> s.len() >= 1 && (forall|i: int|
            0 <= i < s.len() ==> char_digit(s[i], base) is Some),
    decreases s.len(),
{
    if s.len() > 1 {
        lemma_numeral_some_iff(s.drop_last(), base);
        assert forall|i: int| 0 <= i < s.len() - 1 implies s.drop_last()[i] == s[i] by {}
    }
}

/// Extending a numeral by further digits never lowers its value.
pub proof fn lemma_numeral_extend_ge(s: Seq<char>, base: nat, i: int)
    requires
        base >= 2,
        1 <= i <= s.len(),
        numeral_value(s, base) is Some,
    ensures
        numeral_value(s.subrange(0, i), base) is Some,
        numeral_value(s, base)->Some_0 >= numeral_value(s.subrange(0, i), base)->Some_0,
    decreases s.len() - i,
{
    lemma_numeral_some_iff(s, base);
    lemma_numeral_some_iff(s.subrange(0, i), base);
    assert forall|k: int| 0 <= k < i implies char_digit(s.subrange(0, i)[k], base) is Some by {
        assert(s.subrange(0, i)[k] == s[k]);
    }
    if i == s.len() {
        assert(s.subrange(0, i) =~= s);
    } else {
        lemma_numeral_extend_ge(s, base, i + 1);
        let t = s.subrange(0, i + 1);
        assert(t.drop_last() =~= s.subrange(0, i));
        let hi = numeral_value(s.subrange(0, i), base)->Some_0;
        let lo = char_digit(t.last(), base)->Some_0;
        if i + 1 == 1 {
            assert(t.len() == 1);
            assert(i == 0);
        } else {
            assert(numeral_value(t, base)->Some_0 == hi * base + lo);
            assert(hi * base + lo >= hi) by (nonlinear_arith)
                requires
                    base >= 2,
                    hi >= 0,
                    lo >= 0,
            ;
        }
    }
}

/// The numeral base selected by a radix suffix character, if it is one.
pub open spec fn suffix_base(c: char) -> Option<nat> {
    if c == 'b' || c == 'B' {
        Option::Some(2)
    } else if c == 'd' || c == 'D' {
        Option::Some(10)
    } else if c == 'h' || c == 'H' {
        Option::Some(16)
    } else if c == 'o' || c == 'O' {
        Option::Some(8)
    } else {
        Option::None
    }
}

/// The delimiter byte denoted by a configuration string: a numeral with an
/// optional radix suffix (`b`, `d`, `h` or `o`, either case; hexadecimal
/// when absent) whose value fits in one byte. Nothing when the string is
/// malformed or the value is out of range.
pub open spec fn delimiter_value(s: Seq<char>) -> Option<u8> {
    if s.len() == 0 {
        Option::None
    } else {
        let base: nat = match suffix_base(s.last()) {
            Option::Some(b) => b,
            Option::None => 16,
        };
        let body: Seq<char> = if suffix_base(s.last()) is Some {
            s.drop_last()
        } else {
            s
        };
        match numeral_value(body, base) {
            Option::Some(v) => if v <= 255 {
                Option::Some(v as u8)
            } else {
                Option::None
            },
            Option::None => Option::None,
        }
    }
}

/// The value of `c` as a digit under `base`, or nothing.
fn digit_of(c: char, base: u8) -> (r: Option<u8>)
    ensures
        r is Some <==> char_digit(c, base as nat) is Some,
        r is Some ==> r->0 as nat == char_digit(c, base as nat)->Some_0,
{
    let u = c as u32;
    let v: u32 = if 0x30 <= u && u <= 0x39 {
        u - 0x30
    } else if 0x61 <= u && u <= 0x66 {
        u - 0x61 + 10
    } else if 0x41 <= u && u <= 0x46 {
        u - 0x41 + 10
    } else {
        0xffff
    };
    if v < base as u32 {
        Some(v as u8)
    } else {
        None
    }
}

/// Converts a configuration string to a delimiter byte and framing.
///
/// A delimiter byte is written as a numeral with a radix suffix: `1010b`
/// for binary, `10d` for decimal, `0Ah` for hexadecimal, and `012o` for
/// octal all denote the ASCII newline character. Without a suffix the
/// numeral is read as hexadecimal.
///
/// # Errors
///
/// A `ParseInt` error occurs exactly when the string does not denote a
/// single byte value between 0 and 255.
#[verifier::loop_isolation(false)]
#[verifier::rlimit(60)]
pub fn to_framing_delimited(s: &str) -> (r: Result<Option<Framing>, Error>)
    ensures
        r is Ok <==> delimiter_value(s@) is Some,
        r is Ok ==> r->Ok_0 == Option::Some(Framing::Delimited(delimiter_value(s@)->Some_0)),
        r is Err ==> r->Err_0 is ParseInt,
{
    let len = s.unicode_len();
    if len == 0 {
        return Err(Error::ParseInt("empty delimiter string".to_owned()));
    }
    let last = s.get_char(len - 1);
    let (base, body_len): (u8, usize) = match last {
        'b' | 'B' => (2, len - 1),
        'd' | 'D' => (10, len - 1),
        'h' | 'H' => (16, len - 1),
        'o' | 'O' => (8, len - 1),
        _ => (16, len),
    };
    let ghost body: Seq<char> = if suffix_base(s@.last()) is Some {
        s@.drop_last()
    } else {
        s@
    };
    assert(body.len() == body_len);
    assert(forall|k: int| 0 <= k < body.len() ==> body[k] == s@[k]);
    if body_len == 0 {
        proof {
            lemma_numeral_some_iff(body, base as nat);
        }
        return Err(Error::ParseInt("delimiter string has no digits".to_owned()));
    }
    let mut acc: u32 = 0;
    let mut i: usize = 0;
    while i < body_len
        invariant
            0 <= i <= body_len,
            body_len <= s@.len(),
            1 <= base <= 16,
            body.len() == body_len,
            forall|k: int| 0 <= k < body.len() ==> body[k] == s@[k],
            acc <= 255,
            i > 0 ==> numeral_value(body.subrange(0, i as int), base as nat) == Option::Some(
                acc as nat,
            ),
            i == 0 ==> acc == 0,
        decreases body_len - i,
    {
        let c = s.get_char(i);
        assert(c == body[i as int]);
        let d = match digit_of(c, base) {
            Some(d) => d,
            None => {
                proof {
                    lemma_numeral_some_iff(body, base as nat);
                }
                return Err(Error::ParseInt("invalid digit in delimiter string".to_owned()));
            },
        };
        assert(acc * (base as u32) + (d as u32) <= 255 * 16 + 255) by (nonlinear_arith)
            requires
                acc <= 255,
                base <= 16,
                d < base,
        ;
        let next_acc: u32 = acc * (base as u32) + (d as u32);
        proof {
            let t = body.subrange(0, i + 1);
            assert(t.last() == body[i as int]);
            assert(char_digit(body[i as int], base as nat)->Some_0 == d as nat);
            assert(next_acc as nat == (acc as nat) * (base as nat) + (d as nat));
            if i == 0 {
                assert(t.len() == 1);
                assert(numeral_value(t, base as nat) == char_digit(body[0], base as nat));
            } else {
                assert(t.drop_last() =~= body.subrange(0, i as int));
                assert(numeral_value(t, base as nat) == Option::Some(
                    (acc as nat) * (base as nat) + char_digit(body[i as int], base as nat)->Some_0,
                ));
            }
            assert(numeral_value(body.subrange(0, i + 1), base as nat) == Option::Some(
                next_acc as nat,
            ));
        }
        if next_acc > 255 {
            proof {
                if numeral_value(body, base as nat) is Some {
                    lemma_numeral_extend_ge(body, base as nat, i + 1);
                }
            }
            return Err(Error::ParseInt("delimiter value does not fit in a byte".to_owned()));
        }
        acc = next_acc;
        i = i + 1;
    }
    proof {
        assert(body.subrange(0, body_len as int) =~= body);
    }
    Ok(Some(Framing::Delimited(acc as u8)))
}

/// Delimited framing round-trip: for a payload free of the marker byte,
/// reading a frame back from the written output yields that payload and
/// consumes the whole output, marker included.
pub proof fn lemma_delimited_round_trip(p: Seq<u8>, d: u8)
    requires
        forall|i: int| 0 <= i < p.len() ==> p[i] != d,
    ensures
        ({
            let s = framed_output(p, Option::Some(Framing::Delimited(d)), Option::None);
            &&& frame_ok(s, Option::Some(Framing::Delimited(d)))
            &&& frame_payload(s, Option::Some(Framing::Delimited(d))) == p
            &&& frame_consumed(s, Option::Some(Framing::Delimited(d))) == s.len()
        }),
{
    let s = p + seq![d];
    lemma_delim_pos(s, d);
    assert(s[p.len() as int] == d);
    assert(delim_pos(s, d) == p.len()) by {
        if delim_pos(s, d) < p.len() {
            assert(s[delim_pos(s, d) as int] == p[delim_pos(s, d) as int]);
        }
    }
    assert(s.subrange(0, p.len() as int) =~= p);
}

} // verus!
