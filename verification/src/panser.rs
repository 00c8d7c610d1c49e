//! The transcoding run: its configuration and the per-frame pipeline.
//!
//! A run reads frames according to the input framing, decodes each with
//! the input format, re-encodes it with the output format, and appends it
//! to the sink according to the output framing, strictly per message and
//! strictly in arrival order, stopping at the first error.

use crate::codec::{decode_error_of, decoded, encode_error_of, encoded, transcode, transcoded};
use crate::display::Radix;
use crate::error::Error;
use crate::format::{FromFormat, ToFormat};
use crate::framing::{
    delimiter_value, frame_consumed, frame_payload, frames_of, frames_ok, lemma_outputs_push,
    outputs_of, read_frame, to_framing_delimited, truncation_is_header, write_frame, Framing,
};
use vstd::prelude::*;

verus! {

/// A builder for transcoding runs.
pub struct Panser {
    /// The delimiter configuration string for the input, if framed by one.
    pub delimited_input: Option<String>,
    /// The delimiter configuration string for the output, if framed by one.
    pub delimited_output: Option<String>,
    /// The input format; JSON when absent.
    pub from: Option<FromFormat>,
    /// Paths of the input files; the standard input when absent.
    pub inputs: Option<Vec<String>>,
    /// Path of the output file; the standard output when absent.
    pub output: Option<String>,
    /// Render output bytes as numerals in this base, if chosen.
    pub radix: Option<Radix>,
    /// Whether the input carries four-byte length headers.
    pub sized_input: bool,
    /// Whether to prepend four-byte length headers to the output.
    pub sized_output: bool,
    /// The output format; MessagePack when absent.
    pub to: Option<ToFormat>,
}

impl Panser {
    /// Creates a new `Panser` with default options.
    ///
    /// The defaults are stdin for input, stdout for output, JSON for the
    /// from format, MessagePack for the to format, no delimited input, no
    /// delimited output, no sized input, and no sized output. Methods can
    /// be chained to change the defaults.
    pub fn new() -> (r: Panser)
        ensures
            r.delimited_input is None,
            r.delimited_output is None,
            r.from is None,
            r.inputs is None,
            r.output is None,
            r.radix is None,
            r.sized_input == false,
            r.sized_output == false,
            r.to is None,
    {
        Panser {
            delimited_input: Option::None,
            delimited_output: Option::None,
            from: Option::None,
            inputs: Option::None,
            output: Option::None,
            radix: Option::None,
            sized_input: false,
            sized_output: false,
            to: Option::None,
        }
    }

    /// Sets a delimiter byte string for the input and changes to framed
    /// reading of the data.
    pub fn delimited_input(self, delimited: Option<&str>) -> (r: Self)
        ensures
            delimited is Some ==> r.delimited_input is Some && r.delimited_input->0@
                == delimited->0@,
            delimited is None ==> r.delimited_input is None,
            r.delimited_output == self.delimited_output,
            r.from == self.from,
            r.inputs == self.inputs,
            r.output == self.output,
            r.radix == self.radix,
            r.sized_input == self.sized_input,
            r.sized_output == self.sized_output,
            r.to == self.to,
    {
        let mut p = self;
        p.delimited_input = match delimited {
            Option::Some(d) => Option::Some(d.to_owned()),
            Option::None => Option::None,
        };
        p
    }

    /// Sets a delimiter byte string for the output.
    ///
    /// The delimiter byte is appended to each output message.
    pub fn delimited_output(self, delimited: Option<&str>) -> (r: Self)
        ensures
            delimited is Some ==> r.delimited_output is Some && r.delimited_output->0@
                == delimited->0@,
            delimited is None ==> r.delimited_output is None,
            r.delimited_input == self.delimited_input,
            r.from == self.from,
            r.inputs == self.inputs,
            r.output == self.output,
            r.radix == self.radix,
            r.sized_input == self.sized_input,
            r.sized_output == self.sized_output,
            r.to == self.to,
    {
        let mut p = self;
        p.delimited_output = match delimited {
            Option::Some(d) => Option::Some(d.to_owned()),
            Option::None => Option::None,
        };
        p
    }

    /// The format of the input.
    ///
    /// If `None`, which is the default, the input format is assumed to be
    /// JSON.
    pub fn from(self, from: Option<FromFormat>) -> (r: Self)
        ensures
            r == (Panser { from: from, ..self }),
    {
        let mut p = self;
        p.from = from;
        p
    }

    /// The input sources: paths to files.
    ///
    /// If `None`, which is the default, stdin is used as the source.
    pub fn inputs(self, inputs: Option<Vec<&str>>) -> (r: Self)
        ensures
            inputs is Some ==> r.inputs is Some && r.inputs->0@.len() == inputs->0@.len() && (
            forall|i: int|
                0 <= i < inputs->0@.len() ==> r.inputs->0@[i]@ == inputs->0@[i]@),
            inputs is None ==> r.inputs is None,
            r.delimited_input == self.delimited_input,
            r.delimited_output == self.delimited_output,
            r.from == self.from,
            r.output == self.output,
            r.radix == self.radix,
            r.sized_input == self.sized_input,
            r.sized_output == self.sized_output,
            r.to == self.to,
    {
        let mut p = self;
        p.inputs = match inputs {
            Option::Some(paths) => {
                let mut owned: Vec<String> = Vec::new();
                let mut i: usize = 0;
                while i < paths.len()
                    invariant
                        0 <= i <= paths@.len(),
                        owned@.len() == i,
                        forall|k: int| 0 <= k < i ==> owned@[k]@ == paths@[k]@,
                    decreases paths@.len() - i,
                {
                    owned.push(paths[i].to_owned());
                    i = i + 1;
                }
                Option::Some(owned)
            },
            Option::None => Option::None,
        };
        p
    }

    /// The output destination: a path to a file.
    ///
    /// If `None`, which is the default, stdout is used as the destination.
    pub fn output(self, output: Option<&str>) -> (r: Self)
        ensures
            output is Some ==> r.output is Some && r.output->0@ == output->0@,
            output is None ==> r.output is None,
            r.delimited_input == self.delimited_input,
            r.delimited_output == self.delimited_output,
            r.from == self.from,
            r.inputs == self.inputs,
            r.radix == self.radix,
            r.sized_input == self.sized_input,
            r.sized_output == self.sized_output,
            r.to == self.to,
    {
        let mut p = self;
        p.output = match output {
            Option::Some(o) => Option::Some(o.to_owned()),
            Option::None => Option::None,
        };
        p
    }

    /// Sets the written output to be a space-separated list of bytes
    /// represented as numeric strings with a specific radix.
    ///
    /// The data is still transcoded to the `to` format, but it is written
    /// to the output as a string, for debugging and interactive use.
    pub fn radix(self, radix: Option<Radix>) -> (r: Self)
        ensures
            r == (Panser { radix: radix, ..self }),
    {
        let mut p = self;
        p.radix = radix;
        p
    }

    /// Indicates the first four bytes of each input message carry the
    /// message's total length, and changes to framed reading of the data.
    pub fn sized_input(self, sized: bool) -> (r: Self)
        ensures
            r == (Panser { sized_input: sized, ..self }),
    {
        let mut p = self;
        p.sized_input = sized;
        p
    }

    /// Prepends the length of the data to each output message as an
    /// unsigned 32-bit integer in big-endian (network) order.
    pub fn sized_output(self, sized: bool) -> (r: Self)
        ensures
            r == (Panser { sized_output: sized, ..self }),
    {
        let mut p = self;
        p.sized_output = sized;
        p
    }

    /// The format of the output.
    ///
    /// If `None`, which is the default, the output format is assumed to
    /// be MessagePack.
    pub fn to(self, to: Option<ToFormat>) -> (r: Self)
        ensures
            r == (Panser { to: to, ..self }),
    {
        let mut p = self;
        p.to = to;
        p
    }

    /// The input framing the configuration selects: delimited when a
    /// delimiter string is set, else sized when requested, else none.
    ///
    /// # Errors
    ///
    /// A `ParseInt` error when the delimiter string does not denote a
    /// byte, before any I/O begins.
    pub fn input_framing(&self) -> (r: Result<Option<Framing>, Error>)
        ensures
            match self.delimited_input {
                Option::Some(s) => (r is Ok <==> delimiter_value(s@) is Some) && (r is Ok
                    ==> r->Ok_0 == Option::Some(Framing::Delimited(delimiter_value(s@)->Some_0)))
                    && (r is Err ==> r->Err_0 is ParseInt),
                Option::None => r is Ok && r->Ok_0 == (if self.sized_input {
                    Option::Some(Framing::Sized)
                } else {
                    Option::<Framing>::None
                }),
            },
    {
        match &self.delimited_input {
            Option::Some(s) => to_framing_delimited(s.as_str()),
            Option::None => {
                if self.sized_input {
                    Ok(Option::Some(Framing::Sized))
                } else {
                    Ok(Option::None)
                }
            },
        }
    }

    /// The output framing the configuration selects: delimited when a
    /// delimiter string is set, else sized when requested, else none.
    ///
    /// # Errors
    ///
    /// A `ParseInt` error when the delimiter string does not denote a
    /// byte, before any I/O begins.
    pub fn output_framing(&self) -> (r: Result<Option<Framing>, Error>)
        ensures
            match self.delimited_output {
                Option::Some(s) => (r is Ok <==> delimiter_value(s@) is Some) && (r is Ok
                    ==> r->Ok_0 == Option::Some(Framing::Delimited(delimiter_value(s@)->Some_0)))
                    && (r is Err ==> r->Err_0 is ParseInt),
                Option::None => r is Ok && r->Ok_0 == (if self.sized_output {
                    Option::Some(Framing::Sized)
                } else {
                    Option::<Framing>::None
                }),
            },
    {
        match &self.delimited_output {
            Option::Some(s) => to_framing_delimited(s.as_str()),
            Option::None => {
                if self.sized_output {
                    Ok(Option::Some(Framing::Sized))
                } else {
                    Ok(Option::None)
                }
            },
        }
    }
}

/// Whether one frame's payload can be transcoded and written out: it
/// decodes under the input format, the output format can represent it,
/// and under sized output framing the encoding fits the length header.
pub open spec fn frame_writable(
    p: Seq<u8>,
    from: FromFormat,
    to: ToFormat,
    output_framing: Option<Framing>,
) -> bool {
    transcoded(p, from, to) is Some && (output_framing == Option::Some(Framing::Sized)
        ==> transcoded(p, from, to)->Some_0.len() <= u32::MAX)
}

/// How many leading frames can be transcoded and written before the
/// first that cannot.
pub open spec fn writable_prefix(
    frames: Seq<Seq<u8>>,
    from: FromFormat,
    to: ToFormat,
    output_framing: Option<Framing>,
) -> int
    decreases frames.len(),
{
    if frames.len() == 0 || !frame_writable(frames[0], from, to, output_framing) {
        0
    } else {
        1 + writable_prefix(frames.skip(1), from, to, output_framing)
    }
}

/// The transcoded bytes of each frame, in order.
pub open spec fn transcoded_outputs(frames: Seq<Seq<u8>>, from: FromFormat, to: ToFormat) -> Seq<
    Seq<u8>,
> {
    Seq::new(frames.len(), |k: int| transcoded(frames[k], from, to)->Some_0)
}

/// `writable_prefix` is the unique cut: all frames before it are
/// writable, and the frame at it, if any, is not.
pub proof fn lemma_writable_prefix(
    frames: Seq<Seq<u8>>,
    from: FromFormat,
    to: ToFormat,
    output_framing: Option<Framing>,
    k: int,
)
    requires
        0 <= k <= frames.len(),
        forall|j: int| 0 <= j < k ==> frame_writable(#[trigger] frames[j], from, to, output_framing),
        k < frames.len() ==> !frame_writable(frames[k], from, to, output_framing),
    ensures
        writable_prefix(frames, from, to, output_framing) == k,
    decreases frames.len(),
{
    if k == 0 {
    } else {
        assert(frames[0] == frames.skip(0)[0]);
        assert forall|j: int| 0 <= j < k - 1 implies frame_writable(
            #[trigger] frames.skip(1)[j],
            from,
            to,
            output_framing,
        ) by {
            assert(frames.skip(1)[j] == frames[j + 1]);
        }
        if k - 1 < frames.len() - 1 {
            assert(frames.skip(1)[k - 1] == frames[k]);
        }
        lemma_writable_prefix(frames.skip(1), from, to, output_framing, k - 1);
    }
}

/// Runs the whole transcode pipeline over an in-memory byte stream.
///
/// The input is split into frames by the input framing; each frame is
/// transcoded from `from` to `to` and appended to `out` under the output
/// framing (rendered with `radix` when one is chosen), strictly in input
/// order. The run succeeds exactly when the input splits cleanly and
/// every frame can be transcoded and written; it then returns the number
/// of messages, and the sink has grown by exactly their transcodings,
/// framed, in order.
///
/// The run is fail-fast: whatever the outcome, the sink has grown by
/// exactly the framed transcodings of the frames before the first
/// failure, and by no byte of any later frame.
///
/// # Errors
///
/// A truncation error, exactly when the input does not split into
/// well-formed frames and every complete frame was transcoded; otherwise
/// the decode or encode error of the first failing frame, or a generic
/// error for an encoding too large for a sized length header.
#[verifier::rlimit(100)]
pub fn transcode_stream(
    input: &[u8],
    from: FromFormat,
    to: ToFormat,
    input_framing: Option<Framing>,
    output_framing: Option<Framing>,
    radix: Option<Radix>,
    out: &mut Vec<u8>,
) -> (r: Result<usize, Error>)
    ensures
        ({
            let frames = frames_of(input@, input_framing);
            let k = writable_prefix(frames, from, to, output_framing);
            &&& final(out)@ == old(out)@ + outputs_of(
                transcoded_outputs(frames.take(k), from, to),
                output_framing,
                radix,
            )
            &&& (r is Ok <==> frames_ok(input@, input_framing) && k == frames.len())
            &&& (r is Ok ==> r->Ok_0 == frames.len())
            &&& (r is Err && k == frames.len() ==> (r->Err_0 is TruncatedHeader || r->Err_0
                is TruncatedBody))
            &&& (r is Err && k < frames.len() ==> {
                let p = frames[k];
                &&& (decoded(p, from) is None ==> decode_error_of(from, r->Err_0))
                &&& (decoded(p, from) is Some && encoded(decoded(p, from)->Some_0, to) is None
                    ==> encode_error_of(to, r->Err_0))
                &&& (transcoded(p, from, to) is Some ==> r->Err_0 is Generic)
            })
        }),
        r is Err && r->Err_0 is TruncatedHeader ==> !frames_ok(input@, input_framing)
            && truncation_is_header(input@, input_framing),
        r is Err && r->Err_0 is TruncatedBody ==> !frames_ok(input@, input_framing)
            && !truncation_is_header(input@, input_framing),
{
    let ghost frames = frames_of(input@, input_framing);
    let mut pos: usize = 0;
    let mut count: usize = 0;
    let ghost mut done: Seq<Seq<u8>> = Seq::empty();
    proof {
        assert(input@.skip(0) =~= input@);
        assert(done + frames =~= frames);
        assert(out@ =~= old(out)@ + outputs_of(transcoded_outputs(done, from, to), output_framing,
            radix,
        ));
    }
    loop
        invariant
            pos <= input@.len(),
            count <= pos,
            count == done.len(),
            frames == frames_of(input@, input_framing),
            frames == done + frames_of(input@.skip(pos as int), input_framing),
            forall|j: int|
                0 <= j < count ==> frame_writable(#[trigger] frames[j], from, to, output_framing),
            frames_ok(input@, input_framing) == frames_ok(input@.skip(pos as int), input_framing),
            !frames_ok(input@, input_framing) ==> truncation_is_header(input@, input_framing)
                == truncation_is_header(input@.skip(pos as int), input_framing),
            out@ == old(out)@ + outputs_of(transcoded_outputs(done, from, to), output_framing,
                radix,
            ),
        decreases input@.len() - pos,
    {
        let ghost sfx = input@.skip(pos as int);
        let frame = match read_frame(input, pos, input_framing) {
            Ok(Option::None) => {
                proof {
                    assert(frames_of(sfx, input_framing) =~= Seq::<Seq<u8>>::empty());
                    assert(done =~= frames);
                    lemma_writable_prefix(frames, from, to, output_framing, count as int);
                    assert(frames.take(count as int) =~= done);
                }
                return Ok(count);
            },
            Ok(Option::Some(f)) => f,
            Err(e) => {
                proof {
                    assert(frames_of(sfx, input_framing) =~= Seq::<Seq<u8>>::empty());
                    assert(done =~= frames);
                    lemma_writable_prefix(frames, from, to, output_framing, count as int);
                    assert(frames.take(count as int) =~= done);
                }
                return Err(e);
            },
        };
        let (payload, next) = frame;
        proof {
            assert(frames_of(sfx, input_framing)[0] == frame_payload(sfx, input_framing));
            assert(frames[count as int] == frame_payload(sfx, input_framing));
        }
        let enc = match transcode(payload.as_slice(), from, to) {
            Ok(b) => b,
            Err(e) => {
                proof {
                    assert(!frame_writable(frames[count as int], from, to, output_framing));
                    lemma_writable_prefix(frames, from, to, output_framing, count as int);
                    assert(frames.take(count as int) =~= done);
                    assert(frames_of(sfx, input_framing).len() >= 1);
                }
                return Err(e);
            },
        };
        let sized_out = match output_framing {
            Option::Some(Framing::Sized) => true,
            _ => false,
        };
        if sized_out && enc.len() > u32::MAX as usize {
            proof {
                assert(!frame_writable(frames[count as int], from, to, output_framing));
                lemma_writable_prefix(frames, from, to, output_framing, count as int);
                assert(frames.take(count as int) =~= done);
                assert(frames_of(sfx, input_framing).len() >= 1);
            }
            return Err(
                Error::Generic("an encoded message is too large for a sized frame".to_owned()),
            );
        }
        write_frame(out, enc.as_slice(), output_framing, radix);
        proof {
            let c = frame_consumed(sfx, input_framing);
            assert(input@.skip(pos as int).skip(c) =~= input@.skip(next as int));
            assert(frames_of(sfx, input_framing) == seq![frame_payload(sfx, input_framing)]
                + frames_of(input@.skip(next as int), input_framing));
            assert(frame_writable(frames[count as int], from, to, output_framing));
            let prev = done;
            lemma_outputs_push(transcoded_outputs(prev, from, to), enc@, output_framing, radix);
            done = done.push(frame_payload(sfx, input_framing));
            assert(done + frames_of(input@.skip(next as int), input_framing) =~= frames);
            assert(transcoded_outputs(done, from, to) =~= transcoded_outputs(prev, from, to).push(
                enc@,
            ));
            assert(out@ =~= old(out)@ + outputs_of(transcoded_outputs(done, from, to),
                output_framing,
                radix,
            ));
        }
        pos = next;
        count = count + 1;
    }
}

} // verus!
