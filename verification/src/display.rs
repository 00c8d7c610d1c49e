//! Rendering of encoded bytes as a space-separated list of numerals in a
//! chosen base, for human-readable output of binary formats.

use vstd::prelude::*;

verus! {

/// The numeral base used for displaying serialized binary data.
#[derive(Clone, Copy, Debug, PartialEq, Eq, Structural)]
pub enum Radix {
    /// Display each byte as a series of zeros and ones.
    Binary,
    /// Display each byte as a decimal value.
    Decimal,
    /// Display each byte as a hexadecimal value.
    Hexadecimal,
    /// Display each byte as an octal value.
    Octal,
}

/// The base denoted by a `Radix`.
pub open spec fn radix_base(r: Radix) -> nat {
    match r {
        Radix::Binary => 2,
        Radix::Decimal => 10,
        Radix::Hexadecimal => 16,
        Radix::Octal => 8,
    }
}

/// The ASCII character for one digit value, upper case above nine.
pub open spec fn digit_ascii(d: nat) -> u8 {
    if d < 10 {
        (0x30 + d) as u8
    } else {
        (0x41 + (d - 10)) as u8
    }
}

/// The ASCII numeral of `n` in the base of `r`, most significant digit
/// first, with no leading zeros (a lone zero digit for zero).
pub open spec fn digits_ascii(n: nat, r: Radix) -> Seq<u8>
    decreases n,
{
    if n < radix_base(r) {
        seq![digit_ascii(n)]
    } else {
        digits_ascii(n / radix_base(r), r) + seq![digit_ascii(n % radix_base(r))]
    }
}

/// One rendered byte: its numeral followed by a single space.
pub open spec fn rendered_byte(b: u8, r: Radix) -> Seq<u8> {
    digits_ascii(b as nat, r) + seq![0x20u8]
}

/// A byte string rendered as a space-separated list of numerals.
pub open spec fn rendered(data: Seq<u8>, r: Radix) -> Seq<u8>
    decreases data.len(),
{
    if data.len() == 0 {
        Seq::empty()
    } else {
        rendered_byte(data[0], r) + rendered(data.skip(1), r)
    }
}

/// Bytes as written to the sink: verbatim without a radix, rendered with one.
pub open spec fn maybe_rendered(data: Seq<u8>, radix: Option<Radix>) -> Seq<u8> {
    match radix {
        Option::None => data,
        Option::Some(r) => rendered(data, r),
    }
}

/// Rendering distributes over concatenation one byte at a time.
pub proof fn lemma_rendered_push(data: Seq<u8>, b: u8, r: Radix)
    ensures
        rendered(data + seq![b], r) == rendered(data, r) + rendered_byte(b, r),
    decreases data.len(),
{
    if data.len() == 0 {
        assert(data + seq![b] =~= seq![b]);
        assert(seq![b].skip(1) =~= Seq::<u8>::empty());
        assert(rendered(seq![b].skip(1), r) == Seq::<u8>::empty());
        assert(rendered(seq![b], r) == rendered_byte(b, r) + Seq::<u8>::empty());
        assert(rendered(data + seq![b], r) =~= rendered(data, r) + rendered_byte(b, r));
    } else {
        assert((data + seq![b]).skip(1) =~= data.skip(1) + seq![b]);
        lemma_rendered_push(data.skip(1), b, r);
        assert((data + seq![b])[0] == data[0]);
        assert(rendered(data + seq![b], r) =~= rendered(data, r) + rendered_byte(b, r));
    }
}

/// The ASCII character for a digit value below sixteen.
fn digit_char(d: u8) -> (c: u8)
    requires
        d < 16,
    ensures
        c == digit_ascii(d as nat),
{
    if d < 10 {
        0x30 + d
    } else {
        0x41 + (d - 10)
    }
}

/// The base denoted by a `Radix`, as a byte.
fn radix_base_u8(r: Radix) -> (b: u8)
    ensures
        b as nat == radix_base(r),
{
    match r {
        Radix::Binary => 2,
        Radix::Decimal => 10,
        Radix::Hexadecimal => 16,
        Radix::Octal => 8,
    }
}

/// Appends the numeral of `n` in the base of `r` to `out`.
fn push_digits(out: &mut Vec<u8>, n: u8, r: Radix)
    ensures
        final(out)@ == old(out)@ + digits_ascii(n as nat, r),
    decreases n,
{
    let base = radix_base_u8(r);
    if n >= base {
        push_digits(out, n / base, r);
    }
    out.push(digit_char(n % base));
    assert(out@ =~= old(out)@ + digits_ascii(n as nat, r));
}

/// Appends one rendered byte (numeral and trailing space) to `out`.
fn push_rendered_byte(out: &mut Vec<u8>, b: u8, r: Radix)
    ensures
        final(out)@ == old(out)@ + rendered_byte(b, r),
{
    push_digits(out, b, r);
    out.push(0x20);
    assert(out@ =~= old(out)@ + rendered_byte(b, r));
}

/// Appends `data` to `out`, either verbatim or as a space-separated list of
/// numerals in the base of `radix`.
pub fn write_data(out: &mut Vec<u8>, data: &[u8], radix: Option<Radix>)
    ensures
        final(out)@ == old(out)@ + maybe_rendered(data@, radix),
{
    match radix {
        Option::None => {
            let mut i: usize = 0;
            while i < data.len()
                invariant
                    i <= data@.len(),
                    out@ == old(out)@ + data@.subrange(0, i as int),
                decreases data@.len() - i,
            {
                out.push(data[i]);
                i = i + 1;
                assert(out@ =~= old(out)@ + data@.subrange(0, i as int));
            }
            assert(data@.subrange(0, data@.len() as int) =~= data@);
        },
        Option::Some(r) => {
            let mut i: usize = 0;
            while i < data.len()
                invariant
                    i <= data@.len(),
                    out@ == old(out)@ + rendered(data@.subrange(0, i as int), r),
                decreases data@.len() - i,
            {
                push_rendered_byte(out, data[i], r);
                proof {
                    lemma_rendered_push(data@.subrange(0, i as int), data@[i as int], r);
                    assert(data@.subrange(0, i as int) + seq![data@[i as int]] =~= data@.subrange(
                        0,
                        i + 1,
                    ));
                }
                i = i + 1;
            }
            assert(data@.subrange(0, data@.len() as int) =~= data@);
        },
    }
}

} // verus!
