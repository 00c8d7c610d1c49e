//! The supported serialization formats and the strings that select them.
//!
//! Not every format can be both decoded and encoded: deserializing from
//! environment variables, for instance, has no encoding direction.

use crate::display::Radix;
use vstd::prelude::*;
use vstd::string::StrSliceExecFns;

verus! {

/// The different output (serialization) formats.
#[derive(Clone, Copy, Debug, PartialEq, Eq, Structural)]
pub enum ToFormat {
    Bincode,
    Cbor,
    Hjson,
    Json,
    Msgpack,
    Pickle,
    Toml,
    Url,
    Yaml,
}

/// The different input (deserialization) formats.
#[derive(Clone, Copy, Debug, PartialEq, Eq, Structural)]
pub enum FromFormat {
    Bincode,
    Cbor,
    Envy,
    Hjson,
    Json,
    Msgpack,
    Pickle,
    Toml,
    Url,
    Yaml,
}

/// The character's code with an ASCII upper-case letter folded to lower case.
pub open spec fn lower_int(c: char) -> int {
    if 0x41 <= c as int && c as int <= 0x5A {
        c as int + 0x20
    } else {
        c as int
    }
}

/// Whether two strings are equal up to ASCII letter case.
pub open spec fn eq_ci(s: Seq<char>, t: Seq<char>) -> bool {
    s.len() == t.len() && (forall|i: int| 0 <= i < s.len() ==> lower_int(s[i]) == lower_int(t[i]))
}

/// Compares two strings for equality up to ASCII letter case.
#[verifier::loop_isolation(false)]
fn eq_ignore_case(s: &str, t: &str) -> (b: bool)
    ensures
        b == eq_ci(s@, t@),
{
    let sl = s.unicode_len();
    let tl = t.unicode_len();
    if sl != tl {
        return false;
    }
    let mut i: usize = 0;
    while i < sl
        invariant
            0 <= i <= sl,
            forall|k: int| 0 <= k < i ==> lower_int(s@[k]) == lower_int(t@[k]),
        decreases sl - i,
    {
        let a = s.get_char(i) as u32;
        let b_ = t.get_char(i) as u32;
        let la: u32 = if 0x41 <= a && a <= 0x5A {
            a + 0x20
        } else {
            a
        };
        let lb: u32 = if 0x41 <= b_ && b_ <= 0x5A {
            b_ + 0x20
        } else {
            b_
        };
        if la != lb {
            return false;
        }
        i = i + 1;
    }
    true
}

/// The output format selected by a name, compared without regard to case.
pub open spec fn parse_to_format(s: Seq<char>) -> Option<ToFormat> {
    if eq_ci(s, "bincode"@) {
        Option::Some(ToFormat::Bincode)
    } else if eq_ci(s, "cbor"@) {
        Option::Some(ToFormat::Cbor)
    } else if eq_ci(s, "hjson"@) {
        Option::Some(ToFormat::Hjson)
    } else if eq_ci(s, "json"@) {
        Option::Some(ToFormat::Json)
    } else if eq_ci(s, "msgpack"@) {
        Option::Some(ToFormat::Msgpack)
    } else if eq_ci(s, "pickle"@) {
        Option::Some(ToFormat::Pickle)
    } else if eq_ci(s, "toml"@) {
        Option::Some(ToFormat::Toml)
    } else if eq_ci(s, "url"@) {
        Option::Some(ToFormat::Url)
    } else if eq_ci(s, "yaml"@) {
        Option::Some(ToFormat::Yaml)
    } else {
        Option::None
    }
}

/// The input format selected by a name, compared without regard to case.
pub open spec fn parse_from_format(s: Seq<char>) -> Option<FromFormat> {
    if eq_ci(s, "bincode"@) {
        Option::Some(FromFormat::Bincode)
    } else if eq_ci(s, "cbor"@) {
        Option::Some(FromFormat::Cbor)
    } else if eq_ci(s, "envy"@) {
        Option::Some(FromFormat::Envy)
    } else if eq_ci(s, "hjson"@) {
        Option::Some(FromFormat::Hjson)
    } else if eq_ci(s, "json"@) {
        Option::Some(FromFormat::Json)
    } else if eq_ci(s, "msgpack"@) {
        Option::Some(FromFormat::Msgpack)
    } else if eq_ci(s, "pickle"@) {
        Option::Some(FromFormat::Pickle)
    } else if eq_ci(s, "toml"@) {
        Option::Some(FromFormat::Toml)
    } else if eq_ci(s, "url"@) {
        Option::Some(FromFormat::Url)
    } else if eq_ci(s, "yaml"@) {
        Option::Some(FromFormat::Yaml)
    } else {
        Option::None
    }
}

/// The radix selected by a name: the first letter or the full word of the
/// base's name, compared without regard to case.
pub open spec fn parse_radix(s: Seq<char>) -> Option<Radix> {
    if eq_ci(s, "b"@) || eq_ci(s, "bin"@) || eq_ci(s, "binary"@) {
        Option::Some(Radix::Binary)
    } else if eq_ci(s, "d"@) || eq_ci(s, "dec"@) || eq_ci(s, "decimal"@) {
        Option::Some(Radix::Decimal)
    } else if eq_ci(s, "h"@) || eq_ci(s, "hex"@) || eq_ci(s, "hexadecimal"@) {
        Option::Some(Radix::Hexadecimal)
    } else if eq_ci(s, "o"@) || eq_ci(s, "oct"@) || eq_ci(s, "octal"@) {
        Option::Some(Radix::Octal)
    } else {
        Option::None
    }
}

/// The accepted spellings of the output format names, in order.
pub open spec fn to_format_names() -> Seq<Seq<char>> {
    seq![
        "Bincode"@, "bincode"@, "BINCODE"@, "Cbor"@, "cbor"@, "CBOR"@, "Hjson"@, "hjson"@,
        "HJSON"@, "Json"@, "json"@, "JSON"@, "Msgpack"@, "msgpack"@, "MSGPACK"@, "Pickle"@,
        "pickle"@, "PICKLE"@, "Toml"@, "toml"@, "TOML"@, "Url"@, "url"@, "URL"@, "Yaml"@, "yaml"@,
        "YAML"@,
    ]
}

/// The accepted spellings of the input format names, in order.
pub open spec fn from_format_names() -> Seq<Seq<char>> {
    seq![
        "Bincode"@, "bincode"@, "BINCODE"@, "Cbor"@, "cbor"@, "CBOR"@, "Envy"@, "envy"@, "ENVY"@,
        "Hjson"@, "hjson"@, "HJSON"@, "Json"@, "json"@, "JSON"@, "Msgpack"@, "msgpack"@,
        "MSGPACK"@, "Pickle"@, "pickle"@, "PICKLE"@, "Toml"@, "toml"@, "TOML"@, "Url"@, "url"@,
        "URL"@, "Yaml"@, "yaml"@, "YAML"@,
    ]
}

/// The accepted spellings of the radix names, in order.
pub open spec fn radix_names() -> Seq<Seq<char>> {
    seq![
        "b"@, "B"@, "bin"@, "Bin"@, "BIN"@, "binary"@, "Binary"@, "BINARY"@, "d"@, "D"@, "dec"@,
        "Dec"@, "DEC"@, "decimal"@, "Decimal"@, "DECIMAL"@, "h"@, "H"@, "hex"@, "Hex"@, "HEX"@,
        "hexadecimal"@, "Hexadecimal"@, "HEXADECIMAL"@, "o"@, "O"@, "oct"@, "Oct"@, "OCT"@,
        "octal"@, "Octal"@, "OCTAL"@,
    ]
}

impl ToFormat {
    /// All accepted spellings of the output format names.
    pub fn possible_values() -> (r: Vec<&'static str>)
        ensures
            r@.len() == to_format_names().len(),
            forall|i: int| 0 <= i < r@.len() ==> #[trigger] r@[i]@ == to_format_names()[i],
            forall|i: int| 0 <= i < r@.len() ==> parse_to_format(r@[i]@) is Some,
    {
        let r = vec![
            "Bincode",
            "bincode",
            "BINCODE",
            "Cbor",
            "cbor",
            "CBOR",
            "Hjson",
            "hjson",
            "HJSON",
            "Json",
            "json",
            "JSON",
            "Msgpack",
            "msgpack",
            "MSGPACK",
            "Pickle",
            "pickle",
            "PICKLE",
            "Toml",
            "toml",
            "TOML",
            "Url",
            "url",
            "URL",
            "Yaml",
            "yaml",
            "YAML",
        ];
        proof {
            assert forall|i: int| 0 <= i < r@.len() implies parse_to_format(r@[i]@) is Some by {
                reveal_strlit("Bincode");
                reveal_strlit("bincode");
                reveal_strlit("BINCODE");
                reveal_strlit("Cbor");
                reveal_strlit("cbor");
                reveal_strlit("CBOR");
                reveal_strlit("Hjson");
                reveal_strlit("hjson");
                reveal_strlit("HJSON");
                reveal_strlit("Json");
                reveal_strlit("json");
                reveal_strlit("JSON");
                reveal_strlit("Msgpack");
                reveal_strlit("msgpack");
                reveal_strlit("MSGPACK");
                reveal_strlit("Pickle");
                reveal_strlit("pickle");
                reveal_strlit("PICKLE");
                reveal_strlit("Toml");
                reveal_strlit("toml");
                reveal_strlit("TOML");
                reveal_strlit("Url");
                reveal_strlit("url");
                reveal_strlit("URL");
                reveal_strlit("Yaml");
                reveal_strlit("yaml");
                reveal_strlit("YAML");
            }
        }
        r
    }

    /// Selects the output format named by `s`, without regard to case.
    pub fn from_str(s: &str) -> (r: Result<ToFormat, &'static str>)
        ensures
            r is Ok <==> parse_to_format(s@) is Some,
            r is Ok ==> r->Ok_0 == parse_to_format(s@)->Some_0,
    {
        if eq_ignore_case(s, "bincode") {
            Ok(ToFormat::Bincode)
        } else if eq_ignore_case(s, "cbor") {
            Ok(ToFormat::Cbor)
        } else if eq_ignore_case(s, "hjson") {
            Ok(ToFormat::Hjson)
        } else if eq_ignore_case(s, "json") {
            Ok(ToFormat::Json)
        } else if eq_ignore_case(s, "msgpack") {
            Ok(ToFormat::Msgpack)
        } else if eq_ignore_case(s, "pickle") {
            Ok(ToFormat::Pickle)
        } else if eq_ignore_case(s, "toml") {
            Ok(ToFormat::Toml)
        } else if eq_ignore_case(s, "url") {
            Ok(ToFormat::Url)
        } else if eq_ignore_case(s, "yaml") {
            Ok(ToFormat::Yaml)
        } else {
            Err("No Match")
        }
    }

    /// The display name of the format.
    pub fn name(&self) -> (r: &'static str)
        ensures
            self is Bincode ==> r@ == "Bincode"@,
            self is Cbor ==> r@ == "CBOR"@,
            self is Hjson ==> r@ == "Hjson"@,
            self is Json ==> r@ == "JSON"@,
            self is Msgpack ==> r@ == "Msgpack"@,
            self is Pickle ==> r@ == "Pickle"@,
            self is Toml ==> r@ == "TOML"@,
            self is Url ==> r@ == "URL"@,
            self is Yaml ==> r@ == "YAML"@,
    {
        match *self {
            ToFormat::Bincode => "Bincode",
            ToFormat::Cbor => "CBOR",
            ToFormat::Hjson => "Hjson",
            ToFormat::Json => "JSON",
            ToFormat::Msgpack => "Msgpack",
            ToFormat::Pickle => "Pickle",
            ToFormat::Toml => "TOML",
            ToFormat::Url => "URL",
            ToFormat::Yaml => "YAML",
        }
    }
}

impl FromFormat {
    /// All accepted spellings of the input format names.
    pub fn possible_values() -> (r: Vec<&'static str>)
        ensures
            r@.len() == from_format_names().len(),
            forall|i: int| 0 <= i < r@.len() ==> #[trigger] r@[i]@ == from_format_names()[i],
            forall|i: int| 0 <= i < r@.len() ==> parse_from_format(r@[i]@) is Some,
    {
        let r = vec![
            "Bincode",
            "bincode",
            "BINCODE",
            "Cbor",
            "cbor",
            "CBOR",
            "Envy",
            "envy",
            "ENVY",
            "Hjson",
            "hjson",
            "HJSON",
            "Json",
            "json",
            "JSON",
            "Msgpack",
            "msgpack",
            "MSGPACK",
            "Pickle",
            "pickle",
            "PICKLE",
            "Toml",
            "toml",
            "TOML",
            "Url",
            "url",
            "URL",
            "Yaml",
            "yaml",
            "YAML",
        ];
        proof {
            assert forall|i: int| 0 <= i < r@.len() implies parse_from_format(r@[i]@) is Some by {
                reveal_strlit("Bincode");
                reveal_strlit("bincode");
                reveal_strlit("BINCODE");
                reveal_strlit("Cbor");
                reveal_strlit("cbor");
                reveal_strlit("CBOR");
                reveal_strlit("Envy");
                reveal_strlit("envy");
                reveal_strlit("ENVY");
                reveal_strlit("Hjson");
                reveal_strlit("hjson");
                reveal_strlit("HJSON");
                reveal_strlit("Json");
                reveal_strlit("json");
                reveal_strlit("JSON");
                reveal_strlit("Msgpack");
                reveal_strlit("msgpack");
                reveal_strlit("MSGPACK");
                reveal_strlit("Pickle");
                reveal_strlit("pickle");
                reveal_strlit("PICKLE");
                reveal_strlit("Toml");
                reveal_strlit("toml");
                reveal_strlit("TOML");
                reveal_strlit("Url");
                reveal_strlit("url");
                reveal_strlit("URL");
                reveal_strlit("Yaml");
                reveal_strlit("yaml");
                reveal_strlit("YAML");
            }
        }
        r
    }

    /// Selects the input format named by `s`, without regard to case.
    pub fn from_str(s: &str) -> (r: Result<FromFormat, &'static str>)
        ensures
            r is Ok <==> parse_from_format(s@) is Some,
            r is Ok ==> r->Ok_0 == parse_from_format(s@)->Some_0,
    {
        if eq_ignore_case(s, "bincode") {
            Ok(FromFormat::Bincode)
        } else if eq_ignore_case(s, "cbor") {
            Ok(FromFormat::Cbor)
        } else if eq_ignore_case(s, "envy") {
            Ok(FromFormat::Envy)
        } else if eq_ignore_case(s, "hjson") {
            Ok(FromFormat::Hjson)
        } else if eq_ignore_case(s, "json") {
            Ok(FromFormat::Json)
        } else if eq_ignore_case(s, "msgpack") {
            Ok(FromFormat::Msgpack)
        } else if eq_ignore_case(s, "pickle") {
            Ok(FromFormat::Pickle)
        } else if eq_ignore_case(s, "toml") {
            Ok(FromFormat::Toml)
        } else if eq_ignore_case(s, "url") {
            Ok(FromFormat::Url)
        } else if eq_ignore_case(s, "yaml") {
            Ok(FromFormat::Yaml)
        } else {
            Err("No Match")
        }
    }

    /// The display name of the format.
    pub fn name(&self) -> (r: &'static str)
        ensures
            self is Bincode ==> r@ == "Bincode"@,
            self is Cbor ==> r@ == "CBOR"@,
            self is Envy ==> r@ == "Envy"@,
            self is Hjson ==> r@ == "Hjson"@,
            self is Json ==> r@ == "JSON"@,
            self is Msgpack ==> r@ == "Msgpack"@,
            self is Pickle ==> r@ == "Pickle"@,
            self is Toml ==> r@ == "TOML"@,
            self is Url ==> r@ == "URL"@,
            self is Yaml ==> r@ == "YAML"@,
    {
        match *self {
            FromFormat::Bincode => "Bincode",
            FromFormat::Cbor => "CBOR",
            FromFormat::Envy => "Envy",
            FromFormat::Hjson => "Hjson",
            FromFormat::Json => "JSON",
            FromFormat::Msgpack => "Msgpack",
            FromFormat::Pickle => "Pickle",
            FromFormat::Toml => "TOML",
            FromFormat::Url => "URL",
            FromFormat::Yaml => "YAML",
        }
    }
}

impl Radix {
    /// All accepted spellings of the radix names.
    pub fn possible_values() -> (r: Vec<&'static str>)
        ensures
            r@.len() == radix_names().len(),
            forall|i: int| 0 <= i < r@.len() ==> #[trigger] r@[i]@ == radix_names()[i],
            forall|i: int| 0 <= i < r@.len() ==> parse_radix(r@[i]@) is Some,
    {
        let r = vec![
            "b",
            "B",
            "bin",
            "Bin",
            "BIN",
            "binary",
            "Binary",
            "BINARY",
            "d",
            "D",
            "dec",
            "Dec",
            "DEC",
            "decimal",
            "Decimal",
            "DECIMAL",
            "h",
            "H",
            "hex",
            "Hex",
            "HEX",
            "hexadecimal",
            "Hexadecimal",
            "HEXADECIMAL",
            "o",
            "O",
            "oct",
            "Oct",
            "OCT",
            "octal",
            "Octal",
            "OCTAL",
        ];
        proof {
            assert forall|i: int| 0 <= i < r@.len() implies parse_radix(r@[i]@) is Some by {
                reveal_strlit("b");
                reveal_strlit("B");
                reveal_strlit("bin");
                reveal_strlit("Bin");
                reveal_strlit("BIN");
                reveal_strlit("binary");
                reveal_strlit("Binary");
                reveal_strlit("BINARY");
                reveal_strlit("d");
                reveal_strlit("D");
                reveal_strlit("dec");
                reveal_strlit("Dec");
                reveal_strlit("DEC");
                reveal_strlit("decimal");
                reveal_strlit("Decimal");
                reveal_strlit("DECIMAL");
                reveal_strlit("h");
                reveal_strlit("H");
                reveal_strlit("hex");
                reveal_strlit("Hex");
                reveal_strlit("HEX");
                reveal_strlit("hexadecimal");
                reveal_strlit("Hexadecimal");
                reveal_strlit("HEXADECIMAL");
                reveal_strlit("o");
                reveal_strlit("O");
                reveal_strlit("oct");
                reveal_strlit("Oct");
                reveal_strlit("OCT");
                reveal_strlit("octal");
                reveal_strlit("Octal");
                reveal_strlit("OCTAL");
            }
        }
        r
    }

    /// The accepted spellings of this radix's name, as display text.
    pub fn description(&self) -> (r: &'static str)
        ensures
            self is Binary ==> r@ == "b, bin, or binary"@,
            self is Decimal ==> r@ == "d, dec, or decimal"@,
            self is Hexadecimal ==> r@ == "h, hex, or hexadecimal"@,
            self is Octal ==> r@ == "o, oct, or octal"@,
    {
        match *self {
            Radix::Binary => "b, bin, or binary",
            Radix::Decimal => "d, dec, or decimal",
            Radix::Hexadecimal => "h, hex, or hexadecimal",
            Radix::Octal => "o, oct, or octal",
        }
    }

    /// Selects the radix named by `s`, without regard to case.
    pub fn from_str(s: &str) -> (r: Result<Radix, &'static str>)
        ensures
            r is Ok <==> parse_radix(s@) is Some,
            r is Ok ==> r->Ok_0 == parse_radix(s@)->Some_0,
    {
        if eq_ignore_case(s, "b") || eq_ignore_case(s, "bin") || eq_ignore_case(s, "binary") {
            Ok(Radix::Binary)
        } else if eq_ignore_case(s, "d") || eq_ignore_case(s, "dec") || eq_ignore_case(
            s,
            "decimal",
        ) {
            Ok(Radix::Decimal)
        } else if eq_ignore_case(s, "h") || eq_ignore_case(s, "hex") || eq_ignore_case(
            s,
            "hexadecimal",
        ) {
            Ok(Radix::Hexadecimal)
        } else if eq_ignore_case(s, "o") || eq_ignore_case(s, "oct") || eq_ignore_case(
            s,
            "octal",
        ) {
            Ok(Radix::Octal)
        } else {
            Err("No match")
        }
    }
}

} // verus!
