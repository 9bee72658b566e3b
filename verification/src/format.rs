//! Output format selection.

use vstd::prelude::*;

use crate::text::{eq_ignore_ascii_case, lower_code, str_eq_ignore_case};

verus! {

/// How a generated byte buffer is presented.
#[derive(Clone, Copy, Debug, PartialEq, Eq, Structural)]
pub enum OutputFormat {
    /// Hexadecimal values, sixteen bytes per line.
    Hex,
    /// A C-style array declaration.
    CArray,
    /// A Rust array declaration.
    RustArray,
    /// The raw bytes, verbatim.
    RawBytes,
    /// Buffer information only, no data.
    Info,
    /// A minimal WAV file.
    WavFile,
}

impl OutputFormat {
    /// Parse a format keyword, ignoring ASCII case.
    pub fn from_str(s: &str) -> (r: Option<OutputFormat>)
        ensures
            (r == Some(OutputFormat::Hex)) <==> eq_ignore_ascii_case(s@, "hex"@),
            (r == Some(OutputFormat::CArray)) <==> (eq_ignore_ascii_case(s@, "carray"@)
                || eq_ignore_ascii_case(s@, "c"@)),
            (r == Some(OutputFormat::RustArray)) <==> (eq_ignore_ascii_case(s@, "rustarray"@)
                || eq_ignore_ascii_case(s@, "rust"@)),
            (r == Some(OutputFormat::RawBytes)) <==> (eq_ignore_ascii_case(s@, "raw"@)
                || eq_ignore_ascii_case(s@, "bytes"@)),
            (r == Some(OutputFormat::Info)) <==> eq_ignore_ascii_case(s@, "info"@),
            (r == Some(OutputFormat::WavFile)) <==> eq_ignore_ascii_case(s@, "wav"@),
            r is None <==> !(eq_ignore_ascii_case(s@, "hex"@) || eq_ignore_ascii_case(s@, "carray"@)
                || eq_ignore_ascii_case(s@, "c"@) || eq_ignore_ascii_case(s@, "rustarray"@)
                || eq_ignore_ascii_case(s@, "rust"@) || eq_ignore_ascii_case(s@, "raw"@)
                || eq_ignore_ascii_case(s@, "bytes"@) || eq_ignore_ascii_case(s@, "info"@)
                || eq_ignore_ascii_case(s@, "wav"@)),
    {
        proof {
            lemma_keywords_distinct(s@);
        }
        if str_eq_ignore_case(s, "hex") {
            Some(OutputFormat::Hex)
        } else if str_eq_ignore_case(s, "carray") || str_eq_ignore_case(s, "c") {
            Some(OutputFormat::CArray)
        } else if str_eq_ignore_case(s, "rustarray") || str_eq_ignore_case(s, "rust") {
            Some(OutputFormat::RustArray)
        } else if str_eq_ignore_case(s, "raw") || str_eq_ignore_case(s, "bytes") {
            Some(OutputFormat::RawBytes)
        } else if str_eq_ignore_case(s, "info") {
            Some(OutputFormat::Info)
        } else if str_eq_ignore_case(s, "wav") {
            Some(OutputFormat::WavFile)
        } else {
            None
        }
    }
}

/// No string matches two different format keywords: the keywords have
/// pairwise different lengths or differ in some folded character.
proof fn lemma_keywords_distinct(s: Seq<char>)
    ensures
        eq_ignore_ascii_case(s, "hex"@) ==> !(eq_ignore_ascii_case(s, "carray"@)
            || eq_ignore_ascii_case(s, "c"@) || eq_ignore_ascii_case(s, "rustarray"@)
            || eq_ignore_ascii_case(s, "rust"@) || eq_ignore_ascii_case(s, "raw"@)
            || eq_ignore_ascii_case(s, "bytes"@) || eq_ignore_ascii_case(s, "info"@)
            || eq_ignore_ascii_case(s, "wav"@)),
        eq_ignore_ascii_case(s, "carray"@) || eq_ignore_ascii_case(s, "c"@) ==> !(
        eq_ignore_ascii_case(s, "rustarray"@) || eq_ignore_ascii_case(s, "rust"@)
            || eq_ignore_ascii_case(s, "raw"@) || eq_ignore_ascii_case(s, "bytes"@)
            || eq_ignore_ascii_case(s, "info"@) || eq_ignore_ascii_case(s, "wav"@)),
        eq_ignore_ascii_case(s, "rustarray"@) || eq_ignore_ascii_case(s, "rust"@) ==> !(
        eq_ignore_ascii_case(s, "raw"@) || eq_ignore_ascii_case(s, "bytes"@)
            || eq_ignore_ascii_case(s, "info"@) || eq_ignore_ascii_case(s, "wav"@)),
        eq_ignore_ascii_case(s, "raw"@) || eq_ignore_ascii_case(s, "bytes"@) ==> !(
        eq_ignore_ascii_case(s, "info"@) || eq_ignore_ascii_case(s, "wav"@)),
        eq_ignore_ascii_case(s, "info"@) ==> !eq_ignore_ascii_case(s, "wav"@),
{
    reveal_strlit("hex");
    reveal_strlit("carray");
    reveal_strlit("c");
    reveal_strlit("rustarray");
    reveal_strlit("rust");
    reveal_strlit("raw");
    reveal_strlit("bytes");
    reveal_strlit("info");
    reveal_strlit("wav");
    if s.len() == 3 {
        assert(eq_ignore_ascii_case(s, "hex"@) ==> lower_code(s[0]) == lower_code("hex"@[0]));
        assert(eq_ignore_ascii_case(s, "raw"@) ==> lower_code(s[0]) == lower_code("raw"@[0]));
        assert(eq_ignore_ascii_case(s, "wav"@) ==> lower_code(s[0]) == lower_code("wav"@[0]));
        assert(lower_code("hex"@[0]) == 104 && lower_code("raw"@[0]) == 114 && lower_code("wav"@[0])
            == 119);
    }
    if s.len() == 4 {
        assert(eq_ignore_ascii_case(s, "rust"@) ==> lower_code(s[0]) == lower_code("rust"@[0]));
        assert(eq_ignore_ascii_case(s, "info"@) ==> lower_code(s[0]) == lower_code("info"@[0]));
        assert(lower_code("rust"@[0]) == 114 && lower_code("info"@[0]) == 105);
    }
}

} // verus!
