//! Sample widths for fixed-point PCM encoding.

use vstd::prelude::*;

use crate::text::str_eq;

verus! {

/// Audio sample width.
///
/// Stored in number of bytes per sample.
#[derive(Clone, Copy, Debug, PartialEq, Eq, Structural)]
pub enum SampleWidth {
    /// 16 bit audio
    Width2Byte,
    /// 24 bit audio
    Width3Byte,
    /// 32 bit audio
    Width4Byte,
}

impl SampleWidth {
    /// Number of bytes one sample occupies.
    pub open spec fn spec_byte_count(self) -> int {
        match self {
            SampleWidth::Width2Byte => 2,
            SampleWidth::Width3Byte => 3,
            SampleWidth::Width4Byte => 4,
        }
    }

    /// Largest positive magnitude of the symmetric quantization range:
    /// `2^(8 * width - 1) - 1`, the standard signed-integer positive bound.
    /// The negative extreme of the signed range is deliberately unused so
    /// that encoding stays symmetric and headroom-safe.
    pub open spec fn spec_max_magnitude(self) -> int {
        match self {
            SampleWidth::Width2Byte => 32767,
            SampleWidth::Width3Byte => 8388607,
            SampleWidth::Width4Byte => 2147483647,
        }
    }

    /// Number of bytes one sample occupies.
    pub fn byte_count(&self) -> (n: u8)
        ensures
            n == self.spec_byte_count(),
    {
        match self {
            SampleWidth::Width2Byte => 2,
            SampleWidth::Width3Byte => 3,
            SampleWidth::Width4Byte => 4,
        }
    }

    /// Largest positive quantized value for this width.
    pub fn max_magnitude(&self) -> (m: i32)
        ensures
            m == self.spec_max_magnitude(),
    {
        match self {
            SampleWidth::Width2Byte => 32767,
            SampleWidth::Width3Byte => 8388607,
            SampleWidth::Width4Byte => 2147483647,
        }
    }

    /// Parse from string (16, 24, 32)
    pub fn from_str(s: &str) -> (r: Option<SampleWidth>)
        ensures
            (r == Some(SampleWidth::Width2Byte)) <==> s@ == "16"@,
            (r == Some(SampleWidth::Width3Byte)) <==> s@ == "24"@,
            (r == Some(SampleWidth::Width4Byte)) <==> s@ == "32"@,
            r is None <==> !(s@ == "16"@ || s@ == "24"@ || s@ == "32"@),
    {
        proof {
            reveal_strlit("16");
            reveal_strlit("24");
            reveal_strlit("32");
            assert("16"@[0] == '1' && "24"@[0] == '2' && "32"@[0] == '3');
            assert("16"@ != "24"@ && "16"@ != "32"@ && "24"@ != "32"@);
        }
        if str_eq(s, "16") {
            Some(SampleWidth::Width2Byte)
        } else if str_eq(s, "24") {
            Some(SampleWidth::Width3Byte)
        } else if str_eq(s, "32") {
            Some(SampleWidth::Width4Byte)
        } else {
            None
        }
    }

    /// The bit-depth label of this width.
    pub open spec fn spec_str(self) -> Seq<char> {
        match self {
            SampleWidth::Width2Byte => "16"@,
            SampleWidth::Width3Byte => "24"@,
            SampleWidth::Width4Byte => "32"@,
        }
    }

    /// Get string representation
    pub fn to_str(&self) -> (r: &'static str)
        ensures
            r@ == self.spec_str(),
    {
        match self {
            SampleWidth::Width2Byte => "16",
            SampleWidth::Width3Byte => "24",
            SampleWidth::Width4Byte => "32",
        }
    }
}

} // verus!
