//! Serialization of quantized PCM samples into an interleaved byte buffer.
//!
//! A quantized sample is a signed integer; the quantizer keeps its
//! magnitude within the width's positive bound, and nothing here checks or
//! clips it (out-of-range values wrap, an accepted limitation). Each sample
//! contributes its low `width` bytes in little-endian order, repeated once
//! per channel (channels carry identical content), frame-major: sample 0
//! channel 0, sample 0 channel 1, sample 1 channel 0, and so on.

use vstd::prelude::*;

use crate::le_bytes::{
    le_bytes_of, le_modulus, le_signed_value, le_value, lemma_le_value_of_bytes, push_le_bytes,
    sign_threshold,
};
use crate::width::SampleWidth;

verus! {

/// The unsigned 32-bit (two's complement) code of a quantized sample.
pub open spec fn code_of(q: i32) -> int {
    if q >= 0 {
        q as int
    } else {
        q as int + 0x1_0000_0000
    }
}

/// The bytes one sample contributes per channel: its low `width` bytes,
/// least significant first.
pub open spec fn sample_bytes(q: i32, width: int) -> Seq<u8>
    recommends
        2 <= width <= 4,
{
    le_bytes_of(code_of(q), width)
}

/// The bytes one sample frame contributes: the sample's bytes once per
/// channel.
pub open spec fn frame_bytes(q: i32, channels: int, width: int) -> Seq<u8>
    recommends
        channels == 1 || channels == 2,
        2 <= width <= 4,
{
    if channels == 2 {
        sample_bytes(q, width) + sample_bytes(q, width)
    } else {
        sample_bytes(q, width)
    }
}

/// The full interleaved byte buffer of a quantized sample sequence.
pub open spec fn encoded_bytes(samples: Seq<i32>, channels: int, width: int) -> Seq<u8>
    recommends
        channels == 1 || channels == 2,
        2 <= width <= 4,
    decreases samples.len(),
{
    if samples.len() == 0 {
        Seq::empty()
    } else {
        frame_bytes(samples[0], channels, width) + encoded_bytes(
            samples.drop_first(),
            channels,
            width,
        )
    }
}

/// Appending a sample to the sequence appends exactly its frame to the
/// encoding.
pub proof fn lemma_encoded_snoc(samples: Seq<i32>, q: i32, channels: int, width: int)
    ensures
        encoded_bytes(samples.push(q), channels, width) == encoded_bytes(samples, channels, width)
            + frame_bytes(q, channels, width),
    decreases samples.len(),
{
    let s1 = samples.push(q);
    if samples.len() == 0 {
        assert(s1.len() == 1 && s1[0] == q);
        assert(s1.drop_first() =~= Seq::<i32>::empty());
        assert(encoded_bytes(s1.drop_first(), channels, width).len() == 0);
        assert(encoded_bytes(samples, channels, width).len() == 0);
        assert(encoded_bytes(s1, channels, width) =~= encoded_bytes(samples, channels, width)
            + frame_bytes(q, channels, width));
    } else {
        assert(s1[0] == samples[0]);
        assert(s1.drop_first() =~= samples.drop_first().push(q));
        lemma_encoded_snoc(samples.drop_first(), q, channels, width);
        assert(encoded_bytes(s1, channels, width) == frame_bytes(samples[0], channels, width) + (
        encoded_bytes(samples.drop_first(), channels, width) + frame_bytes(q, channels, width)));
        assert(encoded_bytes(s1, channels, width) =~= encoded_bytes(samples, channels, width)
            + frame_bytes(q, channels, width));
    }
}

/// The buffer holds `width` bytes per sample per channel: the length law of
/// every valid configuration.
pub proof fn lemma_encoded_len(samples: Seq<i32>, channels: int, width: int)
    requires
        channels == 1 || channels == 2,
        2 <= width <= 4,
    ensures
        encoded_bytes(samples, channels, width).len() == samples.len() * channels * width,
    decreases samples.len(),
{
    if samples.len() == 0 {
    } else {
        lemma_encoded_len(samples.drop_first(), channels, width);
        assert(frame_bytes(samples[0], channels, width).len() == channels * width);
        assert(samples.len() * channels * width == channels * width + (samples.len() - 1) * channels
            * width) by (nonlinear_arith);
        assert(encoded_bytes(samples, channels, width).len() == channels * width + (samples.len()
            - 1) * channels * width);
    }
}

/// Quantization round trip: a sample whose magnitude is within the width's
/// positive bound is recovered exactly by reading its encoded bytes back as
/// a little-endian two's complement integer. In particular the positive
/// extreme maps to the bound itself, never past it.
pub proof fn lemma_sample_roundtrip(q: i32, sample_width: SampleWidth)
    requires
        -sample_width.spec_max_magnitude() <= q <= sample_width.spec_max_magnitude(),
    ensures
        le_signed_value(sample_bytes(q, sample_width.spec_byte_count())) == q,
{
    let width = sample_width.spec_byte_count();
    let m = le_modulus(width);
    let t = sign_threshold(width);
    let code = code_of(q);
    assert(m == 2 * t);
    lemma_le_value_of_bytes(code, width);
    assert(sample_bytes(q, width).len() == width);
    if q >= 0 {
        vstd::arithmetic::div_mod::lemma_small_mod(q as nat, m as nat);
        assert(le_value(sample_bytes(q, width)) == q);
    } else {
        let k = if width == 2 {
            65536int
        } else if width == 3 {
            256int
        } else {
            1int
        };
        assert(code == m * k + q);
        vstd::arithmetic::div_mod::lemma_mod_multiples_vanish(k, q as int, m);
        vstd::arithmetic::div_mod::lemma_fundamental_div_mod_converse(q as int, m, -1, q + m);
        assert(le_value(sample_bytes(q, width)) == q + m);
    }
}

/// Silence law: a run of all-zero samples encodes to all-zero bytes, and
/// every sample decoded back from such a buffer is zero.
pub proof fn lemma_silence(samples: Seq<i32>, channels: int, width: int)
    requires
        channels == 1 || channels == 2,
        2 <= width <= 4,
        forall|i: int| 0 <= i < samples.len() ==> samples[i] == 0,
    ensures
        forall|k: int|
            0 <= k < encoded_bytes(samples, channels, width).len() ==> encoded_bytes(
                samples,
                channels,
                width,
            )[k] == 0,
    decreases samples.len(),
{
    if samples.len() == 0 {
    } else {
        assert(samples[0] == 0);
        assert(code_of(0) == 0);
        assert forall|j: int| 0 <= j < width implies sample_bytes(0i32, width)[j] == 0 by {
            assert(0int % 256 == 0 && 0int / 256 == 0 && 0int / 65536 == 0 && 0int / 16777216
                == 0);
        }
        let rest = samples.drop_first();
        assert(forall|i: int| 0 <= i < rest.len() ==> rest[i] == 0);
        lemma_silence(rest, channels, width);
        let f = frame_bytes(samples[0], channels, width);
        let e = encoded_bytes(samples, channels, width);
        assert(e == f + encoded_bytes(rest, channels, width));
        assert forall|k: int| 0 <= k < e.len() implies e[k] == 0 by {
            if k < f.len() {
                if channels == 2 && k >= width {
                    assert(f[k] == sample_bytes(samples[0], width)[k - width]);
                }
                assert(f[k] == 0);
            } else {
                assert(e[k] == encoded_bytes(rest, channels, width)[k - f.len()]);
                assert(encoded_bytes(rest, channels, width)[k - f.len()] == 0);
            }
        }
    }
}

/// Frame layout law: the bytes of frame `i` stand at offset
/// `i * channels * width`, so the buffer is frame-major.
pub proof fn lemma_frame_layout(samples: Seq<i32>, channels: int, width: int, i: int)
    requires
        channels == 1 || channels == 2,
        2 <= width <= 4,
        0 <= i < samples.len(),
    ensures
        encoded_bytes(samples, channels, width).subrange(
            i * channels * width,
            (i + 1) * channels * width,
        ) == frame_bytes(samples[i], channels, width),
    decreases i,
{
    let e = encoded_bytes(samples, channels, width);
    let fw = channels * width;
    lemma_encoded_len(samples, channels, width);
    assert(samples.len() * channels * width >= (i + 1) * channels * width) by (nonlinear_arith)
        requires
            samples.len() >= i + 1,
            channels * width > 0,
    ;
    assert(i * fw == i * channels * width && (i + 1) * fw == (i + 1) * channels * width && (i - 1)
        * fw == (i - 1) * channels * width && samples.len() * fw == samples.len() * channels * width
        && (samples.len() - 1) * fw == (samples.len() - 1) * channels * width) by (nonlinear_arith)
        requires
            fw == channels * width,
    ;
    let rest = samples.drop_first();
    let f = frame_bytes(samples[0], channels, width);
    assert(f.len() == fw);
    assert(e == f + encoded_bytes(rest, channels, width));
    if i == 0 {
        assert(i * channels * width == 0 && (i + 1) * channels * width == channels * width)
            by (nonlinear_arith)
            requires
                i == 0,
        ;
        assert(e.subrange(i * channels * width, (i + 1) * channels * width) =~= f);
    } else {
        lemma_frame_layout(rest, channels, width, i - 1);
        lemma_encoded_len(rest, channels, width);
        assert(i * channels * width == (i - 1) * channels * width + channels * width && (i + 1)
            * channels * width == i * channels * width + channels * width && 0 <= (i - 1) * channels
            * width) by (nonlinear_arith)
            requires
                1 <= i,
                1 <= channels,
                2 <= width,
        ;
        let r = encoded_bytes(rest, channels, width);
        assert((samples.len() - 1) * channels * width >= i * channels * width) by (nonlinear_arith)
            requires
                samples.len() >= i + 1,
                1 <= channels,
                2 <= width,
        ;
        assert(rest.len() == samples.len() - 1);
        assert(r.len() == (samples.len() - 1) * channels * width);
        assert(r.len() >= i * fw);
        assert(e.subrange(i * fw, (i + 1) * fw) =~= r.subrange((i - 1) * fw, i * fw));
        assert(rest[i - 1] == samples[i]);
    }
}

/// Degenerate duration law: no samples means an empty buffer, with no error
/// anywhere on the way.
pub proof fn lemma_empty_signal(channels: int, width: int)
    ensures
        encoded_bytes(Seq::<i32>::empty(), channels, width) == Seq::<u8>::empty(),
{
}

/// The two's complement code of a sample, as a machine word.
fn code_u32(q: i32) -> (code: u32)
    ensures
        code as int == code_of(q),
{
    if q >= 0 {
        q as u32
    } else {
        let wide: i64 = (q as i64) + 0x1_0000_0000i64;
        wide as u32
    }
}

/// Serialize quantized samples into the interleaved little-endian byte
/// buffer: `width` bytes per sample, repeated once per channel, frame-major.
pub fn samples_to_bytes(samples: &Vec<i32>, channels: u8, sample_width: SampleWidth) -> (buf: Vec<
    u8,
>)
    requires
        channels == 1 || channels == 2,
    ensures
        buf@ == encoded_bytes(samples@, channels as int, sample_width.spec_byte_count()),
        buf@.len() == samples@.len() * channels * sample_width.spec_byte_count(),
{
    let width: usize = sample_width.byte_count() as usize;
    let mut buf: Vec<u8> = Vec::new();
    let mut i: usize = 0;
    while i < samples.len()
        invariant
            channels == 1 || channels == 2,
            2 <= width <= 4,
            width == sample_width.spec_byte_count(),
            i <= samples@.len(),
            buf@ == encoded_bytes(samples@.take(i as int), channels as int, width as int),
        decreases samples@.len() - i,
    {
        let q: i32 = samples[i];
        let code: u32 = code_u32(q);
        let ghost prev = buf@;
        push_le_bytes(&mut buf, code, width);
        if channels == 2 {
            push_le_bytes(&mut buf, code, width);
        }
        proof {
            assert(buf@ =~= prev + frame_bytes(q, channels as int, width as int));
            lemma_encoded_snoc(samples@.take(i as int), q, channels as int, width as int);
            assert(samples@.take(i as int).push(q) =~= samples@.take(i as int + 1));
        }
        i = i + 1;
    }
    proof {
        assert(samples@.take(samples@.len() as int) =~= samples@);
        lemma_encoded_len(samples@, channels as int, width as int);
    }
    buf
}

/// The byte count of a buffer of `total_samples` frames: `width` bytes per
/// sample per channel.
pub fn total_byte_count(total_samples: usize, channels: u8, sample_width: SampleWidth) -> (n:
    usize)
    requires
        channels == 1 || channels == 2,
        total_samples * channels * sample_width.spec_byte_count() <= usize::MAX,
    ensures
        n == total_samples * channels * sample_width.spec_byte_count(),
{
    let width: usize = sample_width.byte_count() as usize;
    proof {
        assert(total_samples * channels <= total_samples * channels * width
            && total_samples * channels * width == (total_samples * channels) * width)
            by (nonlinear_arith)
            requires
                2 <= width,
                0 <= total_samples,
                1 <= channels <= 2,
        ;
    }
    total_samples * (channels as usize) * width
}

} // verus!
