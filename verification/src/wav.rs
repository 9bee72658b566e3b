//! Minimal canonical-form WAV container: RIFF/WAVE, PCM, one `fmt ` chunk
//! and one `data` chunk, no extension chunks.
//!
//! The header is a packed 44-byte record. Serialization writes each field at
//! its documented offset with its exact width, all multi-byte fields
//! little-endian; the four-character tags are stored as FourCC codes, the
//! `u32` whose little-endian bytes are the tag's ASCII characters.

use vstd::prelude::*;

use crate::le_bytes::{
    le_bytes_of, le_value, lemma_le_value_roundtrip, push_le_u16, push_le_u32,
};
use crate::width::SampleWidth;

verus! {

/// The 44-byte RIFF/WAVE PCM header, field by field.
pub struct WavHeader {
    /// FourCC `RIFF`, at offset 0.
    pub chunk_id: u32,
    /// Size of everything after this field: `36 +` data size, at offset 4.
    pub chunk_size: u32,
    /// FourCC `WAVE`, at offset 8.
    pub format: u32,
    /// FourCC `fmt `, at offset 12.
    pub subchunk_1_id: u32,
    /// Size of the format subchunk: always 16, at offset 16.
    pub subchunk_1_size: u32,
    /// 1 for integer PCM, at offset 20.
    pub audio_format: u16,
    /// Channel count, at offset 22.
    pub num_channels: u16,
    /// Frames per second, at offset 24.
    pub sample_rate: u32,
    /// Bytes per second of audio, at offset 28.
    pub byte_rate: u32,
    /// Bytes per multi-channel sample frame, at offset 32.
    pub block_align: u16,
    /// Bits in one sample, at offset 34.
    pub bits_per_sample: u16,
    /// FourCC `data`, at offset 36.
    pub subchunk_2_id: u32,
    /// Size of the PCM data that follows, at offset 40.
    pub subchunk_2_size: u32,
}

impl WavHeader {
    /// The packed 44-byte serialization of this header.
    pub open spec fn header_bytes(self) -> Seq<u8> {
        le_bytes_of(self.chunk_id as int, 4) + le_bytes_of(self.chunk_size as int, 4)
            + le_bytes_of(self.format as int, 4) + le_bytes_of(self.subchunk_1_id as int, 4)
            + le_bytes_of(self.subchunk_1_size as int, 4) + le_bytes_of(
            self.audio_format as int,
            2,
        ) + le_bytes_of(self.num_channels as int, 2) + le_bytes_of(self.sample_rate as int, 4)
            + le_bytes_of(self.byte_rate as int, 4) + le_bytes_of(self.block_align as int, 2)
            + le_bytes_of(self.bits_per_sample as int, 2) + le_bytes_of(
            self.subchunk_2_id as int,
            4,
        ) + le_bytes_of(self.subchunk_2_size as int, 4)
    }

    /// A header with the CD-style defaults: mono 16-bit PCM at 44100 Hz and
    /// no data yet. Callers overwrite the size and format fields before
    /// serializing.
    pub fn new() -> (h: WavHeader)
        ensures
            h.chunk_id == 0x46464952,
            h.chunk_size == 0,
            h.format == 0x45564157,
            h.subchunk_1_id == 0x20746d66,
            h.subchunk_1_size == 16,
            h.audio_format == 1,
            h.num_channels == 1,
            h.sample_rate == 44100,
            h.byte_rate == 176400,
            h.block_align == 2,
            h.bits_per_sample == 16,
            h.subchunk_2_id == 0x61746164,
            h.subchunk_2_size == 0,
    {
        WavHeader {
            chunk_id: 0x46464952,  // "RIFF"
            chunk_size: 0,
            format: 0x45564157,  // "WAVE"
            subchunk_1_id: 0x20746d66,  // "fmt "
            subchunk_1_size: 16,
            audio_format: 0x0001,  // integer PCM
            num_channels: 1,
            sample_rate: 44100,
            byte_rate: 176400,
            block_align: 2,
            bits_per_sample: 16,
            subchunk_2_id: 0x61746164,  // "data"
            subchunk_2_size: 0,
        }
    }

    /// Serialize the header into its packed 44-byte form.
    pub fn to_bytes(&self) -> (buf: Vec<u8>)
        ensures
            buf@ == self.header_bytes(),
            buf@.len() == 44,
    {
        let mut buf: Vec<u8> = Vec::new();
        push_le_u32(&mut buf, self.chunk_id);
        push_le_u32(&mut buf, self.chunk_size);
        push_le_u32(&mut buf, self.format);
        push_le_u32(&mut buf, self.subchunk_1_id);
        push_le_u32(&mut buf, self.subchunk_1_size);
        push_le_u16(&mut buf, self.audio_format);
        push_le_u16(&mut buf, self.num_channels);
        push_le_u32(&mut buf, self.sample_rate);
        push_le_u32(&mut buf, self.byte_rate);
        push_le_u16(&mut buf, self.block_align);
        push_le_u16(&mut buf, self.bits_per_sample);
        push_le_u32(&mut buf, self.subchunk_2_id);
        push_le_u32(&mut buf, self.subchunk_2_size);
        proof {
            assert(buf@ =~= self.header_bytes());
        }
        buf
    }
}

/// The header that describes a data chunk of `data_len` bytes in the given
/// format.
pub open spec fn wav_header_for(
    data_len: int,
    sample_rate: u32,
    channels: u16,
    sample_width: SampleWidth,
) -> WavHeader
    recommends
        0 <= data_len,
        36 + data_len <= u32::MAX,
        sample_rate * channels * sample_width.spec_byte_count() <= u32::MAX,
        channels * sample_width.spec_byte_count() <= u16::MAX,
{
    WavHeader {
        chunk_id: 0x46464952,
        chunk_size: (36 + data_len) as u32,
        format: 0x45564157,
        subchunk_1_id: 0x20746d66,
        subchunk_1_size: 16,
        audio_format: 1,
        num_channels: channels,
        sample_rate: sample_rate,
        byte_rate: (sample_rate * channels * sample_width.spec_byte_count()) as u32,
        block_align: (channels * sample_width.spec_byte_count()) as u16,
        bits_per_sample: (sample_width.spec_byte_count() * 8) as u16,
        subchunk_2_id: 0x61746164,
        subchunk_2_size: data_len as u32,
    }
}

/// A complete minimal WAV file: the 44-byte header followed by the data
/// chunk verbatim.
pub open spec fn wav_file_bytes(
    data: Seq<u8>,
    sample_rate: u32,
    channels: u16,
    sample_width: SampleWidth,
) -> Seq<u8> {
    wav_header_for(data.len() as int, sample_rate, channels, sample_width).header_bytes() + data
}

/// Wrap an encoded byte buffer in a minimal WAV container: a 44-byte header
/// whose fields are derived from the buffer size and format parameters,
/// followed by the buffer verbatim.
pub fn create_wav_file_array(
    buffer: &[u8],
    sample_rate: u32,
    channels: u16,
    sample_width: SampleWidth,
) -> (file: Vec<u8>)
    requires
        36 + buffer@.len() <= u32::MAX,
        sample_rate * channels * sample_width.spec_byte_count() <= u32::MAX,
        channels * sample_width.spec_byte_count() <= u16::MAX,
    ensures
        file@ == wav_file_bytes(buffer@, sample_rate, channels, sample_width),
        file@.len() == 44 + buffer@.len(),
{
    let width16: u16 = sample_width.byte_count() as u16;
    let buffer_len: usize = buffer.len();

    let mut wav_hdr = WavHeader::new();
    wav_hdr.chunk_size = 36 + buffer_len as u32;
    wav_hdr.num_channels = channels;
    wav_hdr.sample_rate = sample_rate;
    proof {
        assert(sample_rate * channels <= sample_rate * channels * sample_width.spec_byte_count()
            && channels <= channels * sample_width.spec_byte_count()) by (nonlinear_arith)
            requires
                2 <= sample_width.spec_byte_count(),
                0 <= sample_rate,
                0 <= channels,
        ;
    }
    wav_hdr.byte_rate = sample_rate * (channels as u32) * (width16 as u32);
    wav_hdr.block_align = channels * width16;
    wav_hdr.bits_per_sample = width16 * 8;
    wav_hdr.subchunk_2_size = buffer_len as u32;
    proof {
        assert(wav_hdr == wav_header_for(
            buffer@.len() as int,
            sample_rate,
            channels,
            sample_width,
        ));
    }

    let mut file = wav_hdr.to_bytes();
    let mut i: usize = 0;
    while i < buffer_len
        invariant
            buffer_len == buffer@.len(),
            i <= buffer_len,
            file@ == wav_hdr.header_bytes() + buffer@.take(i as int),
        decreases buffer_len - i,
    {
        file.push(buffer[i]);
        proof {
            assert(file@ =~= wav_hdr.header_bytes() + buffer@.take(i as int + 1));
        }
        i = i + 1;
    }
    proof {
        assert(buffer@.take(buffer@.len() as int) =~= buffer@);
    }
    file
}

/// Container round-trip law: every field of the produced header reads back,
/// from its documented offset, width and byte order, as the value derived
/// from the data size and format parameters, and the data chunk follows the
/// header verbatim.
pub proof fn lemma_wav_header_fields(
    data: Seq<u8>,
    sample_rate: u32,
    channels: u16,
    sample_width: SampleWidth,
)
    requires
        36 + data.len() <= u32::MAX,
        sample_rate * channels * sample_width.spec_byte_count() <= u32::MAX,
        channels * sample_width.spec_byte_count() <= u16::MAX,
    ensures
        ({
            let f = wav_file_bytes(data, sample_rate, channels, sample_width);
            &&& f.len() == 44 + data.len()
            &&& f.subrange(0, 4) == seq![0x52u8, 0x49u8, 0x46u8, 0x46u8]  // "RIFF"
            &&& le_value(f.subrange(4, 8)) == 36 + data.len()
            &&& f.subrange(8, 12) == seq![0x57u8, 0x41u8, 0x56u8, 0x45u8]  // "WAVE"
            &&& f.subrange(12, 16) == seq![0x66u8, 0x6du8, 0x74u8, 0x20u8]  // "fmt "
            &&& le_value(f.subrange(16, 20)) == 16
            &&& le_value(f.subrange(20, 22)) == 1
            &&& le_value(f.subrange(22, 24)) == channels
            &&& le_value(f.subrange(24, 28)) == sample_rate
            &&& le_value(f.subrange(28, 32)) == sample_rate * channels
                * sample_width.spec_byte_count()
            &&& le_value(f.subrange(32, 34)) == channels * sample_width.spec_byte_count()
            &&& le_value(f.subrange(34, 36)) == sample_width.spec_byte_count() * 8
            &&& f.subrange(36, 40) == seq![0x64u8, 0x61u8, 0x74u8, 0x61u8]  // "data"
            &&& le_value(f.subrange(40, 44)) == data.len()
            &&& f.skip(44) == data
        }),
{
    let h = wav_header_for(data.len() as int, sample_rate, channels, sample_width);
    let f = wav_file_bytes(data, sample_rate, channels, sample_width);
    assert(f.len() == 44 + data.len());

    assert(f.subrange(0, 4) =~= le_bytes_of(0x46464952, 4));
    assert(f.subrange(0, 4) =~= seq![0x52u8, 0x49u8, 0x46u8, 0x46u8]);
    assert(f.subrange(8, 12) =~= le_bytes_of(0x45564157, 4));
    assert(f.subrange(8, 12) =~= seq![0x57u8, 0x41u8, 0x56u8, 0x45u8]);
    assert(f.subrange(12, 16) =~= le_bytes_of(0x20746d66, 4));
    assert(f.subrange(12, 16) =~= seq![0x66u8, 0x6du8, 0x74u8, 0x20u8]);
    assert(f.subrange(36, 40) =~= le_bytes_of(0x61746164, 4));
    assert(f.subrange(36, 40) =~= seq![0x64u8, 0x61u8, 0x74u8, 0x61u8]);

    assert(f.subrange(4, 8) =~= le_bytes_of(h.chunk_size as int, 4));
    lemma_le_value_roundtrip(h.chunk_size as int, 4);
    assert(f.subrange(16, 20) =~= le_bytes_of(h.subchunk_1_size as int, 4));
    lemma_le_value_roundtrip(h.subchunk_1_size as int, 4);
    assert(f.subrange(20, 22) =~= le_bytes_of(h.audio_format as int, 2));
    lemma_le_value_roundtrip(h.audio_format as int, 2);
    assert(f.subrange(22, 24) =~= le_bytes_of(h.num_channels as int, 2));
    lemma_le_value_roundtrip(h.num_channels as int, 2);
    assert(f.subrange(24, 28) =~= le_bytes_of(h.sample_rate as int, 4));
    lemma_le_value_roundtrip(h.sample_rate as int, 4);
    assert(f.subrange(28, 32) =~= le_bytes_of(h.byte_rate as int, 4));
    lemma_le_value_roundtrip(h.byte_rate as int, 4);
    assert(f.subrange(32, 34) =~= le_bytes_of(h.block_align as int, 2));
    lemma_le_value_roundtrip(h.block_align as int, 2);
    assert(f.subrange(34, 36) =~= le_bytes_of(h.bits_per_sample as int, 2));
    lemma_le_value_roundtrip(h.bits_per_sample as int, 2);
    assert(f.subrange(40, 44) =~= le_bytes_of(h.subchunk_2_size as int, 4));
    lemma_le_value_roundtrip(h.subchunk_2_size as int, 4);

    assert(f.skip(44) =~= data);
}

} // verus!
