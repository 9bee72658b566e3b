use singen::wav::{create_wav_file_array, WavHeader};
use singen::width::SampleWidth;

#[test]
fn new_header_holds_the_documented_defaults() {
    let h = WavHeader::new();
    assert_eq!(h.chunk_id, 0x46464952); // "RIFF"
    assert_eq!(h.chunk_size, 0);
    assert_eq!(h.format, 0x45564157); // "WAVE"
    assert_eq!(h.subchunk_1_id, 0x20746d66); // "fmt "
    assert_eq!(h.subchunk_1_size, 16);
    assert_eq!(h.audio_format, 1);
    assert_eq!(h.num_channels, 1);
    assert_eq!(h.sample_rate, 44100);
    assert_eq!(h.byte_rate, 176400);
    assert_eq!(h.block_align, 2);
    assert_eq!(h.bits_per_sample, 16);
    assert_eq!(h.subchunk_2_id, 0x61746164); // "data"
    assert_eq!(h.subchunk_2_size, 0);
}

#[test]
fn header_serializes_to_44_packed_bytes() {
    let bytes = WavHeader::new().to_bytes();
    assert_eq!(bytes.len(), 44);
    assert_eq!(&bytes[0..4], b"RIFF");
    assert_eq!(&bytes[8..12], b"WAVE");
    assert_eq!(&bytes[12..16], b"fmt ");
    assert_eq!(&bytes[36..40], b"data");
    assert_eq!(&bytes[16..20], &[16, 0, 0, 0]); // subchunk_1_size
    assert_eq!(&bytes[20..22], &[1, 0]); // PCM
    assert_eq!(&bytes[24..28], &[0x44, 0xAC, 0x00, 0x00]); // 44100
    assert_eq!(&bytes[28..32], &[0x10, 0xB1, 0x02, 0x00]); // 176400
}

#[test]
fn container_fields_derive_from_size_and_format() {
    // Eight data bytes at 44100 Hz, stereo, 16-bit.
    let data: Vec<u8> = vec![1, 2, 3, 4, 5, 6, 7, 8];
    let file = create_wav_file_array(&data, 44100, 2, SampleWidth::Width2Byte);
    assert_eq!(file.len(), 52);
    assert_eq!(&file[0..4], b"RIFF");
    assert_eq!(&file[4..8], &[44, 0, 0, 0]); // chunk_size = 36 + 8
    assert_eq!(&file[8..12], b"WAVE");
    assert_eq!(&file[12..16], b"fmt ");
    assert_eq!(&file[16..20], &[16, 0, 0, 0]);
    assert_eq!(&file[20..22], &[1, 0]); // PCM
    assert_eq!(&file[22..24], &[2, 0]); // stereo
    assert_eq!(&file[24..28], &[0x44, 0xAC, 0x00, 0x00]); // 44100
    assert_eq!(&file[28..32], &[0x10, 0xB1, 0x02, 0x00]); // byte_rate 176400
    assert_eq!(&file[32..34], &[4, 0]); // block_align
    assert_eq!(&file[34..36], &[16, 0]); // bits_per_sample
    assert_eq!(&file[36..40], b"data");
    assert_eq!(&file[40..44], &[8, 0, 0, 0]); // subchunk_2_size
    assert_eq!(&file[44..], &data[..]);
}

#[test]
fn empty_buffer_still_makes_a_full_header() {
    let file = create_wav_file_array(&[], 16000, 1, SampleWidth::Width3Byte);
    assert_eq!(file.len(), 44);
    assert_eq!(&file[4..8], &[36, 0, 0, 0]); // chunk_size = 36 + 0
    assert_eq!(&file[22..24], &[1, 0]); // mono
    assert_eq!(&file[24..28], &[0x80, 0x3E, 0x00, 0x00]); // 16000
    assert_eq!(&file[28..32], &[0x80, 0xBB, 0x00, 0x00]); // 16000 * 1 * 3 = 48000
    assert_eq!(&file[32..34], &[3, 0]); // block_align
    assert_eq!(&file[34..36], &[24, 0]); // bits_per_sample
    assert_eq!(&file[40..44], &[0, 0, 0, 0]);
}

#[test]
fn wide_formats_fill_the_rate_fields() {
    let data: Vec<u8> = vec![0; 16];
    let file = create_wav_file_array(&data, 48000, 2, SampleWidth::Width4Byte);
    // byte_rate = 48000 * 2 * 4 = 384000 = 0x05DC00
    assert_eq!(&file[28..32], &[0x00, 0xDC, 0x05, 0x00]);
    assert_eq!(&file[32..34], &[8, 0]); // block_align = 2 * 4
    assert_eq!(&file[34..36], &[32, 0]); // bits_per_sample
}
