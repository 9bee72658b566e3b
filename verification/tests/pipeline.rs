use std::f32::consts::TAU;

use singen::encode::{samples_to_bytes, total_byte_count};
use singen::wav::create_wav_file_array;
use singen::width::SampleWidth;

/// The floating-point front half of the pipeline, as the generator runs it:
/// sample the phase accumulator, then advance by the instantaneous
/// frequency and wrap, and quantize each value against the width's bound.
fn quantized_chirp(
    f0: f32,
    f1: f32,
    sample_rate: f32,
    duration_secs: f32,
    width: SampleWidth,
) -> Vec<i32> {
    let max_val = width.max_magnitude() as f32;
    let num_samples = if duration_secs == 0.0 {
        0
    } else {
        (duration_secs * sample_rate).round() as usize
    };
    let dt = 1.0 / sample_rate;
    let mut samples = Vec::with_capacity(num_samples);
    let mut phase: f32 = 0.0;
    for i in 0..num_samples {
        let t = i as f32 * dt;
        let freq = if duration_secs == 0.0 {
            f0
        } else {
            f0 + (f1 - f0) * (t / duration_secs)
        };
        samples.push((phase.sin() * max_val).round() as i32);
        phase += TAU * freq * dt;
        phase = phase.rem_euclid(TAU);
    }
    samples
}

#[test]
fn one_millisecond_tone_at_16khz_mono() {
    // 1000 Hz, 16000 Hz rate, 1 channel, 16-bit, 1 ms.
    let q = quantized_chirp(1000.0, 1000.0, 16000.0, 0.001, SampleWidth::Width2Byte);
    assert_eq!(q.len(), 16);
    let buf = samples_to_bytes(&q, 1, SampleWidth::Width2Byte);
    assert_eq!(buf.len(), 32);
    assert_eq!(total_byte_count(16, 1, SampleWidth::Width2Byte), 32);
    // First sample is round(sin(0) * 32767) = 0, little-endian 0x00 0x00.
    assert_eq!(&buf[0..2], &[0x00, 0x00]);
}

#[test]
fn zero_frequency_tone_is_silence() {
    let q = quantized_chirp(0.0, 0.0, 48000.0, 0.01, SampleWidth::Width2Byte);
    assert_eq!(q.len(), 480);
    assert!(q.iter().all(|&s| s == 0));
    let buf = samples_to_bytes(&q, 2, SampleWidth::Width2Byte);
    assert_eq!(buf.len(), 1920);
    assert!(buf.iter().all(|&b| b == 0));
}

#[test]
fn phase_stays_wrapped_over_long_runs() {
    // The front half wraps the accumulator each step; over 20000 samples the
    // quantized values must stay within the symmetric bound, which fails if
    // the phase were allowed to grow without wrapping precision.
    let q = quantized_chirp(997.0, 1003.0, 16000.0, 1.25, SampleWidth::Width2Byte);
    assert_eq!(q.len(), 20000);
    assert!(q.iter().all(|&s| -32767 <= s && s <= 32767));
}

#[test]
fn degenerate_chirp_equals_steady_tone() {
    // A sweep from 100 Hz to 100 Hz recomputes the instantaneous frequency
    // each step but must produce the constant-increment tone's samples.
    let sweep = quantized_chirp(100.0, 100.0, 16000.0, 0.05, SampleWidth::Width2Byte);
    let max_val = SampleWidth::Width2Byte.max_magnitude() as f32;
    let incr = TAU * 100.0 / 16000.0;
    let mut phase: f32 = 0.0;
    let mut tone = Vec::new();
    for _ in 0..800 {
        tone.push((phase.sin() * max_val).round() as i32);
        phase += incr;
        phase = phase.rem_euclid(TAU);
    }
    assert_eq!(sweep.len(), tone.len());
    for (a, b) in sweep.iter().zip(tone.iter()) {
        assert!((a - b).abs() <= 1);
    }
}

#[test]
fn zero_duration_gives_empty_buffer_and_zero_counts() {
    let q = quantized_chirp(440.0, 440.0, 16000.0, 0.0, SampleWidth::Width2Byte);
    assert_eq!(q.len(), 0);
    let buf = samples_to_bytes(&q, 2, SampleWidth::Width2Byte);
    assert_eq!(buf.len(), 0);
    assert_eq!(total_byte_count(0, 2, SampleWidth::Width2Byte), 0);
}

#[test]
fn full_pipeline_to_wav_container() {
    let q = quantized_chirp(440.0, 440.0, 44100.0, 0.001, SampleWidth::Width2Byte);
    assert_eq!(q.len(), 44);
    let buf = samples_to_bytes(&q, 2, SampleWidth::Width2Byte);
    assert_eq!(buf.len(), 176);
    let file = create_wav_file_array(&buf, 44100, 2, SampleWidth::Width2Byte);
    assert_eq!(file.len(), 220);
    assert_eq!(&file[4..8], &[(176u8 + 36), 0, 0, 0]); // chunk_size = 212
    assert_eq!(&file[44..46], &[0x00, 0x00]); // first sample, sin(0)
}
