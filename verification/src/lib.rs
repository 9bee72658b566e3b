//! Deterministic audio test-vector construction: fixed-point sample widths,
//! quantized-sample byte encoding with channel interleaving, and minimal WAV
//! container serialization, with machine-checked contracts over the byte
//! layout.
//!
//! Floating-point signal synthesis (the sine/chirp oscillator) lives outside
//! this library; it hands the library already-quantized integer samples.

pub mod encode;
pub mod format;
pub mod le_bytes;
pub mod text;
pub mod wav;
pub mod width;
