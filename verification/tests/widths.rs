use singen::width::SampleWidth;

#[test]
fn from_str_accepts_the_three_depths() {
    assert_eq!(SampleWidth::from_str("16"), Some(SampleWidth::Width2Byte));
    assert_eq!(SampleWidth::from_str("24"), Some(SampleWidth::Width3Byte));
    assert_eq!(SampleWidth::from_str("32"), Some(SampleWidth::Width4Byte));
}

#[test]
fn from_str_rejects_everything_else() {
    assert_eq!(SampleWidth::from_str(""), None);
    assert_eq!(SampleWidth::from_str("8"), None);
    assert_eq!(SampleWidth::from_str("15"), None);
    assert_eq!(SampleWidth::from_str("48"), None);
    assert_eq!(SampleWidth::from_str("sixteen"), None);
    assert_eq!(SampleWidth::from_str("16 "), None);
}

#[test]
fn to_str_names_the_bit_depth() {
    assert_eq!(SampleWidth::Width2Byte.to_str(), "16");
    assert_eq!(SampleWidth::Width3Byte.to_str(), "24");
    assert_eq!(SampleWidth::Width4Byte.to_str(), "32");
}

#[test]
fn to_str_round_trips_through_from_str() {
    for w in [
        SampleWidth::Width2Byte,
        SampleWidth::Width3Byte,
        SampleWidth::Width4Byte,
    ] {
        assert_eq!(SampleWidth::from_str(w.to_str()), Some(w));
    }
}

#[test]
fn byte_counts() {
    assert_eq!(SampleWidth::Width2Byte.byte_count(), 2);
    assert_eq!(SampleWidth::Width3Byte.byte_count(), 3);
    assert_eq!(SampleWidth::Width4Byte.byte_count(), 4);
}

#[test]
fn max_magnitudes_are_the_symmetric_bounds() {
    assert_eq!(SampleWidth::Width2Byte.max_magnitude(), 32767);
    assert_eq!(SampleWidth::Width3Byte.max_magnitude(), 8388607);
    assert_eq!(SampleWidth::Width4Byte.max_magnitude(), 2147483647);
}

#[test]
fn full_amplitude_quantizes_to_the_bound() {
    // Amplitude 1.0 scaled by each width's bound lands exactly on the bound,
    // never one past it.
    let q2 = (1.0f32 * SampleWidth::Width2Byte.max_magnitude() as f32).round() as i32;
    assert_eq!(q2, 32767);
    let q3 = (1.0f32 * SampleWidth::Width3Byte.max_magnitude() as f32).round() as i32;
    assert_eq!(q3, 8388607);
    let q4 = (1.0f32 * SampleWidth::Width4Byte.max_magnitude() as f32).round() as i32;
    assert_eq!(q4, 2147483647);
}
