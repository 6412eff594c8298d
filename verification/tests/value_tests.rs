use rxtd::audio::{get_sample_length, sample_length_of_tracks, SampleLengthError, TrackInfo};
use rxtd::{float_is_nonzero, float_to_u8, FloatBits};

fn bits(x: f64) -> FloatBits {
    FloatBits { bits: x.to_bits() }
}

#[test]
fn nonzero_values() {
    assert!(!float_is_nonzero(bits(0.0)));
    assert!(!float_is_nonzero(bits(-0.0)));
    assert!(float_is_nonzero(bits(1.0)));
    assert!(float_is_nonzero(bits(-2.5)));
    assert!(float_is_nonzero(bits(1e-310)));
    assert!(float_is_nonzero(bits(f64::NAN)));
    assert!(float_is_nonzero(bits(f64::INFINITY)));
}

#[test]
fn conversion_to_u8_matches_as() {
    let values = [
        0.0, -0.0, 0.3, 0.999, 1.0, 1.5, 2.0, 7.9, 15.0, 127.99, 128.0, 200.5, 254.999, 255.0,
        255.5, 256.0, 1e9, -0.5, -3.0, -1e9, 1e-310, f64::NAN, -f64::NAN, f64::INFINITY,
        f64::NEG_INFINITY, f64::MAX, f64::MIN_POSITIVE,
    ];
    for x in values {
        assert_eq!(float_to_u8(bits(x)), x as u8, "value {x}");
    }
    for k in 0..2600 {
        let x = k as f64 / 10.0;
        assert_eq!(float_to_u8(bits(x)), x as u8, "value {x}");
    }
}

fn wav(frames: u32) -> Vec<u8> {
    let data_len = frames * 2;
    let mut v = Vec::new();
    v.extend_from_slice(b"RIFF");
    v.extend_from_slice(&(36 + data_len).to_le_bytes());
    v.extend_from_slice(b"WAVE");
    v.extend_from_slice(b"fmt ");
    v.extend_from_slice(&16u32.to_le_bytes());
    v.extend_from_slice(&1u16.to_le_bytes());
    v.extend_from_slice(&1u16.to_le_bytes());
    v.extend_from_slice(&8000u32.to_le_bytes());
    v.extend_from_slice(&16000u32.to_le_bytes());
    v.extend_from_slice(&2u16.to_le_bytes());
    v.extend_from_slice(&16u16.to_le_bytes());
    v.extend_from_slice(b"data");
    v.extend_from_slice(&data_len.to_le_bytes());
    v.extend(std::iter::repeat(0u8).take(data_len as usize));
    v
}

#[test]
fn sample_length_of_a_wav_file() {
    assert_eq!(get_sample_length(wav(100)), Ok(100));
    assert_eq!(get_sample_length(wav(1)), Ok(1));
}

#[test]
fn sample_length_of_garbage_is_a_probe_error() {
    match get_sample_length(vec![1, 2, 3, 4, 5, 6, 7, 8]) {
        Err(SampleLengthError::Probe(message)) => assert!(!message.is_empty()),
        other => panic!("unexpected {:?}", other),
    }
}

#[test]
fn first_decodable_track_gives_the_length() {
    let null = TrackInfo { null_codec: true, frames: Some(5) };
    let unknown = TrackInfo { null_codec: false, frames: None };
    let known = TrackInfo { null_codec: false, frames: Some(42) };
    assert_eq!(sample_length_of_tracks(&vec![]), None);
    assert_eq!(sample_length_of_tracks(&vec![null]), None);
    assert_eq!(sample_length_of_tracks(&vec![null, known, unknown]), Some(42));
    assert_eq!(sample_length_of_tracks(&vec![unknown, known]), Some(0));
}
