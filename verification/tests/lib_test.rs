use lame::{get_lame_url, get_lame_version, LameEncoder, Quality};

#[test]
fn test_lame_version() {
    let version = get_lame_version();
    assert!(!version.is_empty());
    println!("LAME version: {}", version);
}

#[test]
fn test_lame_url() {
    let url = get_lame_url();
    assert!(!url.is_empty());
    println!("LAME URL: {}", url);
}

#[test]
fn test_encoder_creation() {
    let result = LameEncoder::builder()
        .and_then(|b| b.sample_rate(44100))
        .and_then(|b| b.channels(2))
        .and_then(|b| b.bitrate(128))
        .and_then(|b| b.quality(Quality::Standard))
        .and_then(|b| b.build());

    assert!(result.is_ok());
}

#[test]
fn test_encode_basic() {
    let mut encoder = LameEncoder::builder()
        .and_then(|b| b.sample_rate(44100))
        .and_then(|b| b.channels(2))
        .and_then(|b| b.bitrate(128))
        .and_then(|b| b.build())
        .unwrap();

    let samples = vec![0i16; 1152];
    let mut mp3_buffer = vec![0u8; 8192];

    let result = encoder.encode(&samples, &samples, &mut mp3_buffer);
    assert!(result.is_ok());
}
