use lame::{required_buffer_size, Id3Tag, LameEncoder, LameError, Quality};

fn stereo_session(rate: i32, bitrate: i32) -> LameEncoder {
    LameEncoder::builder()
        .and_then(|b| b.sample_rate(rate))
        .and_then(|b| b.channels(2))
        .and_then(|b| b.bitrate(bitrate))
        .and_then(|b| b.quality(Quality::Standard))
        .and_then(|b| b.build())
        .expect("stereo session must finalize")
}

fn mono_session(rate: i32, bitrate: i32) -> LameEncoder {
    LameEncoder::builder()
        .and_then(|b| b.sample_rate(rate))
        .and_then(|b| b.channels(1))
        .and_then(|b| b.bitrate(bitrate))
        .and_then(|b| b.build())
        .expect("mono session must finalize")
}

#[test]
fn valid_rate_channel_combinations_finalize_and_encode() {
    let sample_rates = [8000, 11025, 12000, 16000, 22050, 24000, 32000, 44100, 48000];

    for &rate in &sample_rates {
        for &channels in &[1, 2] {
            let mut encoder = LameEncoder::builder()
                .and_then(|b| b.sample_rate(rate))
                .and_then(|b| b.channels(channels))
                .and_then(|b| b.bitrate(64))
                .and_then(|b| b.quality(Quality::Standard))
                .and_then(|b| b.build())
                .expect(&format!("{} Hz with {} channels must finalize", rate, channels));

            let pcm = vec![0i16; 1152];
            let mut out = vec![0u8; required_buffer_size(1152)];
            encoder
                .encode(&pcm, &pcm, &mut out)
                .expect(&format!("{} Hz with {} channels must encode", rate, channels));
        }
    }
}

#[test]
fn valid_bitrate_combinations_finalize_and_encode() {
    let mpeg1_bitrates = [32, 40, 48, 64, 80, 96, 112, 128, 160, 192, 224, 256, 320];
    let mpeg2_bitrates = [8, 16, 24];

    for &kbps in &mpeg1_bitrates {
        let mut encoder = stereo_session(44100, kbps);
        let pcm = vec![0i16; 1152];
        let mut out = vec![0u8; required_buffer_size(1152)];
        encoder
            .encode(&pcm, &pcm, &mut out)
            .expect(&format!("{} kbps at 44100 Hz must encode", kbps));
    }
    for &kbps in &mpeg2_bitrates {
        let mut encoder = stereo_session(22050, kbps);
        let pcm = vec![0i16; 1152];
        let mut out = vec![0u8; required_buffer_size(1152)];
        encoder
            .encode(&pcm, &pcm, &mut out)
            .expect(&format!("{} kbps at 22050 Hz must encode", kbps));
    }
}

#[test]
fn valid_quality_combinations_finalize_and_encode() {
    let qualities = [
        Quality::Best,
        Quality::High,
        Quality::Good,
        Quality::Standard,
        Quality::Fast,
        Quality::Fastest,
    ];

    for &quality in &qualities {
        let mut encoder = LameEncoder::builder()
            .and_then(|b| b.sample_rate(44100))
            .and_then(|b| b.channels(2))
            .and_then(|b| b.bitrate(128))
            .and_then(|b| b.quality(quality))
            .and_then(|b| b.build())
            .expect(&format!("quality {:?} must finalize", quality));

        let pcm = vec![0i16; 1152];
        let mut out = vec![0u8; required_buffer_size(1152)];
        encoder
            .encode(&pcm, &pcm, &mut out)
            .expect(&format!("quality {:?} must encode", quality));
    }
}

#[test]
fn stereo_length_mismatch_rejected_without_output() {
    let mut encoder = stereo_session(44100, 128);

    let left = vec![1i16; 1152];
    let right = vec![1i16; 576];
    let mut out = vec![0xAAu8; 4096];
    let before = out.clone();

    match encoder.encode(&left, &right, &mut out) {
        Err(LameError::InvalidInput(msg)) => {
            assert_eq!(msg, "Left and right channel lengths must match");
        },
        other => panic!("expected InvalidInput, got {:?}", other),
    }
    assert_eq!(out, before, "a rejected call must write nothing");

    let equal = vec![1i16; 576];
    encoder
        .encode(&left[..576].to_vec(), &equal, &mut out)
        .expect("the session stays usable after a rejected call");
}

#[test]
fn buffer_law_mono_sweep() {
    for &n in &[0usize, 1, 1152, 4096, 44100] {
        let mut encoder = mono_session(44100, 128);
        let pcm = vec![0i16; n];
        let mut out = vec![0u8; required_buffer_size(n)];

        let r = encoder.encode_mono(&pcm, &mut out);
        assert!(
            !matches!(r, Err(LameError::EncodingFailed(-1))),
            "a buffer of required_buffer_size({}) ran out of capacity",
            n
        );
        assert!(r.is_ok(), "mono encode of {} samples failed: {:?}", n, r);
    }
}

#[test]
fn required_buffer_size_exact_values() {
    assert_eq!(required_buffer_size(0), 7200);
    assert_eq!(required_buffer_size(1), 7202);
    assert_eq!(required_buffer_size(3), 7204);
    assert_eq!(required_buffer_size(4), 7205);
    assert_eq!(required_buffer_size(1152), 8640);
    assert_eq!(required_buffer_size(4096), 12320);
    assert_eq!(required_buffer_size(44100), 62325);
}

#[test]
fn abandoned_stages_release_cleanly() {
    for _ in 0..10000 {
        let stage = LameEncoder::builder()
            .and_then(|b| b.sample_rate(44100))
            .and_then(|b| b.channels(2))
            .expect("allocate and configure a stage");
        drop(stage);
    }
}

fn run_stereo_scenario() -> usize {
    let mut encoder = stereo_session(44100, 192);
    let left = vec![0i16; 1152];
    let right = vec![0i16; 1152];
    let mut out = vec![0u8; required_buffer_size(1152)];

    let mut total = 0;
    for _ in 0..1000 {
        total += encoder.encode(&left, &right, &mut out).expect("encode a frame");
    }
    let mut flush_buf = vec![0u8; 7200];
    total += encoder.flush(&mut flush_buf).expect("flush");
    total
}

#[test]
fn scenario_thousand_silent_frames_consistent() {
    let first = run_stereo_scenario();
    let second = run_stereo_scenario();
    assert!(first > 0);
    assert_eq!(first, second, "identical input must give a consistent byte count");
}

#[test]
fn scenario_tagged_mono_stream_starts_with_tag_block() {
    let stage = LameEncoder::builder()
        .and_then(|b| b.sample_rate(44100))
        .and_then(|b| b.channels(1))
        .and_then(|b| b.bitrate(128))
        .expect("configure a mono stage");

    let mut tag = Id3Tag::new(stage);
    tag.title("T").expect("set title");
    tag.artist("A").expect("set artist");
    tag.track(1);
    let mut encoder = tag
        .apply()
        .expect("commit the tag chain")
        .build()
        .expect("finalize the tagged session");

    let pcm = vec![0i16; 1152];
    let mut out = vec![0u8; required_buffer_size(1152)];
    let n = encoder.encode_mono(&pcm, &mut out).expect("encode one frame");

    let mut stream = out[..n].to_vec();
    let mut flush_buf = vec![0u8; 7200];
    let m = encoder.flush(&mut flush_buf).expect("flush");
    stream.extend_from_slice(&flush_buf[..m]);

    assert!(stream.len() >= 3);
    assert_eq!(&stream[..3], b"ID3", "the tag block must lead the stream");
}

#[test]
fn tag_rechain_replaces_previous_fields() {
    let stage = LameEncoder::builder()
        .and_then(|b| b.sample_rate(44100))
        .and_then(|b| b.channels(1))
        .and_then(|b| b.bitrate(128))
        .expect("configure a mono stage");

    let mut first = Id3Tag::new(stage);
    first.title("ZZTITLEZZ").expect("set title");
    let stage = first.apply().expect("commit the first chain");

    let mut second = Id3Tag::new(stage);
    second.artist("QQARTISTQQ").expect("set artist");
    let mut encoder = second
        .apply()
        .expect("commit the second chain")
        .build()
        .expect("finalize");

    let pcm = vec![0i16; 1152];
    let mut out = vec![0u8; required_buffer_size(1152)];
    let n = encoder.encode_mono(&pcm, &mut out).expect("encode one frame");
    let mut stream = out[..n].to_vec();
    let mut flush_buf = vec![0u8; 7200];
    let m = encoder.flush(&mut flush_buf).expect("flush");
    stream.extend_from_slice(&flush_buf[..m]);

    let contains = |needle: &[u8]| stream.windows(needle.len()).any(|w| w == needle);
    assert!(contains(b"QQARTISTQQ"), "the second chain's field must be in the tag block");
    assert!(
        !contains(b"ZZTITLEZZ"),
        "rewriting the tag block must clear the first chain's fields"
    );
}

#[test]
fn scenario_mono_call_on_stereo_session_is_safe() {
    let mut encoder = stereo_session(44100, 128);
    let pcm = vec![0i16; 1152];
    let mut out = vec![0u8; required_buffer_size(1152)];

    let r = encoder.encode_mono(&pcm, &mut out);
    assert!(
        matches!(r, Ok(_) | Err(LameError::EncodingFailed(_))),
        "unexpected outcome: {:?}",
        r
    );
    // Observed: the native layer tolerates the missing second channel by
    // consuming no samples and writing nothing.
    assert_eq!(r, Ok(0));
}

#[test]
fn interleaved_odd_length_drops_trailing_sample() {
    let mut encoder = stereo_session(44100, 128);
    let even = vec![0i16; 2304];
    let mut out_even = vec![0u8; required_buffer_size(1152)];
    let n_even = encoder
        .encode_interleaved(&even, &mut out_even)
        .expect("even-length interleaved encode");

    let mut encoder2 = stereo_session(44100, 128);
    let odd = vec![0i16; 2305];
    let mut out_odd = vec![0u8; required_buffer_size(1152)];
    let n_odd = encoder2
        .encode_interleaved(&odd, &mut out_odd)
        .expect("odd-length interleaved encode");

    assert_eq!(n_even, n_odd, "a trailing odd sample is dropped, not encoded");
}

#[test]
fn flush_can_be_called_again() {
    let mut encoder = mono_session(44100, 128);
    let pcm = vec![0i16; 1152];
    let mut out = vec![0u8; required_buffer_size(1152)];
    encoder.encode_mono(&pcm, &mut out).expect("encode");

    let mut flush_buf = vec![0u8; 7200];
    let first = encoder.flush(&mut flush_buf).expect("first flush");
    assert!(first > 0, "the delayed final frames come out on flush");
    let again = encoder.flush(&mut flush_buf).expect("second flush");
    println!("second flush: {} bytes", again);
}

fn one_second_mono_bytes(kbps: i32) -> usize {
    let mut encoder = mono_session(44100, kbps);
    let pcm = vec![0i16; 44100];
    let mut out = vec![0u8; required_buffer_size(44100)];
    let mut total = encoder.encode_mono(&pcm, &mut out).expect("encode one second");
    let mut flush_buf = vec![0u8; 7200];
    total += encoder.flush(&mut flush_buf).expect("flush");
    total
}

#[test]
fn bitrate_governs_output_density() {
    let low = one_second_mono_bytes(32);
    let high = one_second_mono_bytes(320);
    assert!(
        high > 2 * low,
        "one second at 320 kbps ({} bytes) must far exceed 32 kbps ({} bytes)",
        high,
        low
    );
}

#[test]
fn setter_rejections_name_the_parameter() {
    let b = LameEncoder::builder().expect("stage");
    match b.sample_rate(0).err() {
        Some(LameError::InvalidParameter(name)) => assert_eq!(name, "sample_rate"),
        other => panic!("expected InvalidParameter, got {:?}", other),
    }

    let b = LameEncoder::builder().expect("stage");
    match b.channels(3).err() {
        Some(LameError::InvalidParameter(name)) => assert_eq!(name, "channels"),
        other => panic!("expected InvalidParameter, got {:?}", other),
    }

    let b = LameEncoder::builder().expect("stage");
    match b.bitrate(100).err() {
        Some(LameError::InvalidParameter(name)) => assert_eq!(name, "bitrate"),
        other => panic!("expected InvalidParameter, got {:?}", other),
    }

    let b = LameEncoder::builder().expect("stage");
    match b.vbr_quality(10).err() {
        Some(LameError::InvalidParameter(name)) => assert_eq!(name, "vbr_quality"),
        other => panic!("expected InvalidParameter, got {:?}", other),
    }
}

#[test]
fn tag_text_with_embedded_terminator_rejected() {
    let stage = LameEncoder::builder().expect("stage");
    let mut tag = Id3Tag::new(stage);

    match tag.title("bad\0title") {
        Err(LameError::InvalidInput(msg)) => assert_eq!(msg, "String contains null byte"),
        other => panic!("expected InvalidInput, got {:?}", other),
    }

    tag.title("good title").expect("a clean text is accepted");
    let stage = tag.apply().expect("commit");
    stage.build().expect("the stage survives a rejected tag text");
}

#[test]
fn zero_length_buffer_rejected_before_native_call() {
    let mut encoder = stereo_session(44100, 128);
    let pcm = vec![0i16; 1152];
    let mut empty: Vec<u8> = Vec::new();

    let expected = LameError::BufferTooSmall { required: 1, provided: 0 };
    assert_eq!(encoder.encode(&pcm, &pcm, &mut empty), Err(expected.clone()));
    assert_eq!(encoder.encode_interleaved(&pcm, &mut empty), Err(expected.clone()));
    assert_eq!(encoder.encode_mono(&pcm, &mut empty), Err(expected.clone()));
    assert_eq!(encoder.flush(&mut empty), Err(expected));
    assert!(empty.is_empty());

    let mut out = vec![0u8; required_buffer_size(1152)];
    encoder
        .encode(&pcm, &pcm, &mut out)
        .expect("the session stays usable after the rejections");
}

#[test]
fn undersized_buffer_reports_encoding_failed() {
    let mut encoder = mono_session(44100, 128);
    let pcm = vec![0i16; 4096];
    let mut out = vec![0u8; 16];

    match encoder.encode_mono(&pcm, &mut out) {
        Err(LameError::EncodingFailed(code)) => {
            assert!(code < 0);
            assert_eq!(code, -1, "an undersized buffer is the buffer-too-small code");
        },
        other => panic!("expected EncodingFailed, got {:?}", other),
    }

    let mut big = vec![0u8; required_buffer_size(4096)];
    encoder
        .encode_mono(&pcm, &mut big)
        .expect("the session stays usable after an undersized buffer");
}
