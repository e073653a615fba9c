use echo_capture::engine::{
    parse_audio_source, source_label, AudioCapture, CaptureError, SourceStartError,
};
use echo_capture::mix::AudioSource;
use echo_capture::sample::FULL_SCALE;
use echo_capture::wav::HEADER_LEN;

#[test]
fn status_while_idle_is_empty() {
    let engine = AudioCapture::new();
    let status = engine.status(12345);
    assert!(!status.is_recording);
    assert_eq!(status.recording_id, None);
    assert_eq!(status.duration_ms, 0);
    assert_eq!(status.source, None);
}

#[test]
fn stop_without_active_session_is_not_recording() {
    let mut engine = AudioCapture::new();
    let r = engine.stop(vec![], vec![], 500);
    assert!(matches!(r, Err(CaptureError::NotRecording)));
    assert!(!engine.is_recording());
}

#[test]
fn second_start_is_already_recording_and_keeps_first_session() {
    let mut engine = AudioCapture::new();
    engine
        .start("first".to_string(), AudioSource::Microphone, "a.wav".to_string(), 100)
        .unwrap();
    let r = engine.start(
        "second".to_string(),
        AudioSource::Both,
        "b.wav".to_string(),
        200,
    );
    assert!(matches!(r, Err(CaptureError::AlreadyRecording)));
    let status = engine.status(300);
    assert!(status.is_recording);
    assert_eq!(status.recording_id.as_deref(), Some("first"));
    assert_eq!(status.source.as_deref(), Some("Microphone"));
    assert_eq!(status.duration_ms, 200);
}

#[test]
fn start_feed_stop_produces_the_recording() {
    let mut engine = AudioCapture::new();
    engine
        .start("r1".to_string(), AudioSource::Microphone, "out/r1.wav".to_string(), 1000)
        .unwrap();

    // Feed the microphone buffer the way the audio callback does, then
    // drain it at stop time.
    let n = 1000usize;
    let chunk: Vec<i32> = (0..n).map(|i| (i as i32 % 200) - 100).collect();
    let mut buffer = echo_capture::buffer::BoundedSampleBuffer::new();
    buffer.append(&chunk);
    let mic = buffer.drain();
    assert_eq!(mic.len(), n);

    let fin = engine.stop(mic, vec![], 3500).unwrap();
    assert_eq!(fin.result.recording_id, "r1");
    assert_eq!(fin.result.output_path, "out/r1.wav");
    assert_eq!(fin.result.duration_ms, 2500);
    assert_eq!(fin.file_bytes.len(), HEADER_LEN + 2 * n);
    assert_eq!(fin.result.file_size_bytes, fin.file_bytes.len() as u64);
    assert!(!engine.is_recording());

    // The engine is free again for the next session.
    assert!(engine
        .start("r2".to_string(), AudioSource::System, "out/r2.wav".to_string(), 4000)
        .is_ok());
}

#[test]
fn stop_mixes_for_dual_origin_sessions() {
    let mut engine = AudioCapture::new();
    engine
        .start("mixed".to_string(), AudioSource::Both, "m.wav".to_string(), 0)
        .unwrap();
    let mic = vec![FULL_SCALE, -FULL_SCALE];
    let sys = vec![FULL_SCALE];
    let fin = engine.stop(mic, sys, 10).unwrap();
    // Mixed samples [1.0, -0.5] encode to [32767, -16383].
    assert_eq!(&fin.file_bytes[44..46], &[0xFF, 0x7F]);
    let lo = fin.file_bytes[46];
    let hi = fin.file_bytes[47];
    assert_eq!(i16::from_le_bytes([lo, hi]), -16383);
}

#[test]
fn stop_with_empty_buffers_still_produces_a_file() {
    let mut engine = AudioCapture::new();
    engine
        .start("silent".to_string(), AudioSource::System, "s.wav".to_string(), 7)
        .unwrap();
    let fin = engine.stop(vec![], vec![], 7).unwrap();
    assert_eq!(fin.result.duration_ms, 0);
    assert_eq!(fin.file_bytes.len(), HEADER_LEN);
    assert_eq!(fin.result.file_size_bytes, HEADER_LEN as u64);
}

#[test]
fn status_duration_is_monotone_while_recording() {
    let mut engine = AudioCapture::new();
    engine
        .start("r".to_string(), AudioSource::Microphone, "r.wav".to_string(), 100)
        .unwrap();
    let d1 = engine.status(150).duration_ms;
    let d2 = engine.status(150).duration_ms;
    let d3 = engine.status(400).duration_ms;
    assert_eq!(d1, 50);
    assert!(d2 >= d1);
    assert!(d3 >= d2);
    assert_eq!(d3, 300);
}

#[test]
fn abort_start_clears_the_session_and_maps_the_error() {
    let mut engine = AudioCapture::new();
    engine
        .start("r".to_string(), AudioSource::Microphone, "r.wav".to_string(), 0)
        .unwrap();
    let err = engine.abort_start(SourceStartError::DeviceUnavailable);
    assert_eq!(err, CaptureError::DeviceUnavailable);
    assert!(!engine.is_recording());

    engine
        .start("r".to_string(), AudioSource::Both, "r.wav".to_string(), 0)
        .unwrap();
    let err = engine.abort_start(SourceStartError::StreamInitFailed);
    assert_eq!(err, CaptureError::StreamInitFailed);
    assert!(!engine.is_recording());
}

#[test]
fn start_origin_rejects_unknown_origin_strings() {
    let mut engine = AudioCapture::new();
    let r = engine.start_origin("r".to_string(), "radio", "r.wav".to_string(), 0);
    assert!(matches!(r, Err(CaptureError::InvalidSource)));
    assert!(!engine.is_recording());
}

#[test]
fn start_origin_accepts_the_three_origin_names() {
    for (origin, label) in [
        ("microphone", "Microphone"),
        ("system", "System"),
        ("both", "Both"),
    ] {
        let mut engine = AudioCapture::new();
        engine
            .start_origin("r".to_string(), origin, "r.wav".to_string(), 0)
            .unwrap();
        assert_eq!(engine.status(0).source.as_deref(), Some(label));
    }
}

#[test]
fn parse_audio_source_recognizes_exactly_the_three_origins() {
    assert_eq!(parse_audio_source("microphone"), Some(AudioSource::Microphone));
    assert_eq!(parse_audio_source("system"), Some(AudioSource::System));
    assert_eq!(parse_audio_source("both"), Some(AudioSource::Both));
    assert_eq!(parse_audio_source(""), None);
    assert_eq!(parse_audio_source("Microphone"), None);
    assert_eq!(parse_audio_source("bogus"), None);
}

#[test]
fn source_labels_match_the_origin() {
    assert_eq!(source_label(AudioSource::Microphone), "Microphone");
    assert_eq!(source_label(AudioSource::System), "System");
    assert_eq!(source_label(AudioSource::Both), "Both");
}

#[test]
fn error_messages_describe_each_variant() {
    assert_eq!(CaptureError::AlreadyRecording.message(), "Already recording");
    assert_eq!(CaptureError::NotRecording.message(), "Not recording");
    assert_eq!(CaptureError::InvalidSource.message(), "Invalid audio source");
    assert_eq!(
        CaptureError::DeviceUnavailable.message(),
        "No input device available"
    );
    assert_eq!(
        CaptureError::StreamInitFailed.message(),
        "Failed to build the audio stream"
    );
    assert_eq!(CaptureError::AlreadyRunning.message(), "Already capturing");
    assert_eq!(
        CaptureError::EncodeFailed.message(),
        "Failed to write the output file"
    );
}

#[test]
fn default_engine_is_idle() {
    let engine = AudioCapture::default();
    assert!(!engine.is_recording());
}
