//! The capture engine facade: session bookkeeping for `start`, `stop` and
//! `status`, and the finalization of a stopped recording.
//!
//! At most one capture session is active at a time: `start` refuses a second
//! session, `stop` refuses when none is active. The engine works on plain
//! values — the unverified shell owns the platform streams, feeds sample
//! chunks into each session's [`crate::buffer::BoundedSampleBuffer`], reads a
//! monotonic clock in milliseconds, and hands `stop` the drained buffers.
//! `stop` combines them per the session's origin, encodes the result, and
//! returns the finished recording together with the complete WAV file bytes,
//! which the shell writes to the session's output path.

use crate::buffer::MAX_BUFFER_SAMPLES;
use crate::mix::{combine_sources, encode_samples, spec_combined, spec_encode_all, AudioSource};
use crate::wav::{render_wav, spec_wav_file, HEADER_LEN};
use vstd::prelude::*;

verus! {

/// The engine's error taxonomy: caller misuse (`AlreadyRecording`,
/// `NotRecording`, `AlreadyRunning`), device absence or stream setup failure
/// surfaced by `start`, input validation (`InvalidSource`), and file write
/// failure surfaced by `stop` (`EncodeFailed`).
#[derive(Clone, Copy, Debug, PartialEq, Eq, Structural)]
pub enum CaptureError {
    AlreadyRecording,
    NotRecording,
    InvalidSource,
    DeviceUnavailable,
    StreamInitFailed,
    AlreadyRunning,
    EncodeFailed,
}

/// Why a capture source failed to start.
#[derive(Clone, Copy, Debug, PartialEq, Eq, Structural)]
pub enum SourceStartError {
    DeviceUnavailable,
    StreamInitFailed,
}

/// The engine error that surfaces a source's start failure.
pub open spec fn spec_source_error(e: SourceStartError) -> CaptureError {
    match e {
        SourceStartError::DeviceUnavailable => CaptureError::DeviceUnavailable,
        SourceStartError::StreamInitFailed => CaptureError::StreamInitFailed,
    }
}

/// The description each error carries to the caller.
pub open spec fn spec_message(e: CaptureError) -> Seq<char> {
    match e {
        CaptureError::AlreadyRecording => "Already recording"@,
        CaptureError::NotRecording => "Not recording"@,
        CaptureError::InvalidSource => "Invalid audio source"@,
        CaptureError::DeviceUnavailable => "No input device available"@,
        CaptureError::StreamInitFailed => "Failed to build the audio stream"@,
        CaptureError::AlreadyRunning => "Already capturing"@,
        CaptureError::EncodeFailed => "Failed to write the output file"@,
    }
}

impl CaptureError {
    /// A human-readable description of the error.
    pub fn message(&self) -> (r: String)
        ensures
            r@ == spec_message(*self),
    {
        match self {
            CaptureError::AlreadyRecording => "Already recording".to_owned(),
            CaptureError::NotRecording => "Not recording".to_owned(),
            CaptureError::InvalidSource => "Invalid audio source".to_owned(),
            CaptureError::DeviceUnavailable => "No input device available".to_owned(),
            CaptureError::StreamInitFailed => "Failed to build the audio stream".to_owned(),
            CaptureError::AlreadyRunning => "Already capturing".to_owned(),
            CaptureError::EncodeFailed => "Failed to write the output file".to_owned(),
        }
    }
}

/// Which origin a request names: `"microphone"`, `"system"` or `"both"`;
/// anything else is rejected.
pub open spec fn spec_parse_source(s: Seq<char>) -> Option<AudioSource> {
    if s == "microphone"@ {
        Some(AudioSource::Microphone)
    } else if s == "system"@ {
        Some(AudioSource::System)
    } else if s == "both"@ {
        Some(AudioSource::Both)
    } else {
        None
    }
}

/// Parses a requested origin string; unrecognized strings are rejected
/// rather than mapped to a default.
pub fn parse_audio_source(s: &str) -> (r: Option<AudioSource>)
    ensures
        r == spec_parse_source(s@),
{
    let owned = s.to_owned();
    if owned == "microphone".to_owned() {
        Some(AudioSource::Microphone)
    } else if owned == "system".to_owned() {
        Some(AudioSource::System)
    } else if owned == "both".to_owned() {
        Some(AudioSource::Both)
    } else {
        None
    }
}

/// The label an origin shows in a status snapshot.
pub open spec fn spec_source_label(source: AudioSource) -> Seq<char> {
    match source {
        AudioSource::Microphone => "Microphone"@,
        AudioSource::System => "System"@,
        AudioSource::Both => "Both"@,
    }
}

/// The human-readable label of an origin.
pub fn source_label(source: AudioSource) -> (r: String)
    ensures
        r@ == spec_source_label(source),
{
    match source {
        AudioSource::Microphone => "Microphone".to_owned(),
        AudioSource::System => "System".to_owned(),
        AudioSource::Both => "Both".to_owned(),
    }
}

/// Milliseconds elapsed since a session started, by a monotonic clock; a
/// reading older than the start counts as no elapsed time.
pub open spec fn spec_elapsed_ms(start_ms: u64, now_ms: u64) -> u64 {
    if now_ms >= start_ms {
        (now_ms - start_ms) as u64
    } else {
        0
    }
}

/// Elapsed time never decreases as the clock advances, so the duration a
/// status snapshot reports is monotonically non-decreasing across successive
/// calls within one session.
pub proof fn lemma_elapsed_monotone(start_ms: u64, t1: u64, t2: u64)
    requires
        t1 <= t2,
    ensures
        spec_elapsed_ms(start_ms, t1) <= spec_elapsed_ms(start_ms, t2),
{
}

/// One active recording: its identifier, origin, output destination, and
/// monotonic start instant in milliseconds.
pub struct CaptureSession {
    pub recording_id: String,
    pub source: AudioSource,
    pub output_path: String,
    pub start_ms: u64,
}

/// What `stop` reports: the recording's identifier, its elapsed duration in
/// milliseconds, the size in bytes of the output file, and the output path.
pub struct RecordingResult {
    pub recording_id: String,
    pub duration_ms: u64,
    pub file_size_bytes: u64,
    pub output_path: String,
}

/// A point-in-time snapshot of the engine: whether a session is active and,
/// if so, its identifier, elapsed milliseconds, and origin label.
pub struct RecordingStatus {
    pub is_recording: bool,
    pub recording_id: Option<String>,
    pub duration_ms: u64,
    pub source: Option<String>,
}

/// A finished recording: the result to report and the complete bytes of the
/// WAV file to write at `result.output_path`.
pub struct FinishedRecording {
    pub result: RecordingResult,
    pub file_bytes: Vec<u8>,
}

/// The capture engine facade: holds the at-most-one active session.
pub struct AudioCapture {
    pub session: Option<CaptureSession>,
}

/// What `start` does to the engine: refused (engine untouched) while a
/// session is active, otherwise a new session with the given fields.
pub open spec fn spec_start(
    cap: AudioCapture,
    recording_id: String,
    source: AudioSource,
    output_path: String,
    now_ms: u64,
) -> (AudioCapture, Result<(), CaptureError>) {
    if cap.session is Some {
        (cap, Err(CaptureError::AlreadyRecording))
    } else {
        (
            AudioCapture {
                session: Some(
                    CaptureSession { recording_id, source, output_path, start_ms: now_ms },
                ),
            },
            Ok(()),
        )
    }
}

/// Starting while a session is active is refused with `AlreadyRecording`
/// and leaves the first session untouched: after any successful start, an
/// immediately following start — same or different arguments — changes
/// nothing.
pub proof fn lemma_start_while_recording(
    cap: AudioCapture,
    id1: String,
    source1: AudioSource,
    path1: String,
    t1: u64,
    id2: String,
    source2: AudioSource,
    path2: String,
    t2: u64,
)
    requires
        spec_start(cap, id1, source1, path1, t1).1 is Ok,
    ensures
        ({
            let mid = spec_start(cap, id1, source1, path1, t1).0;
            &&& spec_start(mid, id2, source2, path2, t2).0 == mid
            &&& spec_start(mid, id2, source2, path2, t2).1 == Err::<(), CaptureError>(
                CaptureError::AlreadyRecording,
            )
        }),
{
}

impl AudioCapture {
    /// Creates an idle engine with no active session.
    pub fn new() -> (r: Self)
        ensures
            r.session is None,
    {
        AudioCapture { session: None }
    }

    /// Whether a session is currently active.
    pub fn is_recording(&self) -> (r: bool)
        ensures
            r == (self.session is Some),
    {
        self.session.is_some()
    }

    /// Begins a recording session.
    ///
    /// Fails with `AlreadyRecording` — leaving the active session untouched —
    /// if one is active; otherwise records the identifier, origin, output
    /// path and start instant of the new session.
    pub fn start(
        &mut self,
        recording_id: String,
        source: AudioSource,
        output_path: String,
        now_ms: u64,
    ) -> (r: Result<(), CaptureError>)
        ensures
            *final(self) == spec_start(*old(self), recording_id, source, output_path, now_ms).0,
            r == spec_start(*old(self), recording_id, source, output_path, now_ms).1,
    {
        if self.session.is_some() {
            return Err(CaptureError::AlreadyRecording);
        }
        self.session = Some(
            CaptureSession { recording_id, source, output_path, start_ms: now_ms },
        );
        Ok(())
    }

    /// Begins a recording session from a requested origin string, rejecting
    /// an unrecognized origin with `InvalidSource` before touching any state.
    pub fn start_origin(
        &mut self,
        recording_id: String,
        origin: &str,
        output_path: String,
        now_ms: u64,
    ) -> (r: Result<(), CaptureError>)
        ensures
            spec_parse_source(origin@) is None ==> r == Err::<(), CaptureError>(
                CaptureError::InvalidSource,
            ) && *final(self) == *old(self),
            spec_parse_source(origin@) matches Some(source) ==> {
                &&& *final(self) == spec_start(
                    *old(self),
                    recording_id,
                    source,
                    output_path,
                    now_ms,
                ).0
                &&& r == spec_start(*old(self), recording_id, source, output_path, now_ms).1
            },
    {
        match parse_audio_source(origin) {
            None => Err(CaptureError::InvalidSource),
            Some(source) => self.start(recording_id, source, output_path, now_ms),
        }
    }

    /// Abandons a session whose source failed to start, leaving no partial
    /// session behind, and returns the engine error to surface.
    pub fn abort_start(&mut self, err: SourceStartError) -> (r: CaptureError)
        ensures
            final(self).session is None,
            r == spec_source_error(err),
    {
        self.session = None;
        match err {
            SourceStartError::DeviceUnavailable => CaptureError::DeviceUnavailable,
            SourceStartError::StreamInitFailed => CaptureError::StreamInitFailed,
        }
    }

    /// Ends the active session, combining the drained buffers per its origin
    /// and encoding the result as a WAV file.
    ///
    /// Fails with `NotRecording` — changing nothing — when no session is
    /// active. Otherwise the session is cleared and the finished recording
    /// carries: the session's identifier and output path, the elapsed wall
    /// time at `now_ms`, the complete file bytes (the fixed-format container
    /// around the encoded combination of the buffers), and the file size,
    /// which always equals the byte count of the file.
    pub fn stop(&mut self, mic: Vec<i32>, sys: Vec<i32>, now_ms: u64) -> (r: Result<
        FinishedRecording,
        CaptureError,
    >)
        requires
            mic@.len() <= MAX_BUFFER_SAMPLES,
            sys@.len() <= MAX_BUFFER_SAMPLES,
        ensures
            old(self).session is None ==> r == Err::<FinishedRecording, CaptureError>(
                CaptureError::NotRecording,
            ) && *final(self) == *old(self),
            old(self).session is Some ==> {
                &&& final(self).session is None
                &&& r is Ok
                &&& r->Ok_0.result.recording_id == old(self).session->0.recording_id
                &&& r->Ok_0.result.output_path == old(self).session->0.output_path
                &&& r->Ok_0.result.duration_ms == spec_elapsed_ms(
                    old(self).session->0.start_ms,
                    now_ms,
                )
                &&& r->Ok_0.file_bytes@ == spec_wav_file(
                    spec_encode_all(spec_combined(old(self).session->0.source, mic@, sys@)),
                )
                &&& r->Ok_0.result.file_size_bytes == r->Ok_0.file_bytes@.len()
                &&& r->Ok_0.file_bytes@.len() == HEADER_LEN + 2 * spec_combined(
                    old(self).session->0.source,
                    mic@,
                    sys@,
                ).len()
            },
    {
        let mut taken: Option<CaptureSession> = None;
        core::mem::swap(&mut taken, &mut self.session);
        match taken {
            None => Err(CaptureError::NotRecording),
            Some(sess) => {
                let source = sess.source;
                let combined = combine_sources(source, mic, sys);
                assert(combined@.len() <= MAX_BUFFER_SAMPLES);
                let pcm = encode_samples(&combined);
                let file_bytes = render_wav(&pcm);
                let file_size_bytes = file_bytes.len() as u64;
                let duration_ms = if now_ms >= sess.start_ms {
                    now_ms - sess.start_ms
                } else {
                    0
                };
                Ok(
                    FinishedRecording {
                        result: RecordingResult {
                            recording_id: sess.recording_id,
                            duration_ms,
                            file_size_bytes,
                            output_path: sess.output_path,
                        },
                        file_bytes,
                    },
                )
            },
        }
    }

    /// A point-in-time snapshot: idle reports not recording, no identifier,
    /// zero duration and no origin; active reports the session's identifier,
    /// the elapsed wall time at `now_ms`, and the origin's label.
    pub fn status(&self, now_ms: u64) -> (r: RecordingStatus)
        ensures
            self.session is None ==> {
                &&& !r.is_recording
                &&& r.recording_id is None
                &&& r.duration_ms == 0
                &&& r.source is None
            },
            self.session matches Some(sess) ==> {
                &&& r.is_recording
                &&& r.recording_id == Some(sess.recording_id)
                &&& r.duration_ms == spec_elapsed_ms(sess.start_ms, now_ms)
                &&& r.source matches Some(label) && label@ == spec_source_label(sess.source)
            },
    {
        match &self.session {
            None => RecordingStatus {
                is_recording: false,
                recording_id: None,
                duration_ms: 0,
                source: None,
            },
            Some(sess) => RecordingStatus {
                is_recording: true,
                recording_id: Some(sess.recording_id.clone()),
                duration_ms: if now_ms >= sess.start_ms {
                    now_ms - sess.start_ms
                } else {
                    0
                },
                source: Some(source_label(sess.source)),
            },
        }
    }
}

impl Default for AudioCapture {
    /// An idle engine, as `new` builds it.
    fn default() -> (r: Self)
        ensures
            r.session is None,
    {
        AudioCapture::new()
    }
}

} // verus!
