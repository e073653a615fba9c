//! The system-loopback capture source.
//!
//! The loopback source records what the default output device is playing by
//! polling the platform's capture client on a dedicated thread. The thread
//! itself — platform session setup, sleeping, packet release — lives in the
//! unverified shell; this module holds everything it decides and stores: the
//! `Idle → Running → Stopped` lifecycle, the source's own bounded sample
//! buffer, which polled packets contribute samples, how many samples a
//! packet holds, and how long a captured sample count lasts. On platforms
//! without a loopback capture interface the source is an inert stub: it
//! starts and stops normally and contributes no samples.

use crate::buffer::{spec_retained, BoundedSampleBuffer, MAX_BUFFER_SAMPLES};
use crate::engine::CaptureError;
use crate::wav::{CHANNEL_COUNT, SAMPLE_RATE_HZ};
use vstd::prelude::*;

verus! {

/// Lifecycle of one loopback source. A stopped source is never restarted;
/// a new session constructs a new one.
#[derive(Clone, Copy, Debug, PartialEq, Eq, Structural)]
pub enum LoopbackPhase {
    Idle,
    Running,
    Stopped,
}

/// One loopback capture source: its lifecycle state and the bounded buffer
/// the polling thread appends into. Viewed as the sequence of samples it
/// currently holds.
pub struct LoopbackCapture {
    phase: LoopbackPhase,
    buffer: BoundedSampleBuffer,
}

impl View for LoopbackCapture {
    type V = Seq<i32>;

    closed spec fn view(&self) -> Seq<i32> {
        self.buffer@
    }
}

impl LoopbackCapture {
    /// The source's lifecycle state.
    pub closed spec fn spec_phase(self) -> LoopbackPhase {
        self.phase
    }

    /// A freshly constructed source: not yet started, no samples.
    pub fn new() -> (r: Self)
        ensures
            r.spec_phase() == LoopbackPhase::Idle,
            r@ == Seq::<i32>::empty(),
    {
        LoopbackCapture { phase: LoopbackPhase::Idle, buffer: BoundedSampleBuffer::new() }
    }

    /// Moves an idle source to running, discarding samples of any earlier
    /// use. Refused with `AlreadyRunning` — nothing changed — while the
    /// source runs or after it stopped: one instance captures at most once.
    pub fn start(&mut self) -> (r: Result<(), CaptureError>)
        ensures
            old(self).spec_phase() == LoopbackPhase::Idle ==> {
                &&& final(self).spec_phase() == LoopbackPhase::Running
                &&& final(self)@ == Seq::<i32>::empty()
                &&& r is Ok
            },
            old(self).spec_phase() != LoopbackPhase::Idle ==> *final(self) == *old(self) && r
                == Err::<(), CaptureError>(CaptureError::AlreadyRunning),
    {
        match self.phase {
            LoopbackPhase::Idle => {
                self.phase = LoopbackPhase::Running;
                let _ = self.buffer.drain();
                Ok(())
            },
            _ => Err(CaptureError::AlreadyRunning),
        }
    }

    /// Stops the source, keeping the captured samples for draining. Safe in
    /// every phase — also when the underlying platform resource never
    /// started — and idempotent; after it returns the source never reports
    /// running again.
    pub fn stop(&mut self)
        ensures
            final(self).spec_phase() == LoopbackPhase::Stopped,
            final(self)@ == old(self)@,
    {
        self.phase = LoopbackPhase::Stopped;
    }

    /// Whether the capture thread should keep polling.
    pub fn is_running(&self) -> (r: bool)
        ensures
            r == (self.spec_phase() == LoopbackPhase::Running),
    {
        match self.phase {
            LoopbackPhase::Running => true,
            _ => false,
        }
    }

    /// Appends one packet's samples to the source's bounded buffer, evicting
    /// the oldest samples if the packet would push past capacity.
    pub fn append_packet(&mut self, samples: &Vec<i32>)
        requires
            samples@.len() <= MAX_BUFFER_SAMPLES,
        ensures
            final(self)@ == spec_retained(old(self)@ + samples@),
            final(self).spec_phase() == old(self).spec_phase(),
    {
        self.buffer.append(samples);
    }

    /// Takes all captured samples, leaving the source empty.
    pub fn take_samples(&mut self) -> (r: Vec<i32>)
        ensures
            r@ == old(self)@,
            final(self)@ == Seq::<i32>::empty(),
            final(self).spec_phase() == old(self).spec_phase(),
            r@.len() <= MAX_BUFFER_SAMPLES,
    {
        self.buffer.drain()
    }

    /// Copies the captured samples without draining them.
    pub fn get_samples(&self) -> (r: Vec<i32>)
        ensures
            r@ == self@,
    {
        self.buffer.snapshot()
    }

    /// How many samples the source currently holds.
    pub fn sample_count(&self) -> (r: usize)
        ensures
            r == self@.len(),
            r <= MAX_BUFFER_SAMPLES,
    {
        self.buffer.len()
    }

    /// How long the captured samples last, in milliseconds, at the fixed
    /// 44 100 Hz stereo mix format.
    pub fn duration_ms(&self) -> (r: u64)
        ensures
            r == (self@.len() as int * 1000) / (SAMPLE_RATE_HZ as int * CHANNEL_COUNT as int),
    {
        let count = self.buffer.len();
        capture_duration_ms(count as u64, SAMPLE_RATE_HZ, CHANNEL_COUNT)
    }

    /// Sample rate of the captured stream.
    pub fn sample_rate(&self) -> (r: u32)
        ensures
            r == SAMPLE_RATE_HZ,
    {
        SAMPLE_RATE_HZ
    }

    /// Channel count of the captured stream.
    pub fn channels(&self) -> (r: u16)
        ensures
            r == CHANNEL_COUNT,
    {
        CHANNEL_COUNT
    }
}

/// Whether a polled packet contributes samples: it must carry data (not the
/// silence flag), hold at least one frame, and be in the negotiated 32-bit
/// float mix format — packets in any other format are skipped, never
/// converted.
pub fn accept_packet(is_silent: bool, frames: u32, bits_per_sample: u16) -> (r: bool)
    ensures
        r == (!is_silent && frames > 0 && bits_per_sample == 32),
{
    !is_silent && frames > 0 && bits_per_sample == 32
}

/// How many interleaved samples a packet of `frames` frames holds: one per
/// channel per frame.
pub fn packet_sample_count(channels: u16, frames: u32) -> (r: u64)
    ensures
        r == channels as int * frames as int,
{
    assert((channels as int) * (frames as int) <= 65535 * 4294967295) by (nonlinear_arith)
        requires
            channels as int <= 65535,
            frames as int <= 4294967295,
    ;
    (channels as u64) * (frames as u64)
}

/// How long a captured sample count lasts, in milliseconds, at a mix format
/// of `sample_rate` frames per second and `channels` samples per frame.
pub fn capture_duration_ms(sample_count: u64, sample_rate: u32, channels: u16) -> (r: u64)
    requires
        sample_rate > 0,
        channels > 0,
        sample_count <= 0xFFFF_FFFF,
    ensures
        r == (sample_count as int * 1000) / (sample_rate as int * channels as int),
{
    assert((sample_rate as int) * (channels as int) > 0) by (nonlinear_arith)
        requires
            sample_rate as int > 0,
            channels as int > 0,
    ;
    assert((sample_rate as int) * (channels as int) <= 4294967295 * 65535) by (nonlinear_arith)
        requires
            sample_rate as int <= 4294967295,
            channels as int <= 65535,
    ;
    let denom = (sample_rate as u64) * (channels as u64);
    (sample_count * 1000) / denom
}

} // verus!
