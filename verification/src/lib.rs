//! Audio capture and mixing engine.
//!
//! The engine accumulates audio samples from one or two capture sources into
//! bounded buffers, combines them when a recording stops (straight-through for
//! a single source, sample-wise averaged mix for two), encodes the result as
//! 16-bit PCM and frames it in a fixed-format WAV container (2 channels,
//! 44 100 Hz). Session bookkeeping enforces that at most one recording is
//! active at a time.
//!
//! Samples are fixed-point amplitudes: an `i32` worth `x` stands for the
//! amplitude `x / 32768`, so [`sample::FULL_SCALE`] is full scale (1.0). The
//! unverified shell that owns the platform audio streams converts the
//! hardware's floating-point samples to this representation at the boundary
//! and hands the engine plain values: sample chunks, drained buffers, and a
//! monotonic clock reading in milliseconds.

pub mod buffer;
pub mod devices;
pub mod engine;
pub mod loopback;
pub mod mix;
pub mod sample;
pub mod wav;
