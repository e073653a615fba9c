//! Fixed-point audio samples: clamping, two-source mixing, and 16-bit PCM
//! encoding of a single sample.
//!
//! A sample is an `i32` measured in units of `1 / 32768` of full scale, so
//! [`FULL_SCALE`] stands for amplitude `1.0` and `-FULL_SCALE` for `-1.0`.
//! Mixing averages two sources and clamps the result to full scale; encoding
//! clamps, scales by the largest positive 16-bit value and truncates toward
//! zero, exactly as a float sample in `[-1.0, 1.0]` is scaled by `32767` and
//! truncated when cast to `i16`.

use vstd::prelude::*;

verus! {

/// Fixed-point representation of amplitude 1.0.
pub const FULL_SCALE: i32 = 32768;

/// The largest positive 16-bit sample value; full scale encodes to this.
pub const PCM_MAX: i32 = 32767;

/// A sample clamped to the representable amplitude range `[-1.0, 1.0]`.
pub open spec fn spec_clamp_full_scale(x: int) -> int {
    if x > FULL_SCALE as int {
        FULL_SCALE as int
    } else if x < -(FULL_SCALE as int) {
        -(FULL_SCALE as int)
    } else {
        x
    }
}

/// Division by two that truncates toward zero, as float halving followed by
/// integer truncation does.
pub open spec fn spec_half_toward_zero(x: int) -> int {
    if x >= 0 {
        x / 2
    } else {
        -((-x) / 2)
    }
}

/// The mix of one sample from each source: their average, clamped to full
/// scale so that two loud sources cannot clip.
pub open spec fn spec_mix_sample(a: int, b: int) -> int {
    spec_clamp_full_scale(spec_half_toward_zero(a + b))
}

/// The 16-bit PCM encoding of a sample: clamp to full scale, scale by
/// `PCM_MAX / FULL_SCALE`, truncate toward zero.
pub open spec fn spec_encode_sample(x: int) -> int {
    let c = spec_clamp_full_scale(x);
    if c >= 0 {
        (c * PCM_MAX as int) / FULL_SCALE as int
    } else {
        -(((-c) * PCM_MAX as int) / FULL_SCALE as int)
    }
}

/// Clamps a sample to the representable amplitude range.
pub fn clamp_full_scale(x: i32) -> (r: i32)
    ensures
        r == spec_clamp_full_scale(x as int),
        -32768 <= r <= 32768,
{
    if x > FULL_SCALE {
        FULL_SCALE
    } else if x < -FULL_SCALE {
        -FULL_SCALE
    } else {
        x
    }
}

/// Mixes one sample from each of two sources: average then clamp.
pub fn mix_sample(a: i32, b: i32) -> (r: i32)
    ensures
        r == spec_mix_sample(a as int, b as int),
        -32768 <= r <= 32768,
{
    let sum: i64 = a as i64 + b as i64;
    let half: i64 = if sum >= 0 {
        ((sum as u64) / 2) as i64
    } else {
        -(((-sum) as u64 / 2) as i64)
    };
    if half > FULL_SCALE as i64 {
        FULL_SCALE
    } else if half < -(FULL_SCALE as i64) {
        -FULL_SCALE
    } else {
        half as i32
    }
}

/// Encodes one sample as a signed 16-bit PCM value.
///
/// Full scale maps to the maximum positive 16-bit value; negative full scale
/// maps to its negation (clamped scaling, never wrapping); out-of-range input
/// is clamped before scaling.
pub fn encode_sample(x: i32) -> (r: i16)
    ensures
        r == spec_encode_sample(x as int),
        -32767 <= r <= 32767,
{
    let c = clamp_full_scale(x);
    if c >= 0 {
        (((c as u64) * 32767) / 32768) as i16
    } else {
        -(((((-c) as u64) * 32767) / 32768) as i16)
    }
}

} // verus!
