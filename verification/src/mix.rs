//! Combination policy for drained capture buffers, and PCM encoding of a
//! whole combined sequence.
//!
//! A recording draws from one origin: the microphone, the system loopback,
//! or both. Single-origin recordings pass their buffer through unchanged.
//! Dual-origin recordings mix sample-wise: each output sample is the clamped
//! average of the two sources at the same index, the shorter source counting
//! as silence past its end.

use crate::sample::{encode_sample, mix_sample, spec_encode_sample, spec_mix_sample};
use vstd::prelude::*;

verus! {

/// Which source(s) a recording draws from.
#[derive(Clone, Copy, Debug, PartialEq, Eq, Structural)]
pub enum AudioSource {
    Microphone,
    System,
    Both,
}

/// The sample a source contributes at an index: its own sample while it
/// lasts, silence past its end.
pub open spec fn spec_sample_or_silence(s: Seq<i32>, i: int) -> int {
    if 0 <= i < s.len() {
        s[i] as int
    } else {
        0
    }
}

/// Length of a dual-origin mix: the longer source.
pub open spec fn spec_mix_len(mic: Seq<i32>, sys: Seq<i32>) -> nat {
    if mic.len() >= sys.len() {
        mic.len()
    } else {
        sys.len()
    }
}

/// The dual-origin mix: index by index, the clamped average of the two
/// sources, the shorter one treated as silence past its end.
pub open spec fn spec_mixed(mic: Seq<i32>, sys: Seq<i32>) -> Seq<i32> {
    Seq::new(
        spec_mix_len(mic, sys),
        |i: int|
            spec_mix_sample(
                spec_sample_or_silence(mic, i),
                spec_sample_or_silence(sys, i),
            ) as i32,
    )
}

/// What a recording's origin makes of the two drained buffers.
pub open spec fn spec_combined(source: AudioSource, mic: Seq<i32>, sys: Seq<i32>) -> Seq<i32> {
    match source {
        AudioSource::Microphone => mic,
        AudioSource::System => sys,
        AudioSource::Both => spec_mixed(mic, sys),
    }
}

/// The 16-bit PCM encoding of every sample in a sequence.
pub open spec fn spec_encode_all(s: Seq<i32>) -> Seq<i16> {
    Seq::new(s.len(), |i: int| spec_encode_sample(s[i] as int) as i16)
}

/// Mixes two sources sample-wise: clamped average, silence past the shorter
/// source's end; the output is as long as the longer source.
pub fn mix_sources(mic: &Vec<i32>, sys: &Vec<i32>) -> (r: Vec<i32>)
    ensures
        r@ == spec_mixed(mic@, sys@),
        r@.len() == spec_mix_len(mic@, sys@),
{
    let n = if mic.len() >= sys.len() {
        mic.len()
    } else {
        sys.len()
    };
    let mut out: Vec<i32> = Vec::new();
    let mut i: usize = 0;
    while i < n
        invariant
            i <= n,
            n == spec_mix_len(mic@, sys@),
            out@.len() == i,
            forall|k: int| 0 <= k < i ==> out@[k] == spec_mixed(mic@, sys@)[k],
        decreases n - i,
    {
        let a = if i < mic.len() {
            mic[i]
        } else {
            0
        };
        let b = if i < sys.len() {
            sys[i]
        } else {
            0
        };
        out.push(mix_sample(a, b));
        i += 1;
    }
    assert(out@ =~= spec_mixed(mic@, sys@));
    out
}

/// Applies the origin's combination policy to the two drained buffers.
pub fn combine_sources(source: AudioSource, mic: Vec<i32>, sys: Vec<i32>) -> (r: Vec<i32>)
    ensures
        r@ == spec_combined(source, mic@, sys@),
{
    match source {
        AudioSource::Microphone => mic,
        AudioSource::System => sys,
        AudioSource::Both => mix_sources(&mic, &sys),
    }
}

/// Encodes every combined sample as 16-bit PCM.
pub fn encode_samples(samples: &Vec<i32>) -> (r: Vec<i16>)
    ensures
        r@ == spec_encode_all(samples@),
        r@.len() == samples@.len(),
{
    let n = samples.len();
    let mut out: Vec<i16> = Vec::new();
    let mut i: usize = 0;
    while i < n
        invariant
            i <= n,
            n == samples@.len(),
            out@.len() == i,
            forall|k: int| 0 <= k < i ==> out@[k] == spec_encode_all(samples@)[k],
        decreases n - i,
    {
        out.push(encode_sample(samples[i]));
        i += 1;
    }
    assert(out@ =~= spec_encode_all(samples@));
    out
}

} // verus!
