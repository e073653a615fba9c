//! The fixed-format WAV container: 2 channels, 44 100 Hz, 16-bit signed
//! integer PCM, interleaved.
//!
//! [`spec_wav_file`] pins every byte of the output: a 44-byte RIFF/WAVE
//! header (RIFF chunk, PCMWAVEFORMAT `fmt ` chunk, `data` chunk header)
//! followed by the samples, each stored as its two's-complement 16-bit
//! pattern in little-endian order.

use vstd::prelude::*;

verus! {

/// Channels in the output container.
pub const CHANNEL_COUNT: u16 = 2;

/// Sample rate of the output container, in hertz.
pub const SAMPLE_RATE_HZ: u32 = 44100;

/// Bit depth of the output container.
pub const BITS_PER_SAMPLE: u16 = 16;

/// Bytes of audio per second: sample rate times channels times bytes per
/// sample.
pub const BYTE_RATE: u32 = 44100 * 2 * 2;

/// Bytes per frame: channels times bytes per sample.
pub const BLOCK_ALIGN: u16 = 2 * 2;

/// Size of the container header in bytes.
pub const HEADER_LEN: usize = 44;

/// The unsigned 16-bit pattern that stores a signed sample in two's
/// complement.
pub open spec fn spec_u16_bits_of_i16(x: int) -> int {
    if x >= 0 {
        x
    } else {
        x + 0x10000
    }
}

/// The two little-endian bytes of a value in `[0, 2^16)`.
pub open spec fn spec_le16(x: int) -> Seq<u8> {
    seq![(x % 256) as u8, ((x / 256) % 256) as u8]
}

/// The four little-endian bytes of a value in `[0, 2^32)`.
pub open spec fn spec_le32(x: int) -> Seq<u8> {
    seq![
        (x % 256) as u8,
        ((x / 256) % 256) as u8,
        ((x / 0x10000) % 256) as u8,
        ((x / 0x1000000) % 256) as u8,
    ]
}

/// The PCM data section: each sample as its 16-bit pattern, little-endian,
/// in order.
pub open spec fn spec_pcm_bytes(samples: Seq<i16>) -> Seq<u8>
    decreases samples.len(),
{
    if samples.len() == 0 {
        Seq::empty()
    } else {
        spec_le16(spec_u16_bits_of_i16(samples[0] as int)) + spec_pcm_bytes(samples.drop_first())
    }
}

/// The 44-byte header that precedes `data_len` bytes of PCM data.
pub open spec fn spec_wav_header(data_len: int) -> Seq<u8> {
    seq![0x52u8, 0x49u8, 0x46u8, 0x46u8]  // "RIFF"
     + spec_le32(36 + data_len)  // RIFF chunk size: whole file minus 8
     + seq![0x57u8, 0x41u8, 0x56u8, 0x45u8]  // "WAVE"
     + seq![0x66u8, 0x6du8, 0x74u8, 0x20u8]  // "fmt "
     + spec_le32(16)  // PCMWAVEFORMAT chunk size
     + spec_le16(1)  // format tag: integer PCM
     + spec_le16(CHANNEL_COUNT as int) + spec_le32(SAMPLE_RATE_HZ as int) + spec_le32(
        BYTE_RATE as int,
    ) + spec_le16(BLOCK_ALIGN as int) + spec_le16(BITS_PER_SAMPLE as int) + seq![
        0x64u8,
        0x61u8,
        0x74u8,
        0x61u8,
    ]  // "data"
     + spec_le32(data_len)
}

/// A complete container: header, then the PCM data section.
pub open spec fn spec_wav_file(samples: Seq<i16>) -> Seq<u8> {
    spec_wav_header(2 * samples.len() as int) + spec_pcm_bytes(samples)
}

/// The data section holds two bytes per sample.
pub proof fn lemma_pcm_bytes_len(samples: Seq<i16>)
    ensures
        spec_pcm_bytes(samples).len() == 2 * samples.len(),
    decreases samples.len(),
{
    if samples.len() > 0 {
        lemma_pcm_bytes_len(samples.drop_first());
    }
}

/// Appending one sample appends exactly its two little-endian bytes.
pub proof fn lemma_pcm_bytes_push(samples: Seq<i16>, x: i16)
    ensures
        spec_pcm_bytes(samples.push(x)) == spec_pcm_bytes(samples) + spec_le16(
            spec_u16_bits_of_i16(x as int),
        ),
    decreases samples.len(),
{
    reveal_with_fuel(spec_pcm_bytes, 3);
    if samples.len() == 0 {
        assert(samples.push(x).drop_first() =~= Seq::<i16>::empty());
        assert(spec_pcm_bytes(samples.push(x)) =~= spec_pcm_bytes(samples) + spec_le16(
            spec_u16_bits_of_i16(x as int),
        ));
    } else {
        assert(samples.push(x).drop_first() =~= samples.drop_first().push(x));
        lemma_pcm_bytes_push(samples.drop_first(), x);
        assert(spec_pcm_bytes(samples.push(x)) =~= spec_pcm_bytes(samples) + spec_le16(
            spec_u16_bits_of_i16(x as int),
        ));
    }
}

/// The 16-bit pattern that stores a signed sample.
fn sample_bits(x: i16) -> (r: u16)
    ensures
        r as int == spec_u16_bits_of_i16(x as int),
{
    if x >= 0 {
        x as u16
    } else {
        ((x as i32) + 0x10000) as u16
    }
}

/// Appends a value's two little-endian bytes.
fn push_le16(out: &mut Vec<u8>, x: u16)
    ensures
        final(out)@ == old(out)@ + spec_le16(x as int),
{
    out.push((x % 256) as u8);
    out.push(((x / 256) % 256) as u8);
    assert(out@ =~= old(out)@ + spec_le16(x as int));
}

/// Appends a value's four little-endian bytes.
fn push_le32(out: &mut Vec<u8>, x: u32)
    ensures
        final(out)@ == old(out)@ + spec_le32(x as int),
{
    out.push((x % 256) as u8);
    out.push(((x / 256) % 256) as u8);
    out.push(((x / 0x10000) % 256) as u8);
    out.push(((x / 0x1000000) % 256) as u8);
    assert(out@ =~= old(out)@ + spec_le32(x as int));
}

/// Builds the 44-byte header for `data_len` bytes of PCM data.
fn render_wav_header(data_len: u32) -> (r: Vec<u8>)
    requires
        data_len + 36 <= u32::MAX,
    ensures
        r@ == spec_wav_header(data_len as int),
        r@.len() == HEADER_LEN,
{
    let mut out: Vec<u8> = Vec::new();
    out.push(0x52);
    out.push(0x49);
    out.push(0x46);
    out.push(0x46);
    push_le32(&mut out, 36 + data_len);
    out.push(0x57);
    out.push(0x41);
    out.push(0x56);
    out.push(0x45);
    out.push(0x66);
    out.push(0x6d);
    out.push(0x74);
    out.push(0x20);
    push_le32(&mut out, 16);
    push_le16(&mut out, 1);
    push_le16(&mut out, CHANNEL_COUNT);
    push_le32(&mut out, SAMPLE_RATE_HZ);
    push_le32(&mut out, BYTE_RATE);
    push_le16(&mut out, BLOCK_ALIGN);
    push_le16(&mut out, BITS_PER_SAMPLE);
    out.push(0x64);
    out.push(0x61);
    out.push(0x74);
    out.push(0x61);
    push_le32(&mut out, data_len);
    assert(out@ =~= spec_wav_header(data_len as int));
    out
}

/// Renders a complete WAV file for the given samples.
///
/// The result is exactly the 44-byte header followed by two bytes per
/// sample, so its length is `44 + 2 * samples.len()`.
pub fn render_wav(samples: &Vec<i16>) -> (r: Vec<u8>)
    requires
        2 * samples@.len() + 36 <= u32::MAX,
    ensures
        r@ == spec_wav_file(samples@),
        r@.len() == HEADER_LEN + 2 * samples@.len(),
{
    let n = samples.len();
    let data_len: u32 = (n as u32) * 2;
    let mut out = render_wav_header(data_len);
    let mut i: usize = 0;
    while i < n
        invariant
            i <= n,
            n == samples@.len(),
            2 * samples@.len() + 36 <= u32::MAX,
            out@ == spec_wav_header(2 * samples@.len() as int) + spec_pcm_bytes(
                samples@.subrange(0, i as int),
            ),
        decreases n - i,
    {
        let bits = sample_bits(samples[i]);
        push_le16(&mut out, bits);
        proof {
            lemma_pcm_bytes_push(samples@.subrange(0, i as int), samples@[i as int]);
            assert(samples@.subrange(0, i as int + 1) =~= samples@.subrange(0, i as int).push(
                samples@[i as int],
            ));
            assert(out@ =~= spec_wav_header(2 * samples@.len() as int) + spec_pcm_bytes(
                samples@.subrange(0, i as int + 1),
            ));
        }
        i += 1;
    }
    proof {
        assert(samples@.subrange(0, n as int) =~= samples@);
        lemma_pcm_bytes_len(samples@);
    }
    out
}

} // verus!
