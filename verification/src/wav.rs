//! WAV container encoding: 16-bit PCM, mono samples written to both of two
//! channels. The waveform synthesis itself lives with the audio
//! collaborator; this module pins down the container bytes exactly.

use vstd::prelude::*;

verus! {

/// The two little-endian bytes of a 16-bit value.
pub open spec fn spec_u16le(x: u16) -> Seq<u8> {
    seq![(x % 256) as u8, (x / 256) as u8]
}

/// The four little-endian bytes of a 32-bit value.
pub open spec fn spec_u32le(x: u32) -> Seq<u8> {
    seq![
        (x % 256) as u8,
        ((x / 256) % 256) as u8,
        ((x / 65536) % 256) as u8,
        (x / 16777216) as u8,
    ]
}

/// A signed 16-bit sample in two's complement, as an unsigned 16-bit value.
pub open spec fn spec_sample_bits(s: i16) -> u16 {
    if s >= 0 {
        s as u16
    } else {
        (s + 65536) as u16
    }
}

/// The sample data: each mono sample duplicated to left and right channel,
/// little-endian.
pub open spec fn spec_wav_data(samples: Seq<i16>) -> Seq<u8>
    decreases samples.len(),
{
    if samples.len() == 0 {
        Seq::empty()
    } else {
        let bits = spec_u16le(spec_sample_bits(samples.last()));
        spec_wav_data(samples.drop_last()) + bits + bits
    }
}

/// The sample data is four bytes per sample.
pub proof fn lemma_wav_data_len(samples: Seq<i16>)
    ensures
        spec_wav_data(samples).len() == 4 * samples.len(),
    decreases samples.len(),
{
    if samples.len() > 0 {
        lemma_wav_data_len(samples.drop_last());
    }
}

/// The ASCII bytes of the `RIFF` chunk tag.
pub open spec fn spec_riff_tag() -> Seq<u8> {
    seq![82u8, 73u8, 70u8, 70u8]
}

/// The ASCII bytes of the `WAVE` form tag.
pub open spec fn spec_wave_tag() -> Seq<u8> {
    seq![87u8, 65u8, 86u8, 69u8]
}

/// The ASCII bytes of the `fmt ` chunk tag.
pub open spec fn spec_fmt_tag() -> Seq<u8> {
    seq![102u8, 109u8, 116u8, 32u8]
}

/// The ASCII bytes of the `data` chunk tag.
pub open spec fn spec_data_tag() -> Seq<u8> {
    seq![100u8, 97u8, 116u8, 97u8]
}

/// The 44-byte RIFF/WAVE header for `n` stereo 16-bit frames at the given
/// sample rate.
pub open spec fn spec_wav_header(n: int, sample_rate: u32) -> Seq<u8> {
    let data_size = (4 * n) as u32;
    let chunk_size = (36 + 4 * n) as u32;
    let byte_rate = (sample_rate * 4) as u32;
    spec_riff_tag() + spec_u32le(chunk_size) + spec_wave_tag() + spec_fmt_tag() + spec_u32le(16)
        + spec_u16le(1) + spec_u16le(2) + spec_u32le(sample_rate) + spec_u32le(byte_rate)
        + spec_u16le(4) + spec_u16le(16) + spec_data_tag() + spec_u32le(data_size)
}

/// The complete WAV bytes for the given mono samples.
pub open spec fn spec_wav_bytes(samples: Seq<i16>, sample_rate: u32) -> Seq<u8> {
    spec_wav_header(samples.len() as int, sample_rate) + spec_wav_data(samples)
}

/// Append the two little-endian bytes of a 16-bit value.
fn push_u16le(out: &mut Vec<u8>, x: u16)
    ensures
        final(out)@ == old(out)@ + spec_u16le(x),
{
    let ghost pre = out@;
    out.push((x % 256) as u8);
    out.push((x / 256) as u8);
    proof {
        assert(out@ =~= pre + spec_u16le(x));
    }
}

/// Append the four little-endian bytes of a 32-bit value.
fn push_u32le(out: &mut Vec<u8>, x: u32)
    ensures
        final(out)@ == old(out)@ + spec_u32le(x),
{
    let ghost pre = out@;
    out.push((x % 256) as u8);
    out.push(((x / 256) % 256) as u8);
    out.push(((x / 65536) % 256) as u8);
    out.push((x / 16777216) as u8);
    proof {
        assert(out@ =~= pre + spec_u32le(x));
    }
}

/// Encode mono 16-bit samples as a stereo PCM WAV document (each sample
/// written to both channels).
pub fn encode_wav(samples: &Vec<i16>, sample_rate: u32) -> (r: Vec<u8>)
    requires
        4 * samples@.len() + 36 <= u32::MAX,
        sample_rate <= u32::MAX / 4,
    ensures
        r@ == spec_wav_bytes(samples@, sample_rate),
        r@.len() == 44 + 4 * samples@.len(),
{
    let n: usize = samples.len();
    let data_size: u32 = 4 * (n as u32);
    let chunk_size: u32 = 36 + data_size;
    let byte_rate: u32 = sample_rate * 4;

    let mut out: Vec<u8> = Vec::new();
    out.push(82);
    out.push(73);
    out.push(70);
    out.push(70);
    proof {
        assert(out@ =~= spec_riff_tag());
    }
    push_u32le(&mut out, chunk_size);
    out.push(87);
    out.push(65);
    out.push(86);
    out.push(69);
    out.push(102);
    out.push(109);
    out.push(116);
    out.push(32);
    push_u32le(&mut out, 16);
    push_u16le(&mut out, 1);
    push_u16le(&mut out, 2);
    push_u32le(&mut out, sample_rate);
    push_u32le(&mut out, byte_rate);
    push_u16le(&mut out, 4);
    push_u16le(&mut out, 16);
    out.push(100);
    out.push(97);
    out.push(116);
    out.push(97);
    push_u32le(&mut out, data_size);
    proof {
        assert(out@ =~= spec_wav_header(samples@.len() as int, sample_rate));
    }

    let mut i: usize = 0;
    while i < n
        invariant
            i <= n,
            n == samples@.len(),
            out@ == spec_wav_header(samples@.len() as int, sample_rate) + spec_wav_data(
                samples@.subrange(0, i as int),
            ),
        decreases n - i,
    {
        let s: i16 = samples[i];
        let bits: u16 = if s >= 0 {
            s as u16
        } else {
            ((s as i32) + 65536) as u16
        };
        push_u16le(&mut out, bits);
        push_u16le(&mut out, bits);
        proof {
            let pre = samples@.subrange(0, i as int);
            let cur = samples@.subrange(0, i + 1 as int);
            assert(cur.drop_last() =~= pre);
            assert(cur.last() == samples@[i as int]);
            assert(out@ =~= spec_wav_header(samples@.len() as int, sample_rate) + spec_wav_data(
                cur,
            ));
        }
        i = i + 1;
    }
    proof {
        assert(samples@.subrange(0, n as int) =~= samples@);
        lemma_wav_data_len(samples@);
    }
    out
}

} // verus!
