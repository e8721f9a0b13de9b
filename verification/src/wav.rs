//! 16-bit PCM framing: little-endian sample bytes and the in-memory WAV
//! container the batch endpoint receives (mono, 16 bits per sample).

use vstd::bytes::{
    spec_u16_from_le_bytes, spec_u16_to_le_bytes, spec_u32_from_le_bytes, spec_u32_to_le_bytes,
    u16_to_le_bytes, u32_to_le_bytes,
};
use vstd::bytes::{lemma_auto_spec_u16_to_from_le_bytes, lemma_auto_spec_u32_to_from_le_bytes};
use vstd::prelude::*;

verus! {

/// The little-endian bytes of each sample, one after another.
pub open spec fn spec_pcm16_le(samples: Seq<i16>) -> Seq<u8> {
    Seq::new(2 * samples.len(), |j: int| spec_u16_to_le_bytes(samples[j / 2] as u16)[j % 2])
}

/// Reads little-endian 16-bit samples back from bytes (a trailing odd byte
/// is ignored).
pub open spec fn spec_pcm16_decode(bytes: Seq<u8>) -> Seq<i16> {
    Seq::new(
        bytes.len() / 2,
        |k: int| spec_u16_from_le_bytes(bytes.subrange(2 * k, 2 * k + 2)) as i16,
    )
}

/// Encodes int16 samples as raw little-endian bytes.
pub fn pcm16_le_bytes(samples: &[i16]) -> (bytes: Vec<u8>)
    requires
        samples@.len() * 2 <= usize::MAX,
    ensures
        bytes@ == spec_pcm16_le(samples@),
{
    proof {
        lemma_auto_spec_u16_to_from_le_bytes();
    }
    let n = samples.len();
    let mut bytes: Vec<u8> = Vec::with_capacity(n * 2);
    let mut i: usize = 0;
    while i < n
        invariant
            n == samples@.len(),
            i <= n,
            bytes@ == spec_pcm16_le(samples@.subrange(0, i as int)),
            forall|x: u16| #[trigger] spec_u16_to_le_bytes(x).len() == 2,
        decreases n - i,
    {
        let v: u16 = (#[verifier::truncate] (samples[i] as u16));
        let mut pair = u16_to_le_bytes(v);
        bytes.append(&mut pair);
        i += 1;
        assert(bytes@ =~= spec_pcm16_le(samples@.subrange(0, i as int)));
    }
    assert(samples@.subrange(0, n as int) =~= samples@);
    bytes
}

/// "RIFF", "WAVE", "fmt " and "data" in ASCII.
pub open spec fn tag_riff() -> Seq<u8> {
    seq![0x52u8, 0x49u8, 0x46u8, 0x46u8]
}

pub open spec fn tag_wave() -> Seq<u8> {
    seq![0x57u8, 0x41u8, 0x56u8, 0x45u8]
}

pub open spec fn tag_fmt() -> Seq<u8> {
    seq![0x66u8, 0x6du8, 0x74u8, 0x20u8]
}

pub open spec fn tag_data() -> Seq<u8> {
    seq![0x64u8, 0x61u8, 0x74u8, 0x61u8]
}

/// The data chunk size the header records for `n` samples: two bytes per
/// sample, kept to its low 32 bits.
pub open spec fn wav_data_len(n: nat) -> u32 {
    (n * 2) as u32
}

/// The 44-byte header of a mono 16-bit PCM WAV holding `n` samples.
pub open spec fn spec_wav_header(n: nat, sample_rate: u32) -> Seq<u8> {
    tag_riff() + spec_u32_to_le_bytes((36 + wav_data_len(n)) as u32) + tag_wave()
        + tag_fmt() + spec_u32_to_le_bytes(16) + spec_u16_to_le_bytes(1)
        + spec_u16_to_le_bytes(1) + spec_u32_to_le_bytes(sample_rate)
        + spec_u32_to_le_bytes((sample_rate * 2) as u32) + spec_u16_to_le_bytes(2)
        + spec_u16_to_le_bytes(16) + tag_data() + spec_u32_to_le_bytes(wav_data_len(n))
}

fn push_u32_le(v: &mut Vec<u8>, x: u32)
    ensures
        final(v)@ == old(v)@ + spec_u32_to_le_bytes(x),
{
    let mut b = u32_to_le_bytes(x);
    v.append(&mut b);
}

fn push_u16_le(v: &mut Vec<u8>, x: u16)
    ensures
        final(v)@ == old(v)@ + spec_u16_to_le_bytes(x),
{
    let mut b = u16_to_le_bytes(x);
    v.append(&mut b);
}

fn push_tag(v: &mut Vec<u8>, a: u8, b: u8, c: u8, d: u8)
    ensures
        final(v)@ == old(v)@ + seq![a, b, c, d],
{
    v.push(a);
    v.push(b);
    v.push(c);
    v.push(d);
    assert(v@ =~= old(v)@ + seq![a, b, c, d]);
}

/// Encodes int16 mono samples (any sample rate) as a 16-bit PCM WAV in memory.
pub fn wav_from_pcm16(samples: &[i16], sample_rate: u32) -> (wav: Vec<u8>)
    requires
        samples@.len() * 2 + 44 <= usize::MAX,
        36 + wav_data_len(samples@.len()) <= u32::MAX,
        sample_rate * 2 <= u32::MAX,
    ensures
        wav@ == spec_wav_header(samples@.len(), sample_rate) + spec_pcm16_le(samples@),
{
    let n = samples.len();
    let data_len: u32 = (#[verifier::truncate] ((n * 2) as u32));
    let mut wav: Vec<u8> = Vec::with_capacity(44 + n * 2);
    // RIFF header
    push_tag(&mut wav, 0x52, 0x49, 0x46, 0x46);
    push_u32_le(&mut wav, 36 + data_len);
    push_tag(&mut wav, 0x57, 0x41, 0x56, 0x45);
    // fmt chunk: PCM, mono, byte rate, block align, bits
    push_tag(&mut wav, 0x66, 0x6d, 0x74, 0x20);
    push_u32_le(&mut wav, 16);
    push_u16_le(&mut wav, 1);
    push_u16_le(&mut wav, 1);
    push_u32_le(&mut wav, sample_rate);
    push_u32_le(&mut wav, sample_rate * 2);
    push_u16_le(&mut wav, 2);
    push_u16_le(&mut wav, 16);
    // data chunk
    push_tag(&mut wav, 0x64, 0x61, 0x74, 0x61);
    push_u32_le(&mut wav, data_len);
    let mut data = pcm16_le_bytes(samples);
    wav.append(&mut data);
    wav
}

/// Reading the sample bytes back gives the samples: the encoding is two
/// bytes per sample and loses nothing.
pub proof fn lemma_pcm16_roundtrip(samples: Seq<i16>)
    ensures
        spec_pcm16_le(samples).len() == 2 * samples.len(),
        spec_pcm16_decode(spec_pcm16_le(samples)) == samples,
{
    lemma_auto_spec_u16_to_from_le_bytes();
    let bytes = spec_pcm16_le(samples);
    assert forall|k: int| 0 <= k < samples.len() implies #[trigger] spec_pcm16_decode(bytes)[k]
        == samples[k] by {
        let x = samples[k] as u16;
        assert(bytes.subrange(2 * k, 2 * k + 2) =~= spec_u16_to_le_bytes(x));
        let v = samples[k];
        assert((v as u16) as i16 == v) by (bit_vector);
    }
    assert(spec_pcm16_decode(bytes) =~= samples);
}

/// The header records what the writer was given: reading its fields back
/// gives the chunk sizes, the format (PCM, mono, 16 bits), the sample rate
/// and byte rate, and the samples follow it at byte 44.
pub proof fn lemma_wav_fields(samples: Seq<i16>, sample_rate: u32)
    requires
        36 + wav_data_len(samples.len()) <= u32::MAX,
        sample_rate * 2 <= u32::MAX,
    ensures
        ({
            let w = spec_wav_header(samples.len(), sample_rate) + spec_pcm16_le(samples);
            &&& w.len() == 44 + 2 * samples.len()
            &&& w.subrange(0, 4) == tag_riff()
            &&& spec_u32_from_le_bytes(w.subrange(4, 8)) == 36 + wav_data_len(samples.len())
            &&& w.subrange(8, 12) == tag_wave()
            &&& w.subrange(12, 16) == tag_fmt()
            &&& spec_u32_from_le_bytes(w.subrange(16, 20)) == 16
            &&& spec_u16_from_le_bytes(w.subrange(20, 22)) == 1
            &&& spec_u16_from_le_bytes(w.subrange(22, 24)) == 1
            &&& spec_u32_from_le_bytes(w.subrange(24, 28)) == sample_rate
            &&& spec_u32_from_le_bytes(w.subrange(28, 32)) == sample_rate * 2
            &&& spec_u16_from_le_bytes(w.subrange(32, 34)) == 2
            &&& spec_u16_from_le_bytes(w.subrange(34, 36)) == 16
            &&& w.subrange(36, 40) == tag_data()
            &&& spec_u32_from_le_bytes(w.subrange(40, 44)) == wav_data_len(samples.len())
            &&& spec_pcm16_decode(w.subrange(44, w.len() as int)) == samples
        }),
{
    lemma_auto_spec_u16_to_from_le_bytes();
    lemma_auto_spec_u32_to_from_le_bytes();
    lemma_pcm16_roundtrip(samples);
    let n = samples.len();
    let d = wav_data_len(n);
    let h = spec_wav_header(n, sample_rate);
    let w = h + spec_pcm16_le(samples);
    let r = (36 + d) as u32;
    let br = (sample_rate * 2) as u32;
    assert(h.len() == 44);
    assert(w.subrange(0, 4) =~= tag_riff());
    assert(w.subrange(4, 8) =~= spec_u32_to_le_bytes(r));
    assert(w.subrange(8, 12) =~= tag_wave());
    assert(w.subrange(12, 16) =~= tag_fmt());
    assert(w.subrange(16, 20) =~= spec_u32_to_le_bytes(16));
    assert(w.subrange(20, 22) =~= spec_u16_to_le_bytes(1));
    assert(w.subrange(22, 24) =~= spec_u16_to_le_bytes(1));
    assert(w.subrange(24, 28) =~= spec_u32_to_le_bytes(sample_rate));
    assert(w.subrange(28, 32) =~= spec_u32_to_le_bytes(br));
    assert(w.subrange(32, 34) =~= spec_u16_to_le_bytes(2));
    assert(w.subrange(34, 36) =~= spec_u16_to_le_bytes(16));
    assert(w.subrange(36, 40) =~= tag_data());
    assert(w.subrange(40, 44) =~= spec_u32_to_le_bytes(d));
    assert(w.subrange(44, w.len() as int) =~= spec_pcm16_le(samples));
}

} // verus!
