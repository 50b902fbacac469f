//! Audio payload encoding: each signed 16-bit sample is appended in
//! little-endian byte order, so a payload of `N` samples is exactly `2 * N`
//! bytes.

use vstd::prelude::*;

use crate::frame::MSG_TYPE_AUDIO;
use crate::frame::spec_frame;
use crate::frame::write_framed_message;

verus! {

/// The two little-endian bytes of one signed 16-bit sample.
pub open spec fn i16_le(s: i16) -> Seq<u8> {
    let v: int = if s >= 0 {
        s as int
    } else {
        s + 0x10000
    };
    seq![(v % 256) as u8, (v / 256) as u8]
}

/// The little-endian byte encoding of a whole sample sequence.
pub open spec fn spec_pcm(samples: Seq<i16>) -> Seq<u8>
    decreases samples.len(),
{
    if samples.len() == 0 {
        seq![]
    } else {
        spec_pcm(samples.drop_last()) + i16_le(samples.last())
    }
}

/// An encoded sample sequence is exactly twice as long as the sequence.
pub proof fn lemma_pcm_length(samples: Seq<i16>)
    ensures
        spec_pcm(samples).len() == 2 * samples.len(),
    decreases samples.len(),
{
    if samples.len() > 0 {
        lemma_pcm_length(samples.drop_last());
    }
}

/// Encoding distributes over concatenation: the payloads of frames emitted
/// chunk by chunk, joined in order, are exactly the encoding of the whole
/// sample stream, so framing loses nothing at chunk boundaries.
pub proof fn lemma_pcm_concat(a: Seq<i16>, b: Seq<i16>)
    ensures
        spec_pcm(a + b) == spec_pcm(a) + spec_pcm(b),
    decreases b.len(),
{
    if b.len() == 0 {
        assert(a + b =~= a);
        assert(spec_pcm(a) + spec_pcm(b) =~= spec_pcm(a));
    } else {
        lemma_pcm_concat(a, b.drop_last());
        assert((a + b).drop_last() =~= a + b.drop_last());
        assert(spec_pcm(a) + spec_pcm(b) =~= (spec_pcm(a) + spec_pcm(b.drop_last())) + i16_le(
            b.last(),
        ));
    }
}

/// Encode samples as little-endian signed 16-bit PCM bytes.
pub fn pcm_bytes(samples: &Vec<i16>) -> (r: Vec<u8>)
    ensures
        r@ == spec_pcm(samples@),
        r@.len() == 2 * samples@.len(),
{
    let mut out: Vec<u8> = Vec::new();
    let mut i: usize = 0;
    while i < samples.len()
        invariant
            i <= samples@.len(),
            out@.len() == 2 * i,
            out@ == spec_pcm(samples@.subrange(0, i as int)),
        decreases samples@.len() - i,
    {
        let v: i32 = samples[i] as i32;
        let w: u32 = if v >= 0 {
            v as u32
        } else {
            (v + 0x10000) as u32
        };
        out.push((w % 256) as u8);
        out.push((w / 256) as u8);
        i = i + 1;
        proof {
            let sub = samples@.subrange(0, i as int);
            assert(sub.drop_last() =~= samples@.subrange(0, i - 1));
        }
    }
    proof {
        assert(samples@.subrange(0, samples@.len() as int) =~= samples@);
    }
    out
}

/// Build one audio frame: tag 2, then the PCM encoding of the samples.
pub fn audio_frame(samples: &Vec<i16>) -> (frame: Vec<u8>)
    requires
        2 * samples@.len() <= u32::MAX,
    ensures
        frame@ == spec_frame(MSG_TYPE_AUDIO, spec_pcm(samples@)),
        frame@.len() == 5 + 2 * samples@.len(),
{
    let payload = pcm_bytes(samples);
    write_framed_message(MSG_TYPE_AUDIO, &payload)
}

} // verus!
