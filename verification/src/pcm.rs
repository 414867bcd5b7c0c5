//! Assembly of resampled frames into one output buffer.
//!
//! A resampled frame holds packed 32-bit samples, least significant byte
//! first. Its buffer may be longer than what is valid in it, so the valid
//! span is computed from the sample and channel counts and checked against
//! the buffer before a byte is read. Each sample is kept as its 32 bits.

use vstd::prelude::*;
use crate::error::Error;

verus! {

/// The count of bytes that are valid in a frame of `samples` samples on
/// each of `channels` channels, at four bytes to the sample.
pub open spec fn spec_valid_span(samples: nat, channels: nat) -> nat {
    samples * channels * 4
}

/// The 32 bits that four bytes stand for, the least significant first.
pub open spec fn spec_word(b0: u8, b1: u8, b2: u8, b3: u8) -> u32 {
    (b0 as int + b1 as int * 0x100 + b2 as int * 0x1_0000 + b3 as int * 0x100_0000) as u32
}

/// The samples that a run of bytes holds, four bytes to each.
pub open spec fn spec_words(bytes: Seq<u8>) -> Seq<u32> {
    Seq::new(
        (bytes.len() / 4) as nat,
        |i: int| spec_word(bytes[4 * i], bytes[4 * i + 1], bytes[4 * i + 2], bytes[4 * i + 3]),
    )
}

/// The samples of a frame: those of the valid span at the front of its buffer.
pub open spec fn spec_frame_samples(buffer: Seq<u8>, samples: nat, channels: nat) -> Seq<u32>
    recommends
        spec_valid_span(samples, channels) <= buffer.len(),
{
    spec_words(buffer.subrange(0, spec_valid_span(samples, channels) as int))
}

/// Computes the valid byte span of a frame, where it lies within a buffer
/// of `capacity` bytes.
pub fn valid_span(samples: usize, channels: u16, capacity: usize) -> (span: Option<usize>)
    ensures
        span.is_some() == (spec_valid_span(samples as nat, channels as nat) <= capacity),
        span.is_some() ==> span.unwrap() == spec_valid_span(samples as nat, channels as nat),
{
    let s: u128 = samples as u128;
    let c: u128 = channels as u128;
    assert(s * c <= 0xffff_ffff_ffff_ffff * 0xffff) by (nonlinear_arith)
        requires
            0 <= s <= 0xffff_ffff_ffff_ffff,
            0 <= c <= 0xffff,
    ;
    let span: u128 = s * c * 4;
    if span <= capacity as u128 {
        Some(span as usize)
    } else {
        None
    }
}

/// Reads the sample that starts at byte `at`.
pub fn read_word(buffer: &[u8], at: usize) -> (word: u32)
    requires
        at + 4 <= buffer@.len(),
    ensures
        word == spec_word(
            buffer@[at as int],
            buffer@[at + 1],
            buffer@[at + 2],
            buffer@[at + 3],
        ),
{
    let b0: u32 = buffer[at] as u32;
    let b1: u32 = buffer[at + 1] as u32;
    let b2: u32 = buffer[at + 2] as u32;
    let b3: u32 = buffer[at + 3] as u32;
    b0 + b1 * 0x100 + b2 * 0x1_0000 + b3 * 0x100_0000
}

/// Appends the samples of a frame to the output. The frame holds `samples`
/// samples on each of `channels` channels at the front of `buffer`. Where
/// the buffer is shorter than that, nothing is read and the output stays as
/// it was.
pub fn append_samples(out: &mut Vec<u32>, buffer: &[u8], samples: usize, channels: u16) -> (done:
    Result<(), Error>)
    ensures
        done.is_ok() == (spec_valid_span(samples as nat, channels as nat) <= buffer@.len()),
        done.is_ok() ==> final(out)@ == old(out)@ + spec_frame_samples(
            buffer@,
            samples as nat,
            channels as nat,
        ),
        done.is_ok() ==> final(out)@.len() == old(out)@.len() + samples * channels,
        done.is_err() ==> done == Err::<(), Error>(Error::CodecError) && final(out)@ == old(out)@,
{
    let span: usize = match valid_span(samples, channels, buffer.len()) {
        Some(span) => span,
        None => {
            return Err(Error::CodecError);
        },
    };
    let count: usize = span / 4;
    assert(count == samples * channels) by (nonlinear_arith)
        requires
            span == samples * channels * 4,
            count == span / 4,
    ;
    let ghost valid = buffer@.subrange(0, span as int);
    let ghost words = spec_words(valid);
    let mut i: usize = 0;
    while i < count
        invariant
            i <= count,
            count == span / 4,
            span <= buffer@.len(),
            valid == buffer@.subrange(0, span as int),
            words == spec_words(valid),
            words.len() == count,
            out@ == old(out)@ + words.subrange(0, i as int),
        decreases count - i,
    {
        let word: u32 = read_word(buffer, 4 * i);
        proof {
            assert(words[i as int] == word);
            assert(words.subrange(0, i + 1) =~= words.subrange(0, i as int).push(word));
        }
        out.push(word);
        i += 1;
    }
    assert(words.subrange(0, count as int) =~= words);
    Ok(())
}

/// The output after a run of frames was appended to an empty buffer, one
/// after another: the first frame is the one that the resampler's run
/// filled, the others those that each flush filled. A frame is given by its
/// buffer and its counts of samples and channels.
pub open spec fn spec_assembled(frames: Seq<(Seq<u8>, nat, nat)>) -> Seq<u32>
    decreases frames.len(),
{
    if frames.len() == 0 {
        Seq::empty()
    } else {
        spec_assembled(frames.drop_last()) + spec_frame_samples(
            frames.last().0,
            frames.last().1,
            frames.last().2,
        )
    }
}

/// The samples that a run of frames holds in all.
pub open spec fn spec_sample_count(frames: Seq<(Seq<u8>, nat, nat)>) -> nat
    decreases frames.len(),
{
    if frames.len() == 0 {
        0
    } else {
        spec_sample_count(frames.drop_last()) + frames.last().1 * frames.last().2
    }
}

/// A frame whose valid span lies within its buffer holds one sample for
/// each channel of each of its samples.
pub proof fn lemma_frame_sample_count(buffer: Seq<u8>, samples: nat, channels: nat)
    requires
        spec_valid_span(samples, channels) <= buffer.len(),
    ensures
        spec_frame_samples(buffer, samples, channels).len() == samples * channels,
{
    assert((samples * channels * 4) / 4 == samples * channels) by (nonlinear_arith);
}

/// What was appended for a run and the flushes after it is exactly the sum
/// of what each of them gave: nothing is lost and nothing comes twice.
pub proof fn lemma_assembled_is_sum(frames: Seq<(Seq<u8>, nat, nat)>)
    requires
        forall|i: int|
            0 <= i < frames.len() ==> spec_valid_span(
                (#[trigger] frames[i]).1,
                frames[i].2,
            ) <= frames[i].0.len(),
    ensures
        spec_assembled(frames).len() == spec_sample_count(frames),
    decreases frames.len(),
{
    if frames.len() > 0 {
        let last = frames.last();
        lemma_assembled_is_sum(frames.drop_last());
        lemma_frame_sample_count(last.0, last.1, last.2);
    }
}

} // verus!
