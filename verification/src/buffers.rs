//! Fixed-size regions of interleaved samples shared by the two sides of a stream.
//!
//! A stream has one input region and one output region. Their lengths are fixed
//! by the channel counts and the block size, so a region is an array: it is
//! never resized, and every index below its length is valid for as long as the
//! pool lives.

use crate::{BLOCK_FRAMES, INPUT_CHANNELS, OUTPUT_CHANNELS};
use vstd::prelude::*;

verus! {

/// Samples in the input region: one block of every input channel.
pub const INPUT_REGION_LEN: usize = INPUT_CHANNELS * BLOCK_FRAMES;

/// Samples in the output region: one block of every output channel.
pub const OUTPUT_REGION_LEN: usize = OUTPUT_CHANNELS * BLOCK_FRAMES;

/// A region of `len` samples that all hold `silence`.
pub open spec fn silent<S>(len: nat, silence: S) -> Seq<S> {
    Seq::new(len, |i: int| silence)
}

/// `region` after the leading samples of `source` were written over it. Where
/// `source` is shorter than `region` the tail of `region` stays; where it is
/// longer, the samples that do not fit are left out.
pub open spec fn overlaid<S>(region: Seq<S>, source: Seq<S>) -> Seq<S> {
    Seq::new(
        region.len(),
        |i: int|
            if i < source.len() {
                source[i]
            } else {
                region[i]
            },
    )
}

/// Writes `value` into every sample of `region`.
pub fn fill_samples<S: Copy>(region: &mut [S], value: S)
    ensures
        final(region)@ == silent(old(region)@.len(), value),
{
    let len = region.len();
    let mut i: usize = 0;
    while i < len
        invariant
            len == region@.len(),
            len == old(region)@.len(),
            i <= len,
            forall|k: int| 0 <= k < i ==> region@[k] == value,
        decreases len - i,
    {
        region[i] = value;
        i = i + 1;
    }
    assert(region@ =~= silent(old(region)@.len(), value));
}

/// Copies the leading samples of `source` over `region`, as many as both hold.
pub fn copy_samples<S: Copy>(region: &mut [S], source: &[S])
    ensures
        final(region)@ == overlaid(old(region)@, source@),
{
    let len = if source.len() < region.len() {
        source.len()
    } else {
        region.len()
    };
    let mut i: usize = 0;
    while i < len
        invariant
            region@.len() == old(region)@.len(),
            len <= region@.len(),
            len <= source@.len(),
            len == source@.len() || len == region@.len(),
            i <= len,
            forall|k: int| 0 <= k < i ==> region@[k] == source@[k],
            forall|k: int| i <= k < region@.len() ==> region@[k] == old(region)@[k],
        decreases len - i,
    {
        region[i] = source[i];
        i = i + 1;
    }
    assert(region@ =~= overlaid(old(region)@, source@));
}

/// What a [`BufferPool`] holds.
pub struct PoolView<S> {
    /// The samples of the input region.
    pub input: Seq<S>,
    /// The samples of the output region.
    pub output: Seq<S>,
    /// The sample value that stands for silence.
    pub silence: S,
}

/// The two sample regions of a stream, with the value that stands for silence.
#[derive(Debug)]
pub struct BufferPool<S> {
    input: [S; INPUT_REGION_LEN],
    output: [S; OUTPUT_REGION_LEN],
    silence: S,
}

impl<S> View for BufferPool<S> {
    type V = PoolView<S>;

    closed spec fn view(&self) -> PoolView<S> {
        PoolView { input: self.input@, output: self.output@, silence: self.silence }
    }
}

impl<S: Copy> BufferPool<S> {
    /// The regions of every pool have the lengths that the channel counts and
    /// the block size give.
    pub proof fn lemma_region_lengths(&self)
        ensures
            self@.input.len() == INPUT_CHANNELS * BLOCK_FRAMES,
            self@.output.len() == OUTPUT_CHANNELS * BLOCK_FRAMES,
    {
        broadcast use vstd::array::array_len_matches_n;

        assert(self.input@.len() == INPUT_REGION_LEN);
        assert(self.output@.len() == OUTPUT_REGION_LEN);
    }

    /// What a new pool holds: `silence` in every sample of both regions.
    pub open spec fn fresh(silence: S) -> PoolView<S> {
        PoolView {
            input: silent(INPUT_REGION_LEN as nat, silence),
            output: silent(OUTPUT_REGION_LEN as nat, silence),
            silence,
        }
    }

    /// A pool whose regions hold `silence` in every sample.
    pub fn new(silence: S) -> (pool: Self)
        ensures
            pool@ == Self::fresh(silence),
    {
        let pool = BufferPool {
            input: [silence;INPUT_REGION_LEN],
            output: [silence;OUTPUT_REGION_LEN],
            silence,
        };
        proof {
            pool.lemma_region_lengths();
            assert(pool@.input =~= silent(INPUT_REGION_LEN as nat, silence));
            assert(pool@.output =~= silent(OUTPUT_REGION_LEN as nat, silence));
        }
        pool
    }

    /// The sample value that stands for silence.
    pub fn silence(&self) -> (silence: S)
        ensures
            silence == self@.silence,
    {
        self.silence
    }

    /// The input region.
    pub fn input(&self) -> (region: &[S])
        ensures
            region@ == self@.input,
            region@.len() == INPUT_REGION_LEN,
    {
        proof {
            self.lemma_region_lengths();
        }
        self.input.as_slice()
    }

    /// The output region.
    pub fn output(&self) -> (region: &[S])
        ensures
            region@ == self@.output,
            region@.len() == OUTPUT_REGION_LEN,
    {
        proof {
            self.lemma_region_lengths();
        }
        self.output.as_slice()
    }

    /// Copies the leading samples of `source` into the input region.
    pub fn load_input(&mut self, source: &[S])
        ensures
            final(self)@ == (PoolView { input: overlaid(old(self)@.input, source@), ..old(self)@ }),
    {
        copy_samples(&mut self.input, source);
    }

    /// Writes silence into every sample of the output region.
    pub fn silence_output(&mut self)
        ensures
            final(self)@ == (PoolView {
                output: silent(OUTPUT_REGION_LEN as nat, old(self)@.silence),
                ..old(self)@
            }),
    {
        proof {
            self.lemma_region_lengths();
        }
        fill_samples(&mut self.output, self.silence);
    }

    /// Copies the leading samples of the output region into `target`.
    pub fn store_output(&self, target: &mut [S])
        ensures
            final(target)@ == overlaid(old(target)@, self@.output),
    {
        copy_samples(target, self.output.as_slice());
    }

    /// The input region and, for writing, the output region.
    pub fn regions(&mut self) -> (regions: (&[S], &mut [S]))
        ensures
            regions.0@ == old(self)@.input,
            regions.1@ == old(self)@.output,
            final(self)@ == (PoolView { output: final(regions.1)@, ..old(self)@ }),
    {
        (self.input.as_slice(), &mut self.output)
    }
}

} // verus!
