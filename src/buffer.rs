//! Immutable, shareable PCM buffers.
use std::sync::Arc;
use vstd::prelude::*;

verus! {

/// Interleaved fixed-point PCM data at a channel count and a sample rate.
///
/// The samples sit behind an `Arc`: cloning a buffer shares them.
#[derive(Clone)]
pub struct SampleBuffer {
    channels: u16,
    sample_rate: u32,
    samples: Arc<Vec<i32>>,
}

impl View for SampleBuffer {
    type V = Seq<i32>;

    closed spec fn view(&self) -> Seq<i32> {
        self.samples@
    }
}

impl SampleBuffer {
    /// Number of interleaved channels the buffer is tagged with.
    pub closed spec fn channel_count(&self) -> u16 {
        self.channels
    }

    /// Sample rate (in Hz) the buffer is tagged with.
    pub closed spec fn rate(&self) -> u32 {
        self.sample_rate
    }

    pub fn new(channels: u16, sample_rate: u32, samples: Vec<i32>) -> (b: SampleBuffer)
        ensures
            b@ == samples@,
            b.channel_count() == channels,
            b.rate() == sample_rate,
    {
        SampleBuffer { channels, sample_rate, samples: Arc::new(samples) }
    }

    pub fn channels(&self) -> (r: u16)
        ensures
            r == self.channel_count(),
    {
        self.channels
    }

    pub fn sample_rate(&self) -> (r: u32)
        ensures
            r == self.rate(),
    {
        self.sample_rate
    }

    pub fn len(&self) -> (r: usize)
        ensures
            r == self@.len(),
    {
        self.samples.len()
    }

    pub fn sample(&self, i: usize) -> (r: i32)
        requires
            i < self@.len(),
        ensures
            r == self@[i as int],
    {
        self.samples[i]
    }
}

} // verus!
