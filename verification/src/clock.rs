use vstd::prelude::*;

verus! {

/// Per-stream playback state handed to the sample generator on every frame.
///
/// `sample_clock` counts sample positions within one period of length
/// `sample_rate`; it always stays below `sample_rate`. `sample_count` counts
/// how many whole periods have elapsed and drives the chord progression.
pub struct SampleRequestOptions {
    pub sample_rate: u32,
    pub sample_clock: u32,
    pub nchannels: usize,
    pub sample_count: usize,
}

/// One clock step: the position moves up by one sample and wraps to zero at
/// the end of the period, counting one more elapsed period; the period
/// counter itself wraps at the integer width.
pub open spec fn spec_tick(s: SampleRequestOptions) -> SampleRequestOptions {
    if s.sample_clock + 1 == s.sample_rate {
        SampleRequestOptions {
            sample_clock: 0,
            sample_count: if s.sample_count == usize::MAX {
                0
            } else {
                (s.sample_count + 1) as usize
            },
            ..s
        }
    } else {
        SampleRequestOptions { sample_clock: (s.sample_clock + 1) as u32, ..s }
    }
}

/// The clock after `n` steps from `s`.
pub open spec fn spec_tick_n(s: SampleRequestOptions, n: nat) -> SampleRequestOptions
    decreases n,
{
    if n == 0 {
        s
    } else {
        spec_tick(spec_tick_n(s, (n - 1) as nat))
    }
}

/// Stepping the clock through the rest of its period leaves the position at
/// zero and counts exactly one more elapsed period; any shorter run only
/// moves the position forward and counts nothing.
pub proof fn lemma_clock_wraps_after_one_period(s: SampleRequestOptions, n: nat)
    requires
        s.wf(),
        s.sample_count < usize::MAX,
        n <= s.sample_rate - s.sample_clock,
    ensures
        n < s.sample_rate - s.sample_clock ==> spec_tick_n(s, n)
            == (SampleRequestOptions { sample_clock: (s.sample_clock + n) as u32, ..s }),
        n == s.sample_rate - s.sample_clock ==> spec_tick_n(s, n)
            == (SampleRequestOptions {
                sample_clock: 0,
                sample_count: (s.sample_count + 1) as usize,
                ..s
            }),
    decreases n,
{
    if n > 0 {
        lemma_clock_wraps_after_one_period(s, (n - 1) as nat);
    }
}

impl SampleRequestOptions {
    /// The clock is meaningful only while the position lies inside one period.
    pub open spec fn wf(&self) -> bool {
        0 < self.sample_rate && self.sample_clock < self.sample_rate
    }

    /// Builds a fresh clock at the start of a period.
    pub fn new(sample_rate: u32, nchannels: usize) -> (r: Self)
        requires
            0 < sample_rate,
        ensures
            r.wf(),
            r.sample_rate == sample_rate,
            r.sample_clock == 0,
            r.nchannels == nchannels,
            r.sample_count == 0,
    {
        SampleRequestOptions { sample_rate, sample_clock: 0, nchannels, sample_count: 0 }
    }

    /// Advances the clock by exactly one sample. When the position would
    /// reach `sample_rate` it wraps to zero and one more elapsed period is
    /// counted; the period counter itself wraps at the integer width.
    pub fn tick(&mut self)
        requires
            old(self).wf(),
        ensures
            *final(self) == spec_tick(*old(self)),
            final(self).wf(),
            final(self).sample_rate == old(self).sample_rate,
            final(self).nchannels == old(self).nchannels,
            old(self).sample_clock + 1 < old(self).sample_rate ==> {
                &&& final(self).sample_clock == old(self).sample_clock + 1
                &&& final(self).sample_count == old(self).sample_count
            },
            old(self).sample_clock + 1 == old(self).sample_rate ==> {
                &&& final(self).sample_clock == 0
                &&& final(self).sample_count == (
                    if old(self).sample_count == usize::MAX {
                        0usize
                    } else {
                        (old(self).sample_count + 1) as usize
                    })
            },
    {
        if self.sample_clock + 1 == self.sample_rate {
            self.sample_clock = 0;
            if self.sample_count == usize::MAX {
                self.sample_count = 0;
            } else {
                self.sample_count = self.sample_count + 1;
            }
        } else {
            self.sample_clock = self.sample_clock + 1;
        }
    }
}

} // verus!
