//! The frequency sweep of the first sound channel: a counter that shifts
//! the current frequency up or down once per sweep period. Turning the
//! stepped frequencies into samples is the synthesizer's business; this
//! keeps only the integer state.

use vstd::prelude::*;

verus! {

pub struct FrequencyEnvelope {
    initial_frequency: u32,
    current_frequency: u32,
    sweep_direction: bool,
    sweep_shifts: u8,
    sweep_count: u8,
    samples_per_sweep: u32,
    sample_count: u32,
}

impl FrequencyEnvelope {
    pub closed spec fn spec_initial(&self) -> u32 {
        self.initial_frequency
    }

    pub closed spec fn spec_current(&self) -> u32 {
        self.current_frequency
    }

    pub closed spec fn spec_sweep_count(&self) -> u8 {
        self.sweep_count
    }

    pub closed spec fn spec_sample_count(&self) -> u32 {
        self.sample_count
    }

    pub closed spec fn spec_samples_per_sweep(&self) -> u32 {
        self.samples_per_sweep
    }

    pub closed spec fn spec_shifts(&self) -> u8 {
        self.sweep_shifts
    }

    pub closed spec fn spec_direction(&self) -> bool {
        self.sweep_direction
    }

    /// A new envelope: the sweep period in samples is the sweep duration
    /// (in microseconds) times the sample rate.
    pub fn new(
        initial_frequency: u32,
        sweep_duration_micros: u32,
        sweep_direction: bool,
        sweep_shifts: u8,
        sample_rate: u32,
    ) -> (r: Self)
        requires
            sweep_duration_micros * sample_rate / 1000000 <= u32::MAX,
        ensures
            r.spec_initial() == initial_frequency,
            r.spec_current() == initial_frequency,
            r.spec_direction() == sweep_direction,
            r.spec_shifts() == sweep_shifts,
            r.spec_sweep_count() == 0,
            r.spec_sample_count() == 0,
            r.spec_samples_per_sweep() == sweep_duration_micros * sample_rate / 1000000,
    {
        let samples_per_sweep = ((sweep_duration_micros as u64) * (sample_rate as u64)
            / 1000000) as u32;
        FrequencyEnvelope {
            initial_frequency,
            current_frequency: initial_frequency,
            sweep_direction,
            sweep_shifts,
            sweep_count: 0,
            samples_per_sweep,
            sample_count: 0,
        }
    }

    /// Back to the initial frequency with both counters cleared.
    pub fn reset(&mut self)
        ensures
            final(self).spec_current() == old(self).spec_initial(),
            final(self).spec_initial() == old(self).spec_initial(),
            final(self).spec_sweep_count() == 0,
            final(self).spec_sample_count() == 0,
            final(self).spec_samples_per_sweep() == old(self).spec_samples_per_sweep(),
            final(self).spec_shifts() == old(self).spec_shifts(),
            final(self).spec_direction() == old(self).spec_direction(),
    {
        self.sweep_count = 0;
        self.current_frequency = self.initial_frequency;
        self.sample_count = 0;
    }

    /// One sample step: when the sweep period has elapsed the frequency is
    /// shifted by its 2^shifts-th part, up or down; returns the frequency
    /// to synthesize this sample at.
    pub fn advance(&mut self) -> (r: u32)
        requires
            old(self).spec_current() <= 0x7FFFFFFF,
            old(self).spec_shifts() < 32,
            old(self).spec_sweep_count() < 0xFF,
            old(self).spec_sample_count() < 0xFFFFFFFF,
        ensures
            ({
                let swept = old(self).spec_shifts() > 0 && old(self).spec_sample_count() >= old(
                    self,
                ).spec_samples_per_sweep();
                let delta = old(self).spec_current() / (1u32 << old(self).spec_shifts());
                &&& final(self).spec_current() == (if !swept {
                    old(self).spec_current() as int
                } else if old(self).spec_direction() {
                    old(self).spec_current() + delta
                } else {
                    old(self).spec_current() - delta
                })
                &&& final(self).spec_sweep_count() == (if swept {
                    old(self).spec_sweep_count() + 1
                } else {
                    old(self).spec_sweep_count() as int
                })
                &&& final(self).spec_sample_count() == old(self).spec_sample_count() + 1
                &&& r == final(self).spec_current()
            }),
    {
        if self.sweep_shifts > 0 && self.sample_count >= self.samples_per_sweep {
            proof {
                lemma_shift_divides(self.current_frequency, self.sweep_shifts);
            }
            let delta = self.current_frequency / (1u32 << self.sweep_shifts);
            self.current_frequency = if self.sweep_direction {
                self.current_frequency + delta
            } else {
                self.current_frequency - delta
            };
            self.sweep_count = self.sweep_count + 1;
        }
        self.sample_count = self.sample_count + 1;
        self.current_frequency
    }
}

/// Shifting one left by a small positive count gives a divisor of at least
/// two, so the sweep delta never exceeds the current frequency.
proof fn lemma_shift_divides(v: u32, shifts: u8)
    requires
        0 < shifts < 32,
    ensures
        (1u32 << shifts) >= 2,
        v / (1u32 << shifts) <= v,
{
    assert(0 < shifts < 32 ==> (1u32 << shifts) >= 2) by (bit_vector);
    let d = 1u32 << shifts;
    assert(v / d <= v) by (nonlinear_arith)
        requires
            d >= 2,
            v >= 0,
    ;
}

} // verus!
