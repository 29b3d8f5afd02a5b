//! A wavetable signal generator: a phase-accumulator oscillator whose sample
//! rate setters take the names `set_samplerate` and `set_msamplerate`.

use vstd::prelude::*;
use crate::osc::wave_table_osc::{
    MILLIHERTZ_PER_HERTZ,
    OscState,
    PHI_MAX,
    WaveTableOscillator,
    emitted,
    initial_state,
    phase_increment,
    state_wf,
    step,
};

verus! {

/// Stateful wavetable signal generator.
pub struct SignalGenerator<T: 'static> {
    osc: WaveTableOscillator<T>,
}

impl<T: 'static> View for SignalGenerator<T> {
    type V = OscState<T>;

    closed spec fn view(&self) -> OscState<T> {
        self.osc@
    }
}

impl<T: 'static> SignalGenerator<T> {
    /// The abstract state is well formed and the cached bounds match it.
    pub closed spec fn wf(&self) -> bool {
        self.osc.wf()
    }

    /// A well-formed generator has a well-formed abstract state.
    pub proof fn lemma_wf_state(&self)
        requires
            self.wf(),
        ensures
            state_wf(self@),
    {
        self.osc.lemma_wf_state();
    }

    /// Sets whether the generator keeps cycling after a full phase cycle.
    pub fn set_repeat(&mut self, repeat: bool)
        requires
            old(self).wf(),
        ensures
            final(self).wf(),
            final(self)@ == (OscState { repeat, ..old(self)@ }),
    {
        self.osc.set_repeat(repeat);
    }

    /// Sets the generator running.
    pub fn start(&mut self)
        requires
            old(self).wf(),
        ensures
            final(self).wf(),
            final(self)@ == (OscState { running: true, ..old(self)@ }),
    {
        self.osc.start();
    }

    /// Stops the generator; the phase is kept.
    pub fn stop(&mut self)
        requires
            old(self).wf(),
        ensures
            final(self).wf(),
            final(self)@ == (OscState { running: false, ..old(self)@ }),
    {
        self.osc.stop();
    }

    /// Resets the phase accumulator to zero.
    pub fn reset(&mut self)
        requires
            old(self).wf(),
        ensures
            final(self).wf(),
            final(self)@ == (OscState { phi: 0, ..old(self)@ }),
    {
        self.osc.reset();
    }

    /// Resets the phase accumulator and sets the generator running.
    pub fn reset_and_start(&mut self)
        requires
            old(self).wf(),
        ensures
            final(self).wf(),
            final(self)@ == (OscState { phi: 0, running: true, ..old(self)@ }),
    {
        self.osc.reset_and_start();
    }

    /// Stops the generator and resets the phase accumulator.
    pub fn stop_and_reset(&mut self)
        requires
            old(self).wf(),
        ensures
            final(self).wf(),
            final(self)@ == (OscState { phi: 0, running: false, ..old(self)@ }),
    {
        self.osc.stop_and_reset();
    }

    /// Whether the generator is running.
    pub fn is_running(&self) -> (r: bool)
        ensures
            r == self@.running,
    {
        self.osc.is_running()
    }

    /// Sets the frequency in millihertz and recomputes the phase increment.
    pub fn set_mfreq(&mut self, mfreq: u32)
        requires
            old(self).wf(),
        ensures
            final(self).wf(),
            final(self)@ == (OscState {
                mfreq: mfreq as nat,
                delta_phi: phase_increment(mfreq as int, old(self)@.msample_rate as int),
                ..old(self)@
            }),
    {
        self.osc.set_mfreq(mfreq);
    }

    /// Sets the frequency in hertz and recomputes the phase increment.
    pub fn set_freq(&mut self, freq: u32)
        requires
            old(self).wf(),
            freq * MILLIHERTZ_PER_HERTZ <= u32::MAX,
        ensures
            final(self).wf(),
            final(self)@ == (OscState {
                mfreq: (freq * MILLIHERTZ_PER_HERTZ) as nat,
                delta_phi: phase_increment(
                    freq * MILLIHERTZ_PER_HERTZ,
                    old(self)@.msample_rate as int,
                ),
                ..old(self)@
            }),
    {
        self.osc.set_freq(freq);
    }

    /// Sets the sample rate in millihertz and recomputes the phase increment.
    pub fn set_msamplerate(&mut self, msample_rate: u32)
        requires
            old(self).wf(),
            msample_rate > 0,
        ensures
            final(self).wf(),
            final(self)@ == (OscState {
                msample_rate: msample_rate as nat,
                delta_phi: phase_increment(old(self)@.mfreq as int, msample_rate as int),
                ..old(self)@
            }),
    {
        self.osc.set_msample_rate(msample_rate);
    }

    /// Sets the sample rate in hertz and recomputes the phase increment.
    pub fn set_samplerate(&mut self, sample_rate: u32)
        requires
            old(self).wf(),
            sample_rate > 0,
            sample_rate * MILLIHERTZ_PER_HERTZ <= u32::MAX,
        ensures
            final(self).wf(),
            final(self)@ == (OscState {
                msample_rate: (sample_rate * MILLIHERTZ_PER_HERTZ) as nat,
                delta_phi: phase_increment(
                    old(self)@.mfreq as int,
                    sample_rate * MILLIHERTZ_PER_HERTZ,
                ),
                ..old(self)@
            }),
    {
        self.osc.set_sample_rate(sample_rate);
    }

    /// The output sample rate in whole hertz.
    pub fn sample_rate(&self) -> (r: u32)
        ensures
            r == self@.msample_rate / (MILLIHERTZ_PER_HERTZ as nat),
    {
        self.osc.sample_rate()
    }
}

impl SignalGenerator<i32> {
    /// A stopped, repeating generator at zero phase with no table bound, set to
    /// 440 Hz at a sample rate of 44100 Hz.
    pub fn new() -> (r: Self)
        ensures
            r.wf(),
            r@ == initial_state::<i32>(),
    {
        Self { osc: WaveTableOscillator::<i32>::new() }
    }

    /// Advances the phase accumulator and returns the next sample, or `None`
    /// when the generator is not running.
    pub fn _next(&mut self) -> (r: Option<i32>)
        requires
            old(self).wf(),
            old(self)@.table.len() > 0,
            old(self)@.delta_phi < PHI_MAX,
        ensures
            final(self).wf(),
            final(self)@ == step(old(self)@),
            r == emitted(final(self)@),
    {
        self.osc._next()
    }

    /// Binds the lookup table.
    pub fn set_wavetable(&mut self, wavetable: &'static [i32])
        requires
            old(self).wf(),
        ensures
            final(self).wf(),
            final(self)@ == (OscState { table: wavetable@, ..old(self)@ }),
    {
        self.osc.set_wavetable(wavetable);
    }
}

impl SignalGenerator<i16> {
    /// A stopped, repeating generator at zero phase with no table bound, set to
    /// 440 Hz at a sample rate of 44100 Hz.
    pub fn new() -> (r: Self)
        ensures
            r.wf(),
            r@ == initial_state::<i16>(),
    {
        Self { osc: WaveTableOscillator::<i16>::new() }
    }

    /// Advances the phase accumulator and returns the next sample, or `None`
    /// when the generator is not running.
    pub fn _next(&mut self) -> (r: Option<i16>)
        requires
            old(self).wf(),
            old(self)@.table.len() > 0,
            old(self)@.delta_phi < PHI_MAX,
        ensures
            final(self).wf(),
            final(self)@ == step(old(self)@),
            r == emitted(final(self)@),
    {
        self.osc._next()
    }

    /// Binds the lookup table.
    pub fn set_wavetable(&mut self, wavetable: &'static [i16])
        requires
            old(self).wf(),
        ensures
            final(self).wf(),
            final(self)@ == (OscState { table: wavetable@, ..old(self)@ }),
    {
        self.osc.set_wavetable(wavetable);
    }
}

} // verus!
