//! A stateful oscillator that walks a lookup table with a fixed-point phase
//! accumulator, at any frequency below its sample rate.

use vstd::prelude::*;

verus! {

/// Modulus of the phase accumulator: one full cycle through the table.
pub const PHI_MAX: i64 = 65536;

/// Millihertz in one hertz.
pub const MILLIHERTZ_PER_HERTZ: u32 = 1000;

/// Abstract state of an oscillator.
pub struct OscState<T> {
    /// Whether the oscillator keeps cycling after a full phase cycle.
    pub repeat: bool,
    /// Whether calls emit samples.
    pub running: bool,
    /// Frequency in millihertz.
    pub mfreq: nat,
    /// Sample rate in millihertz.
    pub msample_rate: nat,
    /// The bound lookup table.
    pub table: Seq<T>,
    /// Phase accumulator.
    pub phi: int,
    /// Phase increment per call.
    pub delta_phi: int,
    /// Table index last selected.
    pub idx: int,
}

/// Phase increment for a frequency and a sample rate, both in millihertz: the
/// product with `PHI_MAX` is taken before the division, which truncates.
pub open spec fn phase_increment(mfreq: int, msample_rate: int) -> int {
    (mfreq * PHI_MAX) / msample_rate
}

/// Largest index used for a table of `len` entries.
pub open spec fn last_index(len: nat) -> int {
    if len == 0 {
        0
    } else {
        len - 1
    }
}

/// Table index selected by phase `phi`: `floor(last_index * phi / PHI_MAX)`.
pub open spec fn index_for(len: nat, phi: int) -> int {
    (last_index(len) * phi) / (PHI_MAX as int)
}

/// Invariant of the abstract state: the phase stays within one cycle, the
/// sample rate is not zero, and the increment is the one that the frequency
/// and the sample rate give, never stale.
pub open spec fn state_wf<T>(s: OscState<T>) -> bool {
    &&& 0 <= s.phi <= PHI_MAX
    &&& 0 <= s.delta_phi
    &&& s.delta_phi == phase_increment(s.mfreq as int, s.msample_rate as int)
    &&& s.msample_rate > 0
    &&& s.mfreq <= u32::MAX
    &&& s.msample_rate <= u32::MAX
}

/// One call: the increment is added to the phase; past `PHI_MAX` the phase wraps,
/// and a single-shot oscillator stops and rewinds to zero. A running oscillator
/// then selects the index for its phase.
pub open spec fn step<T>(s: OscState<T>) -> OscState<T> {
    let p = s.phi + s.delta_phi;
    let wrapped = p > PHI_MAX;
    let phi = if wrapped {
        if s.repeat {
            p - PHI_MAX
        } else {
            0
        }
    } else {
        p
    };
    let running = s.running && !(wrapped && !s.repeat);
    OscState {
        phi,
        running,
        idx: if running {
            index_for(s.table.len(), phi)
        } else {
            s.idx
        },
        ..s
    }
}

/// What a call returns, given the state it leaves: the selected table entry
/// while running, and no sample once stopped.
pub open spec fn emitted<T>(s: OscState<T>) -> Option<T> {
    if s.running {
        Some(s.table[s.idx])
    } else {
        None
    }
}

/// The state after `n` calls.
pub open spec fn steps<T>(s: OscState<T>, n: nat) -> OscState<T>
    decreases n,
{
    if n == 0 {
        s
    } else {
        step(steps(s, (n - 1) as nat))
    }
}

/// The state of a fresh oscillator: repeating, stopped, 440 Hz at 44100 Hz
/// with the increment they give, no table, zero phase.
pub open spec fn initial_state<T>() -> OscState<T> {
    OscState {
        repeat: true,
        running: false,
        mfreq: 440000,
        msample_rate: 44100000,
        table: Seq::empty(),
        phi: 0,
        delta_phi: phase_increment(440000, 44100000),
        idx: 0,
    }
}

fn to_millihertz(hz: u32) -> (r: u32)
    requires
        hz * MILLIHERTZ_PER_HERTZ <= u32::MAX,
    ensures
        r == hz * MILLIHERTZ_PER_HERTZ,
{
    hz * MILLIHERTZ_PER_HERTZ
}

fn from_millihertz(mhz: u32) -> (r: u32)
    ensures
        r == mhz / MILLIHERTZ_PER_HERTZ,
{
    mhz / MILLIHERTZ_PER_HERTZ
}

/// Stateful wavetable signal generator.
pub struct WaveTableOscillator<T: 'static> {
    repeat: bool,
    running: bool,
    mfreq: u32,
    msample_rate: u32,
    wavetable: &'static [T],
    phi: i64,
    phi_max: i64,
    delta_phi: i64,
    idx: usize,
    idx_max: usize,
}

impl<T: 'static> View for WaveTableOscillator<T> {
    type V = OscState<T>;

    closed spec fn view(&self) -> OscState<T> {
        OscState {
            repeat: self.repeat,
            running: self.running,
            mfreq: self.mfreq as nat,
            msample_rate: self.msample_rate as nat,
            table: self.wavetable@,
            phi: self.phi as int,
            delta_phi: self.delta_phi as int,
            idx: self.idx as int,
        }
    }
}

impl<T: 'static> WaveTableOscillator<T> {
    /// The abstract state is well formed and the cached bounds match it.
    pub closed spec fn wf(&self) -> bool {
        &&& state_wf(self@)
        &&& self.phi_max == PHI_MAX
        &&& self.idx_max == last_index(self.wavetable@.len())
    }

    /// A well-formed oscillator has a well-formed abstract state.
    pub proof fn lemma_wf_state(&self)
        requires
            self.wf(),
        ensures
            state_wf(self@),
    {
    }

    fn update_idx(&mut self)
        requires
            old(self).wf(),
        ensures
            final(self).wf(),
            final(self)@ == (OscState {
                idx: index_for(old(self)@.table.len(), old(self)@.phi),
                ..old(self)@
            }),
    {
        let a: u128 = self.idx_max as u128;
        let p: u128 = self.phi as u128;
        proof {
            assert(a * p <= a * 65536) by (nonlinear_arith)
                requires
                    p <= 65536,
            ;
            assert(a * p <= 0x1_0000_0000_0000_0000_0000) by (nonlinear_arith)
                requires
                    a * p <= a * 65536,
                    a < 0x1_0000_0000_0000_0000,
            ;
            assert((a * p) / 65536 <= a) by (nonlinear_arith)
                requires
                    a * p <= a * 65536,
            ;
        }
        let q: u128 = (a * p) / (self.phi_max as u128);
        self.idx = q as usize;
    }

    fn update_delta_phi(&mut self)
        requires
            0 <= old(self).phi <= PHI_MAX,
            old(self).msample_rate > 0,
            old(self).phi_max == PHI_MAX,
            old(self).idx_max == last_index(old(self).wavetable@.len()),
        ensures
            final(self).wf(),
            final(self)@ == (OscState {
                delta_phi: phase_increment(old(self)@.mfreq as int, old(self)@.msample_rate as int),
                ..old(self)@
            }),
    {
        let f: i64 = self.mfreq as i64;
        let m: i64 = self.msample_rate as i64;
        proof {
            assert(0 <= f * 65536 <= 0xffff_ffff * 65536) by (nonlinear_arith)
                requires
                    0 <= f <= 0xffff_ffff,
            ;
            assert((f * 65536) / (m as int) >= 0) by (nonlinear_arith)
                requires
                    f >= 0,
                    m > 0,
            ;
        }
        self.delta_phi = (f * self.phi_max) / m;
    }

    /// Sets whether the oscillator keeps cycling after a full phase cycle.
    pub fn set_repeat(&mut self, repeat: bool)
        requires
            old(self).wf(),
        ensures
            final(self).wf(),
            final(self)@ == (OscState { repeat, ..old(self)@ }),
    {
        self.repeat = repeat;
    }

    /// Sets the oscillator running.
    pub fn start(&mut self)
        requires
            old(self).wf(),
        ensures
            final(self).wf(),
            final(self)@ == (OscState { running: true, ..old(self)@ }),
    {
        self.running = true;
    }

    /// Stops the oscillator; the phase is kept.
    pub fn stop(&mut self)
        requires
            old(self).wf(),
        ensures
            final(self).wf(),
            final(self)@ == (OscState { running: false, ..old(self)@ }),
    {
        self.running = false;
    }

    /// Resets the phase accumulator to zero.
    pub fn reset(&mut self)
        requires
            old(self).wf(),
        ensures
            final(self).wf(),
            final(self)@ == (OscState { phi: 0, ..old(self)@ }),
    {
        self.phi = 0;
    }

    /// Resets the phase accumulator and sets the oscillator running.
    pub fn reset_and_start(&mut self)
        requires
            old(self).wf(),
        ensures
            final(self).wf(),
            final(self)@ == (OscState { phi: 0, running: true, ..old(self)@ }),
    {
        self.reset();
        self.running = true;
    }

    /// Stops the oscillator and resets the phase accumulator.
    pub fn stop_and_reset(&mut self)
        requires
            old(self).wf(),
        ensures
            final(self).wf(),
            final(self)@ == (OscState { phi: 0, running: false, ..old(self)@ }),
    {
        self.running = false;
        self.reset();
    }

    /// Whether the oscillator is running.
    pub fn is_running(&self) -> (r: bool)
        ensures
            r == self@.running,
    {
        self.running
    }

    /// Sets the frequency in millihertz and recomputes the phase increment.
    pub fn set_mfreq(&mut self, mfreq: u32)
        requires
            old(self).wf(),
        ensures
            final(self).wf(),
            final(self)@ == (OscState {
                mfreq: mfreq as nat,
                delta_phi: phase_increment(mfreq as int, old(self)@.msample_rate as int),
                ..old(self)@
            }),
    {
        self.mfreq = mfreq;
        self.update_delta_phi();
    }

    /// Sets the frequency in hertz and recomputes the phase increment.
    pub fn set_freq(&mut self, freq: u32)
        requires
            old(self).wf(),
            freq * MILLIHERTZ_PER_HERTZ <= u32::MAX,
        ensures
            final(self).wf(),
            final(self)@ == (OscState {
                mfreq: (freq * MILLIHERTZ_PER_HERTZ) as nat,
                delta_phi: phase_increment(
                    freq * MILLIHERTZ_PER_HERTZ,
                    old(self)@.msample_rate as int,
                ),
                ..old(self)@
            }),
    {
        self.mfreq = to_millihertz(freq);
        self.update_delta_phi();
    }

    /// Sets the sample rate in millihertz and recomputes the phase increment.
    pub fn set_msample_rate(&mut self, msample_rate: u32)
        requires
            old(self).wf(),
            msample_rate > 0,
        ensures
            final(self).wf(),
            final(self)@ == (OscState {
                msample_rate: msample_rate as nat,
                delta_phi: phase_increment(old(self)@.mfreq as int, msample_rate as int),
                ..old(self)@
            }),
    {
        self.msample_rate = msample_rate;
        self.update_delta_phi();
    }

    /// Sets the sample rate in hertz and recomputes the phase increment.
    pub fn set_sample_rate(&mut self, sample_rate: u32)
        requires
            old(self).wf(),
            sample_rate > 0,
            sample_rate * MILLIHERTZ_PER_HERTZ <= u32::MAX,
        ensures
            final(self).wf(),
            final(self)@ == (OscState {
                msample_rate: (sample_rate * MILLIHERTZ_PER_HERTZ) as nat,
                delta_phi: phase_increment(
                    old(self)@.mfreq as int,
                    sample_rate * MILLIHERTZ_PER_HERTZ,
                ),
                ..old(self)@
            }),
    {
        self.msample_rate = to_millihertz(sample_rate);
        self.update_delta_phi();
    }

    /// The output sample rate in whole hertz.
    pub fn sample_rate(&self) -> (r: u32)
        ensures
            r == self@.msample_rate / (MILLIHERTZ_PER_HERTZ as nat),
    {
        from_millihertz(self.msample_rate)
    }

    /// Binds a lookup table; the phase and the running state are kept.
    fn bind(&mut self, wavetable: &'static [T])
        requires
            old(self).wf(),
        ensures
            final(self).wf(),
            final(self)@ == (OscState { table: wavetable@, ..old(self)@ }),
    {
        self.wavetable = wavetable;
        let len = self.wavetable.len();
        self.idx_max = if len == 0 {
            0
        } else {
            len - 1
        };
    }

    /// Advances the phase by one call and, while running, selects the index.
    fn advance(&mut self)
        requires
            old(self).wf(),
            old(self)@.delta_phi < PHI_MAX,
        ensures
            final(self).wf(),
            final(self)@ == step(old(self)@),
    {
        self.phi = self.phi + self.delta_phi;
        if self.phi > self.phi_max {
            self.phi = self.phi - self.phi_max;
            if !self.repeat {
                self.stop_and_reset();
            }
        }
        if self.is_running() {
            self.update_idx();
        }
    }
}

/// A running oscillator selects an index inside its table.
pub proof fn lemma_index_in_table(len: nat, phi: int)
    requires
        len > 0,
        0 <= phi <= PHI_MAX,
    ensures
        0 <= index_for(len, phi) < len,
{
    let a = last_index(len);
    assert(a * phi <= a * 65536) by (nonlinear_arith)
        requires
            0 <= phi <= 65536,
            a >= 0,
    ;
    assert(0 <= (a * phi) / 65536 <= a) by (nonlinear_arith)
        requires
            a * phi <= a * 65536,
            a >= 0,
            phi >= 0,
    ;
}

impl WaveTableOscillator<i32> {
    /// A stopped, repeating oscillator at zero phase with no table bound, set to
    /// 440 Hz at a sample rate of 44100 Hz.
    pub fn new() -> (r: Self)
        ensures
            r.wf(),
            r@ == initial_state::<i32>(),
    {
        let empty: &'static [i32] = &[];
        assert(empty@ =~= Seq::<i32>::empty());
        let mut r = Self {
            repeat: true,
            running: false,
            mfreq: to_millihertz(440),
            msample_rate: to_millihertz(44100),
            wavetable: empty,
            phi: 0,
            phi_max: PHI_MAX,
            delta_phi: 0,
            idx: 0,
            idx_max: 0,
        };
        r.update_delta_phi();
        r
    }

    /// Advances the phase accumulator and returns the next sample, or `None`
    /// when the oscillator is not running.
    pub fn _next(&mut self) -> (r: Option<i32>)
        requires
            old(self).wf(),
            old(self)@.table.len() > 0,
            old(self)@.delta_phi < PHI_MAX,
        ensures
            final(self).wf(),
            final(self)@ == step(old(self)@),
            r == emitted(final(self)@),
    {
        self.advance();
        if self.is_running() {
            proof {
                lemma_index_in_table(self@.table.len(), self@.phi);
            }
            Some(self.wavetable[self.idx])
        } else {
            None
        }
    }

    /// Binds the lookup table.
    pub fn set_wavetable(&mut self, wavetable: &'static [i32])
        requires
            old(self).wf(),
        ensures
            final(self).wf(),
            final(self)@ == (OscState { table: wavetable@, ..old(self)@ }),
    {
        self.bind(wavetable);
    }
}

impl WaveTableOscillator<i16> {
    /// A stopped, repeating oscillator at zero phase with no table bound, set to
    /// 440 Hz at a sample rate of 44100 Hz.
    pub fn new() -> (r: Self)
        ensures
            r.wf(),
            r@ == initial_state::<i16>(),
    {
        let empty: &'static [i16] = &[];
        assert(empty@ =~= Seq::<i16>::empty());
        let mut r = Self {
            repeat: true,
            running: false,
            mfreq: to_millihertz(440),
            msample_rate: to_millihertz(44100),
            wavetable: empty,
            phi: 0,
            phi_max: PHI_MAX,
            delta_phi: 0,
            idx: 0,
            idx_max: 0,
        };
        r.update_delta_phi();
        r
    }

    /// Advances the phase accumulator and returns the next sample, or `None`
    /// when the oscillator is not running.
    pub fn _next(&mut self) -> (r: Option<i16>)
        requires
            old(self).wf(),
            old(self)@.table.len() > 0,
            old(self)@.delta_phi < PHI_MAX,
        ensures
            final(self).wf(),
            final(self)@ == step(old(self)@),
            r == emitted(final(self)@),
    {
        self.advance();
        if self.is_running() {
            proof {
                lemma_index_in_table(self@.table.len(), self@.phi);
            }
            Some(self.wavetable[self.idx])
        } else {
            None
        }
    }

    /// Binds the lookup table.
    pub fn set_wavetable(&mut self, wavetable: &'static [i16])
        requires
            old(self).wf(),
        ensures
            final(self).wf(),
            final(self)@ == (OscState { table: wavetable@, ..old(self)@ }),
    {
        self.bind(wavetable);
    }
}

/// Oscillator over a table of 16-bit samples.
pub type WaveTableOsc16 = WaveTableOscillator<i16>;

/// Oscillator over a table of 32-bit samples.
pub type WaveTableOsc32 = WaveTableOscillator<i32>;

} // verus!
