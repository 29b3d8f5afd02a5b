//! Laws of the phase accumulator over many calls.

use vstd::prelude::*;
use vstd::arithmetic::div_mod::{
    lemma_fundamental_div_mod,
    lemma_mod_multiples_basic,
    lemma_multiply_divide_lt,
};
use vstd::arithmetic::mul::{lemma_mul_inequality, lemma_mul_strict_inequality};
use crate::osc::wave_table_osc::{
    OscState,
    PHI_MAX,
    emitted,
    index_for,
    phase_increment,
    state_wf,
    step,
    steps,
};

verus! {

/// Greatest common divisor, by Euclid's algorithm.
pub open spec fn gcd(a: nat, b: nat) -> nat
    decreases b,
{
    if b == 0 {
        a
    } else {
        gcd(b, a % b)
    }
}

/// Calls after which an increment of `delta_phi` has made whole phase cycles:
/// `PHI_MAX / gcd(delta_phi, PHI_MAX)`.
pub open spec fn increment_period(delta_phi: nat) -> nat {
    (PHI_MAX as nat) / gcd(delta_phi, PHI_MAX as nat)
}

/// Calls in one period of a frequency against a sample rate:
/// `msample_rate / gcd(mfreq, msample_rate)`.
pub open spec fn period(mfreq: nat, msample_rate: nat) -> nat {
    msample_rate / gcd(mfreq, msample_rate)
}

/// `a + b` calls are `a` calls followed by `b` calls.
proof fn lemma_steps_split<T>(s: OscState<T>, a: nat, b: nat)
    ensures
        steps(s, a + b) == steps(steps(s, a), b),
    decreases b,
{
    if b > 0 {
        lemma_steps_split(s, a, (b - 1) as nat);
        assert(steps(s, a + b) == step(steps(s, (a + b - 1) as nat)));
    }
}

/// A stopped oscillator stays stopped: no number of calls sets it running, so
/// every call returns no sample until `start` or `reset_and_start`.
pub proof fn lemma_stopped_stays<T>(s: OscState<T>, n: nat)
    requires
        !s.running,
    ensures
        !steps(s, n).running,
        emitted(steps(s, n)) == None::<T>,
    decreases n,
{
    if n > 0 {
        lemma_stopped_stays(s, (n - 1) as nat);
    }
}

/// The greatest common divisor of two numbers, not both zero, is positive and
/// divides both.
proof fn lemma_gcd_divides(a: nat, b: nat)
    requires
        a > 0 || b > 0,
    ensures
        gcd(a, b) > 0,
        a % gcd(a, b) == 0,
        b % gcd(a, b) == 0,
    decreases b,
{
    if b == 0 {
        lemma_mod_multiples_basic(1, a as int);
    } else {
        lemma_gcd_divides(b, a % b);
        let g = gcd(a, b) as int;
        let q = (a / b) as int;
        let r = (a % b) as int;
        lemma_fundamental_div_mod(a as int, b as int);
        lemma_fundamental_div_mod(b as int, g);
        lemma_fundamental_div_mod(r, g);
        let kb = (b as int) / g;
        let kr = r / g;
        assert(a == (kb * q + kr) * g) by (nonlinear_arith)
            requires
                a == b * q + r,
                b == g * kb,
                r == g * kr,
        ;
        lemma_mod_multiples_basic(kb * q + kr, g);
    }
}

/// Before its first wrap a single-shot oscillator started at phase zero has
/// phase `n * delta_phi` after `n` calls, and is still running.
proof fn lemma_single_shot_prefix<T>(s: OscState<T>, n: nat)
    requires
        !s.repeat,
        s.running,
        s.phi == 0,
        0 < s.delta_phi,
        n * s.delta_phi <= PHI_MAX,
    ensures
        steps(s, n) == (OscState {
            phi: n * s.delta_phi,
            idx: if n == 0 {
                s.idx
            } else {
                index_for(s.table.len(), n * s.delta_phi)
            },
            ..s
        }),
    decreases n,
{
    if n > 0 {
        let d = s.delta_phi;
        assert((n - 1) * d + d == n * d) by (nonlinear_arith);
        assert((n - 1) * d <= n * d) by (nonlinear_arith)
            requires
                d > 0,
        ;
        lemma_single_shot_prefix(s, (n - 1) as nat);
        assert(steps(s, n) == step(steps(s, (n - 1) as nat)));
    } else {
        assert(0 * s.delta_phi == 0);
    }
}

/// A single-shot oscillator started at phase zero emits exactly one full phase
/// cycle: on each of the first `PHI_MAX / delta_phi` calls the table entry that
/// phase `n * delta_phi` selects, and no sample on any later call, since only
/// `start` sets it running again.
pub proof fn lemma_single_shot_one_cycle<T>(s: OscState<T>, n: nat)
    requires
        state_wf(s),
        !s.repeat,
        s.running,
        s.phi == 0,
        0 < s.delta_phi < PHI_MAX,
        n >= 1,
    ensures
        n <= (PHI_MAX as int) / s.delta_phi ==> emitted(steps(s, n)) == Some(
            s.table[index_for(s.table.len(), n * s.delta_phi)],
        ),
        n > (PHI_MAX as int) / s.delta_phi ==> emitted(steps(s, n)) == None::<T>,
{
    let d = s.delta_phi;
    let k: nat = ((PHI_MAX as int) / d) as nat;
    lemma_fundamental_div_mod(PHI_MAX as int, d);
    assert(d * k == k * d) by (nonlinear_arith);
    if n <= k {
        lemma_mul_inequality(n as int, k as int, d);
        lemma_single_shot_prefix(s, n);
    } else {
        lemma_single_shot_prefix(s, k);
        assert(steps(s, k + 1) == step(steps(s, k)));
        assert(!steps(s, k + 1).running);
        lemma_steps_split(s, k + 1, (n - k - 1) as nat);
        lemma_stopped_stays(steps(s, k + 1), (n - k - 1) as nat);
    }
}

/// A repeating, running oscillator keeps everything but its phase and index;
/// its phase stays congruent to `phi + n * delta_phi` within `[0, PHI_MAX]`,
/// and above zero once a positive increment has been added.
proof fn lemma_repeat_phase<T>(s: OscState<T>, n: nat) -> (q: int)
    requires
        state_wf(s),
        s.repeat,
        s.running,
        s.delta_phi < PHI_MAX,
    ensures
        steps(s, n).phi == s.phi + n * s.delta_phi - q * PHI_MAX,
        0 <= steps(s, n).phi <= PHI_MAX,
        n >= 1 && s.delta_phi > 0 ==> steps(s, n).phi > 0,
        s.delta_phi == 0 ==> steps(s, n).phi == s.phi,
        steps(s, n) == (OscState {
            phi: steps(s, n).phi,
            idx: if n == 0 {
                s.idx
            } else {
                index_for(s.table.len(), steps(s, n).phi)
            },
            ..s
        }),
    decreases n,
{
    if n == 0 {
        0
    } else {
        let q0 = lemma_repeat_phase(s, (n - 1) as nat);
        let d = s.delta_phi;
        assert((n - 1) * d + d == n * d) by (nonlinear_arith);
        let p = steps(s, (n - 1) as nat).phi + d;
        if p > PHI_MAX {
            q0 + 1
        } else {
            q0
        }
    }
}

/// A repeating, running oscillator returns to the same state, and so emits the
/// same samples, after any `k` calls whose increments add up to whole phase cycles.
pub proof fn lemma_repeat_whole_cycles<T>(s: OscState<T>, k: nat, j: nat)
    requires
        state_wf(s),
        s.repeat,
        s.running,
        s.delta_phi < PHI_MAX,
        (k * s.delta_phi) % (PHI_MAX as int) == 0,
        j >= 1,
    ensures
        steps(s, j + k) == steps(s, j),
        emitted(steps(s, j + k)) == emitted(steps(s, j)),
{
    let d = s.delta_phi;
    let q1 = lemma_repeat_phase(s, j + k);
    let q2 = lemma_repeat_phase(s, j);
    lemma_fundamental_div_mod(k * d, PHI_MAX as int);
    assert((j + k) * d == j * d + k * d) by (nonlinear_arith);
    let c = (k * d) / (PHI_MAX as int);
    assert(steps(s, j + k).phi - steps(s, j).phi == (c - q1 + q2) * PHI_MAX);
}

/// The increment of a frequency below the sample rate is below `PHI_MAX`.
proof fn lemma_increment_below_cycle(mfreq: nat, msample_rate: nat)
    requires
        mfreq < msample_rate,
    ensures
        0 <= phase_increment(mfreq as int, msample_rate as int) < PHI_MAX,
{
    lemma_mul_strict_inequality(mfreq as int, msample_rate as int, PHI_MAX as int);
    assert(msample_rate * PHI_MAX == PHI_MAX * msample_rate) by (nonlinear_arith);
    lemma_multiply_divide_lt(mfreq * PHI_MAX, msample_rate as int, PHI_MAX as int);
    assert((mfreq * PHI_MAX) / (msample_rate as int) >= 0) by (nonlinear_arith)
        requires
            msample_rate > 0,
    ;
}

/// A repeating, running oscillator whose frequency is below its sample rate selects an index inside its table on every call.
pub proof fn lemma_repeating_in_bounds<T>(s: OscState<T>, j: nat)
    requires
        state_wf(s),
        s.repeat,
        s.running,
        s.table.len() > 0,
        s.mfreq < s.msample_rate,
        j >= 1,
    ensures
        0 <= steps(s, j).idx < s.table.len(),
{
    lemma_increment_below_cycle(s.mfreq, s.msample_rate);
    lemma_repeat_phase(s, j);
    crate::osc::wave_table_osc::lemma_index_in_table(s.table.len(), steps(s, j).phi);
}

/// A repeating, running oscillator returns to the same state, and so emits the
/// same samples, every `PHI_MAX / gcd(delta_phi, PHI_MAX)` calls.
pub proof fn lemma_increment_period<T>(s: OscState<T>, j: nat)
    requires
        state_wf(s),
        s.repeat,
        s.running,
        s.delta_phi < PHI_MAX,
        j >= 1,
    ensures
        steps(s, j + increment_period(s.delta_phi as nat)) == steps(s, j),
        emitted(steps(s, j + increment_period(s.delta_phi as nat))) == emitted(steps(s, j)),
{
    let d = s.delta_phi;
    let m = PHI_MAX as int;
    lemma_gcd_divides(d as nat, m as nat);
    let g = gcd(d as nat, m as nat) as int;
    let p = increment_period(d as nat) as int;
    lemma_fundamental_div_mod(m, g);
    lemma_fundamental_div_mod(d, g);
    let kd = d / g;
    assert(p * d == kd * m) by (nonlinear_arith)
        requires
            m == g * p,
            d == g * kd,
    ;
    lemma_mod_multiples_basic(kd, m);
    lemma_repeat_whole_cycles(s, p as nat, j);
}

/// A repeating, running oscillator whose frequency is below its sample rate, and
/// whose increment is exact (`mfreq * PHI_MAX` divisible by `msample_rate`),
/// emits the same samples again after `msample_rate / gcd(mfreq, msample_rate)`
/// calls. Where the increment is truncated the samples still repeat, after
/// `PHI_MAX / gcd(delta_phi, PHI_MAX)` calls (`lemma_increment_period`).
pub proof fn lemma_repeating_period<T>(s: OscState<T>, j: nat)
    requires
        state_wf(s),
        s.repeat,
        s.running,
        s.mfreq < s.msample_rate,
        (s.mfreq * PHI_MAX) % (s.msample_rate as int) == 0,
        j >= 1,
    ensures
        steps(s, j + period(s.mfreq, s.msample_rate)) == steps(s, j),
        emitted(steps(s, j + period(s.mfreq, s.msample_rate))) == emitted(steps(s, j)),
{
    lemma_increment_below_cycle(s.mfreq, s.msample_rate);
    let f = s.mfreq as int;
    let r = s.msample_rate as int;
    let m = PHI_MAX as int;
    let d = s.delta_phi;
    lemma_gcd_divides(s.mfreq, s.msample_rate);
    let g = gcd(s.mfreq, s.msample_rate) as int;
    let n = period(s.mfreq, s.msample_rate) as int;
    lemma_fundamental_div_mod(f * m, r);
    lemma_fundamental_div_mod(f, g);
    lemma_fundamental_div_mod(r, g);
    let a = f / g;
    assert(n * d == a * m) by (nonlinear_arith)
        requires
            f * m == r * d,
            f == g * a,
            r == g * n,
            g > 0,
    ;
    lemma_mod_multiples_basic(a, m);
    lemma_repeat_whole_cycles(s, n as nat, j);
}

} // verus!
