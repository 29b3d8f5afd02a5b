//! Wavetable synthesis: a phase-accumulator oscillator over quantised lookup
//! tables, and a piecewise approximation of an exponential envelope curve.

pub mod linexp;
pub mod osc;
pub mod signalgen;
