//! Phase-accumulator oscillators over shared lookup tables.

pub mod wave_table_osc;
pub mod cycle;
