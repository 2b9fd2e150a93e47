//! A GPU energy/utilization sampling engine.
//!
//! The crate turns raw monotonic hardware counters into per-interval deltas,
//! tolerates per-metric "not supported" outcomes without dropping a sample,
//! and assembles one ordered measurement batch per polling tick.

pub mod nvml;
pub mod probe;
pub mod sample;
pub mod tracker;
