//! Core of a fixed-timestep, multi-vehicle driving simulation.
//!
//! The crate holds the simulation's logic: live-tunable physical and
//! terrain parameters with clamped writes, the terrain-seed sanitizer,
//! the settings-menu navigation state machine, per-vehicle control
//! schemes, the fixed-step integrator driver with its wall-clock
//! accumulator, the vehicle registry, and the speed-to-audio mapping.
//! Rendering and input collection live outside; they hand this crate
//! plain values and read plain values back.
//!
//! All continuous quantities are carried as fixed-point integers in
//! hundredths of a unit ("centi" values): a mass of `1234.56 kg` is the
//! integer `123456`. Time is carried in microseconds.

pub mod audio;
pub mod clock;
pub mod params;
pub mod registry;
pub mod control;
pub mod integrator;
pub mod nav;
pub mod seed;

use vstd::prelude::*;

verus! {

/// A fatal configuration fault, detected at session start and reported
/// before any tick runs.
#[derive(Clone, Copy, PartialEq, Eq, Structural, Debug)]
pub enum ConfigError {
    /// The fixed integration step is zero or beyond the machine bound.
    InvalidFixedStep,
    /// A vehicle definition names a control scheme that does not exist.
    UnknownControlScheme,
    /// Two vehicles of one session claim the same control scheme, and
    /// with it the same physical keys.
    DuplicateControlScheme,
}

/// Clamp `v` into the inclusive range `[lo, hi]`.
pub open spec fn spec_clamp(v: u64, lo: u64, hi: u64) -> u64 {
    if v < lo {
        lo
    } else if v > hi {
        hi
    } else {
        v
    }
}

/// Constrain a value to a declared valid range rather than rejecting it.
pub fn clamp_u64(v: u64, lo: u64, hi: u64) -> (r: u64)
    requires
        lo <= hi,
    ensures
        r == spec_clamp(v, lo, hi),
        lo <= r <= hi,
{
    if v < lo {
        lo
    } else if v > hi {
        hi
    } else {
        v
    }
}

} // verus!
