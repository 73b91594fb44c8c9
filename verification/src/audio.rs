//! Speed-to-audio mapping.
//!
//! A continuous, monotonic map from a vehicle's current speed to the
//! playback parameters of its engine sound, re-evaluated once per tick
//! per vehicle, with no internal state. Speed outside the mapping's
//! domain — negative, or above the configured cap — is clamped into
//! the domain, never surfaced as an error.

use vstd::prelude::*;
use vstd::arithmetic::div_mod::lemma_div_is_ordered;
use vstd::arithmetic::mul::lemma_mul_inequality;

use crate::params::PhysicalParameters;
use crate::integrator::RigidBodyState;
use crate::integrator::spec_abs;

verus! {

/// Pitch factor at rest, in hundredths (1.00 x).
pub const PITCH_BASE: u64 = 100;

/// Pitch factor gained from rest to the speed cap, in hundredths
/// (up to 2.00 x at the cap).
pub const PITCH_SPAN: u64 = 100;

/// Volume factor at rest, in hundredths (0.25 x).
pub const VOLUME_BASE: u64 = 25;

/// Volume factor gained from rest to the speed cap, in hundredths
/// (up to 1.00 x at the cap).
pub const VOLUME_SPAN: u64 = 75;

/// Playback parameters for one vehicle's engine sound, in hundredths.
#[derive(Clone, Copy, PartialEq, Eq, Structural, Debug)]
pub struct AudioParams {
    /// Pitch factor, hundredths of the base pitch.
    pub pitch_factor: u64,
    /// Volume factor, hundredths of full scale.
    pub volume_factor: u64,
}

/// `speed` clamped into the mapping's domain `[0, max_speed]`.
pub open spec fn spec_domain_speed(speed: int, max_speed: int) -> int {
    if speed < 0 {
        0
    } else if speed > max_speed {
        max_speed
    } else {
        speed
    }
}

/// The pitch factor for `speed` under the cap `max_speed`: base plus
/// the span scaled linearly by where the clamped speed sits in the
/// domain.
pub open spec fn spec_pitch_factor(speed: int, max_speed: int) -> int {
    PITCH_BASE + spec_domain_speed(speed, max_speed) * PITCH_SPAN / max_speed
}

/// The volume factor for `speed` under the cap `max_speed`.
pub open spec fn spec_volume_factor(speed: int, max_speed: int) -> int {
    VOLUME_BASE + spec_domain_speed(speed, max_speed) * VOLUME_SPAN / max_speed
}

/// Map a current speed to playback parameters. Pure and stateless;
/// out-of-domain speed is clamped, never an error.
pub fn speed_to_audio(speed: i64, max_speed: u64) -> (r: AudioParams)
    requires
        1 <= max_speed <= 20_000,
    ensures
        r.pitch_factor == spec_pitch_factor(speed as int, max_speed as int),
        r.volume_factor == spec_volume_factor(speed as int, max_speed as int),
        PITCH_BASE <= r.pitch_factor <= PITCH_BASE + PITCH_SPAN,
        VOLUME_BASE <= r.volume_factor <= VOLUME_BASE + VOLUME_SPAN,
{
    let dom: u64 = if speed < 0 {
        0
    } else if speed > max_speed as i64 {
        max_speed
    } else {
        speed as u64
    };
    proof {
        assert(dom * PITCH_SPAN <= 20_000 * 100) by (nonlinear_arith)
            requires
                dom <= 20_000,
        {}
        assert(dom * VOLUME_SPAN <= 20_000 * 75) by (nonlinear_arith)
            requires
                dom <= 20_000,
        {}
        assert((dom as int) * (PITCH_SPAN as int) / (max_speed as int) <= PITCH_SPAN as int)
            by (nonlinear_arith)
            requires
                dom <= max_speed,
                1 <= max_speed,
        {}
        assert((dom as int) * (VOLUME_SPAN as int) / (max_speed as int) <= VOLUME_SPAN as int)
            by (nonlinear_arith)
            requires
                dom <= max_speed,
                1 <= max_speed,
        {}
    }
    let pitch_factor: u64 = PITCH_BASE + dom * PITCH_SPAN / max_speed;
    let volume_factor: u64 = VOLUME_BASE + dom * VOLUME_SPAN / max_speed;
    AudioParams { pitch_factor, volume_factor }
}

/// The playback parameters a vehicle's state maps to under a parameter
/// snapshot: its speed (the magnitude of its signed velocity) through
/// the speed-to-audio map.
pub fn audio_for_vehicle(state: &RigidBodyState, params: &PhysicalParameters) -> (r: AudioParams)
    requires
        state.wf(),
        params.wf(),
    ensures
        r.pitch_factor == spec_pitch_factor(
            spec_abs(state.velocity as int),
            params.max_speed as int,
        ),
        r.volume_factor == spec_volume_factor(
            spec_abs(state.velocity as int),
            params.max_speed as int,
        ),
{
    let speed: i64 = if state.velocity >= 0 {
        state.velocity
    } else {
        -state.velocity
    };
    speed_to_audio(speed, params.max_speed)
}

/// Monotonicity of the audio map: within the domain, a strictly or
/// weakly greater speed never lowers the pitch factor or the volume
/// factor.
pub proof fn lemma_audio_monotonic(s1: int, s2: int, max_speed: int)
    requires
        0 <= s1 <= s2 <= max_speed,
        1 <= max_speed,
    ensures
        spec_pitch_factor(s1, max_speed) <= spec_pitch_factor(s2, max_speed),
        spec_volume_factor(s1, max_speed) <= spec_volume_factor(s2, max_speed),
{
    lemma_mul_inequality(s1, s2, PITCH_SPAN as int);
    lemma_mul_inequality(s1, s2, VOLUME_SPAN as int);
    lemma_div_is_ordered(s1 * PITCH_SPAN, s2 * PITCH_SPAN, max_speed);
    lemma_div_is_ordered(s1 * VOLUME_SPAN, s2 * VOLUME_SPAN, max_speed);
}

} // verus!
