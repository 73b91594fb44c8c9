//! Fixed-step integrator driver.
//!
//! Each tick advances every vehicle's rigid-body state by exactly one
//! fixed step of simulated time, reading one snapshot of the physical
//! parameters and that vehicle's control vector. The integration
//! scheme is chosen once at session start from a closed set and is
//! deterministic: the same inputs give the same next state, with no
//! hidden randomness and no cross-vehicle interaction. Velocity that
//! would exceed the configured speed cap is clamped after integration
//! — excess torque is dissipated, never accumulated — and position
//! saturates at the edge of the simulated world.

use vstd::prelude::*;
use vstd::arithmetic::div_mod::lemma_div_nonincreasing;

use crate::params::PhysicalParameters;
use crate::params::MAX_SPEED_MAX;
use crate::control::ControlVector;
use crate::clock::MAX_FIXED_STEP;
use crate::clock::SimulationClock;
use crate::clock::spec_steps_of_run;
use crate::clock::spec_sum;
use crate::clock::lemma_rechunking_agrees;

verus! {

/// Edge of the simulated world, in hundredths of a metre; position
/// saturates here.
pub const POSITION_LIMIT: i64 = 1_000_000_000_000;

/// Microseconds per simulated second.
pub const MICROS_PER_SECOND: u64 = 1_000_000;

/// Scale of the brake deceleration term (brake, friction and gravity
/// are each carried in hundredths).
pub const BRAKE_SCALE: u64 = 10_000;

/// The closed set of integration schemes, chosen once at session
/// start. Under this driver's piecewise-constant acceleration model
/// the first-order scheme displaces by the start-of-step velocity; the
/// fourth-order Runge-Kutta scheme collapses to the trapezoidal mean
/// of the start- and end-of-step velocities.
#[derive(Clone, Copy, PartialEq, Eq, Structural, Debug)]
pub enum IntegrationScheme {
    ForwardEuler,
    RungeKutta4,
}

/// One vehicle's rigid-body state along its track: position and
/// signed longitudinal velocity, in hundredths of a metre and of a
/// metre per second.
#[derive(Clone, Copy, PartialEq, Eq, Structural, Debug)]
pub struct RigidBodyState {
    /// Longitudinal position, hundredths of a metre.
    pub position: i64,
    /// Signed longitudinal velocity, hundredths of a metre per second.
    pub velocity: i64,
}

impl RigidBodyState {
    /// Position is inside the world and speed is inside the absolute
    /// machine cap (every configurable speed cap lies below it).
    pub open spec fn wf(self) -> bool {
        &&& -POSITION_LIMIT <= self.position <= POSITION_LIMIT
        &&& -(MAX_SPEED_MAX as int) <= self.velocity <= MAX_SPEED_MAX as int
    }

    /// A vehicle at rest at `position`.
    pub fn at_rest(position: i64) -> (r: RigidBodyState)
        requires
            -POSITION_LIMIT <= position <= POSITION_LIMIT,
        ensures
            r == (RigidBodyState { position, velocity: 0i64 }),
            r.wf(),
    {
        RigidBodyState { position, velocity: 0 }
    }
}

/// Magnitude of `x`.
pub open spec fn spec_abs(x: int) -> int {
    if x >= 0 {
        x
    } else {
        -x
    }
}

/// Clamp `v` into `[lo, hi]`.
pub open spec fn spec_clamp_i(v: int, lo: int, hi: int) -> int {
    if v < lo {
        lo
    } else if v > hi {
        hi
    } else {
        v
    }
}

/// Signed velocity change one step of engine drive produces: torque
/// over mass, scaled by the step, signed by the throttle.
pub open spec fn spec_drive_delta(throttle: int, max_torque: int, mass: int, step: int) -> int {
    let mag = ((spec_abs(throttle) * max_torque) / mass) * step / (MICROS_PER_SECOND as int);
    if throttle >= 0 {
        mag
    } else {
        -mag
    }
}

/// Magnitude of the velocity the brake removes in one step: brake
/// times friction times gravity, scaled by the step.
pub open spec fn spec_brake_delta(brake: int, friction: int, gravity: int, step: int) -> int {
    ((brake * friction * gravity) / (BRAKE_SCALE as int)) * step / (MICROS_PER_SECOND as int)
}

/// Brake `v` toward zero by at most `d`, never past zero.
pub open spec fn spec_apply_brake(v: int, d: int) -> int {
    if v > 0 {
        if v > d {
            v - d
        } else {
            0
        }
    } else if v < 0 {
        if v < -d {
            v + d
        } else {
            0
        }
    } else {
        0
    }
}

/// Half of `x`, rounded toward zero.
pub open spec fn spec_half_toward_zero(x: int) -> int {
    if x >= 0 {
        x / 2
    } else {
        -((-x) / 2)
    }
}

/// Displacement of one step at signed velocity `base`.
pub open spec fn spec_displacement(base: int, step: int) -> int {
    if base >= 0 {
        base * step / (MICROS_PER_SECOND as int)
    } else {
        -((-base) * step / (MICROS_PER_SECOND as int))
    }
}

/// The next rigid-body state, advanced by exactly one fixed step:
/// engine drive, then brake toward zero, then the post-integration
/// speed clamp, then displacement under the chosen scheme with
/// position saturating at the world edge.
pub open spec fn spec_tick(
    state: RigidBodyState,
    params: PhysicalParameters,
    control: ControlVector,
    step: int,
    scheme: IntegrationScheme,
) -> RigidBodyState {
    let v1 = state.velocity + spec_drive_delta(
        control.throttle as int,
        params.max_torque as int,
        params.mass as int,
        step,
    );
    let v2 = spec_apply_brake(
        v1,
        spec_brake_delta(
            control.brake as int,
            params.friction_coefficient as int,
            params.gravity as int,
            step,
        ),
    );
    let v3 = spec_clamp_i(v2, -(params.max_speed as int), params.max_speed as int);
    let base = match scheme {
        IntegrationScheme::ForwardEuler => state.velocity as int,
        IntegrationScheme::RungeKutta4 => spec_half_toward_zero(state.velocity + v3),
    };
    let pos = spec_clamp_i(
        state.position + spec_displacement(base, step),
        -(POSITION_LIMIT as int),
        POSITION_LIMIT as int,
    );
    RigidBodyState { position: pos as i64, velocity: v3 as i64 }
}

/// Advance one vehicle by one fixed step. The returned velocity never
/// exceeds the configured speed cap, whatever the previous state and
/// control were.
pub fn tick(
    state: &RigidBodyState,
    params: &PhysicalParameters,
    control: &ControlVector,
    fixed_step: u64,
    scheme: IntegrationScheme,
) -> (r: RigidBodyState)
    requires
        state.wf(),
        params.wf(),
        control.wf(),
        0 < fixed_step <= MAX_FIXED_STEP,
    ensures
        r == spec_tick(*state, *params, *control, fixed_step as int, scheme),
        r.wf(),
        spec_abs(r.velocity as int) <= params.max_speed,
{
    // Engine drive.
    let tmag: u64 = if control.throttle >= 0 {
        control.throttle as u64
    } else {
        (-control.throttle) as u64
    };
    proof {
        assert(tmag * params.max_torque <= 100 * 1_000_000) by (nonlinear_arith)
            requires
                tmag <= 100,
                params.max_torque <= 1_000_000,
        {}
        lemma_div_nonincreasing((tmag * params.max_torque) as int, params.mass as int);
    }
    let force: u64 = tmag * params.max_torque / params.mass;
    proof {
        assert(force * fixed_step <= 100_000_000 * 1_000_000_000) by (nonlinear_arith)
            requires
                force <= 100_000_000,
                fixed_step <= 1_000_000_000,
        {}
        lemma_div_nonincreasing((force * fixed_step) as int, MICROS_PER_SECOND as int);
    }
    let dvmag: u64 = force * fixed_step / MICROS_PER_SECOND;
    let dv: i64 = if control.throttle >= 0 {
        dvmag as i64
    } else {
        -(dvmag as i64)
    };
    let v1: i64 = state.velocity + dv;

    // Brake toward zero.
    proof {
        assert((control.brake as u64) * params.friction_coefficient <= 100 * 500)
            by (nonlinear_arith)
            requires
                0 <= control.brake <= 100,
                params.friction_coefficient <= 500,
        {}
        assert((control.brake as u64) * params.friction_coefficient * params.gravity <= 50_000
            * 20_000) by (nonlinear_arith)
            requires
                (control.brake as u64) * params.friction_coefficient <= 50_000,
                params.gravity <= 20_000,
        {}
    }
    let bprod: u64 = (control.brake as u64) * params.friction_coefficient * params.gravity;
    proof {
        lemma_div_nonincreasing(bprod as int, BRAKE_SCALE as int);
    }
    let bscaled: u64 = bprod / BRAKE_SCALE;
    proof {
        assert(bscaled * fixed_step <= 1_000_000_000 * 1_000_000_000) by (nonlinear_arith)
            requires
                bscaled <= 1_000_000_000,
                fixed_step <= 1_000_000_000,
        {}
        lemma_div_nonincreasing((bscaled * fixed_step) as int, MICROS_PER_SECOND as int);
    }
    let dbmag: u64 = bscaled * fixed_step / MICROS_PER_SECOND;
    let db: i64 = dbmag as i64;
    let v2: i64 = if v1 > 0 {
        if v1 > db {
            v1 - db
        } else {
            0
        }
    } else if v1 < 0 {
        if v1 < -db {
            v1 + db
        } else {
            0
        }
    } else {
        0
    };

    // Post-integration speed clamp.
    let maxs: i64 = params.max_speed as i64;
    let v3: i64 = if v2 < -maxs {
        -maxs
    } else if v2 > maxs {
        maxs
    } else {
        v2
    };

    // Displacement under the chosen scheme.
    let base: i64 = match scheme {
        IntegrationScheme::ForwardEuler => state.velocity,
        IntegrationScheme::RungeKutta4 => {
            let sum: i64 = state.velocity + v3;
            if sum >= 0 {
                ((sum as u64) / 2) as i64
            } else {
                -((((-sum) as u64) / 2) as i64)
            }
        },
    };
    let bmag: u64 = if base >= 0 {
        base as u64
    } else {
        (-base) as u64
    };
    proof {
        assert(bmag * fixed_step <= 20_000 * 1_000_000_000) by (nonlinear_arith)
            requires
                bmag <= 20_000,
                fixed_step <= 1_000_000_000,
        {}
        lemma_div_nonincreasing((bmag * fixed_step) as int, MICROS_PER_SECOND as int);
    }
    let dispmag: u64 = bmag * fixed_step / MICROS_PER_SECOND;
    let disp: i64 = if base >= 0 {
        dispmag as i64
    } else {
        -(dispmag as i64)
    };
    let praw: i64 = state.position + disp;
    let pos: i64 = if praw < -POSITION_LIMIT {
        -POSITION_LIMIT
    } else if praw > POSITION_LIMIT {
        POSITION_LIMIT
    } else {
        praw
    };
    RigidBodyState { position: pos, velocity: v3 }
}

/// The state after `n` ticks under one parameter snapshot and one held
/// control vector.
pub open spec fn spec_run_ticks(
    state: RigidBodyState,
    params: PhysicalParameters,
    control: ControlVector,
    step: int,
    scheme: IntegrationScheme,
    n: int,
) -> RigidBodyState
    decreases n,
{
    if n <= 0 {
        state
    } else {
        spec_run_ticks(
            spec_tick(state, params, control, step, scheme),
            params,
            control,
            step,
            scheme,
            n - 1,
        )
    }
}

/// Advance every vehicle by one fixed step. Each entry is advanced
/// independently from its own state and its own control vector: the
/// driver specifies no cross-vehicle interaction.
pub fn tick_all(
    states: &mut Vec<RigidBodyState>,
    params: &PhysicalParameters,
    controls: &Vec<ControlVector>,
    fixed_step: u64,
    scheme: IntegrationScheme,
)
    requires
        old(states)@.len() == controls@.len(),
        forall|i: int| 0 <= i < old(states)@.len() ==> old(states)@[i].wf(),
        forall|i: int| 0 <= i < controls@.len() ==> controls@[i].wf(),
        params.wf(),
        0 < fixed_step <= MAX_FIXED_STEP,
    ensures
        final(states)@.len() == old(states)@.len(),
        forall|i: int|
            0 <= i < old(states)@.len() ==> final(states)@[i] == spec_tick(
                old(states)@[i],
                *params,
                controls@[i],
                fixed_step as int,
                scheme,
            ),
        forall|i: int| 0 <= i < final(states)@.len() ==> final(states)@[i].wf(),
{
    let n = states.len();
    let mut i: usize = 0;
    while i < n
        invariant
            i <= n,
            n == states@.len(),
            n == old(states)@.len(),
            n == controls@.len(),
            forall|j: int| i <= j < n ==> states@[j] == old(states)@[j],
            forall|j: int|
                0 <= j < i ==> states@[j] == spec_tick(
                    old(states)@[j],
                    *params,
                    controls@[j],
                    fixed_step as int,
                    scheme,
                ),
            forall|j: int| 0 <= j < n ==> old(states)@[j].wf(),
            forall|j: int| 0 <= j < n ==> controls@[j].wf(),
            forall|j: int| 0 <= j < i ==> states@[j].wf(),
            params.wf(),
            0 < fixed_step <= MAX_FIXED_STEP,
        decreases n - i,
    {
        let next = tick(&states[i], params, &controls[i], fixed_step, scheme);
        states.set(i, next);
        i = i + 1;
    }
}

/// Feed one wall-clock delta to the session: consume every whole fixed
/// step it covers and advance every vehicle by that many ticks, each
/// under the one parameter snapshot taken for this call. Returns the
/// number of ticks run.
pub fn advance_session(
    clock: &mut SimulationClock,
    states: &mut Vec<RigidBodyState>,
    params: &PhysicalParameters,
    controls: &Vec<ControlVector>,
    scheme: IntegrationScheme,
    wall_delta: u64,
) -> (steps: u64)
    requires
        old(clock).wf(),
        old(clock).accumulator + wall_delta <= u64::MAX,
        old(states)@.len() == controls@.len(),
        forall|i: int| 0 <= i < old(states)@.len() ==> old(states)@[i].wf(),
        forall|i: int| 0 <= i < controls@.len() ==> controls@[i].wf(),
        params.wf(),
    ensures
        final(clock).fixed_step == old(clock).fixed_step,
        final(clock).wf(),
        steps == (old(clock).accumulator + wall_delta) / old(clock).fixed_step as int,
        final(clock).accumulator == (old(clock).accumulator + wall_delta) % old(
            clock,
        ).fixed_step as int,
        final(states)@.len() == old(states)@.len(),
        forall|i: int|
            0 <= i < old(states)@.len() ==> final(states)@[i] == spec_run_ticks(
                old(states)@[i],
                *params,
                controls@[i],
                old(clock).fixed_step as int,
                scheme,
                steps as int,
            ),
        forall|i: int| 0 <= i < final(states)@.len() ==> final(states)@[i].wf(),
{
    let fixed_step = clock.fixed_step;
    let steps = clock.advance(wall_delta);
    let ghost s0 = states@;
    let mut k: u64 = 0;
    while k < steps
        invariant
            k <= steps,
            states@.len() == s0.len(),
            s0.len() == controls@.len(),
            forall|i: int|
                0 <= i < s0.len() ==> states@[i] == spec_run_ticks(
                    s0[i],
                    *params,
                    controls@[i],
                    fixed_step as int,
                    scheme,
                    k as int,
                ),
            forall|i: int| 0 <= i < states@.len() ==> states@[i].wf(),
            forall|i: int| 0 <= i < controls@.len() ==> controls@[i].wf(),
            params.wf(),
            0 < fixed_step <= MAX_FIXED_STEP,
        decreases steps - k,
    {
        let ghost before = states@;
        tick_all(states, params, controls, fixed_step, scheme);
        proof {
            assert forall|i: int| 0 <= i < s0.len() implies states@[i] == spec_run_ticks(
                s0[i],
                *params,
                controls@[i],
                fixed_step as int,
                scheme,
                k + 1,
            ) by {
                lemma_run_ticks_step(s0[i], *params, controls@[i], fixed_step as int, scheme, k as int);
            }
        }
        k = k + 1;
    }
    steps
}

/// Running `n` ticks and then one more is one run of `n + 1` ticks.
proof fn lemma_run_ticks_step(
    state: RigidBodyState,
    params: PhysicalParameters,
    control: ControlVector,
    step: int,
    scheme: IntegrationScheme,
    n: int,
)
    requires
        n >= 0,
    ensures
        spec_tick(spec_run_ticks(state, params, control, step, scheme, n), params, control, step, scheme)
            == spec_run_ticks(state, params, control, step, scheme, n + 1),
    decreases n,
{
    let stepped = spec_tick(state, params, control, step, scheme);
    assert(spec_run_ticks(state, params, control, step, scheme, n + 1) == spec_run_ticks(
        stepped,
        params,
        control,
        step,
        scheme,
        n,
    ));
    if n > 0 {
        lemma_run_ticks_step(stepped, params, control, step, scheme, n - 1);
    }
}

/// Determinism under re-chunking: feed the same total of wall-clock
/// time in two differently chunked delta sequences and the session
/// ends in the same final state, because the number of whole steps
/// consumed is the same.
pub proof fn lemma_rechunked_final_state(
    step: int,
    d1: Seq<u64>,
    d2: Seq<u64>,
    state: RigidBodyState,
    params: PhysicalParameters,
    control: ControlVector,
    scheme: IntegrationScheme,
)
    requires
        0 < step,
        spec_sum(d1) == spec_sum(d2),
    ensures
        spec_run_ticks(state, params, control, step, scheme, spec_steps_of_run(step, 0, d1))
            == spec_run_ticks(state, params, control, step, scheme, spec_steps_of_run(step, 0, d2)),
{
    lemma_rechunking_agrees(step, d1, d2);
}

} // verus!
