//! Vehicle registry.
//!
//! The authoritative list of a session's vehicles — spawn position,
//! control scheme, identity — built once at session start from raw
//! configuration and immutable thereafter. Configuration faults
//! (an unrecognized control-scheme code, two vehicles claiming the
//! same scheme) are fatal and reported before any tick runs. The
//! registry's invariant is that its control schemes are pairwise
//! distinct, which makes their key bindings mutually exclusive
//! input-device partitions.

use vstd::prelude::*;

use crate::ConfigError;
use crate::control::ControlSchemeId;
use crate::control::bindings;
use crate::control::lemma_bindings_disjoint;
use crate::integrator::POSITION_LIMIT;
use crate::integrator::RigidBodyState;

verus! {

/// Raw per-vehicle configuration as the session loader hands it in:
/// plain numbers, not yet validated.
#[derive(Clone, Copy, PartialEq, Eq, Structural, Debug)]
pub struct RawVehicleConfig {
    /// Spawn position, hundredths of a metre, three axes.
    pub spawn_x: i64,
    pub spawn_y: i64,
    pub spawn_z: i64,
    /// Code of the requested control scheme.
    pub scheme_code: u32,
    /// Caller-chosen vehicle identity.
    pub numeric_id: u32,
}

/// One validated vehicle of the session; immutable after the registry
/// is built.
#[derive(Clone, Copy, PartialEq, Eq, Structural, Debug)]
pub struct VehicleDefinition {
    /// Spawn position, hundredths of a metre, clamped into the world.
    pub spawn_x: i64,
    pub spawn_y: i64,
    pub spawn_z: i64,
    /// The input layout driving this vehicle.
    pub control_scheme: ControlSchemeId,
    /// Caller-chosen vehicle identity.
    pub numeric_id: u32,
}

/// How many control-scheme codes exist.
pub const SCHEME_CODE_COUNT: u32 = 2;

/// The scheme a valid code names: code zero is the first layout, code
/// one the second.
pub open spec fn spec_scheme_of(code: u32) -> ControlSchemeId {
    if code == 0 {
        ControlSchemeId::SchemeA
    } else {
        ControlSchemeId::SchemeB
    }
}

/// Resolve a control-scheme code. An unrecognized code is a fatal
/// configuration error, rejected before the simulation starts.
pub fn parse_scheme(code: u32) -> (r: Result<ControlSchemeId, ConfigError>)
    ensures
        r is Ok <==> code < SCHEME_CODE_COUNT,
        code < SCHEME_CODE_COUNT ==> r->Ok_0 == spec_scheme_of(code),
        code >= SCHEME_CODE_COUNT ==> r->Err_0 == ConfigError::UnknownControlScheme,
{
    if code == 0 {
        Ok(ControlSchemeId::SchemeA)
    } else if code == 1 {
        Ok(ControlSchemeId::SchemeB)
    } else {
        Err(ConfigError::UnknownControlScheme)
    }
}

/// Clamp one spawn coordinate into the world.
fn clamp_position(v: i64) -> (r: i64)
    ensures
        r == crate::integrator::spec_clamp_i(v as int, -(POSITION_LIMIT as int), POSITION_LIMIT as int),
        -POSITION_LIMIT <= r <= POSITION_LIMIT,
{
    if v < -POSITION_LIMIT {
        -POSITION_LIMIT
    } else if v > POSITION_LIMIT {
        POSITION_LIMIT
    } else {
        v
    }
}

/// The validated vehicle for one raw entry with a valid scheme code.
pub open spec fn spec_vehicle_of(raw: RawVehicleConfig) -> VehicleDefinition {
    VehicleDefinition {
        spawn_x: crate::integrator::spec_clamp_i(
            raw.spawn_x as int,
            -(POSITION_LIMIT as int),
            POSITION_LIMIT as int,
        ) as i64,
        spawn_y: crate::integrator::spec_clamp_i(
            raw.spawn_y as int,
            -(POSITION_LIMIT as int),
            POSITION_LIMIT as int,
        ) as i64,
        spawn_z: crate::integrator::spec_clamp_i(
            raw.spawn_z as int,
            -(POSITION_LIMIT as int),
            POSITION_LIMIT as int,
        ) as i64,
        control_scheme: spec_scheme_of(raw.scheme_code),
        numeric_id: raw.numeric_id,
    }
}

/// The ordered list of a session's vehicles, insertion order being
/// player join order.
#[derive(Debug)]
pub struct VehicleRegistry {
    /// The validated vehicles, in join order.
    pub vehicles: Vec<VehicleDefinition>,
}

impl VehicleRegistry {
    /// No two vehicles share a control scheme (and so no physical key),
    /// and every spawn position lies inside the world.
    pub open spec fn wf(self) -> bool {
        &&& forall|i: int, j: int|
            0 <= i < j < self.vehicles@.len() ==> self.vehicles@[i].control_scheme
                != self.vehicles@[j].control_scheme
        &&& forall|i: int|
            0 <= i < self.vehicles@.len() ==> -POSITION_LIMIT <= #[trigger] self.vehicles@[i].spawn_x
                <= POSITION_LIMIT
    }

    /// How many vehicles joined the session.
    pub fn len(&self) -> (r: usize)
        ensures
            r == self.vehicles@.len(),
    {
        self.vehicles.len()
    }

    /// The vehicle at join position `i`.
    pub fn vehicle(&self, i: usize) -> (r: VehicleDefinition)
        requires
            i < self.vehicles@.len(),
        ensures
            r == self.vehicles@[i as int],
    {
        self.vehicles[i]
    }

    /// The rigid-body states every session starts from: each vehicle
    /// at rest at its spawn position.
    pub fn spawn_states(&self) -> (r: Vec<RigidBodyState>)
        requires
            self.wf(),
        ensures
            r@.len() == self.vehicles@.len(),
            forall|i: int|
                0 <= i < r@.len() ==> r@[i] == (RigidBodyState {
                    position: self.vehicles@[i].spawn_x,
                    velocity: 0i64,
                }),
            forall|i: int| 0 <= i < r@.len() ==> r@[i].wf(),
    {
        let n = self.vehicles.len();
        let mut out: Vec<RigidBodyState> = Vec::new();
        let mut i: usize = 0;
        while i < n
            invariant
                i <= n,
                n == self.vehicles@.len(),
                self.wf(),
                out@.len() == i,
                forall|j: int|
                    0 <= j < i ==> out@[j] == (RigidBodyState {
                        position: self.vehicles@[j].spawn_x,
                        velocity: 0i64,
                    }),
                forall|j: int| 0 <= j < i ==> out@[j].wf(),
            decreases n - i,
        {
            let v = RigidBodyState { position: self.vehicles[i].spawn_x, velocity: 0 };
            out.push(v);
            i = i + 1;
        }
        out
    }
}

/// Whether every raw entry names an existing control scheme.
pub open spec fn spec_all_codes_valid(raw: Seq<RawVehicleConfig>) -> bool {
    forall|k: int| 0 <= k < raw.len() ==> #[trigger] raw[k].scheme_code < SCHEME_CODE_COUNT
}

/// Whether two raw entries claim the same control scheme.
pub open spec fn spec_has_duplicate_scheme(raw: Seq<RawVehicleConfig>) -> bool {
    exists|i: int, j: int|
        0 <= i < j < raw.len() && spec_scheme_of(raw[i].scheme_code) == spec_scheme_of(
            raw[j].scheme_code,
        )
}

/// Build the session's registry from raw configuration, once, before
/// the first tick. Fails — fatally, before the simulation starts — on
/// an unrecognized scheme code, and otherwise on two vehicles claiming
/// the same scheme; succeeds exactly when neither fault is present.
pub fn build_registry(raw: &Vec<RawVehicleConfig>) -> (r: Result<VehicleRegistry, ConfigError>)
    ensures
        r is Ok <==> (spec_all_codes_valid(raw@) && !spec_has_duplicate_scheme(raw@)),
        r is Ok ==> r->Ok_0.wf(),
        r is Ok ==> r->Ok_0.vehicles@.len() == raw@.len(),
        r is Ok ==> forall|k: int|
            0 <= k < raw@.len() ==> r->Ok_0.vehicles@[k] == spec_vehicle_of(raw@[k]),
        r is Err ==> (r->Err_0 == ConfigError::UnknownControlScheme <==> !spec_all_codes_valid(
            raw@,
        )),
        r is Err ==> (r->Err_0 == ConfigError::DuplicateControlScheme <==> (spec_all_codes_valid(
            raw@,
        ) && spec_has_duplicate_scheme(raw@))),
{
    let n = raw.len();

    // First pass: every scheme code must name an existing scheme.
    let mut k: usize = 0;
    while k < n
        invariant
            k <= n,
            n == raw@.len(),
            forall|t: int| 0 <= t < k ==> #[trigger] raw@[t].scheme_code < SCHEME_CODE_COUNT,
        decreases n - k,
    {
        if raw[k].scheme_code >= SCHEME_CODE_COUNT {
            return Err(ConfigError::UnknownControlScheme);
        }
        k = k + 1;
    }

    // Second pass: build, rejecting a scheme already claimed.
    let mut vehicles: Vec<VehicleDefinition> = Vec::new();
    let mut i: usize = 0;
    while i < n
        invariant
            i <= n,
            n == raw@.len(),
            spec_all_codes_valid(raw@),
            vehicles@.len() == i,
            forall|t: int| 0 <= t < i ==> vehicles@[t] == spec_vehicle_of(raw@[t]),
            forall|s: int, t: int|
                0 <= s < t < i ==> vehicles@[s].control_scheme != vehicles@[t].control_scheme,
        decreases n - i,
    {
        let scheme = match parse_scheme(raw[i].scheme_code) {
            Ok(s) => s,
            Err(e) => {
                proof {
                    assert(raw@[i as int].scheme_code < SCHEME_CODE_COUNT);
                }
                return Err(e);
            },
        };
        let mut t: usize = 0;
        while t < i
            invariant
                t <= i,
                i < n,
                n == raw@.len(),
                vehicles@.len() == i,
                spec_all_codes_valid(raw@),
                scheme == spec_scheme_of(raw@[i as int].scheme_code),
                forall|u: int| 0 <= u < i ==> vehicles@[u] == spec_vehicle_of(raw@[u]),
                forall|u: int| 0 <= u < t ==> vehicles@[u].control_scheme != scheme,
            decreases i - t,
        {
            if vehicles[t].control_scheme == scheme {
                proof {
                    assert(spec_scheme_of(raw@[t as int].scheme_code) == spec_scheme_of(
                        raw@[i as int].scheme_code,
                    ));
                    assert((t as int) < (i as int) && (i as int) < raw@.len());
                    assert(spec_has_duplicate_scheme(raw@));
                }
                return Err(ConfigError::DuplicateControlScheme);
            }
            t = t + 1;
        }
        let def = VehicleDefinition {
            spawn_x: clamp_position(raw[i].spawn_x),
            spawn_y: clamp_position(raw[i].spawn_y),
            spawn_z: clamp_position(raw[i].spawn_z),
            control_scheme: scheme,
            numeric_id: raw[i].numeric_id,
        };
        vehicles.push(def);
        i = i + 1;
    }
    proof {
        if spec_has_duplicate_scheme(raw@) {
            let (a, b) = choose|a: int, b: int|
                0 <= a < b < raw@.len() && spec_scheme_of(raw@[a].scheme_code) == spec_scheme_of(
                    raw@[b].scheme_code,
                );
            assert(vehicles@[a].control_scheme == vehicles@[b].control_scheme);
        }
    }
    Ok(VehicleRegistry { vehicles })
}

/// In a well-formed registry, two different vehicles never share a
/// physical key: their schemes differ, and different schemes bind
/// disjoint key sets.
pub proof fn lemma_registry_keys_disjoint(reg: VehicleRegistry, i: int, j: int)
    requires
        reg.wf(),
        0 <= i < reg.vehicles@.len(),
        0 <= j < reg.vehicles@.len(),
        i != j,
    ensures
        bindings(reg.vehicles@[i].control_scheme).disjoint(
            bindings(reg.vehicles@[j].control_scheme),
        ),
{
    lemma_bindings_disjoint(reg.vehicles@[i].control_scheme, reg.vehicles@[j].control_scheme);
}

} // verus!
