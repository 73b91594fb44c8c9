//! Live-tunable simulation parameters.
//!
//! The parameter store holds the physical constants of every vehicle and
//! the terrain-generation inputs. The settings surface is the only
//! writer; the integrator and the terrain generator read a snapshot each
//! tick. Every write is clamped into the field's declared range before
//! it is stored, so a well-formed store stays well-formed forever.

use vstd::prelude::*;

use crate::spec_clamp;
use crate::clamp_u64;

verus! {

/// Valid range of the master audio volume, in hundredths (0.00 ..= 1.00).
pub const VOLUME_MIN: u64 = 0;
pub const VOLUME_MAX: u64 = 100;

/// Valid range of the chassis mass, in hundredths of a kilogram
/// (1.00 ..= 15000.00 kg).
pub const MASS_MIN: u64 = 100;
pub const MASS_MAX: u64 = 1_500_000;

/// Valid range of gravity, in hundredths of a m/s^2 (1.00 ..= 200.00).
pub const GRAVITY_MIN: u64 = 100;
pub const GRAVITY_MAX: u64 = 20_000;

/// Valid range of the speed cap, in hundredths of a m/s (1.00 ..= 200.00).
pub const MAX_SPEED_MIN: u64 = 100;
pub const MAX_SPEED_MAX: u64 = 20_000;

/// Valid range of the engine torque cap, in hundredths of a N*m
/// (1.00 ..= 10000.00).
pub const MAX_TORQUE_MIN: u64 = 100;
pub const MAX_TORQUE_MAX: u64 = 1_000_000;

/// Valid range of the friction coefficient, in hundredths (0.00 ..= 5.00).
pub const FRICTION_MIN: u64 = 0;
pub const FRICTION_MAX: u64 = 500;

/// Valid range of the terrain grid size, in hundredths (1.00 ..= 4000.00).
pub const GRID_SIZE_MIN: u64 = 100;
pub const GRID_SIZE_MAX: u64 = 400_000;

/// Valid range of the terrain subdivisions, in hundredths
/// (1.00 ..= 2048.00).
pub const SUBDIVISIONS_MIN: u64 = 100;
pub const SUBDIVISIONS_MAX: u64 = 204_800;

/// The fields of the physical parameter set that the settings surface
/// can write.
#[derive(Clone, Copy, PartialEq, Eq, Structural, Debug)]
pub enum PhysicalField {
    Volume,
    Mass,
    Gravity,
    MaxSpeed,
    MaxTorque,
    FrictionCoefficient,
}

/// Physical constants shared by every vehicle, in centi units.
///
/// Single writer (the settings surface), many readers (the integrator,
/// the audio mapper). Reads take a snapshot copy, so one consistent set
/// of values is seen per tick.
#[derive(Clone, Copy, PartialEq, Eq, Structural, Debug)]
pub struct PhysicalParameters {
    /// Master audio volume, hundredths of full scale.
    pub volume: u64,
    /// Chassis mass, hundredths of a kilogram.
    pub mass: u64,
    /// Gravitational acceleration, hundredths of a m/s^2.
    pub gravity: u64,
    /// Post-integration speed cap, hundredths of a m/s.
    pub max_speed: u64,
    /// Engine torque cap, hundredths of a N*m.
    pub max_torque: u64,
    /// Tyre friction coefficient, hundredths.
    pub friction_coefficient: u64,
}

impl PhysicalParameters {
    /// Every field lies inside its declared range.
    pub open spec fn wf(self) -> bool {
        &&& VOLUME_MIN <= self.volume <= VOLUME_MAX
        &&& MASS_MIN <= self.mass <= MASS_MAX
        &&& GRAVITY_MIN <= self.gravity <= GRAVITY_MAX
        &&& MAX_SPEED_MIN <= self.max_speed <= MAX_SPEED_MAX
        &&& MAX_TORQUE_MIN <= self.max_torque <= MAX_TORQUE_MAX
        &&& FRICTION_MIN <= self.friction_coefficient <= FRICTION_MAX
    }

    /// The store after writing `value` to `field`, clamped into the
    /// field's declared range; every other field is unchanged.
    pub open spec fn spec_set(self, field: PhysicalField, value: u64) -> PhysicalParameters {
        match field {
            PhysicalField::Volume => PhysicalParameters {
                volume: spec_clamp(value, VOLUME_MIN, VOLUME_MAX),
                ..self
            },
            PhysicalField::Mass => PhysicalParameters {
                mass: spec_clamp(value, MASS_MIN, MASS_MAX),
                ..self
            },
            PhysicalField::Gravity => PhysicalParameters {
                gravity: spec_clamp(value, GRAVITY_MIN, GRAVITY_MAX),
                ..self
            },
            PhysicalField::MaxSpeed => PhysicalParameters {
                max_speed: spec_clamp(value, MAX_SPEED_MIN, MAX_SPEED_MAX),
                ..self
            },
            PhysicalField::MaxTorque => PhysicalParameters {
                max_torque: spec_clamp(value, MAX_TORQUE_MIN, MAX_TORQUE_MAX),
                ..self
            },
            PhysicalField::FrictionCoefficient => PhysicalParameters {
                friction_coefficient: spec_clamp(value, FRICTION_MIN, FRICTION_MAX),
                ..self
            },
        }
    }

    /// Write `value` to `field`, clamped into the field's declared
    /// range. Out-of-range writes are clamped here, at the editing
    /// surface, never by the integrator.
    pub fn set_physical(&mut self, field: PhysicalField, value: u64)
        ensures
            *final(self) == old(self).spec_set(field, value),
            old(self).wf() ==> final(self).wf(),
    {
        match field {
            PhysicalField::Volume => {
                self.volume = clamp_u64(value, VOLUME_MIN, VOLUME_MAX);
            },
            PhysicalField::Mass => {
                self.mass = clamp_u64(value, MASS_MIN, MASS_MAX);
            },
            PhysicalField::Gravity => {
                self.gravity = clamp_u64(value, GRAVITY_MIN, GRAVITY_MAX);
            },
            PhysicalField::MaxSpeed => {
                self.max_speed = clamp_u64(value, MAX_SPEED_MIN, MAX_SPEED_MAX);
            },
            PhysicalField::MaxTorque => {
                self.max_torque = clamp_u64(value, MAX_TORQUE_MIN, MAX_TORQUE_MAX);
            },
            PhysicalField::FrictionCoefficient => {
                self.friction_coefficient = clamp_u64(value, FRICTION_MIN, FRICTION_MAX);
            },
        }
    }

    /// Snapshot copy for the readers of the store.
    pub fn get_physical(&self) -> (r: PhysicalParameters)
        ensures
            r == *self,
    {
        *self
    }
}

impl Default for PhysicalParameters {
    /// Session-start values; all inside their declared ranges.
    fn default() -> (r: Self)
        ensures
            r == (PhysicalParameters {
                volume: 100u64,
                mass: 100_000u64,
                gravity: 981u64,
                max_speed: 10_000u64,
                max_torque: 60_000u64,
                friction_coefficient: 100u64,
            }),
            r.wf(),
    {
        PhysicalParameters {
            volume: 100,
            mass: 100_000,
            gravity: 981,
            max_speed: 10_000,
            max_torque: 60_000,
            friction_coefficient: 100,
        }
    }
}

/// The fields of the terrain parameter set that carry a slider range.
#[derive(Clone, Copy, PartialEq, Eq, Structural, Debug)]
pub enum TerrainField {
    GridSize,
    Subdivisions,
}

/// Terrain-generation inputs, read by the mesh generator whenever an
/// edit is committed. The seed is a full 32-bit value; grid size and
/// subdivisions are centi values inside their slider ranges.
#[derive(Clone, Copy, PartialEq, Eq, Structural, Debug)]
pub struct TerrainParameters {
    /// Terrain seed; every 32-bit value is valid.
    pub seed: u32,
    /// Edge length of the terrain grid, hundredths.
    pub grid_size: u64,
    /// Mesh subdivisions per grid cell, hundredths.
    pub subdivisions: u64,
}

impl TerrainParameters {
    /// Grid size and subdivisions lie inside their slider ranges.
    pub open spec fn wf(self) -> bool {
        &&& GRID_SIZE_MIN <= self.grid_size <= GRID_SIZE_MAX
        &&& SUBDIVISIONS_MIN <= self.subdivisions <= SUBDIVISIONS_MAX
    }

    /// The store after writing `value` to `field`, clamped into the
    /// field's slider range; the other fields are unchanged.
    pub open spec fn spec_set(self, field: TerrainField, value: u64) -> TerrainParameters {
        match field {
            TerrainField::GridSize => TerrainParameters {
                grid_size: spec_clamp(value, GRID_SIZE_MIN, GRID_SIZE_MAX),
                ..self
            },
            TerrainField::Subdivisions => TerrainParameters {
                subdivisions: spec_clamp(value, SUBDIVISIONS_MIN, SUBDIVISIONS_MAX),
                ..self
            },
        }
    }

    /// Write `value` to `field`, clamped into the field's slider range.
    pub fn set_terrain(&mut self, field: TerrainField, value: u64)
        ensures
            *final(self) == old(self).spec_set(field, value),
            old(self).wf() ==> final(self).wf(),
    {
        match field {
            TerrainField::GridSize => {
                self.grid_size = clamp_u64(value, GRID_SIZE_MIN, GRID_SIZE_MAX);
            },
            TerrainField::Subdivisions => {
                self.subdivisions = clamp_u64(value, SUBDIVISIONS_MIN, SUBDIVISIONS_MAX);
            },
        }
    }

    /// Commit a new seed. Every 32-bit value is a valid seed, so no
    /// clamping is needed here; free-form text goes through the seed
    /// sanitizer first.
    pub fn set_seed(&mut self, seed: u32)
        ensures
            *final(self) == (TerrainParameters { seed, ..*old(self) }),
            old(self).wf() ==> final(self).wf(),
    {
        self.seed = seed;
    }

    /// Snapshot copy for the readers of the store.
    pub fn get_terrain(&self) -> (r: TerrainParameters)
        ensures
            r == *self,
    {
        *self
    }
}

impl Default for TerrainParameters {
    /// Session-start values; inside their slider ranges.
    fn default() -> (r: Self)
        ensures
            r == (TerrainParameters { seed: 0u32, grid_size: 100_000u64, subdivisions: 102_400u64 }),
            r.wf(),
    {
        TerrainParameters { seed: 0, grid_size: 100_000, subdivisions: 102_400 }
    }
}

} // verus!
