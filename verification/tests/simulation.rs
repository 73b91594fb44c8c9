use car::audio::audio_for_vehicle;
use car::audio::speed_to_audio;
use car::clock::SimulationClock;
use car::clock::DEFAULT_FIXED_STEP;
use car::clock::MAX_FIXED_STEP;
use car::control::ControlVector;
use car::integrator::advance_session;
use car::integrator::tick;
use car::integrator::tick_all;
use car::integrator::IntegrationScheme;
use car::integrator::RigidBodyState;
use car::integrator::POSITION_LIMIT;
use car::params::PhysicalField;
use car::params::PhysicalParameters;
use car::registry::build_registry;
use car::registry::parse_scheme;
use car::registry::RawVehicleConfig;
use car::ConfigError;

fn raw_vehicle(scheme_code: u32, numeric_id: u32) -> RawVehicleConfig {
    RawVehicleConfig { spawn_x: 0, spawn_y: 0, spawn_z: 0, scheme_code, numeric_id }
}

#[test]
fn zero_fixed_step_is_a_configuration_error() {
    assert_eq!(SimulationClock::new(0).unwrap_err(), ConfigError::InvalidFixedStep);
    assert_eq!(
        SimulationClock::new(MAX_FIXED_STEP + 1).unwrap_err(),
        ConfigError::InvalidFixedStep
    );
    let clock = SimulationClock::new(DEFAULT_FIXED_STEP).unwrap();
    assert_eq!(clock.fixed_step, DEFAULT_FIXED_STEP);
    assert_eq!(clock.accumulator, 0);
}

#[test]
fn accumulator_consumes_whole_steps_and_carries_the_remainder() {
    let mut clock = SimulationClock::new(2_000).unwrap();
    assert_eq!(clock.advance(5_000), 2);
    assert_eq!(clock.accumulator, 1_000);
    assert_eq!(clock.advance(999), 0);
    assert_eq!(clock.accumulator, 1_999);
    assert_eq!(clock.advance(1), 1);
    assert_eq!(clock.accumulator, 0);
}

#[test]
fn rechunked_deltas_give_the_same_tick_count() {
    let chunkings: [&[u64]; 4] =
        [&[7_000], &[1_000, 6_000], &[3_500, 3_500], &[1_000, 1_000, 5_000]];
    let mut results = Vec::new();
    for deltas in chunkings {
        let mut clock = SimulationClock::new(2_000).unwrap();
        let mut steps = 0;
        for &d in deltas {
            steps += clock.advance(d);
        }
        results.push((steps, clock.accumulator));
    }
    for r in &results {
        assert_eq!(*r, (3, 1_000));
    }
}

#[test]
fn full_throttle_accelerates_by_torque_over_mass() {
    let params = PhysicalParameters::default();
    let state = RigidBodyState::at_rest(0);
    let control = ControlVector { throttle: 100, steering: 0, brake: 0 };
    // One full second: torque 600.00 over mass 1000.00 gives 60 centi
    // units of velocity; first-order displacement uses the old velocity.
    let next = tick(&state, &params, &control, 1_000_000, IntegrationScheme::ForwardEuler);
    assert_eq!(next.velocity, 60);
    assert_eq!(next.position, 0);
    let after_two = tick(&next, &params, &control, 1_000_000, IntegrationScheme::ForwardEuler);
    assert_eq!(after_two.velocity, 120);
    assert_eq!(after_two.position, 60);
}

#[test]
fn runge_kutta_displaces_by_the_trapezoidal_mean() {
    let params = PhysicalParameters::default();
    let state = RigidBodyState::at_rest(0);
    let control = ControlVector { throttle: 100, steering: 0, brake: 0 };
    let next = tick(&state, &params, &control, 1_000_000, IntegrationScheme::RungeKutta4);
    assert_eq!(next.velocity, 60);
    assert_eq!(next.position, 30);
}

#[test]
fn reverse_throttle_drives_backward() {
    let params = PhysicalParameters::default();
    let state = RigidBodyState::at_rest(0);
    let control = ControlVector { throttle: -100, steering: 0, brake: 0 };
    let next = tick(&state, &params, &control, 1_000_000, IntegrationScheme::ForwardEuler);
    assert_eq!(next.velocity, -60);
}

#[test]
fn speed_is_clamped_to_the_configured_cap() {
    let mut params = PhysicalParameters::default();
    params.set_physical(PhysicalField::MaxSpeed, 100);
    params.set_physical(PhysicalField::MaxTorque, 1_000_000);
    params.set_physical(PhysicalField::Mass, 100);
    let state = RigidBodyState::at_rest(0);
    let control = ControlVector { throttle: 100, steering: 0, brake: 0 };
    let next = tick(&state, &params, &control, 1_000_000, IntegrationScheme::ForwardEuler);
    assert_eq!(next.velocity, 100);
    let next = tick(
        &RigidBodyState { position: 0, velocity: -20_000 },
        &params,
        &control,
        1_000_000,
        IntegrationScheme::ForwardEuler,
    );
    assert!(next.velocity.abs() <= 100);
}

#[test]
fn braking_stops_at_zero_and_never_reverses() {
    let params = PhysicalParameters::default();
    let state = RigidBodyState { position: 0, velocity: 60 };
    let control = ControlVector { throttle: 0, steering: 0, brake: 100 };
    // Brake 1.00 x friction 1.00 x gravity 9.81 removes 98 centi units
    // in one second, more than the 60 the vehicle carries.
    let next = tick(&state, &params, &control, 1_000_000, IntegrationScheme::ForwardEuler);
    assert_eq!(next.velocity, 0);
}

#[test]
fn position_saturates_at_the_world_edge() {
    let params = PhysicalParameters::default();
    let state = RigidBodyState { position: POSITION_LIMIT, velocity: 10_000 };
    let control = ControlVector { throttle: 100, steering: 0, brake: 0 };
    let next = tick(&state, &params, &control, 1_000_000, IntegrationScheme::ForwardEuler);
    assert_eq!(next.position, POSITION_LIMIT);
}

#[test]
fn vehicles_tick_independently() {
    let params = PhysicalParameters::default();
    let mut states = vec![RigidBodyState::at_rest(0), RigidBodyState::at_rest(500)];
    let controls = vec![
        ControlVector { throttle: 100, steering: 0, brake: 0 },
        ControlVector { throttle: 0, steering: 0, brake: 0 },
    ];
    tick_all(&mut states, &params, &controls, 1_000_000, IntegrationScheme::ForwardEuler);
    assert_eq!(states[0].velocity, 60);
    assert_eq!(states[1].velocity, 0);
    assert_eq!(states[1].position, 500);
}

#[test]
fn a_session_runs_one_tick_per_whole_step() {
    let params = PhysicalParameters::default();
    let mut clock = SimulationClock::new(1_000_000).unwrap();
    let mut states = vec![RigidBodyState::at_rest(0)];
    let controls = vec![ControlVector { throttle: 100, steering: 0, brake: 0 }];
    let steps = advance_session(
        &mut clock,
        &mut states,
        &params,
        &controls,
        IntegrationScheme::ForwardEuler,
        2_500_000,
    );
    assert_eq!(steps, 2);
    assert_eq!(clock.accumulator, 500_000);
    assert_eq!(states[0].velocity, 120);
    assert_eq!(states[0].position, 60);
}

#[test]
fn rechunked_sessions_end_in_the_same_state() {
    let params = PhysicalParameters::default();
    let controls = vec![ControlVector { throttle: 100, steering: 0, brake: 0 }];

    let mut clock_a = SimulationClock::new(1_000_000).unwrap();
    let mut states_a = vec![RigidBodyState::at_rest(0)];
    let mut total_a = 0;
    for delta in [1_500_000u64, 1_000_000, 900_000] {
        total_a += advance_session(
            &mut clock_a,
            &mut states_a,
            &params,
            &controls,
            IntegrationScheme::ForwardEuler,
            delta,
        );
    }

    let mut clock_b = SimulationClock::new(1_000_000).unwrap();
    let mut states_b = vec![RigidBodyState::at_rest(0)];
    let total_b = advance_session(
        &mut clock_b,
        &mut states_b,
        &params,
        &controls,
        IntegrationScheme::ForwardEuler,
        3_400_000,
    );

    assert_eq!(total_a, total_b);
    assert_eq!(clock_a.accumulator, clock_b.accumulator);
    assert_eq!(states_a[0], states_b[0]);
}

#[test]
fn audio_map_hits_its_endpoints() {
    assert_eq!(speed_to_audio(0, 10_000).pitch_factor, 100);
    assert_eq!(speed_to_audio(0, 10_000).volume_factor, 25);
    assert_eq!(speed_to_audio(5_000, 10_000).pitch_factor, 150);
    assert_eq!(speed_to_audio(5_000, 10_000).volume_factor, 62);
    assert_eq!(speed_to_audio(10_000, 10_000).pitch_factor, 200);
    assert_eq!(speed_to_audio(10_000, 10_000).volume_factor, 100);
}

#[test]
fn audio_map_clamps_out_of_domain_speed() {
    assert_eq!(speed_to_audio(-50, 10_000), speed_to_audio(0, 10_000));
    assert_eq!(speed_to_audio(20_000, 10_000), speed_to_audio(10_000, 10_000));
}

#[test]
fn audio_map_is_monotonic_across_the_domain() {
    let mut last = speed_to_audio(0, 10_000);
    for s in (0..=10_000).step_by(250) {
        let now = speed_to_audio(s, 10_000);
        assert!(now.pitch_factor >= last.pitch_factor);
        assert!(now.volume_factor >= last.volume_factor);
        last = now;
    }
}

#[test]
fn audio_follows_the_vehicle_speed_magnitude() {
    let params = PhysicalParameters::default();
    let forward = RigidBodyState { position: 0, velocity: 5_000 };
    let backward = RigidBodyState { position: 0, velocity: -5_000 };
    assert_eq!(audio_for_vehicle(&forward, &params), audio_for_vehicle(&backward, &params));
    assert_eq!(audio_for_vehicle(&forward, &params).pitch_factor, 150);
}

#[test]
fn registry_accepts_distinct_schemes() {
    let raws = vec![raw_vehicle(0, 1), raw_vehicle(1, 2)];
    let registry = build_registry(&raws).unwrap();
    assert_eq!(registry.len(), 2);
    assert_eq!(registry.vehicle(0).numeric_id, 1);
    assert_eq!(registry.vehicle(1).numeric_id, 2);
    assert_ne!(registry.vehicle(0).control_scheme, registry.vehicle(1).control_scheme);
}

#[test]
fn registry_rejects_unknown_scheme_codes() {
    let raws = vec![raw_vehicle(0, 1), raw_vehicle(7, 2)];
    assert_eq!(build_registry(&raws).unwrap_err(), ConfigError::UnknownControlScheme);
    assert!(parse_scheme(7).is_err());
    assert!(parse_scheme(1).is_ok());
}

#[test]
fn registry_rejects_duplicate_schemes() {
    let raws = vec![raw_vehicle(1, 1), raw_vehicle(1, 2)];
    assert_eq!(build_registry(&raws).unwrap_err(), ConfigError::DuplicateControlScheme);
}

#[test]
fn unknown_codes_are_reported_before_duplicates() {
    let raws = vec![raw_vehicle(0, 1), raw_vehicle(9, 2), raw_vehicle(0, 3)];
    assert_eq!(build_registry(&raws).unwrap_err(), ConfigError::UnknownControlScheme);
}

#[test]
fn spawn_positions_are_clamped_into_the_world() {
    let raws = vec![RawVehicleConfig {
        spawn_x: i64::MAX,
        spawn_y: i64::MIN,
        spawn_z: 42,
        scheme_code: 0,
        numeric_id: 5,
    }];
    let registry = build_registry(&raws).unwrap();
    assert_eq!(registry.vehicle(0).spawn_x, POSITION_LIMIT);
    assert_eq!(registry.vehicle(0).spawn_y, -POSITION_LIMIT);
    assert_eq!(registry.vehicle(0).spawn_z, 42);
}

#[test]
fn sessions_start_with_every_vehicle_at_rest_at_its_spawn() {
    let mut raws = vec![raw_vehicle(0, 1), raw_vehicle(1, 2)];
    raws[0].spawn_x = -700;
    raws[1].spawn_x = 1_300;
    let registry = build_registry(&raws).unwrap();
    let states = registry.spawn_states();
    assert_eq!(states.len(), 2);
    assert_eq!(states[0], RigidBodyState { position: -700, velocity: 0 });
    assert_eq!(states[1], RigidBodyState { position: 1_300, velocity: 0 });
}

#[test]
fn empty_registry_is_valid_and_idle() {
    let raws: Vec<RawVehicleConfig> = Vec::new();
    let registry = build_registry(&raws).unwrap();
    assert_eq!(registry.len(), 0);
    assert_eq!(registry.spawn_states().len(), 0);
}
