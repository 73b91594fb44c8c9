use car::params::PhysicalField;
use car::params::PhysicalParameters;
use car::params::TerrainField;
use car::params::TerrainParameters;
use car::seed::sanitize;
use car::seed::seed_from_text;
use car::seed::truncate_fresh;

#[test]
fn sanitize_mixed_text_keeps_digits_and_truncates() {
    assert_eq!(sanitize("12a3b456789"), 123456789);
}

#[test]
fn sanitize_zero_is_zero() {
    assert_eq!(sanitize("0"), 0);
}

#[test]
fn sanitize_plain_number_is_identity() {
    assert_eq!(sanitize("424242"), 424242);
}

#[test]
fn sanitize_leading_zeros_read_as_decimal() {
    assert_eq!(sanitize("007"), 7);
}

#[test]
fn sanitize_truncates_to_first_nine_digits() {
    assert_eq!(sanitize("12345678987654321"), 123456789);
}

#[test]
fn sanitize_text_without_digits_is_zero() {
    assert_eq!(sanitize("no digits here!"), 0);
}

#[test]
fn sanitize_empty_draws_a_valid_seed() {
    let seed = sanitize("");
    assert!(seed <= 999_999_999);
    // Re-sanitizing the committed seed's decimal form changes nothing.
    assert_eq!(sanitize(&seed.to_string()), seed);
}

#[test]
fn sanitize_is_idempotent_on_valid_seed_strings() {
    for text in ["0", "7", "999999999", "123456789", "42"] {
        let once = sanitize(text);
        assert_eq!(sanitize(&once.to_string()), once);
    }
}

#[test]
fn seed_from_text_matches_sanitize_on_nonempty() {
    assert_eq!(seed_from_text("12a3b456789"), 123456789);
    assert_eq!(seed_from_text(""), 0);
}

#[test]
fn truncate_fresh_keeps_small_values_and_drops_tenth_digit() {
    assert_eq!(truncate_fresh(999_999_999), 999_999_999);
    assert_eq!(truncate_fresh(1_000_000_000), 100_000_000);
    assert_eq!(truncate_fresh(4_294_967_295), 429_496_729);
    assert_eq!(truncate_fresh(0), 0);
}

#[test]
fn mass_write_above_range_clamps_to_maximum() {
    let mut p = PhysicalParameters::default();
    // 20000.00 kg requested, 15000.00 kg stored.
    p.set_physical(PhysicalField::Mass, 2_000_000);
    assert_eq!(p.mass, 1_500_000);
}

#[test]
fn mass_write_below_range_clamps_to_minimum() {
    let mut p = PhysicalParameters::default();
    // 0.50 kg requested, 1.00 kg stored.
    p.set_physical(PhysicalField::Mass, 50);
    assert_eq!(p.mass, 100);
}

#[test]
fn in_range_writes_are_stored_unchanged() {
    let mut p = PhysicalParameters::default();
    p.set_physical(PhysicalField::Mass, 123_456);
    p.set_physical(PhysicalField::Gravity, 981);
    p.set_physical(PhysicalField::MaxSpeed, 5_000);
    p.set_physical(PhysicalField::MaxTorque, 750_000);
    p.set_physical(PhysicalField::FrictionCoefficient, 250);
    p.set_physical(PhysicalField::Volume, 80);
    assert_eq!(p.mass, 123_456);
    assert_eq!(p.gravity, 981);
    assert_eq!(p.max_speed, 5_000);
    assert_eq!(p.max_torque, 750_000);
    assert_eq!(p.friction_coefficient, 250);
    assert_eq!(p.volume, 80);
}

#[test]
fn volume_and_friction_clamp_at_their_bounds() {
    let mut p = PhysicalParameters::default();
    p.set_physical(PhysicalField::Volume, 500);
    assert_eq!(p.volume, 100);
    p.set_physical(PhysicalField::FrictionCoefficient, 9_999);
    assert_eq!(p.friction_coefficient, 500);
    p.set_physical(PhysicalField::FrictionCoefficient, 0);
    assert_eq!(p.friction_coefficient, 0);
}

#[test]
fn gravity_speed_and_torque_clamp_at_their_bounds() {
    let mut p = PhysicalParameters::default();
    p.set_physical(PhysicalField::Gravity, 0);
    assert_eq!(p.gravity, 100);
    p.set_physical(PhysicalField::Gravity, 1_000_000);
    assert_eq!(p.gravity, 20_000);
    p.set_physical(PhysicalField::MaxSpeed, 0);
    assert_eq!(p.max_speed, 100);
    p.set_physical(PhysicalField::MaxSpeed, 1_000_000);
    assert_eq!(p.max_speed, 20_000);
    p.set_physical(PhysicalField::MaxTorque, 0);
    assert_eq!(p.max_torque, 100);
    p.set_physical(PhysicalField::MaxTorque, 99_000_000);
    assert_eq!(p.max_torque, 1_000_000);
}

#[test]
fn terrain_writes_clamp_into_slider_ranges() {
    let mut t = TerrainParameters::default();
    t.set_terrain(TerrainField::GridSize, 0);
    assert_eq!(t.grid_size, 100);
    t.set_terrain(TerrainField::GridSize, 99_999_999);
    assert_eq!(t.grid_size, 400_000);
    t.set_terrain(TerrainField::Subdivisions, 50);
    assert_eq!(t.subdivisions, 100);
    t.set_terrain(TerrainField::Subdivisions, 1_000_000);
    assert_eq!(t.subdivisions, 204_800);
    t.set_terrain(TerrainField::Subdivisions, 12_800);
    assert_eq!(t.subdivisions, 12_800);
}

#[test]
fn any_seed_value_is_stored_unchanged() {
    let mut t = TerrainParameters::default();
    t.set_seed(4_294_967_295);
    assert_eq!(t.seed, 4_294_967_295);
    t.set_seed(0);
    assert_eq!(t.seed, 0);
}

#[test]
fn snapshots_copy_the_current_values() {
    let mut p = PhysicalParameters::default();
    p.set_physical(PhysicalField::Mass, 222_222);
    let snap = p.get_physical();
    assert_eq!(snap.mass, 222_222);
    let t = TerrainParameters::default();
    let tsnap = t.get_terrain();
    assert_eq!(tsnap.grid_size, t.grid_size);
    assert_eq!(tsnap.subdivisions, t.subdivisions);
    assert_eq!(tsnap.seed, t.seed);
}
