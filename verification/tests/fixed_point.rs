use flightcore::fixed::{add_sat, clamp64, div_trunc64, scale_milli, sub_sat, Vec3i};

#[test]
fn division_truncates_toward_zero() {
    assert_eq!(div_trunc64(1999, 1000), 1);
    assert_eq!(div_trunc64(-1999, 1000), -1);
    assert_eq!(div_trunc64(999, 1000), 0);
    assert_eq!(div_trunc64(-999, 1000), 0);
    assert_eq!(div_trunc64(-3000, 1000), -3);
    assert_eq!(div_trunc64(0, 7), 0);
}

#[test]
fn clamp_pins_to_both_ends() {
    assert_eq!(clamp64(5, -10, 10), 5);
    assert_eq!(clamp64(-50, -10, 10), -10);
    assert_eq!(clamp64(50, -10, 10), 10);
    assert_eq!(clamp64(-10, -10, 10), -10);
}

#[test]
fn scaling_directions_by_milli_lengths() {
    let forward = Vec3i { x: 0, y: -707, z: -707 };
    let scaled = scale_milli(&forward, 20_000);
    assert_eq!(scaled, Vec3i { x: 0, y: -14_140, z: -14_140 });

    let unit = Vec3i { x: 1000, y: 0, z: 0 };
    assert_eq!(scale_milli(&unit, -2_500), Vec3i { x: -2_500, y: 0, z: 0 });
}

#[test]
fn vector_sums_saturate_at_the_limit() {
    let a = Vec3i { x: 10, y: -10, z: 0 };
    let b = Vec3i { x: -4, y: 4, z: 9 };
    assert_eq!(add_sat(&a, &b, 1_000), Vec3i { x: 6, y: -6, z: 9 });
    assert_eq!(sub_sat(&a, &b, 1_000), Vec3i { x: 14, y: -14, z: -9 });
    assert_eq!(add_sat(&a, &b, 5), Vec3i { x: 5, y: -5, z: 5 });
}

#[test]
fn zero_vector_is_the_additive_identity() {
    let zero = Vec3i::zero();
    assert_eq!(zero, Vec3i { x: 0, y: 0, z: 0 });
    let a = Vec3i { x: 31, y: -7, z: 2 };
    assert_eq!(add_sat(&a, &zero, 1_000), a);
    assert_eq!(scale_milli(&zero, 999), zero);
}
