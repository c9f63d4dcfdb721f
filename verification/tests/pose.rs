use astropose::fx::SCALE;
use astropose::geom::Vec3;
use astropose::meta::extract_pose_inputs;
use astropose::meta::Field;
use astropose::meta::MetaValue;
use astropose::meta::ObservationRecord;
use astropose::pose::compose_pose;
use astropose::pose::AngleTrig;
use astropose::pose::PoseTrig;

fn trig_of_degrees(deg: f64) -> AngleTrig {
    let rad = deg / 360.0 * 2.0 * std::f64::consts::PI;
    AngleTrig {
        sin: (rad.sin() * SCALE as f64).round() as i64,
        cos: (rad.cos() * SCALE as f64).round() as i64,
    }
}

fn pose_trig(dec: f64, ra: f64, clock: f64, lon: f64, lat: f64) -> PoseTrig {
    PoseTrig {
        declination: trig_of_degrees(dec),
        right_ascension: trig_of_degrees(ra),
        clock_angle: trig_of_degrees(clock),
        sub_lon: trig_of_degrees(lon),
        sub_lat: trig_of_degrees(lat),
    }
}

fn unscale(v: &Vec3) -> [f64; 3] {
    let s = SCALE as f64;
    [v.x as f64 / s, v.y as f64 / s, v.z as f64 / s]
}

fn dotf(a: [f64; 3], b: [f64; 3]) -> f64 {
    a[0] * b[0] + a[1] * b[1] + a[2] * b[2]
}

fn normf(a: [f64; 3]) -> f64 {
    dotf(a, a).sqrt()
}

/// Truncating fixed-point product, as the library defines it.
fn fx_product(a: i64, b: i64) -> i64 {
    let p = a as i128 * b as i128;
    if p >= 0 {
        (p / 1_000_000) as i64
    } else {
        -((-p / 1_000_000) as i64)
    }
}

#[test]
fn reference_scenario_is_exact() {
    let trig = pose_trig(0.0, 0.0, 0.0, 0.0, 0.0);
    let target = Vec3 { x: -10 * SCALE, y: 0, z: 0 };
    let r = compose_pose(&trig, &target);
    assert_eq!(r.boresight, Vec3 { x: SCALE, y: 0, z: 0 });
    assert_eq!(r.rotation.cz, Vec3 { x: SCALE, y: 0, z: 0 });
    assert_eq!(r.rotation.cy, Vec3 { x: 0, y: 0, z: SCALE });
    assert_eq!(r.rotation.cx, Vec3 { x: 0, y: SCALE, z: 0 });
    assert_eq!(r.translation, Vec3 { x: SCALE, y: 0, z: 0 });
    let cols = [unscale(&r.rotation.cx), unscale(&r.rotation.cy), unscale(&r.rotation.cz)];
    for c in cols.iter() {
        assert!((normf(*c) - 1.0).abs() < 1e-4);
    }
    assert!(dotf(cols[0], cols[1]).abs() < 1e-4);
    assert!(dotf(cols[0], cols[2]).abs() < 1e-4);
    assert!(dotf(cols[1], cols[2]).abs() < 1e-4);
}

#[test]
fn composition_is_deterministic() {
    let trig = pose_trig(23.0, 187.5, 42.0, 310.0, -55.0);
    let target = Vec3 { x: 12 * SCALE, y: -7 * SCALE, z: 3 * SCALE };
    let a = compose_pose(&trig, &target);
    let b = compose_pose(&trig, &target);
    assert_eq!(a, b);
}

#[test]
fn rotation_columns_are_pairwise_orthogonal() {
    let cases = [
        (0.0, 0.0, 0.0, 0.0, 0.0),
        (30.0, 45.0, 60.0, 120.0, -40.0),
        (-60.0, 300.0, 15.0, 10.0, 80.0),
        (45.0, 90.0, 270.0, 200.0, 5.0),
        (-20.0, 359.0, 180.0, 90.0, -89.0),
    ];
    for (dec, ra, clock, lon, lat) in cases.iter() {
        let trig = pose_trig(*dec, *ra, *clock, *lon, *lat);
        let target = Vec3 { x: SCALE, y: SCALE, z: SCALE };
        let r = compose_pose(&trig, &target);
        let cols = [unscale(&r.rotation.cx), unscale(&r.rotation.cy), unscale(&r.rotation.cz)];
        assert!(dotf(cols[0], cols[1]).abs() < 1e-4);
        assert!(dotf(cols[0], cols[2]).abs() < 1e-4);
        assert!(dotf(cols[1], cols[2]).abs() < 1e-4);
    }
}

#[test]
fn rotation_basis_is_right_handed() {
    // The triple product (right x up) . boresight is +1 for a
    // right-handed orthonormal basis.
    let cases = [
        (0.0, 0.0, 0.0, 0.0, 0.0),
        (30.0, 45.0, 60.0, 120.0, -40.0),
        (-60.0, 300.0, 15.0, 10.0, 80.0),
        (45.0, 90.0, 270.0, 200.0, 5.0),
    ];
    for (dec, ra, clock, lon, lat) in cases.iter() {
        let trig = pose_trig(*dec, *ra, *clock, *lon, *lat);
        let target = Vec3 { x: SCALE, y: SCALE, z: SCALE };
        let r = compose_pose(&trig, &target);
        let right = unscale(&r.rotation.cx);
        let up = unscale(&r.rotation.cy);
        let dir = unscale(&r.rotation.cz);
        let rxu = [
            right[1] * up[2] - right[2] * up[1],
            right[2] * up[0] - right[0] * up[2],
            right[0] * up[1] - right[1] * up[0],
        ];
        let triple = dotf(rxu, dir);
        assert!((triple - 1.0).abs() < 1e-3, "triple product {}", triple);
    }
}

#[test]
fn rotation_columns_are_unit_for_all_angles() {
    // The in-plane axes are unit by construction (the projection
    // residual is scaled by its own length, 1/cos declination), and the
    // rotations preserve length; declination 60 exercises the case where
    // the raw residual would have length one half.
    let cases = [
        (60.0, 45.0, 60.0, 120.0, -40.0),
        (0.0, 300.0, 15.0, 10.0, 80.0),
        (-60.0, 90.0, 270.0, 200.0, 5.0),
        (85.0, 222.5, 10.0, 340.0, -89.0),
        (-89.5, 10.0, 200.0, 40.0, 30.0),
    ];
    for (dec, ra, clock, lon, lat) in cases.iter() {
        let trig = pose_trig(*dec, *ra, *clock, *lon, *lat);
        let target = Vec3 { x: SCALE, y: SCALE, z: SCALE };
        let r = compose_pose(&trig, &target);
        let cols = [unscale(&r.rotation.cx), unscale(&r.rotation.cy), unscale(&r.rotation.cz)];
        for c in cols.iter() {
            assert!((normf(*c) - 1.0).abs() < 1e-4);
        }
    }
}

#[test]
fn boresight_is_unit_for_any_direction() {
    // Before the body-fixed rotation (longitude and latitude zero), the
    // boresight of any declination in (-90, 90) and any right ascension
    // in [0, 360) has unit magnitude.
    let decs = [-85.0, -45.0, -10.0, 0.0, 30.0, 60.0, 89.0];
    let ras = [0.0, 45.0, 120.0, 222.5, 270.0, 359.0];
    for dec in decs.iter() {
        for ra in ras.iter() {
            let trig = pose_trig(*dec, *ra, 0.0, 0.0, 0.0);
            let target = Vec3 { x: SCALE, y: 0, z: 0 };
            let r = compose_pose(&trig, &target);
            assert!((normf(unscale(&r.boresight)) - 1.0).abs() < 1e-4);
        }
    }
}

#[test]
fn zero_clock_angle_leaves_in_plane_axes_unchanged() {
    // With a zero clock angle the clock rotation is the identity, so the
    // rotated up axis coincides with the rotated in-plane north exactly,
    // whatever the other angles are.
    let trig = pose_trig(35.0, 140.0, 0.0, 250.0, -30.0);
    let target = Vec3 { x: 2 * SCALE, y: SCALE, z: 0 };
    let r = compose_pose(&trig, &target);
    assert_eq!(r.in_plane_up, r.in_plane_north);
}

#[test]
fn zero_body_angles_leave_boresight_unrotated() {
    // With zero longitude and latitude, the boresight comes out exactly
    // as the spherical-to-Cartesian conversion computed it.
    let trig = pose_trig(35.0, 140.0, 77.0, 0.0, 0.0);
    let target = Vec3 { x: SCALE, y: 0, z: 0 };
    let r = compose_pose(&trig, &target);
    let cd = trig.declination.cos;
    let sd = trig.declination.sin;
    let cr = trig.right_ascension.cos;
    let sr = trig.right_ascension.sin;
    assert_eq!(
        r.boresight,
        Vec3 { x: fx_product(cd, cr), y: fx_product(cd, sr), z: sd },
    );
}

#[test]
fn translation_scales_and_negates_the_target() {
    let trig = pose_trig(0.0, 0.0, 0.0, 0.0, 0.0);
    let target = Vec3 { x: -10 * SCALE, y: 4 * SCALE, z: 2 * SCALE };
    let r = compose_pose(&trig, &target);
    assert_eq!(
        r.translation,
        Vec3 { x: SCALE, y: -4 * SCALE / 10, z: -2 * SCALE / 10 },
    );
}

#[test]
fn clock_angle_rotates_up_about_the_boresight() {
    // Boresight along x, clock angle of ninety degrees: the up axis
    // swings from z to y (rotation about the boresight by the negated
    // clock angle).
    let trig = pose_trig(0.0, 0.0, 90.0, 0.0, 0.0);
    let target = Vec3 { x: SCALE, y: 0, z: 0 };
    let r = compose_pose(&trig, &target);
    let up = unscale(&r.in_plane_up);
    assert!((up[0] - 0.0).abs() < 1e-4);
    assert!((up[1] - 1.0).abs() < 1e-4);
    assert!((up[2] - 0.0).abs() < 1e-4);
}

fn scalar_field(value: f64) -> MetaValue {
    MetaValue::List(vec![
        MetaValue::Number(value.to_bits()),
        MetaValue::Text("DEGREES".to_string()),
    ])
}

#[test]
fn extraction_feeds_composition_end_to_end() {
    let rec = ObservationRecord {
        fields: vec![
            Field {
                name: "SC_TARGET_POSITION_VECTOR".to_string(),
                value: MetaValue::List(vec![
                    scalar_field(-10.0),
                    scalar_field(0.0),
                    scalar_field(0.0),
                ]),
            },
            Field { name: "SUB_SPACECRAFT_LONGITUDE".to_string(), value: scalar_field(0.0) },
            Field { name: "SUB_SPACECRAFT_LATITUDE".to_string(), value: scalar_field(0.0) },
            Field { name: "DECLINATION".to_string(), value: scalar_field(0.0) },
            Field { name: "RIGHT_ASCENSION".to_string(), value: scalar_field(0.0) },
            Field { name: "CELESTIAL_NORTH_CLOCK_ANGLE".to_string(), value: scalar_field(0.0) },
        ],
    };
    let p = extract_pose_inputs(&rec).unwrap();
    let trig = pose_trig(
        f64::from_bits(p.declination),
        f64::from_bits(p.right_ascension),
        f64::from_bits(p.clock_angle),
        f64::from_bits(p.sub_lon),
        f64::from_bits(p.sub_lat),
    );
    let s = SCALE as f64;
    let target = Vec3 {
        x: (f64::from_bits(p.target.0) * s).round() as i64,
        y: (f64::from_bits(p.target.1) * s).round() as i64,
        z: (f64::from_bits(p.target.2) * s).round() as i64,
    };
    let r = compose_pose(&trig, &target);
    assert_eq!(r.boresight, Vec3 { x: SCALE, y: 0, z: 0 });
    assert_eq!(r.translation, Vec3 { x: SCALE, y: 0, z: 0 });
}
