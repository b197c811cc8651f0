use lightcycle::TrigTables;

// Table values are the real function scaled by 256 and rounded; one angle
// unit is 3/16 of a degree, so 240 units are 45 degrees and 480 a quarter
// turn.

#[test]
fn tangent_lookup_matches_the_axis_values() {
    let t = TrigTables::new();
    assert_eq!(t.tan_fp(0), 0);
    assert_eq!(t.tan_fp(240), 256);  // tan 45 deg == 1
    assert_eq!(t.tan_fp(960), 0);  // period of half a turn
    assert_eq!(t.tan_fp(100), 87);
    assert_eq!(t.tan_fp(300), 383);
}

#[test]
fn cotangent_is_the_complementary_tangent() {
    let t = TrigTables::new();
    assert_eq!(t.cot_fp(480), 0);  // cot 90 deg == 0
    assert_eq!(t.cot_fp(240), 256);
    assert_eq!(t.cot_fp(100), 754);
    assert_eq!(t.cot_fp(380), t.tan_fp(100));
}

#[test]
fn mirrored_angles_have_opposite_slopes() {
    let t = TrigTables::new();
    for a in [1usize, 100, 300, 459, 700, 959] {
        assert_eq!(t.tan_fp(960 - a), -t.tan_fp(a));
        assert_eq!(t.cot_fp(960 - a), -t.cot_fp(a));
        assert_eq!(t.tan_fp(a + 960), t.tan_fp(a));
    }
}

#[test]
fn sine_and_cosine_cover_the_full_revolution() {
    let t = TrigTables::new();
    assert_eq!(t.sin_fp(0), 0);
    assert_eq!(t.sin_fp(160), 128);  // sin 30 deg == 1/2
    assert_eq!(t.sin_fp(480), 256);  // sin 90 deg == 1
    assert_eq!(t.sin_fp(960), 0);
    assert_eq!(t.sin_fp(1440), -256);
    assert_eq!(t.cos_fp(0), 256);
    assert_eq!(t.cos_fp(480), 0);
    assert_eq!(t.cos_fp(960), -256);
    for a in 0..1920 {
        let s = t.sin_fp(a) as i64;
        let c = t.cos_fp(a) as i64;
        // Scaled Pythagoras holds up to rounding.
        let norm = s * s + c * c;
        assert!(norm > 256 * 256 - 600 && norm < 256 * 256 + 600);
    }
}
