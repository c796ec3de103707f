use hexgrid::axial::Axial;
use hexgrid::fixed::Fixed;
use hexgrid::hex::Props;

/// Exact fixed-point value of an f32 (all values used here convert exactly).
fn fx(v: f32) -> Fixed {
    Fixed::from_raw((v as f64 * 4294967296.0) as i64)
}

#[test]
fn test_xy() {
    let h = Props::flat(fx(7f32), fx(10f32));
    assert_eq!(h.xy_ref(&Axial::default()), (fx(0f32), fx(0f32)));
    assert_eq!(h.xy_ref(&Axial::new(1, 1)), (fx(7f32), fx(15f32)));
    assert_eq!(h.xy_ref(&Axial::new(-2, 1)), (fx(-14f32), fx(0f32)));
}

#[test]
fn test_qr() {
    let h = Props::flat(fx(7f32), fx(10f32));
    assert_eq!(h.axial((fx(2f32), fx(2f32))), Axial::new(0, 0));
    assert_eq!(h.axial((fx(7f32), fx(15f32))), Axial::new(1, 1));
    assert_eq!(h.axial((fx(-13f32), fx(1f32))), Axial::new(-2, 1));
}

#[test]
fn test_pointy() {
    let h = Props::pointy(fx(8f32), fx(6f32));
    assert_eq!(h.horizontal_spacing(), fx(8f32));
    assert_eq!(h.vertical_spacing(), fx(6f32));
    // x = (q + r/2) * hs, y = r * vs
    assert_eq!(h.xy_ref(&Axial::new(1, 1)), (fx(12f32), fx(6f32)));
    assert_eq!(h.xy_ref(&Axial::new(0, -2)), (fx(-8f32), fx(-12f32)));
    // The inverse recovers centers and nearby pixels.
    assert_eq!(h.axial((fx(12f32), fx(6f32))), Axial::new(1, 1));
    assert_eq!(h.axial((fx(11f32), fx(5f32))), Axial::new(1, 1));
    assert_eq!(h.axial((fx(0f32), fx(0f32))), Axial::new(0, 0));
}

#[test]
fn test_spacings() {
    let h = Props::flat(fx(7f32), fx(10f32));
    assert_eq!(h.horizontal_spacing(), fx(7f32));
    assert_eq!(h.vertical_spacing(), fx(10f32));
}

#[test]
fn test_relative() {
    let h = Props::flat(fx(7f32), fx(10f32));
    // (8, 16) lies one pixel right of and one above the center of (1, 1).
    assert_eq!(h.xy_relative((fx(8f32), fx(16f32))), (fx(1f32), fx(1f32)));
    // A center is at offset zero from itself.
    assert_eq!(h.xy_relative((fx(7f32), fx(15f32))), (fx(0f32), fx(0f32)));
}

#[test]
fn test_flat_roundtrip() {
    let h = Props::flat(fx(7f32), fx(10f32));
    for q in -3..=3 {
        for r in -3..=3 {
            let a = Axial::new(q, r);
            let c = h.xy_ref(&a);
            assert_eq!(h.axial(c), a);
        }
    }
}
