use hexgrid::axial::Axial;
use hexgrid::fixed::Fixed;
use hexgrid::pixelhex::PixelHex;

/// Exact fixed-point value of an f32 (all values used here convert exactly).
fn fx(v: f32) -> Fixed {
    Fixed::from_raw((v as f64 * 4294967296.0) as i64)
}

fn sample_tile() -> PixelHex {
    let v = vec![
        (fx(-1.0f32), (fx(0f32), fx(1f32))),
        (fx(0.0f32), (fx(-1f32), fx(2f32))),
        (fx(1.0f32), (fx(-1f32), fx(2f32))),
        (fx(2.0f32), (fx(0f32), fx(1f32))),
    ];
    PixelHex::flat(&v)
}

#[test]
fn test_null() {
    let v = Vec::new();
    let h = PixelHex::flat(&v);
    assert_eq!(h.horizontal_spacing(), fx(0f32));
    assert_eq!(h.vertical_spacing(), fx(0f32));
}

#[test]
fn test() {
    let h = sample_tile();
    assert_eq!(h.horizontal_spacing(), fx(3f32));
    assert_eq!(h.vertical_spacing(), fx(4f32));

    assert_eq!(h.xy_ref(&Axial::new(0, 0)), (fx(0f32), fx(0f32)));
    assert_eq!(h.xy_ref(&Axial::new(-1, 0)), (fx(-3f32), fx(-2f32)));
    assert_eq!(h.xy_ref(&Axial::new(0, -1)), (fx(0f32), fx(-4f32)));
    assert_eq!(h.xy_ref(&Axial::new(1, -1)), (fx(3f32), fx(-2f32)));
    assert_eq!(h.xy_ref(&Axial::new(1, 0)), (fx(3f32), fx(2f32)));
    assert_eq!(h.xy_ref(&Axial::new(0, 1)), (fx(0f32), fx(4f32)));
    assert_eq!(h.xy_ref(&Axial::new(-1, 1)), (fx(-3f32), fx(2f32)));

    assert_eq!(h.axial((fx(0f32), fx(0f32))), Axial::new(0, 0));

    assert_eq!(h.axial((fx(0f32), fx(-1f32))), Axial::new(0, 0));
    assert_eq!(h.axial((fx(1f32), fx(-1f32))), Axial::new(0, 0));

    assert_eq!(h.axial((fx(2f32), fx(0f32))), Axial::new(0, 0));
    assert_eq!(h.axial((fx(2f32), fx(1f32))), Axial::new(0, 0));

    assert_eq!(h.axial((fx(1f32), fx(2f32))), Axial::new(0, 0));
    assert_eq!(h.axial((fx(0f32), fx(2f32))), Axial::new(0, 0));

    assert_eq!(h.axial((fx(-1f32), fx(1f32))), Axial::new(0, 0));
    assert_eq!(h.axial((fx(-1f32), fx(0f32))), Axial::new(0, 0));

    assert_eq!(h.axial((fx(-2f32), fx(0f32))), Axial::new(-1, 0));
    assert_eq!(h.axial((fx(-1f32), fx(-1f32))), Axial::new(-1, 0));

    assert_eq!(h.axial((fx(0f32), fx(-2f32))), Axial::new(0, -1));
    assert_eq!(h.axial((fx(1f32), fx(-2f32))), Axial::new(0, -1));

    assert_eq!(h.axial((fx(2f32), fx(-1f32))), Axial::new(1, -1));
    assert_eq!(h.axial((fx(3f32), fx(0f32))), Axial::new(1, -1));

    assert_eq!(h.axial((fx(3f32), fx(1f32))), Axial::new(1, 0));
    assert_eq!(h.axial((fx(2f32), fx(2f32))), Axial::new(1, 0));

    assert_eq!(h.axial((fx(1f32), fx(3f32))), Axial::new(0, 1));
    assert_eq!(h.axial((fx(0f32), fx(3f32))), Axial::new(0, 1));

    assert_eq!(h.axial((fx(-1f32), fx(2f32))), Axial::new(-1, 1));
    assert_eq!(h.axial((fx(-2f32), fx(1f32))), Axial::new(-1, 1));
}

#[test]
fn test_checked_in_range() {
    let h = sample_tile();
    assert_eq!(h.axial_checked((fx(1f32), fx(2f32))), Some(Axial::new(0, 0)));
    assert_eq!(h.axial_checked((fx(-2f32), fx(0f32))), Some(Axial::new(-1, 0)));
}

#[test]
fn test_checked_out_of_range() {
    // Rows 0 and 5 only: the vertical span says six rows but the table
    // stores two, so pixels on the missing rows fall outside the table.
    let v = vec![(fx(0.0f32), (fx(-1f32), fx(1f32))), (fx(5.0f32), (fx(-1f32), fx(1f32)))];
    let h = PixelHex::flat(&v);
    assert_eq!(h.horizontal_spacing(), fx(3f32));
    assert_eq!(h.vertical_spacing(), fx(6f32));
    assert_eq!(h.axial_checked((fx(0f32), fx(0f32))), Some(Axial::new(0, 0)));
    assert!(h.axial_checked((fx(0f32), fx(4f32))).is_none());
}

#[test]
fn test_extents_one_sided() {
    // Rows that do not straddle zero: the extents are the true minimum and
    // maximum over the samples.
    let v = vec![(fx(1.0f32), (fx(0f32), fx(2f32)))];
    let h = PixelHex::flat(&v);
    assert_eq!(h.vert_extends, (fx(1f32), fx(1f32)));
    assert_eq!(h.vertical_spacing(), fx(1f32));
    assert_eq!(h.horizontal_spacing(), fx(3f32));
}

#[test]
fn test_checked_below_table() {
    let v = vec![(fx(10.0f32), (fx(-1f32), fx(1f32))), (fx(11.0f32), (fx(-1f32), fx(1f32)))];
    let h = PixelHex::flat(&v);
    assert_eq!(h.vert_extends, (fx(10f32), fx(11f32)));
    assert_eq!(h.vertical_spacing(), fx(2f32));
    // The corrected row offset of this pixel lies whole rows below the
    // smallest stored row: out of the configured range.
    assert!(h.axial_checked((fx(0f32), fx(0f32))).is_none());
}

#[test]
fn test_pixel_relative() {
    let h = sample_tile();
    // One pixel right of and one below the center of tile (1, 0).
    assert_eq!(h.xy_relative((fx(4f32), fx(1f32))), (fx(1f32), fx(-1f32)));
    assert_eq!(h.xy_relative((fx(0f32), fx(0f32))), (fx(0f32), fx(0f32)));
}
