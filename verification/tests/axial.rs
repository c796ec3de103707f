use hexgrid::axial::Axial;
use hexgrid::circle::HexCircle;
use hexgrid::fixed::Fixed;

/// Exact fixed-point value of an f32 (all values used here convert exactly).
fn fx(v: f32) -> Fixed {
    Fixed::from_raw((v as f64 * 4294967296.0) as i64)
}

#[test]
fn test_s() {
    let a = Axial::new(1, 2);
    assert_eq!(a.s(), -3);
}

#[test]
fn test_from() {
    let a = Axial::from((5, -4));
    assert_eq!((a.q, a.r), (5, -4));

    let a: Axial = Axial::from_frac(fx(5.4f32), fx(3.2f32));
    assert_eq!((a.q, a.r), (6, 3));

    let a: Axial = Axial::from_frac(fx(2.3f32), fx(-13.6f32));
    assert_eq!((a.q, a.r), (2, -13));
}

#[test]
fn test_ops() {
    let a = Axial::default();
    let b: Axial = Axial::new(1, 2);
    assert_eq!(a + b, Axial::new(1, 2));
    assert_eq!(a - b, Axial::new(-1, -2));
    assert_eq!(b * 2, Axial::new(2, 4));
    assert_eq!(b.mul_frac(fx(-0.5f32)), (fx(-0.5f32), fx(-1.0f32)));
}

#[test]
fn test_math() {
    let a = Axial::new(-1, 3);
    assert_eq!(a.length(), 3);
    assert_eq!(Axial::default().length(), 0);
    assert_eq!(a.distance_to(Axial::default()), 3);
    let b = Axial::new(2, -2);
    assert_eq!(b.distance_to(a), 5);
    assert_eq!(a.distance_to(b), 5);
    let c = Axial::new(4, 6);
    assert_eq!(c.distance_to(a), 8);
    assert_eq!(a.lerp(c, fx(0.5f32)), (fx(1.5f32), fx(4.5f32)));
    assert_eq!(Axial::point_on_line(a, c, fx(4f32)), Axial::from_frac(fx(1.5f32), fx(4.5f32)));
}

#[test]
fn test_circle() {
    let mut ai = HexCircle::new(0);
    assert_eq!(ai.next(), Some(Axial::default()));
    assert!(ai.next().is_none());
    let mut ai = HexCircle::new(2);
    assert_eq!(ai.next(), Some(Axial::new(0, 2)));
    assert_eq!(ai.next(), Some(Axial::new(-1, 2)));
    assert_eq!(ai.next(), Some(Axial::new(-2, 2)));
    assert_eq!(ai.next(), Some(Axial::new(-2, 1)));
    assert_eq!(ai.next(), Some(Axial::new(-2, 0)));
    assert_eq!(ai.next(), Some(Axial::new(-1, -1)));
    assert_eq!(ai.next(), Some(Axial::new(0, -2)));
    assert_eq!(ai.next(), Some(Axial::new(1, -2)));
    assert_eq!(ai.next(), Some(Axial::new(2, -2)));
    assert_eq!(ai.next(), Some(Axial::new(2, -1)));
    assert_eq!(ai.next(), Some(Axial::new(2, 0)));
    assert_eq!(ai.next(), Some(Axial::new(1, 1)));
    assert!(ai.next().is_none());
    let mut ai = Axial::new(1, -1).circle(2);
    assert_eq!(ai.next(), Some(Axial::new(1, 1)));
    assert_eq!(ai.next(), Some(Axial::new(0, 1)));
    assert_eq!(ai.next(), Some(Axial::new(-1, 1)));
    assert_eq!(ai.next(), Some(Axial::new(-1, 0)));
    assert_eq!(ai.next(), Some(Axial::new(-1, -1)));
    assert_eq!(ai.next(), Some(Axial::new(0, -2)));
    assert_eq!(ai.next(), Some(Axial::new(1, -3)));
    assert_eq!(ai.next(), Some(Axial::new(2, -3)));
    assert_eq!(ai.next(), Some(Axial::new(3, -3)));
    assert_eq!(ai.next(), Some(Axial::new(3, -2)));
    assert_eq!(ai.next(), Some(Axial::new(3, -1)));
    assert_eq!(ai.next(), Some(Axial::new(2, 0)));
    assert!(ai.next().is_none());
}

#[test]
fn test_add_opposite() {
    let a = Axial::new(17, -40);
    let b = Axial::new(-17, 40);
    assert_eq!(a + b, Axial::new(0, 0));
    assert_eq!(a.s(), 23);
}

#[test]
fn test_distance_laws() {
    let a = Axial::new(3, -7);
    let b = Axial::new(-4, 11);
    let c = Axial::new(9, 2);
    assert_eq!(a.distance_to(a), 0);
    assert_eq!(a.distance_to(b), b.distance_to(a));
    assert!(a.distance_to(c) <= a.distance_to(b) + b.distance_to(c));
}

#[test]
fn test_round_idempotent() {
    for &(q, r) in &[(0, 0), (1, 2), (-5, 9), (123, -456), (-1000000, 999999)] {
        let a = Axial::new(q, r);
        let (qf, rf) = a.to_fracs();
        assert_eq!(Axial::from_frac(qf, rf), a);
    }
}

#[test]
fn test_ring_cardinality() {
    // Radius zero: exactly the center, once.
    let center = Axial::new(2, -5);
    let mut it = center.circle(0);
    assert_eq!(it.next(), Some(center));
    assert!(it.next().is_none());
    // Radius three: exactly 18 distinct points, each at distance three.
    let mut it = center.circle(3);
    let mut seen: Vec<Axial> = Vec::new();
    while let Some(p) = it.next() {
        assert_eq!(p.distance_to(center), 3);
        assert!(!seen.contains(&p));
        seen.push(p);
    }
    assert_eq!(seen.len(), 18);
}

#[test]
fn test_neighbours() {
    let mut it = Axial::new(0, 0).neighbours();
    let mut count = 0;
    while let Some(p) = it.next() {
        assert_eq!(p.distance_to(Axial::new(0, 0)), 1);
        count += 1;
    }
    assert_eq!(count, 6);
}

#[test]
fn test_round_ties() {
    // Exact half-way coordinates exercise the tie-break order: the q check
    // comes first, then the r check, else both components are kept.
    assert_eq!(Axial::from_frac(fx(1.5f32), fx(4.5f32)).to_tuple(), (2, 4));
    assert_eq!(Axial::from_frac(fx(0.5f32), fx(0.5f32)).to_tuple(), (1, 0));
    assert_eq!(Axial::from_frac(fx(-0.5f32), fx(-0.5f32)).to_tuple(), (-1, 0));
    assert_eq!(Axial::from_frac(fx(2.5f32), fx(0.0f32)).to_tuple(), (3, 0));
    assert_eq!(Axial::from_frac(fx(0.0f32), fx(2.5f32)).to_tuple(), (0, 3));
}
