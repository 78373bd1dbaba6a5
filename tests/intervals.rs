use pathtracer::interval::Interval;

#[test]
fn merge_with_empty_is_identity() {
    let empty = Interval::new(f64::INFINITY, f64::NEG_INFINITY);
    for (lo, hi) in [(0.0, 1.0), (-3.5, 2.25), (5.0, 5.0), (2.0, -2.0), (f64::NEG_INFINITY, 0.0)] {
        let a = Interval::new(lo, hi);
        let m = a.merge(empty);
        assert_eq!((m.min, m.max), (lo, hi));
    }
    let int_empty = Interval::new(i64::MAX, i64::MIN);
    let m = Interval::new(-7i64, 12).merge(int_empty);
    assert_eq!((m.min, m.max), (-7, 12));
}

#[test]
fn merge_takes_outer_bounds() {
    let m = Interval::new(1i64, 4).merge(Interval::new(-2, 3));
    assert_eq!((m.min, m.max), (-2, 4));
    let n = Interval::new(0.5f64, 0.75).merge(Interval::new(0.6, 2.0));
    assert_eq!((n.min, n.max), (0.5, 2.0));
}

#[test]
fn contains_is_closed_and_surrounds_is_open() {
    let i = Interval::new(0i64, 10);
    assert!(i.contains(0) && i.contains(10) && i.contains(5));
    assert!(!i.contains(-1) && !i.contains(11));
    assert!(!i.surrounds(0) && !i.surrounds(10) && i.surrounds(5));
    let empty = Interval::new(f64::INFINITY, f64::NEG_INFINITY);
    assert!(!empty.contains(0.0) && !empty.surrounds(0.0));
}

#[test]
fn clamp_saturates() {
    let i = Interval::new(0.0f64, 0.999);
    assert_eq!(i.clamp(-0.5), 0.0);
    assert_eq!(i.clamp(0.25), 0.25);
    assert_eq!(i.clamp(1.0), 0.999);
    let j = Interval::new(-3i64, 3);
    assert_eq!((j.clamp(-9), j.clamp(2), j.clamp(9)), (-3, 2, 3));
}

#[test]
fn size_is_max_minus_min() {
    assert_eq!(Interval::new(-2i64, 5).size(), 7);
    assert_eq!(Interval::new(1.5f64, 1.5).size(), 0.0);
    assert_eq!(Interval::new(f64::INFINITY, f64::NEG_INFINITY).size(), f64::NEG_INFINITY);
}
