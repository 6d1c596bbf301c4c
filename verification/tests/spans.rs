use range_guess::span::Span;

#[test]
fn contains_endpoints() {
    let s = Span { min: 3, max: 7 };
    assert!(s.contains(3));
    assert!(s.contains(7));
    assert!(!s.contains(2));
    assert!(!s.contains(8));
}

#[test]
fn contains_degenerate_span() {
    let s = Span { min: 5, max: 5 };
    assert!(s.contains(5));
    assert!(!s.contains(4));
    assert!(!s.contains(6));
}

#[test]
fn contains_negative_bounds() {
    let s = Span { min: -10, max: -1 };
    assert!(s.contains(-10));
    assert!(s.contains(-1));
    assert!(!s.contains(0));
    assert!(!s.contains(-11));
}

#[test]
fn range_counts_steps() {
    let s = Span { min: 1, max: 50 };
    assert_eq!(s.range(), 49);
    let t = Span { min: -3, max: 3 };
    assert_eq!(t.range(), 6);
    let u = Span { min: 9, max: 9 };
    assert_eq!(u.range(), 0);
}

#[test]
fn narrow_below_moves_only_min() {
    let mut s = Span { min: 1, max: 50 };
    s.narrow_below(25);
    assert_eq!(s.min, 26);
    assert_eq!(s.max, 50);
}

#[test]
fn narrow_above_moves_only_max() {
    let mut s = Span { min: 1, max: 50 };
    s.narrow_above(30);
    assert_eq!(s.min, 1);
    assert_eq!(s.max, 29);
}

#[test]
fn narrowing_shrinks_monotonically() {
    let mut s = Span { min: 1, max: 50 };
    s.narrow_below(10);
    s.narrow_above(40);
    s.narrow_below(20);
    s.narrow_above(30);
    assert_eq!(s.min, 21);
    assert_eq!(s.max, 29);
}
