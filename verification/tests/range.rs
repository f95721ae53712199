use raymath::Interval;
use raymath::RangeExtension;

#[test]
fn clamp_restricts_to_the_interval() {
    let i = Interval { start: 0, end: 10 };
    assert_eq!(i.clamp(15), 10);
    assert_eq!(i.clamp(-3), 0);
    assert_eq!(i.clamp(7), 7);
    assert_eq!(i.clamp(0), 0);
    assert_eq!(i.clamp(10), 10);
}

#[test]
fn clamp_stays_within_bounds_for_many_values() {
    let i = Interval { start: -5, end: 9 };
    let mut v: i64 = -100;
    while v <= 100 {
        let c: i64 = i.clamp(v);
        assert!(i.start <= c && c <= i.end);
        v += 1;
    }
}

#[test]
fn clamp_on_a_malformed_interval_follows_the_arithmetic() {
    // min(max(v, start), end) with start > end collapses to end.
    let i = Interval { start: 10, end: 0 };
    assert_eq!(i.clamp(5), 0);
}

#[test]
fn surrounds_is_strict_on_both_sides() {
    let i = Interval { start: 0, end: 10 };
    assert!(!i.surrounds(0));
    assert!(!i.surrounds(10));
    assert!(i.surrounds(1));
    assert!(i.surrounds(9));
    assert!(!i.surrounds(-1));
    assert!(!i.surrounds(11));
}

#[test]
fn expand_splits_the_growth_evenly() {
    let i = Interval { start: 0, end: 10 };
    let e = i.expand(4);
    assert_eq!(e, Interval { start: -2, end: 12 });
    let shrunk = i.expand(-4);
    assert_eq!(shrunk, Interval { start: 2, end: 8 });
}

#[test]
fn size_is_the_signed_width() {
    assert_eq!(Interval { start: 3, end: 11 }.size(), 8);
    assert_eq!(Interval { start: 11, end: 3 }.size(), -8);
    assert_eq!(Interval { start: 5, end: 5 }.size(), 0);
}
