use node_stats::cells::{Counter, Gauge};
use node_stats::fixed::Fixed;

/// The fixed-point value closest to the given binary-fraction float.
fn fx(x: f64) -> Fixed {
    Fixed::from_units((x * 4294967296.0) as i64)
}

/// The float the given fixed-point value represents.
fn as_f64(v: Fixed) -> f64 {
    (v.units as f64) / 4294967296.0
}

#[test]
fn counter_starts_at_zero() {
    let c = Counter::new();
    assert_eq!(c.value, 0);
}

#[test]
fn counter_accumulates() {
    let mut c = Counter::new();
    c.increment(5);
    c.increment(7);
    assert_eq!(c.value, 12);
}

#[test]
fn counter_wraps_on_overflow() {
    let mut c = Counter::new();
    c.increment(u64::MAX);
    c.increment(2);
    assert_eq!(c.value, 1);
}

#[test]
fn fixed_from_int_is_exact() {
    assert_eq!(Fixed::from_int(3).units, 3 << 32);
    assert_eq!(Fixed::from_int(-2).units, -(2i64 << 32));
    assert_eq!(Fixed::from_int(0).units, 0);
}

#[test]
fn fixed_round_trips_binary_fractions() {
    assert_eq!(as_f64(fx(5.5)), 5.5);
    assert_eq!(as_f64(fx(0.25)), 0.25);
    assert_eq!(as_f64(fx(-1.75)), -1.75);
}

#[test]
fn gauge_starts_at_zero() {
    let g = Gauge::new();
    assert_eq!(g.value.units, 0);
}

#[test]
fn gauge_set_then_move_preserves_fractions() {
    let mut g = Gauge::new();
    g.set(fx(1.5));
    g.increase(fx(0.25));
    assert_eq!(as_f64(g.value), 1.75);
    g.decrease(fx(0.5));
    assert_eq!(as_f64(g.value), 1.25);
}

#[test]
fn gauge_units_wrap_on_overflow() {
    let mut g = Gauge::new();
    g.set(Fixed::from_units(i64::MAX));
    g.increase(Fixed::from_units(1));
    assert_eq!(g.value.units, i64::MIN);
    g.decrease(Fixed::from_units(1));
    assert_eq!(g.value.units, i64::MAX);
}
