use snake_core::{Distance, Duration, Speed};

#[test]
fn speed_new() {
    let s = Speed::new(Distance::new(1, 200), Duration::new(2, 321));
    assert_eq!(s.distance(), Distance::new(1, 200));
    assert_eq!(s.duration(), Duration::new(2, 321));
}

#[test]
fn from_units_per_sec() {
    assert_eq!(
        Speed::from_units_per_sec(14),
        Speed::new(Distance::new(14, 0), Duration::new(1, 0))
    );
}

#[test]
fn speed_from_per_sec() {
    assert_eq!(
        Speed::from_per_sec(Distance::from_units(14)),
        Speed::new(Distance::from_units(14), Duration::new(1, 0))
    );
}

#[test]
fn speed_as_per_sec() {
    assert_eq!(
        Speed::new(Distance::new(9, 200), Duration::new(2, 0)).as_per_sec(),
        Distance::new(4, 600)
    );
}

#[test]
fn speed_eq() {
    assert_eq!(
        Speed::new(Distance::new(1, 0), Duration::new(1, 0)),
        Speed::new(Distance::new(60, 0), Duration::new(60, 0)),
    );
}

#[test]
fn speed_cmp() {
    assert_eq!(
        Speed::new(Distance::new(1, 0), Duration::new(1, 0))
            > Speed::new(Distance::new(2, 0), Duration::new(60, 0)),
        true
    );
}

#[test]
fn speed_neg() {
    assert_eq!(
        Speed::new(Distance::new(7, 2), Duration::from_millis(15)).neg(),
        Speed::new(Distance::new(-7, 2), Duration::from_millis(15)),
    );
}

#[test]
fn speed_mul_duration() {
    assert_eq!(
        Speed::new(Distance::new(2, 253), Duration::from_millis(500))
            .mul_duration(Duration::from_secs(1)),
        Distance::new(4, 506)
    );
}

#[test]
fn mul_duration_exact_for_simple_fractions() {
    let s = Speed::new(Distance::new(3, 0), Duration::from_secs(3));
    assert_eq!(s.mul_duration(Duration::from_secs(1)), Distance::new(1, 0));
    assert_eq!(s.mul_duration(Duration::from_millis(1500)), Distance::new(1, 500));
    assert_eq!(s.mul_duration(Duration::from_secs(6)), Distance::new(6, 0));
}
