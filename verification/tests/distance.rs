use snake_core::Distance;

#[test]
fn distance_new() {
    let d = Distance::new(12, 99);
    assert_eq!(d.as_units(), 12);
    assert_eq!(d.as_millis_part(), 99);
}

#[test]
fn from_units() {
    assert_eq!(Distance::from_units(3), Distance::new(3, 0));
}

#[test]
fn as_units() {
    assert_eq!(Distance::new(1, 289).as_units(), 1);
}

#[test]
fn distance_add() {
    assert_eq!(
        Distance::new(5, 33).add(Distance::new(1, 290)),
        Distance::new(6, 323)
    );
}

#[test]
fn add_carries_into_units() {
    let r = Distance::new(0, 600).add(Distance::new(0, 700));
    assert_eq!(r, Distance::new(1, 300));
    assert!(r.as_millis_part() < 1000);
}

fn as_float(d: Distance) -> f64 {
    f64::from(d.as_units()) + f64::from(d.as_millis_part()) / 1000.0
}

#[test]
fn add_matches_floating_sum() {
    let cases = [
        (Distance::new(5, 33), Distance::new(1, 290)),
        (Distance::new(0, 999), Distance::new(0, 1)),
        (Distance::new(-3, 500), Distance::new(2, 750)),
        (Distance::new(120, 0), Distance::new(-120, 0)),
    ];
    for (a, b) in cases {
        let sum = a.add(b);
        assert!(sum.as_millis_part() < 1000);
        assert!((as_float(sum) - (as_float(a) + as_float(b))).abs() < 1e-9);
    }
}

#[test]
fn sub_borrows_from_units() {
    assert_eq!(
        Distance::new(6, 323).sub(Distance::new(1, 290)),
        Distance::new(5, 33)
    );
    assert_eq!(
        Distance::new(5, 100).sub(Distance::new(0, 200)),
        Distance::new(4, 900)
    );
}

#[test]
fn round_and_trunc() {
    assert_eq!(Distance::new(1, 500).round(), 2);
    assert_eq!(Distance::new(1, 499).round(), 1);
    assert_eq!(Distance::new(1, 500).trunc(), 1);
    assert_eq!(Distance::new(-1, 400).round(), -1);
    assert_eq!(Distance::new(-1, 600).round(), 0);
    assert_eq!(Distance::new(-1, 400).trunc(), 0);
}
