use snake_core::{Coord2D, Direction, Distance, Duration, Point, Speed, Speed2D};

#[test]
fn coord_2d_new() {
    let c = Coord2D::new(1, 4);
    assert_eq!(c.x, 1);
    assert_eq!(c.y, 4);
}

#[test]
fn speed2d_new() {
    let horizontal = Speed::from_per_sec(Distance::from_units(1));
    let vertical = Speed::from_per_sec(Distance::from_units(2));
    let s = Speed2D::new(horizontal, vertical);

    assert_eq!(s.x, horizontal);
    assert_eq!(s.y, vertical);
}

#[test]
fn speed2d_mul_duration() {
    let horizontal = Speed::from_per_sec(Distance::from_units(5));
    let vertical = Speed::from_per_sec(Distance::from_units(3));
    let duration = Duration::from_secs(2);

    assert_eq!(
        Speed2D::new(horizontal, vertical).mul_duration(duration),
        Point::new(Distance::from_units(10), Distance::from_units(6))
    );
}

#[test]
fn speed_2d_from_per_sec() {
    assert_eq!(
        Speed2D::from_per_sec(Point::new(Distance::new(2, 900), Distance::new(3, 800))),
        Speed2D::new(
            Speed::new(Distance::new(2, 900), Duration::from_secs(1)),
            Speed::new(Distance::new(3, 800), Duration::from_secs(1)),
        )
    );
}

#[test]
fn speed_2d_as_per_sec() {
    assert_eq!(
        Speed2D::new(
            Speed::new(Distance::from_units(3), Duration::from_secs(3)),
            Speed::new(Distance::from_units(9), Duration::from_secs(3)),
        )
        .as_per_sec(),
        Point::new(Distance::from_units(1), Distance::from_units(3))
    );
}

#[test]
fn length() {
    assert_eq!(
        Point::new(Distance::from_units(3), Distance::from_units(4)).length(),
        Distance::from_units(5)
    );
}

#[test]
fn length_rounds_down() {
    // sqrt(2) in milliunits: 1000 * sqrt(2) = 1414.21...
    assert_eq!(
        Point::new(Distance::from_units(1), Distance::from_units(1)).length(),
        Distance::new(1, 414)
    );
}

#[test]
fn from_direction() {
    let from = Point::from_direction;

    assert_eq!(from(Direction::Up), Point::new(Distance::from_units(0), Distance::from_units(-1)));
    assert_eq!(from(Direction::Down), Point::new(Distance::from_units(0), Distance::from_units(1)));
    assert_eq!(from(Direction::Left), Point::new(Distance::from_units(-1), Distance::from_units(0)));
    assert_eq!(from(Direction::Right), Point::new(Distance::from_units(1), Distance::from_units(0)));
}

#[test]
fn point_round_trunc() {
    let p = Point::new(Distance::new(1, 500), Distance::new(-1, 400));
    assert_eq!(p.round(), Point::new(Distance::from_units(2), Distance::from_units(-1)));
    assert_eq!(p.trunc(), Point::new(Distance::from_units(1), Distance::from_units(0)));
}

#[test]
fn speed_2d_from_direction() {
    let unit = Speed2D::from_direction(Direction::Right);
    assert_eq!(unit.x, Speed::from_per_sec(Distance::from_units(1)));
    assert_eq!(unit.y, Speed::from_per_sec(Distance::from_units(0)));

    let up = Speed2D::from_direction(Direction::Up);
    assert_eq!(up.x, Speed::from_per_sec(Distance::from_units(0)));
    assert_eq!(up.y, Speed::from_per_sec(Distance::from_units(-1)));
}
