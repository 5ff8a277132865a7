use snake_core::{Distance, Duration, Path, PathFragment, Point, Speed, Speed2D};

fn per_sec(units: i16) -> Speed {
    Speed::from_per_sec(Distance::from_units(units))
}

#[test]
fn path_fragment_from_speed_and_distance() {
    // 3/4/5 right triangle
    let speed = Speed2D::new(per_sec(3), per_sec(4));
    let distance = Distance::from_units(5);

    let fragment = PathFragment::from_speed_and_distance(speed, distance);
    assert_eq!(fragment.duration(), Duration::from_secs(1));
    assert_eq!(
        fragment,
        PathFragment::from_speed_and_duration(speed, Duration::from_secs(1))
    );
}

#[test]
fn path_fragment_from_speed_and_duration() {
    let speed = Speed2D::new(per_sec(10), per_sec(8));
    let duration = Duration::new(3, 0);

    let fragment = PathFragment::from_speed_and_duration(speed, duration);
    assert_eq!(fragment.speed(), speed);
    assert_eq!(fragment.duration(), duration);
    assert_eq!(fragment.elapsed(), Duration::from_secs(0));
}

#[test]
fn path_fragment_from_duration_and_point() {
    let point = Point::new(Distance::from_units(15), Distance::from_units(9));
    let duration = Duration::new(3, 0);
    let speed = Speed2D::new(
        Speed::new(Distance::from_units(15), duration),
        Speed::new(Distance::from_units(9), duration),
    );

    let fragment = PathFragment::from_duration_and_point(duration, point);
    assert_eq!(fragment.speed(), speed);
    assert_eq!(fragment.duration(), duration);
    assert_eq!(
        fragment,
        PathFragment::from_speed_and_duration(speed, duration)
    );
}

#[test]
fn progress() {
    let speed = Speed2D::new(per_sec(10), per_sec(8));
    let duration = Duration::new(3, 0);
    let mut fragment = PathFragment::from_speed_and_duration(speed, duration);

    // Nothing at first when given nothing
    assert_eq!(
        fragment.progress(Duration::from_secs(0)),
        (Duration::from_secs(0), None)
    );
    // Progress by 1s
    assert_eq!(
        fragment.progress(Duration::from_secs(1)),
        (Duration::from_secs(1), None)
    );
    // Progress by 3s: until the end by 2s with 1s of extra
    assert_eq!(
        fragment.progress(Duration::from_secs(3)),
        (Duration::from_secs(2), Some(Duration::from_secs(1)))
    );
    // Make sure it is in the initial state regardless of the previous extra
    assert_eq!(fragment.progress(duration), (duration, None));
}

#[test]
fn progress_conserves_time() {
    let speed = Speed2D::new(per_sec(2), per_sec(1));
    let mut fragment = PathFragment::from_speed_and_duration(speed, Duration::from_millis(2500));

    for millis in [0u64, 1, 999, 1000, 1500, 4000] {
        let duration = Duration::from_millis(millis);
        let (elapsed, extra) = fragment.progress(duration);
        let extra_nanos = match extra {
            Some(e) => {
                assert!(e.as_nanos() > 0);
                e.as_nanos()
            }
            None => 0,
        };
        assert_eq!(elapsed.as_nanos() + extra_nanos, duration.as_nanos());
    }
}

#[test]
fn path_fragment_eq() {
    assert_eq!(
        PathFragment::from_speed_and_duration(
            Speed2D::new(per_sec(12), per_sec(6)),
            Duration::from_secs(1)
        ),
        PathFragment::from_speed_and_duration(
            Speed2D::new(per_sec(6), per_sec(3)),
            Duration::from_secs(2)
        ),
    );
}

fn square_legs() -> Vec<PathFragment> {
    let leg = Duration::from_secs(3);
    vec![
        PathFragment::from_duration_and_point(
            leg,
            Point::new(Distance::from_units(3), Distance::from_units(0)),
        ),
        PathFragment::from_duration_and_point(
            leg,
            Point::new(Distance::from_units(0), Distance::from_units(3)),
        ),
        PathFragment::from_duration_and_point(
            leg,
            Point::new(Distance::from_units(-3), Distance::from_units(0)),
        ),
        PathFragment::from_duration_and_point(
            leg,
            Point::new(Distance::from_units(0), Distance::from_units(-3)),
        ),
    ]
}

fn units(x: i16, y: i16) -> Point {
    Point::new(Distance::from_units(x), Distance::from_units(y))
}

#[test]
fn path_new() {
    let position = units(10, 10);
    let path = Path::new(position, square_legs());

    assert_eq!(path.position, position);
    assert_eq!(path.current(), Some(square_legs()[0]));
}

#[test]
fn path_move() {
    let position = units(10, 10);
    let mut path = Path::new(position, square_legs());

    path.advance(Duration::from_secs(1)); // 1s, going right by 1
    assert_eq!(path.position, units(11, 10));
    path.advance(Duration::from_secs(1)); // 2s, going right by 1
    assert_eq!(path.position, units(12, 10));
    path.advance(Duration::from_secs(1)); // 3s, going right by 1
    assert_eq!(path.position, units(13, 10));
    path.advance(Duration::from_secs(1)); // 4s, going down by 1
    assert_eq!(path.position, units(13, 11));
    path.advance(Duration::from_secs(3)); // 7s, going down by 2 then left by 1
    assert_eq!(path.position, units(12, 13));
    path.advance(Duration::from_secs(3)); // 10s, going left by 2 then up by 1
    assert_eq!(path.position, units(10, 12));
    path.advance(Duration::from_secs(1)); // 11s, going up by 1
    assert_eq!(path.position, units(10, 11));
    path.advance(Duration::from_secs(1)); // 12s, going up by 1
    assert_eq!(path.position, units(10, 10));
    path.advance(Duration::from_secs(1)); // 13s, done
    assert_eq!(path.position, units(10, 10));
}

#[test]
fn path_split_durations_agree() {
    // Advancing by one span or by any partition of it ends at the same
    // position, even at sub-milliunit rates.
    let legs = || {
        vec![
            PathFragment::from_speed_and_duration(
                Speed2D::new(per_sec(1), per_sec(3)),
                Duration::from_millis(2700),
            ),
            PathFragment::from_duration_and_point(
                Duration::from_millis(1300),
                Point::new(Distance::new(0, 333), Distance::new(-2, 0)),
            ),
        ]
    };

    let mut whole = Path::new(units(0, 0), legs());
    whole.advance(Duration::from_millis(3600));

    let mut split = Path::new(units(0, 0), legs());
    split.advance(Duration::from_millis(799));
    split.advance(Duration::from_millis(1));
    split.advance(Duration::from_millis(2000));
    split.advance(Duration::from_millis(800));

    assert_eq!(whole.position, split.position);

    let mut thirds = Path::new(units(0, 0), legs());
    thirds.advance(Duration::from_millis(1200));
    thirds.advance(Duration::from_millis(1200));
    thirds.advance(Duration::from_millis(1200));

    assert_eq!(whole.position, thirds.position);
}

#[test]
fn path_cyclic_repeats() {
    let mut path = Path::new_cyclic(units(2, 2), square_legs());
    for _ in 0..13 {
        path.advance(Duration::from_secs(1));
    }
    // one full 12s lap plus 1s into the second lap
    assert_eq!(path.position, units(3, 2));
}
