use snake_core::Direction;
use snake_core::grid::{Location, Point};
use snake_core::{Inside, Position};

#[test]
fn is_inside() {
    let top_left_corner = Point::new(0, 0);
    let bottom_right_corner = Point::new(10, 10);

    let inside = Point::new(5, 5);
    let top = Point::new(-1, 5);
    let bottom = Point::new(20, 5);
    let left = Point::new(5, -1);
    let right = Point::new(5, 20);
    let top_left = Point::new(-1, -1);
    let top_right = Point::new(-1, 20);
    let bottom_left = Point::new(20, -1);
    let bottom_right = Point::new(20, 20);

    for (point, location) in &[
        (top, Location::Top),
        (bottom, Location::Bottom),
        (left, Location::Left),
        (right, Location::Right),
        (top_left, Location::TopLeft),
        (top_right, Location::TopRight),
        (bottom_left, Location::BottomLeft),
        (bottom_right, Location::BottomRight),
    ] {
        assert_eq!(
            point.is_inside(top_left_corner, bottom_right_corner),
            Err(*location)
        );
    }

    assert_eq!(
        inside.is_inside(top_left_corner, bottom_right_corner),
        Ok(())
    );
}

#[test]
fn point_from_direction() {
    assert_eq!(Point::from_direction(Direction::Up), Point::new(0, -1));
    assert_eq!(Point::from_direction(Direction::Down), Point::new(0, 1));
    assert_eq!(Point::from_direction(Direction::Left), Point::new(-1, 0));
    assert_eq!(Point::from_direction(Direction::Right), Point::new(1, 0));
}

#[test]
fn point_add() {
    assert_eq!(Point::new(1, 2).add(Point::new(3, 4)), Point::new(4, 6));
    assert_eq!(
        Point::new(9, 8).add(Point::from_direction(Direction::Left)),
        Point::new(8, 8)
    );
}

#[test]
fn position_is_inside() {
    let top_left = Position::new(0, 0);
    let bottom_right = Position::new(10, 20);

    assert_eq!(Position::new(5, 5).is_inside(top_left, bottom_right), Inside::Inside);
    assert_eq!(Position::new(-1, 5).is_inside(top_left, bottom_right), Inside::Top);
    assert_eq!(Position::new(11, 5).is_inside(top_left, bottom_right), Inside::Bottom);
    assert_eq!(Position::new(5, -1).is_inside(top_left, bottom_right), Inside::Left);
    assert_eq!(Position::new(5, 21).is_inside(top_left, bottom_right), Inside::Right);
}

#[test]
fn position_step() {
    let p = Position::new(3, 4);
    assert_eq!(p.step(Direction::Up), Position::new(3, 3));
    assert_eq!(p.step(Direction::Down), Position::new(3, 5));
    assert_eq!(p.step(Direction::Left), Position::new(2, 4));
    assert_eq!(p.step(Direction::Right), Position::new(4, 4));
}
