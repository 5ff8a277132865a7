use snake_core::Direction;

#[test]
fn opposite() {
    assert_eq!(Direction::Up.opposite(), Direction::Down);
    assert_eq!(Direction::Down.opposite(), Direction::Up);
    assert_eq!(Direction::Left.opposite(), Direction::Right);
    assert_eq!(Direction::Right.opposite(), Direction::Left);
}

#[test]
fn is_horizontal() {
    assert_eq!(Direction::Up.is_horizontal(), false);
    assert_eq!(Direction::Down.is_horizontal(), false);
    assert_eq!(Direction::Left.is_horizontal(), true);
    assert_eq!(Direction::Right.is_horizontal(), true);
}

#[test]
fn direction_neg() {
    assert_eq!(Direction::Up.opposite(), Direction::Down);
    assert_eq!(Direction::Down.opposite(), Direction::Up);
    assert_eq!(Direction::Left.opposite(), Direction::Right);
    assert_eq!(Direction::Right.opposite(), Direction::Left);
}

#[test]
fn opposite_twice_is_identity() {
    for d in [Direction::Up, Direction::Down, Direction::Left, Direction::Right] {
        assert_eq!(d.opposite().opposite(), d);
        assert_eq!(d.opposite().is_horizontal(), d.is_horizontal());
    }
}
