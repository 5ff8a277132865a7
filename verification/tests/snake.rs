use snake_core::{Direction, Distance, Duration, Point, Snake, Speed, Speed2D};

fn units(x: i16, y: i16) -> Point {
    Point::new(Distance::from_units(x), Distance::from_units(y))
}

fn unit_speed() -> Speed2D {
    Speed2D::new(
        Speed::from_per_sec(Distance::from_units(1)),
        Speed::from_per_sec(Distance::from_units(1)),
    )
}

#[test]
fn snake_crosses_one_cell_in_one_and_a_half_seconds() {
    // one unit per second moving right from the origin
    let mut snake = Snake::new(units(0, 0), Direction::Right, unit_speed());
    assert_eq!(snake.len(), 1);

    snake.advance(Duration::from_millis(1500));

    // position.x is 1.5 units: it truncates to cell 1
    assert_eq!(snake.len(), 1);
    assert_eq!(snake.head(), units(1, 0));
    assert!(snake.contains(units(1, 0)));
    assert!(!snake.contains(units(0, 0)));
}

#[test]
fn snake_reversal_is_ignored() {
    let mut snake = Snake::new(units(0, 0), Direction::Right, unit_speed());

    snake.set_direction(Direction::Left);
    snake.advance(Duration::from_millis(1500));
    // still heading right: the reversal was dropped at set time
    assert_eq!(snake.head(), units(1, 0));

    snake.set_direction(Direction::Up);
    snake.advance(Duration::from_secs(1));
    assert_eq!(snake.head(), units(1, -1));
}

#[test]
fn snake_grows_per_cell_crossed() {
    let mut snake = Snake::new(units(0, 0), Direction::Right, unit_speed());

    // 3.25 units in one update: three cells crossed, length kept
    snake.advance(Duration::from_millis(3250));
    assert_eq!(snake.len(), 1);
    assert_eq!(snake.head(), units(3, 0));
}

#[test]
fn snake_grow_tail_restores_last_cell() {
    let mut snake = Snake::new(units(0, 0), Direction::Right, unit_speed());

    snake.advance(Duration::from_secs(1));
    assert_eq!(snake.head(), units(1, 0));

    // the tail just left the origin cell; eating puts it back
    snake.grow_tail();
    assert_eq!(snake.len(), 2);
    assert!(snake.contains(units(0, 0)));
    assert!(snake.contains(units(1, 0)));
}

#[test]
fn snake_sub_cell_updates_do_not_move_the_body() {
    let mut snake = Snake::new(units(0, 0), Direction::Right, unit_speed());

    snake.advance(Duration::from_millis(400));
    assert_eq!(snake.head(), units(0, 0));
    snake.advance(Duration::from_millis(400));
    assert_eq!(snake.head(), units(0, 0));
    snake.advance(Duration::from_millis(400));
    // 1.2 units in total: the cell boundary was crossed on the third update
    assert_eq!(snake.head(), units(1, 0));
    assert_eq!(snake.len(), 1);
}
