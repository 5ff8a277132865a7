use snake_core::grid_snake;
use snake_core::screen::{millis_to_frames, FPS};
use snake_core::welcome;
use snake_core::{
    Direction, Distance, Duration, FrameStepper, Key, Menu, Point, Position, Welcome, World,
};

fn units(x: i16, y: i16) -> Point {
    Point::new(Distance::from_units(x), Distance::from_units(y))
}

#[test]
fn world_moves_snake_and_food() {
    let mut world = World::new(units(80, 24), Duration::from_secs(1));

    world.update();

    // snake: ten units per second heading right from the origin
    assert_eq!(world.snake().head(), units(10, 0));
    assert_eq!(world.snake().len(), 1);
    // food: anchored at (2, 2), one second into the first square leg
    assert_eq!(world.food().position(), units(3, 2));

    world.handle(Key::Down);
    world.update();
    assert_eq!(world.snake().head(), units(10, 10));
    assert_eq!(world.food().position(), units(4, 2));
}

#[test]
fn world_ignores_reversal_keys() {
    let mut world = World::new(units(80, 24), Duration::from_millis(100));
    world.handle(Key::Left);
    world.update();
    // still heading right
    assert_eq!(world.snake().head(), units(1, 0));
}

#[test]
fn grid_snake_paces_steps_by_frames() {
    let mut snake = grid_snake::Snake::new(Position::new(4, 4), Direction::Right, (2, 3));

    // frame counter at zero: the first update fires at once
    assert_eq!(snake.update(), Some(Position::new(5, 4)));
    assert_eq!(snake.update(), None);
    assert_eq!(snake.update(), Some(Position::new(5, 4)));

    snake.step();
    assert_eq!(snake.head(), Position::new(5, 4));

    snake.set_direction(Direction::Left);
    // reversal ignored
    snake.step();
    assert_eq!(snake.head(), Position::new(6, 4));

    snake.grow();
    assert_eq!(snake.head(), Position::new(7, 4));
}

#[test]
fn frame_stepper_fires_on_wait_starts() {
    let mut stepper = FrameStepper::new(1);
    assert!(stepper.step());
    for _ in 0..(FPS - 1) {
        assert!(!stepper.step());
    }
}

#[test]
fn millis_to_frames_scales_by_fps() {
    assert_eq!(millis_to_frames(1000, 60), 60);
    assert_eq!(millis_to_frames(200, 100), 20);
    assert_eq!(millis_to_frames(16, 60), 0);
}

#[test]
fn welcome_slides_then_blinks() {
    let mut w = Welcome::new(80, 24);
    assert_eq!(w.state(), welcome::State::SlidingWelcome(0));
    assert!(!w.is_snake_blinking());

    let limit = 80 - w.welcome_x() + 2;
    for _ in 0..limit {
        w.next_state();
    }
    assert!(w.is_snake_blinking());
    w.next_state();
    assert_eq!(w.state(), welcome::State::BlinkingSnake(1));
}

#[test]
fn welcome_size_is_the_banner_box() {
    assert_eq!(Welcome::size(), (52, 19));
}

#[test]
fn menu_selection_wraps() {
    let mut menu = Menu::new(80, 24);
    assert_eq!(menu.selected(), 0);

    menu.prev();
    assert_eq!(menu.selected(), 3);
    menu.next();
    assert_eq!(menu.selected(), 0);
    menu.next();
    assert_eq!(menu.selected(), 1);
}

#[test]
fn menu_anim_converges() {
    let menu = Menu::new(80, 24);
    let mut y = menu.snake_y() + 5;
    for _ in 0..5 {
        menu.next_anim_state(&mut y);
    }
    assert_eq!(y, menu.snake_y());
    menu.next_anim_state(&mut y);
    assert_eq!(y, menu.snake_y());
}
