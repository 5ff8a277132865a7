//! The welcome screen's animation state and layout.

use vstd::prelude::*;
use crate::screen::{CONTINUE_HEIGHT, CONTINUE_WIDTH, SNAKE_HEIGHT, SNAKE_WIDTH, WELCOME_HEIGHT, WELCOME_WIDTH};

verus! {

/// The two phases of the welcome animation: the banner sliding in from the
/// right, then the snake banner blinking.
#[derive(Copy, Clone, Eq, PartialEq, Structural, Debug)]
pub enum State {
    /// The banner is sliding in; the payload is how far it has come.
    SlidingWelcome(u16),
    /// The snake banner is blinking; the payload counts the frames since.
    BlinkingSnake(u64),
}

/// The welcome screen: an animation state plus the fixed layout computed
/// from the terminal size.  Drawing it belongs to the rendering layer; this
/// type only steps the animation and answers layout questions.
pub struct Welcome {
    /// The animation phase.
    state: State,
    /// The terminal width.
    width: u16,
    /// The terminal height.
    height: u16,
    /// The column of the welcome banner.
    welcome_x: u16,
    /// The row of the welcome banner.
    welcome_y: u16,
    /// The column of the snake banner.
    snake_x: u16,
    /// The row of the snake banner.
    snake_y: u16,
    /// The column of the continue hint.
    continue_x: u16,
    /// The row of the continue hint.
    continue_y: u16,
}

impl Welcome {
    /// The animation phase.
    pub closed spec fn spec_state(self) -> State {
        self.state
    }

    /// The column the welcome banner slides toward.
    pub closed spec fn spec_welcome_x(self) -> int {
        self.welcome_x as int
    }

    /// The terminal width.
    pub closed spec fn spec_width(self) -> int {
        self.width as int
    }

    /// The layout is centred in the terminal and the slide never runs past
    /// the left edge of its resting place.
    pub open spec fn wf(self) -> bool {
        &&& self.spec_welcome_x() <= self.spec_width()
        &&& self.spec_width() - self.spec_welcome_x() < u16::MAX
        &&& (self.spec_state() matches State::SlidingWelcome(x) ==> x <= self.spec_width()
            - self.spec_welcome_x() + 1)
    }

    /// Creates a new `Welcome` for a terminal of the given size, centring
    /// the banners.  A terminal too small for the layout is rejected.
    pub fn new(width: u16, height: u16) -> (r: Self)
        requires
            width >= WELCOME_WIDTH,
            height >= WELCOME_HEIGHT + 1 + SNAKE_HEIGHT + 1 + CONTINUE_HEIGHT,
        ensures
            r.wf(),
            r.spec_state() == State::SlidingWelcome(0u16),
            r.spec_width() == width,
    {
        let welcome_x = (width - WELCOME_WIDTH) / 2;
        let welcome_y = (height - WELCOME_HEIGHT - 1 - SNAKE_HEIGHT - 1 - CONTINUE_HEIGHT) / 2;
        let snake_x = (width - SNAKE_WIDTH) / 2;
        let snake_y = welcome_y + 1 + WELCOME_HEIGHT;
        let continue_x = (width - CONTINUE_WIDTH) / 2;
        let continue_y = snake_y + 1 + SNAKE_HEIGHT;

        Self {
            state: State::SlidingWelcome(0),
            width,
            height,
            welcome_x,
            welcome_y,
            snake_x,
            snake_y,
            continue_x,
            continue_y,
        }
    }

    /// The smallest terminal size the welcome screen fits in.
    pub fn size() -> (r: (u16, u16))
        ensures
            r.0 == WELCOME_WIDTH,
            r.1 == WELCOME_HEIGHT + 1 + SNAKE_HEIGHT + 1 + CONTINUE_HEIGHT,
    {
        let width = if WELCOME_WIDTH >= SNAKE_WIDTH {
            if WELCOME_WIDTH >= CONTINUE_WIDTH {
                WELCOME_WIDTH
            } else {
                CONTINUE_WIDTH
            }
        } else {
            if SNAKE_WIDTH >= CONTINUE_WIDTH {
                SNAKE_WIDTH
            } else {
                CONTINUE_WIDTH
            }
        };
        (width, WELCOME_HEIGHT + 1 + SNAKE_HEIGHT + 1 + CONTINUE_HEIGHT)
    }

    /// Steps the animation by one frame: the banner slides until it rests,
    /// then the snake banner blinks forever.
    pub fn next_state(&mut self)
        requires
            old(self).wf(),
            old(self).spec_state() matches State::BlinkingSnake(x) ==> x < u64::MAX,
        ensures
            final(self).wf(),
            final(self).spec_width() == old(self).spec_width(),
            final(self).spec_welcome_x() == old(self).spec_welcome_x(),
            final(self).spec_state() == (match old(self).spec_state() {
                State::SlidingWelcome(x) => if x > old(self).spec_width() - old(self).spec_welcome_x() {
                    State::BlinkingSnake(0u64)
                } else {
                    State::SlidingWelcome((x + 1) as u16)
                },
                State::BlinkingSnake(x) => State::BlinkingSnake((x + 1) as u64),
            }),
    {
        match self.state {
            State::SlidingWelcome(x) => {
                if x > self.width - self.welcome_x {
                    self.state = State::BlinkingSnake(0);
                } else {
                    self.state = State::SlidingWelcome(x + 1);
                }
            },
            State::BlinkingSnake(x) => {
                self.state = State::BlinkingSnake(x + 1);
            },
        }
    }

    /// Returns `true` once the snake banner has started blinking.
    pub fn is_snake_blinking(&self) -> (r: bool)
        ensures
            r == (self.spec_state() is BlinkingSnake),
    {
        match self.state {
            State::BlinkingSnake(_) => true,
            State::SlidingWelcome(_) => false,
        }
    }

    /// The animation phase.
    pub fn state(&self) -> (r: State)
        ensures
            r == self.spec_state(),
    {
        self.state
    }

    /// The column of the welcome banner.
    pub fn welcome_x(&self) -> u16 {
        self.welcome_x
    }

    /// The row of the welcome banner.
    pub fn welcome_y(&self) -> u16 {
        self.welcome_y
    }

    /// The column of the snake banner.
    pub fn snake_x(&self) -> u16 {
        self.snake_x
    }

    /// The row of the snake banner.
    pub fn snake_y(&self) -> u16 {
        self.snake_y
    }

    /// The column of the continue hint.
    pub fn continue_x(&self) -> u16 {
        self.continue_x
    }

    /// The row of the continue hint.
    pub fn continue_y(&self) -> u16 {
        self.continue_y
    }

    /// The terminal width.
    pub fn width(&self) -> u16 {
        self.width
    }
}

} // verus!
