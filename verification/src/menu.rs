//! The level menu's selection state and layout.

use vstd::prelude::*;
use crate::screen::{KEYS_WIDTH, LEVELS_HEIGHT, LEVELS_WIDTH, SNAKE_HEIGHT, SNAKE_WIDTH};

verus! {

/// What the menu hands back to the game when it closes.
#[derive(Copy, Clone, Eq, PartialEq, Structural, Debug)]
pub enum MenuAction {
    /// Start the chosen level.
    Level(u8),
    /// Leave the game.
    Quit,
}

/// The level menu: the selected entry plus the fixed layout computed from
/// the terminal size.  Drawing it belongs to the rendering layer; this type
/// only moves the selection and answers layout questions.
pub struct Menu {
    /// The selected level.
    selected: u8,
    /// The highest selectable level.
    max: u8,
    /// The column of the snake banner.
    snake_x: u16,
    /// The row of the snake banner.
    snake_y: u16,
    /// The column of the level list.
    levels_x: u16,
    /// The row of the level list.
    levels_y: u16,
    /// The column of the key legend.
    keys_x: u16,
    /// The row of the key legend.
    keys_y: u16,
}

impl Menu {
    /// The selected level.
    pub closed spec fn spec_selected(self) -> int {
        self.selected as int
    }

    /// The highest selectable level.
    pub closed spec fn spec_max(self) -> int {
        self.max as int
    }

    /// The selection stays within the selectable levels.
    pub open spec fn wf(self) -> bool {
        &&& self.spec_selected() <= self.spec_max()
        &&& self.spec_max() < u8::MAX
    }

    /// Creates a new `Menu` for a terminal of the given size, centring the
    /// banner, the level list and the key legend.  A terminal too small for
    /// the layout is rejected.
    pub fn new(width: u16, height: u16) -> (r: Self)
        requires
            width >= SNAKE_WIDTH,
            height >= SNAKE_HEIGHT + 2 + LEVELS_HEIGHT + 2,
        ensures
            r.wf(),
            r.spec_selected() == 0,
            r.spec_max() == 3,
    {
        let snake_x = (width - SNAKE_WIDTH) / 2;
        let snake_y = (height - SNAKE_HEIGHT - 2 - LEVELS_HEIGHT - 2) / 2;
        let levels_x = (width - LEVELS_WIDTH) / 2;
        let levels_y = snake_y + SNAKE_HEIGHT + 2;
        let keys_x = (width - KEYS_WIDTH) / 2;
        let keys_y = levels_y + LEVELS_HEIGHT + 1;

        Self { selected: 0, max: 3, snake_x, snake_y, levels_x, levels_y, keys_x, keys_y }
    }

    /// Moves the selection one entry up, wrapping to the last level.
    pub fn prev(&mut self)
        requires
            old(self).wf(),
        ensures
            final(self).wf(),
            final(self).spec_max() == old(self).spec_max(),
            final(self).spec_selected() == (if old(self).spec_selected() == 0 {
                old(self).spec_max()
            } else {
                old(self).spec_selected() - 1
            }),
    {
        if self.selected == 0 {
            self.selected = self.max;
        } else {
            self.selected = self.selected - 1;
        }
    }

    /// Moves the selection one entry down, wrapping to the first level.
    pub fn next(&mut self)
        requires
            old(self).wf(),
        ensures
            final(self).wf(),
            final(self).spec_max() == old(self).spec_max(),
            final(self).spec_selected() == (if old(self).spec_selected() == old(self).spec_max() {
                0int
            } else {
                old(self).spec_selected() + 1
            }),
    {
        self.selected = self.selected + 1;
        if self.selected > self.max {
            self.selected = 0;
        }
    }

    /// Moves the banner's animated row one step toward its resting row.
    pub fn next_anim_state(&self, snake_y_anim: &mut u16)
        ensures
            *old(snake_y_anim) > self.spec_snake_y() ==> *final(snake_y_anim) == *old(snake_y_anim) - 1,
            *old(snake_y_anim) < self.spec_snake_y() ==> *final(snake_y_anim) == *old(snake_y_anim) + 1,
            *old(snake_y_anim) == self.spec_snake_y() ==> *final(snake_y_anim) == *old(snake_y_anim),
    {
        if *snake_y_anim > self.snake_y {
            *snake_y_anim = *snake_y_anim - 1;
        } else if *snake_y_anim < self.snake_y {
            *snake_y_anim = *snake_y_anim + 1;
        }
    }

    /// The row of the snake banner.
    pub closed spec fn spec_snake_y(self) -> int {
        self.snake_y as int
    }

    /// The selected level.
    pub fn selected(&self) -> (r: u8)
        ensures
            r == self.spec_selected(),
    {
        self.selected
    }

    /// The column of the snake banner.
    pub fn snake_x(&self) -> u16 {
        self.snake_x
    }

    /// The row of the snake banner.
    pub fn snake_y(&self) -> (r: u16)
        ensures
            r == self.spec_snake_y(),
    {
        self.snake_y
    }

    /// The column of the level list.
    pub fn levels_x(&self) -> u16 {
        self.levels_x
    }

    /// The row of the level list.
    pub fn levels_y(&self) -> u16 {
        self.levels_y
    }

    /// The column of the key legend.
    pub fn keys_x(&self) -> u16 {
        self.keys_x
    }

    /// The row of the key legend.
    pub fn keys_y(&self) -> u16 {
        self.keys_y
    }
}

} // verus!
