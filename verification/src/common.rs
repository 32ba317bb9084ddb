use vstd::prelude::*;

verus! {

/// Lengths are whole numbers of sub-pixel units; this many make one pixel.
pub const UNIT: i32 = 1_000_000;

/// Ratios (speed scales, progress, blend parameters) are whole numbers of
/// thousandths; this many make one.
pub const PER_MILLE: i32 = 1_000;

pub const WIDTH: i32 = 760_000_000;

pub const HEIGHT: i32 = 900_000_000;

pub const FRAME_OFFSET: i32 = 4_000_000;

pub const PADDLE_WIDTH: i32 = 100_000_000;

pub const PADDLE_HEIGHT: i32 = 30_000_000;

/// Paddle speed per frame at speed scale one.
pub const PADDLE_VEL: i32 = 8_000_000;

pub const BALL_RADIUS: i32 = 10_000_000;

pub const BALL_BASE_VEL_Y: i32 = 6_000_000;

pub const BALL_BASE_VEL_X: i32 = 1_000_000;

pub const BRICK_ROWS: usize = 8;

pub const BRICK_COLS: usize = 14;

/// Number of cells of the brick grid, rows times columns.
pub const BRICK_COUNT: usize = 112;

pub const BRICK_MARGIN: i32 = 2_000_000;

pub const BRICK_HEIGHT: i32 = 28_000_000;

pub const HEADING_SIZE: i32 = 50_000_000;

/// Largest speed a velocity may have, in units per frame.
pub const MAX_SPEED: i32 = 1_000_000_000;

/// State of one key during a frame.
#[derive(Clone, Copy, Debug, PartialEq, Eq, Structural)]
pub struct Key {
    /// The key went down in this frame.
    pub pressed: bool,
    /// The key is held in this frame.
    pub down: bool,
}

impl Key {
    pub open spec fn active(self) -> bool {
        self.pressed || self.down
    }

    /// A key that is neither pressed nor held.
    pub fn idle() -> (k: Key)
        ensures
            k == (Key { pressed: false, down: false }),
    {
        Key { pressed: false, down: false }
    }

    /// Pressed and held count alike for movement.
    pub fn is_active(&self) -> (b: bool)
        ensures
            b == self.active(),
    {
        self.pressed || self.down
    }
}

/// The keys one frame consumes.
#[derive(Clone, Copy, Debug, PartialEq, Eq, Structural)]
pub struct Input {
    pub enter: Key,
    pub escape: Key,
    pub space: Key,
    pub left: Key,
    pub right: Key,
}

impl Input {
    /// The frame in which no key is touched.
    pub fn none() -> (i: Input)
        ensures
            i == (Input {
                enter: Key { pressed: false, down: false },
                escape: Key { pressed: false, down: false },
                space: Key { pressed: false, down: false },
                left: Key { pressed: false, down: false },
                right: Key { pressed: false, down: false },
            }),
    {
        Input {
            enter: Key::idle(),
            escape: Key::idle(),
            space: Key::idle(),
            left: Key::idle(),
            right: Key::idle(),
        }
    }
}

} // verus!
