use crate::common::{
    Input, FRAME_OFFSET, HEIGHT, PADDLE_HEIGHT, PADDLE_VEL, PADDLE_WIDTH, PER_MILLE, WIDTH,
};
use crate::geometry::{Rectangle, Vx2};
use vstd::prelude::*;

verus! {

/// A paddle colour: one of the two fixed ones, or a blend of them.
#[derive(Clone, Copy, Debug, PartialEq, Eq, Structural)]
pub enum Tint {
    /// The colour of normal play.
    Teal,
    /// The alert colour shown when a ball was lost.
    Maroon,
    /// Linear interpolation from `Maroon` to `Teal` at the given parameter,
    /// in thousandths.
    Blend(i32),
}

/// The horizontal centre of the playfield.
pub open spec fn center_x() -> int {
    WIDTH / 2
}

/// The height at which the paddle's centre rests.
pub open spec fn rest_y() -> int {
    HEIGHT - (FRAME_OFFSET + PADDLE_HEIGHT)
}

/// The leftmost position of the paddle's centre that keeps it in the frame.
pub open spec fn min_x() -> int {
    FRAME_OFFSET + PADDLE_WIDTH / 2
}

/// The rightmost position of the paddle's centre that keeps it in the frame.
pub open spec fn max_x() -> int {
    WIDTH - FRAME_OFFSET - PADDLE_WIDTH / 2
}

/// Paddle speed per frame at speed scale `level`, given in thousandths.
pub open spec fn scaled_speed(level: u16) -> int {
    PADDLE_VEL * level / PER_MILLE as int
}

/// The player's paddle.
#[derive(Clone, Copy, Debug, PartialEq, Eq, Structural)]
pub struct Paddle {
    /// Centre and extent.
    pub rect: Rectangle,
    pub color: Tint,
    /// The colour shown while `in_trans` is set.
    pub trans_color: Tint,
    pub in_trans: bool,
    /// Distance covered per frame while a direction key is active.
    pub vel: i32,
}

impl Paddle {
    /// The paddle as a game begins: centred, at base speed, in its normal
    /// colour.
    pub open spec fn initial() -> Paddle {
        Paddle {
            rect: Rectangle {
                pos: Vx2 { x: center_x() as i32, y: rest_y() as i32 },
                size: Vx2 { x: PADDLE_WIDTH, y: PADDLE_HEIGHT },
            },
            color: Tint::Teal,
            trans_color: Tint::Teal,
            in_trans: false,
            vel: PADDLE_VEL,
        }
    }

    /// The paddle lies inside the frame, at its resting height, with its
    /// fixed extent and a speed that some scale gives.
    pub open spec fn wf(self) -> bool {
        &&& self.rect.size == (Vx2 { x: PADDLE_WIDTH, y: PADDLE_HEIGHT })
        &&& self.rect.pos.y == rest_y()
        &&& min_x() <= self.rect.pos.x <= max_x()
        &&& 0 <= self.vel <= scaled_speed(u16::MAX)
    }

    /// The centre's horizontal position after one frame of `input`. A key
    /// moves the paddle by its speed if its box, as it stood before the
    /// frame, then stays strictly inside the frame; otherwise not at all.
    pub open spec fn steered_x(self, input: Input) -> int {
        let x = self.rect.pos.x as int;
        let half = PADDLE_WIDTH / 2;
        let right = input.right.active() && x + half + self.vel < WIDTH - FRAME_OFFSET;
        let left = input.left.active() && x - half - self.vel > FRAME_OFFSET;
        x + (if right { self.vel as int } else { 0 }) - (if left { self.vel as int } else { 0 })
    }

    /// The paddle after one frame of `input`.
    pub open spec fn steered(self, input: Input) -> Paddle {
        Paddle {
            rect: Rectangle {
                pos: Vx2 { x: self.steered_x(input) as i32, y: self.rect.pos.y },
                size: self.rect.size,
            },
            ..self
        }
    }

    /// The paddle after the frames of `inputs`, in their order.
    pub open spec fn steered_through(self, inputs: Seq<Input>) -> Paddle
        decreases inputs.len(),
    {
        if inputs.len() == 0 {
            self
        } else {
            self.steered_through(inputs.drop_last()).steered(inputs.last())
        }
    }

    pub fn init() -> (p: Paddle)
        ensures
            p == Paddle::initial(),
            p.wf(),
    {
        Paddle {
            rect: Rectangle::new(
                Vx2::new(WIDTH / 2, HEIGHT - (FRAME_OFFSET + PADDLE_HEIGHT)),
                Vx2::new(PADDLE_WIDTH, PADDLE_HEIGHT),
            ),
            color: Tint::Teal,
            trans_color: Tint::Teal,
            in_trans: false,
            vel: PADDLE_VEL,
        }
    }

    /// Puts the paddle back to the centre of the playfield.
    pub fn reset(&mut self)
        ensures
            *final(self) == (Paddle {
                rect: Rectangle {
                    pos: Vx2 { x: center_x() as i32, y: rest_y() as i32 },
                    size: old(self).rect.size,
                },
                ..*old(self)
            }),
    {
        self.rect.pos = Vx2::new(WIDTH / 2, HEIGHT - (FRAME_OFFSET + PADDLE_HEIGHT));
    }

    pub fn set_x(&mut self, x: i32)
        requires
            min_x() <= x <= max_x(),
        ensures
            *final(self) == (Paddle {
                rect: Rectangle {
                    pos: Vx2 { x, y: old(self).rect.pos.y },
                    size: old(self).rect.size,
                },
                ..*old(self)
            }),
    {
        self.rect.pos.x = x;
    }

    /// Moves the paddle for one frame of `input`. Inside the frame it
    /// stays, however many frames push it against an edge.
    pub fn update(&mut self, input: &Input)
        requires
            old(self).wf(),
        ensures
            *final(self) == old(self).steered(*input),
            min_x() <= old(self).steered_x(*input) <= max_x(),
            final(self).wf(),
    {
        let x: i32 = self.rect.pos.x;
        let half: i32 = PADDLE_WIDTH / 2;
        let mut next: i32 = x;
        if input.right.is_active() {
            if x + half + self.vel < WIDTH - FRAME_OFFSET {
                next = next + self.vel;
            }
        }
        if input.left.is_active() {
            if x - half - self.vel > FRAME_OFFSET {
                next = next - self.vel;
            }
        }
        self.rect.pos.x = next;
    }

    /// Sets the speed to the base speed times `level`, a scale in
    /// thousandths. The scale replaces the one before; it does not compound.
    pub fn set_velocity(&mut self, level: u16)
        ensures
            *final(self) == (Paddle { vel: scaled_speed(level) as i32, ..*old(self) }),
            old(self).wf() ==> final(self).wf(),
            0 <= scaled_speed(level) <= scaled_speed(u16::MAX),
    {
        let v: i64 = PADDLE_VEL as i64 * level as i64 / PER_MILLE as i64;
        self.vel = v as i32;
    }
}

/// However many frames move the paddle, and whatever their keys, it stays
/// inside the frame.
pub proof fn lemma_paddle_stays_in_frame(p: Paddle, inputs: Seq<Input>)
    requires
        p.wf(),
    ensures
        p.steered_through(inputs).wf(),
        min_x() <= p.steered_through(inputs).rect.pos.x <= max_x(),
    decreases inputs.len(),
{
    if inputs.len() > 0 {
        lemma_paddle_stays_in_frame(p, inputs.drop_last());
    }
}

} // verus!
