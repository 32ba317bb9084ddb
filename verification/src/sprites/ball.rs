use crate::chance::flip;
use crate::common::BALL_RADIUS;
use crate::geometry::{lemma_component_bound, Circle, Vx2};
use vstd::prelude::*;

verus! {

/// The magnitude of a velocity component.
pub open spec fn magnitude(c: int) -> int {
    if c < 0 {
        -c
    } else {
        c
    }
}

/// The velocity of a serve seeded by `base`: upwards with the vertical
/// speed of `base`, and with its horizontal speed to the right if
/// `rightwards`, else to the left.
pub open spec fn launched(base: Vx2, rightwards: bool) -> Vx2 {
    Vx2 {
        x: (if rightwards { magnitude(base.x as int) } else { -magnitude(base.x as int) }) as i32,
        y: (-magnitude(base.y as int)) as i32,
    }
}

/// Computes the serve velocity for a given side, see `launched`.
pub fn launch_velocity(base: &Vx2, rightwards: bool) -> (v: Vx2)
    requires
        base.is_velocity(),
    ensures
        v == launched(*base, rightwards),
        v.is_velocity(),
        v.length_sq() == base.length_sq(),
        v.y <= 0,
{
    proof {
        lemma_component_bound(*base);
    }
    let ax: i32 = if base.x < 0 {
        -base.x
    } else {
        base.x
    };
    let ay: i32 = if base.y < 0 {
        -base.y
    } else {
        base.y
    };
    let v = Vx2 { x: if rightwards { ax } else { -ax }, y: -ay };
    assert(v.x * v.x == base.x * base.x && v.y * v.y == base.y * base.y) by (nonlinear_arith)
        requires
            v.x == base.x || v.x == -base.x,
            v.y == base.y || v.y == -base.y,
    ;
    v
}

/// Serves to a side chosen by a fair coin. Whichever side the coin picks,
/// the result is `launched` for that side.
pub fn get_rand_init_vel(base: Vx2) -> (v: Vx2)
    requires
        base.is_velocity(),
    ensures
        v == launched(base, true) || v == launched(base, false),
        v.is_velocity(),
{
    let rightwards = flip();
    launch_velocity(&base, rightwards)
}

/// The ball: a disc with a velocity, drawn only while visible.
#[derive(Clone, Copy, Debug, PartialEq, Eq, Structural)]
pub struct Ball {
    pub circle: Circle,
    pub velocity: Vx2,
    pub visible: bool,
}

impl Ball {
    /// A ball is well formed when its velocity is a valid one.
    pub open spec fn wf(self) -> bool {
        self.velocity.is_velocity()
    }

    /// A resting, visible ball of the standard radius centred at `pos`.
    pub fn new(pos: Vx2) -> (b: Ball)
        ensures
            b == (Ball {
                circle: Circle { pos, radius: BALL_RADIUS },
                velocity: Vx2 { x: 0, y: 0 },
                visible: true,
            }),
            b.wf(),
    {
        Ball { circle: Circle::new(pos, BALL_RADIUS), velocity: Vx2::zero(), visible: true }
    }

    pub fn show(&mut self)
        ensures
            *final(self) == (Ball { visible: true, ..*old(self) }),
    {
        self.visible = true;
    }

    pub fn hide_ball(&mut self)
        ensures
            *final(self) == (Ball { visible: false, ..*old(self) }),
    {
        self.visible = false;
    }

    pub fn set_ball_pos(&mut self, pos: Vx2)
        ensures
            *final(self) == (Ball {
                circle: Circle { pos, radius: old(self).circle.radius },
                ..*old(self)
            }),
    {
        self.circle.pos = pos;
    }

    pub fn set_ball_vel(&mut self, vel: Vx2)
        requires
            vel.is_velocity(),
        ensures
            *final(self) == (Ball { velocity: vel, ..*old(self) }),
            final(self).wf(),
    {
        self.velocity = vel;
    }

    /// Carries the ball one frame along its velocity.
    pub fn move_ball(&mut self)
        ensures
            *final(self) == (Ball {
                circle: Circle {
                    pos: old(self).circle.pos.advanced(old(self).velocity),
                    radius: old(self).circle.radius,
                },
                ..*old(self)
            }),
    {
        self.circle.pos = self.circle.pos.step(&self.velocity);
    }

    /// How far the ball's centre lies to the right of `paddle_center`.
    pub fn distance_x(&self, paddle_center: i32) -> (d: i64)
        ensures
            d == self.circle.pos.x - paddle_center,
    {
        self.circle.pos.x as i64 - paddle_center as i64
    }
}

} // verus!
