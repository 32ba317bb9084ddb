use crate::bounce::{bounced, paddle_bounce};
use crate::chance::flip;
use crate::common::{
    Input, BALL_BASE_VEL_X, BALL_BASE_VEL_Y, BALL_RADIUS, BRICK_COLS, BRICK_COUNT, PADDLE_VEL,
    PER_MILLE, UNIT, WIDTH,
};
use crate::geometry::{Circle, Contacts, Line2d, Rectangle, Vx2};
use crate::screens::transition::NewBallTransition;
use crate::screens::Screen;
use crate::sprites::ball::{launch_velocity, launched, Ball};
use crate::sprites::bricks::{
    lemma_first_struck_is_least, Brick, BrickState, Bricks, BricksView,
};
use crate::sprites::paddle::{center_x, max_x, min_x, rest_y, scaled_speed, Paddle, Tint};
use vstd::prelude::*;

verus! {

/// Index of the last round; a ball lost in it ends the game.
pub const LAST_ROUND: usize = 2;

/// Progress, in thousandths, up to which the paddle holds the alert colour.
pub const FLASH_HOLD: i32 = 200;

/// Points for a brick of the given row: rows count in pairs from the top,
/// and each pair is worth less than the one above.
pub open spec fn row_points(row: int) -> int {
    if row < 2 {
        100
    } else if row < 4 {
        50
    } else if row < 6 {
        25
    } else {
        10
    }
}

/// Where the ball's centre rests on the paddle: above its top by the
/// ball's radius and two pixels.
pub open spec fn perch(paddle: Paddle) -> Vx2 {
    Vx2 {
        x: paddle.rect.pos.x,
        y: (paddle.rect.pos.y - (paddle.rect.size.y / 2 + BALL_RADIUS + 2 * UNIT)) as i32,
    }
}

/// The paddle position at progress `t`, in thousandths, of the way from
/// `start` to the centre of the playfield; the distance covered is rounded
/// down.
pub open spec fn glide(start: int, t: int) -> int {
    if start <= center_x() {
        start + (center_x() - start) * t / PER_MILLE as int
    } else {
        start - (start - center_x()) * t / PER_MILLE as int
    }
}

/// The paddle's colour at progress `t`, in thousandths: the alert colour
/// while `t` is at most `FLASH_HOLD`, and after that the blend at parameter
/// `(t - PER_MILLE / 2) / (PER_MILLE / 2)`.
pub open spec fn flash(t: int) -> Tint {
    if t > FLASH_HOLD {
        Tint::Blend(((t - PER_MILLE / 2) * 2) as i32)
    } else {
        Tint::Maroon
    }
}

/// What the ball met after it moved: its contact with the paddle, whether
/// it touches each border of the playfield, and its contact with each
/// brick, in grid order.
#[derive(Clone, Debug, PartialEq, Eq)]
pub struct Collisions {
    pub paddle: Option<Contacts>,
    pub right: bool,
    pub bottom: bool,
    pub left: bool,
    pub top: bool,
    pub bricks: [Option<Contacts>; BRICK_COUNT],
}

/// How the first half of a frame ended.
#[derive(Clone, Copy, Debug, PartialEq, Eq, Structural)]
pub enum Step {
    /// Another screen is to take over.
    Goto(Screen),
    /// The frame is over.
    Rest,
    /// Paddle and ball have moved; the frame goes on with the collisions.
    Moved,
}

/// What the play screen holds.
pub struct PlayView {
    pub ball: Ball,
    pub bricks: BricksView,
    pub paddle: Paddle,
    pub frame: [Line2d; 5],
    pub round: usize,
    pub has_started: bool,
    pub is_paused: bool,
    pub points: usize,
    pub transition: NewBallTransition,
    pub last_ball_vel: Vx2,
}

impl PlayView {
    /// The screen as it is made, inside the borders `frame`: the ball at
    /// rest on the centred paddle, all bricks alive, the first round, and
    /// the base velocity seeding the first serve.
    pub open spec fn initial(frame: [Line2d; 5]) -> PlayView {
        PlayView {
            ball: Ball {
                circle: Circle { pos: perch(Paddle::initial()), radius: BALL_RADIUS },
                velocity: Vx2 { x: 0, y: 0 },
                visible: true,
            },
            bricks: BricksView::fresh(),
            paddle: Paddle::initial(),
            frame,
            round: 0,
            has_started: false,
            is_paused: false,
            points: 0,
            transition: NewBallTransition::fresh(),
            last_ball_vel: Vx2 { x: BALL_BASE_VEL_X, y: BALL_BASE_VEL_Y },
        }
    }

    pub open spec fn wf(self) -> bool {
        &&& self.ball.wf()
        &&& self.bricks.wf()
        &&& self.paddle.wf()
        &&& self.round <= LAST_ROUND
        &&& self.points <= 100
        &&& self.transition.wf()
        &&& self.transition.idle ==> self.transition.done()
        &&& !self.transition.done() ==> min_x() <= self.transition.start_x <= max_x()
        &&& self.last_ball_vel.is_velocity()
    }

    /// The screen with paddle and ball ready for a serve: the paddle
    /// centred, the ball at rest on it, nothing launched or paused.
    pub open spec fn served(self) -> PlayView {
        let paddle = Paddle {
            rect: Rectangle {
                pos: Vx2 {
                    x: center_x() as i32,
                    y: rest_y() as i32,
                },
                size: self.paddle.rect.size,
            },
            ..self.paddle
        };
        PlayView {
            paddle,
            ball: Ball {
                circle: Circle { pos: perch(paddle), radius: self.ball.circle.radius },
                velocity: Vx2 { x: 0, y: 0 },
                ..self.ball
            },
            has_started: false,
            is_paused: false,
            ..self
        }
    }

    /// The screen restored for a new game: ready for a serve, the ball
    /// shown, no animation running or owed, every brick alive, the first
    /// round, and paddle and serve at their base speeds.
    pub open spec fn restored(self) -> PlayView {
        let s = self.served();
        PlayView {
            ball: Ball { visible: true, ..s.ball },
            paddle: Paddle { in_trans: false, vel: PADDLE_VEL, ..s.paddle },
            transition: NewBallTransition { idle: true, ticks: 0, ..s.transition },
            bricks: s.bricks.revived(),
            round: 0,
            last_ball_vel: Vx2 { x: BALL_BASE_VEL_X, y: BALL_BASE_VEL_Y },
            ..s
        }
    }

    /// The screen at the speeds of a level: `vel` for the ball and the
    /// next serve, and the scale `level`, in thousandths, for the paddle.
    pub open spec fn sped(self, vel: Vx2, level: u16) -> PlayView {
        PlayView {
            ball: Ball { velocity: vel, ..self.ball },
            last_ball_vel: vel,
            paddle: Paddle { vel: scaled_speed(level) as i32, ..self.paddle },
            ..self
        }
    }

    /// The ball's velocity after it met the paddle other than on its flat
    /// side.
    pub open spec fn deflected(self) -> PlayView {
        PlayView {
            ball: Ball {
                velocity: bounced(
                    self.ball.velocity,
                    self.ball.circle.pos.x - self.paddle.rect.pos.x,
                ),
                ..self.ball
            },
            ..self
        }
    }

    /// One frame of the new-ball animation: the paddle glides towards the
    /// centre and changes colour with the progress made, and the count
    /// runs down by one.
    pub open spec fn animated(self) -> PlayView {
        let t = self.transition.progress();
        PlayView {
            paddle: Paddle {
                rect: Rectangle {
                    pos: Vx2 {
                        x: glide(self.transition.start_x as int, t) as i32,
                        y: self.paddle.rect.pos.y,
                    },
                    size: self.paddle.rect.size,
                },
                trans_color: flash(t),
                ..self.paddle
            },
            transition: self.transition.ticked(),
            ..self
        }
    }

    /// The frame after the animation: the new ball is put on the paddle
    /// and shown, and the controller goes idle.
    pub open spec fn resumed(self) -> PlayView {
        let s = self.served();
        PlayView {
            ball: Ball { visible: true, ..s.ball },
            paddle: Paddle { in_trans: false, ..s.paddle },
            transition: NewBallTransition { idle: true, ..s.transition },
            ..s
        }
    }

    /// The ball is in flight: launched, not paused, and no animation
    /// running or owed. Only then does a frame come to its collisions.
    pub open spec fn in_flight(self) -> bool {
        &&& self.transition.done()
        &&& self.transition.idle
        &&& !self.is_paused
        &&& self.has_started
    }

    /// A frame of `input` serves when it reaches the serve key with no ball
    /// launched yet.
    pub open spec fn serves(self, input: Input) -> bool {
        &&& !input.escape.down
        &&& self.transition.done()
        &&& self.transition.idle
        &&& input.space.pressed
        &&& !self.has_started
    }

    /// The effect of the serve key: it launches the ball if none is
    /// launched, to the right if `rightwards`, and toggles the pause
    /// otherwise.
    pub open spec fn keyed(self, input: Input, rightwards: bool) -> PlayView {
        if !input.space.pressed {
            self
        } else if !self.has_started {
            PlayView {
                ball: Ball { velocity: launched(self.last_ball_vel, rightwards), ..self.ball },
                has_started: true,
                ..self
            }
        } else {
            PlayView { is_paused: !self.is_paused, ..self }
        }
    }

    /// Paddle and ball after their movement of one frame; a ball not yet
    /// launched goes with the paddle.
    pub open spec fn advanced(self, input: Input) -> PlayView {
        let paddle = self.paddle.steered(input);
        PlayView {
            paddle,
            ball: Ball {
                circle: Circle {
                    pos: if self.has_started {
                        self.ball.circle.pos.advanced(self.ball.velocity)
                    } else {
                        perch(paddle)
                    },
                    radius: self.ball.circle.radius,
                },
                ..self.ball
            },
            ..self
        }
    }

    /// The first half of a frame, for the given `input` and side of a
    /// serve. In this order: the quit key leaves for the quit screen; a
    /// running animation takes the frame; a finished one is followed by the
    /// new ball; otherwise the serve key acts, a paused game rests, paddle
    /// and ball move, and with a ball in flight the frame goes on to the
    /// collisions.
    pub open spec fn stepped(self, input: Input, rightwards: bool) -> (PlayView, Step) {
        if input.escape.down {
            (self, Step::Goto(Screen::Quit))
        } else if !self.transition.done() {
            (self.animated(), Step::Rest)
        } else if !self.transition.idle {
            (self.resumed(), Step::Rest)
        } else {
            let k = self.keyed(input, rightwards);
            if k.is_paused {
                (k, Step::Rest)
            } else {
                (k.advanced(input), if k.has_started { Step::Moved } else { Step::Rest })
            }
        }
    }

    /// The ball leaves with velocity `vel`, which also seeds the next serve.
    pub open spec fn turned(self, vel: Vx2) -> PlayView {
        PlayView { ball: Ball { velocity: vel, ..self.ball }, last_ball_vel: vel, ..self }
    }

    /// The ball met the paddle: on its flat side the vertical direction
    /// reverses, elsewhere the angled rule applies.
    pub open spec fn paddled(self, contact: Contacts) -> PlayView {
        if contact.vertical() {
            self.turned(self.ball.velocity.flipped_y())
        } else {
            self.turned(self.deflected().ball.velocity)
        }
    }

    /// The ball is lost. In the last round the menu takes over and
    /// nothing else changes; in an earlier one the next round begins with
    /// the animation started from where the paddle stands, the ball hidden
    /// and the paddle in its alert colour.
    pub open spec fn lost(self) -> (PlayView, Option<Screen>) {
        if self.round == LAST_ROUND {
            (self, Some(Screen::Menu))
        } else {
            (
                PlayView {
                    round: (self.round + 1) as usize,
                    transition: self.transition.started(self.paddle.rect.pos.x),
                    ball: Ball { visible: false, ..self.ball },
                    paddle: Paddle { in_trans: true, trans_color: Tint::Maroon, ..self.paddle },
                    ..self
                },
                None,
            )
        }
    }

    /// The ball may have met a brick: the first struck one in grid order
    /// leaves play, its row's points are earned, and the ball reverses
    /// vertically on a vertical-dominant contact, else horizontally.
    pub open spec fn bricked(self, contacts: Seq<Option<Contacts>>) -> PlayView {
        match self.bricks.first_struck(contacts, 0) {
            Some(i) => PlayView {
                bricks: BricksView { hit: None, ..self.bricks.scanned(contacts).applied() },
                points: row_points(i / BRICK_COLS as int) as usize,
                ball: Ball {
                    velocity: if contacts[i]->0.vertical() {
                        self.ball.velocity.flipped_y()
                    } else {
                        self.ball.velocity.flipped_x()
                    },
                    ..self.ball
                },
                ..self
            },
            None => self,
        }
    }

    /// The second half of a frame, for what the ball met after it moved.
    /// The first of these that applies ends the frame: the paddle; the
    /// right, bottom, left and top border, in this order; the bricks. The
    /// bottom border loses the ball, the others reverse it.
    pub open spec fn collided(self, hits: Collisions) -> (PlayView, Option<Screen>) {
        if let Some(contact) = hits.paddle {
            (self.paddled(contact), None)
        } else if hits.right {
            (self.turned(self.ball.velocity.flipped_x()), None)
        } else if hits.bottom {
            self.lost()
        } else if hits.left {
            (self.turned(self.ball.velocity.flipped_x()), None)
        } else if hits.top {
            (self.turned(self.ball.velocity.flipped_y()), None)
        } else {
            (self.bricked(hits.bricks@), None)
        }
    }
}

/// The play screen: ball, paddle, bricks and the state of the round.
#[derive(Clone, Debug, PartialEq, Eq)]
pub struct Play {
    pub ball: Ball,
    pub bricks: Bricks,
    pub paddle: Paddle,
    /// The borders: top, right, left, bottom, and the top of the playfield
    /// below the heading.
    pub frame: [Line2d; 5],
    /// Index of the round being played; each round is one ball.
    pub round: usize,
    pub has_started: bool,
    pub is_paused: bool,
    /// Points earned and not yet collected.
    pub points: usize,
    pub transition: NewBallTransition,
    /// The velocity that seeds the next serve.
    pub last_ball_vel: Vx2,
}

impl View for Play {
    type V = PlayView;

    open spec fn view(&self) -> PlayView {
        PlayView {
            ball: self.ball,
            bricks: self.bricks@,
            paddle: self.paddle,
            frame: self.frame,
            round: self.round,
            has_started: self.has_started,
            is_paused: self.is_paused,
            points: self.points,
            transition: self.transition,
            last_ball_vel: self.last_ball_vel,
        }
    }
}

/// Points for a brick of the given row.
pub fn points_for(row: usize) -> (p: usize)
    ensures
        p == row_points(row as int),
        p <= 100,
{
    if row < 2 {
        100
    } else if row < 4 {
        50
    } else if row < 6 {
        25
    } else {
        10
    }
}

/// The velocity that seeds the serve of a new game.
fn base_serve() -> (v: Vx2)
    ensures
        v == (Vx2 { x: BALL_BASE_VEL_X, y: BALL_BASE_VEL_Y }),
        v.is_velocity(),
{
    let v = Vx2::new(BALL_BASE_VEL_X, BALL_BASE_VEL_Y);
    assert(v.is_velocity()) by (nonlinear_arith)
        requires
            v.x == 1_000_000,
            v.y == 6_000_000,
    ;
    v
}

/// Where the ball rests on `paddle`, see `perch`.
fn perch_on(paddle: &Paddle) -> (p: Vx2)
    requires
        paddle.wf(),
    ensures
        p == perch(*paddle),
{
    let y_offset: i32 = paddle.rect.size.y / 2 + BALL_RADIUS + 2 * UNIT;
    Vx2::new(paddle.rect.pos.x, paddle.rect.pos.y - y_offset)
}

impl Play {
    pub open spec fn wf(self) -> bool {
        self@.wf()
    }

    pub fn init(frame: [Line2d; 5]) -> (p: Play)
        ensures
            p@ == PlayView::initial(frame),
            p.wf(),
    {
        let paddle = Paddle::init();
        let ball_pos = perch_on(&paddle);
        let last_ball_vel = base_serve();
        Play {
            ball: Ball::new(ball_pos),
            bricks: Bricks::init(),
            paddle,
            frame,
            round: 0,
            has_started: false,
            is_paused: false,
            points: 0,
            transition: NewBallTransition::new(),
            last_ball_vel,
        }
    }

    /// Readies paddle and ball for the next serve.
    pub fn reset_after_ball(&mut self)
        requires
            old(self).wf(),
        ensures
            final(self)@ == old(self)@.served(),
            final(self).wf(),
    {
        self.paddle.reset();
        let ball_pos = perch_on(&self.paddle);
        self.ball.set_ball_pos(ball_pos);
        self.ball.set_ball_vel(Vx2::zero());
        self.has_started = false;
        self.is_paused = false;
    }

    /// Reflects the ball off the paddle by the angled rule.
    pub fn ball_velocity_hit_paddle(&mut self)
        requires
            old(self).wf(),
        ensures
            final(self)@ == old(self)@.deflected(),
            final(self).wf(),
    {
        let pad_center: i32 = self.paddle.rect.pos.x;
        let rel_x: i64 = self.ball.distance_x(pad_center);
        self.ball.velocity = paddle_bounce(&self.ball.velocity, rel_x);
    }

    /// Hands out the points earned since the last call, if there are any.
    pub fn get_points(&mut self) -> (p: Option<usize>)
        ensures
            final(self)@ == (PlayView { points: 0, ..old(self)@ }),
            p == (if old(self)@.points > 0 {
                Some(old(self)@.points)
            } else {
                None
            }),
    {
        if self.points > 0 {
            let ret = Some(self.points);
            self.points = 0;
            ret
        } else {
            None
        }
    }

    /// Sets the speeds of a level: `vel` for the ball and the next serve,
    /// and the scale `level`, in thousandths, for the paddle.
    pub fn set_velocity(&mut self, vel: Vx2, level: u16)
        requires
            vel.is_velocity(),
        ensures
            final(self)@ == old(self)@.sped(vel, level),
            old(self).wf() ==> final(self).wf(),
    {
        self.ball.set_ball_vel(vel);
        self.last_ball_vel = vel;
        self.paddle.set_velocity(level);
    }

    pub fn get_round(&self) -> (r: Option<usize>)
        ensures
            r == Some(self@.round),
    {
        Some(self.round)
    }

    /// Restores the screen for a new game.
    pub fn reset(&mut self)
        requires
            old(self).wf(),
        ensures
            final(self)@ == old(self)@.restored(),
            final(self).wf(),
    {
        self.reset_after_ball();
        self.ball.show();
        self.paddle.in_trans = false;
        self.transition.ticks = 0;
        self.transition.set_idle();
        self.bricks.reset();
        self.round = 0;
        self.has_started = false;
        self.is_paused = false;
        self.paddle.vel = PADDLE_VEL;
        self.last_ball_vel = base_serve();
    }
    /// Tells whether a frame of `input` serves the ball.
    pub fn will_serve(&self, input: &Input) -> (b: bool)
        ensures
            b == self@.serves(*input),
    {
        !input.escape.down && self.transition.is_done() && self.transition.idle
            && input.space.pressed && !self.has_started
    }

    /// Runs the first half of a frame. A serve goes to the side that a
    /// fair coin picks: the result is that of `update_with` for one of the
    /// two sides, and where the frame does not serve, for either.
    pub fn update(&mut self, input: &Input) -> (step: Step)
        requires
            old(self).wf(),
        ensures
            final(self).wf(),
            exists|rightwards: bool|
                #![trigger old(self)@.stepped(*input, rightwards)]
                final(self)@ == old(self)@.stepped(*input, rightwards).0 && step == old(
                    self,
                )@.stepped(*input, rightwards).1,
            !old(self)@.serves(*input) ==> final(self)@ == old(self)@.stepped(*input, true).0
                && step == old(self)@.stepped(*input, true).1,
            step == Step::Moved ==> final(self)@.in_flight(),
    {
        let rightwards = if self.will_serve(input) {
            flip()
        } else {
            true
        };
        self.update_with(input, rightwards)
    }

    /// Runs the first half of a frame, a serve going right if `rightwards`
    /// and left if not. On `Step::Moved` the caller finds what the ball
    /// now touches and hands it to `collide`.
    pub fn update_with(&mut self, input: &Input, rightwards: bool) -> (step: Step)
        requires
            old(self).wf(),
        ensures
            final(self)@ == old(self)@.stepped(*input, rightwards).0,
            step == old(self)@.stepped(*input, rightwards).1,
            final(self).wf(),
            step == Step::Moved ==> final(self)@.in_flight(),
    {
        if input.escape.down {
            return Step::Goto(Screen::Quit);
        }
        if !self.transition.is_done() {
            let t: i32 = self.transition.next();
            let x: i32 = glide_towards_center(self.transition.start_x, t);
            self.paddle.set_x(x);
            if t > FLASH_HOLD {
                self.paddle.trans_color = Tint::Blend((t - PER_MILLE / 2) * 2);
            } else {
                self.paddle.trans_color = Tint::Maroon;
            }
            return Step::Rest;
        }
        if !self.transition.idle {
            self.reset_after_ball();
            self.ball.show();
            self.paddle.in_trans = false;
            self.transition.set_idle();
            return Step::Rest;
        }
        if input.space.pressed {
            if !self.has_started {
                self.ball.set_ball_vel(launch_velocity(&self.last_ball_vel, rightwards));
                self.has_started = true;
            } else {
                self.is_paused = !self.is_paused;
            }
        }
        if self.is_paused {
            return Step::Rest;
        }
        self.paddle.update(input);
        self.ball.move_ball();
        if !self.has_started {
            let ball_pos = perch_on(&self.paddle);
            self.ball.set_ball_pos(ball_pos);
            return Step::Rest;
        }
        Step::Moved
    }

    /// Runs the second half of a frame, which the first half has left
    /// with the ball in flight: resolves what the ball met after it moved,
    /// and asks for the menu when the last ball is lost.
    pub fn collide(&mut self, hits: &Collisions) -> (next: Option<Screen>)
        requires
            old(self).wf(),
            old(self)@.in_flight(),
        ensures
            final(self)@ == old(self)@.collided(*hits).0,
            next == old(self)@.collided(*hits).1,
            final(self).wf(),
    {
        if let Some(coll_data) = hits.paddle {
            if coll_data.is_vertical() {
                self.ball.velocity = self.ball.velocity.flip_y();
            } else {
                self.ball_velocity_hit_paddle();
            }
            self.last_ball_vel = self.ball.velocity;
            return None;
        }
        if hits.right || hits.bottom || hits.left || hits.top {
            if hits.right {
                self.ball.velocity = self.ball.velocity.flip_x();
            } else if hits.bottom {
                if self.round == LAST_ROUND {
                    return Some(Screen::Menu);
                } else {
                    self.round = self.round + 1;
                    self.transition.start(self.paddle.rect.pos.x);
                    self.ball.hide_ball();
                    self.paddle.in_trans = true;
                    self.paddle.trans_color = Tint::Maroon;
                    return None;
                }
            } else if hits.left {
                self.ball.velocity = self.ball.velocity.flip_x();
            } else {
                self.ball.velocity = self.ball.velocity.flip_y();
            }
            self.last_ball_vel = self.ball.velocity;
            return None;
        }
        if let Some(coll_data) = self.bricks.ball_hits(&hits.bricks) {
            self.bricks.update();
            if let Some(idx) = self.bricks.get_hit() {
                self.points = points_for(idx);
            }
            if coll_data.is_vertical() {
                self.ball.velocity = self.ball.velocity.flip_y();
            } else {
                self.ball.velocity = self.ball.velocity.flip_x();
            }
        }
        None
    }
}

/// Moves from `start` towards the centre of the playfield, see `glide`.
fn glide_towards_center(start: i32, t: i32) -> (x: i32)
    requires
        min_x() <= start <= max_x(),
        0 <= t <= PER_MILLE,
    ensures
        x == glide(start as int, t as int),
        min_x() <= x <= max_x(),
{
    let center: i64 = (WIDTH / 2) as i64;
    let s: i64 = start as i64;
    let p: i64 = t as i64;
    if s <= center {
        let d: i64 = center - s;
        assert(0 <= d * p <= d * 1000) by (nonlinear_arith)
            requires
                0 <= d,
                0 <= p <= 1000,
        ;
        (s + d * p / (PER_MILLE as i64)) as i32
    } else {
        let d: i64 = s - center;
        assert(0 <= d * p <= d * 1000) by (nonlinear_arith)
            requires
                0 <= d,
                0 <= p <= 1000,
        ;
        (s - d * p / (PER_MILLE as i64)) as i32
    }
}

/// A ball lost before the last round begins the next round and the
/// new-ball animation, and asks for no other screen. A ball lost in the
/// last round asks for the menu and begins no animation: nothing changes.
pub proof fn lemma_ball_lost(p: PlayView, hits: Collisions)
    requires
        p.wf(),
        hits.paddle is None,
        !hits.right,
        hits.bottom,
    ensures
        p.round < LAST_ROUND ==> {
            &&& p.collided(hits).1 is None
            &&& p.collided(hits).0.round == p.round + 1
            &&& p.collided(hits).0.transition == p.transition.started(p.paddle.rect.pos.x)
            &&& !p.collided(hits).0.transition.done()
            &&& !p.collided(hits).0.transition.idle
            &&& !p.collided(hits).0.ball.visible
            &&& p.collided(hits).0.paddle.in_trans
        },
        p.round == LAST_ROUND ==> {
            &&& p.collided(hits).1 == Some(Screen::Menu)
            &&& p.collided(hits).0 == p
        },
{
}

/// With neither paddle nor border in the way, the first struck brick in
/// grid order is the one that leaves play, and it earns the points of its
/// row: a hundred in the top row, ten in the bottom row. The brick was
/// alive: a dead brick is never struck. Without a struck brick nothing
/// changes.
pub proof fn lemma_brick_reward(p: PlayView, hits: Collisions)
    requires
        p.wf(),
        hits.paddle is None,
        !hits.right,
        !hits.bottom,
        !hits.left,
        !hits.top,
    ensures
        match p.bricks.first_struck(hits.bricks@, 0) {
            Some(i) => {
                &&& 0 <= i < BRICK_COUNT
                &&& p.bricks.cells[i].state == BrickState::Alive
                &&& forall|j: int| 0 <= j < i ==> !p.bricks.struck(hits.bricks@, j)
                &&& p.collided(hits).0.bricks.cells == p.bricks.cells.update(
                    i,
                    Brick { state: BrickState::Dead, ..p.bricks.cells[i] },
                )
                &&& p.collided(hits).0.points == row_points(i / BRICK_COLS as int)
                &&& i / BRICK_COLS as int == 0 ==> p.collided(hits).0.points == 100
                &&& i / BRICK_COLS as int == 7 ==> p.collided(hits).0.points == 10
            },
            None => p.collided(hits).0 == p,
        },
        p.collided(hits).1 is None,
        forall|i: int|
            0 <= i < BRICK_COUNT && p.bricks.cells[i].state == BrickState::Dead
                ==> p.bricks.first_struck(hits.bricks@, 0) != Some(i),
{
    lemma_first_struck_is_least(p.bricks, hits.bricks@, 0);
    if let Some(i) = p.bricks.first_struck(hits.bricks@, 0) {
        assert(p.collided(hits).0.bricks.cells =~= p.bricks.cells.update(
            i,
            Brick { state: BrickState::Dead, ..p.bricks.cells[i] },
        ));
    }
}

/// Restoring the screen twice leaves it as restoring it once does: with
/// every brick alive, in the first round, the ball shown and at rest on
/// the centred paddle, nothing launched or paused, and the speeds at their
/// base.
pub proof fn lemma_reset_idempotent(p: PlayView)
    ensures
        p.restored().restored() == p.restored(),
        forall|i: int|
            0 <= i < p.bricks.cells.len() ==> (#[trigger] p.restored().bricks.cells[i]).state
                == BrickState::Alive,
        p.restored().bricks.hit is None,
        p.restored().round == 0,
        p.restored().ball.visible,
        p.restored().ball.velocity == (Vx2 { x: 0, y: 0 }),
        p.restored().ball.circle.pos == perch(p.restored().paddle),
        p.restored().paddle.rect.pos.x == center_x(),
        !p.restored().paddle.in_trans,
        !p.restored().has_started,
        !p.restored().is_paused,
        p.restored().transition.idle,
        p.restored().transition.done(),
        p.restored().paddle.vel == PADDLE_VEL,
        p.restored().last_ball_vel == (Vx2 { x: BALL_BASE_VEL_X, y: BALL_BASE_VEL_Y }),
{
    assert(p.restored().restored().bricks.cells =~= p.restored().bricks.cells);
}

} // verus!
