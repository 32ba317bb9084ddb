use crate::chance::flip;
use crate::common::{
    Input, BALL_BASE_VEL_X, BALL_BASE_VEL_Y, BRICK_COUNT, FRAME_OFFSET, HEADING_SIZE, HEIGHT,
    PER_MILLE, WIDTH,
};
use crate::geometry::{Line2d, Vx2};
use crate::heading::{Heading, BALLS};
use crate::screens::menu::Menu;
use crate::screens::play::{Collisions, PlayView, Step};
use crate::screens::{Screen, Screens, ScreensView};
use crate::sprites::bricks::{
    lemma_dead_after_revival, lemma_dead_after_update, lemma_dead_among_bounds,
    lemma_dead_when_fresh, lemma_first_struck_is_least, Brick, BrickState,
};
use vstd::prelude::*;

verus! {

/// The speed level that a score has reached.
pub open spec fn level_of(score: int) -> int {
    if score < 100 {
        1
    } else if score < 300 {
        2
    } else if score < 600 {
        3
    } else if score < 800 {
        4
    } else if score < 1000 {
        5
    } else {
        6
    }
}

/// The speed scale of a score's level, in thousandths.
pub open spec fn scale_of(score: int) -> int {
    if score < 100 {
        1_000
    } else if score < 300 {
        1_500
    } else if score < 600 {
        2_000
    } else if score < 800 {
        3_000
    } else if score < 1000 {
        4_000
    } else {
        5_000
    }
}

/// The speed scale, in thousandths, and the level of a score.
pub fn get_level(score: usize) -> (r: (u16, usize))
    ensures
        r.0 == scale_of(score as int),
        r.1 == level_of(score as int),
{
    if score < 100 {
        (1_000, 1)
    } else if score < 300 {
        (1_500, 2)
    } else if score < 600 {
        (2_000, 3)
    } else if score < 800 {
        (3_000, 4)
    } else if score < 1000 {
        (4_000, 5)
    } else {
        (5_000, 6)
    }
}

/// Level and speed scale never fall as the score grows, and the level is
/// one of the six.
pub proof fn lemma_level_monotone(a: int, b: int)
    requires
        a <= b,
    ensures
        level_of(a) <= level_of(b),
        scale_of(a) <= scale_of(b),
        1 <= level_of(a) <= 6,
{
}

/// The ball's base velocity at speed scale `scale`, in thousandths.
pub open spec fn scaled_base(scale: u16) -> Vx2 {
    Vx2 {
        x: (scale * BALL_BASE_VEL_X / PER_MILLE as int) as i32,
        y: (scale * BALL_BASE_VEL_Y / PER_MILLE as int) as i32,
    }
}

/// Computes the ball's velocity for a speed scale, see `scaled_base`.
pub fn base_velocity(scale: u16) -> (v: Vx2)
    ensures
        v == scaled_base(scale),
        v.is_velocity(),
{
    let x: i64 = scale as i64 * BALL_BASE_VEL_X as i64 / PER_MILLE as i64;
    let y: i64 = scale as i64 * BALL_BASE_VEL_Y as i64 / PER_MILLE as i64;
    let v = Vx2 { x: x as i32, y: y as i32 };
    assert(v.is_velocity()) by (nonlinear_arith)
        requires
            0 <= v.x <= 400_000_000,
            0 <= v.y <= 400_000_000,
    ;
    v
}

/// Border `i` of the screen: the top, right, left and bottom edge of the
/// frame, then the top edge of the playfield below the heading.
pub open spec fn border(i: int) -> Line2d {
    let top_left = Vx2 { x: FRAME_OFFSET, y: FRAME_OFFSET };
    let top_right = Vx2 { x: (WIDTH - FRAME_OFFSET) as i32, y: FRAME_OFFSET };
    let bottom_right = Vx2 {
        x: (WIDTH - FRAME_OFFSET) as i32,
        y: (HEIGHT - FRAME_OFFSET) as i32,
    };
    let bottom_left = Vx2 { x: FRAME_OFFSET, y: (HEIGHT - FRAME_OFFSET) as i32 };
    if i == 0 {
        Line2d { start: top_left, end: top_right }
    } else if i == 1 {
        Line2d { start: top_right, end: bottom_right }
    } else if i == 2 {
        Line2d { start: bottom_left, end: top_left }
    } else if i == 3 {
        Line2d { start: bottom_right, end: bottom_left }
    } else {
        Line2d {
            start: Vx2 { x: FRAME_OFFSET, y: HEADING_SIZE },
            end: Vx2 { x: (WIDTH - FRAME_OFFSET) as i32, y: HEADING_SIZE },
        }
    }
}

/// The five borders, computed from the layout.
pub fn frame_borders() -> (frame: [Line2d; 5])
    ensures
        forall|i: int| 0 <= i < 5 ==> frame[i] == border(i),
{
    let top_left = Vx2::new(FRAME_OFFSET, FRAME_OFFSET);
    let top_right = Vx2::new(WIDTH - FRAME_OFFSET, FRAME_OFFSET);
    let bottom_right = Vx2::new(WIDTH - FRAME_OFFSET, HEIGHT - FRAME_OFFSET);
    let bottom_left = Vx2::new(FRAME_OFFSET, HEIGHT - FRAME_OFFSET);
    let game_top_left = Vx2::new(FRAME_OFFSET, HEADING_SIZE);
    let game_top_right = Vx2::new(WIDTH - FRAME_OFFSET, HEADING_SIZE);
    [
        Line2d::new(top_left, top_right),
        Line2d::new(top_right, bottom_right),
        Line2d::new(bottom_left, top_left),
        Line2d::new(bottom_right, bottom_left),
        Line2d::new(game_top_left, game_top_right),
    ]
}

/// How a frame, or its first half, ended.
#[derive(Clone, Copy, Debug, PartialEq, Eq, Structural)]
pub enum Tick {
    /// The game is over: the quit screen was reached.
    Quit,
    /// The frame is over.
    Done,
    /// The ball has moved; the frame goes on with `collide`.
    Collide,
}

/// What the game holds.
pub struct BreakoutView {
    pub frame: [Line2d; 5],
    pub screen: Screen,
    pub screens: ScreensView,
    pub heading: Heading,
    pub score: usize,
    pub level: usize,
    pub started: bool,
}

impl BreakoutView {
    /// What holds of the game at any time: the play screen is well formed,
    /// the level is that of the score, and every hundred points taken or
    /// waiting is covered by a brick removed.
    pub open spec fn consistent(self) -> bool {
        &&& self.screens.play.wf()
        &&& self.level == level_of(self.score as int)
        &&& self.score + self.screens.play.points <= 100 * self.screens.play.bricks.dead_count()
    }

    /// What holds of the game between frames, and between the halves of
    /// one: it is consistent and no points wait to be taken.
    pub open spec fn wf(self) -> bool {
        self.consistent() && self.screens.play.points == 0
    }

    /// One of the screens with a behaviour of its own is active.
    pub open spec fn running(self) -> bool {
        self.screen == Screen::Menu || self.screen == Screen::Play
    }

    /// The game as it is made: on the menu, nothing played yet.
    pub open spec fn initial(frame: [Line2d; 5]) -> BreakoutView {
        BreakoutView {
            frame,
            screen: Screen::Menu,
            screens: ScreensView {
                menu: Menu { render_score: false, score: 0 },
                play: PlayView::initial(frame),
            },
            heading: Heading::fresh(),
            score: 0,
            level: 1,
            started: false,
        }
    }

    /// The game with score, level and heading as a new game has them.
    pub open spec fn cleared(self) -> BreakoutView {
        BreakoutView { score: 0, level: 1, heading: Heading::fresh(), ..self }
    }

    /// The game once the screen that a frame asked for, if any, has taken
    /// over. Entering the play screen begins a new game.
    pub open spec fn entered(self, next: Option<Screen>) -> BreakoutView {
        match next {
            None => self,
            Some(screen) => if screen == Screen::Play {
                BreakoutView {
                    screen,
                    screens: ScreensView { play: self.screens.play.restored(), ..self.screens },
                    ..self.cleared()
                }
            } else {
                BreakoutView { screen, ..self }
            },
        }
    }

    /// The play screen's waiting points are added to the score; a score
    /// that has reached a higher level raises the level and sets the
    /// speeds of ball and paddle to that level's scale.
    pub open spec fn scored(self) -> BreakoutView {
        let play = self.screens.play;
        if play.points > 0 {
            let score = (self.score + play.points) as usize;
            let taken = PlayView { points: 0, ..play };
            let heading = Heading { score, ..self.heading };
            if level_of(score as int) > self.level {
                let scale = scale_of(score as int) as u16;
                BreakoutView {
                    score,
                    level: level_of(score as int) as usize,
                    heading: Heading { speed: level_of(score as int) as usize, ..heading },
                    screens: ScreensView {
                        play: taken.sped(scaled_base(scale), scale),
                        ..self.screens
                    },
                    ..self
                }
            } else {
                BreakoutView {
                    score,
                    heading,
                    screens: ScreensView { play: taken, ..self.screens },
                    ..self
                }
            }
        } else {
            self
        }
    }

    /// The bookkeeping that ends a frame. On the play screen the game
    /// counts as started, the heading shows the balls left, and points are
    /// taken; on the menu of a started game the score is put on show.
    pub open spec fn settled(self) -> BreakoutView {
        if self.screen == Screen::Play {
            (BreakoutView {
                started: true,
                heading: Heading {
                    ball: (BALLS - self.screens.play.round) as usize,
                    ..self.heading
                },
                ..self
            }).scored()
        } else if self.screen == Screen::Menu && self.started {
            BreakoutView {
                screens: ScreensView {
                    menu: Menu { render_score: true, score: self.score },
                    ..self.screens
                },
                ..self
            }
        } else {
            self
        }
    }

    /// How a frame ends that left the game in this state.
    pub open spec fn tick(self) -> Tick {
        if self.screen == Screen::Quit {
            Tick::Quit
        } else {
            Tick::Done
        }
    }

    /// The game with `play` for its play screen.
    pub open spec fn with_play(self, play: PlayView) -> BreakoutView {
        BreakoutView { screens: ScreensView { play, ..self.screens }, ..self }
    }

    /// A frame, or its first half, for the given `input` and side of a
    /// serve. The active screen runs; the screen it asks for takes over;
    /// the bookkeeping ends the frame. Only where the play screen has moved
    /// the ball does the frame stay open for the collisions.
    pub open spec fn updated(self, input: Input, rightwards: bool) -> (BreakoutView, Tick) {
        if self.screen == Screen::Menu {
            let g = self.entered(Menu::chosen(input)).settled();
            (g, g.tick())
        } else {
            let (play, step) = self.screens.play.stepped(input, rightwards);
            match step {
                Step::Goto(screen) => {
                    let g = self.with_play(play).entered(Some(screen)).settled();
                    (g, g.tick())
                },
                Step::Rest => {
                    let g = self.with_play(play).settled();
                    (g, g.tick())
                },
                Step::Moved => (self.with_play(play), Tick::Collide),
            }
        }
    }

    /// The second half of a frame on the play screen, for what the ball
    /// met.
    pub open spec fn collided(self, hits: Collisions) -> BreakoutView {
        let (play, next) = self.screens.play.collided(hits);
        self.with_play(play).entered(next).settled()
    }
}

/// The game: the screens, which of them is active, and the score.
#[derive(Clone, Debug, PartialEq, Eq)]
pub struct Breakout {
    pub frame: [Line2d; 5],
    pub screen: Screen,
    pub screens: Screens,
    pub heading: Heading,
    pub score: usize,
    pub level: usize,
    /// A game has been played or is being played.
    pub started: bool,
}

impl View for Breakout {
    type V = BreakoutView;

    open spec fn view(&self) -> BreakoutView {
        BreakoutView {
            frame: self.frame,
            screen: self.screen,
            screens: self.screens@,
            heading: self.heading,
            score: self.score,
            level: self.level,
            started: self.started,
        }
    }
}

impl Breakout {
    pub open spec fn wf(self) -> bool {
        self@.wf()
    }

    /// Makes the game, on the menu, inside the borders of the layout.
    pub fn init() -> (g: Breakout)
        ensures
            g@ == BreakoutView::initial(g@.frame),
            forall|i: int| 0 <= i < 5 ==> g@.frame[i] == border(i),
            g.wf(),
    {
        let frame = frame_borders();
        proof {
            lemma_dead_when_fresh(BRICK_COUNT as int);
        }
        Breakout {
            frame,
            screen: Screen::Menu,
            screens: Screens::init(frame),
            heading: Heading::init(),
            score: 0,
            level: 1,
            started: false,
        }
    }

    /// Sets score, level and heading back to those of a new game.
    pub fn reset(&mut self)
        ensures
            final(self)@ == old(self)@.cleared(),
    {
        self.score = 0;
        self.level = 1;
        self.heading.reset();
    }

    /// Lets the screen that a frame asked for take over.
    fn enter(&mut self, next: Option<Screen>)
        requires
            old(self)@.consistent(),
            next is Some ==> old(self)@.screens.play.points == 0,
        ensures
            final(self)@ == old(self)@.entered(next),
            final(self)@.consistent(),
            next is Some ==> final(self)@.screens.play.points == 0,
            next is None ==> final(self)@ == old(self)@,
    {
        if let Some(screen) = next {
            self.screen = screen;
            if screen == Screen::Play {
                self.reset();
                self.screens.play.reset();
                proof {
                    lemma_dead_after_revival(
                        old(self)@.screens.play.bricks,
                        BRICK_COUNT as int,
                    );
                }
            }
        }
    }

    /// Does the bookkeeping that ends a frame.
    fn settle(&mut self) -> (tick: Tick)
        requires
            old(self)@.consistent(),
            old(self)@.screen != Screen::Play ==> old(self)@.screens.play.points == 0,
        ensures
            final(self)@ == old(self)@.settled(),
            tick == final(self)@.tick(),
            final(self).wf(),
    {
        if self.screen == Screen::Quit {
            return Tick::Quit;
        }
        if self.screen == Screen::Play {
            if !self.started {
                self.started = true;
            }
            if let Some(round) = self.screens.play.get_round() {
                self.heading.set_ball(round);
            }
            if let Some(points) = self.screens.play.get_points() {
                proof {
                    lemma_dead_among_bounds(
                        self@.screens.play.bricks.cells,
                        BRICK_COUNT as int,
                    );
                }
                self.score = self.score + points;
                self.heading.set_score(self.score);
                let cur: usize = self.level;
                let (multi, level) = get_level(self.score);
                if level > cur {
                    self.level = level;
                    let v = base_velocity(multi);
                    self.screens.play.set_velocity(v, multi);
                    self.heading.set_speed(self.level);
                }
            }
        }
        if self.screen == Screen::Menu && self.started {
            self.screens.menu.prepare_render_score(self.score);
        }
        Tick::Done
    }

    /// Runs a frame, or its first half. A serve goes to the side that a
    /// fair coin picks: the result is that of `update_with` for one of
    /// the two sides, and where the frame does not serve, for either.
    pub fn update(&mut self, input: &Input) -> (tick: Tick)
        requires
            old(self).wf(),
            old(self)@.running(),
        ensures
            final(self).wf(),
            exists|rightwards: bool|
                #![trigger old(self)@.updated(*input, rightwards)]
                final(self)@ == old(self)@.updated(*input, rightwards).0 && tick == old(
                    self,
                )@.updated(*input, rightwards).1,
            !(old(self)@.screen == Screen::Play && old(self)@.screens.play.serves(*input))
                ==> final(self)@ == old(self)@.updated(*input, true).0 && tick == old(
                self,
            )@.updated(*input, true).1,
            tick == Tick::Collide ==> final(self)@.screen == Screen::Play
                && final(self)@.screens.play.in_flight(),
            tick == Tick::Quit <==> final(self)@.screen == Screen::Quit,
            tick != Tick::Quit ==> final(self)@.running(),
    {
        let rightwards = if self.screen == Screen::Play && self.screens.play.will_serve(input) {
            flip()
        } else {
            true
        };
        self.update_with(input, rightwards)
    }

    /// Runs a frame, or its first half, a serve going right if
    /// `rightwards` and left if not. On `Tick::Collide` the caller finds
    /// what the ball now touches and hands it to `collide`.
    pub fn update_with(&mut self, input: &Input, rightwards: bool) -> (tick: Tick)
        requires
            old(self).wf(),
            old(self)@.running(),
        ensures
            final(self)@ == old(self)@.updated(*input, rightwards).0,
            tick == old(self)@.updated(*input, rightwards).1,
            final(self).wf(),
            tick == Tick::Collide ==> final(self)@.screen == Screen::Play
                && final(self)@.screens.play.in_flight(),
            tick == Tick::Quit <==> final(self)@.screen == Screen::Quit,
            tick != Tick::Quit ==> final(self)@.running(),
    {
        if self.screen == Screen::Menu {
            let next = self.screens.menu.update(input);
            self.enter(next);
            self.settle()
        } else {
            match self.screens.play.update_with(input, rightwards) {
                Step::Goto(screen) => {
                    self.enter(Some(screen));
                    self.settle()
                },
                Step::Rest => self.settle(),
                Step::Moved => Tick::Collide,
            }
        }
    }

    /// Runs the second half of a frame on the play screen, which the
    /// first half has left with the ball in flight: resolves what the ball
    /// met, then ends the frame.
    pub fn collide(&mut self, hits: &Collisions)
        requires
            old(self).wf(),
            old(self)@.screen == Screen::Play,
            old(self)@.screens.play.in_flight(),
        ensures
            final(self)@ == old(self)@.collided(*hits),
            final(self).wf(),
            final(self)@.running(),
    {
        proof {
            lemma_collide_keeps_tally(old(self)@.screens.play, *hits);
        }
        let next = self.screens.play.collide(hits);
        self.enter(next);
        self.settle();
    }
}

/// Resolving collisions earns at most a hundred points, and only for a
/// brick that leaves play; it asks for no screen but the menu.
pub proof fn lemma_collide_keeps_tally(p: PlayView, hits: Collisions)
    requires
        p.wf(),
    ensures
        p.collided(hits).0.points + 100 * p.bricks.dead_count() <= p.points + 100
            * p.collided(hits).0.bricks.dead_count(),
        p.collided(hits).1 is Some ==> p.collided(hits).1 == Some(Screen::Menu) && p.collided(
            hits,
        ).0 == p,
{
    let q = p.collided(hits).0;
    if hits.paddle is None && !hits.right && !hits.bottom && !hits.left && !hits.top {
        lemma_first_struck_is_least(p.bricks, hits.bricks@, 0);
        if let Some(i) = p.bricks.first_struck(hits.bricks@, 0) {
            let marked = p.bricks.scanned(hits.bricks@).cells;
            lemma_dead_after_update(
                p.bricks.cells,
                i,
                Brick { state: BrickState::Hit, ..p.bricks.cells[i] },
                BRICK_COUNT as int,
            );
            lemma_dead_after_update(
                marked,
                i,
                Brick { state: BrickState::Dead, ..marked[i] },
                BRICK_COUNT as int,
            );
        }
    }
}

/// While a game runs, neither score nor level falls: the second half of a
/// frame leaves both as they were or higher, and so does a frame on the
/// play screen. The level stays one of the six.
pub proof fn lemma_score_never_falls(g: BreakoutView, input: Input, rightwards: bool, hits: Collisions)
    requires
        g.wf(),
        g.screen == Screen::Play,
    ensures
        g.collided(hits).score >= g.score,
        g.collided(hits).level >= g.level,
        g.updated(input, rightwards).0.score >= g.score,
        g.updated(input, rightwards).0.level >= g.level,
        1 <= g.collided(hits).level <= 6,
{
    let (play, next) = g.screens.play.collided(hits);
    lemma_collide_keeps_tally(g.screens.play, hits);
    lemma_dead_among_bounds(play.bricks.cells, BRICK_COUNT as int);
    let (moved, step) = g.screens.play.stepped(input, rightwards);
    assert(moved.points == 0);
    assert(step != Step::Goto(Screen::Play));
}

/// A ball lost before the last round keeps the play screen, which begins
/// the next round and the new-ball animation; the heading shows one ball
/// fewer. A ball lost in the last round brings the menu, which shows the
/// score, and begins no animation.
pub proof fn lemma_game_ball_lost(g: BreakoutView, hits: Collisions)
    requires
        g.wf(),
        g.screen == Screen::Play,
        hits.paddle is None,
        !hits.right,
        hits.bottom,
    ensures
        g.screens.play.round < 2 ==> {
            &&& g.collided(hits).screen == Screen::Play
            &&& g.collided(hits).screens.play.round == g.screens.play.round + 1
            &&& !g.collided(hits).screens.play.transition.done()
            &&& g.collided(hits).heading.ball == BALLS - (g.screens.play.round + 1)
            &&& g.collided(hits).score == g.score
        },
        g.screens.play.round == 2 ==> {
            &&& g.collided(hits).screen == Screen::Menu
            &&& g.collided(hits).screens.play == g.screens.play
            &&& g.collided(hits).score == g.score
            &&& g.started ==> g.collided(hits).screens.menu == (Menu {
                render_score: true,
                score: g.score,
            })
        },
{
}

} // verus!
