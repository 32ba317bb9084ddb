use vstd::prelude::*;

verus! {

/// Balls a game starts with.
pub const BALLS: usize = 3;

/// What the heading above the playfield shows.
#[derive(Clone, Copy, Debug, PartialEq, Eq, Structural)]
pub struct Heading {
    /// Balls left, the one in play included.
    pub ball: usize,
    /// The speed level.
    pub speed: usize,
    pub score: usize,
}

impl Heading {
    /// The heading of a game that has just begun.
    pub open spec fn fresh() -> Heading {
        Heading { ball: BALLS, speed: 1, score: 0 }
    }

    pub fn init() -> (h: Heading)
        ensures
            h == Heading::fresh(),
    {
        Heading { ball: BALLS, speed: 1, score: 0 }
    }

    pub fn reset(&mut self)
        ensures
            *final(self) == Heading::fresh(),
    {
        self.ball = BALLS;
        self.speed = 1;
        self.score = 0;
    }

    /// Shows the balls left in round `round`.
    pub fn set_ball(&mut self, round: usize)
        requires
            round <= BALLS,
        ensures
            *final(self) == (Heading { ball: (BALLS - round) as usize, ..*old(self) }),
    {
        self.ball = BALLS - round;
    }

    pub fn set_score(&mut self, p: usize)
        ensures
            *final(self) == (Heading { score: p, ..*old(self) }),
    {
        self.score = p;
    }

    pub fn set_speed(&mut self, s: usize)
        ensures
            *final(self) == (Heading { speed: s, ..*old(self) }),
    {
        self.speed = s;
    }
}

} // verus!
