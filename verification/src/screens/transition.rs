use crate::common::PER_MILLE;
use vstd::prelude::*;

verus! {

/// The countdown that runs between the loss of a ball and the next serve.
#[derive(Clone, Copy, Debug, PartialEq, Eq, Structural)]
pub struct NewBallTransition {
    /// Frames left; the animation runs while this is positive.
    pub ticks: isize,
    /// No animation is under way and nothing is owed for a finished one.
    pub idle: bool,
    /// Where the paddle stood when the animation began.
    pub start_x: i32,
    /// Frames one animation takes.
    pub duration: isize,
}

impl NewBallTransition {
    /// An animation takes at least one frame.
    pub open spec fn wf(self) -> bool {
        0 < self.duration
    }

    /// The controller before any ball was lost.
    pub open spec fn fresh() -> NewBallTransition {
        NewBallTransition { duration: 75, ticks: 0, idle: true, start_x: 0 }
    }

    pub open spec fn done(self) -> bool {
        self.ticks <= 0
    }

    /// The controller once an animation has begun from paddle position `x`.
    pub open spec fn started(self, x: i32) -> NewBallTransition {
        NewBallTransition { ticks: self.duration, idle: false, start_x: x, ..self }
    }

    /// Progress of the animation in thousandths: the part of `duration`
    /// that has passed, confined to the range from nothing to all. A count
    /// at or below zero stands for all of it.
    pub open spec fn progress(self) -> int {
        let t = PER_MILLE - PER_MILLE * self.ticks / self.duration as int;
        if t < 0 {
            0
        } else if t > PER_MILLE {
            PER_MILLE as int
        } else {
            t
        }
    }

    /// The controller one frame later: the count is one lower, also at or
    /// below zero, and stops only where the machine's numbers end.
    pub open spec fn ticked(self) -> NewBallTransition {
        NewBallTransition {
            ticks: if self.ticks > isize::MIN {
                (self.ticks - 1) as isize
            } else {
                self.ticks
            },
            ..self
        }
    }

    /// The controller `n` frames later.
    pub open spec fn ticked_times(self, n: nat) -> NewBallTransition
        decreases n,
    {
        if n == 0 {
            self
        } else {
            self.ticked_times((n - 1) as nat).ticked()
        }
    }

    pub fn new() -> (t: NewBallTransition)
        ensures
            t == NewBallTransition::fresh(),
            t.wf(),
    {
        NewBallTransition { duration: 75, ticks: 0, idle: true, start_x: 0 }
    }

    /// Begins an animation from paddle position `x`.
    pub fn start(&mut self, x: i32)
        ensures
            *final(self) == old(self).started(x),
            old(self).duration > 0 ==> final(self).wf(),
    {
        self.ticks = self.duration;
        self.idle = false;
        self.start_x = x;
    }

    pub fn is_done(&self) -> (b: bool)
        ensures
            b == self.done(),
    {
        self.ticks <= 0
    }

    /// Hands out the progress reached and counts one frame down. A
    /// controller that is done stays done, with all of the progress.
    pub fn next(&mut self) -> (t: i32)
        requires
            0 < old(self).duration,
            old(self).ticks > isize::MIN,
        ensures
            t == old(self).progress(),
            0 <= t <= PER_MILLE,
            *final(self) == old(self).ticked(),
            final(self).ticks == old(self).ticks - 1,
            old(self).done() ==> t == PER_MILLE && final(self).done(),
    {
        let t: i32 = if self.ticks <= 0 {
            assert((PER_MILLE * self.ticks) / self.duration as int <= 0) by (nonlinear_arith)
                requires
                    self.ticks <= 0,
                    0 < self.duration,
                    PER_MILLE == 1000,
            ;
            PER_MILLE
        } else if self.ticks >= self.duration {
            assert((PER_MILLE * self.ticks) / self.duration as int >= PER_MILLE)
                by (nonlinear_arith)
                requires
                    self.ticks >= self.duration,
                    0 < self.duration,
                    PER_MILLE == 1000,
            ;
            0
        } else {
            let passed: i128 = (PER_MILLE as i128) * (self.ticks as i128) / (
            self.duration as i128);
            assert(0 <= passed <= PER_MILLE) by (nonlinear_arith)
                requires
                    passed == (PER_MILLE * self.ticks) / self.duration as int,
                    0 <= self.ticks <= self.duration,
                    0 < self.duration,
                    PER_MILLE == 1000,
            ;
            PER_MILLE - passed as i32
        };
        self.ticks = self.ticks - 1;
        t
    }

    pub fn set_idle(&mut self)
        ensures
            *final(self) == (NewBallTransition { idle: true, ..*old(self) }),
    {
        self.idle = true;
    }
}

/// An animation begun at any paddle position is done after `duration`
/// frames and not a frame earlier, and stays done from then on.
pub proof fn lemma_done_exactly_at_duration(t: NewBallTransition, x: i32, n: nat)
    requires
        0 < t.duration,
    ensures
        t.started(x).ticked_times(n).done() <==> n >= t.duration,
        t.started(x).ticked_times(n).wf(),
{
    lemma_ticks_after(t.started(x), n);
}

/// After `n` frames the count stands `n` lower, unless the machine's
/// numbers ended before.
proof fn lemma_ticks_after(t: NewBallTransition, n: nat)
    ensures
        t.ticked_times(n) == (NewBallTransition {
            ticks: (if t.ticks - n >= isize::MIN {
                t.ticks - n
            } else {
                isize::MIN as int
            }) as isize,
            ..t
        }),
    decreases n,
{
    if n > 0 {
        lemma_ticks_after(t, (n - 1) as nat);
    }
}

} // verus!
