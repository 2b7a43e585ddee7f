use vstd::prelude::*;

use crate::direction::Direction;

verus! {

/// Health of the ship at the start of a game.
pub const START_HEALTH: u32 = 3;

/// How long the ship shakes after taking damage, in microseconds.
pub const SHAKE_TIME: u64 = 100_000;

/// Current score and the best score seen so far in this process.
#[derive(Clone, Copy, Debug, PartialEq, Eq, Structural)]
pub struct Score {
    pub score: u64,
    pub high_score: u64,
}

/// A change to the score.
#[derive(Clone, Copy, Debug, PartialEq, Eq, Structural)]
pub enum ScoreEvent {
    Increment,
    Reset,
}

impl Score {
    /// The high score is never below the score.
    pub open spec fn wf(self) -> bool {
        self.high_score >= self.score
    }

    /// One point more; the score stops at `u64::MAX`.
    pub open spec fn incremented(self) -> Score {
        let score: u64 = if self.score < u64::MAX {
            (self.score + 1) as u64
        } else {
            self.score
        };
        Score {
            score,
            high_score: if score > self.high_score {
                score
            } else {
                self.high_score
            },
        }
    }

    pub open spec fn after_event(self, event: ScoreEvent) -> Score {
        match event {
            ScoreEvent::Increment => self.incremented(),
            ScoreEvent::Reset => Score { score: 0, ..self },
        }
    }

    /// The score after `events`, in order.
    pub open spec fn after_events(self, events: Seq<ScoreEvent>) -> Score
        decreases events.len(),
    {
        if events.len() == 0 {
            self
        } else {
            self.after_events(events.drop_last()).after_event(events.last())
        }
    }

    pub fn new() -> (r: Score)
        ensures
            r.score == 0,
            r.high_score == 0,
    {
        Score { score: 0, high_score: 0 }
    }

    /// Adds one point, raising the high score when it is passed.
    pub fn increment(&mut self)
        ensures
            *final(self) == old(self).incremented(),
    {
        if self.score < u64::MAX {
            self.score = self.score + 1;
        }
        if self.score > self.high_score {
            self.high_score = self.score;
        }
    }

    /// Sets the score back to zero; the high score stays.
    pub fn reset(&mut self)
        ensures
            final(self).score == 0,
            final(self).high_score == old(self).high_score,
    {
        self.score = 0;
    }

    pub fn apply(&mut self, event: ScoreEvent)
        ensures
            *final(self) == old(self).after_event(event),
    {
        match event {
            ScoreEvent::Increment => self.increment(),
            ScoreEvent::Reset => self.reset(),
        }
    }

    /// Applies `events` in order.
    pub fn apply_events(&mut self, events: &Vec<ScoreEvent>)
        ensures
            *final(self) == old(self).after_events(events@),
    {
        let mut i: usize = 0;
        while i < events.len()
            invariant
                i <= events.len(),
                *self == old(self).after_events(events@.take(i as int)),
            decreases events.len() - i,
        {
            proof {
                assert(events@.take(i + 1).drop_last() =~= events@.take(i as int));
            }
            self.apply(events[i]);
            i = i + 1;
        }
        proof {
            assert(events@.take(events.len() as int) =~= events@);
        }
    }
}

/// Whatever the events, the high score never goes down and stays at or
/// above the score; without a reset among them the score never goes down
/// either.
pub proof fn lemma_score_monotone(start: Score, events: Seq<ScoreEvent>)
    requires
        start.wf(),
    ensures
        start.after_events(events).wf(),
        start.after_events(events).high_score >= start.high_score,
        !events.contains(ScoreEvent::Reset) ==> start.after_events(events).score >= start.score,
    decreases events.len(),
{
    if events.len() > 0 {
        lemma_score_monotone(start, events.drop_last());
        if !events.contains(ScoreEvent::Reset) {
            assert forall|i: int| 0 <= i < events.drop_last().len() implies events.drop_last()[i]
                != ScoreEvent::Reset by {
                assert(events[i] == events.drop_last()[i]);
            }
            assert(events.last() != ScoreEvent::Reset) by {
                assert(events[events.len() - 1] == events.last());
            }
        }
    }
}

/// Remaining health of the ship.
#[derive(Clone, Copy, Debug, PartialEq, Eq, Structural)]
pub struct Health(pub u32);

impl Health {
    /// Takes one point of health; at zero it stays at zero.
    pub fn damage(&mut self)
        ensures
            final(self).0 == if old(self).0 > 0 {
                old(self).0 - 1
            } else {
                0
            },
    {
        if self.0 > 0 {
            self.0 = self.0 - 1;
        }
    }

    pub fn is_depleted(&self) -> (r: bool)
        ensures
            r == (self.0 == 0),
    {
        self.0 == 0
    }
}

/// A turn the player asks for.
#[derive(Clone, Copy, Debug, PartialEq, Eq, Structural)]
pub enum Turn {
    Clockwise,
    CounterClockwise,
}

/// The player's ship at the centre.
#[derive(Clone, Copy, Debug, PartialEq, Eq, Structural)]
pub struct Spaceship {
    pub facing: Direction,
    pub health: Health,
    /// Microseconds of shaking left.
    pub shake: u64,
}

impl Spaceship {
    /// The facing after `turn`.
    pub open spec fn turned(self, turn: Turn) -> Direction {
        match turn {
            Turn::Clockwise => self.facing.cw(),
            Turn::CounterClockwise => self.facing.ccw(),
        }
    }

    /// The ship after `dt` microseconds of shaking have passed.
    pub open spec fn settled(self, dt: u64) -> Spaceship {
        Spaceship {
            shake: if self.shake > dt {
                (self.shake - dt) as u64
            } else {
                0
            },
            ..self
        }
    }

    /// A ship at the start of a game: facing up, with full health.
    pub fn new() -> (r: Spaceship)
        ensures
            r.facing == Direction::Up,
            r.health.0 == START_HEALTH,
            r.shake == 0,
    {
        Spaceship { facing: Direction::Up, health: Health(START_HEALTH), shake: 0 }
    }

    /// Turns the ship a quarter.
    pub fn steer(&mut self, turn: Turn)
        ensures
            final(self).facing == old(self).turned(turn),
            final(self).health == old(self).health,
            final(self).shake == old(self).shake,
    {
        self.facing = match turn {
            Turn::Clockwise => self.facing.rotate_cw(),
            Turn::CounterClockwise => self.facing.rotate_ccw(),
        };
    }

    /// Lets `dt` microseconds of shaking pass.
    pub fn settle(&mut self, dt: u64)
        ensures
            *final(self) == old(self).settled(dt),
    {
        self.shake = self.shake.saturating_sub(dt);
    }

    pub fn is_shaking(&self) -> (r: bool)
        ensures
            r == (self.shake > 0),
    {
        self.shake > 0
    }
}

} // verus!
