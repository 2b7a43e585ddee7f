use vstd::prelude::*;

use crate::hazard::SpawnRequest;
use crate::random::roll_below;

verus! {

/// The first period after a reset, in microseconds.
pub const INITIAL_PERIOD: u64 = 1_000_000;

/// The period for score `s` is `PERIOD_SCALE / (s + PERIOD_OFFSET) + PERIOD_FLOOR`
/// microseconds, that is 6.25 / (s + 5) + 0.75 seconds.
pub const PERIOD_SCALE: u64 = 6_250_000;

pub const PERIOD_OFFSET: u64 = 5;

pub const PERIOD_FLOOR: u64 = 750_000;

/// Numerator of the period for `score`, over `period_den(score)`, in
/// microseconds.
pub open spec fn period_num(score: nat) -> nat {
    (PERIOD_SCALE + PERIOD_FLOOR * (score + PERIOD_OFFSET)) as nat
}

pub open spec fn period_den(score: nat) -> nat {
    (score + PERIOD_OFFSET) as nat
}

/// Elapsed time after adding `dt`, held at `u64::MAX`.
pub open spec fn clock(elapsed: u64, dt: u64) -> u64 {
    if elapsed + dt > u64::MAX {
        u64::MAX
    } else {
        (elapsed + dt) as u64
    }
}

/// Counts down to the next hazard. The period is recomputed from the score
/// each time it runs out, so hazards come faster as the score rises.
#[derive(Clone, Copy, Debug, PartialEq, Eq, Structural)]
pub struct Spawner {
    /// Microseconds since the countdown was last reset.
    pub elapsed: u64,
    /// The score the current period was computed for; `None` for the
    /// initial period.
    pub period_score: Option<u64>,
}

/// The spawn period for `score`, as numerator and denominator in
/// microseconds.
pub fn spawn_period(score: u64) -> (r: (u128, u128))
    ensures
        r.0 == period_num(score as nat),
        r.1 == period_den(score as nat),
{
    let den: u128 = score as u128 + PERIOD_OFFSET as u128;
    assert(PERIOD_FLOOR * den <= PERIOD_FLOOR * (u64::MAX + PERIOD_OFFSET)) by (nonlinear_arith)
        requires
            den <= u64::MAX + PERIOD_OFFSET,
    ;
    (PERIOD_SCALE as u128 + PERIOD_FLOOR as u128 * den, den)
}

impl Spawner {
    /// Whether `elapsed` microseconds reach the current period.
    pub open spec fn reached(self, elapsed: nat) -> bool {
        match self.period_score {
            None => elapsed >= INITIAL_PERIOD,
            Some(s) => elapsed * period_den(s as nat) >= period_num(s as nat),
        }
    }

    /// Whether the countdown runs out when `dt` more microseconds pass.
    pub open spec fn expires(self, dt: u64) -> bool {
        self.reached(clock(self.elapsed, dt) as nat)
    }

    /// The spawner after `dt` microseconds at score `score`.
    pub open spec fn advanced(self, dt: u64, score: u64) -> Spawner {
        if self.expires(dt) {
            Spawner { elapsed: 0, period_score: Some(score) }
        } else {
            Spawner { elapsed: clock(self.elapsed, dt), ..self }
        }
    }

    /// A spawner at the start of a game.
    pub fn new() -> (r: Spawner)
        ensures
            r.elapsed == 0,
            r.period_score == None::<u64>,
    {
        Spawner { elapsed: 0, period_score: None }
    }

    fn reaches(&self, elapsed: u64) -> (r: bool)
        ensures
            r == self.reached(elapsed as nat),
    {
        match self.period_score {
            None => elapsed >= INITIAL_PERIOD,
            Some(s) => {
                let ghost den = period_den(s as nat);
                if elapsed < PERIOD_FLOOR {
                    assert(elapsed * den < PERIOD_FLOOR * den) by (nonlinear_arith)
                        requires
                            elapsed < PERIOD_FLOOR,
                            den > 0,
                    ;
                    false
                } else {
                    let over: u64 = elapsed - PERIOD_FLOOR;
                    assert(elapsed * den == over * den + PERIOD_FLOOR * den) by (nonlinear_arith)
                        requires
                            over == elapsed - PERIOD_FLOOR,
                    ;
                    if over >= PERIOD_SCALE {
                        assert(over * den >= PERIOD_SCALE) by (nonlinear_arith)
                            requires
                                over >= PERIOD_SCALE,
                                den >= 1,
                        ;
                        true
                    } else {
                        let d: u128 = s as u128 + PERIOD_OFFSET as u128;
                        assert(over * d <= PERIOD_SCALE * d) by (nonlinear_arith)
                            requires
                                over < PERIOD_SCALE,
                        ;
                        assert(PERIOD_SCALE * d <= PERIOD_SCALE * (u64::MAX + PERIOD_OFFSET))
                            by (nonlinear_arith)
                            requires
                                d <= u64::MAX + PERIOD_OFFSET,
                        ;
                        over as u128 * d >= PERIOD_SCALE as u128
                    }
                }
            },
        }
    }

    /// Lets `dt` microseconds pass at score `score`; tells whether the
    /// countdown ran out, in which case it restarts with the period for
    /// `score`.
    pub fn advance(&mut self, dt: u64, score: u64) -> (expired: bool)
        ensures
            *final(self) == old(self).advanced(dt, score),
            expired == old(self).expires(dt),
    {
        let now = self.elapsed.saturating_add(dt);
        if self.reaches(now) {
            self.elapsed = 0;
            self.period_score = Some(score);
            true
        } else {
            self.elapsed = now;
            false
        }
    }

    /// Lets `dt` microseconds pass and, when the countdown runs out, draws
    /// the kind and the side of the next hazard.
    pub fn tick(&mut self, dt: u64, score: u64) -> (r: Option<SpawnRequest>)
        ensures
            *final(self) == old(self).advanced(dt, score),
            r.is_some() == old(self).expires(dt),
            r matches Some(req) ==> exists|kind_roll: u32, direction_roll: u32|
                kind_roll < 10 && direction_roll < 4 && req == SpawnRequest::of_rolls(
                    kind_roll,
                    direction_roll,
                ),
    {
        if self.advance(dt, score) {
            let kind_roll = roll_below(10);
            let direction_roll = roll_below(4);
            Some(SpawnRequest::from_rolls(kind_roll, direction_roll))
        } else {
            None
        }
    }
}

/// The spawn period is strictly shorter for a higher score, always above
/// its floor, and comes within any positive margin `p / q` microseconds of
/// the floor from some score on; at score 0 it is 2 seconds.
pub proof fn lemma_period_shape(a: nat, b: nat, p: nat, q: nat)
    requires
        a < b,
        p > 0,
        q > 0,
    ensures
        period_num(b) * period_den(a) < period_num(a) * period_den(b),
        period_num(a) > PERIOD_FLOOR * period_den(a),
        forall|s: nat|
            s >= PERIOD_SCALE * q ==> (period_num(s) - PERIOD_FLOOR * period_den(s)) * q < p
                * period_den(s),
        period_num(0) == 2_000_000 * period_den(0),
{
    assert(period_num(b) * period_den(a) < period_num(a) * period_den(b)) by (nonlinear_arith)
        requires
            a < b,
            period_num(a) == PERIOD_SCALE + PERIOD_FLOOR * (a + PERIOD_OFFSET),
            period_num(b) == PERIOD_SCALE + PERIOD_FLOOR * (b + PERIOD_OFFSET),
            period_den(a) == a + PERIOD_OFFSET,
            period_den(b) == b + PERIOD_OFFSET,
    ;
    assert forall|s: nat|
        s >= PERIOD_SCALE * q implies (period_num(s) - PERIOD_FLOOR * period_den(s)) * q < p
            * period_den(s) by {
        assert(PERIOD_SCALE * q < p * (s + PERIOD_OFFSET)) by (nonlinear_arith)
            requires
                s >= PERIOD_SCALE * q,
                p >= 1,
        ;
    }
}

} // verus!
