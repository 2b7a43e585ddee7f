use vstd::prelude::*;

use crate::hazard::{Hazard, HazardType, HitEvent, Outcome, SpawnRequest, SPAWN_DISTANCE};
use crate::direction::Direction;
use crate::ledger::{Health, Score, Spaceship, Turn, SHAKE_TIME, START_HEALTH};
use crate::satellite::{fires, Satellite, SatellitePhase};
use crate::spawner::Spawner;

verus! {

/// The result of a hit on the ship and score given: the ship and score after
/// it, and its outcome. Once health is gone, hits change nothing.
pub open spec fn resolved(ship: Spaceship, score: Score, hit: HitEvent, crates_score: bool) -> (
    Spaceship,
    Score,
    Outcome,
) {
    if ship.health.0 == 0 {
        (ship, score, Outcome::Ignored)
    } else {
        let outcome = hit.hazard_type.outcome_spec(hit.from_direction, ship.facing, crates_score);
        match outcome {
            Outcome::Blocked => (ship, score.incremented(), outcome),
            Outcome::Damaged => (
                Spaceship { health: Health((ship.health.0 - 1) as u32), shake: SHAKE_TIME, ..ship },
                score,
                outcome,
            ),
            _ => (ship, score, outcome),
        }
    }
}

/// Ship and score after `hits`, resolved in order.
pub open spec fn resolve_all(ship: Spaceship, score: Score, hits: Seq<HitEvent>, crates_score: bool) -> (
    Spaceship,
    Score,
)
    decreases hits.len(),
{
    if hits.len() == 0 {
        (ship, score)
    } else {
        let before = resolve_all(ship, score, hits.drop_last(), crates_score);
        let after = resolved(before.0, before.1, hits.last(), crates_score);
        (after.0, after.1)
    }
}

/// The outcomes of `hits`, resolved in order.
pub open spec fn outcomes(ship: Spaceship, score: Score, hits: Seq<HitEvent>, crates_score: bool) -> Seq<
    Outcome,
>
    decreases hits.len(),
{
    if hits.len() == 0 {
        Seq::empty()
    } else {
        let before = resolve_all(ship, score, hits.drop_last(), crates_score);
        outcomes(ship, score, hits.drop_last(), crates_score).push(
            resolved(before.0, before.1, hits.last(), crates_score).2,
        )
    }
}

/// The travelling hazards still on their way after `dt` microseconds.
pub open spec fn survivors(hazards: Seq<Hazard>, dt: nat) -> Seq<Hazard>
    decreases hazards.len(),
{
    if hazards.len() == 0 {
        Seq::empty()
    } else {
        let rest = survivors(hazards.drop_last(), dt);
        let h = hazards.last().stepped(dt);
        if h.has_arrived() {
            rest
        } else {
            rest.push(h)
        }
    }
}

/// The hits made by the travelling hazards that arrive within `dt`
/// microseconds, in order.
pub open spec fn arrivals(hazards: Seq<Hazard>, dt: nat) -> Seq<HitEvent>
    decreases hazards.len(),
{
    if hazards.len() == 0 {
        Seq::empty()
    } else {
        let rest = arrivals(hazards.drop_last(), dt);
        let h = hazards.last().stepped(dt);
        if h.has_arrived() {
            rest.push(h.hit())
        } else {
            rest
        }
    }
}

/// The satellites still present after `dt` microseconds.
pub open spec fn satellites_after(satellites: Seq<Satellite>, dt: nat) -> Seq<Satellite>
    decreases satellites.len(),
{
    if satellites.len() == 0 {
        Seq::empty()
    } else {
        let rest = satellites_after(satellites.drop_last(), dt);
        let s = satellites.last().stepped(dt);
        if s.phase == SatellitePhase::Gone {
            rest
        } else {
            rest.push(s)
        }
    }
}

/// The hits made by the satellites that fire within `dt` microseconds.
pub open spec fn laser_hits(satellites: Seq<Satellite>, dt: nat) -> Seq<HitEvent>
    decreases satellites.len(),
{
    if satellites.len() == 0 {
        Seq::empty()
    } else {
        let rest = laser_hits(satellites.drop_last(), dt);
        let s = satellites.last();
        if fires(s.life(), dt) {
            rest.push(s.hit())
        } else {
            rest
        }
    }
}

/// Whether a change of health from `before` to `after` defeats the player.
pub open spec fn defeat_signal(before: nat, after: nat) -> bool {
    before > 0 && after == 0
}

/// The travelling hazard that a spawn request adds, if any.
pub open spec fn spawned_hazards(request: Option<SpawnRequest>) -> Seq<Hazard> {
    match request {
        Some(r) => if r.hazard_type != HazardType::Laser {
            seq![Hazard { hazard_type: r.hazard_type, direction: r.direction, distance: SPAWN_DISTANCE }]
        } else {
            Seq::empty()
        },
        None => Seq::empty(),
    }
}

/// The satellite that a spawn request adds, if any.
pub open spec fn spawned_satellites(request: Option<SpawnRequest>) -> Seq<Satellite> {
    match request {
        Some(r) => if r.hazard_type == HazardType::Laser {
            seq![
                Satellite {
                    direction: r.direction,
                    phase: SatellitePhase::Idle,
                    elapsed: 0,
                    distance: SPAWN_DISTANCE,
                },
            ]
        } else {
            Seq::empty()
        },
        None => Seq::empty(),
    }
}

/// Resolving hits never turns the ship, never raises its health, never
/// lowers the score or the high score, and keeps the score consistent.
pub proof fn lemma_resolution_monotone(ship: Spaceship, score: Score, hits: Seq<HitEvent>, crates_score: bool)
    requires
        score.wf(),
    ensures
        resolve_all(ship, score, hits, crates_score).0.facing == ship.facing,
        resolve_all(ship, score, hits, crates_score).0.health.0 <= ship.health.0,
        resolve_all(ship, score, hits, crates_score).1.wf(),
        resolve_all(ship, score, hits, crates_score).1.score >= score.score,
        resolve_all(ship, score, hits, crates_score).1.high_score >= score.high_score,
    decreases hits.len(),
{
    if hits.len() > 0 {
        lemma_resolution_monotone(ship, score, hits.drop_last(), crates_score);
    }
}

/// Over a run of ticks whose health never rises, as `tick` ensures, the
/// defeat is signalled exactly once if health went from above zero to zero,
/// and never otherwise.
pub proof fn lemma_defeat_signalled_once(healths: Seq<u32>)
    requires
        healths.len() >= 1,
        forall|i: int| 0 <= i < healths.len() - 1 ==> healths[i + 1] <= #[trigger] healths[i],
    ensures
        defeat_signals(healths) == if healths[0] > 0 && healths.last() == 0 {
            1nat
        } else {
            0nat
        },
    decreases healths.len(),
{
    if healths.len() >= 2 {
        let prefix = healths.drop_last();
        assert forall|i: int| 0 <= i < prefix.len() - 1 implies prefix[i + 1] <= #[trigger] prefix[i] by {
            assert(prefix[i + 1] == healths[i + 1]);
            assert(prefix[i] == healths[i]);
        }
        lemma_defeat_signalled_once(prefix);
        assert(healths[healths.len() - 1] <= healths[healths.len() - 2]);
        if healths[0] == 0 {
            lemma_zero_stays(healths, healths.len() - 2);
        }
    }
}

proof fn lemma_zero_stays(healths: Seq<u32>, k: int)
    requires
        0 <= k < healths.len(),
        healths[0] == 0,
        forall|i: int| 0 <= i < healths.len() - 1 ==> healths[i + 1] <= #[trigger] healths[i],
    ensures
        healths[k] == 0,
    decreases k,
{
    if k > 0 {
        lemma_zero_stays(healths, k - 1);
    }
}

/// Number of consecutive pairs in `healths` that signal a defeat.
pub open spec fn defeat_signals(healths: Seq<u32>) -> nat
    decreases healths.len(),
{
    if healths.len() < 2 {
        0
    } else {
        defeat_signals(healths.drop_last()) + if defeat_signal(
            healths[healths.len() - 2] as nat,
            healths.last() as nat,
        ) {
            1nat
        } else {
            0nat
        }
    }
}

/// What happened during one tick.
pub struct TickReport {
    /// Hits that reached the ship, travelling hazards first, then lasers.
    pub hits: Vec<HitEvent>,
    /// The outcome of each hit, in the same order.
    pub outcomes: Vec<Outcome>,
    /// The hazard the spawner asked for, if its countdown ran out.
    pub spawned: Option<SpawnRequest>,
    /// Whether the ship ran out of health during this tick.
    pub defeated: bool,
}

/// The whole state of a game in play.
pub struct Game {
    pub ship: Spaceship,
    pub score: Score,
    pub spawner: Spawner,
    /// Rocks, ice and crates on their way in.
    pub hazards: Vec<Hazard>,
    pub satellites: Vec<Satellite>,
    /// Whether a crate reaching the ship scores a point; otherwise it is
    /// neutral.
    pub crates_score: bool,
}

impl Game {
    /// The score is consistent, no travelling hazard is a laser, and every
    /// satellite is well formed and not yet gone.
    pub open spec fn wf(&self) -> bool {
        &&& self.score.wf()
        &&& forall|i: int|
            0 <= i < self.hazards@.len() ==> self.hazards@[i].hazard_type != HazardType::Laser
        &&& forall|i: int|
            0 <= i < self.satellites@.len() ==> {
                &&& self.satellites@[i].wf()
                &&& self.satellites@[i].phase != SatellitePhase::Gone
            }
    }

    /// The game is over once the ship has no health left.
    pub open spec fn over(&self) -> bool {
        self.ship.health.0 == 0
    }

    /// A game in play from the start, with no score yet.
    pub fn new(crates_score: bool) -> (r: Game)
        ensures
            r.wf(),
            r.ship == (Spaceship { facing: Direction::Up, health: Health(START_HEALTH), shake: 0 }),
            r.score == (Score { score: 0, high_score: 0 }),
            r.spawner == (Spawner { elapsed: 0, period_score: None }),
            r.hazards@.len() == 0,
            r.satellites@.len() == 0,
            r.crates_score == crates_score,
    {
        Game {
            ship: Spaceship::new(),
            score: Score::new(),
            spawner: Spawner::new(),
            hazards: Vec::new(),
            satellites: Vec::new(),
            crates_score,
        }
    }

    /// Starts a new game: a fresh ship, score back to zero (the high score
    /// stays), a fresh spawner and no hazards.
    pub fn start_new_game(&mut self)
        ensures
            final(self).ship == (Spaceship {
                facing: Direction::Up,
                health: Health(START_HEALTH),
                shake: 0,
            }),
            final(self).score == (Score { score: 0, high_score: old(self).score.high_score }),
            final(self).spawner == (Spawner { elapsed: 0, period_score: None }),
            final(self).hazards@.len() == 0,
            final(self).satellites@.len() == 0,
            final(self).crates_score == old(self).crates_score,
            old(self).wf() ==> final(self).wf(),
    {
        self.ship = Spaceship::new();
        self.score.reset();
        self.spawner = Spawner::new();
        self.hazards = Vec::new();
        self.satellites = Vec::new();
    }

    /// Turns the ship a quarter; nothing else changes.
    pub fn steer(&mut self, turn: Turn)
        ensures
            final(self).ship.facing == old(self).ship.turned(turn),
            old(self).wf() ==> final(self).wf(),
            final(self).ship.health == old(self).ship.health,
            final(self).ship.shake == old(self).ship.shake,
            final(self).score == old(self).score,
            final(self).spawner == old(self).spawner,
            final(self).hazards@ == old(self).hazards@,
            final(self).satellites@ == old(self).satellites@,
            final(self).crates_score == old(self).crates_score,
    {
        self.ship.steer(turn);
    }

    /// Resolves one hit against the ship's facing: a block scores a point, a
    /// miss costs a point of health and shakes the ship.
    pub fn resolve_hit(&mut self, hit: HitEvent) -> (outcome: Outcome)
        ensures
            (final(self).ship, final(self).score, outcome) == resolved(
                old(self).ship,
                old(self).score,
                hit,
                old(self).crates_score,
            ),
            old(self).wf() ==> final(self).wf(),
            final(self).spawner == old(self).spawner,
            final(self).hazards@ == old(self).hazards@,
            final(self).satellites@ == old(self).satellites@,
            final(self).crates_score == old(self).crates_score,
    {
        if self.ship.health.is_depleted() {
            return Outcome::Ignored;
        }
        let outcome = hit.hazard_type.outcome(hit.from_direction, self.ship.facing, self.crates_score);
        match outcome {
            Outcome::Blocked => {
                self.score.increment();
            },
            Outcome::Damaged => {
                self.ship.health.damage();
                self.ship.shake = SHAKE_TIME;
            },
            _ => {},
        }
        outcome
    }

    /// Resolves `hits` in order.
    pub fn resolve_hits(&mut self, hits: &Vec<HitEvent>) -> (r: Vec<Outcome>)
        ensures
            (final(self).ship, final(self).score) == resolve_all(
                old(self).ship,
                old(self).score,
                hits@,
                old(self).crates_score,
            ),
            r@ == outcomes(old(self).ship, old(self).score, hits@, old(self).crates_score),
            old(self).wf() ==> final(self).wf(),
            final(self).spawner == old(self).spawner,
            final(self).hazards@ == old(self).hazards@,
            final(self).satellites@ == old(self).satellites@,
            final(self).crates_score == old(self).crates_score,
    {
        let mut r: Vec<Outcome> = Vec::new();
        let mut i: usize = 0;
        while i < hits.len()
            invariant
                i <= hits.len(),
                (self.ship, self.score) == resolve_all(
                    old(self).ship,
                    old(self).score,
                    hits@.take(i as int),
                    old(self).crates_score,
                ),
                r@ == outcomes(old(self).ship, old(self).score, hits@.take(i as int), old(self).crates_score),
                self.spawner == old(self).spawner,
                self.hazards@ == old(self).hazards@,
                self.satellites@ == old(self).satellites@,
                self.crates_score == old(self).crates_score,
                old(self).wf() ==> self.wf(),
            decreases hits.len() - i,
        {
            proof {
                assert(hits@.take(i + 1).drop_last() =~= hits@.take(i as int));
            }
            let outcome = self.resolve_hit(hits[i]);
            r.push(outcome);
            i = i + 1;
        }
        proof {
            assert(hits@.take(hits.len() as int) =~= hits@);
        }
        r
    }

    /// Moves the rocks, ice and crates on by `dt` microseconds; those that
    /// reach the ship leave and their hits are returned, in order.
    pub fn move_hazards(&mut self, dt: u64) -> (r: Vec<HitEvent>)
        ensures
            final(self).hazards@ == survivors(old(self).hazards@, dt as nat),
            r@ == arrivals(old(self).hazards@, dt as nat),
            old(self).wf() ==> final(self).wf(),
            final(self).ship == old(self).ship,
            final(self).score == old(self).score,
            final(self).spawner == old(self).spawner,
            final(self).satellites@ == old(self).satellites@,
            final(self).crates_score == old(self).crates_score,
    {
        let mut kept: Vec<Hazard> = Vec::new();
        let mut hits: Vec<HitEvent> = Vec::new();
        let mut i: usize = 0;
        while i < self.hazards.len()
            invariant
                i <= self.hazards@.len(),
                self.hazards@ == old(self).hazards@,
                kept@ == survivors(self.hazards@.take(i as int), dt as nat),
                old(self).wf() ==> forall|j: int|
                    0 <= j < kept@.len() ==> #[trigger] kept@[j].hazard_type != HazardType::Laser,
                hits@ == arrivals(self.hazards@.take(i as int), dt as nat),
            decreases self.hazards@.len() - i,
        {
            proof {
                assert(self.hazards@.take(i + 1).drop_last() =~= self.hazards@.take(i as int));
            }
            let mut h = self.hazards[i];
            if h.advance(dt) {
                hits.push(HitEvent { hazard_type: h.hazard_type, from_direction: h.direction });
            } else {
                kept.push(h);
            }
            i = i + 1;
        }
        proof {
            assert(self.hazards@.take(self.hazards@.len() as int) =~= self.hazards@);
        }
        self.hazards = kept;
        hits
    }

    /// Runs the satellites for `dt` microseconds; those that are done leave,
    /// and the hits of those that fired are returned, in order.
    pub fn advance_satellites(&mut self, dt: u64) -> (r: Vec<HitEvent>)
        requires
            old(self).wf(),
        ensures
            final(self).satellites@ == satellites_after(old(self).satellites@, dt as nat),
            r@ == laser_hits(old(self).satellites@, dt as nat),
            final(self).wf(),
            final(self).ship == old(self).ship,
            final(self).score == old(self).score,
            final(self).spawner == old(self).spawner,
            final(self).hazards@ == old(self).hazards@,
            final(self).crates_score == old(self).crates_score,
    {
        let mut kept: Vec<Satellite> = Vec::new();
        let mut hits: Vec<HitEvent> = Vec::new();
        let mut i: usize = 0;
        while i < self.satellites.len()
            invariant
                i <= self.satellites@.len(),
                self.satellites@ == old(self).satellites@,
                forall|j: int| 0 <= j < self.satellites@.len() ==> self.satellites@[j].wf(),
                kept@ == satellites_after(self.satellites@.take(i as int), dt as nat),
                forall|j: int|
                    0 <= j < kept@.len() ==> (#[trigger] kept@[j]).wf() && kept@[j].phase
                        != SatellitePhase::Gone,
                hits@ == laser_hits(self.satellites@.take(i as int), dt as nat),
            decreases self.satellites@.len() - i,
        {
            proof {
                assert(self.satellites@.take(i + 1).drop_last() =~= self.satellites@.take(i as int));
            }
            let mut s = self.satellites[i];
            if s.advance(dt) {
                hits.push(HitEvent { hazard_type: HazardType::Laser, from_direction: s.direction });
            }
            if !s.is_gone() {
                kept.push(s);
            }
            i = i + 1;
        }
        proof {
            assert(self.satellites@.take(self.satellites@.len() as int) =~= self.satellites@);
        }
        self.satellites = kept;
        hits
    }

    /// Adds the hazard that `request` asks for at the spawn distance: a
    /// satellite for a laser, a travelling hazard otherwise.
    pub fn apply_spawn(&mut self, request: SpawnRequest)
        ensures
            final(self).hazards@ == old(self).hazards@ + spawned_hazards(Some(request)),
            final(self).satellites@ == old(self).satellites@ + spawned_satellites(Some(request)),
            old(self).wf() ==> final(self).wf(),
            final(self).ship == old(self).ship,
            final(self).score == old(self).score,
            final(self).spawner == old(self).spawner,
            final(self).crates_score == old(self).crates_score,
    {
        if request.hazard_type == HazardType::Laser {
            self.satellites.push(Satellite::new(request.direction));
            assert(self.satellites@ =~= old(self).satellites@ + spawned_satellites(Some(request)));
            assert(self.hazards@ =~= old(self).hazards@ + spawned_hazards(Some(request)));
        } else {
            self.hazards.push(Hazard::new(request));
            assert(self.satellites@ =~= old(self).satellites@ + spawned_satellites(Some(request)));
            assert(self.hazards@ =~= old(self).hazards@ + spawned_hazards(Some(request)));
        }
    }

    /// One step of the simulation over `dt` microseconds, in this order:
    /// the spawner counts down (drawing a hazard if it runs out), hazards
    /// move and satellites run, the hits they make are resolved against the
    /// ship, and the drawn hazard appears unless the ship was defeated. Once
    /// the game is over a tick changes nothing.
    pub fn tick(&mut self, dt: u64) -> (report: TickReport)
        requires
            old(self).wf(),
        ensures
            final(self).wf(),
            final(self).crates_score == old(self).crates_score,
            final(self).ship.facing == old(self).ship.facing,
            final(self).ship.health.0 <= old(self).ship.health.0,
            final(self).score.score >= old(self).score.score,
            final(self).score.high_score >= old(self).score.high_score,
            report.defeated == defeat_signal(
                old(self).ship.health.0 as nat,
                final(self).ship.health.0 as nat,
            ),
            old(self).over() ==> {
                &&& final(self).ship == old(self).ship
                &&& final(self).score == old(self).score
                &&& final(self).spawner == old(self).spawner
                &&& final(self).hazards@ == old(self).hazards@
                &&& final(self).satellites@ == old(self).satellites@
                &&& report.hits@.len() == 0
                &&& report.outcomes@.len() == 0
                &&& report.spawned.is_none()
            },
            !old(self).over() ==> {
                let ship = old(self).ship.settled(dt);
                let hits = arrivals(old(self).hazards@, dt as nat) + laser_hits(
                    old(self).satellites@,
                    dt as nat,
                );
                let added = if report.defeated {
                    None
                } else {
                    report.spawned
                };
                &&& report.hits@ == hits
                &&& report.outcomes@ == outcomes(ship, old(self).score, hits, old(self).crates_score)
                &&& (final(self).ship, final(self).score) == resolve_all(
                    ship,
                    old(self).score,
                    hits,
                    old(self).crates_score,
                )
                &&& final(self).spawner == old(self).spawner.advanced(dt, old(self).score.score)
                &&& report.spawned.is_some() == old(self).spawner.expires(dt)
                &&& (report.spawned matches Some(req) ==> exists|kind_roll: u32, direction_roll: u32|
                    kind_roll < 10 && direction_roll < 4 && req == SpawnRequest::of_rolls(
                        kind_roll,
                        direction_roll,
                    ))
                &&& final(self).hazards@ == survivors(old(self).hazards@, dt as nat)
                    + spawned_hazards(added)
                &&& final(self).satellites@ == satellites_after(old(self).satellites@, dt as nat)
                    + spawned_satellites(added)
            },
    {
        if self.ship.health.is_depleted() {
            return TickReport { hits: Vec::new(), outcomes: Vec::new(), spawned: None, defeated: false };
        }
        self.ship.settle(dt);
        let spawned = self.spawner.tick(dt, self.score.score);
        let mut hits = self.move_hazards(dt);
        let mut laser = self.advance_satellites(dt);
        hits.append(&mut laser);
        let outcomes = self.resolve_hits(&hits);
        proof {
            lemma_resolution_monotone(old(self).ship.settled(dt), old(self).score, hits@, self.crates_score);
        }
        let defeated = self.ship.health.is_depleted();
        if !defeated {
            match spawned {
                Some(request) => self.apply_spawn(request),
                None => {
                    assert(self.hazards@ =~= self.hazards@ + spawned_hazards(None));
                    assert(self.satellites@ =~= self.satellites@ + spawned_satellites(None));
                },
            }
        } else {
            assert(self.hazards@ =~= self.hazards@ + spawned_hazards(None));
            assert(self.satellites@ =~= self.satellites@ + spawned_satellites(None));
        }
        TickReport { hits, outcomes, spawned, defeated }
    }
}

} // verus!
