use vstd::prelude::*;

use crate::direction::Direction;

verus! {

/// Distances are in millionths of a unit: where hazards appear.
pub const SPAWN_DISTANCE: u64 = 500_000_000;

/// Distance from the centre at which a travelling hazard hits the ship.
pub const IMPACT_RADIUS: u64 = 70_000_000;

/// Distance from the centre inside which a rock shows as cracked.
pub const CRACK_RADIUS: u64 = 100_000_000;

/// Speed of travelling hazards, in millionths of a unit per microsecond
/// (that is, units per second).
pub const HAZARD_SPEED: u64 = 200;

/// The kinds of hazard.
#[derive(Clone, Copy, Debug, PartialEq, Eq, Structural)]
pub enum HazardType {
    Rock,
    Ice,
    Laser,
    Crate,
}

/// How a hit is resolved against the ship.
#[derive(Clone, Copy, Debug, PartialEq, Eq, Structural)]
pub enum Outcome {
    /// Turned away: no damage, one point scored.
    Blocked,
    /// Not turned away: one point of health lost.
    Damaged,
    /// Neither scores nor damages.
    Neutral,
    /// The ship was already out of health; nothing changes.
    Ignored,
}

/// A hazard reaching the ship, from the side it came in on.
#[derive(Clone, Copy, Debug, PartialEq, Eq, Structural)]
pub struct HitEvent {
    pub hazard_type: HazardType,
    pub from_direction: Direction,
}

/// What the spawner asks to be created.
#[derive(Clone, Copy, Debug, PartialEq, Eq, Structural)]
pub struct SpawnRequest {
    pub hazard_type: HazardType,
    pub direction: Direction,
}

impl HazardType {
    /// The kind a roll in `0..10` stands for: four chances in ten for a
    /// rock, three for ice, two for a laser satellite, one for a crate.
    pub open spec fn of_roll(roll: u32) -> HazardType {
        if roll <= 3 {
            HazardType::Rock
        } else if roll <= 6 {
            HazardType::Ice
        } else if roll <= 8 {
            HazardType::Laser
        } else {
            HazardType::Crate
        }
    }

    /// The side from which a hit of this kind is blocked by a ship facing
    /// `facing` (crates are never blocked or damaging).
    pub open spec fn blocking_side(self, facing: Direction) -> Direction {
        match self {
            HazardType::Rock => facing.ccw(),
            HazardType::Ice => facing,
            HazardType::Laser => facing.cw(),
            HazardType::Crate => facing,
        }
    }

    /// The outcome of a hit of this kind from `from` on a ship facing
    /// `facing` with health left; `crates_score` tells whether a crate
    /// scores a point.
    pub open spec fn outcome_spec(self, from: Direction, facing: Direction, crates_score: bool) -> Outcome {
        match self {
            HazardType::Crate => if crates_score {
                Outcome::Blocked
            } else {
                Outcome::Neutral
            },
            _ => if from == self.blocking_side(facing) {
                Outcome::Blocked
            } else {
                Outcome::Damaged
            },
        }
    }

    /// Picks the kind for a uniform roll in `0..10`.
    pub fn from_roll(roll: u32) -> (r: HazardType)
        ensures
            r == HazardType::of_roll(roll),
    {
        if roll <= 3 {
            HazardType::Rock
        } else if roll <= 6 {
            HazardType::Ice
        } else if roll <= 8 {
            HazardType::Laser
        } else {
            HazardType::Crate
        }
    }

    /// Resolves a hit of this kind from `from` on a ship facing `facing`.
    pub fn outcome(self, from: Direction, facing: Direction, crates_score: bool) -> (r: Outcome)
        ensures
            r == self.outcome_spec(from, facing, crates_score),
    {
        match self {
            HazardType::Rock => if from == facing.rotate_ccw() {
                Outcome::Blocked
            } else {
                Outcome::Damaged
            },
            HazardType::Ice => if from == facing {
                Outcome::Blocked
            } else {
                Outcome::Damaged
            },
            HazardType::Laser => if from == facing.rotate_cw() {
                Outcome::Blocked
            } else {
                Outcome::Damaged
            },
            HazardType::Crate => if crates_score {
                Outcome::Blocked
            } else {
                Outcome::Neutral
            },
        }
    }
}

impl SpawnRequest {
    /// The request for a kind roll in `0..10` and a direction roll in `0..4`.
    pub open spec fn of_rolls(kind_roll: u32, direction_roll: u32) -> SpawnRequest {
        SpawnRequest {
            hazard_type: HazardType::of_roll(kind_roll),
            direction: Direction::of_roll(direction_roll),
        }
    }

    pub fn from_rolls(kind_roll: u32, direction_roll: u32) -> (r: SpawnRequest)
        ensures
            r == SpawnRequest::of_rolls(kind_roll, direction_roll),
    {
        SpawnRequest {
            hazard_type: HazardType::from_roll(kind_roll),
            direction: Direction::from_roll(direction_roll),
        }
    }
}

/// For every kind but the crate and every facing of the ship, exactly one of
/// the four sides blocks a hit; a hit from any other side damages.
pub proof fn lemma_one_blocking_side(kind: HazardType, facing: Direction, crates_score: bool)
    requires
        kind != HazardType::Crate,
    ensures
        exists|side: Direction|
            {
                &&& kind.outcome_spec(side, facing, crates_score) == Outcome::Blocked
                &&& forall|other: Direction|
                    other != side ==> kind.outcome_spec(other, facing, crates_score)
                        == Outcome::Damaged
            },
{
    let side = kind.blocking_side(facing);
    assert(kind.outcome_spec(side, facing, crates_score) == Outcome::Blocked);
    assert(forall|other: Direction|
        other != side ==> kind.outcome_spec(other, facing, crates_score) == Outcome::Damaged);
}

/// A crate never damages the ship, from whichever side it comes.
pub proof fn lemma_crate_never_damages(from: Direction, facing: Direction, crates_score: bool)
    ensures
        HazardType::Crate.outcome_spec(from, facing, crates_score) != Outcome::Damaged,
{
}

/// A hazard that travels at constant speed towards the centre: a rock, a
/// block of ice or a crate.
#[derive(Clone, Copy, Debug, PartialEq, Eq, Structural)]
pub struct Hazard {
    pub hazard_type: HazardType,
    /// Its path: it starts on the opposite side, at `distance` against this
    /// direction's vector, and travels along the vector to the centre. Its
    /// hit reports this direction as `from_direction`.
    pub direction: Direction,
    /// Distance from the centre, in millionths of a unit.
    pub distance: u64,
}

/// Distance left after travelling `dt` microseconds from `distance`.
pub open spec fn travelled(distance: nat, dt: nat) -> nat {
    if distance > dt * HAZARD_SPEED {
        (distance - dt * HAZARD_SPEED) as nat
    } else {
        0
    }
}

impl Hazard {
    /// Whether it has come close enough to hit the ship.
    pub open spec fn has_arrived(self) -> bool {
        self.distance <= IMPACT_RADIUS
    }

    /// The hazard after travelling `dt` microseconds.
    pub open spec fn stepped(self, dt: nat) -> Hazard {
        Hazard { distance: travelled(self.distance as nat, dt) as u64, ..self }
    }

    /// The hit it makes on arrival.
    pub open spec fn hit(self) -> HitEvent {
        HitEvent { hazard_type: self.hazard_type, from_direction: self.direction }
    }

    /// A new hazard of the requested kind at the spawn distance.
    pub fn new(request: SpawnRequest) -> (r: Hazard)
        ensures
            r.hazard_type == request.hazard_type,
            r.direction == request.direction,
            r.distance == SPAWN_DISTANCE,
    {
        Hazard {
            hazard_type: request.hazard_type,
            direction: request.direction,
            distance: SPAWN_DISTANCE,
        }
    }

    /// Moves the hazard on by `dt` microseconds; tells whether it arrived.
    pub fn advance(&mut self, dt: u64) -> (arrived: bool)
        ensures
            *final(self) == old(self).stepped(dt as nat),
            arrived == final(self).has_arrived(),
    {
        let step: u64 = if dt > u64::MAX / HAZARD_SPEED {
            u64::MAX
        } else {
            dt * HAZARD_SPEED
        };
        assert(dt > u64::MAX / HAZARD_SPEED ==> dt * HAZARD_SPEED > u64::MAX) by (nonlinear_arith);
        self.distance = self.distance.saturating_sub(step);
        self.distance <= IMPACT_RADIUS
    }

    /// Whether a rock is close enough to show cracked.
    pub fn is_cracked(&self) -> (r: bool)
        ensures
            r == (self.hazard_type == HazardType::Rock && self.distance <= CRACK_RADIUS),
    {
        self.hazard_type == HazardType::Rock && self.distance <= CRACK_RADIUS
    }
}

} // verus!
