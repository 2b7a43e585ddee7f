use vstd::prelude::*;

use crate::direction::Direction;
use crate::hazard::{HazardType, HitEvent, SPAWN_DISTANCE};

verus! {

/// Time spent idle after appearing, in microseconds.
pub const IDLE_TIME: u64 = 1_500_000;

/// Time spent charging the laser.
pub const CHARGING_TIME: u64 = 500_000;

/// Time spent firing.
pub const FIRING_TIME: u64 = 500_000;

/// Time spent retreating before it leaves.
pub const RETREATING_TIME: u64 = 1_000_000;

/// Distance from the centre at which it hovers while idle, in millionths of
/// a unit.
pub const HOVER_DISTANCE: u64 = 320_000_000;

/// The phases of a laser satellite's life, in order; `Gone` is after the end.
#[derive(Clone, Copy, Debug, PartialEq, Eq, Structural)]
pub enum SatellitePhase {
    Idle,
    Charging,
    Firing,
    Retreating,
    Gone,
}

pub open spec fn phase_duration(p: SatellitePhase) -> nat {
    match p {
        SatellitePhase::Idle => IDLE_TIME as nat,
        SatellitePhase::Charging => CHARGING_TIME as nat,
        SatellitePhase::Firing => FIRING_TIME as nat,
        SatellitePhase::Retreating => RETREATING_TIME as nat,
        SatellitePhase::Gone => 0,
    }
}

/// The time since it appeared at which phase `p` starts.
pub open spec fn phase_start(p: SatellitePhase) -> nat {
    match p {
        SatellitePhase::Idle => 0,
        SatellitePhase::Charging => IDLE_TIME as nat,
        SatellitePhase::Firing => (IDLE_TIME + CHARGING_TIME) as nat,
        SatellitePhase::Retreating => (IDLE_TIME + CHARGING_TIME + FIRING_TIME) as nat,
        SatellitePhase::Gone => (IDLE_TIME + CHARGING_TIME + FIRING_TIME + RETREATING_TIME) as nat,
    }
}

/// The whole life, the sum of the four phase durations.
pub open spec fn lifetime() -> nat {
    phase_start(SatellitePhase::Gone)
}

/// The phase a satellite is in at time `life` after it appeared.
pub open spec fn phase_at(life: nat) -> SatellitePhase {
    if life < phase_start(SatellitePhase::Charging) {
        SatellitePhase::Idle
    } else if life < phase_start(SatellitePhase::Firing) {
        SatellitePhase::Charging
    } else if life < phase_start(SatellitePhase::Retreating) {
        SatellitePhase::Firing
    } else if life < phase_start(SatellitePhase::Gone) {
        SatellitePhase::Retreating
    } else {
        SatellitePhase::Gone
    }
}

/// Time since it appeared after `dt` more microseconds; it stops at the end.
pub open spec fn step_life(life: nat, dt: nat) -> nat {
    if life + dt < lifetime() {
        life + dt
    } else {
        lifetime()
    }
}

/// Whether `dt` microseconds from time `life` cross the start of firing.
pub open spec fn fires(life: nat, dt: nat) -> bool {
    life < phase_start(SatellitePhase::Firing) && phase_start(SatellitePhase::Firing) <= life + dt
}

/// Moves `distance` a tenth of the way towards `target`.
pub open spec fn eased(distance: u64, target: u64) -> u64 {
    if distance > target {
        (distance - (distance - target) / 10) as u64
    } else {
        (distance + (target - distance) / 10) as u64
    }
}

/// The laser hazard: it comes in, hovers, charges, fires once along its
/// direction, and retreats.
#[derive(Clone, Copy, Debug, PartialEq, Eq, Structural)]
pub struct Satellite {
    /// Its side, as for a travelling hazard: it sits at `distance` against
    /// this direction's vector and fires along it.
    pub direction: Direction,
    pub phase: SatellitePhase,
    /// Microseconds spent in the current phase.
    pub elapsed: u64,
    /// Distance from the centre, in millionths of a unit.
    pub distance: u64,
}

fn duration_of(p: SatellitePhase) -> (r: u64)
    ensures
        r == phase_duration(p),
{
    match p {
        SatellitePhase::Idle => IDLE_TIME,
        SatellitePhase::Charging => CHARGING_TIME,
        SatellitePhase::Firing => FIRING_TIME,
        SatellitePhase::Retreating => RETREATING_TIME,
        SatellitePhase::Gone => 0,
    }
}

fn ease(distance: u64, target: u64) -> (r: u64)
    ensures
        r == eased(distance, target),
{
    if distance > target {
        distance - (distance - target) / 10
    } else {
        distance + (target - distance) / 10
    }
}

impl Satellite {
    /// The time spent in the current phase is less than its duration, and
    /// none is counted once it is gone.
    pub open spec fn wf(self) -> bool {
        if self.phase == SatellitePhase::Gone {
            self.elapsed == 0
        } else {
            self.elapsed < phase_duration(self.phase)
        }
    }

    /// Time since it appeared.
    pub open spec fn life(self) -> nat {
        phase_start(self.phase) + self.elapsed as nat
    }

    /// Distance after one tick: it eases in while idle and out while
    /// retreating.
    pub open spec fn next_distance(self) -> u64 {
        match self.phase {
            SatellitePhase::Idle => eased(self.distance, HOVER_DISTANCE),
            SatellitePhase::Retreating => eased(self.distance, SPAWN_DISTANCE),
            _ => self.distance,
        }
    }

    /// The satellite after `dt` microseconds.
    pub open spec fn stepped(self, dt: nat) -> Satellite {
        let life = step_life(self.life(), dt);
        Satellite {
            direction: self.direction,
            phase: phase_at(life),
            elapsed: (life - phase_start(phase_at(life))) as u64,
            distance: self.next_distance(),
        }
    }

    /// The hit it makes when it fires.
    pub open spec fn hit(self) -> HitEvent {
        HitEvent { hazard_type: HazardType::Laser, from_direction: self.direction }
    }

    /// A satellite that has just appeared from `direction`.
    pub fn new(direction: Direction) -> (r: Satellite)
        ensures
            r.wf(),
            r.life() == 0,
            r.phase == SatellitePhase::Idle,
            r.direction == direction,
            r.distance == SPAWN_DISTANCE,
    {
        Satellite { direction, phase: SatellitePhase::Idle, elapsed: 0, distance: SPAWN_DISTANCE }
    }

    pub fn is_gone(&self) -> (r: bool)
        ensures
            r == (self.phase == SatellitePhase::Gone),
    {
        self.phase == SatellitePhase::Gone
    }

    /// Runs the satellite for `dt` microseconds, going through as many
    /// phases as that time covers; tells whether it fired meanwhile.
    pub fn advance(&mut self, dt: u64) -> (fired: bool)
        requires
            old(self).wf(),
        ensures
            final(self).wf(),
            *final(self) == old(self).stepped(dt as nat),
            final(self).life() == step_life(old(self).life(), dt as nat),
            fired == fires(old(self).life(), dt as nat),
            final(self).direction == old(self).direction,
            final(self).distance == old(self).next_distance(),
    {
        let ghost start = self.life();
        match self.phase {
            SatellitePhase::Idle => {
                self.distance = ease(self.distance, HOVER_DISTANCE);
            },
            SatellitePhase::Retreating => {
                self.distance = ease(self.distance, SPAWN_DISTANCE);
            },
            _ => {},
        }
        let mut left: u64 = dt;
        let mut fired = false;
        loop
            invariant
                self.wf(),
                self.phase != SatellitePhase::Gone ==> self.life() + left == start + dt,
                self.phase == SatellitePhase::Gone ==> start + dt >= lifetime(),
                fired == (start < phase_start(SatellitePhase::Firing) && phase_start(
                    SatellitePhase::Firing,
                ) <= phase_start(self.phase)),
                start <= self.life(),
                self.direction == old(self).direction,
                self.distance == old(self).next_distance(),
            ensures
                self.wf(),
                self.phase != SatellitePhase::Gone ==> self.life() == start + dt,
                self.phase == SatellitePhase::Gone ==> start + dt >= lifetime(),
                fired == (start < phase_start(SatellitePhase::Firing) && phase_start(
                    SatellitePhase::Firing,
                ) <= phase_start(self.phase)),
                self.direction == old(self).direction,
                self.distance == old(self).next_distance(),
            decreases phase_start(SatellitePhase::Gone) - phase_start(self.phase),
        {
            if self.phase == SatellitePhase::Gone {
                break;
            }
            let rest = duration_of(self.phase) - self.elapsed;
            if left < rest {
                self.elapsed = self.elapsed + left;
                left = 0;
                break;
            }
            left = left - rest;
            self.elapsed = 0;
            self.phase = match self.phase {
                SatellitePhase::Idle => SatellitePhase::Charging,
                SatellitePhase::Charging => SatellitePhase::Firing,
                SatellitePhase::Firing => SatellitePhase::Retreating,
                _ => SatellitePhase::Gone,
            };
            if self.phase == SatellitePhase::Firing {
                fired = true;
            }
        }
        proof {
            lemma_phase_of_life(*self);
        }
        fired
    }
}

/// A well-formed satellite is in the phase that its age calls for.
pub proof fn lemma_phase_of_life(s: Satellite)
    requires
        s.wf(),
    ensures
        phase_at(s.life()) == s.phase,
{
}

/// Time since appearing after ticks of `dts` microseconds each, from a new
/// satellite.
pub open spec fn life_after(dts: Seq<u64>) -> nat
    decreases dts.len(),
{
    if dts.len() == 0 {
        0
    } else {
        step_life(life_after(dts.drop_last()), dts.last() as nat)
    }
}

/// Number of ticks among `dts` in which a new satellite fires.
pub open spec fn hits_during(dts: Seq<u64>) -> nat
    decreases dts.len(),
{
    if dts.len() == 0 {
        0
    } else {
        hits_during(dts.drop_last()) + if fires(life_after(dts.drop_last()), dts.last() as nat) {
            1nat
        } else {
            0nat
        }
    }
}

pub open spec fn total_time(dts: Seq<u64>) -> nat
    decreases dts.len(),
{
    if dts.len() == 0 {
        0
    } else {
        total_time(dts.drop_last()) + dts.last() as nat
    }
}

proof fn lemma_run(dts: Seq<u64>)
    ensures
        life_after(dts) == if total_time(dts) < lifetime() {
            total_time(dts)
        } else {
            lifetime()
        },
        hits_during(dts) == if total_time(dts) >= phase_start(SatellitePhase::Firing) {
            1nat
        } else {
            0nat
        },
    decreases dts.len(),
{
    if dts.len() > 0 {
        lemma_run(dts.drop_last());
    }
}

/// From its appearance, ticks that add up to at least the sum of the four
/// phase durations leave a satellite gone, and it has fired exactly once: in
/// the tick that crossed from charging into firing.
pub proof fn lemma_satellite_lifecycle(dts: Seq<u64>)
    requires
        total_time(dts) >= lifetime(),
    ensures
        phase_at(life_after(dts)) == SatellitePhase::Gone,
        hits_during(dts) == 1,
        forall|i: int|
            0 <= i < dts.len() ==> (fires(life_after(dts.take(i)), dts[i] as nat) <==> (phase_at(
                life_after(dts.take(i)),
            ) == SatellitePhase::Charging || phase_at(life_after(dts.take(i)))
                == SatellitePhase::Idle) && phase_at(life_after(dts.take(i + 1)))
                != SatellitePhase::Idle && phase_at(life_after(dts.take(i + 1)))
                != SatellitePhase::Charging),
{
    lemma_run(dts);
    assert forall|i: int| 0 <= i < dts.len() implies (fires(
        life_after(dts.take(i)),
        dts[i] as nat,
    ) <==> (phase_at(life_after(dts.take(i))) == SatellitePhase::Charging || phase_at(
        life_after(dts.take(i)),
    ) == SatellitePhase::Idle) && phase_at(life_after(dts.take(i + 1))) != SatellitePhase::Idle
        && phase_at(life_after(dts.take(i + 1))) != SatellitePhase::Charging) by {
        assert(dts.take(i + 1).drop_last() =~= dts.take(i));
        assert(dts.take(i + 1).last() == dts[i]);
    }
}

} // verus!
