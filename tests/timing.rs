use suborbital::direction::Direction;
use suborbital::hazard::{Hazard, HazardType, SpawnRequest, IMPACT_RADIUS, SPAWN_DISTANCE};
use suborbital::satellite::{Satellite, SatellitePhase, HOVER_DISTANCE};
use suborbital::spawner::{spawn_period, Spawner, INITIAL_PERIOD};

#[test]
fn period_at_score_zero_is_two_seconds() {
    let (num, den) = spawn_period(0);
    assert_eq!((num, den), (10_000_000, 5));
    assert_eq!(num, 2_000_000 * den);
    // 6.25 / (10 + 5) + 0.75 seconds
    let (num, den) = spawn_period(10);
    assert_eq!(num * 15, (6_250_000 + 750_000 * 15) * den);
}

#[test]
fn period_shrinks_towards_its_floor() {
    let mut last = spawn_period(0);
    for score in [1u64, 2, 10, 100, 1_000, 1_000_000, u64::MAX] {
        let next = spawn_period(score);
        assert!(next.0 * last.1 < last.0 * next.1);
        assert!(next.0 > 750_000 * next.1);
        last = next;
    }
    let (num, den) = spawn_period(6_250_000);
    assert!(num - 750_000 * den <= den);
}

#[test]
fn spawner_runs_out_after_its_period() {
    let mut spawner = Spawner::new();
    assert!(!spawner.advance(INITIAL_PERIOD - 1, 0));
    assert!(spawner.advance(1, 0));
    assert_eq!(spawner.elapsed, 0);
    assert_eq!(spawner.period_score, Some(0));
    // the next period, for score 0, is 2 seconds
    assert!(!spawner.advance(1_999_999, 7));
    assert!(spawner.advance(1, 7));
    assert_eq!(spawner.period_score, Some(7));
    // 6.25 / 12 + 0.75 seconds, just over 1.2708 seconds
    assert!(!spawner.advance(1_270_833, 0));
    assert!(spawner.advance(1, 0));
}

#[test]
fn spawner_draws_requests_only_when_it_runs_out() {
    let mut spawner = Spawner::new();
    assert_eq!(spawner.tick(10, 0), None);
    let mut directions = [0u32; 4];
    let mut kinds = [0u32; 4];
    for _ in 0..400 {
        let request = spawner.tick(u64::MAX / 2, 3).expect("the period has run out");
        directions[request.direction as usize] += 1;
        kinds[request.hazard_type as usize] += 1;
    }
    assert!(directions.iter().all(|n| *n > 0));
    assert!(kinds.iter().all(|n| *n > 0));
}

#[test]
fn hazards_travel_at_constant_speed() {
    let request = SpawnRequest { hazard_type: HazardType::Rock, direction: Direction::Left };
    let mut rock = Hazard::new(request);
    assert_eq!(rock.distance, SPAWN_DISTANCE);
    assert!(!rock.advance(1_000_000));
    assert_eq!(rock.distance, 300_000_000);
    assert!(!rock.is_cracked());
    assert!(!rock.advance(1_000_000));
    assert_eq!(rock.distance, 100_000_000);
    assert!(rock.is_cracked());
    assert!(!rock.advance(149_999));
    assert!(rock.advance(1));
    assert_eq!(rock.distance, IMPACT_RADIUS);
    assert!(rock.advance(u64::MAX));
    assert_eq!(rock.distance, 0);
}

#[test]
fn satellite_goes_through_its_phases() {
    let mut sat = Satellite::new(Direction::Down);
    assert_eq!(sat.phase, SatellitePhase::Idle);
    assert!(!sat.advance(1_000_000));
    assert!(sat.distance < SPAWN_DISTANCE && sat.distance > HOVER_DISTANCE);
    assert_eq!(sat.distance, 482_000_000);
    assert!(!sat.advance(500_000));
    assert_eq!(sat.phase, SatellitePhase::Charging);
    assert!(!sat.advance(499_999));
    assert_eq!(sat.phase, SatellitePhase::Charging);
    assert!(sat.advance(1));
    assert_eq!(sat.phase, SatellitePhase::Firing);
    assert!(!sat.advance(500_000));
    assert_eq!(sat.phase, SatellitePhase::Retreating);
    assert!(!sat.advance(999_999));
    assert!(!sat.is_gone());
    assert!(!sat.advance(1));
    assert!(sat.is_gone());
    assert!(!sat.advance(5_000_000));
    assert!(sat.is_gone());
}

#[test]
fn satellite_fires_once_in_a_long_tick() {
    let mut sat = Satellite::new(Direction::Up);
    assert!(sat.advance(3_500_000));
    assert!(sat.is_gone());
    let mut sat = Satellite::new(Direction::Up);
    let mut fired = 0;
    for _ in 0..36 {
        if sat.advance(100_000) {
            fired += 1;
        }
    }
    assert_eq!(fired, 1);
    assert!(sat.is_gone());
    let mut sat = Satellite::new(Direction::Up);
    assert!(!sat.advance(1_999_999));
    assert!(sat.advance(u64::MAX));
    assert!(sat.is_gone());
}
