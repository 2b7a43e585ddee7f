use suborbital::direction::Direction;
use suborbital::game::Game;
use suborbital::hazard::{HazardType, HitEvent, Outcome, SpawnRequest};
use suborbital::ledger::{Health, Score, ScoreEvent, Spaceship, Turn, SHAKE_TIME, START_HEALTH};

fn hit(hazard_type: HazardType, from_direction: Direction) -> HitEvent {
    HitEvent { hazard_type, from_direction }
}

#[test]
fn rock_from_the_left_is_blocked_facing_up() {
    let mut game = Game::new(false);
    assert_eq!(game.ship.facing, Direction::Up);
    let outcome = game.resolve_hit(hit(HazardType::Rock, Direction::Left));
    assert_eq!(outcome, Outcome::Blocked);
    assert_eq!(game.score.score, 1);
    assert_eq!(game.score.high_score, 1);
    assert_eq!(game.ship.health.0, 3);
    assert!(!game.ship.is_shaking());
}

#[test]
fn ice_from_below_damages_facing_up() {
    let mut game = Game::new(false);
    let outcome = game.resolve_hit(hit(HazardType::Ice, Direction::Down));
    assert_eq!(outcome, Outcome::Damaged);
    assert_eq!(game.ship.health.0, 2);
    assert_eq!(game.score.score, 0);
    assert!(game.ship.is_shaking());
    assert_eq!(game.ship.shake, SHAKE_TIME);
}

#[test]
fn three_misses_end_the_game_on_the_third() {
    let mut game = Game::new(false);
    let misses = vec![
        hit(HazardType::Rock, Direction::Up),
        hit(HazardType::Ice, Direction::Left),
        hit(HazardType::Laser, Direction::Down),
    ];
    let mut healths = vec![];
    for (i, miss) in misses.iter().enumerate() {
        let before = game.ship.health.0;
        assert_eq!(game.resolve_hit(*miss), Outcome::Damaged);
        healths.push(game.ship.health.0);
        let defeated = before > 0 && game.ship.health.0 == 0;
        assert_eq!(defeated, i == 2);
    }
    assert_eq!(healths, vec![2, 1, 0]);
    // hits after the defeat change nothing
    assert_eq!(game.resolve_hit(hit(HazardType::Ice, Direction::Left)), Outcome::Ignored);
    assert_eq!(game.resolve_hit(hit(HazardType::Ice, Direction::Up)), Outcome::Ignored);
    assert_eq!(game.ship.health.0, 0);
    assert_eq!(game.score.score, 0);
}

#[test]
fn defeat_is_reported_by_exactly_one_tick() {
    let mut game = Game::new(false);
    for _ in 0..3 {
        game.apply_spawn(SpawnRequest { hazard_type: HazardType::Ice, direction: Direction::Down });
    }
    // 2.15 seconds bring a hazard from the spawn distance to the ship
    let report = game.tick(2_150_000);
    assert_eq!(report.hits.len(), 3);
    assert_eq!(report.outcomes, vec![Outcome::Damaged, Outcome::Damaged, Outcome::Damaged]);
    assert!(report.defeated);
    assert_eq!(game.ship.health.0, 0);
    assert!(game.hazards.is_empty());
    assert!(game.satellites.is_empty());
    let report = game.tick(5_000_000);
    assert!(!report.defeated);
    assert!(report.hits.is_empty());
    assert_eq!(report.spawned, None);
}

#[test]
fn tick_moves_resolves_and_spawns() {
    let mut game = Game::new(false);
    game.apply_spawn(SpawnRequest { hazard_type: HazardType::Rock, direction: Direction::Right });
    game.apply_spawn(SpawnRequest { hazard_type: HazardType::Laser, direction: Direction::Right });
    game.steer(Turn::Clockwise);
    assert_eq!(game.ship.facing, Direction::Right);
    // the initial spawn period is one second
    let report = game.tick(999_999);
    assert!(report.hits.is_empty());
    assert_eq!(report.spawned, None);
    assert_eq!(game.hazards.len(), 1);
    assert_eq!(game.hazards[0].distance, 500_000_000 - 199_999_800);
    let report = game.tick(1_000_001);
    assert!(report.spawned.is_some());
    assert_eq!(game.hazards.len() + game.satellites.len(), 3);
    // the laser fires two seconds after it appeared: facing right it comes
    // from Down to be blocked, so from Right it damages
    assert_eq!(report.hits, vec![hit(HazardType::Laser, Direction::Right)]);
    assert_eq!(report.outcomes, vec![Outcome::Damaged]);
    assert_eq!(game.ship.health.0, 2);
    // the rock arrives at 2.15 seconds; facing right it is blocked from Up,
    // so from Right it damages too
    let report = game.tick(150_000);
    assert_eq!(report.hits, vec![hit(HazardType::Rock, Direction::Right)]);
    assert_eq!(report.outcomes, vec![Outcome::Damaged]);
    assert_eq!(game.ship.health.0, 1);
    assert!(!report.defeated);
}

#[test]
fn shaking_wears_off() {
    let mut game = Game::new(false);
    game.resolve_hit(hit(HazardType::Ice, Direction::Down));
    assert!(game.ship.is_shaking());
    game.tick(60_000);
    assert_eq!(game.ship.shake, 40_000);
    game.tick(60_000);
    assert!(!game.ship.is_shaking());
}

#[test]
fn crates_can_be_set_to_score() {
    let mut neutral = Game::new(false);
    assert_eq!(neutral.resolve_hit(hit(HazardType::Crate, Direction::Down)), Outcome::Neutral);
    assert_eq!(neutral.score.score, 0);
    assert_eq!(neutral.ship.health.0, START_HEALTH);
    let mut scoring = Game::new(true);
    assert_eq!(scoring.resolve_hit(hit(HazardType::Crate, Direction::Down)), Outcome::Blocked);
    assert_eq!(scoring.score.score, 1);
}

#[test]
fn new_game_keeps_only_the_high_score() {
    let mut game = Game::new(false);
    game.resolve_hit(hit(HazardType::Rock, Direction::Left));
    game.resolve_hit(hit(HazardType::Rock, Direction::Left));
    game.resolve_hit(hit(HazardType::Ice, Direction::Down));
    game.steer(Turn::CounterClockwise);
    game.apply_spawn(SpawnRequest { hazard_type: HazardType::Laser, direction: Direction::Up });
    game.start_new_game();
    assert_eq!(game.score, Score { score: 0, high_score: 2 });
    assert_eq!(game.ship, Spaceship { facing: Direction::Up, health: Health(3), shake: 0 });
    assert!(game.hazards.is_empty() && game.satellites.is_empty());
    assert_eq!(game.spawner.elapsed, 0);
}

#[test]
fn score_events_keep_the_high_score() {
    let mut score = Score::new();
    score.apply_events(&vec![ScoreEvent::Increment, ScoreEvent::Increment, ScoreEvent::Increment]);
    assert_eq!(score, Score { score: 3, high_score: 3 });
    score.apply(ScoreEvent::Reset);
    assert_eq!(score, Score { score: 0, high_score: 3 });
    score.apply_events(&vec![ScoreEvent::Increment, ScoreEvent::Reset, ScoreEvent::Increment]);
    assert_eq!(score, Score { score: 1, high_score: 3 });
    let mut top = Score { score: u64::MAX, high_score: u64::MAX };
    top.increment();
    assert_eq!(top.score, u64::MAX);
}

#[test]
fn health_stops_at_zero() {
    let mut health = Health(1);
    health.damage();
    assert!(health.is_depleted());
    health.damage();
    assert_eq!(health, Health(0));
}
