use suborbital::direction::Direction;
use suborbital::hazard::{HazardType, HitEvent, Outcome, SpawnRequest};

const ALL: [Direction; 4] = [Direction::Up, Direction::Left, Direction::Down, Direction::Right];

#[test]
fn rotations_undo_each_other() {
    for d in ALL {
        assert_eq!(d.rotate_cw().rotate_ccw(), d);
        assert_eq!(d.rotate_ccw().rotate_cw(), d);
        assert_eq!(d.rotate_cw().rotate_cw().rotate_cw().rotate_cw(), d);
        assert_ne!(d.rotate_cw(), d);
    }
    assert_eq!(Direction::Up.rotate_cw(), Direction::Right);
    assert_eq!(Direction::Up.rotate_ccw(), Direction::Left);
    assert_eq!(Direction::Down.rotate_cw(), Direction::Left);
}

#[test]
fn vectors_are_unit_and_turn_clockwise() {
    assert_eq!(Direction::Up.to_vector(), (0, 1));
    assert_eq!(Direction::Left.to_vector(), (-1, 0));
    assert_eq!(Direction::Down.to_vector(), (0, -1));
    assert_eq!(Direction::Right.to_vector(), (1, 0));
    for d in ALL {
        let (x, y) = d.to_vector();
        assert_eq!(d.rotate_cw().to_vector(), (y, -x));
    }
}

#[test]
fn rolls_pick_directions() {
    assert_eq!(Direction::from_roll(0), Direction::Up);
    assert_eq!(Direction::from_roll(1), Direction::Left);
    assert_eq!(Direction::from_roll(2), Direction::Down);
    assert_eq!(Direction::from_roll(3), Direction::Right);
}

#[test]
fn rolls_pick_kinds_by_weight() {
    let mut counts = [0u32; 4];
    for roll in 0..10 {
        match HazardType::from_roll(roll) {
            HazardType::Rock => counts[0] += 1,
            HazardType::Ice => counts[1] += 1,
            HazardType::Laser => counts[2] += 1,
            HazardType::Crate => counts[3] += 1,
        }
    }
    assert_eq!(counts, [4, 3, 2, 1]);
    assert_eq!(HazardType::from_roll(3), HazardType::Rock);
    assert_eq!(HazardType::from_roll(4), HazardType::Ice);
    assert_eq!(HazardType::from_roll(7), HazardType::Laser);
    assert_eq!(HazardType::from_roll(9), HazardType::Crate);
    assert_eq!(
        SpawnRequest::from_rolls(8, 2),
        SpawnRequest { hazard_type: HazardType::Laser, direction: Direction::Down }
    );
}

#[test]
fn exactly_one_side_blocks_each_kind() {
    for kind in [HazardType::Rock, HazardType::Ice, HazardType::Laser] {
        for facing in ALL {
            let blocked = ALL
                .iter()
                .filter(|from| kind.outcome(**from, facing, false) == Outcome::Blocked)
                .count();
            let damaged = ALL
                .iter()
                .filter(|from| kind.outcome(**from, facing, false) == Outcome::Damaged)
                .count();
            assert_eq!(blocked, 1);
            assert_eq!(damaged, 3);
        }
    }
}

#[test]
fn blocking_sides_per_kind() {
    assert_eq!(HazardType::Rock.outcome(Direction::Left, Direction::Up, false), Outcome::Blocked);
    assert_eq!(HazardType::Ice.outcome(Direction::Up, Direction::Up, false), Outcome::Blocked);
    assert_eq!(HazardType::Laser.outcome(Direction::Right, Direction::Up, false), Outcome::Blocked);
    assert_eq!(HazardType::Laser.outcome(Direction::Up, Direction::Up, false), Outcome::Damaged);
    assert_eq!(HazardType::Rock.outcome(Direction::Up, Direction::Right, false), Outcome::Blocked);
}

#[test]
fn crates_never_damage() {
    for from in ALL {
        for facing in ALL {
            assert_eq!(HazardType::Crate.outcome(from, facing, false), Outcome::Neutral);
            assert_eq!(HazardType::Crate.outcome(from, facing, true), Outcome::Blocked);
        }
    }
    let hit = HitEvent { hazard_type: HazardType::Crate, from_direction: Direction::Down };
    assert_eq!(hit.hazard_type, HazardType::Crate);
}
