use vstd::prelude::*;

verus! {

/// One of the four compass directions, in counter-clockwise order.
#[derive(Clone, Copy, Debug, PartialEq, Eq, Structural)]
pub enum Direction {
    Up,
    Left,
    Down,
    Right,
}

impl Direction {
    /// The direction reached by a quarter turn clockwise.
    pub open spec fn cw(self) -> Direction {
        match self {
            Direction::Up => Direction::Right,
            Direction::Left => Direction::Up,
            Direction::Down => Direction::Left,
            Direction::Right => Direction::Down,
        }
    }

    /// The direction reached by a quarter turn counter-clockwise.
    pub open spec fn ccw(self) -> Direction {
        match self {
            Direction::Up => Direction::Left,
            Direction::Left => Direction::Down,
            Direction::Down => Direction::Right,
            Direction::Right => Direction::Up,
        }
    }

    /// The direction a roll in `0..4` stands for; any larger roll is `Right`.
    pub open spec fn of_roll(roll: u32) -> Direction {
        if roll == 0 {
            Direction::Up
        } else if roll == 1 {
            Direction::Left
        } else if roll == 2 {
            Direction::Down
        } else {
            Direction::Right
        }
    }

    /// The outward unit vector, x to the right and y upwards.
    pub open spec fn vector(self) -> (int, int) {
        match self {
            Direction::Up => (0, 1),
            Direction::Left => (-1, 0),
            Direction::Down => (0, -1),
            Direction::Right => (1, 0),
        }
    }

    pub fn rotate_cw(self) -> (r: Direction)
        ensures
            r == self.cw(),
    {
        match self {
            Direction::Up => Direction::Right,
            Direction::Left => Direction::Up,
            Direction::Down => Direction::Left,
            Direction::Right => Direction::Down,
        }
    }

    pub fn rotate_ccw(self) -> (r: Direction)
        ensures
            r == self.ccw(),
    {
        match self {
            Direction::Up => Direction::Left,
            Direction::Left => Direction::Down,
            Direction::Down => Direction::Right,
            Direction::Right => Direction::Up,
        }
    }

    /// Picks the direction for a uniform roll in `0..4`.
    pub fn from_roll(roll: u32) -> (r: Direction)
        ensures
            r == Direction::of_roll(roll),
    {
        match roll {
            0 => Direction::Up,
            1 => Direction::Left,
            2 => Direction::Down,
            _ => Direction::Right,
        }
    }

    /// The outward unit vector of this direction, as `(x, y)` with y upwards.
    pub fn to_vector(self) -> (r: (i32, i32))
        ensures
            r.0 == self.vector().0,
            r.1 == self.vector().1,
    {
        match self {
            Direction::Up => (0, 1),
            Direction::Left => (-1, 0),
            Direction::Down => (0, -1),
            Direction::Right => (1, 0),
        }
    }
}

/// A quarter turn clockwise and one counter-clockwise undo each other, in
/// either order, and four quarter turns clockwise come back to the start.
pub proof fn lemma_rotation_inverse(d: Direction)
    ensures
        d.cw().ccw() == d,
        d.ccw().cw() == d,
        d.cw().cw().cw().cw() == d,
{
}

/// Turning a direction a quarter clockwise turns its vector a quarter
/// clockwise: `(x, y)` becomes `(y, -x)`.
pub proof fn lemma_vector_turns_with_direction(d: Direction)
    ensures
        d.cw().vector() == (d.vector().1, -d.vector().0),
{
}

} // verus!
