//! Cardinal camera and player headings, with quarter turns.

use vstd::prelude::*;

verus! {

/// One of the four cardinal headings. The renderer and the game step both
/// restrict movement and camera orientation to these.
#[derive(Clone, Copy, Debug, PartialEq, Eq, Structural)]
pub enum Direction {
    North,
    South,
    East,
    West,
}

impl Direction {
    /// The heading after a quarter turn counter-clockwise.
    pub open spec fn spec_left_turn(self) -> Direction {
        match self {
            Direction::North => Direction::West,
            Direction::West => Direction::South,
            Direction::South => Direction::East,
            Direction::East => Direction::North,
        }
    }

    /// The heading after a quarter turn clockwise.
    pub open spec fn spec_right_turn(self) -> Direction {
        match self {
            Direction::North => Direction::East,
            Direction::West => Direction::North,
            Direction::South => Direction::West,
            Direction::East => Direction::South,
        }
    }

    /// Quarter turn counter-clockwise.
    pub fn left_turn(&self) -> (r: Self)
        ensures
            r == self.spec_left_turn(),
    {
        match self {
            Direction::North => Direction::West,
            Direction::West => Direction::South,
            Direction::South => Direction::East,
            Direction::East => Direction::North,
        }
    }

    /// Quarter turn clockwise.
    pub fn right_turn(&self) -> (r: Self)
        ensures
            r == self.spec_right_turn(),
    {
        match self {
            Direction::North => Direction::East,
            Direction::West => Direction::North,
            Direction::South => Direction::West,
            Direction::East => Direction::South,
        }
    }
}

/// A left turn followed by a right turn is the identity, and so is the
/// reverse order; four turns in the same sense cycle back to the start.
pub proof fn lemma_turns_cancel(d: Direction)
    ensures
        d.spec_left_turn().spec_right_turn() == d,
        d.spec_right_turn().spec_left_turn() == d,
        d.spec_left_turn().spec_left_turn().spec_left_turn().spec_left_turn() == d,
        d.spec_right_turn().spec_right_turn().spec_right_turn().spec_right_turn() == d,
{
}

} // verus!
