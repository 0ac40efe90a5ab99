use vstd::prelude::*;

verus! {

/// A move intent relative to a frame: the robot's heading, or the grid's
/// fixed north-up frame.
#[derive(Debug, PartialEq, Eq, Clone, Copy, Structural)]
pub enum Direction {
    Front,
    Right,
    Back,
    Left,
}

impl Direction {
    /// Number of clockwise quarter turns this direction stands for.
    pub open spec fn quarter_turns(self) -> int {
        match self {
            Direction::Front => 0,
            Direction::Right => 1,
            Direction::Back => 2,
            Direction::Left => 3,
        }
    }

    /// The direction that stands for `k` clockwise quarter turns, `k` taken mod 4.
    pub open spec fn from_quarter_turns(k: int) -> Direction {
        let m = k % 4;
        if m == 0 {
            Direction::Front
        } else if m == 1 {
            Direction::Right
        } else if m == 2 {
            Direction::Back
        } else {
            Direction::Left
        }
    }
}

} // verus!
