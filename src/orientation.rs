use vstd::prelude::*;

use crate::direction::Direction;

verus! {

/// Absolute heading on the grid.
#[derive(Debug, PartialEq, Eq, Clone, Copy, Structural)]
pub enum Orientation {
    North,
    South,
    East,
    West,
}

impl Orientation {
    /// Position of the heading in the clockwise order North, East, South, West.
    pub open spec fn value(self) -> int {
        match self {
            Orientation::North => 0,
            Orientation::East => 1,
            Orientation::South => 2,
            Orientation::West => 3,
        }
    }

    pub fn integer_value(&self) -> (r: i32)
        ensures
            r == self.value(),
    {
        match self {
            Self::North => 0,
            Self::East => 1,
            Self::South => 2,
            Self::West => 3,
        }
    }

    pub fn from_integer(i: i32) -> (r: Option<Self>)
        ensures
            r.is_some() <==> 0 <= i < 4,
            r matches Some(o) ==> o.value() == i,
    {
        match i {
            0 => Some(Self::North),
            1 => Some(Self::East),
            2 => Some(Self::South),
            3 => Some(Self::West),
            _ => None,
        }
    }

    /// The turn that leads from heading `other` to heading `self`.
    pub fn direction_relative_to(&self, other: Orientation) -> (r: Direction)
        ensures
            r == Direction::from_quarter_turns(self.value() - other.value()),
    {
        let diff: i32 = self.integer_value() - other.integer_value();
        match diff {
            3 => Direction::Left,
            2 => Direction::Back,
            1 => Direction::Right,
            0 => Direction::Front,
            -1 => Direction::Left,
            -2 => Direction::Back,
            _ => Direction::Right,
        }
    }

    pub fn rotated_right(&self) -> (r: Orientation)
        ensures
            r.value() == (self.value() + 1) % 4,
    {
        match self {
            Orientation::North => Orientation::East,
            Orientation::East => Orientation::South,
            Orientation::South => Orientation::West,
            Orientation::West => Orientation::North,
        }
    }

    pub fn rotated_left(&self) -> (r: Orientation)
        ensures
            r.value() == (self.value() + 3) % 4,
    {
        match self {
            Orientation::North => Orientation::West,
            Orientation::East => Orientation::North,
            Orientation::South => Orientation::East,
            Orientation::West => Orientation::South,
        }
    }
}

} // verus!
