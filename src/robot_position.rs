use vstd::prelude::*;

use crate::coordinates::Coordinate;
use crate::direction::Direction;
use crate::orientation::Orientation;

verus! {

/// The robot's cell and heading.
#[derive(Debug, Clone, Copy)]
pub struct RobotPosition {
    pub position: Coordinate,
    pub orientation: Orientation,
}

impl RobotPosition {
    /// The cell that a move `direction` leads to from this pose.
    pub open spec fn target(self, direction: Direction) -> Coordinate {
        self.position.step(Coordinate::frame_direction(direction, self.orientation))
    }

    /// Front and Back move to the neighbouring cell in that direction and
    /// keep the heading; Right and Left turn on the spot.
    pub fn take_step(&mut self, step_direction: Direction)
        requires
            old(self).position.steppable(),
        ensures
            step_direction == Direction::Front || step_direction == Direction::Back ==> {
                &&& final(self).position == old(self).target(step_direction)
                &&& final(self).orientation == old(self).orientation
            },
            step_direction == Direction::Right ==> {
                &&& final(self).position == old(self).position
                &&& final(self).orientation.value() == (old(self).orientation.value() + 1) % 4
            },
            step_direction == Direction::Left ==> {
                &&& final(self).position == old(self).position
                &&& final(self).orientation.value() == (old(self).orientation.value() + 3) % 4
            },
    {
        match step_direction {
            Direction::Front => self.position = self.position.in_direction(Direction::Front, self.orientation),
            Direction::Right => self.orientation = self.orientation.rotated_right(),
            Direction::Back => self.position = self.position.in_direction(Direction::Back, self.orientation),
            Direction::Left => self.orientation = self.orientation.rotated_left(),
        }
    }

    /// The cell that a move `direction` leads to, without moving.
    pub fn in_direction(&self, direction: Direction) -> (r: Coordinate)
        requires
            self.position.steppable(),
        ensures
            r == self.target(direction),
    {
        self.position.in_direction(direction, self.orientation)
    }
}

} // verus!
