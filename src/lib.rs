//! Onboard decision core of a robot that evades hostile agents on a bounded
//! square grid: grid geometry, heading arithmetic, a static obstacle mask, an
//! identity-keyed enemy roster, one-step enemy prediction with wall bounce and
//! a greedy move selector.
use vstd::prelude::*;

pub mod borders;
pub mod coordinates;
pub mod direction;
pub mod enemy_position;
pub mod enemy_position_prediction;
pub mod greedy_next_move;
pub mod orientation;
pub mod robot_position;
pub mod threat_map;

verus! {

/// Side length of the square grid (odd).
pub const N: usize = 9;

/// Capacity of an enemy roster.
pub const MAX_NUM_ENEMIES: usize = 10;

/// Largest absolute value of a coordinate component inside the grid.
pub const HALF_EXTENT: i8 = (N / 2) as i8;

/// Number of cells of the grid.
pub const NUM_CELLS: usize = N * N;

} // verus!
