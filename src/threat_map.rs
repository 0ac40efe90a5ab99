use vstd::prelude::*;

use crate::coordinates::{cell_of_index, Coordinate};
use crate::enemy_position::{lemma_first_index_bounds, EnemyPosition, EnemyPositions};
use crate::{MAX_NUM_ENEMIES, NUM_CELLS};

verus! {

/// Smallest distance from `c` to a coordinate of `s`; `i32::MAX` when `s` is empty.
pub open spec fn min_distance_to(s: Seq<Coordinate>, c: Coordinate) -> int
    decreases s.len(),
{
    if s.len() == 0 {
        i32::MAX as int
    } else {
        let rest = min_distance_to(s.drop_last(), c);
        let last = c.manhattan(s.last());
        if last < rest {
            last
        } else {
            rest
        }
    }
}

/// Where an enemy of the current roster is expected: one more step of the
/// same displacement when it was seen before and that step brings it closer
/// to the origin; otherwise where it is.
pub open spec fn expected_position(current: EnemyPosition, previous: EnemyPositions) -> Coordinate {
    let p = current.position;
    let zero = Coordinate { x: 0, y: 0 };
    match previous.position_of(current.id) {
        Some(old) => {
            let f = p.plus(p).minus(old);
            if f.manhattan(zero) < p.manhattan(zero) {
                f
            } else {
                p
            }
        },
        None => p,
    }
}

/// The expected positions of all enemies of `current`.
pub open spec fn expected_positions(current: EnemyPositions, previous: EnemyPositions) -> Seq<
    Coordinate,
> {
    Seq::new(current@.len(), |i: int| expected_position(current@[i], previous))
}

/// Per cell of the grid, the distance to the nearest threat.
pub struct ThreatMap {
    map: [i32; NUM_CELLS],
}

impl View for ThreatMap {
    /// One value per cell, in row-major order.
    type V = Seq<i32>;

    closed spec fn view(&self) -> Seq<i32> {
        self.map@
    }
}

impl ThreatMap {
    /// Every cell holds the distance from it to the nearest coordinate of `s`.
    pub open spec fn holds_distances_to(self, s: Seq<Coordinate>) -> bool {
        &&& self@.len() == NUM_CELLS
        &&& forall|i: int|
            0 <= i < NUM_CELLS ==> #[trigger] self@[i] == min_distance_to(s, cell_of_index(i))
    }

    pub fn new() -> (r: Self)
        ensures
            r@.len() == NUM_CELLS,
            forall|i: int| 0 <= i < NUM_CELLS ==> #[trigger] r@[i] == i32::MAX,
    {
        ThreatMap { map: [i32::MAX; 81] }
    }

    fn reset(&mut self)
        ensures
            final(self)@.len() == NUM_CELLS,
            forall|i: int| 0 <= i < NUM_CELLS ==> #[trigger] final(self)@[i] == i32::MAX,
    {
        self.map = [i32::MAX; 81];
    }

    /// The value of the cell `coords`; 0 outside the grid.
    pub fn at(&self, coords: Coordinate) -> (r: i32)
        ensures
            r == if coords.in_grid() {
                self@[coords.cell_index()]
            } else {
                0
            },
    {
        match coords.to_index() {
            Some(i) => self.map[i],
            None => 0,
        }
    }

    /// Fills every cell with its distance to the nearest of `bot_coords`.
    pub fn calculate(&mut self, bot_coords: &[Coordinate])
        ensures
            final(self).holds_distances_to(bot_coords@),
    {
        self.reset();
        let mut index: usize = 0;
        while index < NUM_CELLS
            invariant
                index <= NUM_CELLS,
                self@.len() == NUM_CELLS,
                forall|i: int|
                    0 <= i < index ==> #[trigger] self@[i] == min_distance_to(
                        bot_coords@,
                        cell_of_index(i),
                    ),
                forall|i: int| index <= i < NUM_CELLS ==> #[trigger] self@[i] == i32::MAX,
            decreases NUM_CELLS - index,
        {
            let current_coord = Coordinate::from_index(index).unwrap();
            let mut k: usize = 0;
            assert(bot_coords@.subrange(0, 0) =~= Seq::<Coordinate>::empty());
            while k < bot_coords.len()
                invariant
                    index < NUM_CELLS,
                    k <= bot_coords@.len(),
                    current_coord == cell_of_index(index as int),
                    self@.len() == NUM_CELLS,
                    forall|i: int|
                        0 <= i < index ==> #[trigger] self@[i] == min_distance_to(
                            bot_coords@,
                            cell_of_index(i),
                        ),
                    forall|i: int| index < i < NUM_CELLS ==> #[trigger] self@[i] == i32::MAX,
                    self@[index as int] == min_distance_to(
                        bot_coords@.subrange(0, k as int),
                        current_coord,
                    ),
                decreases bot_coords@.len() - k,
            {
                assert(bot_coords@.subrange(0, k + 1).drop_last() =~= bot_coords@.subrange(
                    0,
                    k as int,
                ));
                let distance = current_coord.distance(bot_coords[k]);
                if distance < self.map[index] {
                    self.map[index] = distance;
                }
                k = k + 1;
            }
            assert(bot_coords@.subrange(0, bot_coords@.len() as int) =~= bot_coords@);
            index = index + 1;
        }
    }

    /// Fills every cell with its distance to the nearest expected enemy
    /// position (see `expected_position`).
    pub fn calculate_with_previous_location(
        &mut self,
        current_enemy_positions: &EnemyPositions,
        previous_enemy_positions: &EnemyPositions,
    )
        requires
            current_enemy_positions.wf(),
            previous_enemy_positions.wf(),
        ensures
            final(self).holds_distances_to(
                expected_positions(*current_enemy_positions, *previous_enemy_positions),
            ),
    {
        let mut future_enemy_positions = [Coordinate { x: 0, y: 0 }; 10];
        let mut future_enemy_count: usize = 0;
        let current = current_enemy_positions.iter();
        let ghost goal = expected_positions(*current_enemy_positions, *previous_enemy_positions);
        let zero = Coordinate { x: 0, y: 0 };
        while future_enemy_count < current.len()
            invariant
                current@ == current_enemy_positions@,
                current@.len() <= MAX_NUM_ENEMIES,
                future_enemy_count <= current@.len(),
                current_enemy_positions.wf(),
                previous_enemy_positions.wf(),
                zero == (Coordinate { x: 0, y: 0 }),
                goal == expected_positions(*current_enemy_positions, *previous_enemy_positions),
                forall|j: int|
                    0 <= j < future_enemy_count ==> #[trigger] future_enemy_positions@[j]
                        == goal[j],
            decreases current@.len() - future_enemy_count,
        {
            let current_position = current[future_enemy_count];
            proof {
                lemma_first_index_bounds(previous_enemy_positions@, current_position.id);
            }
            let p = current_position.position;
            let expected = match previous_enemy_positions.get_position_of(current_position.id) {
                Some(previous_position) => {
                    let future_position = p + p - previous_position;
                    // take the worst case: the one closer to the robot
                    if future_position.distance(zero) < p.distance(zero) {
                        future_position
                    } else {
                        p
                    }
                },
                None => p,
            };
            future_enemy_positions[future_enemy_count] = expected;
            future_enemy_count = future_enemy_count + 1;
        }
        let expected = vstd::slice::slice_subrange(
            future_enemy_positions.as_slice(),
            0,
            future_enemy_count,
        );
        assert(expected@ =~= goal);
        self.calculate(expected);
    }

    /// Marks the cell `border_coord` as a threat itself; no effect outside the grid.
    pub fn mask_border(&mut self, border_coord: Coordinate)
        ensures
            final(self)@ == if border_coord.in_grid() {
                old(self)@.update(border_coord.cell_index(), 0)
            } else {
                old(self)@
            },
    {
        if let Some(index) = border_coord.to_index() {
            self.map[index] = 0;
        }
    }
}

} // verus!
