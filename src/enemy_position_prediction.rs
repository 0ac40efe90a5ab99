use vstd::prelude::*;

use core::ops::Neg;

use crate::borders::Borders;
use crate::coordinates::{abs, Coordinate};
use crate::enemy_position::{lemma_first_index_bounds, EnemyPosition, EnemyPositions};
use crate::{HALF_EXTENT, MAX_NUM_ENEMIES};

verus! {

/// A tracked enemy: where it is and the unit step it is assumed to take.
#[derive(Debug, Clone, Copy)]
pub struct Enemy {
    pub position: Coordinate,
    pub direction: Coordinate,
}

/// The velocity assumed for an enemy of the current roster: the unit step
/// from its previous position when it was seen before; otherwise none in a
/// corner, towards the centre on an edge, and none in the interior.
pub open spec fn initial_velocity(current: EnemyPosition, previous: EnemyPositions) -> Coordinate {
    let p = current.position;
    match previous.position_of(current.id) {
        Some(old) => p.minus(old).unit(),
        None => if p.is_corner_spec() {
            Coordinate { x: 0, y: 0 }
        } else if p.y == -HALF_EXTENT {
            Coordinate { x: 0, y: 1 }
        } else if p.y == HALF_EXTENT {
            Coordinate { x: 0, y: -1i8 }
        } else if p.x == -HALF_EXTENT {
            Coordinate { x: 1, y: 0 }
        } else if p.x == HALF_EXTENT {
            Coordinate { x: -1i8, y: 0 }
        } else {
            Coordinate { x: 0, y: 0 }
        },
    }
}

/// The enemies that a prediction built from `current` and `previous` tracks.
pub open spec fn predicted(current: EnemyPositions, previous: EnemyPositions) -> Seq<Enemy> {
    Seq::new(
        current@.len(),
        |i: int| Enemy { position: current@[i].position, direction: initial_velocity(current@[i], previous) },
    )
}

/// One step of an enemy: its velocity is reversed when the cell ahead is a
/// border, then the enemy moves by it.
pub open spec fn moved(e: Enemy, borders: Set<Coordinate>) -> Enemy {
    let d = if borders.contains(e.position.plus(e.direction)) {
        e.direction.negated()
    } else {
        e.direction
    };
    Enemy { position: e.position.plus(d), direction: d }
}

/// Smallest distance from `from` to an enemy of a non-empty `s`.
pub open spec fn nearest(s: Seq<Enemy>, from: Coordinate) -> int
    decreases s.len(),
{
    if s.len() <= 1 {
        s[0].position.manhattan(from)
    } else {
        let rest = nearest(s.drop_last(), from);
        let last = s.last().position.manhattan(from);
        if last < rest {
            last
        } else {
            rest
        }
    }
}

/// Distance from `from` to the nearest enemy of `s`, or 0 when `s` is empty.
pub open spec fn threat_distance(s: Seq<Enemy>, from: Coordinate) -> int {
    if s.len() == 0 {
        0
    } else {
        nearest(s, from)
    }
}

impl Enemy {
    /// A step of this enemy, or of its reversal, cannot overflow.
    pub open spec fn can_move(self) -> bool {
        &&& self.position.steppable()
        &&& abs(self.direction.x as int) <= 1
        &&& abs(self.direction.y as int) <= 1
    }
}

/// The enemies of one cycle, with their assumed velocities and the borders
/// they bounce on.
pub struct EnemyPositionPrediction {
    future_positions_mem: [Enemy; MAX_NUM_ENEMIES],
    future_positions_count: usize,
    borders: Borders,
}

impl View for EnemyPositionPrediction {
    /// The tracked enemies.
    type V = Seq<Enemy>;

    closed spec fn view(&self) -> Seq<Enemy> {
        self.future_positions_mem@.subrange(0, self.future_positions_count as int)
    }
}

impl EnemyPositionPrediction {
    /// The borders the enemies bounce on.
    pub closed spec fn borders(self) -> Borders {
        self.borders
    }

    /// The count fits the storage.
    pub closed spec fn inv(self) -> bool {
        self.future_positions_count <= MAX_NUM_ENEMIES
    }

    pub open spec fn wf(self) -> bool {
        self.inv() && self@.len() <= MAX_NUM_ENEMIES
    }

    /// Every tracked enemy can take its next step without overflow.
    pub open spec fn can_move(self) -> bool {
        forall|i: int| 0 <= i < self@.len() ==> (#[trigger] self@[i]).can_move()
    }

    pub fn empty() -> (r: Self)
        ensures
            r.wf(),
            r@ == Seq::<Enemy>::empty(),
            r.borders()@ == Set::<Coordinate>::empty(),
    {
        let still = Enemy { position: Coordinate { x: 0, y: 0 }, direction: Coordinate { x: 0, y: 0 } };
        let r = EnemyPositionPrediction {
            future_positions_mem: [still; 10],
            future_positions_count: 0,
            borders: Borders::new(),
        };
        assert(r@ =~= Seq::<Enemy>::empty());
        r
    }

    /// Tracks every enemy of `current_positions`, with the velocity that
    /// `initial_velocity` assigns from `previous_positions`.
    pub fn new(
        current_positions: &EnemyPositions,
        previous_positions: &EnemyPositions,
        borders: Borders,
    ) -> (r: Self)
        requires
            current_positions.wf(),
            previous_positions.wf(),
        ensures
            r.wf(),
            r.can_move(),
            r@ == predicted(*current_positions, *previous_positions),
            r.borders() == borders,
    {
        let still = Enemy { position: Coordinate { x: 0, y: 0 }, direction: Coordinate { x: 0, y: 0 } };
        let mut future_positions = [still; 10];
        let mut future_positions_count: usize = 0;
        let current = current_positions.iter();
        let ghost goal = predicted(*current_positions, *previous_positions);
        while future_positions_count < current.len()
            invariant
                current@ == current_positions@,
                current@.len() <= MAX_NUM_ENEMIES,
                future_positions_count <= current@.len(),
                current_positions.wf(),
                previous_positions.wf(),
                goal == predicted(*current_positions, *previous_positions),
                forall|j: int|
                    0 <= j < future_positions_count ==> #[trigger] future_positions@[j] == goal[j],
            decreases current@.len() - future_positions_count,
        {
            let curr_e = current[future_positions_count];
            let p = curr_e.position;
            proof {
                lemma_first_index_bounds(previous_positions@, curr_e.id);
            }
            let direction = match previous_positions.get_position_of(curr_e.id) {
                Some(prev_e_position) => (p - prev_e_position).normalized(),
                None => if p.is_corner() {
                    // enemies in a corner are assumed to stand still
                    Coordinate { x: 0, y: 0 }
                } else if p.y == -HALF_EXTENT {
                    // enemies on an edge are assumed to head for the centre
                    Coordinate { x: 0, y: 1 }
                } else if p.y == HALF_EXTENT {
                    Coordinate { x: 0, y: -1 }
                } else if p.x == -HALF_EXTENT {
                    Coordinate { x: 1, y: 0 }
                } else if p.x == HALF_EXTENT {
                    Coordinate { x: -1, y: 0 }
                } else {
                    Coordinate { x: 0, y: 0 }
                },
            };
            future_positions[future_positions_count] = Enemy { position: p, direction };
            future_positions_count = future_positions_count + 1;
        }
        let r = EnemyPositionPrediction {
            future_positions_mem: future_positions,
            future_positions_count,
            borders,
        };
        assert(r@ =~= goal);
        r
    }

    fn future_positions(&self) -> (r: &[Enemy])
        requires
            self.wf(),
        ensures
            r@ == self@,
    {
        vstd::slice::slice_subrange(self.future_positions_mem.as_slice(), 0, self.future_positions_count)
    }

    /// Advances every tracked enemy by one step, bouncing off borders.
    pub fn move_enemies(&mut self)
        requires
            old(self).wf(),
            old(self).can_move(),
        ensures
            final(self).wf(),
            final(self).borders() == old(self).borders(),
            final(self)@ == old(self)@.map_values(|e: Enemy| moved(e, old(self).borders()@)),
    {
        let count = self.future_positions_count;
        let mut i: usize = 0;
        while i < count
            invariant
                count == self.future_positions_count,
                count == old(self).future_positions_count,
                count <= MAX_NUM_ENEMIES,
                i <= count,
                self.borders == old(self).borders,
                old(self).can_move(),
                forall|j: int|
                    0 <= j < i ==> #[trigger] self.future_positions_mem@[j] == moved(
                        old(self).future_positions_mem@[j],
                        old(self).borders()@,
                    ),
                forall|j: int|
                    i <= j < count ==> #[trigger] self.future_positions_mem@[j]
                        == old(self).future_positions_mem@[j],
            decreases count - i,
        {
            let enemy = self.future_positions_mem[i];
            // the enemy still holds its value from before the call
            assert(old(self)@[i as int] == old(self).future_positions_mem@[i as int]);
            // enemies bounce on borders
            let direction = if self.borders.is_border(enemy.position + enemy.direction) {
                enemy.direction.neg()
            } else {
                enemy.direction
            };
            self.future_positions_mem[i] = Enemy { position: enemy.position + direction, direction };
            i = i + 1;
        }
        assert(self@ =~= old(self)@.map_values(|e: Enemy| moved(e, old(self).borders()@)));
    }

    /// Distance from `from` to the nearest tracked enemy; 0 when none is tracked.
    pub fn min_distance_from(&self, from: Coordinate) -> (r: i32)
        requires
            self.wf(),
        ensures
            r == threat_distance(self@, from),
    {
        let enemies = self.future_positions();
        if enemies.len() == 0 {
            return 0;
        }
        let mut best: i32 = enemies[0].position.distance(from);
        let mut i: usize = 1;
        assert(enemies@.subrange(0, 1).len() == 1);
        while i < enemies.len()
            invariant
                1 <= i <= enemies@.len(),
                best == nearest(enemies@.subrange(0, i as int), from),
            decreases enemies@.len() - i,
        {
            assert(enemies@.subrange(0, i + 1).drop_last() =~= enemies@.subrange(0, i as int));
            let d = enemies[i].position.distance(from);
            if d < best {
                best = d;
            }
            i = i + 1;
        }
        assert(enemies@.subrange(0, enemies@.len() as int) =~= enemies@);
        best
    }
}

/// Both components strictly between the grid's edges.
pub open spec fn strictly_inside(c: Coordinate) -> bool {
    abs(c.x as int) < HALF_EXTENT && abs(c.y as int) < HALF_EXTENT
}

/// On the grid's outermost ring of cells.
pub open spec fn on_edge(c: Coordinate) -> bool {
    c.in_grid() && (abs(c.x as int) == HALF_EXTENT || abs(c.y as int) == HALF_EXTENT)
}

/// An enemy whose next cell is a border reverses its whole velocity on that
/// step and moves back by one unit step instead. When the border it heads for
/// lies on the grid's edge and the enemy starts strictly inside the grid, it
/// ends strictly inside the grid.
pub proof fn lemma_bounce(e: Enemy, borders: Borders)
    requires
        e.can_move(),
        abs(e.direction.x as int) + abs(e.direction.y as int) == 1,
        borders@.contains(e.position.plus(e.direction)),
    ensures
        moved(e, borders@).direction == e.direction.negated(),
        moved(e, borders@).position == e.position.minus(e.direction),
        strictly_inside(e.position) && on_edge(e.position.plus(e.direction)) ==> strictly_inside(
            moved(e, borders@).position,
        ),
{
}

} // verus!
