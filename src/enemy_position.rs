use vstd::prelude::*;

use crate::coordinates::Coordinate;
use crate::MAX_NUM_ENEMIES;

verus! {

/// One detection: an enemy's identity and the cell it was seen on.
#[derive(Debug, Clone, Copy)]
pub struct EnemyPosition {
    pub id: u64,
    pub position: Coordinate,
}

impl EnemyPosition {
    pub fn new(id: u64, position: Coordinate) -> (r: Self)
        requires
            id != 0,
        ensures
            r.id == id,
            r.position == position,
    {
        Self { id, position }
    }
}

/// Index of the first entry of `s` with identity `id`, or -1 if there is none.
pub open spec fn first_index_of(s: Seq<EnemyPosition>, id: u64) -> int
    decreases s.len(),
{
    if s.len() == 0 {
        -1
    } else {
        let k = first_index_of(s.drop_last(), id);
        if k >= 0 {
            k
        } else if s.last().id == id {
            s.len() - 1
        } else {
            -1
        }
    }
}

/// Fixed-capacity roster of the enemies seen in one cycle, with an origin
/// that is subtracted from positions when they are read.
#[derive(Debug, Clone, Copy)]
pub struct EnemyPositions {
    enemy_positions: [EnemyPosition; MAX_NUM_ENEMIES],
    length: usize,
    origin: Coordinate,
}

impl View for EnemyPositions {
    /// The live entries, in the order they were pushed.
    type V = Seq<EnemyPosition>;

    closed spec fn view(&self) -> Seq<EnemyPosition> {
        self.enemy_positions@.subrange(0, self.length as int)
    }
}

impl EnemyPositions {
    /// The offset subtracted from positions on lookup.
    pub closed spec fn origin(self) -> Coordinate {
        self.origin
    }

    /// The length fits the storage.
    pub closed spec fn inv(self) -> bool {
        self.length <= MAX_NUM_ENEMIES
    }

    /// Well-formed: at most `MAX_NUM_ENEMIES` entries, every position and the
    /// origin on the grid.
    pub open spec fn wf(self) -> bool {
        &&& self.inv()
        &&& self@.len() <= MAX_NUM_ENEMIES
        &&& forall|i: int| 0 <= i < self@.len() ==> (#[trigger] self@[i]).position.in_grid()
        &&& self.origin().in_grid()
    }

    /// What `get_position_of(id)` returns: the first entry's position with
    /// identity `id`, minus the origin.
    pub open spec fn position_of(self, id: u64) -> Option<Coordinate> {
        let k = first_index_of(self@, id);
        if k < 0 {
            None
        } else {
            Some(self@[k].position.minus(self.origin()))
        }
    }

    pub fn new() -> (r: Self)
        ensures
            r.wf(),
            r@ == Seq::<EnemyPosition>::empty(),
            r.origin() == (Coordinate { x: 0, y: 0 }),
    {
        let filler = EnemyPosition { id: 1, position: Coordinate { x: 0, y: 0 } };
        let r = EnemyPositions {
            enemy_positions: [filler; 10],
            length: 0,
            origin: Coordinate { x: 0, y: 0 },
        };
        assert(r@ =~= Seq::<EnemyPosition>::empty());
        r
    }

    pub fn len(&self) -> (r: usize)
        requires
            self.wf(),
        ensures
            r == self@.len(),
    {
        self.length
    }

    /// Empties the roster, keeping the storage and the origin.
    pub fn clear(&mut self)
        requires
            old(self).wf(),
        ensures
            final(self).wf(),
            final(self)@ == Seq::<EnemyPosition>::empty(),
            final(self).origin() == old(self).origin(),
    {
        self.length = 0;
        assert(self@ =~= Seq::<EnemyPosition>::empty());
    }

    /// Appends an entry; a full roster drops it.
    pub fn push(&mut self, enemy_position: EnemyPosition)
        requires
            old(self).wf(),
            enemy_position.position.in_grid(),
        ensures
            final(self).wf(),
            final(self)@ == if old(self)@.len() < MAX_NUM_ENEMIES {
                old(self)@.push(enemy_position)
            } else {
                old(self)@
            },
            final(self).origin() == old(self).origin(),
    {
        if self.len() == MAX_NUM_ENEMIES {
            return;
        }
        let len = self.length;
        self.enemy_positions[len] = enemy_position;
        self.length = len + 1;
        assert(self@ =~= old(self)@.push(enemy_position));
    }

    pub fn use_origin(&mut self, origin: Coordinate)
        requires
            old(self).wf(),
            origin.in_grid(),
        ensures
            final(self).wf(),
            final(self)@ == old(self)@,
            final(self).origin() == origin,
    {
        self.origin = origin;
    }

    /// Position of the first live entry with identity `id`, relative to the
    /// origin, or `None` if no live entry has it.
    pub fn get_position_of(&self, id: u64) -> (r: Option<Coordinate>)
        requires
            self.wf(),
        ensures
            r == self.position_of(id),
    {
        let mut i: usize = 0;
        while i < self.length
            invariant
                self.wf(),
                i <= self.length,
                first_index_of(self@.subrange(0, i as int), id) == -1,
            decreases self.length - i,
        {
            assert(self@.subrange(0, i + 1).drop_last() =~= self@.subrange(0, i as int));
            if self.enemy_positions[i].id == id {
                proof {
                    assert(self@.subrange(0, i + 1).last() == self@[i as int]);
                    lemma_first_index_extends(self@, i + 1, id);
                }
                return Some(self.enemy_positions[i].position - self.origin);
            }
            i = i + 1;
        }
        assert(self@.subrange(0, self@.len() as int) =~= self@);
        None
    }

    /// The live entries, in the order they were pushed.
    pub fn iter(&self) -> (r: &[EnemyPosition])
        requires
            self.wf(),
        ensures
            r@ == self@,
    {
        let all = self.enemy_positions.as_slice();
        vstd::slice::slice_subrange(all, 0, self.length)
    }
}

/// The first match, when there is one, is an entry with that identity.
pub proof fn lemma_first_index_bounds(s: Seq<EnemyPosition>, id: u64)
    ensures
        -1 <= first_index_of(s, id) < s.len(),
        first_index_of(s, id) >= 0 ==> s[first_index_of(s, id)].id == id,
    decreases s.len(),
{
    if s.len() > 0 {
        lemma_first_index_bounds(s.drop_last(), id);
    }
}

/// Once the first match lies inside a prefix, it is the first match of every
/// longer prefix.
proof fn lemma_first_index_extends(s: Seq<EnemyPosition>, j: int, id: u64)
    requires
        0 <= j <= s.len(),
        first_index_of(s.subrange(0, j), id) >= 0,
    ensures
        first_index_of(s, id) == first_index_of(s.subrange(0, j), id),
    decreases s.len() - j,
{
    if j < s.len() {
        assert(s.subrange(0, j + 1).drop_last() =~= s.subrange(0, j));
        lemma_first_index_extends(s, j + 1, id);
    } else {
        assert(s.subrange(0, j) =~= s);
    }
}

} // verus!
