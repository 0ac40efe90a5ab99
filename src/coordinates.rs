use vstd::prelude::*;

use crate::direction::Direction;
use crate::orientation::Orientation;
use crate::{HALF_EXTENT, N, NUM_CELLS};

verus! {

/// A cell of the grid, or a displacement between cells. Cells of the grid have
/// both components in `-HALF_EXTENT..=HALF_EXTENT`; derived values (a step off
/// the edge, a difference of two cells) may lie outside.
#[derive(PartialEq, Eq, PartialOrd, Ord, Debug, Clone, Copy, Structural)]
pub struct Coordinate {
    pub x: i8,
    pub y: i8,
}

pub open spec fn abs(v: int) -> int {
    if v < 0 {
        -v
    } else {
        v
    }
}

pub open spec fn sign(v: int) -> int {
    if v > 0 {
        1
    } else if v < 0 {
        -1
    } else {
        0
    }
}

/// The cell with row-major index `i`, counted from the corner (-HALF_EXTENT, -HALF_EXTENT).
pub open spec fn cell_of_index(i: int) -> Coordinate {
    Coordinate { x: (i % (N as int) - HALF_EXTENT) as i8, y: (i / (N as int) - HALF_EXTENT) as i8 }
}

impl Coordinate {
    pub open spec fn in_grid(self) -> bool {
        -HALF_EXTENT <= self.x <= HALF_EXTENT && -HALF_EXTENT <= self.y <= HALF_EXTENT
    }

    /// Row-major index of a cell of the grid.
    pub open spec fn cell_index(self) -> int {
        (self.y + HALF_EXTENT) * (N as int) + (self.x + HALF_EXTENT)
    }

    /// Both components strictly inside the range of `i8`, so that a unit step
    /// or a negation cannot overflow.
    pub open spec fn steppable(self) -> bool {
        i8::MIN < self.x < i8::MAX && i8::MIN < self.y < i8::MAX
    }

    /// Taxicab distance.
    pub open spec fn manhattan(self, other: Coordinate) -> int {
        abs(self.x - other.x) + abs(self.y - other.y)
    }

    /// A quarter turn clockwise: (x, y) to (y, -x).
    pub open spec fn turned_right(self) -> Coordinate {
        Coordinate { x: self.y, y: (-self.x) as i8 }
    }

    /// `self` turned clockwise by the quarter turns that `d` stands for.
    pub open spec fn turned(self, d: Direction) -> Coordinate {
        match d {
            Direction::Front => self,
            Direction::Right => self.turned_right(),
            Direction::Back => self.turned_right().turned_right(),
            Direction::Left => self.turned_right().turned_right().turned_right(),
        }
    }

    /// One unit step in the fixed frame, where Front is north (y - 1).
    pub open spec fn step(self, d: Direction) -> Coordinate {
        match d {
            Direction::Front => Coordinate { x: self.x, y: (self.y - 1) as i8 },
            Direction::Right => Coordinate { x: (self.x + 1) as i8, y: self.y },
            Direction::Back => Coordinate { x: self.x, y: (self.y + 1) as i8 },
            Direction::Left => Coordinate { x: (self.x - 1) as i8, y: self.y },
        }
    }

    /// The fixed-frame direction of a move `d` made while heading `o`.
    pub open spec fn frame_direction(d: Direction, o: Orientation) -> Direction {
        Direction::from_quarter_turns(d.quarter_turns() + o.value())
    }

    /// The turn that maps a vector seen from heading `o` into the fixed frame.
    pub open spec fn north_turn(o: Orientation) -> Direction {
        Direction::from_quarter_turns(0 - o.value())
    }

    pub open spec fn is_corner_spec(self) -> bool {
        abs(self.x as int) == HALF_EXTENT && abs(self.y as int) == HALF_EXTENT
    }

    /// The unit step along the dominant axis; ties go to the vertical axis,
    /// and (0, 0) stays (0, 0).
    pub open spec fn unit(self) -> Coordinate {
        if abs(self.x as int) > abs(self.y as int) {
            Coordinate { x: sign(self.x as int) as i8, y: 0 }
        } else {
            Coordinate { x: 0, y: sign(self.y as int) as i8 }
        }
    }

    pub open spec fn plus(self, rhs: Coordinate) -> Coordinate {
        Coordinate { x: (self.x + rhs.x) as i8, y: (self.y + rhs.y) as i8 }
    }

    pub open spec fn minus(self, rhs: Coordinate) -> Coordinate {
        Coordinate { x: (self.x - rhs.x) as i8, y: (self.y - rhs.y) as i8 }
    }

    pub open spec fn negated(self) -> Coordinate {
        Coordinate { x: (-self.x) as i8, y: (-self.y) as i8 }
    }

    /// The sum fits in `i8` on both axes.
    pub open spec fn can_add(self, rhs: Coordinate) -> bool {
        i8::MIN <= self.x + rhs.x <= i8::MAX && i8::MIN <= self.y + rhs.y <= i8::MAX
    }

    /// The difference fits in `i8` on both axes.
    pub open spec fn can_sub(self, rhs: Coordinate) -> bool {
        i8::MIN <= self.x - rhs.x <= i8::MAX && i8::MIN <= self.y - rhs.y <= i8::MAX
    }

    pub fn new(x: i8, y: i8) -> (r: Self)
        requires
            -HALF_EXTENT <= x <= HALF_EXTENT,
            -HALF_EXTENT <= y <= HALF_EXTENT,
        ensures
            r == (Coordinate { x, y }),
            r.in_grid(),
    {
        Coordinate { x, y }
    }

    pub fn from_index(index: usize) -> (r: Option<Self>)
        ensures
            r.is_some() <==> index < NUM_CELLS,
            r matches Some(c) ==> c == cell_of_index(index as int) && c.in_grid() && c.cell_index()
                == index,
    {
        if index < NUM_CELLS {
            let center: i32 = HALF_EXTENT as i32;
            let row: i32 = (index / N) as i32;
            let col: i32 = (index % N) as i32;
            let x: i32 = col - center;
            let y: i32 = row - center;
            Some(Coordinate { x: x as i8, y: y as i8 })
        } else {
            None
        }
    }

    pub fn to_index(&self) -> (r: Option<usize>)
        ensures
            r.is_some() <==> self.in_grid(),
            r matches Some(i) ==> i == self.cell_index() && i < NUM_CELLS,
    {
        let center: i32 = HALF_EXTENT as i32;
        let row: i32 = center + self.y as i32;
        let col: i32 = center + self.x as i32;
        if row < N as i32 && col < N as i32 && row >= 0 && col >= 0 {
            Some(row as usize * N + col as usize)
        } else {
            None
        }
    }

    pub fn distance(&self, other: Coordinate) -> (r: i32)
        ensures
            r == self.manhattan(other),
    {
        let dx: i32 = self.x as i32 - other.x as i32;
        let dy: i32 = self.y as i32 - other.y as i32;
        let ax: i32 = if dx < 0 {
            -dx
        } else {
            dx
        };
        let ay: i32 = if dy < 0 {
            -dy
        } else {
            dy
        };
        ax + ay
    }

    pub fn rotate_right(&self) -> (r: Coordinate)
        requires
            self.x > i8::MIN,
        ensures
            r == self.turned_right(),
    {
        Coordinate { x: self.y, y: -self.x }
    }

    pub fn rotate(&self, direction: Direction) -> (r: Coordinate)
        requires
            self.x > i8::MIN,
            self.y > i8::MIN,
        ensures
            r == self.turned(direction),
    {
        match direction {
            Direction::Front => *self,
            Direction::Right => self.rotate_right(),
            Direction::Back => self.rotate_right().rotate_right(),
            Direction::Left => self.rotate_right().rotate_right().rotate_right(),
        }
    }

    pub fn in_direction_relative_to_north(&self, direction: Direction) -> (r: Coordinate)
        requires
            self.steppable(),
        ensures
            r == self.step(direction),
    {
        match direction {
            Direction::Front => Coordinate { x: self.x, y: self.y - 1 },
            Direction::Right => Coordinate { x: self.x + 1, y: self.y },
            Direction::Back => Coordinate { x: self.x, y: self.y + 1 },
            Direction::Left => Coordinate { x: self.x - 1, y: self.y },
        }
    }

    /// The neighbouring cell reached by a move `direction` made while heading
    /// `orientation`.
    pub fn in_direction(&self, direction: Direction, orientation: Orientation) -> (r: Coordinate)
        requires
            self.steppable(),
        ensures
            r == self.step(Self::frame_direction(direction, orientation)),
    {
        match (direction, orientation) {
            (Direction::Front, Orientation::North) => self.in_direction_relative_to_north(Direction::Front),
            (Direction::Right, Orientation::North) => self.in_direction_relative_to_north(Direction::Right),
            (Direction::Back, Orientation::North) => self.in_direction_relative_to_north(Direction::Back),
            (Direction::Left, Orientation::North) => self.in_direction_relative_to_north(Direction::Left),

            (Direction::Front, Orientation::East) => self.in_direction_relative_to_north(Direction::Right),
            (Direction::Right, Orientation::East) => self.in_direction_relative_to_north(Direction::Back),
            (Direction::Back, Orientation::East) => self.in_direction_relative_to_north(Direction::Left),
            (Direction::Left, Orientation::East) => self.in_direction_relative_to_north(Direction::Front),

            (Direction::Front, Orientation::South) => self.in_direction_relative_to_north(Direction::Back),
            (Direction::Right, Orientation::South) => self.in_direction_relative_to_north(Direction::Left),
            (Direction::Back, Orientation::South) => self.in_direction_relative_to_north(Direction::Front),
            (Direction::Left, Orientation::South) => self.in_direction_relative_to_north(Direction::Right),

            (Direction::Front, Orientation::West) => self.in_direction_relative_to_north(Direction::Left),
            (Direction::Right, Orientation::West) => self.in_direction_relative_to_north(Direction::Front),
            (Direction::Back, Orientation::West) => self.in_direction_relative_to_north(Direction::Right),
            (Direction::Left, Orientation::West) => self.in_direction_relative_to_north(Direction::Back),
        }
    }

    /// Maps a vector seen from heading `orientation` (Front is -y) into the
    /// fixed north-up frame.
    pub fn orientate_north(&self, orientation: Orientation) -> (r: Coordinate)
        requires
            self.x > i8::MIN,
            self.y > i8::MIN,
        ensures
            r == self.turned(Self::north_turn(orientation)),
    {
        self.rotate(Orientation::North.direction_relative_to(orientation))
    }

    pub fn is_corner(&self) -> (r: bool)
        ensures
            r == self.is_corner_spec(),
    {
        (self.x == -HALF_EXTENT && self.y == -HALF_EXTENT) || (self.x == -HALF_EXTENT && self.y
            == HALF_EXTENT) || (self.x == HALF_EXTENT && self.y == -HALF_EXTENT) || (self.x
            == HALF_EXTENT && self.y == HALF_EXTENT)
    }

    pub fn normalized(&self) -> (r: Coordinate)
        ensures
            r == self.unit(),
    {
        let ax: i16 = if self.x < 0 {
            -(self.x as i16)
        } else {
            self.x as i16
        };
        let ay: i16 = if self.y < 0 {
            -(self.y as i16)
        } else {
            self.y as i16
        };
        if ax > ay {
            if self.x > 0 {
                Coordinate { x: 1, y: 0 }
            } else {
                Coordinate { x: -1, y: 0 }
            }
        } else {
            if self.y > 0 {
                Coordinate { x: 0, y: 1 }
            } else if self.y < 0 {
                Coordinate { x: 0, y: -1 }
            } else {
                Coordinate { x: 0, y: 0 }
            }
        }
    }
}

impl core::ops::Add for Coordinate {
    type Output = Self;

    fn add(self, rhs: Self) -> (r: Self::Output) {
        Coordinate { x: self.x + rhs.x, y: self.y + rhs.y }
    }
}

impl vstd::std_specs::ops::AddSpecImpl for Coordinate {
    open spec fn obeys_add_spec() -> bool {
        true
    }

    open spec fn add_req(self, rhs: Coordinate) -> bool {
        self.can_add(rhs)
    }

    open spec fn add_spec(self, rhs: Coordinate) -> Coordinate {
        self.plus(rhs)
    }
}

impl core::ops::Neg for Coordinate {
    type Output = Self;

    fn neg(self) -> (r: Self::Output) {
        Coordinate { x: -self.x, y: -self.y }
    }
}

impl vstd::std_specs::ops::NegSpecImpl for Coordinate {
    open spec fn obeys_neg_spec() -> bool {
        true
    }

    open spec fn neg_req(self) -> bool {
        self.x > i8::MIN && self.y > i8::MIN
    }

    open spec fn neg_spec(self) -> Coordinate {
        self.negated()
    }
}

impl core::ops::Sub for Coordinate {
    type Output = Self;

    fn sub(self, rhs: Self) -> (r: Self::Output) {
        Coordinate { x: self.x - rhs.x, y: self.y - rhs.y }
    }
}

impl vstd::std_specs::ops::SubSpecImpl for Coordinate {
    open spec fn obeys_sub_spec() -> bool {
        true
    }

    open spec fn sub_req(self, rhs: Coordinate) -> bool {
        self.can_sub(rhs)
    }

    open spec fn sub_spec(self, rhs: Coordinate) -> Coordinate {
        self.minus(rhs)
    }
}

/// Converting a cell of the grid to its index and back gives the cell again.
pub proof fn lemma_index_round_trip(c: Coordinate)
    requires
        c.in_grid(),
    ensures
        0 <= c.cell_index() < NUM_CELLS,
        cell_of_index(c.cell_index()) == c,
{
}

/// Indices `0..N * N` name the cells of the grid in row-major order, starting
/// at the corner (-HALF_EXTENT, -HALF_EXTENT): each index names a cell whose
/// index it is, and the next index names the cell to the right, or the first
/// cell of the next row at the end of a row.
pub proof fn lemma_row_major_order(i: int)
    requires
        0 <= i < NUM_CELLS,
    ensures
        cell_of_index(i).in_grid(),
        cell_of_index(i).cell_index() == i,
        cell_of_index(0) == (Coordinate { x: (-HALF_EXTENT) as i8, y: (-HALF_EXTENT) as i8 }),
        i + 1 < NUM_CELLS && cell_of_index(i).x < HALF_EXTENT ==> cell_of_index(i + 1) == (
        Coordinate { x: (cell_of_index(i).x + 1) as i8, y: cell_of_index(i).y }),
        i + 1 < NUM_CELLS && cell_of_index(i).x == HALF_EXTENT ==> cell_of_index(i + 1) == (
        Coordinate { x: (-HALF_EXTENT) as i8, y: (cell_of_index(i).y + 1) as i8 }),
{
}

/// Distance is symmetric, and every coordinate is at distance 0 from itself.
pub proof fn lemma_distance_symmetric(a: Coordinate, b: Coordinate)
    ensures
        a.manhattan(b) == b.manhattan(a),
        a.manhattan(a) == 0,
{
}

/// Four quarter turns to the right give the coordinate back.
pub proof fn lemma_rotate_right_four_times(c: Coordinate)
    requires
        c.x > i8::MIN,
        c.y > i8::MIN,
    ensures
        c.turned_right().turned_right().turned_right().turned_right() == c,
{
}

/// The table of moves is consistent: a step Back undoes a step Front under
/// every heading, and every move made while heading `o` is the fixed-frame
/// step of that move turned into the fixed frame by `orientate_north`.
pub proof fn lemma_move_table_consistent(c: Coordinate, d: Direction, o: Orientation)
    requires
        c.steppable(),
    ensures
        c.step(Coordinate::frame_direction(Direction::Front, o)).step(
            Coordinate::frame_direction(Direction::Back, o),
        ) == c,
        c.step(Coordinate::frame_direction(d, o)) == c.plus(
            Coordinate { x: 0, y: 0 }.step(d).turned(Coordinate::north_turn(o)),
        ),
{
}

} // verus!
