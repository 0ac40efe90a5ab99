use vstd::prelude::*;

use crate::coordinates::Coordinate;
use crate::NUM_CELLS;

verus! {

/// Static obstacle mask over the grid, one flag per cell, stored in the
/// row-major order of `Coordinate::to_index`.
#[derive(Debug, Clone, Copy)]
pub struct Borders {
    borders: [bool; NUM_CELLS],
}

impl View for Borders {
    /// The cells of the grid that are marked as borders.
    type V = Set<Coordinate>;

    closed spec fn view(&self) -> Set<Coordinate> {
        Set::new(|c: Coordinate| c.in_grid() && self.borders@[c.cell_index()])
    }
}

impl Borders {
    /// A mask with no border.
    pub fn new() -> (r: Self)
        ensures
            r@ == Set::<Coordinate>::empty(),
    {
        let r = Borders { borders: [false; 81] };
        assert(r@ =~= Set::<Coordinate>::empty());
        r
    }

    /// Whether `coord` is a marked cell; a coordinate outside the grid never is.
    pub fn is_border(&self, coord: Coordinate) -> (r: bool)
        ensures
            r == self@.contains(coord),
    {
        match coord.to_index() {
            Some(i) => self.borders[i],
            None => false,
        }
    }

    /// Marks the cell `coord` as a border.
    pub fn set_border(&mut self, coord: Coordinate)
        requires
            coord.in_grid(),
        ensures
            final(self)@ == old(self)@.insert(coord),
    {
        let i: usize = coord.to_index().unwrap();
        self.borders[i] = true;
        assert(self@ =~= old(self)@.insert(coord));
    }
}

} // verus!
