//! The 40x40 occupancy grid shared by the renderer and the game step.

use vstd::prelude::*;

verus! {

/// Total number of cells: 40 rows of 40 cells, each 4x4 projection units.
pub const GRID_CELLS: usize = 1600;

/// A cell's row and column lie on the arena boundary.
pub open spec fn spec_is_border(row: int, col: int) -> bool {
    row == 0 || row == 39 || col == 0 || col == 39
}

/// Every cell of the sequence is either empty or carries a colour below 4,
/// the range a packed 2-bit pixel can hold.
pub open spec fn spec_cells_wf(cells: Seq<Option<u8>>) -> bool {
    &&& cells.len() == 1600
    &&& forall|i: int|
        0 <= i < 1600 ==> (#[trigger] cells[i] matches Some(c) ==> c < 4)
}

/// Every border cell is occupied: the arena boundary is a solid wall.
pub open spec fn spec_border_occupied(cells: Seq<Option<u8>>) -> bool {
    forall|row: int, col: int|
        0 <= row < 40 && 0 <= col < 40 && spec_is_border(row, col) ==> cells[40 * row + col] is Some
}

/// The fixed-size 2D occupancy grid: 1600 cells in row-major order, each
/// either empty or holding a small colour/owner identifier.
pub struct Grid {
    pub cells: Vec<Option<u8>>,
}

impl Grid {
    /// Cells in row-major order.
    pub open spec fn view(&self) -> Seq<Option<u8>> {
        self.cells@
    }

    /// Dimensions and colour range are respected.
    pub open spec fn wf(&self) -> bool {
        spec_cells_wf(self@)
    }

    /// The grid's border is fully occupied.
    pub open spec fn border_occupied(&self) -> bool {
        spec_border_occupied(self@)
    }

    /// An all-empty grid.
    pub fn new_empty() -> (g: Grid)
        ensures
            g.wf(),
            forall|i: int| 0 <= i < 1600 ==> g@[i] is None,
    {
        let mut cells: Vec<Option<u8>> = Vec::new();
        let mut i: usize = 0;
        while i < GRID_CELLS
            invariant
                i <= 1600,
                cells@.len() == i,
                forall|j: int| 0 <= j < i ==> cells@[j] is None,
            decreases 1600 - i,
        {
            cells.push(None);
            i = i + 1;
        }
        Grid { cells }
    }

    /// Read one cell; out-of-bounds indices are excluded by contract.
    pub fn cell_at(&self, row: usize, col: usize) -> (r: Option<u8>)
        requires
            self.wf(),
            row < 40,
            col < 40,
        ensures
            r == self@[40 * row + col],
    {
        self.cells[40 * row + col]
    }

    /// Occupy one cell with the given colour. Occupying a cell never clears
    /// another, so a solid border stays solid.
    pub fn set_cell(&mut self, row: usize, col: usize, colour: u8)
        requires
            old(self).wf(),
            row < 40,
            col < 40,
            colour < 4,
        ensures
            final(self).wf(),
            final(self)@ == old(self)@.update(40 * row + col, Some(colour)),
            old(self).border_occupied() ==> final(self).border_occupied(),
    {
        self.cells[40 * row + col] = Some(colour);
        proof {
            assert forall|r: int, c: int|
                0 <= r < 40 && 0 <= c < 40 && spec_is_border(r, c)
                    && spec_border_occupied(old(self)@) implies self@[40 * r + c] is Some by {
                assert(old(self)@[40 * r + c] is Some);
            }
        }
    }
}

/// Build the arena: a grid whose border cells all carry the wall colour 0 and
/// whose interior is empty.
pub fn build_arena() -> (g: Grid)
    ensures
        g.wf(),
        g.border_occupied(),
        forall|row: int, col: int|
            0 <= row < 40 && 0 <= col < 40 ==> g@[40 * row + col] == (if spec_is_border(
                row,
                col,
            ) {
                Some(0u8)
            } else {
                None::<u8>
            }),
{
    let mut g = Grid::new_empty();
    // Left and right columns.
    let mut r: usize = 0;
    while r < 40
        invariant
            r <= 40,
            g.wf(),
            forall|i: int| #![auto]
                0 <= i < 1600 ==> g@[i] == (if (i % 40 == 0 || i % 40 == 39) && i / 40 < r {
                    Some(0u8)
                } else {
                    None::<u8>
                }),
        decreases 40 - r,
    {
        g.set_cell(r, 0, 0);
        g.set_cell(r, 39, 0);
        r = r + 1;
    }
    // Top and bottom rows.
    let mut c: usize = 1;
    while c < 39
        invariant
            1 <= c <= 39,
            g.wf(),
            forall|i: int| #![auto]
                0 <= i < 1600 ==> g@[i] == (if i % 40 == 0 || i % 40 == 39 || (i / 40 == 0 && i % 40
                    < c) || (i / 40 == 39 && i % 40 < c) {
                    Some(0u8)
                } else {
                    None::<u8>
                }),
        decreases 39 - c,
    {
        g.set_cell(0, c, 0);
        g.set_cell(39, c, 0);
        c = c + 1;
    }
    proof {
        assert forall|row: int, col: int| 0 <= row < 40 && 0 <= col < 40 implies g@[40 * row + col]
            == (if spec_is_border(row, col) {
            Some(0u8)
        } else {
            None::<u8>
        }) by {
            let i = 40 * row + col;
            assert(i % 40 == col && i / 40 == row) by (nonlinear_arith)
                requires
                    0 <= row < 40 && 0 <= col < 40 && i == 40 * row + col,
            ;
        }
        assert forall|row: int, col: int|
            0 <= row < 40 && 0 <= col < 40 && spec_is_border(row, col) implies g@[40 * row
            + col] is Some by {}
    }
    g
}

} // verus!
