//! Arenas: collections of cells supporting random sampling and directional
//! neighbor lookup.

use vstd::prelude::*;

use crate::cell::Cell;
use crate::cell::SquareCell;
use crate::direction::Directions;
use crate::direction::SquareDirections;
use crate::direction::opposite;

verus! {

/// A collection of cells that a caller walks by drawing a random cell and
/// then repeatedly asking for neighbors. An implementation declares which
/// cell and direction variants it accepts; the contract is stated over four
/// abstract spec functions that each implementation defines.
pub trait Arena<C: Cell, D: Directions> {
    /// The structural invariant that the arena's construction establishes
    /// and every query relies on.
    spec fn wf(&self) -> bool;

    /// Whether the arena owns no cell at all.
    spec fn is_empty(&self) -> bool;

    /// Whether `cell` names a position inside this arena.
    spec fn owns(&self, cell: C) -> bool;

    /// What neighbor lookup returns: the cell adjacent to `cell` in
    /// `direction`, or nothing when that position falls outside the arena.
    spec fn spec_neighbor(&self, cell: C, direction: D) -> Option<C>;

    /// One cell owned by the arena, drawn at random. Independent draws:
    /// nothing relates one call's result to another's, and the arena is
    /// unchanged. Out of contract on an empty arena.
    fn get_random_cell(&self) -> (cell: C)
        requires
            self.wf(),
            !self.is_empty(),
        ensures
            self.owns(cell),
    ;

    /// The neighbor of `cell` in `direction`, or `None` at the boundary.
    /// Absence is an ordinary outcome, not an error, and the result is a
    /// pure function of the arena, the cell and the direction.
    fn get_neighbor(&self, cell: &C, direction: &D) -> (neighbor: Option<C>)
        requires
            self.wf(),
        ensures
            neighbor == self.spec_neighbor(*cell, *direction),
    ;
}

/// A rectangular grid of cells, built once at a fixed size and immutable
/// thereafter. Every row has the same length, and the cell stored at row
/// `i`, column `j` carries exactly the coordinates `(i, j)`.
#[derive(Clone, PartialEq, Debug)]
pub struct RectangleArena {
    pub cells: Vec<Vec<SquareCell>>,
}

/// Relies on rand::Rng::gen_range over `0..bound`: a uniform draw from that
/// range, which is non-empty since `bound` is positive. Nothing more is
/// assumed of which index comes back.
#[verifier::external_body]
fn random_index(bound: usize) -> (index: usize)
    requires
        0 < bound,
    ensures
        index < bound,
{
    let mut generator = rand::thread_rng();
    rand::Rng::gen_range(&mut generator, 0..bound)
}

impl RectangleArena {
    /// Number of rows of the grid.
    pub open spec fn rows(&self) -> int {
        self.cells@.len() as int
    }

    /// Number of columns of the grid: the length every row shares.
    pub open spec fn columns(&self) -> int {
        if self.cells@.len() == 0 {
            0
        } else {
            self.cells@[0]@.len() as int
        }
    }

    /// How many of the four directions have a present neighbor.
    pub open spec fn present_neighbor_count(&self, cell: SquareCell) -> int {
        (if self.spec_neighbor(cell, SquareDirections::North) is Some {
            1int
        } else {
            0int
        }) + (if self.spec_neighbor(cell, SquareDirections::South) is Some {
            1int
        } else {
            0int
        }) + (if self.spec_neighbor(cell, SquareDirections::East) is Some {
            1int
        } else {
            0int
        }) + (if self.spec_neighbor(cell, SquareDirections::West) is Some {
            1int
        } else {
            0int
        })
    }

    /// Whether `cell` lies on the grid's boundary.
    pub open spec fn on_boundary(&self, cell: SquareCell) -> bool {
        ||| cell.row == 0
        ||| cell.row == self.rows() - 1
        ||| cell.column == 0
        ||| cell.column == self.columns() - 1
    }

    /// Whether `cell` is a corner: extremal in both dimensions.
    pub open spec fn is_corner(&self, cell: SquareCell) -> bool {
        (cell.row == 0 || cell.row == self.rows() - 1) && (cell.column == 0 || cell.column
            == self.columns() - 1)
    }

    /// Whether `cell` lies on the boundary without being a corner.
    pub open spec fn is_edge(&self, cell: SquareCell) -> bool {
        self.on_boundary(cell) && !self.is_corner(cell)
    }

    /// Whether `cell` is interior: strictly inside the boundary.
    pub open spec fn is_interior(&self, cell: SquareCell) -> bool {
        0 < cell.row && cell.row < self.rows() - 1 && 0 < cell.column && cell.column
            < self.columns() - 1
    }

    /// Build the grid eagerly: for each row index below `rows` and column
    /// index below `columns`, store a cell carrying exactly that coordinate
    /// pair at the matching table position. A zero dimension yields a
    /// degenerate empty arena: neighbor lookup still answers (always with
    /// absence), while random sampling is out of contract.
    pub fn new(rows: u8, columns: u8) -> (arena: Self)
        ensures
            arena.wf(),
            arena.rows() == rows,
            rows > 0 ==> arena.columns() == columns,
            rows == 0 ==> arena.columns() == 0,
    {
        let mut cells: Vec<Vec<SquareCell>> = Vec::new();
        for i in 0..rows
            invariant
                cells@.len() == i,
                forall|r: int| 0 <= r < i ==> (#[trigger] cells@[r])@.len() == columns,
                forall|r: int, c: int|
                    0 <= r < i && 0 <= c < columns ==> #[trigger] cells@[r]@[c] == (SquareCell {
                        row: r as u8,
                        column: c as u8,
                    }),
        {
            let mut row: Vec<SquareCell> = Vec::new();
            for j in 0..columns
                invariant
                    row@.len() == j,
                    forall|c: int|
                        0 <= c < j ==> #[trigger] row@[c] == (SquareCell {
                            row: i as u8,
                            column: c as u8,
                        }),
            {
                row.push(SquareCell::new(i, j));
            }
            cells.push(row);
        }
        RectangleArena { cells }
    }

    /// Stepping from an in-bounds cell to a present neighbor and then back
    /// in the opposite direction returns the starting cell.
    pub proof fn lemma_neighbor_inverse(
        &self,
        cell: SquareCell,
        neighbor: SquareCell,
        direction: SquareDirections,
    )
        requires
            self.wf(),
            self.owns(cell),
            self.spec_neighbor(cell, direction) == Some(neighbor),
        ensures
            self.spec_neighbor(neighbor, opposite(direction)) == Some(cell),
    {
    }

    /// In a grid at least 2×2, a corner cell has a present neighbor in
    /// exactly two directions; in a grid at least 3×3, an edge cell in
    /// exactly three; an interior cell in all four.
    pub proof fn lemma_neighbor_degree(&self, cell: SquareCell)
        requires
            self.wf(),
            self.owns(cell),
        ensures
            2 <= self.rows() && 2 <= self.columns() && self.is_corner(cell)
                ==> self.present_neighbor_count(cell) == 2,
            3 <= self.rows() && 3 <= self.columns() && self.is_edge(cell)
                ==> self.present_neighbor_count(cell) == 3,
            self.is_interior(cell) ==> self.present_neighbor_count(cell) == 4,
    {
    }
}

impl Arena<SquareCell, SquareDirections> for RectangleArena {
    /// Rectangular and coordinate-faithful: every row has the common
    /// length, and the cell stored at `(i, j)` carries coordinates `(i, j)`.
    /// Both extents fit the cells' coordinate type.
    open spec fn wf(&self) -> bool {
        &&& self.rows() <= 256
        &&& self.columns() <= 256
        &&& forall|i: int| 0 <= i < self.rows() ==> (#[trigger] self.cells@[i])@.len() == self.columns()
        &&& forall|i: int, j: int|
            0 <= i < self.rows() && 0 <= j < self.columns() ==> #[trigger] self.cells@[i]@[j]
                == (SquareCell { row: i as u8, column: j as u8 })
    }

    open spec fn is_empty(&self) -> bool {
        self.rows() == 0 || self.columns() == 0
    }

    open spec fn owns(&self, cell: SquareCell) -> bool {
        cell.row < self.rows() && cell.column < self.columns()
    }

    /// The coordinates adjacent to `cell`, resolved against this grid's
    /// bounds: a cell when both are non-negative and strictly below the
    /// extents, absence otherwise.
    open spec fn spec_neighbor(&self, cell: SquareCell, direction: SquareDirections) -> Option<
        SquareCell,
    > {
        let (nrow, ncolumn) = cell.spec_neighbor_coordinates(direction);
        if 0 <= nrow < self.rows() && 0 <= ncolumn < self.columns() {
            Some(SquareCell { row: nrow as u8, column: ncolumn as u8 })
        } else {
            None
        }
    }

    fn get_random_cell(&self) -> (cell: SquareCell) {
        let row = random_index(self.cells.len());
        let column = random_index(self.cells[row].len());
        self.cells[row][column]
    }

    fn get_neighbor(&self, cell: &SquareCell, direction: &SquareDirections) -> (neighbor: Option<
        SquareCell,
    >) {
        let (row, column) = cell.get_neighbor_coordinates(direction);
        if row < 0 || row as usize >= self.cells.len() {
            return None;
        }
        if column < 0 || column as usize >= self.cells[row as usize].len() {
            return None;
        }
        Some(self.cells[row as usize][column as usize])
    }
}

} // verus!
