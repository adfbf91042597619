//! Cells: addressable positions within an arena.

use vstd::prelude::*;

use crate::direction::SquareDirections;

verus! {

/// A position addressable within an arena. A cell is a plain coordinate
/// value with no back-reference to the arena that produced it.
pub trait Cell {}

/// A rectangular-grid coordinate pair. Copyable and compared by value.
#[derive(Clone, Copy, PartialEq, Eq, Structural, Debug)]
pub struct SquareCell {
    pub row: u8,
    pub column: u8,
}

impl SquareCell {
    /// The coordinates adjacent to `self` in `direction`, as unbounded
    /// integers: North and South step the row down and up by one, East and
    /// West step the column down and up by one. No bounds checking happens
    /// here; a coordinate may be negative or past the grid's extent, and
    /// only the arena decides whether it names a cell.
    pub open spec fn spec_neighbor_coordinates(self, direction: SquareDirections) -> (int, int) {
        match direction {
            SquareDirections::North => (self.row - 1, self.column as int),
            SquareDirections::South => (self.row + 1, self.column as int),
            SquareDirections::East => (self.row as int, self.column - 1),
            SquareDirections::West => (self.row as int, self.column + 1),
        }
    }

    pub fn new(row: u8, column: u8) -> (cell: Self)
        ensures
            cell == (SquareCell { row, column }),
    {
        Self { row, column }
    }

    /// Translate `self` plus a direction into the adjacent coordinates,
    /// signed because they may leave the grid on any side.
    pub fn get_neighbor_coordinates(&self, direction: &SquareDirections) -> (coordinates: (
        i32,
        i32,
    ))
        ensures
            coordinates.0 == self.spec_neighbor_coordinates(*direction).0,
            coordinates.1 == self.spec_neighbor_coordinates(*direction).1,
    {
        match direction {
            SquareDirections::North => (self.row as i32 - 1, self.column as i32),
            SquareDirections::South => (self.row as i32 + 1, self.column as i32),
            SquareDirections::East => (self.row as i32, self.column as i32 - 1),
            SquareDirections::West => (self.row as i32, self.column as i32 + 1),
        }
    }
}

impl Cell for SquareCell {}

} // verus!
