//! The closed set of movement directions an arena accepts.

use vstd::prelude::*;

verus! {

/// A set of movement directions. An arena implementation declares which
/// concrete direction set it accepts; a rectangular grid accepts exactly the
/// four cardinal directions, while another topology may declare a larger set.
pub trait Directions {}

/// The four cardinal directions of a rectangular grid.
#[derive(Clone, Copy, PartialEq, Eq, Structural, Debug)]
pub enum SquareDirections {
    North,
    South,
    East,
    West,
}

impl Directions for SquareDirections {}

/// The direction that undoes a move: North/South and East/West swap.
pub open spec fn opposite(direction: SquareDirections) -> SquareDirections {
    match direction {
        SquareDirections::North => SquareDirections::South,
        SquareDirections::South => SquareDirections::North,
        SquareDirections::East => SquareDirections::West,
        SquareDirections::West => SquareDirections::East,
    }
}

} // verus!
