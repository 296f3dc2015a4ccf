//! The ways in which the game can fail.

use vstd::prelude::*;

verus! {

/// Everything that can go wrong in the game.
#[derive(Clone, Copy, Debug, PartialEq, Eq, Structural)]
pub enum GameError {
    /// A grid was asked for with a width or height that is not positive.
    InvalidDimensions,
    /// A coordinate lies outside the grid.
    OutOfBounds,
    /// The creature would leave the grid.
    CollisionWall,
    /// The creature would run into its own body.
    CollisionSelf,
    /// No cell is left that could take food.
    NoFreeCell,
}

} // verus!
