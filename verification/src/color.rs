//! The two sides of a game.

use vstd::prelude::*;

verus! {

/// A side of the board.
#[derive(Clone, Copy, Debug, PartialEq, Eq, Structural)]
pub enum ChessColor {
    White,
    Black,
}

impl ChessColor {
    /// The other side.
    pub open spec fn spec_opposite(self) -> ChessColor {
        match self {
            ChessColor::White => ChessColor::Black,
            ChessColor::Black => ChessColor::White,
        }
    }

    /// The other side.
    #[verifier::when_used_as_spec(spec_opposite)]
    pub fn opposite(self) -> (other: ChessColor)
        ensures
            other == self.spec_opposite(),
            other != self,
    {
        match self {
            ChessColor::White => ChessColor::Black,
            ChessColor::Black => ChessColor::White,
        }
    }
}

} // verus!
