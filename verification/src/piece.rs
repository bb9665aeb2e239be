//! Pieces as they stand on the board, and the pieces a pawn may promote to.

use vstd::prelude::*;
use crate::color::ChessColor;

verus! {

/// The six kinds of chess piece.
#[derive(Clone, Copy, Debug, PartialEq, Eq, Structural)]
pub enum PieceType {
    Pawn,
    Knight,
    Bishop,
    Rook,
    Queen,
    King,
}

/// A piece of one side.
#[derive(Clone, Copy, Debug, PartialEq, Eq, Structural)]
pub struct Piece {
    pub t: PieceType,
    pub color: ChessColor,
}

/// The kind of piece a board letter stands for, whatever its case.
pub open spec fn piece_type_of_letter(c: char) -> Option<PieceType> {
    if c == 'p' || c == 'P' {
        Some(PieceType::Pawn)
    } else if c == 'n' || c == 'N' {
        Some(PieceType::Knight)
    } else if c == 'b' || c == 'B' {
        Some(PieceType::Bishop)
    } else if c == 'r' || c == 'R' {
        Some(PieceType::Rook)
    } else if c == 'q' || c == 'Q' {
        Some(PieceType::Queen)
    } else if c == 'k' || c == 'K' {
        Some(PieceType::King)
    } else {
        None
    }
}

/// The piece a board letter stands for: upper case is White, lower case is
/// Black, and every other character is an empty square.
pub open spec fn piece_of_letter(c: char) -> Option<Piece> {
    match piece_type_of_letter(c) {
        Some(t) => Some(
            Piece { t, color: if 'A' <= c <= 'Z' { ChessColor::White } else { ChessColor::Black } },
        ),
        None => None,
    }
}

impl PieceType {
    /// Position of the kind in the order pawn, knight, bishop, rook, queen, king.
    pub open spec fn spec_index(self) -> nat {
        match self {
            PieceType::Pawn => 0,
            PieceType::Knight => 1,
            PieceType::Bishop => 2,
            PieceType::Rook => 3,
            PieceType::Queen => 4,
            PieceType::King => 5,
        }
    }

    /// Position of the kind in the order pawn, knight, bishop, rook, queen, king.
    pub fn index(self) -> (i: usize)
        ensures
            i == self.spec_index(),
            i < 6,
    {
        match self {
            PieceType::Pawn => 0,
            PieceType::Knight => 1,
            PieceType::Bishop => 2,
            PieceType::Rook => 3,
            PieceType::Queen => 4,
            PieceType::King => 5,
        }
    }
}

impl Piece {
    /// Reads a board letter: `Some` piece for one of `pnbrqk` in either
    /// case, `None` for the empty mark and for anything else.
    pub fn from(s: char) -> (piece: Option<Piece>)
        ensures
            piece == piece_of_letter(s),
    {
        let t = if s == 'p' || s == 'P' {
            PieceType::Pawn
        } else if s == 'n' || s == 'N' {
            PieceType::Knight
        } else if s == 'b' || s == 'B' {
            PieceType::Bishop
        } else if s == 'r' || s == 'R' {
            PieceType::Rook
        } else if s == 'q' || s == 'Q' {
            PieceType::Queen
        } else if s == 'k' || s == 'K' {
            PieceType::King
        } else {
            return None;
        };
        let color = if 'A' <= s && s <= 'Z' {
            ChessColor::White
        } else {
            ChessColor::Black
        };
        Some(Piece { t, color })
    }

    /// Where the piece's picture stands in a sheet that lists the six white
    /// pieces and then the six black ones.
    pub open spec fn spec_sprite_index(self) -> nat {
        self.t.spec_index() + if self.color == ChessColor::White { 0nat } else { 6nat }
    }

    /// Where the piece's picture stands in a sheet that lists the six white
    /// pieces and then the six black ones.
    pub fn sprite_index(self) -> (i: usize)
        ensures
            i == self.spec_sprite_index(),
            i < 12,
    {
        let base: usize = match self.color {
            ChessColor::White => 0,
            ChessColor::Black => 6,
        };
        base + self.t.index()
    }
}

/// What a pawn may become on the last rank.
#[derive(Clone, Copy, Debug, PartialEq, Eq, Structural)]
pub enum PromotionPiece {
    Knight,
    Bishop,
    Rook,
    Queen,
}

/// The promotion piece that a move's fifth letter names.
pub open spec fn promotion_of_code(c: char) -> Option<PromotionPiece> {
    if c == 'n' {
        Some(PromotionPiece::Knight)
    } else if c == 'b' {
        Some(PromotionPiece::Bishop)
    } else if c == 'r' {
        Some(PromotionPiece::Rook)
    } else if c == 'q' {
        Some(PromotionPiece::Queen)
    } else {
        None
    }
}

/// The promotion piece at a place in the choice row: knight, bishop, rook, queen.
pub open spec fn promotion_at(idx: int) -> Option<PromotionPiece> {
    if idx == 0 {
        Some(PromotionPiece::Knight)
    } else if idx == 1 {
        Some(PromotionPiece::Bishop)
    } else if idx == 2 {
        Some(PromotionPiece::Rook)
    } else if idx == 3 {
        Some(PromotionPiece::Queen)
    } else {
        None
    }
}

impl PromotionPiece {
    /// The letter that names the piece at the end of a move.
    pub open spec fn spec_code(self) -> char {
        match self {
            PromotionPiece::Knight => 'n',
            PromotionPiece::Bishop => 'b',
            PromotionPiece::Rook => 'r',
            PromotionPiece::Queen => 'q',
        }
    }

    /// The letter that names the piece at the end of a move.
    #[verifier::when_used_as_spec(spec_code)]
    pub fn code(self) -> (c: char)
        ensures
            c == self.spec_code(),
            promotion_of_code(c) == Some(self),
    {
        match self {
            PromotionPiece::Knight => 'n',
            PromotionPiece::Bishop => 'b',
            PromotionPiece::Rook => 'r',
            PromotionPiece::Queen => 'q',
        }
    }

    /// Reads a promotion letter.
    pub fn from_code(c: char) -> (piece: Option<PromotionPiece>)
        ensures
            piece == promotion_of_code(c),
    {
        if c == 'n' {
            Some(PromotionPiece::Knight)
        } else if c == 'b' {
            Some(PromotionPiece::Bishop)
        } else if c == 'r' {
            Some(PromotionPiece::Rook)
        } else if c == 'q' {
            Some(PromotionPiece::Queen)
        } else {
            None
        }
    }

    /// The piece at a place in the choice row.
    pub fn from_index(idx: usize) -> (piece: Option<PromotionPiece>)
        ensures
            piece == promotion_at(idx as int),
    {
        if idx == 0 {
            Some(PromotionPiece::Knight)
        } else if idx == 1 {
            Some(PromotionPiece::Bishop)
        } else if idx == 2 {
            Some(PromotionPiece::Rook)
        } else if idx == 3 {
            Some(PromotionPiece::Queen)
        } else {
            None
        }
    }

    /// The kind of piece the pawn becomes.
    pub open spec fn spec_piece_type(self) -> PieceType {
        match self {
            PromotionPiece::Knight => PieceType::Knight,
            PromotionPiece::Bishop => PieceType::Bishop,
            PromotionPiece::Rook => PieceType::Rook,
            PromotionPiece::Queen => PieceType::Queen,
        }
    }

    /// The kind of piece the pawn becomes.
    #[verifier::when_used_as_spec(spec_piece_type)]
    pub fn piece_type(self) -> (t: PieceType)
        ensures
            t == self.spec_piece_type(),
    {
        match self {
            PromotionPiece::Knight => PieceType::Knight,
            PromotionPiece::Bishop => PieceType::Bishop,
            PromotionPiece::Rook => PieceType::Rook,
            PromotionPiece::Queen => PieceType::Queen,
        }
    }
}

} // verus!
