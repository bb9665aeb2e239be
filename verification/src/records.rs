//! The records that the two peers exchange.

use vstd::prelude::*;
use crate::color::ChessColor;
use crate::piece::PromotionPiece;

verus! {

/// One move as it travels between the peers.
///
/// A square is a pair of a file, counted from the `a` file, and a row,
/// counted from the top of the board as White sees it, so that rank 8 is
/// row 0 and rank 1 is row 7.
#[derive(Clone, Copy, Debug, PartialEq, Eq)]
pub struct MoveRecord {
    pub from: (u8, u8),
    pub to: (u8, u8),
    pub promotion: Option<PromotionPiece>,
    pub forfeit: bool,
    pub offer_draw: bool,
}

impl MoveRecord {
    /// Both squares lie on the board, and the record does not both resign
    /// and offer a draw.
    pub open spec fn wf(self) -> bool {
        &&& self.from.0 < 8
        &&& self.from.1 < 8
        &&& self.to.0 < 8
        &&& self.to.1 < 8
        &&& !(self.forfeit && self.offer_draw)
    }

    /// Tells whether the record is well formed.
    pub fn is_wf(&self) -> (ok: bool)
        ensures
            ok == self.wf(),
    {
        self.from.0 < 8 && self.from.1 < 8 && self.to.0 < 8 && self.to.1 < 8 && !(self.forfeit
            && self.offer_draw)
    }

    /// The index of the square that the move leaves, counted along the rows
    /// from the top left corner of the board as White sees it.
    pub open spec fn spec_from_square(&self) -> u32 {
        (self.from.1 * 8 + self.from.0) as u32
    }

    /// The index of the square that the move reaches.
    pub open spec fn spec_to_square(&self) -> u32 {
        (self.to.1 * 8 + self.to.0) as u32
    }

    /// The index of the square that the move leaves.
    #[verifier::when_used_as_spec(spec_from_square)]
    pub fn from_square(&self) -> (square: u32)
        ensures
            square == self.spec_from_square(),
            self.wf() ==> square < 64,
    {
        self.from.1 as u32 * 8 + self.from.0 as u32
    }

    /// The index of the square that the move reaches.
    #[verifier::when_used_as_spec(spec_to_square)]
    pub fn to_square(&self) -> (square: u32)
        ensures
            square == self.spec_to_square(),
            self.wf() ==> square < 64,
    {
        self.to.1 as u32 * 8 + self.to.0 as u32
    }

    /// A plain move between two squares, with no resignation and no draw offer.
    pub fn new(from: (u8, u8), to: (u8, u8), promotion: Option<PromotionPiece>) -> (record:
        MoveRecord)
        ensures
            record == (MoveRecord { from, to, promotion, forfeit: false, offer_draw: false }),
    {
        MoveRecord { from, to, promotion, forfeit: false, offer_draw: false }
    }

}

/// The answer to a resignation or a draw offer.
#[derive(Clone, Copy, Debug, PartialEq, Eq, Structural)]
pub struct AckRecord {
    pub accepted: bool,
}

/// The handshake: what a peer asks for when it joins, and what the host
/// settles when it answers.
#[derive(Debug, PartialEq, Eq)]
pub struct Start {
    /// Whether the peer that holds this record plays White.
    pub is_white: bool,
    /// The name that the sender shows.
    pub name: String,
    /// The position that the game starts from, where it is not the usual one.
    pub fen: Option<String>,
    /// The time on each clock, where the game is timed.
    pub time: Option<u64>,
    /// The time added after every move, where the game is timed.
    pub inc: Option<u64>,
}

/// What a `Start` holds, with texts as sequences of characters.
pub struct StartView {
    pub is_white: bool,
    pub name: Seq<char>,
    pub fen: Option<Seq<char>>,
    pub time: Option<u64>,
    pub inc: Option<u64>,
}

impl StartView {
    /// The same handshake for the other side.
    pub open spec fn for_peer(self) -> StartView {
        StartView { is_white: !self.is_white, ..self }
    }

    /// Two handshakes agree on everything but the colour, and give the two
    /// peers different colours.
    pub open spec fn complements(self, other: StartView) -> bool {
        &&& self.is_white != other.is_white
        &&& self.name == other.name
        &&& self.fen == other.fen
        &&& self.time == other.time
        &&& self.inc == other.inc
    }
}

impl View for Start {
    type V = StartView;

    open spec fn view(&self) -> StartView {
        StartView {
            is_white: self.is_white,
            name: self.name@,
            fen: match self.fen {
                Some(fen) => Some(fen@),
                None => None,
            },
            time: self.time,
            inc: self.inc,
        }
    }
}

impl Start {
    /// A handshake with a name and a colour, for an untimed game from the
    /// usual position.
    pub fn new(is_white: bool, name: String) -> (start: Start)
        ensures
            start@ == (StartView { is_white, name: name@, fen: None, time: None, inc: None }),
    {
        Start { is_white, name, fen: None, time: None, inc: None }
    }

    /// A copy of the handshake.
    pub fn duplicate(&self) -> (copy: Start)
        ensures
            copy@ == self@,
    {
        Start {
            is_white: self.is_white,
            name: self.name.clone(),
            fen: match &self.fen {
                Some(fen) => Some(fen.clone()),
                None => None,
            },
            time: self.time,
            inc: self.inc,
        }
    }

    /// The same handshake for the other side.
    pub fn for_peer(&self) -> (peer: Start)
        ensures
            peer@ == self@.for_peer(),
            peer@.complements(self@),
    {
        let mut peer = self.duplicate();
        peer.is_white = !self.is_white;
        peer
    }

    /// The colour of the peer that holds this record.
    pub fn color(&self) -> (color: ChessColor)
        ensures
            color == if self@.is_white {
                ChessColor::White
            } else {
                ChessColor::Black
            },
    {
        if self.is_white {
            ChessColor::White
        } else {
            ChessColor::Black
        }
    }
}

} // verus!
