//! The rules of chess, as the `chess` crate plays them.
//!
//! A position is held as that crate's board. The contracts speak of it
//! through its text in Forsyth-Edwards notation, and of what the crate
//! computes for such a text: its legal moves, the position a move leads to,
//! and whether the game has ended.

use vstd::prelude::*;
use std::str::FromStr;
use crate::color::ChessColor;
use crate::fen::{placement, placement_of, side_of, side_to_move};
use crate::notation::is_move_text;
use crate::piece::{piece_of_letter, Piece};
use crate::selection::texts;

verus! {

/// The board of the `chess` crate.
#[verifier::external_type_specification]
#[verifier::external_body]
pub struct ExBoard(chess::Board);

/// How a game stands.
#[derive(Clone, Copy, Debug, PartialEq, Eq, Structural)]
pub enum GameStatus {
    InProgress,
    Checkmate,
    Draw,
}

/// The text of a board in Forsyth-Edwards notation, as `chess::Board` prints it.
pub uninterp spec fn board_fen(board: chess::Board) -> Seq<char>;

/// The legal moves of a position, in coordinate notation and in the order in
/// which `chess::MoveGen::new_legal` yields them.
pub uninterp spec fn legal_moves(fen: Seq<char>) -> Seq<Seq<char>>;

/// The position that `chess::Board::make_move_new` reaches from a position
/// by one of its legal moves.
pub uninterp spec fn position_after(fen: Seq<char>, mv: Seq<char>) -> Seq<char>;

/// What `chess::Board::status` says of a position, a stalemate being a draw.
pub uninterp spec fn status_of(fen: Seq<char>) -> GameStatus;

/// The position from which every game starts.
pub open spec fn start_fen() -> Seq<char> {
    "rnbqkbnr/pppppppp/8/8/8/8/PPPPPPPP/RNBQKBNR w KQkq - 0 1"@
}

/// The position that a game reaches by a list of moves from the start.
pub open spec fn replay(history: Seq<Seq<char>>) -> Seq<char>
    decreases history.len(),
{
    if history.len() == 0 {
        start_fen()
    } else {
        position_after(replay(history.drop_last()), history.last())
    }
}

/// Every move of a list is legal in the position in which it is made.
pub open spec fn legal_history(history: Seq<Seq<char>>) -> bool
    decreases history.len(),
{
    history.len() == 0 || (legal_history(history.drop_last()) && legal_moves(
        replay(history.drop_last()),
    ).contains(history.last()))
}

/// A position is in play when legal moves lead to it from the start. The
/// rules are only ever asked about such positions.
pub open spec fn in_play(fen: Seq<char>) -> bool {
    exists|history: Seq<Seq<char>>| #[trigger] legal_history(history) && replay(history) == fen
}

/// The starting position is in play.
pub proof fn lemma_start_in_play()
    ensures
        in_play(start_fen()),
{
    let none = Seq::<Seq<char>>::empty();
    assert(legal_history(none) && replay(none) == start_fen());
}

/// A legal move in a position in play leads to a position in play.
pub proof fn lemma_move_in_play(fen: Seq<char>, mv: Seq<char>)
    requires
        in_play(fen),
        legal_moves(fen).contains(mv),
    ensures
        in_play(position_after(fen, mv)),
{
    let history = choose|history: Seq<Seq<char>>| #[trigger]
        legal_history(history) && replay(history) == fen;
    let longer = history.push(mv);
    assert(longer.drop_last() =~= history);
    assert(longer.last() == mv);
    assert(legal_history(longer) && replay(longer) == position_after(fen, mv));
}

/// The board at the start of a game (`chess::Board::default`, which reads
/// the starting position from its text). Printed, it gives that text back.
#[verifier::external_body]
fn engine_start() -> (board: chess::Board)
    ensures
        board_fen(board) == start_fen(),
{
    chess::Board::default()
}

/// The text of a board (`Display` of `chess::Board`), for a board in play.
#[verifier::external_body]
fn engine_fen(board: &chess::Board) -> (fen: String)
    requires
        in_play(board_fen(*board)),
    ensures
        fen@ == board_fen(*board),
{
    board.to_string()
}

/// The legal moves of a board in play (`chess::MoveGen::new_legal`), each
/// printed by `Display` of `chess::ChessMove`: the two squares, each as a
/// letter from `a` to `h` and a digit from `1` to `8`, and the letter of the
/// promotion piece where there is one. The crate promotes to queen, knight,
/// rook and bishop only, so that every text is a move written in full.
#[verifier::external_body]
fn engine_moves(board: &chess::Board) -> (moves: Vec<String>)
    requires
        in_play(board_fen(*board)),
    ensures
        texts(moves@) == legal_moves(board_fen(*board)),
        forall|i: int| 0 <= i < moves.len() ==> is_move_text(#[trigger] moves[i]@),
{
    chess::MoveGen::new_legal(board).map(|m| m.to_string()).collect()
}

/// The board after a move (`chess::ChessMove::from_str`, then
/// `chess::Board::make_move_new`), for a board in play. The move must be
/// one of the board's legal moves: the crate does not check it, and fails
/// on a move from an empty square.
#[verifier::external_body]
fn engine_apply(board: &chess::Board, mv: &str) -> (next: chess::Board)
    requires
        in_play(board_fen(*board)),
        legal_moves(board_fen(*board)).contains(mv@),
    ensures
        board_fen(next) == position_after(board_fen(*board), mv@),
{
    match chess::ChessMove::from_str(mv) {
        Ok(m) => board.make_move_new(m),
        Err(_) => *board,
    }
}

/// How the game stands on a board in play (`chess::Board::status`): over
/// when the side to move has no legal move, by checkmate when it is in
/// check, and drawn by stalemate when it is not.
#[verifier::external_body]
fn engine_status(board: &chess::Board) -> (status: GameStatus)
    requires
        in_play(board_fen(*board)),
    ensures
        status == status_of(board_fen(*board)),
{
    match board.status() {
        chess::BoardStatus::Ongoing => GameStatus::InProgress,
        chess::BoardStatus::Checkmate => GameStatus::Checkmate,
        chess::BoardStatus::Stalemate => GameStatus::Draw,
    }
}

/// Every text of a list is a move written in full.
pub open spec fn all_move_texts(moves: Seq<Seq<char>>) -> bool {
    forall|i: int| 0 <= i < moves.len() ==> is_move_text(#[trigger] moves[i])
}

/// Whether a text stands in a list of texts.
pub fn contains_text(list: &Vec<String>, text: &str) -> (found: bool)
    ensures
        found == texts(list@).contains(text@),
{
    let wanted = text.to_owned();
    let mut i: usize = 0;
    while i < list.len()
        invariant
            i <= list.len(),
            wanted@ == text@,
            forall|j: int| 0 <= j < i ==> texts(list@)[j] != text@,
        decreases list.len() - i,
    {
        let same = wanted == list[i];
        proof {
            assert(texts(list@)[i as int] == list[i as int]@);
        }
        if same {
            return true;
        }
        i = i + 1;
    }
    false
}

/// A position of a game, reached from the starting position by legal moves.
pub struct Position {
    board: chess::Board,
}

impl View for Position {
    type V = Seq<char>;

    /// The text of the position in Forsyth-Edwards notation.
    closed spec fn view(&self) -> Seq<char> {
        board_fen(self.board)
    }
}

impl Position {
    #[verifier::type_invariant]
    spec fn reached_by_play(self) -> bool {
        in_play(board_fen(self.board))
    }

    /// The starting position.
    pub fn initial() -> (position: Position)
        ensures
            position@ == start_fen(),
            in_play(position@),
    {
        proof {
            lemma_start_in_play();
        }
        Position { board: engine_start() }
    }

    /// The text of the position in Forsyth-Edwards notation.
    pub fn fen(&self) -> (fen: String)
        ensures
            fen@ == self@,
            in_play(self@),
    {
        proof {
            use_type_invariant(self);
        }
        engine_fen(&self.board)
    }

    /// The 64 squares of the position, row by row from the top left corner
    /// as White sees the board: the letter of a piece, or `.`.
    pub fn board(&self) -> (board: Vec<char>)
        ensures
            board@ == placement_of(self@),
            board.len() == 64,
    {
        let fen = self.fen();
        placement(fen.as_str())
    }

    /// The piece on a square; `None` on an empty square and off the board.
    pub fn piece_on(&self, square: u32) -> (piece: Option<Piece>)
        ensures
            piece == if square < 64 {
                piece_of_letter(placement_of(self@)[square as int])
            } else {
                None
            },
    {
        if square >= 64 {
            return None;
        }
        let board = self.board();
        Piece::from(board[square as usize])
    }

    /// The side to move.
    pub fn current_side(&self) -> (side: ChessColor)
        ensures
            side == side_of(self@),
    {
        let fen = self.fen();
        side_to_move(fen.as_str())
    }

    /// The legal moves of the position, in coordinate notation, each
    /// written in full.
    pub fn legal_moves(&self) -> (moves: Vec<String>)
        ensures
            texts(moves@) == legal_moves(self@),
            all_move_texts(texts(moves@)),
    {
        proof {
            use_type_invariant(self);
        }
        engine_moves(&self.board)
    }

    /// How the game stands in the position.
    pub fn status(&self) -> (status: GameStatus)
        ensures
            status == status_of(self@),
    {
        proof {
            use_type_invariant(self);
        }
        engine_status(&self.board)
    }

    /// The position after a move, where the move is one of `moves`, the
    /// legal moves of this position; `None` where it is not.
    pub fn play_checked(&self, moves: &Vec<String>, mv: &str) -> (next: Option<Position>)
        requires
            texts(moves@) == legal_moves(self@),
        ensures
            next is Some <==> legal_moves(self@).contains(mv@),
            next matches Some(p) ==> p@ == position_after(self@, mv@) && in_play(p@),
    {
        if contains_text(moves, mv) {
            proof {
                use_type_invariant(self);
                lemma_move_in_play(self@, mv@);
            }
            Some(Position { board: engine_apply(&self.board, mv) })
        } else {
            None
        }
    }

    /// The position after a move; `None` where the move is not legal here.
    pub fn play(&self, mv: &str) -> (next: Option<Position>)
        ensures
            next is Some <==> legal_moves(self@).contains(mv@),
            next matches Some(p) ==> p@ == position_after(self@, mv@) && in_play(p@),
    {
        let moves = self.legal_moves();
        self.play_checked(&moves, mv)
    }
}

} // verus!
