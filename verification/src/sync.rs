//! Whose turn it is, and what a move of either side does to the game.
//!
//! The side to move alternates with every move that the rules accept, until
//! the rules report the end of the game. The moves of the remote side arrive
//! as records and are played as they come. The local side chooses its move
//! with the pointer; the move is first sent to the peer, and played here
//! only once it has gone out, so that a failed send leaves the game where it
//! was.

use vstd::prelude::*;
use crate::color::ChessColor;
use crate::engine::{
    all_move_texts, contains_text, legal_moves, position_after, start_fen, status_of, GameStatus,
    Position,
};
use crate::error::SessionError;
use crate::notation::{
    lemma_move_text_names_in_full, move_record, move_record_of, move_string, move_string_of,
    names_in_full,
};
use crate::records::MoveRecord;
use crate::selection::{lemma_selection_resets, texts, MoveSelector, SelectorView};

verus! {

/// Why a game is over.
#[derive(Clone, Copy, Debug, PartialEq, Eq, Structural)]
pub enum GameOverReason {
    Checkmate,
    Draw,
}

/// Whose turn it is.
#[derive(Clone, Copy, Debug, PartialEq, Eq, Structural)]
pub enum TurnState {
    /// The local side is to move.
    LocalTurn,
    /// The remote side is to move.
    RemoteTurn,
    /// Nobody is to move any more.
    GameOver(GameOverReason),
}

/// What the players decide once a game is over.
#[derive(Clone, Copy, Debug, PartialEq, Eq, Structural)]
pub enum Decision {
    /// Play again.
    Restart,
    /// Leave.
    Quit,
}

/// The turn at the start of a game: White moves first.
pub open spec fn initial_turn(local_color: ChessColor) -> TurnState {
    match local_color {
        ChessColor::White => TurnState::LocalTurn,
        ChessColor::Black => TurnState::RemoteTurn,
    }
}

/// The turn after the side to move has moved, given how the game stands then.
/// A game that is over stays over.
pub open spec fn turn_after(turn: TurnState, status: GameStatus) -> TurnState {
    match turn {
        TurnState::GameOver(reason) => TurnState::GameOver(reason),
        _ => match status {
            GameStatus::Checkmate => TurnState::GameOver(GameOverReason::Checkmate),
            GameStatus::Draw => TurnState::GameOver(GameOverReason::Draw),
            GameStatus::InProgress => match turn {
                TurnState::LocalTurn => TurnState::RemoteTurn,
                _ => TurnState::LocalTurn,
            },
        },
    }
}

/// The turn at the start of a game.
pub fn first_turn(local_color: ChessColor) -> (turn: TurnState)
    ensures
        turn == initial_turn(local_color),
{
    match local_color {
        ChessColor::White => TurnState::LocalTurn,
        ChessColor::Black => TurnState::RemoteTurn,
    }
}

/// The turn after the side to move has moved, given how the game stands then.
pub fn next_turn(turn: TurnState, status: GameStatus) -> (next: TurnState)
    ensures
        next == turn_after(turn, status),
{
    match turn {
        TurnState::GameOver(reason) => TurnState::GameOver(reason),
        TurnState::LocalTurn => match status {
            GameStatus::Checkmate => TurnState::GameOver(GameOverReason::Checkmate),
            GameStatus::Draw => TurnState::GameOver(GameOverReason::Draw),
            GameStatus::InProgress => TurnState::RemoteTurn,
        },
        TurnState::RemoteTurn => match status {
            GameStatus::Checkmate => TurnState::GameOver(GameOverReason::Checkmate),
            GameStatus::Draw => TurnState::GameOver(GameOverReason::Draw),
            GameStatus::InProgress => TurnState::LocalTurn,
        },
    }
}

/// The turns of the two peers fit together: one of them is to move and the
/// other waits, or the game is over for both and for the same reason.
pub open spec fn mirrored(here: TurnState, there: TurnState) -> bool {
    match here {
        TurnState::LocalTurn => there == TurnState::RemoteTurn,
        TurnState::RemoteTurn => there == TurnState::LocalTurn,
        TurnState::GameOver(reason) => there == TurnState::GameOver(reason),
    }
}

/// What a `TurnSynchronizer` holds.
pub struct SyncView {
    /// The side that plays here.
    pub local_color: ChessColor,
    /// Whose turn it is.
    pub turn: TurnState,
    /// The position, in Forsyth-Edwards notation.
    pub fen: Seq<char>,
    /// The choice of the local side's next move.
    pub selector: SelectorView,
}

impl SyncView {
    /// The selector knows the legal moves of the position, and holds no
    /// choice unless the local side is to move.
    pub open spec fn wf(self) -> bool {
        &&& self.selector.moves == legal_moves(self.fen)
        &&& self.selector.wf()
        &&& self.turn != TurnState::LocalTurn ==> self.selector == self.selector.cleared()
    }

    /// The start of a game.
    pub open spec fn start(local_color: ChessColor) -> SyncView {
        SyncView {
            local_color,
            turn: initial_turn(local_color),
            fen: start_fen(),
            selector: SelectorView {
                selected_square: None,
                moves: legal_moves(start_fen()),
                promotion_prompt: None,
                promotion_move: None,
            },
        }
    }

    /// The game after the side to move has played a legal move.
    pub open spec fn played(self, mv: Seq<char>) -> SyncView {
        let fen = position_after(self.fen, mv);
        SyncView {
            local_color: self.local_color,
            turn: turn_after(self.turn, status_of(fen)),
            fen,
            selector: SelectorView {
                selected_square: None,
                moves: legal_moves(fen),
                promotion_prompt: None,
                promotion_move: None,
            },
        }
    }

    /// A record from the peer is played when the remote side is to move and
    /// the record names a legal move.
    pub open spec fn accepts_remote(self, record: MoveRecord) -> bool {
        &&& self.turn == TurnState::RemoteTurn
        &&& record.from.0 < 8 && record.from.1 < 8 && record.to.0 < 8 && record.to.1 < 8
        &&& legal_moves(self.fen).contains(move_string_of(record))
    }

    /// The game after what a poll of the network gave, while the remote side
    /// is to move: nothing received changes nothing.
    pub open spec fn after_remote(self, received: Option<MoveRecord>) -> SyncView {
        match received {
            Some(record) => if self.accepts_remote(record) {
                self.played(move_string_of(record))
            } else {
                self
            },
            None => self,
        }
    }

    /// Two peers are in step: they play different colours, see the same
    /// position, and their turns fit together.
    pub open spec fn in_step(self, peer: SyncView) -> bool {
        &&& self.local_color != peer.local_color
        &&& self.fen == peer.fen
        &&& mirrored(self.turn, peer.turn)
    }

    /// The move that an input of the local side completes and the rules
    /// accept. Its record names it in full, so that the peer plays the same
    /// move.
    pub open spec fn local_move(self, x: int, y: int, pressed: bool) -> Option<Seq<char>> {
        if self.turn == TurnState::LocalTurn {
            match self.selector.on_update(x, y, pressed).1 {
                Some(m) => if names_in_full(m) && legal_moves(self.fen).contains(m) {
                    Some(m)
                } else {
                    None
                },
                None => None,
            }
        } else {
            None
        }
    }

    /// The game after an input of the local side. The input counts only
    /// while the local side is to move, and changes nothing but the choice:
    /// a move that it completes is still to be sent and played.
    pub open spec fn after_input(self, x: int, y: int, pressed: bool) -> SyncView {
        if self.turn == TurnState::LocalTurn {
            SyncView { selector: self.selector.on_update(x, y, pressed).0, ..self }
        } else {
            self
        }
    }

    /// A record of the local side is played when the local side is to move
    /// and the record names a legal move.
    pub open spec fn accepts_local(self, record: MoveRecord) -> bool {
        &&& self.turn == TurnState::LocalTurn
        &&& record.from.0 < 8 && record.from.1 < 8 && record.to.0 < 8 && record.to.1 < 8
        &&& legal_moves(self.fen).contains(move_string_of(record))
    }

    /// The game after the attempt to send a move of the local side, and
    /// what comes of it. A send that failed leaves the game as it was and
    /// its error is handed on. A move that went out is played, and the turn
    /// passes on; where it is no legal move of the local side, that is a
    /// `MoveApplicationError`, and the game stays as it was.
    pub open spec fn after_sent(self, record: MoveRecord, sent: Result<(), SessionError>) -> (
        SyncView,
        Result<(), SessionError>,
    ) {
        match sent {
            Err(e) => (self, Err(e)),
            Ok(_) => if self.accepts_local(record) {
                (self.played(move_string_of(record)), Ok(()))
            } else {
                (self, Err(SessionError::MoveApplicationError))
            },
        }
    }
}

/// Inputs count only while the local side is to move: at any other time an
/// input completes no move and changes nothing, and no move of the local
/// side is played.
pub proof fn lemma_input_is_gated(
    game: SyncView,
    x: int,
    y: int,
    pressed: bool,
    record: MoveRecord,
)
    requires
        game.turn != TurnState::LocalTurn,
    ensures
        game.local_move(x, y, pressed) is None,
        game.after_input(x, y, pressed) == game,
        game.after_sent(record, Ok(())) == (
            game,
            Err::<(), SessionError>(SessionError::MoveApplicationError),
        ),
{
}

/// An input never plays a move: it leaves the turn, the position and the
/// colour as they were.
pub proof fn lemma_input_plays_nothing(game: SyncView, x: int, y: int, pressed: bool)
    ensures
        game.after_input(x, y, pressed).turn == game.turn,
        game.after_input(x, y, pressed).fen == game.fen,
        game.after_input(x, y, pressed).local_color == game.local_color,
{
}

/// A move whose send failed is not played: the error is handed on, and the
/// game stays as it was, with the local side still to move.
pub proof fn lemma_failed_send_changes_nothing(game: SyncView, record: MoveRecord, e: SessionError)
    ensures
        game.after_sent(record, Err(e)) == (game, Err::<(), SessionError>(e)),
{
}

/// A game that is over stays over: neither an input, nor a move of the
/// local side, nor anything received changes it.
pub proof fn lemma_game_over_is_final(
    game: SyncView,
    x: int,
    y: int,
    pressed: bool,
    record: MoveRecord,
    sent: Result<(), SessionError>,
    received: Option<MoveRecord>,
)
    requires
        game.turn is GameOver,
    ensures
        game.after_input(x, y, pressed) == game,
        game.local_move(x, y, pressed) is None,
        game.after_sent(record, sent).0 == game,
        game.after_remote(received) == game,
{
}

/// A received record is played only on the remote side's turn, and nothing
/// received changes nothing.
pub proof fn lemma_remote_is_gated(game: SyncView, received: Option<MoveRecord>)
    requires
        game.turn != TurnState::RemoteTurn || received is None,
    ensures
        game.after_remote(received) == game,
{
}

/// A move passes the turn to the other side while the game goes on, and
/// ends the game when the rules say so; the side that plays here stays
/// the same, and nothing stays chosen.
pub proof fn lemma_move_passes_the_turn(game: SyncView, mv: Seq<char>)
    requires
        game.wf(),
        !(game.turn is GameOver),
    ensures
        game.played(mv).wf(),
        game.played(mv).local_color == game.local_color,
        game.played(mv).selector.state() is Idle,
        match status_of(position_after(game.fen, mv)) {
            GameStatus::InProgress => game.played(mv).turn != game.turn && !(game.played(mv).turn
                is GameOver),
            GameStatus::Checkmate => game.played(mv).turn == TurnState::GameOver(
                GameOverReason::Checkmate,
            ),
            GameStatus::Draw => game.played(mv).turn == TurnState::GameOver(GameOverReason::Draw),
        },
{
}

/// Only legal moves are sent and played: a move that an input completes is
/// one of the legal moves of the position, its record is well formed and
/// names it in full, and once the record has gone out that very move is
/// played.
pub proof fn lemma_local_move_is_legal(game: SyncView, x: int, y: int, pressed: bool)
    requires
        game.local_move(x, y, pressed) is Some,
    ensures
        game.turn == TurnState::LocalTurn,
        legal_moves(game.fen).contains(game.local_move(x, y, pressed)->0),
        names_in_full(game.local_move(x, y, pressed)->0),
        move_record_of(game.local_move(x, y, pressed)->0)->0.wf(),
        game.after_input(x, y, pressed).accepts_local(
            move_record_of(game.local_move(x, y, pressed)->0)->0,
        ),
        game.after_input(x, y, pressed).after_sent(
            move_record_of(game.local_move(x, y, pressed)->0)->0,
            Ok(()),
        ) == (
            game.played(game.local_move(x, y, pressed)->0),
            Ok::<(), SessionError>(()),
        ),
{
}

/// Two peers that start a game with different colours start in step.
pub proof fn lemma_start_in_step(color: ChessColor)
    ensures
        SyncView::start(color).in_step(SyncView::start(color.spec_opposite())),
{
}

/// Two peers that are in step stay in step, through both steps of a local
/// move.
///
/// An input here changes nothing between them, whether or not it completes a
/// move. When it completes one and its record goes out, the move is played
/// here, the peer accepts the record and plays the same move: both see the
/// same position again, and their turns fit together. When the send fails,
/// nothing is played here and nothing reaches the peer: they are in step as
/// before, with the local side still to move.
pub proof fn lemma_peers_stay_in_step(
    here: SyncView,
    there: SyncView,
    x: int,
    y: int,
    pressed: bool,
    e: SessionError,
)
    requires
        here.in_step(there),
    ensures
        here.after_input(x, y, pressed).in_step(there),
        here.local_move(x, y, pressed) matches Some(m) ==> {
            let record = move_record_of(m)->0;
            let chosen = here.after_input(x, y, pressed);
            &&& there.accepts_remote(record)
            &&& chosen.after_sent(record, Ok(())).1 is Ok
            &&& chosen.after_sent(record, Ok(())).0.in_step(there.after_remote(Some(record)))
            &&& chosen.after_sent(record, Err(e)).0.in_step(there)
            &&& chosen.after_sent(record, Err(e)).0.turn == TurnState::LocalTurn
        },
{
}

/// Whatever happens, the game stays well formed.
pub proof fn lemma_steps_keep_wf(
    game: SyncView,
    x: int,
    y: int,
    pressed: bool,
    record: MoveRecord,
    sent: Result<(), SessionError>,
    received: Option<MoveRecord>,
)
    requires
        game.wf(),
    ensures
        game.after_input(x, y, pressed).wf(),
        game.after_sent(record, sent).0.wf(),
        game.after_remote(received).wf(),
        SyncView::start(game.local_color).wf(),
{
    lemma_selection_resets(game.selector, x, y, pressed);
}

/// Keeps the turn, the position and the choice of the next local move in step.
pub struct TurnSynchronizer {
    local_color: ChessColor,
    turn: TurnState,
    position: Position,
    selector: MoveSelector,
}

impl View for TurnSynchronizer {
    type V = SyncView;

    closed spec fn view(&self) -> SyncView {
        SyncView {
            local_color: self.local_color,
            turn: self.turn,
            fen: self.position@,
            selector: self.selector@,
        }
    }
}

impl TurnSynchronizer {
    /// What every synchronizer keeps true of itself: it is well formed, and
    /// the legal moves it knows are written in full.
    pub open spec fn wf(&self) -> bool {
        self@.wf() && all_move_texts(self@.selector.moves)
    }

    /// The start of a game for the side that plays here.
    pub fn new(local_color: ChessColor) -> (sync: TurnSynchronizer)
        ensures
            sync@ == SyncView::start(local_color),
            sync.wf(),
    {
        let position = Position::initial();
        let moves = position.legal_moves();
        TurnSynchronizer {
            local_color,
            turn: first_turn(local_color),
            position,
            selector: MoveSelector::new(moves),
        }
    }

    /// The side that plays here.
    pub fn local_color(&self) -> (color: ChessColor)
        ensures
            color == self@.local_color,
    {
        self.local_color
    }

    /// Whose turn it is.
    pub fn turn(&self) -> (turn: TurnState)
        ensures
            turn == self@.turn,
    {
        self.turn
    }

    /// The position.
    pub fn position(&self) -> (position: &Position)
        ensures
            position@ == self@.fen,
    {
        &self.position
    }

    /// The choice of the next local move.
    pub fn selector(&self) -> (selector: &MoveSelector)
        ensures
            selector@ == self@.selector,
    {
        &self.selector
    }

    /// Whether the network is to be polled for a move of the peer.
    pub fn awaits_remote(&self) -> (polls: bool)
        ensures
            polls == (self@.turn == TurnState::RemoteTurn),
    {
        match self.turn {
            TurnState::RemoteTurn => true,
            _ => false,
        }
    }

    /// Whether the pointer is to be polled for a move of the local side.
    pub fn awaits_input(&self) -> (polls: bool)
        ensures
            polls == (self@.turn == TurnState::LocalTurn),
    {
        match self.turn {
            TurnState::LocalTurn => true,
            _ => false,
        }
    }

    /// Whether the game is over.
    pub fn is_over(&self) -> (over: bool)
        ensures
            over == (self@.turn is GameOver),
    {
        match self.turn {
            TurnState::GameOver(_) => true,
            _ => false,
        }
    }

    fn play(&mut self, next: Position)
        requires
            old(self).wf(),
        ensures
            final(self)@ == (SyncView {
                local_color: old(self)@.local_color,
                turn: turn_after(old(self)@.turn, status_of(next@)),
                fen: next@,
                selector: SelectorView {
                    selected_square: None,
                    moves: legal_moves(next@),
                    promotion_prompt: None,
                    promotion_move: None,
                },
            }),
            final(self).wf(),
    {
        let moves = next.legal_moves();
        let status = next.status();
        self.turn = next_turn(self.turn, status);
        self.position = next;
        self.selector.set_moves(moves);
    }

    /// Takes what a poll of the network gave.
    ///
    /// Nothing received changes nothing, and so does anything received while
    /// the remote side is not to move. A record received while it is to move
    /// is played by its squares and its promotion, and the turn passes on; a
    /// record that names no legal move is a `MoveApplicationError`, and the
    /// game stays as it was. A resignation or a draw offer that a record
    /// carries is for the caller to answer.
    pub fn apply_remote(&mut self, received: Option<MoveRecord>) -> (played: Result<
        bool,
        SessionError,
    >)
        requires
            old(self).wf(),
        ensures
            final(self).wf(),
            final(self)@ == old(self)@.after_remote(received),
            played == match received {
                Some(record) => if old(self)@.turn != TurnState::RemoteTurn {
                    Ok::<bool, SessionError>(false)
                } else if old(self)@.accepts_remote(record) {
                    Ok(true)
                } else {
                    Err(SessionError::MoveApplicationError)
                },
                None => Ok(false),
            },
    {
        let record = match received {
            Some(record) => record,
            None => {
                return Ok(false);
            },
        };
        if !self.awaits_remote() {
            return Ok(false);
        }
        let text = match move_string(&record) {
            Some(text) => text,
            None => {
                return Err(SessionError::MoveApplicationError);
            },
        };
        match self.position.play_checked(&self.selector.moves, text.as_str()) {
            Some(next) => {
                self.play(next);
                Ok(true)
            },
            None => Err(SessionError::MoveApplicationError),
        }
    }

    /// Takes one input of the pointer. Returns the record of the move that
    /// the input completes, for the caller to send to the peer and then to
    /// hand to `local_sent`. Nothing is played yet: the turn and the position
    /// stay as they are.
    ///
    /// The input counts only while the local side is to move. A completed
    /// move that is not among the legal moves is dropped.
    pub fn on_input(&mut self, x: i32, y: i32, pressed: bool) -> (chosen: Option<MoveRecord>)
        requires
            old(self).wf(),
        ensures
            final(self).wf(),
            final(self)@ == old(self)@.after_input(x as int, y as int, pressed),
            final(self)@.turn == old(self)@.turn,
            final(self)@.fen == old(self)@.fen,
            chosen == match old(self)@.local_move(x as int, y as int, pressed) {
                Some(m) => move_record_of(m),
                None => None,
            },
            chosen matches Some(record) ==> record.wf() && final(self)@.accepts_local(record),
            old(self)@.turn != TurnState::LocalTurn ==> chosen is None && final(self)@ == old(
                self,
            )@,
    {
        if !self.awaits_input() {
            return None;
        }
        let finalized = self.selector.on_update(x, y, pressed);
        let m = match finalized {
            Some(m) => m,
            None => {
                return None;
            },
        };
        if !contains_text(&self.selector.moves, m.as_str()) {
            return None;
        }
        proof {
            let moves = texts(self.selector.moves@);
            let i = choose|i: int| 0 <= i < moves.len() && moves[i] == m@;
            assert(moves[i] == m@);
            lemma_move_text_names_in_full(m@);
        }
        move_record(m.as_str())
    }

    /// Takes the outcome of sending a move of the local side, and plays the
    /// move once it has gone out.
    ///
    /// A send that failed leaves the game as it was, with the local side
    /// still to move, and its error is handed on. A move that went out is
    /// played, and the turn passes on. A record that names no legal move of
    /// the local side is a `MoveApplicationError`, and the game stays as it
    /// was.
    pub fn local_sent(&mut self, record: MoveRecord, sent: Result<(), SessionError>) -> (done:
        Result<(), SessionError>)
        requires
            old(self).wf(),
        ensures
            final(self).wf(),
            final(self)@ == old(self)@.after_sent(record, sent).0,
            done == old(self)@.after_sent(record, sent).1,
            sent is Err ==> done == sent && final(self)@ == old(self)@,
    {
        match sent {
            Err(e) => {
                return Err(e);
            },
            Ok(_) => {},
        }
        if !self.awaits_input() {
            return Err(SessionError::MoveApplicationError);
        }
        let text = match move_string(&record) {
            Some(text) => text,
            None => {
                return Err(SessionError::MoveApplicationError);
            },
        };
        match self.position.play_checked(&self.selector.moves, text.as_str()) {
            Some(next) => {
                self.play(next);
                Ok(())
            },
            None => Err(SessionError::MoveApplicationError),
        }
    }

    /// Takes the decision of the players. It counts only once the game is
    /// over: then a restart starts a new game with the same colours, and
    /// quitting leaves everything as it is. Returns whether the session goes on.
    pub fn on_decision(&mut self, decision: Decision) -> (goes_on: bool)
        requires
            old(self).wf(),
        ensures
            final(self).wf(),
            goes_on == !(old(self)@.turn is GameOver && decision == Decision::Quit),
            final(self)@ == if old(self)@.turn is GameOver && decision == Decision::Restart {
                SyncView::start(old(self)@.local_color)
            } else {
                old(self)@
            },
    {
        if !self.is_over() {
            return true;
        }
        match decision {
            Decision::Restart => {
                self.restart();
                true
            },
            Decision::Quit => false,
        }
    }

    /// Starts a new game once the game is over, with the same colours.
    /// Returns whether it did; a game that is not over goes on untouched.
    pub fn restart(&mut self) -> (restarted: bool)
        requires
            old(self).wf(),
        ensures
            final(self).wf(),
            restarted == (old(self)@.turn is GameOver),
            restarted ==> final(self)@ == SyncView::start(old(self)@.local_color),
            !restarted ==> final(self)@ == old(self)@,
    {
        if !self.is_over() {
            return false;
        }
        let position = Position::initial();
        let moves = position.legal_moves();
        self.turn = first_turn(self.local_color);
        self.position = position;
        self.selector.set_moves(moves);
        true
    }
}

} // verus!
