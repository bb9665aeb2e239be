use netchess::color::ChessColor;
use netchess::engine::GameStatus;
use netchess::error::SessionError;
use netchess::link::{check_write, ReadOutcome, WriteOutcome};
use netchess::network::{ChessProtocol, Client, Server};
use netchess::notation::move_record;
use netchess::piece::PromotionPiece;
use netchess::records::{MoveRecord, Start};
use netchess::sync::{first_turn, next_turn, Decision, GameOverReason, TurnState, TurnSynchronizer};

const START: &str = "rnbqkbnr/pppppppp/8/8/8/8/PPPPPPPP/RNBQKBNR w KQkq - 0 1";

// Clicks the middle of the square with the given name.
fn click(sync: &mut TurnSynchronizer, square: &str) -> Option<MoveRecord> {
    let bytes = square.as_bytes();
    let file = (bytes[0] - b'a') as i32;
    let row = (b'8' - bytes[1]) as i32;
    sync.on_input(file * 128 + 64, row * 128 + 64, true)
}

// Chooses a move with two clicks and plays it as a move that went out.
fn local(sync: &mut TurnSynchronizer, from: &str, to: &str) -> Option<MoveRecord> {
    assert_eq!(click(sync, from), None);
    let chosen = click(sync, to)?;
    assert_eq!(sync.local_sent(chosen, Ok(())), Ok(()));
    Some(chosen)
}

fn remote(sync: &mut TurnSynchronizer, m: &str) -> Result<bool, SessionError> {
    sync.apply_remote(move_record(m))
}

// The two ends of a session after the handshake, with the host as White.
fn joined() -> (Server, Client, Start, Start) {
    let mut server = Server::new(true).unwrap();
    let mut client = Client::new(true).unwrap();
    let wanted = Start::new(true, "joiner".to_string());
    let opening = client.opening(&wanted).unwrap().unwrap();
    let host = server
        .handle_setup(Start::new(true, "host".to_string()), ReadOutcome::Data(opening))
        .unwrap();
    let joiner = client.handle_setup(wanted, ReadOutcome::Data(host.reply.unwrap())).unwrap();
    server.set_blocking(false).unwrap();
    client.set_blocking(false).unwrap();
    (server, client, host.start, joiner.start)
}

#[test]
fn first_turn_is_whites() {
    assert_eq!(first_turn(ChessColor::White), TurnState::LocalTurn);
    assert_eq!(first_turn(ChessColor::Black), TurnState::RemoteTurn);
}

#[test]
fn next_turn_alternates_until_the_game_ends() {
    assert_eq!(next_turn(TurnState::LocalTurn, GameStatus::InProgress), TurnState::RemoteTurn);
    assert_eq!(next_turn(TurnState::RemoteTurn, GameStatus::InProgress), TurnState::LocalTurn);
    for turn in [TurnState::LocalTurn, TurnState::RemoteTurn] {
        assert_eq!(
            next_turn(turn, GameStatus::Checkmate),
            TurnState::GameOver(GameOverReason::Checkmate)
        );
        assert_eq!(next_turn(turn, GameStatus::Draw), TurnState::GameOver(GameOverReason::Draw));
    }
    let over = TurnState::GameOver(GameOverReason::Draw);
    for status in [GameStatus::InProgress, GameStatus::Checkmate, GameStatus::Draw] {
        assert_eq!(next_turn(over, status), over);
    }
}

#[test]
fn host_that_asks_for_white_starts_and_the_joiner_waits() {
    let (_server, _client, host, joiner) = joined();
    assert!(host.is_white);
    assert!(!joiner.is_white);

    let host_sync = TurnSynchronizer::new(host.color());
    let joiner_sync = TurnSynchronizer::new(joiner.color());
    assert_eq!(host_sync.turn(), TurnState::LocalTurn);
    assert_eq!(joiner_sync.turn(), TurnState::RemoteTurn);
    assert_eq!(host_sync.local_color(), ChessColor::White);
    assert_eq!(joiner_sync.local_color(), ChessColor::Black);
    assert!(host_sync.awaits_input() && !host_sync.awaits_remote());
    assert!(joiner_sync.awaits_remote() && !joiner_sync.awaits_input());
}

#[test]
fn new_game_starts_from_the_usual_position() {
    let sync = TurnSynchronizer::new(ChessColor::White);
    assert_eq!(sync.position().fen(), START);
    assert_eq!(sync.selector().moves.len(), 20);
    assert_eq!(sync.selector().selected_square, None);
    assert!(!sync.is_over());
}

#[test]
fn local_click_at_e2_then_e4_sends_e2e4_and_passes_the_turn() {
    let mut sync = TurnSynchronizer::new(ChessColor::White);
    assert_eq!(click(&mut sync, "e2"), None);
    assert_eq!(sync.selector().selected_square, Some(52));
    assert_eq!(sync.turn(), TurnState::LocalTurn);

    // The second click completes the move, and nothing is played yet.
    let chosen = click(&mut sync, "e4");
    assert_eq!(chosen, Some(MoveRecord::new((4, 6), (4, 4), None)));
    assert_eq!(sync.turn(), TurnState::LocalTurn);
    assert_eq!(sync.position().fen(), START);
    assert_eq!(sync.selector().selected_square, None);

    // The move goes out, and is played.
    let (server, _client, _, _) = joined();
    let frame = server.send_move(chosen.unwrap()).unwrap();
    assert_eq!(frame, vec![2, 0, 6, 4, 6, 4, 4, 0, 0]);
    let sent = check_write(frame.len(), WriteOutcome::Wrote(frame.len()));
    assert_eq!(sync.local_sent(chosen.unwrap(), sent), Ok(()));
    assert_eq!(sync.turn(), TurnState::RemoteTurn);
    assert_eq!(
        sync.position().fen(),
        "rnbqkbnr/pppppppp/8/8/4P3/8/PPPP1PPP/RNBQKBNR b KQkq - 0 1"
    );
    assert_eq!(sync.selector().selected_square, None);
    assert_eq!(sync.selector().moves, sync.position().legal_moves());
}

#[test]
fn failed_send_leaves_the_turn_and_the_position() {
    let mut sync = TurnSynchronizer::new(ChessColor::White);
    assert_eq!(click(&mut sync, "e2"), None);
    let chosen = click(&mut sync, "e4").unwrap();

    for written in [WriteOutcome::Failed, WriteOutcome::Wrote(3), WriteOutcome::Wrote(0)] {
        let sent = check_write(9, written);
        assert_eq!(sync.local_sent(chosen, sent), Err(SessionError::IoError));
        assert_eq!(sync.turn(), TurnState::LocalTurn);
        assert_eq!(sync.position().fen(), START);
        assert_eq!(sync.selector().moves.len(), 20);
    }
    assert_eq!(
        sync.local_sent(chosen, Err(SessionError::ProtocolError)),
        Err(SessionError::ProtocolError)
    );
    assert_eq!(sync.turn(), TurnState::LocalTurn);

    // The same move can still go out.
    assert_eq!(sync.local_sent(chosen, Ok(())), Ok(()));
    assert_eq!(sync.turn(), TurnState::RemoteTurn);
}

#[test]
fn local_sent_refuses_what_is_no_legal_move_of_the_local_side() {
    let mut sync = TurnSynchronizer::new(ChessColor::White);
    let illegal = MoveRecord::new((4, 6), (4, 3), None);
    assert_eq!(sync.local_sent(illegal, Ok(())), Err(SessionError::MoveApplicationError));
    let off = MoveRecord::new((8, 6), (4, 4), None);
    assert_eq!(sync.local_sent(off, Ok(())), Err(SessionError::MoveApplicationError));
    assert_eq!(sync.turn(), TurnState::LocalTurn);
    assert_eq!(sync.position().fen(), START);

    // Not on the remote side's turn, and not once the game is over.
    let mut waiting = TurnSynchronizer::new(ChessColor::Black);
    let e2e4 = MoveRecord::new((4, 6), (4, 4), None);
    assert_eq!(waiting.local_sent(e2e4, Ok(())), Err(SessionError::MoveApplicationError));
    assert_eq!(waiting.turn(), TurnState::RemoteTurn);
    assert_eq!(waiting.position().fen(), START);
}

#[test]
fn local_sent_plays_a_legal_record_without_clicks() {
    let mut sync = TurnSynchronizer::new(ChessColor::White);
    assert_eq!(sync.local_sent(MoveRecord::new((6, 7), (5, 5), None), Ok(())), Ok(()));
    assert_eq!(sync.turn(), TurnState::RemoteTurn);
    assert_eq!(sync.position().board()[45], 'N');
}

#[test]
fn input_counts_only_on_the_local_turn() {
    let mut sync = TurnSynchronizer::new(ChessColor::Black);
    assert_eq!(click(&mut sync, "e7"), None);
    assert_eq!(click(&mut sync, "e5"), None);
    assert_eq!(sync.selector().selected_square, None);
    assert_eq!(sync.turn(), TurnState::RemoteTurn);
    assert_eq!(sync.position().fen(), START);
}

#[test]
fn remote_move_is_played_and_passes_the_turn() {
    let mut sync = TurnSynchronizer::new(ChessColor::Black);
    assert_eq!(remote(&mut sync, "e2e4"), Ok(true));
    assert_eq!(sync.turn(), TurnState::LocalTurn);
    assert_eq!(
        sync.position().fen(),
        "rnbqkbnr/pppppppp/8/8/4P3/8/PPPP1PPP/RNBQKBNR b KQkq - 0 1"
    );
    assert_eq!(local(&mut sync, "e7", "e5"), Some(MoveRecord::new((4, 1), (4, 3), None)));
    assert_eq!(sync.turn(), TurnState::RemoteTurn);
}

#[test]
fn nothing_received_changes_nothing() {
    let mut sync = TurnSynchronizer::new(ChessColor::Black);
    assert_eq!(sync.apply_remote(None), Ok(false));
    assert_eq!(sync.turn(), TurnState::RemoteTurn);
    assert_eq!(sync.position().fen(), START);

    let (mut server, _client, _, _) = joined();
    let polled = server.receive_move(ReadOutcome::WouldBlock);
    assert_eq!(polled, Ok(None));
    assert_eq!(sync.apply_remote(polled.unwrap()), Ok(false));
    assert_eq!(sync.turn(), TurnState::RemoteTurn);
}

#[test]
fn remote_move_on_the_local_turn_is_ignored() {
    let mut sync = TurnSynchronizer::new(ChessColor::White);
    assert_eq!(remote(&mut sync, "e2e4"), Ok(false));
    assert_eq!(sync.turn(), TurnState::LocalTurn);
    assert_eq!(sync.position().fen(), START);
}

#[test]
fn remote_move_that_is_not_legal_is_an_error() {
    let mut sync = TurnSynchronizer::new(ChessColor::Black);
    assert_eq!(remote(&mut sync, "e2e5"), Err(SessionError::MoveApplicationError));
    assert_eq!(
        sync.apply_remote(Some(MoveRecord::new((9, 9), (0, 0), None))),
        Err(SessionError::MoveApplicationError)
    );
    assert_eq!(sync.turn(), TurnState::RemoteTurn);
    assert_eq!(sync.position().fen(), START);
    assert_eq!(remote(&mut sync, "e2e4"), Ok(true));
}

#[test]
fn second_click_without_a_legal_move_keeps_the_turn() {
    let mut sync = TurnSynchronizer::new(ChessColor::White);
    assert_eq!(local(&mut sync, "e2", "e5"), None);
    assert_eq!(sync.turn(), TurnState::LocalTurn);
    assert_eq!(sync.selector().selected_square, None);
    assert_eq!(sync.position().fen(), START);
}

#[test]
fn checkmate_ends_the_game_until_a_restart() {
    let mut sync = TurnSynchronizer::new(ChessColor::White);
    assert!(local(&mut sync, "f2", "f3").is_some());
    assert_eq!(remote(&mut sync, "e7e5"), Ok(true));
    assert!(local(&mut sync, "g2", "g4").is_some());
    assert_eq!(remote(&mut sync, "d8h4"), Ok(true));
    let over = TurnState::GameOver(GameOverReason::Checkmate);
    assert_eq!(sync.turn(), over);
    assert!(sync.is_over());
    assert!(!sync.awaits_input() && !sync.awaits_remote());

    let fen = sync.position().fen();
    assert_eq!(click(&mut sync, "e2"), None);
    assert_eq!(sync.selector().selected_square, None);
    assert_eq!(
        sync.local_sent(MoveRecord::new((4, 6), (4, 4), None), Ok(())),
        Err(SessionError::MoveApplicationError)
    );
    assert_eq!(remote(&mut sync, "e2e4"), Ok(false));
    assert_eq!(sync.turn(), over);
    assert_eq!(sync.position().fen(), fen);

    assert!(sync.restart());
    assert_eq!(sync.turn(), TurnState::LocalTurn);
    assert_eq!(sync.position().fen(), START);
    assert_eq!(sync.selector().moves.len(), 20);
}

#[test]
fn local_checkmate_ends_the_game_too() {
    let mut sync = TurnSynchronizer::new(ChessColor::Black);
    assert_eq!(remote(&mut sync, "f2f3"), Ok(true));
    assert!(local(&mut sync, "e7", "e5").is_some());
    assert_eq!(remote(&mut sync, "g2g4"), Ok(true));
    assert_eq!(local(&mut sync, "d8", "h4"), Some(MoveRecord::new((3, 0), (7, 4), None)));
    assert_eq!(sync.turn(), TurnState::GameOver(GameOverReason::Checkmate));
    assert!(sync.on_decision(Decision::Restart));
    assert_eq!(sync.turn(), TurnState::RemoteTurn);
    assert_eq!(sync.position().fen(), START);
}

#[test]
fn stalemate_ends_the_game_as_a_draw() {
    let mut sync = TurnSynchronizer::new(ChessColor::White);
    let white = [
        ("e2", "e3"), ("d1", "h5"), ("h5", "a5"), ("h2", "h4"), ("a5", "c7"), ("c7", "d7"),
        ("d7", "b7"), ("b7", "b8"), ("b8", "c8"), ("c8", "e6"),
    ];
    let black = ["a7a5", "a8a6", "h7h5", "a6h6", "f7f6", "e8f7", "d8d3", "d3h7", "f7g6"];
    for (i, (from, to)) in white.iter().enumerate() {
        assert!(local(&mut sync, from, to).is_some());
        if i < black.len() {
            assert_eq!(remote(&mut sync, black[i]), Ok(true));
        }
    }
    assert_eq!(sync.turn(), TurnState::GameOver(GameOverReason::Draw));
}

#[test]
fn restart_does_nothing_while_the_game_goes_on() {
    let mut sync = TurnSynchronizer::new(ChessColor::White);
    assert!(local(&mut sync, "e2", "e4").is_some());
    let fen = sync.position().fen();
    assert!(!sync.restart());
    assert!(sync.on_decision(Decision::Restart));
    assert!(sync.on_decision(Decision::Quit));
    assert_eq!(sync.turn(), TurnState::RemoteTurn);
    assert_eq!(sync.position().fen(), fen);
}

#[test]
fn quit_after_the_game_stops_the_session() {
    let mut sync = TurnSynchronizer::new(ChessColor::White);
    assert!(local(&mut sync, "f2", "f3").is_some());
    assert_eq!(remote(&mut sync, "e7e5"), Ok(true));
    assert!(local(&mut sync, "g2", "g4").is_some());
    assert_eq!(remote(&mut sync, "d8h4"), Ok(true));
    assert!(!sync.on_decision(Decision::Quit));
    assert!(sync.is_over());
}

#[test]
fn promotion_is_chosen_sent_and_played() {
    let mut sync = TurnSynchronizer::new(ChessColor::White);
    let black = ["g7g5", "g8f6", "a7a6", "a6a5"];
    let white = [("h2", "h4"), ("h4", "g5"), ("g5", "g6"), ("g6", "g7")];
    for (i, (from, to)) in white.iter().enumerate() {
        assert!(local(&mut sync, from, to).is_some());
        assert_eq!(remote(&mut sync, black[i]), Ok(true));
    }
    assert_eq!(click(&mut sync, "g7"), None);
    assert_eq!(sync.on_input(800, 50, true), None);
    assert!(sync.selector().promotion_move.is_some());
    assert_eq!(sync.turn(), TurnState::LocalTurn);
    // A click beside the four pieces leaves the prompt open.
    assert_eq!(sync.on_input(100, 900, true), None);
    assert!(sync.selector().promotion_move.is_some());
    // The prompt stands at (462, 50); the knight is the first of the row.
    let chosen = sync.on_input(500, 100, true);
    assert_eq!(chosen, Some(MoveRecord::new((6, 1), (6, 0), Some(PromotionPiece::Knight))));
    assert_eq!(sync.turn(), TurnState::LocalTurn);
    assert_eq!(sync.position().board()[6], '.');
    assert_eq!(sync.local_sent(chosen.unwrap(), Ok(())), Ok(()));
    assert_eq!(sync.turn(), TurnState::RemoteTurn);
    assert_eq!(sync.position().board()[6], 'N');
    assert!(sync.selector().promotion_move.is_none());
}

#[test]
fn remote_promotion_is_played_with_its_piece() {
    let mut sync = TurnSynchronizer::new(ChessColor::Black);
    let white = ["h2h4", "h4g5", "g5g6", "g6g7"];
    let black = [("g7", "g5"), ("g8", "f6"), ("a7", "a6"), ("a6", "a5")];
    for (i, m) in white.iter().enumerate() {
        assert_eq!(remote(&mut sync, m), Ok(true));
        assert!(local(&mut sync, black[i].0, black[i].1).is_some());
    }
    let record = MoveRecord::new((6, 1), (6, 0), Some(PromotionPiece::Rook));
    assert_eq!(sync.apply_remote(Some(record)), Ok(true));
    assert_eq!(sync.position().board()[6], 'R');
    assert_eq!(sync.turn(), TurnState::LocalTurn);
}

#[test]
fn two_ends_play_a_game_over_the_wire() {
    let (mut server, mut client, host, joiner) = joined();
    let mut white = TurnSynchronizer::new(host.color());
    let mut black = TurnSynchronizer::new(joiner.color());

    let game = [("f2", "f3"), ("e7", "e5"), ("g2", "g4"), ("d8", "h4")];
    for (i, (from, to)) in game.iter().enumerate() {
        if i % 2 == 0 {
            let sent = local(&mut white, from, to).unwrap();
            let frame = server.send_move(sent).unwrap();
            let got = client.receive_move(ReadOutcome::Data(frame)).unwrap();
            assert_eq!(got, Some(sent));
            assert_eq!(black.apply_remote(got), Ok(true));
        } else {
            let sent = local(&mut black, from, to).unwrap();
            let frame = client.send_move(sent).unwrap();
            let got = server.receive_move(ReadOutcome::Data(frame)).unwrap();
            assert_eq!(got, Some(sent));
            assert_eq!(white.apply_remote(got), Ok(true));
        }
        assert_eq!(white.position().fen(), black.position().fen());
    }
    assert_eq!(white.turn(), TurnState::GameOver(GameOverReason::Checkmate));
    assert_eq!(black.turn(), TurnState::GameOver(GameOverReason::Checkmate));
}
