use netchess::notation::{is_promotion, move_record, move_squares, move_string, square};
use netchess::piece::PromotionPiece;
use netchess::records::MoveRecord;

#[test]
fn square_reads_corner_squares() {
    assert_eq!(square("a8"), Some(0));
    assert_eq!(square("h8"), Some(7));
    assert_eq!(square("a1"), Some(56));
    assert_eq!(square("h1"), Some(63));
    assert_eq!(square("e2"), Some(52));
}

#[test]
fn square_refuses_what_is_off_the_board() {
    assert_eq!(square(""), None);
    assert_eq!(square("e"), None);
    assert_eq!(square("i1"), None);
    assert_eq!(square("a9"), None);
    assert_eq!(square("a0"), None);
    assert_eq!(square("A1"), None);
}

#[test]
fn move_squares_reads_both_squares() {
    assert_eq!(move_squares("e2e4"), Some((52, 36)));
    assert_eq!(move_squares("e7e8q"), Some((12, 4)));
    assert_eq!(move_squares("e2e"), None);
    assert_eq!(move_squares("e2x4"), None);
}

#[test]
fn is_promotion_looks_at_the_fifth_character() {
    assert!(!is_promotion("e2e4"));
    assert!(is_promotion("e7e8q"));
    assert!(is_promotion("e7e8n"));
    assert!(!is_promotion("e5d6e"));
}

#[test]
fn move_string_writes_coordinates() {
    let plain = MoveRecord::new((4, 6), (4, 4), None);
    assert_eq!(move_string(&plain), Some("e2e4".to_string()));
    let promo = MoveRecord::new((4, 1), (4, 0), Some(PromotionPiece::Queen));
    assert_eq!(move_string(&promo), Some("e7e8q".to_string()));
    let off = MoveRecord::new((8, 0), (0, 0), None);
    assert_eq!(move_string(&off), None);
}

#[test]
fn move_record_reads_what_move_string_wrote() {
    for from in 0u8..64 {
        for to in 0u8..64 {
            for promotion in [
                None,
                Some(PromotionPiece::Knight),
                Some(PromotionPiece::Bishop),
                Some(PromotionPiece::Rook),
                Some(PromotionPiece::Queen),
            ] {
                let record = MoveRecord::new((from % 8, from / 8), (to % 8, to / 8), promotion);
                let text = move_string(&record).unwrap();
                assert_eq!(move_record(&text), Some(record));
            }
        }
    }
}
