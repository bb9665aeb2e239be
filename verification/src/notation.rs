//! Squares and moves in coordinate notation, such as `e2e4` and `e7e8q`.
//!
//! A square has an index from 0 to 63 that counts along the rows from the
//! top left corner of the board as White sees it: `a8` is 0, `h8` is 7 and
//! `h1` is 63.

use vstd::prelude::*;
use vstd::string::*;
use crate::piece::{promotion_of_code, PromotionPiece};
use crate::records::MoveRecord;

verus! {

/// Appending one character (`String::push` of the standard library).
pub assume_specification[ String::push ](s: &mut String, c: char)
    ensures
        final(s)@ == old(s)@.push(c),
;

/// The file, from 0 for `a` to 7 for `h`, that a letter names.
pub open spec fn file_of_letter(c: char) -> Option<u32> {
    if 'a' <= c <= 'h' {
        Some((c as u32 - 'a' as u32) as u32)
    } else {
        None
    }
}

/// The row, from 0 for rank 8 to 7 for rank 1, that a digit names.
pub open spec fn row_of_digit(c: char) -> Option<u32> {
    if '1' <= c <= '8' {
        Some(('8' as u32 - c as u32) as u32)
    } else {
        None
    }
}

/// The index of the square that a file letter and a rank digit name.
pub open spec fn square_of_pair(file: char, rank: char) -> Option<u32> {
    match (file_of_letter(file), row_of_digit(rank)) {
        (Some(f), Some(r)) => Some((r * 8 + f) as u32),
        _ => None,
    }
}

/// The index of the square that the first two characters of a text name.
pub open spec fn square_of(s: Seq<char>) -> Option<u32> {
    if s.len() >= 2 {
        square_of_pair(s[0], s[1])
    } else {
        None
    }
}

/// The squares a move leaves and reaches, read from its first four characters.
pub open spec fn move_squares_of(s: Seq<char>) -> Option<(u32, u32)> {
    if s.len() >= 4 {
        match (square_of_pair(s[0], s[1]), square_of_pair(s[2], s[3])) {
            (Some(from), Some(to)) => Some((from, to)),
            _ => None,
        }
    } else {
        None
    }
}

/// A move promotes when it has a fifth character that is not the en passant mark.
pub open spec fn is_promotion_of(s: Seq<char>) -> bool {
    s.len() >= 5 && s[4] != 'e'
}

/// The letter of a file.
pub open spec fn letter_of_file(file: u8) -> char {
    (('a' as u8 + file) as u8) as char
}

/// The digit of a row.
pub open spec fn digit_of_row(row: u8) -> char {
    (('8' as u8 - row) as u8) as char
}

/// The text of a move whose squares lie on the board.
pub open spec fn move_string_of(record: MoveRecord) -> Seq<char> {
    let squares = seq![
        letter_of_file(record.from.0),
        digit_of_row(record.from.1),
        letter_of_file(record.to.0),
        digit_of_row(record.to.1),
    ];
    match record.promotion {
        Some(p) => squares.push(p.spec_code()),
        None => squares,
    }
}

/// The record of a move text: its two squares and, where the fifth character
/// names one, the promotion piece.
pub open spec fn move_record_of(s: Seq<char>) -> Option<MoveRecord> {
    match move_squares_of(s) {
        Some((from, to)) => Some(
            MoveRecord {
                from: ((from % 8) as u8, (from / 8) as u8),
                to: ((to % 8) as u8, (to / 8) as u8),
                promotion: if s.len() >= 5 {
                    promotion_of_code(s[4])
                } else {
                    None
                },
                forfeit: false,
                offer_draw: false,
            },
        ),
        None => None,
    }
}

/// A text is a move written in full: two squares of the board, and after
/// them nothing, or the letter of a promotion piece.
pub open spec fn is_move_text(m: Seq<char>) -> bool {
    &&& move_squares_of(m) is Some
    &&& m.len() == 4 || (m.len() == 5 && promotion_of_code(m[4]) is Some)
}

/// A move text has a record, and the record is written as that very text.
pub open spec fn names_in_full(m: Seq<char>) -> bool {
    move_record_of(m) matches Some(record) && move_string_of(record) == m
}

fn square_from_pair(file: char, rank: char) -> (sq: Option<u32>)
    ensures
        sq == square_of_pair(file, rank),
        sq matches Some(i) ==> i < 64,
{
    if 'a' <= file && file <= 'h' && '1' <= rank && rank <= '8' {
        let f: u32 = file as u32 - 'a' as u32;
        let r: u32 = '8' as u32 - rank as u32;
        Some(r * 8 + f)
    } else {
        None
    }
}

/// Reads the square that the first two characters of `s` name.
///
/// `None` when `s` is shorter than that or names no square of the board.
pub fn square(s: &str) -> (sq: Option<u32>)
    ensures
        sq == square_of(s@),
        sq matches Some(i) ==> i < 64,
{
    if s.unicode_len() < 2 {
        return None;
    }
    square_from_pair(s.get_char(0), s.get_char(1))
}

/// Reads the squares that a move leaves and reaches.
///
/// `None` when `s` has fewer than four characters or when either pair names
/// no square of the board.
pub fn move_squares(s: &str) -> (squares: Option<(u32, u32)>)
    ensures
        squares == move_squares_of(s@),
        squares matches Some((from, to)) ==> from < 64 && to < 64,
{
    if s.unicode_len() < 4 {
        return None;
    }
    let from = square_from_pair(s.get_char(0), s.get_char(1));
    let to = square_from_pair(s.get_char(2), s.get_char(3));
    match (from, to) {
        (Some(f), Some(t)) => Some((f, t)),
        _ => None,
    }
}

/// Tells whether a move is a promotion.
pub fn is_promotion(m: &str) -> (promotes: bool)
    ensures
        promotes == is_promotion_of(m@),
{
    m.unicode_len() >= 5 && m.get_char(4) != 'e'
}

/// Writes a move in coordinate notation.
///
/// `None` when one of the record's squares lies off the board.
pub fn move_string(record: &MoveRecord) -> (text: Option<String>)
    ensures
        text is Some <==> record.from.0 < 8 && record.from.1 < 8 && record.to.0 < 8 && record.to.1
            < 8,
        text matches Some(s) ==> s@ == move_string_of(*record),
{
    if !(record.from.0 < 8 && record.from.1 < 8 && record.to.0 < 8 && record.to.1 < 8) {
        return None;
    }
    let mut s = String::new();
    s.push(('a' as u8 + record.from.0) as char);
    s.push(('8' as u8 - record.from.1) as char);
    s.push(('a' as u8 + record.to.0) as char);
    s.push(('8' as u8 - record.to.1) as char);
    match record.promotion {
        Some(p) => {
            s.push(p.code());
        },
        None => {},
    }
    Some(s)
}

/// Reads a move in coordinate notation into a record that carries neither a
/// resignation nor a draw offer.
///
/// `None` exactly when `move_squares` finds no pair of squares.
pub fn move_record(m: &str) -> (record: Option<MoveRecord>)
    ensures
        record == move_record_of(m@),
        record matches Some(r) ==> r.wf(),
{
    match move_squares(m) {
        Some((from, to)) => {
            let promotion = if m.unicode_len() >= 5 {
                PromotionPiece::from_code(m.get_char(4))
            } else {
                None
            };
            Some(
                MoveRecord {
                    from: ((from % 8) as u8, (from / 8) as u8),
                    to: ((to % 8) as u8, (to / 8) as u8),
                    promotion,
                    forfeit: false,
                    offer_draw: false,
                },
            )
        },
        None => None,
    }
}

/// Writing a move and reading it back gives the same squares and promotion,
/// with no resignation and no draw offer.
pub proof fn lemma_move_string_round_trip(record: MoveRecord)
    requires
        record.from.0 < 8,
        record.from.1 < 8,
        record.to.0 < 8,
        record.to.1 < 8,
    ensures
        move_record_of(move_string_of(record)) == Some(
            MoveRecord { forfeit: false, offer_draw: false, ..record },
        ),
{
}

/// A move written in full has a well-formed record, and the record is
/// written as that very text.
pub proof fn lemma_move_text_names_in_full(m: Seq<char>)
    requires
        is_move_text(m),
    ensures
        names_in_full(m),
        move_record_of(m)->0.wf(),
{
    let record = move_record_of(m)->0;
    assert(letter_of_file(record.from.0) == m[0]);
    assert(digit_of_row(record.from.1) == m[1]);
    assert(letter_of_file(record.to.0) == m[2]);
    assert(digit_of_row(record.to.1) == m[3]);
    assert(move_string_of(record) =~= m);
}

} // verus!
