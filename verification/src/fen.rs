//! Reading a position in Forsyth-Edwards notation: where the pieces stand,
//! and which side is to move.
//!
//! The first field of the text lists the rows from rank 8 down, separated by
//! `/`. In a row a letter is a piece and a digit a run of empty squares. The
//! second field, after a space, is `w` when White is to move.

use vstd::prelude::*;
use vstd::string::*;
use crate::color::ChessColor;

verus! {

/// The mark of an empty square.
pub const EMPTY_SQUARE: char = '.';

/// A board with no piece on it.
pub open spec fn empty_board() -> Seq<char> {
    Seq::new(64, |i: int| EMPTY_SQUARE)
}

/// The board after reading the text from its `i`-th character on, with the
/// next square to fill at a row and a file, and a board filled so far. What
/// falls off the board is dropped; the first space ends the field.
pub open spec fn scan_placement(fen: Seq<char>, i: int, row: int, file: int, board: Seq<char>) -> Seq<char>
    decreases fen.len() - i,
{
    if i < 0 || i >= fen.len() || fen[i] == ' ' {
        board
    } else if fen[i] == '/' {
        scan_placement(fen, i + 1, row + 1, 0, board)
    } else if '1' <= fen[i] <= '8' {
        scan_placement(fen, i + 1, row, file + (fen[i] as int - '0' as int), board)
    } else if 0 <= row < 8 && 0 <= file < 8 {
        scan_placement(fen, i + 1, row, file + 1, board.update(row * 8 + file, fen[i]))
    } else {
        scan_placement(fen, i + 1, row, file + 1, board)
    }
}

/// The 64 squares of a position, row by row from the top left corner as
/// White sees the board: the letter of a piece, or the mark of an empty square.
pub open spec fn placement_of(fen: Seq<char>) -> Seq<char> {
    scan_placement(fen, 0, 0, 0, empty_board())
}

/// The place of the first space of a text from its `i`-th character on, or
/// the length of the text where there is none.
pub open spec fn first_space(fen: Seq<char>, i: int) -> int
    decreases fen.len() - i,
{
    if i < 0 || i >= fen.len() {
        fen.len() as int
    } else if fen[i] == ' ' {
        i
    } else {
        first_space(fen, i + 1)
    }
}

/// The side to move in a position: White where the second field starts
/// with `w`, and Black otherwise.
pub open spec fn side_of(fen: Seq<char>) -> ChessColor {
    let at = first_space(fen, 0) + 1;
    if at < fen.len() && fen[at] == 'w' {
        ChessColor::White
    } else {
        ChessColor::Black
    }
}

/// Reads where the pieces stand.
pub fn placement(fen: &str) -> (board: Vec<char>)
    ensures
        board@ == placement_of(fen@),
        board.len() == 64,
{
    let mut board: Vec<char> = Vec::new();
    let mut k: usize = 0;
    while k < 64
        invariant
            k <= 64,
            board.len() == k,
            forall|j: int| 0 <= j < k ==> board[j] == EMPTY_SQUARE,
        decreases 64 - k,
    {
        board.push(EMPTY_SQUARE);
        k = k + 1;
    }
    assert(board@ =~= empty_board());
    let n = fen.unicode_len();
    let mut i: usize = 0;
    let mut row: usize = 0;
    // The file, held at 8 once it has left the board.
    let mut file: usize = 0;
    let ghost mut true_file: int = 0;
    while i < n
        invariant
            n == fen@.len(),
            i <= n,
            board.len() == 64,
            row <= i,
            file <= 8,
            file == if true_file < 8 {
                true_file
            } else {
                8
            },
            0 <= true_file,
            placement_of(fen@) == scan_placement(fen@, i as int, row as int, true_file, board@),
        decreases n - i,
    {
        let c = fen.get_char(i);
        if c == ' ' {
            return board;
        }
        if c == '/' {
            row = row + 1;
            file = 0;
            proof {
                true_file = 0;
            }
        } else if '1' <= c && c <= '8' {
            let run: usize = c as usize - '0' as usize;
            file = if file + run < 8 {
                file + run
            } else {
                8
            };
            proof {
                true_file = true_file + run;
            }
        } else {
            if row < 8 && file < 8 {
                board.set(row * 8 + file, c);
            }
            file = if file < 8 {
                file + 1
            } else {
                8
            };
            proof {
                true_file = true_file + 1;
            }
        }
        i = i + 1;
    }
    board
}

/// Reads which side is to move.
pub fn side_to_move(fen: &str) -> (side: ChessColor)
    ensures
        side == side_of(fen@),
{
    let n = fen.unicode_len();
    let mut i: usize = 0;
    while i < n
        invariant
            n == fen@.len(),
            i <= n,
            first_space(fen@, 0) == first_space(fen@, i as int),
        decreases n - i,
    {
        if fen.get_char(i) == ' ' {
            if i + 1 < n && fen.get_char(i + 1) == 'w' {
                return ChessColor::White;
            } else {
                return ChessColor::Black;
            }
        }
        i = i + 1;
    }
    ChessColor::Black
}

} // verus!
