//! Choosing a move with the pointer: a first click picks a square, a second
//! one picks where the piece goes, and a pawn that reaches the last rank
//! asks which piece it becomes.

use vstd::prelude::*;
use vstd::string::*;
use crate::notation::{is_promotion, is_promotion_of, move_squares, move_squares_of};
use crate::piece::{promotion_at, PromotionPiece};

verus! {

/// Width of the board in pixels.
pub const WINDOW_WIDTH: i32 = 1024;

/// Height of the board in pixels.
pub const WINDOW_HEIGHT: i32 = 1024;

/// Side of one square in pixels.
pub const RECT_WIDTH: i32 = 128;

/// Space above and below the row of promotion choices.
pub const PROMPT_HEIGHT_PAD: i32 = 10;

/// Space left and right of the row of promotion choices.
pub const PROMPT_EDGE_PAD: i32 = 25;

/// Width of the promotion prompt.
pub const PROMPT_WIDTH: i32 = 562;

/// Height of the promotion prompt.
pub const PROMPT_HEIGHT: i32 = 148;

/// Removing the last character (`String::pop` of the standard library): an
/// empty text stays as it is and gives `None`.
pub assume_specification[ String::pop ](s: &mut String) -> (c: Option<char>)
    ensures
        old(s)@.len() == 0 ==> c is None && final(s)@ == old(s)@,
        old(s)@.len() > 0 ==> c == Some(old(s)@.last()) && final(s)@ == old(s)@.drop_last(),
;

/// The square under a point of the window, if the point lies on the board.
pub open spec fn square_at_point(x: int, y: int) -> Option<u32> {
    if 0 <= x < WINDOW_WIDTH && 0 <= y < WINDOW_HEIGHT {
        Some(((y / (RECT_WIDTH as int)) * 8 + x / (RECT_WIDTH as int)) as u32)
    } else {
        None
    }
}

/// The square under a point of the window.
///
/// `None` when the point lies outside the board.
pub fn square_at(x: i32, y: i32) -> (sq: Option<u32>)
    ensures
        sq == square_at_point(x as int, y as int),
        sq matches Some(i) ==> i < 64,
{
    if 0 <= x && x < WINDOW_WIDTH && 0 <= y && y < WINDOW_HEIGHT {
        let row: u32 = (y / RECT_WIDTH) as u32;
        let col: u32 = (x / RECT_WIDTH) as u32;
        Some(row * 8 + col)
    } else {
        None
    }
}

/// The top left corner of a square in the window.
pub open spec fn corner_of(square: u32) -> (int, int) {
    ((square % 8) * RECT_WIDTH, (square / 8) * RECT_WIDTH)
}

/// The top left corner of a square in the window; `None` off the board.
pub fn square_corner(square: u32) -> (corner: Option<(i32, i32)>)
    ensures
        corner is Some <==> square < 64,
        corner matches Some((x, y)) ==> (x as int, y as int) == corner_of(square)
            && square_at_point(x as int, y as int) == Some(square),
{
    if square >= 64 {
        return None;
    }
    let col: i32 = (square % 8) as i32;
    let row: i32 = (square / 8) as i32;
    Some((col * RECT_WIDTH, row * RECT_WIDTH))
}

/// The prompt that offers the four promotion pieces in a row, placed by its
/// top left corner.
#[derive(Clone, Copy, Debug, PartialEq, Eq, Structural)]
pub struct PromotionUI {
    pub x: i32,
    pub y: i32,
}

impl PromotionUI {
    /// The corner of a prompt opened at a point: the point itself, moved left
    /// and up as far as needed for the prompt to end inside the window.
    pub open spec fn opened_at(x: int, y: int) -> PromotionUI {
        PromotionUI {
            x: (if x > WINDOW_WIDTH - PROMPT_WIDTH {
                WINDOW_WIDTH - PROMPT_WIDTH
            } else {
                x
            }) as i32,
            y: (if y > WINDOW_HEIGHT - PROMPT_HEIGHT {
                WINDOW_HEIGHT - PROMPT_HEIGHT
            } else {
                y
            }) as i32,
        }
    }

    /// Opens the prompt at a point of the window.
    pub fn new(x: i32, y: i32) -> (prompt: PromotionUI)
        ensures
            prompt == Self::opened_at(x as int, y as int),
            prompt.x <= x,
            prompt.y <= y,
            prompt.x + PROMPT_WIDTH <= WINDOW_WIDTH,
            prompt.y + PROMPT_HEIGHT <= WINDOW_HEIGHT,
    {
        let px = if x > WINDOW_WIDTH - PROMPT_WIDTH {
            WINDOW_WIDTH - PROMPT_WIDTH
        } else {
            x
        };
        let py = if y > WINDOW_HEIGHT - PROMPT_HEIGHT {
            WINDOW_HEIGHT - PROMPT_HEIGHT
        } else {
            y
        };
        PromotionUI { x: px, y: py }
    }

    /// The left edge of the choice at a place in the row.
    pub open spec fn choice_left(self, idx: int) -> int {
        self.x + idx * RECT_WIDTH + PROMPT_EDGE_PAD
    }

    /// The top edge of the row of choices.
    pub open spec fn choice_top(self) -> int {
        self.y + PROMPT_HEIGHT_PAD
    }

    /// The point lies in the square of the choice at a place in the row. A
    /// square holds its left and top edges and not its right and bottom ones.
    pub open spec fn in_choice(self, idx: int, x: int, y: int) -> bool {
        &&& self.choice_left(idx) <= x < self.choice_left(idx) + RECT_WIDTH
        &&& self.choice_top() <= y < self.choice_top() + RECT_WIDTH
    }

    /// The piece whose square holds the point, if any does.
    pub open spec fn choice_at(self, x: int, y: int) -> Option<PromotionPiece> {
        if self.in_choice(0, x, y) {
            promotion_at(0)
        } else if self.in_choice(1, x, y) {
            promotion_at(1)
        } else if self.in_choice(2, x, y) {
            promotion_at(2)
        } else if self.in_choice(3, x, y) {
            promotion_at(3)
        } else {
            None
        }
    }

    /// The piece that a click chooses: the one whose square holds the point
    /// while the button goes down, `None` for every other input.
    pub fn update(&self, x: i32, y: i32, pressed: bool) -> (choice: Option<PromotionPiece>)
        ensures
            choice == if pressed {
                self.choice_at(x as int, y as int)
            } else {
                None
            },
    {
        if !pressed {
            return None;
        }
        let top: i64 = self.y as i64 + PROMPT_HEIGHT_PAD as i64;
        if !(top <= y as i64 && (y as i64) < top + RECT_WIDTH as i64) {
            return None;
        }
        let mut idx: usize = 0;
        while idx < 4
            invariant
                pressed,
                idx <= 4,
                self.choice_top() <= y < self.choice_top() + RECT_WIDTH,
                forall|j: int| 0 <= j < idx ==> !self.in_choice(j, x as int, y as int),
            decreases 4 - idx,
        {
            let left: i64 = self.x as i64 + (idx as i64) * (RECT_WIDTH as i64) + PROMPT_EDGE_PAD as i64;
            if left <= x as i64 && (x as i64) < left + RECT_WIDTH as i64 {
                return PromotionPiece::from_index(idx);
            }
            idx = idx + 1;
        }
        None
    }
}

/// The texts of a list of moves.
pub open spec fn texts(moves: Seq<String>) -> Seq<Seq<char>> {
    Seq::new(moves.len(), |i: int| moves[i]@)
}

/// A move leaves one given square and reaches another.
pub open spec fn move_matches(m: Seq<char>, from: u32, to: u32) -> bool {
    move_squares_of(m) == Some((from, to))
}

/// The first move of a list that leaves one given square and reaches another.
pub open spec fn find_move(moves: Seq<Seq<char>>, from: u32, to: u32) -> Option<Seq<char>>
    decreases moves.len(),
{
    if moves.len() == 0 {
        None
    } else if move_matches(moves[0], from, to) {
        Some(moves[0])
    } else {
        find_move(moves.drop_first(), from, to)
    }
}

/// The squares that the moves from one square reach, in the order of the moves.
pub open spec fn targets_of(moves: Seq<Seq<char>>, from: u32) -> Seq<u32>
    decreases moves.len(),
{
    if moves.len() == 0 {
        Seq::empty()
    } else {
        let before = targets_of(moves.drop_last(), from);
        match move_squares_of(moves.last()) {
            Some((f, t)) => if f == from {
                before.push(t)
            } else {
                before
            },
            None => before,
        }
    }
}

/// A promotion move with its last character replaced by the letter of the
/// chosen piece.
pub open spec fn with_promotion(m: Seq<char>, piece: PromotionPiece) -> Seq<char> {
    if m.len() > 0 {
        m.drop_last().push(piece.spec_code())
    } else {
        seq![piece.spec_code()]
    }
}

/// The three states of choosing a move.
pub enum SelectionState {
    /// Nothing is chosen.
    Idle,
    /// The square that the piece leaves is chosen.
    SquareSelected { square: u32 },
    /// The squares are chosen, and the prompt asks for the promotion piece.
    AwaitingPromotion { prefix: Seq<char> },
}

/// What a `MoveSelector` holds, with texts as sequences of characters.
pub struct SelectorView {
    pub selected_square: Option<u32>,
    pub moves: Seq<Seq<char>>,
    pub promotion_prompt: Option<PromotionUI>,
    pub promotion_move: Option<Seq<char>>,
}

impl SelectorView {
    /// The prompt is open exactly while a promotion move waits, and a waiting
    /// promotion move keeps its first square chosen.
    pub open spec fn wf(self) -> bool {
        &&& self.promotion_move is Some <==> self.promotion_prompt is Some
        &&& self.promotion_move is Some ==> self.selected_square is Some
    }

    /// The state of the choice.
    pub open spec fn state(self) -> SelectionState {
        match self.promotion_move {
            Some(prefix) => SelectionState::AwaitingPromotion { prefix },
            None => match self.selected_square {
                Some(square) => SelectionState::SquareSelected { square },
                None => SelectionState::Idle,
            },
        }
    }

    /// The selector with nothing chosen.
    pub open spec fn cleared(self) -> SelectorView {
        SelectorView {
            selected_square: None,
            promotion_prompt: None,
            promotion_move: None,
            ..self
        }
    }

    /// The piece that a click chooses in the open prompt.
    pub open spec fn prompt_choice(self, x: int, y: int, pressed: bool) -> Option<PromotionPiece> {
        match self.promotion_prompt {
            Some(prompt) => if pressed {
                prompt.choice_at(x, y)
            } else {
                None
            },
            None => None,
        }
    }

    /// The selector after one input, and the move that the input completes.
    ///
    /// While a promotion waits, only a click on one of the four pieces counts.
    /// Otherwise a click on the board chooses the first square, and the next
    /// click looks for the first legal move between the two squares: with none
    /// the choice is dropped, a promotion opens the prompt at the pointer, and
    /// any other move is complete.
    pub open spec fn on_update(self, x: int, y: int, pressed: bool) -> (SelectorView, Option<Seq<char>>) {
        match self.promotion_move {
            Some(prefix) => match self.prompt_choice(x, y, pressed) {
                Some(piece) => (self.cleared(), Some(with_promotion(prefix, piece))),
                None => (self, None),
            },
            None => if !pressed {
                (self, None)
            } else {
                match self.selected_square {
                    None => (SelectorView { selected_square: square_at_point(x, y), ..self }, None),
                    Some(from) => match square_at_point(x, y) {
                        None => (self.cleared(), None),
                        Some(to) => match find_move(self.moves, from, to) {
                            None => (self.cleared(), None),
                            Some(m) => if is_promotion_of(m) {
                                (
                                    SelectorView {
                                        promotion_move: Some(m),
                                        promotion_prompt: Some(PromotionUI::opened_at(x, y)),
                                        ..self
                                    },
                                    None,
                                )
                            } else {
                                (self.cleared(), Some(m))
                            },
                        },
                    },
                }
            },
        }
    }
}

/// The move found between two squares is one of the moves of the list, and
/// leaves and reaches those squares.
pub proof fn lemma_found_move_is_listed(moves: Seq<Seq<char>>, from: u32, to: u32)
    requires
        find_move(moves, from, to) is Some,
    ensures
        moves.contains(find_move(moves, from, to)->0),
        move_matches(find_move(moves, from, to)->0, from, to),
    decreases moves.len(),
{
    if move_matches(moves[0], from, to) {
        assert(moves[0] == find_move(moves, from, to)->0);
    } else {
        let rest = moves.drop_first();
        lemma_found_move_is_listed(rest, from, to);
        let m = find_move(rest, from, to)->0;
        let i = choose|i: int| 0 <= i < rest.len() && rest[i] == m;
        assert(moves[i + 1] == m);
    }
}

/// Whenever an input completes a move, nothing is chosen any more; and
/// whatever the input, a well-formed selector stays well formed and keeps
/// its legal moves.
pub proof fn lemma_selection_resets(selector: SelectorView, x: int, y: int, pressed: bool)
    ensures
        selector.on_update(x, y, pressed).1 is Some ==> selector.on_update(x, y, pressed).0.state()
            is Idle,
        selector.wf() ==> selector.on_update(x, y, pressed).0.wf(),
        selector.on_update(x, y, pressed).0.moves == selector.moves,
{
}

/// A second click that no legal move answers drops the choice and
/// completes nothing.
pub proof fn lemma_misclick_clears(selector: SelectorView, x: int, y: int)
    requires
        selector.promotion_move is None,
        selector.selected_square is Some,
        square_at_point(x, y) matches Some(to) ==> find_move(
            selector.moves,
            selector.selected_square->0,
            to,
        ) is None,
    ensures
        selector.on_update(x, y, true).0.state() is Idle,
        selector.on_update(x, y, true).1 is None,
{
}

/// A move that comes out is on offer: it is one of the legal moves, or one
/// of them with its last character replaced by the letter of the chosen
/// piece.
pub proof fn lemma_finalized_is_offered(selector: SelectorView, x: int, y: int, pressed: bool)
    requires
        selector.promotion_move matches Some(prefix) ==> selector.moves.contains(prefix),
        selector.on_update(x, y, pressed).1 is Some,
    ensures
        ({
            let m = selector.on_update(x, y, pressed).1->0;
            selector.moves.contains(m) || exists|prefix: Seq<char>, piece: PromotionPiece|
                #![auto]
                selector.moves.contains(prefix) && m == with_promotion(prefix, piece)
        }),
{
    match selector.promotion_move {
        Some(prefix) => {
            let piece = selector.prompt_choice(x, y, pressed)->0;
            assert(selector.moves.contains(prefix) && selector.on_update(x, y, pressed).1->0
                == with_promotion(prefix, piece));
        },
        None => {
            let from = selector.selected_square->0;
            let to = square_at_point(x, y)->0;
            lemma_found_move_is_listed(selector.moves, from, to);
        },
    }
}

/// While the prompt is open, an input that chooses none of the four pieces
/// changes nothing and completes nothing.
pub proof fn lemma_prompt_stays_open(selector: SelectorView, x: int, y: int, pressed: bool)
    requires
        selector.promotion_move is Some,
        selector.prompt_choice(x, y, pressed) is None,
    ensures
        selector.on_update(x, y, pressed) == (selector, None::<Seq<char>>),
{
}

/// Turns clicks into a move of the legal moves it was given.
pub struct MoveSelector {
    pub selected_square: Option<u32>,
    pub moves: Vec<String>,
    pub promotion_prompt: Option<PromotionUI>,
    pub promotion_move: Option<String>,
}

impl View for MoveSelector {
    type V = SelectorView;

    open spec fn view(&self) -> SelectorView {
        SelectorView {
            selected_square: self.selected_square,
            moves: texts(self.moves@),
            promotion_prompt: self.promotion_prompt,
            promotion_move: match self.promotion_move {
                Some(m) => Some(m@),
                None => None,
            },
        }
    }
}

/// A move found in a suffix of a list is the move found in the list, once
/// nothing before the suffix matches.
proof fn lemma_find_move_skip(moves: Seq<Seq<char>>, from: u32, to: u32, i: int)
    requires
        0 <= i <= moves.len(),
        forall|j: int| 0 <= j < i ==> !move_matches(#[trigger] moves[j], from, to),
    ensures
        find_move(moves, from, to) == find_move(moves.subrange(i, moves.len() as int), from, to),
    decreases i,
{
    if i == 0 {
        assert(moves.subrange(0, moves.len() as int) =~= moves);
    } else {
        let rest = moves.drop_first();
        assert forall|j: int| 0 <= j < i - 1 implies !move_matches(#[trigger] rest[j], from, to) by {
            assert(rest[j] == moves[j + 1]);
        }
        lemma_find_move_skip(rest, from, to, i - 1);
        assert(rest.subrange(i - 1, rest.len() as int) =~= moves.subrange(i, moves.len() as int));
        assert(!move_matches(moves[0], from, to));
    }
}

/// The first move of `moves` from `from` to `to`, by its place in the list.
fn find_move_index(moves: &Vec<String>, from: u32, to: u32) -> (found: Option<usize>)
    ensures
        found matches Some(i) ==> i < moves.len() && find_move(texts(moves@), from, to) == Some(
            moves[i as int]@,
        ),
        found is None ==> find_move(texts(moves@), from, to) is None,
{
    let mut i: usize = 0;
    while i < moves.len()
        invariant
            i <= moves.len(),
            forall|j: int| 0 <= j < i ==> !move_matches(#[trigger] texts(moves@)[j], from, to),
        decreases moves.len() - i,
    {
        let squares = move_squares(moves[i].as_str());
        let hit = match squares {
            Some((f, t)) => f == from && t == to,
            None => false,
        };
        proof {
            let all = texts(moves@);
            assert(all[i as int] == moves[i as int]@);
            if hit {
                lemma_find_move_skip(all, from, to, i as int);
                let tail = all.subrange(i as int, all.len() as int);
                assert(tail[0] == all[i as int]);
            }
        }
        if hit {
            return Some(i);
        }
        i = i + 1;
    }
    proof {
        let all = texts(moves@);
        lemma_find_move_skip(all, from, to, all.len() as int);
        assert(all.subrange(all.len() as int, all.len() as int).len() == 0);
    }
    None
}

impl MoveSelector {
    /// A selector with nothing chosen, for the legal moves of the position.
    pub fn new(moves: Vec<String>) -> (selector: MoveSelector)
        ensures
            selector@.moves == texts(moves@),
            selector@.state() is Idle,
            selector@.wf(),
            selector@ == selector@.cleared(),
    {
        MoveSelector { selected_square: None, moves, promotion_prompt: None, promotion_move: None }
    }

    /// Drops whatever is chosen.
    pub fn clear(&mut self)
        ensures
            final(self)@ == old(self)@.cleared(),
            final(self)@.state() is Idle,
    {
        self.selected_square = None;
        self.promotion_prompt = None;
        self.promotion_move = None;
    }

    /// Takes the legal moves of a new position and drops whatever is chosen.
    pub fn set_moves(&mut self, moves: Vec<String>)
        ensures
            final(self)@ == (SelectorView { moves: texts(moves@), ..old(self)@.cleared() }),
            final(self)@.state() is Idle,
    {
        self.moves = moves;
        self.selected_square = None;
        self.promotion_prompt = None;
        self.promotion_move = None;
    }

    /// The squares that the chosen piece can move to, one for each legal move
    /// from its square; none while no square is chosen.
    pub fn targets(&self) -> (squares: Vec<u32>)
        ensures
            squares@ == match self@.selected_square {
                Some(from) => targets_of(self@.moves, from),
                None => Seq::<u32>::empty(),
            },
    {
        let mut squares: Vec<u32> = Vec::new();
        let from = match self.selected_square {
            Some(from) => from,
            None => {
                return squares;
            },
        };
        let mut i: usize = 0;
        assert(texts(self.moves@).subrange(0, 0) =~= Seq::<Seq<char>>::empty());
        while i < self.moves.len()
            invariant
                i <= self.moves.len(),
                squares@ == targets_of(texts(self.moves@).subrange(0, i as int), from),
            decreases self.moves.len() - i,
        {
            let found = move_squares(self.moves[i].as_str());
            proof {
                let all = texts(self.moves@);
                let next = all.subrange(0, i + 1);
                assert(next.drop_last() =~= all.subrange(0, i as int));
                assert(next.last() == self.moves[i as int]@);
            }
            match found {
                Some((f, t)) => {
                    if f == from {
                        squares.push(t);
                    }
                },
                None => {},
            }
            i = i + 1;
        }
        assert(texts(self.moves@).subrange(0, self.moves.len() as int) =~= texts(self.moves@));
        squares
    }

    /// Takes one input: where the pointer is, and whether its button went
    /// down. Returns the move that the input completes, if it completes one.
    ///
    /// Whenever a move comes out, nothing is chosen any more.
    pub fn on_update(&mut self, x: i32, y: i32, pressed: bool) -> (finalized: Option<String>)
        ensures
            final(self)@ == old(self)@.on_update(x as int, y as int, pressed).0,
            match finalized {
                Some(m) => old(self)@.on_update(x as int, y as int, pressed).1 == Some(m@),
                None => old(self)@.on_update(x as int, y as int, pressed).1 is None,
            },
            finalized is Some ==> final(self)@.state() is Idle,
            old(self)@.wf() ==> final(self)@.wf(),
    {
        if self.promotion_move.is_some() {
            let choice = match &self.promotion_prompt {
                Some(prompt) => prompt.update(x, y, pressed),
                None => None,
            };
            match choice {
                Some(piece) => {
                    let taken = self.promotion_move.take();
                    let mut m = taken.unwrap();
                    m.pop();
                    m.push(piece.code());
                    self.promotion_prompt = None;
                    self.selected_square = None;
                    return Some(m);
                },
                None => {
                    return None;
                },
            }
        }
        if !pressed {
            return None;
        }
        let clicked = square_at(x, y);
        let from = match self.selected_square {
            None => {
                self.selected_square = clicked;
                return None;
            },
            Some(from) => from,
        };
        let to = match clicked {
            None => {
                self.clear();
                return None;
            },
            Some(to) => to,
        };
        match find_move_index(&self.moves, from, to) {
            None => {
                self.clear();
                None
            },
            Some(i) => {
                let m = self.moves[i].clone();
                if is_promotion(m.as_str()) {
                    self.promotion_move = Some(m);
                    self.promotion_prompt = Some(PromotionUI::new(x, y));
                    None
                } else {
                    self.clear();
                    Some(m)
                }
            },
        }
    }
}

} // verus!
