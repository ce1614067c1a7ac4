//! The 6-by-5 grid of letters with its cursor, and its transition rules:
//! insert a letter, delete the last letter, finish a row after scoring.

use vstd::prelude::*;
use crate::letter::{blank_letter, uppercase_char, Letter, LetterState};
use crate::words::chars_of;

verus! {

/// A cell holding a typed letter that has not been scored yet.
pub open spec fn pending_cell(l: Letter) -> bool {
    uppercase_char(l.character) && l.state == LetterState::Pending
}

/// A feedback state a submitted row's cell may carry.
pub open spec fn scored_state(s: LetterState) -> bool {
    s == LetterState::Absent || s == LetterState::Present || s == LetterState::Correct
}

/// A cell of a submitted row: an uppercase letter with its feedback.
pub open spec fn scored_cell(l: Letter) -> bool {
    uppercase_char(l.character) && scored_state(l.state)
}

/// The mathematical model of a board: six rows of five cells, and the
/// cursor, `row` being the row currently edited and `col` the number of
/// letters typed into it.
#[verifier::ext_equal]
pub struct BoardView {
    pub rows: Seq<Seq<Letter>>,
    pub row: int,
    pub col: int,
}

/// Well-formedness of a board: the grid is 6 by 5, the cursor is in range,
/// rows already submitted hold scored cells, the edited row holds typed
/// letters up to the cursor and blanks after it, and later rows are blank.
pub open spec fn board_wf(b: BoardView) -> bool {
    &&& b.rows.len() == 6
    &&& (forall|r: int| 0 <= r < 6 ==> (#[trigger] b.rows[r]).len() == 5)
    &&& 0 <= b.row <= 6
    &&& 0 <= b.col <= 5
    &&& (b.row == 6 ==> b.col == 0)
    &&& (forall|r: int, c: int|
        0 <= r < b.row && 0 <= c < 5 ==> scored_cell(#[trigger] b.rows[r][c]))
    &&& (b.row < 6 ==> forall|c: int|
        0 <= c < b.col ==> pending_cell(#[trigger] b.rows[b.row][c]))
    &&& (b.row < 6 ==> forall|c: int|
        b.col <= c < 5 ==> #[trigger] b.rows[b.row][c] == blank_letter())
    &&& (forall|r: int, c: int|
        b.row < r < 6 && 0 <= c < 5 ==> #[trigger] b.rows[r][c] == blank_letter())
}

/// The board after inserting character `c` at the cursor.
pub open spec fn insert_view(b: BoardView, c: char) -> BoardView {
    BoardView {
        rows: b.rows.update(
            b.row,
            b.rows[b.row].update(b.col, Letter { character: c, state: LetterState::Pending }),
        ),
        row: b.row,
        col: b.col + 1,
    }
}

/// The board after deleting the letter before the cursor.
pub open spec fn delete_view(b: BoardView) -> BoardView {
    BoardView {
        rows: b.rows.update(b.row, b.rows[b.row].update(b.col - 1, blank_letter())),
        row: b.row,
        col: b.col - 1,
    }
}

/// The board after the edited row is submitted: its cells take the given
/// feedback states, and the cursor moves to the start of the next row.
pub open spec fn finish_view(b: BoardView, states: Seq<LetterState>) -> BoardView {
    BoardView {
        rows: b.rows.update(
            b.row,
            Seq::new(5, |i: int| Letter { character: b.rows[b.row][i].character, state: states[i] }),
        ),
        row: b.row + 1,
        col: 0,
    }
}

/// Round trip: inserting a character and deleting it returns the board,
/// cell and cursor alike, to exactly what it was.
pub proof fn lemma_insert_delete_roundtrip(b: BoardView, c: char)
    requires
        board_wf(b),
        b.row < 6,
        b.col < 5,
    ensures
        delete_view(insert_view(b, c)) == b,
{
    let after = delete_view(insert_view(b, c));
    assert(b.rows[b.row][b.col] == blank_letter());
    assert(after.rows[b.row] =~= b.rows[b.row]);
    assert(after.rows =~~= b.rows);
    assert(after =~~= b);
}

/// The 6-by-5 grid of cells together with the cursor.
pub struct Board {
    rows: Vec<Vec<Letter>>,
    row: usize,
    col: usize,
}

impl View for Board {
    type V = BoardView;

    closed spec fn view(&self) -> BoardView {
        BoardView {
            rows: self.rows@.map_values(|r: Vec<Letter>| r@),
            row: self.row as int,
            col: self.col as int,
        }
    }
}

impl Board {
    /// The empty board: every cell blank, cursor at the top left.
    pub fn new() -> (r: Board)
        ensures
            board_wf(r@),
            r@.row == 0,
            r@.col == 0,
            forall|i: int, j: int| 0 <= i < 6 && 0 <= j < 5 ==> r@.rows[i][j] == blank_letter(),
    {
        let mut rows: Vec<Vec<Letter>> = Vec::new();
        let mut i: usize = 0;
        while i < 6
            invariant
                i <= 6,
                rows@.len() == i,
                forall|r: int| 0 <= r < i ==> (#[trigger] rows@[r])@.len() == 5,
                forall|r: int, c: int|
                    0 <= r < i && 0 <= c < 5 ==> #[trigger] rows@[r]@[c] == blank_letter(),
            decreases 6 - i,
        {
            let mut line: Vec<Letter> = Vec::new();
            let mut j: usize = 0;
            while j < 5
                invariant
                    j <= 5,
                    line@.len() == j,
                    forall|c: int| 0 <= c < j ==> #[trigger] line@[c] == blank_letter(),
                decreases 5 - j,
            {
                line.push(Letter { character: '_', state: LetterState::Empty });
                j = j + 1;
            }
            rows.push(line);
            i = i + 1;
        }
        let b = Board { rows, row: 0, col: 0 };
        proof {
            assert(forall|r: int| 0 <= r < 6 ==> (#[trigger] b@.rows[r]).len() == 5);
            assert(forall|r: int, c: int|
                0 <= r < 6 && 0 <= c < 5 ==> #[trigger] b@.rows[r][c] == blank_letter());
        }
        b
    }

    /// Row the cursor stands in.
    pub fn current_row(&self) -> (r: usize)
        ensures
            r == self@.row,
    {
        self.row
    }

    /// Number of letters typed into the edited row.
    pub fn current_col(&self) -> (r: usize)
        ensures
            r == self@.col,
    {
        self.col
    }

    /// One cell of the grid.
    pub fn cell(&self, r: usize, c: usize) -> (out: Letter)
        requires
            board_wf(self@),
            r < 6,
            c < 5,
        ensures
            out == self@.rows[r as int][c as int],
    {
        self.rows[r][c]
    }

    /// The cells of one row.
    pub fn row_letters(&self, r: usize) -> (out: &Vec<Letter>)
        requires
            board_wf(self@),
            r < 6,
        ensures
            out@ == self@.rows[r as int],
    {
        &self.rows[r]
    }

    /// The characters of one row, in order.
    pub fn chars_of_row(&self, r: usize) -> (out: Vec<char>)
        requires
            board_wf(self@),
            r < 6,
        ensures
            out@ == chars_of(self@.rows[r as int]),
            out@.len() == 5,
    {
        let mut out: Vec<char> = Vec::new();
        let mut j: usize = 0;
        while j < 5
            invariant
                board_wf(self@),
                r < 6,
                j <= 5,
                out@.len() == j,
                forall|c: int| 0 <= c < j ==> #[trigger] out@[c] == self@.rows[r as int][c].character,
            decreases 5 - j,
        {
            out.push(self.rows[r][j].character);
            j = j + 1;
        }
        proof {
            assert(out@ =~= chars_of(self@.rows[r as int]));
        }
        out
    }

    /// Writes the typed letter at the cursor and advances the cursor.
    pub fn insert(&mut self, c: char)
        requires
            board_wf(old(self)@),
            old(self)@.row < 6,
            old(self)@.col < 5,
            uppercase_char(c),
        ensures
            final(self)@ == insert_view(old(self)@, c),
            board_wf(final(self)@),
    {
        let row = self.row;
        let col = self.col;
        self.rows[row][col] = Letter { character: c, state: LetterState::Pending };
        self.col = col + 1;
        proof {
            assert(self@.rows =~~= insert_view(old(self)@, c).rows);
            assert(self@ =~~= insert_view(old(self)@, c));
        }
    }

    /// Blanks the letter before the cursor and steps the cursor back.
    pub fn delete(&mut self)
        requires
            board_wf(old(self)@),
            old(self)@.row < 6,
            old(self)@.col > 0,
        ensures
            final(self)@ == delete_view(old(self)@),
            board_wf(final(self)@),
    {
        let row = self.row;
        let col = self.col;
        self.rows[row][col - 1] = Letter { character: '_', state: LetterState::Empty };
        self.col = col - 1;
        proof {
            assert(self@.rows =~~= delete_view(old(self)@).rows);
            assert(self@ =~~= delete_view(old(self)@));
        }
    }

    /// Stamps the scored feedback onto the full edited row and moves the
    /// cursor to the start of the next row.
    pub fn finish_row(&mut self, states: &Vec<LetterState>)
        requires
            board_wf(old(self)@),
            old(self)@.row < 6,
            old(self)@.col == 5,
            states@.len() == 5,
            forall|i: int| 0 <= i < 5 ==> scored_state(#[trigger] states@[i]),
        ensures
            final(self)@ == finish_view(old(self)@, states@),
            board_wf(final(self)@),
    {
        let row = self.row;
        proof {
            assert forall|r: int| 0 <= r < 6 implies (#[trigger] self.rows@[r])@.len() == 5 by {
                assert(self@.rows[r] == self.rows@[r]@);
            }
            assert forall|r: int| 0 <= r < 6 implies #[trigger] self.rows@[r]@
                == old(self)@.rows[r] by {
                assert(self@.rows[r] == self.rows@[r]@);
            }
        }
        let mut j: usize = 0;
        while j < 5
            invariant
                0 <= j <= 5,
                row == old(self)@.row < 6,
                self.row == row,
                self.col == old(self)@.col,
                board_wf(old(self)@),
                states@.len() == 5,
                self.rows@.len() == 6,
                forall|r: int| 0 <= r < 6 ==> (#[trigger] self.rows@[r])@.len() == 5,
                forall|r: int| 0 <= r < 6 && r != row ==> #[trigger] self.rows@[r]@
                    == old(self)@.rows[r],
                forall|c: int|
                    0 <= c < j ==> #[trigger] self.rows@[row as int]@[c] == (Letter {
                        character: old(self)@.rows[row as int][c].character,
                        state: states@[c],
                    }),
                forall|c: int|
                    j <= c < 5 ==> #[trigger] self.rows@[row as int]@[c]
                        == old(self)@.rows[row as int][c],
            decreases 5 - j,
        {
            let ch = self.rows[row][j].character;
            self.rows[row][j] = Letter { character: ch, state: states[j] };
            j = j + 1;
        }
        self.row = row + 1;
        self.col = 0;
        proof {
            let target = finish_view(old(self)@, states@);
            assert forall|r: int| 0 <= r < 6 implies self@.rows[r] =~= target.rows[r] by {
                assert(self@.rows[r] == self.rows@[r]@);
            }
            assert(self@.rows =~~= target.rows);
            assert(self@ =~~= target);
            assert forall|c: int| 0 <= c < 5 implies scored_cell(
                #[trigger] self@.rows[row as int][c],
            ) by {
                assert(pending_cell(old(self)@.rows[row as int][c]));
            }
        }
    }
}

} // verus!
