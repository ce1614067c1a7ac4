//! The session state machine: board, keyboard, solution and dictionary in
//! one struct, and the transition that every key press induces on it.

use vstd::prelude::*;
use crate::board::{board_wf, delete_view, finish_view, insert_view, Board, BoardView};
use crate::keyboard::{key_index, merge_scored_upto, KeyboardState};
use crate::letter::{ascii_alpha_char, to_upper, upper_char, uppercase_char, LetterState};
use crate::score::{mark, score};
use crate::words::{chars_of, folded_chars, is_valid_word};

verus! {

/// Whether the session is still being played or has reached its outcome.
#[derive(Copy, Clone, PartialEq, Eq, Structural, Debug)]
pub enum Status {
    InProgress,
    Won,
    Lost,
}

/// A key press, as the game rules read it.
#[derive(Copy, Clone, PartialEq, Eq, Structural, Debug)]
pub enum Key {
    Char(char),
    Enter,
    Backspace,
    Esc,
}

/// Error signalled when a game is started from an ill-shaped solution word.
#[derive(Copy, Clone, PartialEq, Eq, Structural, Debug)]
pub enum GameError {
    InvalidSolution,
}

/// The mathematical model of a session.
#[verifier::ext_equal]
pub struct GameView {
    pub board: BoardView,
    pub keyboard: Seq<LetterState>,
    pub solution: Seq<char>,
    pub dictionary: Seq<Seq<char>>,
    pub status: Status,
}

/// Well-formedness of a session: the board is well formed, the keyboard has
/// its 26 keys, the solution is five uppercase letters, and while play goes
/// on there is a row to edit.
pub open spec fn game_wf(g: GameView) -> bool {
    &&& board_wf(g.board)
    &&& g.keyboard.len() == 26
    &&& g.solution.len() == 5
    &&& (forall|i: int| 0 <= i < 5 ==> uppercase_char(#[trigger] g.solution[i]))
    &&& (g.status == Status::InProgress ==> g.board.row < 6)
}

/// Whether the dictionary accepts a word.
pub open spec fn accepted(dict: Seq<Seq<char>>, w: Seq<char>) -> bool {
    exists|i: int| 0 <= i < dict.len() && dict[i] == w
}

/// The word the edited row currently spells.
pub open spec fn row_word(b: BoardView) -> Seq<char> {
    chars_of(b.rows[b.row])
}

/// An insert is acted on only while play goes on, for an ASCII letter,
/// with room left in the row.
pub open spec fn insert_allowed(g: GameView, c: char) -> bool {
    g.status == Status::InProgress && ascii_alpha_char(c) && g.board.col < 5
}

/// A delete is acted on only while play goes on and the row holds a letter.
pub open spec fn delete_allowed(g: GameView) -> bool {
    g.status == Status::InProgress && g.board.col > 0
}

/// A submit is acted on only while play goes on, with the row full and its
/// word accepted by the dictionary.
pub open spec fn submit_allowed(g: GameView) -> bool {
    g.status == Status::InProgress && g.board.col == 5 && accepted(g.dictionary, row_word(g.board))
}

/// The feedback states a scoring of guess `w` against solution `s` yields.
pub open spec fn marks_of(w: Seq<char>, s: Seq<char>) -> Seq<LetterState> {
    Seq::new(5, |i: int| mark(w, s, i))
}

/// The session after a successful submit: the row takes its feedback, the
/// keyboard merges it, and the outcome is settled — a win on the exact
/// solution, a loss once the sixth row is spent, else play goes on.
pub open spec fn submit_view(g: GameView) -> GameView {
    let w = row_word(g.board);
    GameView {
        board: finish_view(g.board, marks_of(w, g.solution)),
        keyboard: merge_scored_upto(g.keyboard, w, g.solution, 5),
        solution: g.solution,
        dictionary: g.dictionary,
        status: if w == g.solution {
            Status::Won
        } else if g.board.row + 1 == 6 {
            Status::Lost
        } else {
            Status::InProgress
        },
    }
}

/// The session after one key press: a letter inserts its uppercase form, a
/// backspace deletes, an enter submits, and a press whose precondition
/// fails — or any press after the game is over — changes nothing. Escape
/// never changes the session; it only ends the loop around it.
pub open spec fn step_view(g: GameView, key: Key) -> GameView {
    match key {
        Key::Char(c) => if insert_allowed(g, c) {
            GameView {
                board: insert_view(g.board, upper_char(c)),
                keyboard: g.keyboard,
                solution: g.solution,
                dictionary: g.dictionary,
                status: g.status,
            }
        } else {
            g
        },
        Key::Backspace => if delete_allowed(g) {
            GameView {
                board: delete_view(g.board),
                keyboard: g.keyboard,
                solution: g.solution,
                dictionary: g.dictionary,
                status: g.status,
            }
        } else {
            g
        },
        Key::Enter => if submit_allowed(g) {
            submit_view(g)
        } else {
            g
        },
        Key::Esc => g,
    }
}

/// A full session: the one owner of all mutable game state.
pub struct Game {
    board: Board,
    keyboard: KeyboardState,
    solution: Vec<char>,
    dictionary: Vec<String>,
    status: Status,
}

impl View for Game {
    type V = GameView;

    closed spec fn view(&self) -> GameView {
        GameView {
            board: self.board@,
            keyboard: self.keyboard@,
            solution: self.solution@,
            dictionary: self.dictionary@.map_values(|w: String| w@),
            status: self.status,
        }
    }
}

/// Compares two character vectors for equality.
fn eq_chars(a: &Vec<char>, b: &Vec<char>) -> (r: bool)
    ensures
        r == (a@ == b@),
{
    if a.len() != b.len() {
        return false;
    }
    let mut j: usize = 0;
    while j < a.len()
        invariant
            j <= a@.len(),
            a@.len() == b@.len(),
            forall|t: int| 0 <= t < j ==> a@[t] == b@[t],
        decreases a@.len() - j,
    {
        if a[j] != b[j] {
            return false;
        }
        j = j + 1;
    }
    proof {
        assert(a@ =~= b@);
    }
    true
}

impl Game {
    /// Starts a session: the solution must be five uppercase letters, the
    /// board comes up blank with the cursor at the top left, and nothing is
    /// known of any key yet.
    pub fn new(solution: Vec<char>, dictionary: Vec<String>) -> (r: Result<Game, GameError>)
        ensures
            r is Ok <==> (solution@.len() == 5 && forall|i: int|
                0 <= i < 5 ==> uppercase_char(#[trigger] solution@[i])),
            r matches Ok(g) ==> {
                &&& game_wf(g@)
                &&& g@.solution == solution@
                &&& g@.dictionary == dictionary@.map_values(|w: String| w@)
                &&& g@.status == Status::InProgress
                &&& g@.board.row == 0
                &&& g@.board.col == 0
                &&& (forall|i: int, j: int|
                    0 <= i < 6 && 0 <= j < 5 ==> g@.board.rows[i][j]
                        == crate::letter::blank_letter())
                &&& (forall|t: int| 0 <= t < 26 ==> g@.keyboard[t] == LetterState::Pending)
            },
            r matches Err(e) ==> e == GameError::InvalidSolution,
    {
        if solution.len() != 5 {
            return Err(GameError::InvalidSolution);
        }
        let mut j: usize = 0;
        while j < 5
            invariant
                j <= 5,
                solution@.len() == 5,
                forall|t: int| 0 <= t < j ==> uppercase_char(#[trigger] solution@[t]),
            decreases 5 - j,
        {
            let c = solution[j];
            if !('A' <= c && c <= 'Z') {
                return Err(GameError::InvalidSolution);
            }
            j = j + 1;
        }
        Ok(Game {
            board: Board::new(),
            keyboard: KeyboardState::new(),
            solution,
            dictionary,
            status: Status::InProgress,
        })
    }

    /// The session's outcome so far.
    pub fn status(&self) -> (r: Status)
        ensures
            r == self@.status,
    {
        self.status
    }

    /// The board, for rendering.
    pub fn board(&self) -> (r: &Board)
        ensures
            r@ == self@.board,
    {
        &self.board
    }

    /// Best-known feedback for one keyboard key.
    pub fn key_state(&self, c: char) -> (r: LetterState)
        requires
            game_wf(self@),
            uppercase_char(c),
        ensures
            r == self@.keyboard[key_index(c)],
    {
        self.keyboard.get(c)
    }

    /// The solution word, for the reveal at the end of a session.
    pub fn solution_chars(&self) -> (r: &Vec<char>)
        ensures
            r@ == self@.solution,
    {
        &self.solution
    }

    /// Feeds one key press to the state machine. Returns whether the key
    /// asked to quit; every other effect stands in the contract: exactly
    /// the allowed transition happens, and a rejected press leaves the
    /// session untouched.
    pub fn step(&mut self, key: Key) -> (quit: bool)
        requires
            game_wf(old(self)@),
        ensures
            game_wf(final(self)@),
            final(self)@ == step_view(old(self)@, key),
            quit == (key == Key::Esc),
    {
        match key {
            Key::Esc => true,
            Key::Char(c) => {
                let is_alpha = ('A' <= c && c <= 'Z') || ('a' <= c && c <= 'z');
                if self.status == Status::InProgress && is_alpha && self.board.current_col() < 5 {
                    self.board.insert(to_upper(c));
                    proof {
                        assert(self@ =~~= step_view(old(self)@, key));
                    }
                } else {
                    proof {
                        assert(self@ =~~= step_view(old(self)@, key));
                    }
                }
                false
            },
            Key::Backspace => {
                if self.status == Status::InProgress && self.board.current_col() > 0 {
                    self.board.delete();
                    proof {
                        assert(self@ =~~= step_view(old(self)@, key));
                    }
                } else {
                    proof {
                        assert(self@ =~~= step_view(old(self)@, key));
                    }
                }
                false
            },
            Key::Enter => {
                if self.status == Status::InProgress && self.board.current_col() == 5 {
                    let row = self.board.current_row();
                    let word_ok = is_valid_word(self.board.row_letters(row), &self.dictionary);
                    proof {
                        let w = row_word(self@.board);
                        // The row is full of pending uppercase letters, so
                        // the case fold of the validator leaves it as it is.
                        assert forall|t: int|
                            0 <= t < 5 implies folded_chars(self@.board.rows[self@.board.row])[t]
                            == w[t] by {
                            assert(crate::board::pending_cell(
                                self@.board.rows[self@.board.row][t],
                            ));
                        }
                        assert(folded_chars(self@.board.rows[self@.board.row]) =~= w);
                        if word_ok {
                            let i = choose|i: int|
                                0 <= i < self.dictionary@.len() && (#[trigger] self.dictionary@[i])@
                                    == folded_chars(self@.board.rows[self@.board.row]);
                            assert(self@.dictionary[i] == self.dictionary@[i]@);
                            assert(accepted(self@.dictionary, w));
                        } else {
                            assert forall|i: int|
                                0 <= i < self@.dictionary.len() implies #[trigger] self@.dictionary[i]
                                != w by {
                                assert(self@.dictionary[i] == self.dictionary@[i]@);
                            }
                        }
                        assert(word_ok == accepted(self@.dictionary, row_word(self@.board)));
                    }
                    if word_ok {
                        self.submit();
                    } else {
                        proof {
                            assert(self@ =~~= step_view(old(self)@, key));
                        }
                    }
                } else {
                    proof {
                        assert(self@ =~~= step_view(old(self)@, key));
                    }
                }
                false
            },
        }
    }

    /// Carries out an accepted submit: scores the row, stamps the feedback
    /// onto the board, merges it into the keyboard, and settles the
    /// outcome.
    fn submit(&mut self)
        requires
            game_wf(old(self)@),
            submit_allowed(old(self)@),
        ensures
            game_wf(final(self)@),
            final(self)@ == submit_view(old(self)@),
    {
        let row = self.board.current_row();
        let guess_chars = self.board.chars_of_row(row);
        proof {
            assert(guess_chars@ == row_word(old(self)@.board));
            assert forall|i: int| 0 <= i < 5 implies uppercase_char(
                #[trigger] guess_chars@[i],
            ) by {
                assert(crate::board::pending_cell(old(self)@.board.rows[row as int][i]));
            }
        }
        let states = score(&guess_chars, &self.solution);
        proof {
            assert(states@ =~= marks_of(guess_chars@, old(self)@.solution));
        }

        let ghost kb0 = self.keyboard@;
        let mut i: usize = 0;
        while i < 5
            invariant
                i <= 5,
                guess_chars@.len() == 5,
                states@.len() == 5,
                forall|t: int| 0 <= t < 5 ==> uppercase_char(#[trigger] guess_chars@[t]),
                forall|t: int|
                    0 <= t < 5 ==> states@[t] == mark(
                        guess_chars@,
                        old(self)@.solution,
                        t,
                    ),
                kb0 == old(self)@.keyboard,
                kb0.len() == 26,
                self.keyboard@ == merge_scored_upto(
                    kb0,
                    guess_chars@,
                    old(self)@.solution,
                    i as int,
                ),
                self.keyboard@.len() == 26,
                self.board == old(self).board,
                self.solution == old(self).solution,
                self.dictionary == old(self).dictionary,
                self.status == old(self).status,
            decreases 5 - i,
        {
            self.keyboard.update(guess_chars[i], states[i]);
            i = i + 1;
        }

        self.board.finish_row(&states);
        let won = eq_chars(&guess_chars, &self.solution);
        if won {
            self.status = Status::Won;
        } else if self.board.current_row() == 6 {
            self.status = Status::Lost;
        }
        proof {
            assert(self@ =~~= submit_view(old(self)@));
        }
    }
}

} // verus!
