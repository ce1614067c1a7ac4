//! One grid or keyboard cell: a character together with its feedback state.

use vstd::prelude::*;

verus! {

/// Feedback classification of one letter, ordered by how much it tells the
/// player: `Correct` outranks `Present`, which outranks `Absent`, which
/// outranks `Pending` (typed but not yet scored); `Empty` marks a blank cell.
#[derive(Copy, Clone, PartialEq, Eq, Structural, Debug)]
pub enum LetterState {
    Empty,
    Pending,
    Absent,
    Present,
    Correct,
}

/// Error signalled when a `Letter` is built from a character that is neither
/// an ASCII letter nor the blank marker `'_'`.
#[derive(Copy, Clone, PartialEq, Eq, Structural, Debug)]
pub enum LetterError {
    InvalidCharacter,
}

/// An uppercase ASCII letter.
pub open spec fn uppercase_char(c: char) -> bool {
    65 <= c as int <= 90
}

/// An ASCII letter, of either case.
pub open spec fn ascii_alpha_char(c: char) -> bool {
    (65 <= c as int <= 90) || (97 <= c as int <= 122)
}

/// The uppercase counterpart of an ASCII letter; any other character is
/// left unchanged.
pub open spec fn upper_char(c: char) -> char {
    if 97 <= c as int <= 122 {
        (c as int - 32) as char
    } else {
        c
    }
}

/// Relies on `char::to_ascii_uppercase`: maps `'a'..='z'` to `'A'..='Z'`
/// and returns any other character unchanged.
#[verifier::external_body]
pub fn to_upper(c: char) -> (r: char)
    ensures
        r == upper_char(c),
{
    c.to_ascii_uppercase()
}

/// A character admissible in a cell: an ASCII letter or the blank marker.
pub open spec fn valid_cell_char(c: char) -> bool {
    ascii_alpha_char(c) || c == '_'
}

/// One cell of the board or of the on-screen keyboard.
#[derive(Copy, Clone, PartialEq, Eq, Structural, Debug)]
pub struct Letter {
    pub character: char,
    pub state: LetterState,
}

impl Letter {
    /// Builds a cell, rejecting any character that is neither an ASCII
    /// letter nor the blank marker `'_'`.
    pub fn new(character: char, state: LetterState) -> (r: Result<Letter, LetterError>)
        ensures
            valid_cell_char(character) <==> r is Ok,
            r matches Ok(l) ==> l == (Letter { character, state }),
            r matches Err(e) ==> e == LetterError::InvalidCharacter,
    {
        let code: u32 = character as u32;
        if (65 <= code && code <= 90) || (97 <= code && code <= 122) || character == '_' {
            Ok(Letter { character, state })
        } else {
            Err(LetterError::InvalidCharacter)
        }
    }
}

/// The blank cell: the marker character with no feedback yet.
pub open spec fn blank_letter() -> Letter {
    Letter { character: '_', state: LetterState::Empty }
}

/// The red, green and blue parts of the color a cell is drawn with: black
/// while unscored, gray for `Absent`, yellow for `Present`, green for
/// `Correct`.
pub open spec fn state_rgb_spec(s: LetterState) -> (u8, u8, u8) {
    match s {
        LetterState::Empty => (0, 0, 0),
        LetterState::Pending => (0, 0, 0),
        LetterState::Absent => (0x33, 0x33, 0x33),
        LetterState::Present => (0xad, 0xad, 0x07),
        LetterState::Correct => (0x17, 0x60, 0x02),
    }
}

/// The color a cell of the given state is drawn with.
pub fn state_rgb(s: LetterState) -> (r: (u8, u8, u8))
    ensures
        r == state_rgb_spec(s),
{
    match s {
        LetterState::Empty => (0, 0, 0),
        LetterState::Pending => (0, 0, 0),
        LetterState::Absent => (0x33, 0x33, 0x33),
        LetterState::Present => (0xad, 0xad, 0x07),
        LetterState::Correct => (0x17, 0x60, 0x02),
    }
}

} // verus!
