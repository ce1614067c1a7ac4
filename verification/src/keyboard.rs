//! The on-screen keyboard: for each of the 26 letters, the best feedback
//! seen so far, under the precedence `Correct` > `Present` > `Absent` >
//! `Pending`.

use vstd::prelude::*;
use crate::letter::LetterState;
use crate::letter::uppercase_char;
use crate::score::mark;

verus! {

/// How much a feedback state tells the player; merging keeps the higher rank.
pub open spec fn rank(s: LetterState) -> int {
    match s {
        LetterState::Empty => 0,
        LetterState::Pending => 1,
        LetterState::Absent => 2,
        LetterState::Present => 3,
        LetterState::Correct => 4,
    }
}

/// The state a key takes when fresh feedback arrives: the new state only if
/// it outranks what is already known.
pub open spec fn merge(cur: LetterState, new: LetterState) -> LetterState {
    if rank(new) > rank(cur) {
        new
    } else {
        cur
    }
}

/// The slot of an uppercase letter in the keyboard's 26-entry table.
pub open spec fn key_index(c: char) -> int {
    c as int - 65
}

/// The keyboard after merging the feedback of the first `n` scored positions
/// of guess `g` against solution `s`, left to right.
pub open spec fn merge_scored_upto(
    kb: Seq<LetterState>,
    g: Seq<char>,
    s: Seq<char>,
    n: int,
) -> Seq<LetterState>
    decreases n,
{
    if n <= 0 {
        kb
    } else {
        let prev = merge_scored_upto(kb, g, s, n - 1);
        prev.update(key_index(g[n - 1]), merge(prev[key_index(g[n - 1])], mark(g, s, n - 1)))
    }
}

/// Precedence law at one key: merging is idempotent, never downgrades, and
/// a key once `Correct` stays `Correct` whatever arrives next.
pub proof fn lemma_merge_precedence(cur: LetterState, new: LetterState)
    ensures
        merge(cur, cur) == cur,
        rank(merge(cur, new)) >= rank(cur),
        cur == LetterState::Correct ==> merge(cur, new) == LetterState::Correct,
{
}

/// Precedence law across a whole scored guess: merging a guess never
/// shrinks the table, never downgrades any key, and a key once `Correct`
/// is still `Correct` afterwards.
pub proof fn lemma_merge_scored_monotonic(
    kb: Seq<LetterState>,
    g: Seq<char>,
    s: Seq<char>,
    n: int,
    t: int,
)
    requires
        0 <= t < kb.len(),
        forall|i: int| 0 <= i < n ==> 0 <= key_index(#[trigger] g[i]) < kb.len(),
    ensures
        merge_scored_upto(kb, g, s, n).len() == kb.len(),
        rank(merge_scored_upto(kb, g, s, n)[t]) >= rank(kb[t]),
        kb[t] == LetterState::Correct ==> merge_scored_upto(kb, g, s, n)[t]
            == LetterState::Correct,
    decreases n,
{
    if n > 0 {
        lemma_merge_scored_monotonic(kb, g, s, n - 1, t);
    }
}

/// The keyboard's 26 keys, slot 0 holding `'A'` through slot 25 holding `'Z'`.
pub struct KeyboardState {
    states: Vec<LetterState>,
}

impl View for KeyboardState {
    type V = Seq<LetterState>;

    closed spec fn view(&self) -> Seq<LetterState> {
        self.states@
    }
}

impl KeyboardState {
    /// A keyboard has one slot per letter of the alphabet.
    pub open spec fn wf(&self) -> bool {
        self@.len() == 26
    }

    /// The fresh keyboard: nothing known of any key yet.
    pub fn new() -> (r: KeyboardState)
        ensures
            r.wf(),
            forall|t: int| 0 <= t < 26 ==> r@[t] == LetterState::Pending,
    {
        let mut states: Vec<LetterState> = Vec::new();
        let mut k: usize = 0;
        while k < 26
            invariant
                k <= 26,
                states@.len() == k,
                forall|t: int| 0 <= t < k ==> states@[t] == LetterState::Pending,
            decreases 26 - k,
        {
            states.push(LetterState::Pending);
            k = k + 1;
        }
        KeyboardState { states }
    }

    /// Best-known state of one key.
    pub fn get(&self, c: char) -> (r: LetterState)
        requires
            self.wf(),
            uppercase_char(c),
        ensures
            r == self@[key_index(c)],
    {
        let idx = (c as u32 - 65) as usize;
        self.states[idx]
    }

    /// Merges fresh feedback for one key under the precedence rule.
    pub fn update(&mut self, c: char, new: LetterState)
        requires
            old(self).wf(),
            uppercase_char(c),
        ensures
            final(self).wf(),
            final(self)@ == old(self)@.update(
                key_index(c),
                merge(old(self)@[key_index(c)], new),
            ),
    {
        let idx = (c as u32 - 65) as usize;
        let cur = self.states[idx];
        self.states[idx] = merge_exec(cur, new);
    }
}

/// Rank of a state, as executable code.
fn rank_exec(s: LetterState) -> (r: u8)
    ensures
        r as int == rank(s),
{
    match s {
        LetterState::Empty => 0,
        LetterState::Pending => 1,
        LetterState::Absent => 2,
        LetterState::Present => 3,
        LetterState::Correct => 4,
    }
}

/// Merge of two states, as executable code.
fn merge_exec(cur: LetterState, new: LetterState) -> (r: LetterState)
    ensures
        r == merge(cur, new),
{
    if rank_exec(new) > rank_exec(cur) {
        new
    } else {
        cur
    }
}

} // verus!
