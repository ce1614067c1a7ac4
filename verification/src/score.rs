//! The feedback engine: scores a guess against the solution with the
//! two-pass rule that resolves duplicate letters through a remaining-letter
//! pool, exact matches consuming their share of the pool first.

use vstd::prelude::*;
use crate::letter::LetterState;

verus! {

/// Number of positions `j < n` with `s[j] == c`.
pub open spec fn count_upto(s: Seq<char>, c: char, n: int) -> int
    decreases n,
{
    if n <= 0 {
        0
    } else {
        count_upto(s, c, n - 1) + if s[n - 1] == c {
            1int
        } else {
            0int
        }
    }
}

/// Number of occurrences of `c` in `s`.
pub open spec fn count_of(s: Seq<char>, c: char) -> int {
    count_upto(s, c, s.len() as int)
}

/// Number of positions `j < n` where guess and solution both hold `c`,
/// i.e. exact matches of `c`.
pub open spec fn correct_upto(g: Seq<char>, s: Seq<char>, c: char, n: int) -> int
    decreases n,
{
    if n <= 0 {
        0
    } else {
        correct_upto(g, s, c, n - 1) + if g[n - 1] == c && s[n - 1] == c {
            1int
        } else {
            0int
        }
    }
}

/// Number of positions `j < n` where the guess holds `c` but the solution
/// differs there: the positions that compete for the remaining pool of `c`.
pub open spec fn miss_upto(g: Seq<char>, s: Seq<char>, c: char, n: int) -> int
    decreases n,
{
    if n <= 0 {
        0
    } else {
        miss_upto(g, s, c, n - 1) + if g[n - 1] == c && s[n - 1] != c {
            1int
        } else {
            0int
        }
    }
}

/// Units of `c` left in the pool once the exact-match pass has consumed its
/// share: occurrences of `c` in the solution minus exact matches of `c`.
pub open spec fn pool_avail(g: Seq<char>, s: Seq<char>, c: char) -> int {
    count_of(s, c) - correct_upto(g, s, c, g.len() as int)
}

/// The state the scoring assigns to position `i`: `Correct` on an exact
/// match; otherwise `Present` as long as the misses of that character up to
/// and including `i` fit in the remaining pool, else `Absent`.
pub open spec fn mark(g: Seq<char>, s: Seq<char>, i: int) -> LetterState {
    if g[i] == s[i] {
        LetterState::Correct
    } else if miss_upto(g, s, g[i], i + 1) <= pool_avail(g, s, g[i]) {
        LetterState::Present
    } else {
        LetterState::Absent
    }
}

/// Number of positions `j < n` where the guess holds `c` and the scoring
/// marks the position `Correct` or `Present`.
pub open spec fn scored_upto(g: Seq<char>, s: Seq<char>, c: char, n: int) -> int
    decreases n,
{
    if n <= 0 {
        0
    } else {
        scored_upto(g, s, c, n - 1) + if g[n - 1] == c && mark(g, s, n - 1) != LetterState::Absent {
            1int
        } else {
            0int
        }
    }
}

proof fn lemma_count_nonneg(s: Seq<char>, c: char, n: int)
    ensures
        count_upto(s, c, n) >= 0,
    decreases n,
{
    if n > 0 {
        lemma_count_nonneg(s, c, n - 1);
    }
}

proof fn lemma_miss_nonneg(g: Seq<char>, s: Seq<char>, c: char, n: int)
    ensures
        miss_upto(g, s, c, n) >= 0,
    decreases n,
{
    if n > 0 {
        lemma_miss_nonneg(g, s, c, n - 1);
    }
}

proof fn lemma_correct_le_count(g: Seq<char>, s: Seq<char>, c: char, n: int)
    ensures
        0 <= correct_upto(g, s, c, n) <= count_upto(s, c, n),
    decreases n,
{
    if n > 0 {
        lemma_correct_le_count(g, s, c, n - 1);
    }
}

proof fn lemma_count_mono(s: Seq<char>, c: char, m: int, n: int)
    requires
        m <= n,
    ensures
        count_upto(s, c, m) <= count_upto(s, c, n),
    decreases n - m,
{
    if m < n {
        lemma_count_nonneg(s, c, n - 1);
        lemma_count_mono(s, c, m, n - 1);
    }
}

/// The scored positions up to `n` decompose into the exact matches plus the
/// part of the pool that the misses so far have consumed.
proof fn lemma_scored_decomp(g: Seq<char>, s: Seq<char>, c: char, n: int)
    requires
        g.len() == s.len(),
        0 <= n <= g.len(),
        pool_avail(g, s, c) >= 0,
    ensures
        scored_upto(g, s, c, n) == correct_upto(g, s, c, n) + if miss_upto(g, s, c, n)
            <= pool_avail(g, s, c) {
            miss_upto(g, s, c, n)
        } else {
            pool_avail(g, s, c)
        },
    decreases n,
{
    if n > 0 {
        lemma_scored_decomp(g, s, c, n - 1);
        lemma_miss_nonneg(g, s, c, n - 1);
    }
}

/// Duplicate-letter conservation: no scoring ever hands out more
/// `Correct`-or-`Present` marks for a character than the solution holds
/// occurrences of that character.
pub proof fn lemma_duplicate_conservation(g: Seq<char>, s: Seq<char>, c: char)
    requires
        g.len() == s.len(),
    ensures
        scored_upto(g, s, c, g.len() as int) <= count_of(s, c),
{
    let n = g.len() as int;
    lemma_correct_le_count(g, s, c, n);
    lemma_count_mono(s, c, n, s.len() as int);
    lemma_scored_decomp(g, s, c, n);
    lemma_miss_nonneg(g, s, c, n);
}

/// Counts how often `c` occurs among the first `n` characters of `s`.
fn count_char_upto(s: &Vec<char>, c: char, n: usize) -> (r: usize)
    requires
        n <= s@.len(),
    ensures
        r == count_upto(s@, c, n as int),
        r <= n,
{
    let mut r: usize = 0;
    let mut j: usize = 0;
    while j < n
        invariant
            j <= n <= s@.len(),
            r == count_upto(s@, c, j as int),
            r <= j,
        decreases n - j,
    {
        if s[j] == c {
            r = r + 1;
        }
        j = j + 1;
    }
    r
}

/// Counts the exact matches of `c` among the first `n` positions.
fn count_correct_upto(g: &Vec<char>, s: &Vec<char>, c: char, n: usize) -> (r: usize)
    requires
        n <= g@.len(),
        n <= s@.len(),
    ensures
        r == correct_upto(g@, s@, c, n as int),
        r <= n,
{
    let mut r: usize = 0;
    let mut j: usize = 0;
    while j < n
        invariant
            j <= n <= g@.len(),
            n <= s@.len(),
            r == correct_upto(g@, s@, c, j as int),
            r <= j,
        decreases n - j,
    {
        if g[j] == c && s[j] == c {
            r = r + 1;
        }
        j = j + 1;
    }
    r
}

/// Counts the misses of `c` among the first `n` positions: guess holds `c`,
/// solution differs there.
fn count_miss_upto(g: &Vec<char>, s: &Vec<char>, c: char, n: usize) -> (r: usize)
    requires
        n <= g@.len(),
        n <= s@.len(),
    ensures
        r == miss_upto(g@, s@, c, n as int),
        r <= n,
{
    let mut r: usize = 0;
    let mut j: usize = 0;
    while j < n
        invariant
            j <= n <= g@.len(),
            n <= s@.len(),
            r == miss_upto(g@, s@, c, j as int),
            r <= j,
        decreases n - j,
    {
        if g[j] == c && s[j] != c {
            r = r + 1;
        }
        j = j + 1;
    }
    r
}

/// Scores a five-letter guess against the solution: each position gets
/// `Correct`, `Present` or `Absent` exactly as `mark` states, duplicate
/// letters consuming the solution's remaining pool left to right after the
/// exact-match pass.
pub fn score(guess: &Vec<char>, solution: &Vec<char>) -> (r: Vec<LetterState>)
    requires
        guess@.len() == 5,
        solution@.len() == 5,
    ensures
        r@.len() == 5,
        forall|i: int| 0 <= i < 5 ==> r@[i] == mark(guess@, solution@, i),
{
    let mut r: Vec<LetterState> = Vec::new();
    let mut i: usize = 0;
    while i < 5
        invariant
            i <= 5,
            guess@.len() == 5,
            solution@.len() == 5,
            r@.len() == i,
            forall|t: int| 0 <= t < i ==> r@[t] == mark(guess@, solution@, t),
        decreases 5 - i,
    {
        let c = guess[i];
        if c == solution[i] {
            r.push(LetterState::Correct);
        } else {
            let misses = count_miss_upto(guess, solution, c, i + 1);
            let in_solution = count_char_upto(solution, c, 5);
            let exact = count_correct_upto(guess, solution, c, 5);
            if misses + exact <= in_solution {
                r.push(LetterState::Present);
            } else {
                r.push(LetterState::Absent);
            }
        }
        i = i + 1;
    }
    r
}

} // verus!
