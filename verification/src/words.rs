//! The word dictionary: membership tests for candidate guesses, loading
//! normalization, and the random pick of the session's solution.

use vstd::prelude::*;
use vstd::string::StrSliceExecFns;
use rand::seq::SliceRandom;
use crate::letter::{ascii_alpha_char, upper_char, uppercase_char, to_upper, Letter};

verus! {

/// The characters a row of letters spells, in order.
pub open spec fn chars_of(s: Seq<Letter>) -> Seq<char> {
    s.map_values(|l: Letter| l.character)
}

/// The word a row of letters spells, case-normalized to uppercase: the
/// form the dictionary's membership test compares against.
pub open spec fn folded_chars(s: Seq<Letter>) -> Seq<char> {
    chars_of(s).map_values(|c: char| upper_char(c))
}

/// Tests whether the word spelt by a row of letters, case-normalized to
/// uppercase, stands in the word list.
pub fn is_valid_word(sliced_word: &Vec<Letter>, word_list: &Vec<String>) -> (r: bool)
    ensures
        r == exists|i: int|
            0 <= i < word_list@.len() && (#[trigger] word_list@[i])@ == folded_chars(
                sliced_word@,
            ),
{
    let n = sliced_word.len();
    let mut i: usize = 0;
    while i < word_list.len()
        invariant
            i <= word_list@.len(),
            n == sliced_word@.len(),
            forall|k: int|
                0 <= k < i ==> (#[trigger] word_list@[k])@ != folded_chars(sliced_word@),
        decreases word_list@.len() - i,
    {
        let w = &word_list[i];
        if w.as_str().unicode_len() == n {
            let mut all_eq = true;
            let mut j: usize = 0;
            while j < n
                invariant
                    j <= n,
                    n == sliced_word@.len(),
                    w@.len() == n,
                    all_eq ==> forall|t: int|
                        0 <= t < j ==> w@[t] == folded_chars(sliced_word@)[t],
                    !all_eq ==> w@ != folded_chars(sliced_word@),
                decreases n - j,
            {
                if w.as_str().get_char(j) != to_upper(sliced_word[j].character) {
                    all_eq = false;
                }
                j = j + 1;
            }
            if all_eq {
                proof {
                    assert(w@ =~= folded_chars(sliced_word@));
                }
                return true;
            }
        }
        i = i + 1;
    }
    false
}

/// Uppercases a candidate word and checks its shape: exactly five ASCII
/// letters, rejected otherwise.
pub fn normalize_word(w: &String) -> (r: Option<Vec<char>>)
    ensures
        r is Some <==> (w@.len() == 5 && forall|i: int|
            0 <= i < 5 ==> ascii_alpha_char(#[trigger] w@[i])),
        r matches Some(v) ==> {
            &&& v@ == w@.map_values(|c: char| upper_char(c))
            &&& v@.len() == 5
            &&& forall|i: int| 0 <= i < 5 ==> uppercase_char(#[trigger] v@[i])
        },
{
    if w.as_str().unicode_len() != 5 {
        return None;
    }
    let mut out: Vec<char> = Vec::new();
    let mut j: usize = 0;
    while j < 5
        invariant
            j <= 5,
            w@.len() == 5,
            out@.len() == j,
            forall|t: int| 0 <= t < j ==> ascii_alpha_char(#[trigger] w@[t]),
            forall|t: int| 0 <= t < j ==> #[trigger] out@[t] == upper_char(w@[t]),
            forall|t: int| 0 <= t < j ==> uppercase_char(#[trigger] out@[t]),
        decreases 5 - j,
    {
        let c = w.as_str().get_char(j);
        let code: u32 = c as u32;
        if !((65 <= code && code <= 90) || (97 <= code && code <= 122)) {
            return None;
        }
        out.push(to_upper(c));
        j = j + 1;
    }
    proof {
        assert(out@ =~= w@.map_values(|c: char| upper_char(c)));
    }
    Some(out)
}

/// Relies on rand's `SliceRandom::choose` on a slice: returns `None`
/// exactly on an empty slice, and otherwise `Some` of one of its elements,
/// here cloned out of the list.
#[verifier::external_body]
pub fn choose_word(words: &Vec<String>) -> (r: Option<String>)
    ensures
        r is Some <==> words@.len() > 0,
        r matches Some(w) ==> exists|i: int|
            0 <= i < words@.len() && w@ == (#[trigger] words@[i])@,
{
    words.choose(&mut rand::thread_rng()).cloned()
}

} // verus!
