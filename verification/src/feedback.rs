//! The feedback engine: classifies each position of a completed guess against
//! the target word, handling duplicate letters with a whole-word counting rule.
//!
//! The rule, per position `i`: if `guess[i] == target[i]` the position is
//! `Exact`; otherwise, with `c = guess[i]`, the position is `Partial` when the
//! number of positions `j` with `guess[j] == target[j] == c` (exact matches of
//! `c` already confirmed elsewhere) is strictly below the total number of
//! occurrences of `c` in the target, and `Absent` otherwise. Note that this
//! whole-word rule compares the same two counts at every non-exact position of
//! a repeated letter, rather than consuming a shared per-letter budget from
//! left to right, so a letter repeated in the guess more often than in the
//! target can classify `Partial` at several positions.

use vstd::prelude::*;

verus! {

/// Per-position verdict comparing one guess letter to the target.
#[derive(Clone, Copy, Debug, PartialEq, Eq, Structural)]
pub enum Classification {
    /// The letter matches the target at this position.
    Exact,
    /// The letter occurs in the target, and fewer of its occurrences are
    /// confirmed exact elsewhere than the target holds in total.
    Partial,
    /// The letter does not occur in the target, or all of its occurrences are
    /// already confirmed exact at other positions.
    Absent,
}

/// Number of positions `j < n` of `target` that hold the letter `c`.
pub open spec fn occurrences_below(target: Seq<char>, c: char, n: int) -> nat
    decreases n,
{
    if n <= 0 {
        0
    } else {
        occurrences_below(target, c, n - 1) + (if target[n - 1] == c {
            1nat
        } else {
            0nat
        })
    }
}

/// Total number of occurrences of the letter `c` in `target`.
pub open spec fn occurrences(target: Seq<char>, c: char) -> nat {
    occurrences_below(target, c, target.len() as int)
}

/// Number of positions `j < n` where guess and target agree and hold `c`:
/// exact matches of the letter `c` confirmed below position `n`.
pub open spec fn confirmed_below(guess: Seq<char>, target: Seq<char>, c: char, n: int) -> nat
    decreases n,
{
    if n <= 0 {
        0
    } else {
        confirmed_below(guess, target, c, n - 1) + (if guess[n - 1] == target[n - 1]
            && guess[n - 1] == c {
            1nat
        } else {
            0nat
        })
    }
}

/// Exact matches of the letter `c` over all positions of the target.
pub open spec fn confirmed(guess: Seq<char>, target: Seq<char>, c: char) -> nat {
    confirmed_below(guess, target, c, target.len() as int)
}

/// The letter `c`, guessed at some non-exact position, still has an
/// unaccounted occurrence in the target: fewer exact matches of `c` are
/// confirmed than the target holds occurrences of `c`.
pub open spec fn partial_letter(guess: Seq<char>, target: Seq<char>, c: char) -> bool {
    confirmed(guess, target, c) < occurrences(target, c)
}

/// The verdict at position `i`.
pub open spec fn classify_at(guess: Seq<char>, target: Seq<char>, i: int) -> Classification {
    if guess[i] == target[i] {
        Classification::Exact
    } else if partial_letter(guess, target, guess[i]) {
        Classification::Partial
    } else {
        Classification::Absent
    }
}

/// The whole classification vector: one verdict per guess position.
pub open spec fn classify(guess: Seq<char>, target: Seq<char>) -> Seq<Classification> {
    Seq::new(guess.len(), |i: int| classify_at(guess, target, i))
}

/// A letter absent from the first `n` positions occurs zero times below `n`.
proof fn lemma_occurrences_below_zero(target: Seq<char>, c: char, n: int)
    requires
        forall|j: int| 0 <= j < n ==> target[j] != c,
    ensures
        occurrences_below(target, c, n) == 0,
    decreases n,
{
    if n > 0 {
        lemma_occurrences_below_zero(target, c, n - 1);
    }
}

/// Law: a guess equal to the target classifies `Exact` at every position.
pub proof fn lemma_all_exact_when_equal(guess: Seq<char>, target: Seq<char>)
    requires
        guess == target,
    ensures
        forall|i: int|
            0 <= i < guess.len() ==> #[trigger] classify(guess, target)[i] == Classification::Exact,
{
}

/// Law: a guess letter that occurs nowhere in the target classifies `Absent`
/// at its position.
pub proof fn lemma_absent_when_missing(guess: Seq<char>, target: Seq<char>, i: int)
    requires
        guess.len() == target.len(),
        0 <= i < guess.len(),
        forall|j: int| 0 <= j < target.len() ==> target[j] != guess[i],
    ensures
        classify(guess, target)[i] == Classification::Absent,
{
    assert(target[i] != guess[i]);
    lemma_occurrences_below_zero(target, guess[i], target.len() as int);
}

/// Law: a position where guess and target agree classifies `Exact`, whatever
/// stands at the other positions.
pub proof fn lemma_exact_position(guess: Seq<char>, target: Seq<char>, i: int)
    requires
        0 <= i < guess.len(),
        guess[i] == target[i],
    ensures
        classify(guess, target)[i] == Classification::Exact,
{
}

/// Law: classification is a function of the guess and the target alone, so
/// classifying the same pair twice yields identical vectors.
pub proof fn lemma_classify_deterministic(
    guess: Seq<char>,
    target: Seq<char>,
    first: Seq<Classification>,
    second: Seq<Classification>,
)
    requires
        first == classify(guess, target),
        second == classify(guess, target),
    ensures
        first == second,
{
}

/// Decides whether the letter at guess position `i` classifies `Partial` when
/// it is not exact: the target holds more occurrences of that letter than the
/// guess has confirmed exact elsewhere.
pub fn should_be_yellow(guessed_word: &Vec<char>, word: &Vec<char>, i: usize) -> (r: bool)
    requires
        guessed_word@.len() == word@.len(),
        i < guessed_word@.len(),
    ensures
        r == partial_letter(guessed_word@, word@, guessed_word@[i as int]),
{
    let c = guessed_word[i];
    let mut seen = false;
    let mut j: usize = 0;
    while j < word.len()
        invariant
            j <= word@.len(),
            seen ==> exists|k: int| 0 <= k < j && word@[k] == c,
            !seen ==> forall|k: int| 0 <= k < j ==> word@[k] != c,
        decreases word@.len() - j,
    {
        if word[j] == c {
            seen = true;
        }
        j += 1;
    }
    if !seen {
        proof {
            lemma_occurrences_below_zero(word@, c, word@.len() as int);
        }
        return false;
    }

    let mut correct: usize = 0;
    let mut total: usize = 0;
    let mut j: usize = 0;
    while j < word.len()
        invariant
            j <= word@.len(),
            guessed_word@.len() == word@.len(),
            correct <= j,
            total <= j,
            correct == confirmed_below(guessed_word@, word@, c, j as int),
            total == occurrences_below(word@, c, j as int),
        decreases word@.len() - j,
    {
        if guessed_word[j] == word[j] && guessed_word[j] == c {
            correct += 1;
        }
        if word[j] == c {
            total += 1;
        }
        j += 1;
    }
    correct < total
}

/// Classifies every position of the guess against the target: `Exact` where
/// the letters agree, else `Partial` or `Absent` by the whole-word counting
/// rule.
pub fn build_color_vec(guessed_word: &Vec<char>, word: &Vec<char>) -> (r: Vec<Classification>)
    requires
        guessed_word@.len() == word@.len(),
    ensures
        r@ == classify(guessed_word@, word@),
{
    let mut result: Vec<Classification> = Vec::new();
    let mut i: usize = 0;
    while i < guessed_word.len()
        invariant
            i <= guessed_word@.len(),
            guessed_word@.len() == word@.len(),
            result@ == classify(guessed_word@, word@).take(i as int),
        decreases guessed_word@.len() - i,
    {
        if guessed_word[i] == word[i] {
            result.push(Classification::Exact);
        } else if should_be_yellow(guessed_word, word, i) {
            result.push(Classification::Partial);
        } else {
            result.push(Classification::Absent);
        }
        proof {
            assert(result@ =~= classify(guessed_word@, word@).take(i + 1));
        }
        i += 1;
    }
    proof {
        assert(result@ =~= classify(guessed_word@, word@));
    }
    result
}

} // verus!
