//! The game state machine: up to six attempts at one fixed target word.
//!
//! Each submitted guess is classified by the feedback engine and recorded in
//! the history. A guess equal to the target wins; a sixth guess that misses
//! loses; otherwise the game awaits the next attempt.

use vstd::prelude::*;
use crate::feedback::{classify, build_color_vec, Classification};

verus! {

/// The number of attempts a session allows.
pub const MAX_ATTEMPTS: u32 = 6;

/// Where the session stands.
#[derive(Clone, Copy, Debug, PartialEq, Eq, Structural)]
pub enum GameStatus {
    /// Attempts remain and no guess has matched the target yet.
    InProgress,
    /// A guess matched the target.
    Won,
    /// All attempts are spent and none matched.
    Lost,
}

/// The views of the recorded classification vectors, one per completed guess.
pub open spec fn history_views(h: Seq<Vec<Classification>>) -> Seq<Seq<Classification>> {
    h.map_values(|v: Vec<Classification>| v@)
}

/// One session: the target word, the attempts made so far, the outcome so
/// far, and the classification history for the final summary.
pub struct Game {
    target: Vec<char>,
    attempts_used: u32,
    status: GameStatus,
    history: Vec<Vec<Classification>>,
}

impl Game {
    /// The target word's letters.
    pub closed spec fn target_seq(self) -> Seq<char> {
        self.target@
    }

    /// How many guesses have been submitted.
    pub closed spec fn attempts_made(self) -> int {
        self.attempts_used as int
    }

    /// The session's outcome so far.
    pub closed spec fn state(self) -> GameStatus {
        self.status
    }

    /// The classification vectors recorded so far, oldest first.
    pub closed spec fn recorded(self) -> Seq<Seq<Classification>> {
        history_views(self.history@)
    }

    /// Well-formed: the attempt counter stays within the allowance, a running
    /// game has attempts left, and the history holds one full-length
    /// classification vector per submitted guess.
    pub open spec fn wf(self) -> bool {
        &&& 0 <= self.attempts_made() <= MAX_ATTEMPTS
        &&& self.state() == GameStatus::InProgress ==> self.attempts_made() < MAX_ATTEMPTS
        &&& self.recorded().len() == self.attempts_made()
        &&& forall|k: int|
            0 <= k < self.recorded().len() ==> #[trigger] self.recorded()[k].len()
                == self.target_seq().len()
    }

    /// A fresh session over the given target word: no attempts made, running,
    /// empty history.
    pub fn new(target: Vec<char>) -> (g: Game)
        ensures
            g.wf(),
            g.target_seq() == target@,
            g.attempts_made() == 0,
            g.state() == GameStatus::InProgress,
            g.recorded() == Seq::<Seq<Classification>>::empty(),
    {
        Game { target, attempts_used: 0, status: GameStatus::InProgress, history: Vec::new() }
    }

    /// The session's outcome so far.
    pub fn status(&self) -> (s: GameStatus)
        ensures
            s == self.state(),
    {
        self.status
    }

    /// How many guesses have been submitted.
    pub fn attempts(&self) -> (n: u32)
        ensures
            n == self.attempts_made(),
    {
        self.attempts_used
    }

    /// The target word's letters, for the final reveal.
    pub fn target(&self) -> (t: &Vec<char>)
        ensures
            t@ == self.target_seq(),
    {
        &self.target
    }

    /// The recorded classification vectors, for the final summary grid.
    pub fn history(&self) -> (h: &Vec<Vec<Classification>>)
        ensures
            history_views(h@) == self.recorded(),
    {
        &self.history
    }

    /// Submits one completed guess: classifies it against the target, records
    /// the classification, and moves the session on — `Won` on a match,
    /// `Lost` when the last attempt misses, otherwise still in progress.
    pub fn submit_guess(&mut self, guess: &Vec<char>) -> (colors: Vec<Classification>)
        requires
            old(self).wf(),
            old(self).state() == GameStatus::InProgress,
            guess@.len() == old(self).target_seq().len(),
        ensures
            final(self).wf(),
            final(self).target_seq() == old(self).target_seq(),
            colors@ == classify(guess@, old(self).target_seq()),
            final(self).attempts_made() == old(self).attempts_made() + 1,
            final(self).recorded() == old(self).recorded().push(colors@),
            final(self).state() == (if guess@ == old(self).target_seq() {
                GameStatus::Won
            } else if old(self).attempts_made() + 1 == MAX_ATTEMPTS {
                GameStatus::Lost
            } else {
                GameStatus::InProgress
            }),
    {
        let colors = build_color_vec(guess, &self.target);
        let recorded_copy = copy_colors(&colors);
        self.history.push(recorded_copy);
        self.attempts_used += 1;
        if chars_equal(guess, &self.target) {
            self.status = GameStatus::Won;
        } else if self.attempts_used == MAX_ATTEMPTS {
            self.status = GameStatus::Lost;
        }
        proof {
            assert(self.recorded() =~= old(self).recorded().push(colors@));
        }
        colors
    }
}

/// The share symbol of a classification: a green square for `Exact`, a
/// yellow square for `Partial`, and a black square (with its emoji variation
/// selector) for `Absent`.
pub open spec fn symbol_of(c: Classification) -> Seq<char> {
    match c {
        Classification::Exact => seq!['\u{1f7e9}'],
        Classification::Partial => seq!['\u{1f7e8}'],
        Classification::Absent => seq!['\u{2b1b}', '\u{fe0f}'],
    }
}

/// The share grid's row for one classification vector: the verdicts' symbols,
/// in position order.
pub open spec fn summary_of(colors: Seq<Classification>) -> Seq<char>
    decreases colors.len(),
{
    if colors.len() == 0 {
        Seq::empty()
    } else {
        summary_of(colors.drop_last()) + symbol_of(colors.last())
    }
}

/// One row of the final share grid: each position's verdict as its colored
/// square.
pub fn summary_row(colors: &Vec<Classification>) -> (row: Vec<char>)
    ensures
        row@ == summary_of(colors@),
{
    let mut row: Vec<char> = Vec::new();
    let mut i: usize = 0;
    while i < colors.len()
        invariant
            i <= colors@.len(),
            row@ == summary_of(colors@.take(i as int)),
        decreases colors@.len() - i,
    {
        match colors[i] {
            Classification::Exact => {
                row.push('\u{1f7e9}');
            },
            Classification::Partial => {
                row.push('\u{1f7e8}');
            },
            Classification::Absent => {
                row.push('\u{2b1b}');
                row.push('\u{fe0f}');
            },
        }
        proof {
            let t = colors@.take(i + 1);
            assert(t.drop_last() =~= colors@.take(i as int));
            assert(row@ =~= summary_of(t));
        }
        i += 1;
    }
    proof {
        assert(colors@.take(colors@.len() as int) =~= colors@);
    }
    row
}

/// Whether two character buffers hold the same letters in the same order.
pub fn chars_equal(a: &Vec<char>, b: &Vec<char>) -> (r: bool)
    ensures
        r == (a@ == b@),
{
    if a.len() != b.len() {
        return false;
    }
    let mut i: usize = 0;
    while i < a.len()
        invariant
            i <= a@.len(),
            a@.len() == b@.len(),
            forall|k: int| 0 <= k < i ==> a@[k] == b@[k],
        decreases a@.len() - i,
    {
        if a[i] != b[i] {
            return false;
        }
        i += 1;
    }
    proof {
        assert(a@ =~= b@);
    }
    true
}

/// A copy of a classification vector.
fn copy_colors(colors: &Vec<Classification>) -> (r: Vec<Classification>)
    ensures
        r@ == colors@,
{
    let mut r: Vec<Classification> = Vec::new();
    let mut i: usize = 0;
    while i < colors.len()
        invariant
            i <= colors@.len(),
            r@ == colors@.take(i as int),
        decreases colors@.len() - i,
    {
        r.push(colors[i]);
        proof {
            assert(r@ =~= colors@.take(i + 1));
        }
        i += 1;
    }
    proof {
        assert(r@ =~= colors@);
    }
    r
}

} // verus!
