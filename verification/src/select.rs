//! Word selection: the day's word by its offset from a fixed epoch date, or a
//! word drawn uniformly at random from the list.
//!
//! The word list itself is an external collaborator: callers hand it in as a
//! read-only sequence of words. Only the indexing rules live here; the current
//! date and the random draw come from outside crates behind trusted wrappers.

use vstd::prelude::*;
use rand::RngExt;

verus! {

/// The epoch date the day-offset count starts from.
pub const EPOCH_YEAR: i32 = 2021;

/// The epoch date's month.
pub const EPOCH_MONTH: u32 = 6;

/// The epoch date's day of month.
pub const EPOCH_DAY: u32 = 20;

/// Relies on chrono: `Local::now().date_naive()` for the current local date,
/// `NaiveDate::signed_duration_since` and `TimeDelta::num_days` for the count
/// of whole days from the epoch date to it. The result depends on the clock,
/// so nothing is promised of it.
#[verifier::external_body]
fn days_since_epoch() -> (d: i64) {
    let epoch = chrono::NaiveDate::from_ymd_opt(EPOCH_YEAR, EPOCH_MONTH, EPOCH_DAY).unwrap();
    let today = chrono::Local::now().date_naive();
    today.signed_duration_since(epoch).num_days()
}

/// Relies on rand: `RngExt::random_range` over `0..n` returns a value drawn
/// from that range, so strictly below `n`; it panics on an empty range, which
/// `n > 0` rules out.
#[verifier::external_body]
fn random_index_below(n: usize) -> (r: usize)
    requires
        n > 0,
    ensures
        r < n,
{
    rand::rng().random_range(0..n)
}

/// The day-offset indexing rule: a day count addresses the list entry at that
/// offset, and only a count within the list's bounds addresses one.
pub fn select_index_by_days(days: i64, list_len: usize) -> (r: Option<usize>)
    ensures
        0 <= days < list_len ==> r == Some(days as usize),
        !(0 <= days < list_len) ==> r is None,
{
    if days >= 0 && (days as u64) < (list_len as u64) {
        Some(days as usize)
    } else {
        None
    }
}

/// The day's word: the list entry whose index is the number of days from the
/// epoch date to today, paired with that index. `None` when that count falls
/// outside the list's bounds, which the caller treats as fatal.
pub fn get_word_by_date(words: &Vec<String>) -> (r: Option<(usize, String)>)
    ensures
        match r {
            Some(pair) => pair.0 < words@.len() && pair.1@ == words@[pair.0 as int]@,
            None => true,
        },
{
    let days = days_since_epoch();
    match select_index_by_days(days, words.len()) {
        Some(index) => Some((index, words[index].clone())),
        None => None,
    }
}

/// A word drawn uniformly at random from the list, paired with the list's
/// length, which stands in for the word's index in the displayed summary. The
/// draw is strictly below the list's length, so the word is always one of the
/// list's entries.
pub fn get_random_word(words: &Vec<String>) -> (r: (usize, String))
    requires
        words@.len() > 0,
    ensures
        r.0 == words@.len(),
        exists|i: int| 0 <= i < words@.len() && r.1@ == words@[i]@,
{
    let index = random_index_below(words.len());
    (words.len(), words[index].clone())
}

} // verus!
