//! The best score of a game, kept as text between runs.

use vstd::prelude::*;

verus! {

/// What `str::trim` returns for `text`: `text` without the white space at
/// its start and at its end.
pub uninterp spec fn trimmed(text: Seq<char>) -> Seq<char>;

/// What `str::parse::<i32>` makes of `text`: the number that `text` writes
/// in decimal digits, with an optional sign before them, or `None` where
/// `text` is not such a number or the number is outside `i32`.
pub uninterp spec fn parsed_i32(text: Seq<char>) -> Option<i32>;

/// Calls `str::trim`; its result is named [`trimmed`].
#[verifier::external_body]
fn trim(text: &str) -> (r: &str)
    ensures
        r@ == trimmed(text@),
{
    text.trim()
}

/// Calls `str::parse::<i32>` and drops the error; its result is named
/// [`parsed_i32`].
#[verifier::external_body]
fn parse_i32(text: &str) -> (r: Option<i32>)
    ensures
        r == parsed_i32(text@),
{
    text.parse::<i32>().ok()
}

/// The best score that a reading stands for: the number read, or zero
/// where none was read.
pub open spec fn score_or_zero(parsed: Option<i32>) -> i32 {
    match parsed {
        Some(score) => score,
        None => 0,
    }
}

/// Computes the best score that a reading stands for; see
/// [`score_or_zero`].
pub fn high_score_from(parsed: Option<i32>) -> (score: i32)
    ensures
        score == score_or_zero(parsed),
{
    match parsed {
        Some(score) => score,
        None => 0,
    }
}

/// Reads the best score from the text that was stored: the number that
/// the text holds, white space around it aside, or zero where it holds
/// none.
pub fn parse_high_score(text: &str) -> (score: i32)
    ensures
        score == score_or_zero(parsed_i32(trimmed(text@))),
{
    high_score_from(parse_i32(trim(text)))
}

/// Holds `score` against the best score so far, which it replaces if it
/// is higher. Returns whether it did, so that the new best score can be
/// stored.
pub fn record_score(score: i32, high_score: &mut i32) -> (improved: bool)
    ensures
        improved == (score > *old(high_score)),
        *final(high_score) == if score > *old(high_score) {
            score
        } else {
            *old(high_score)
        },
{
    if score > *high_score {
        *high_score = score;
        true
    } else {
        false
    }
}

} // verus!
