//! What the library reads out of a line that the user typed.

use vstd::prelude::*;
use crate::resolver::MAX_TOKENS_LIMIT;

verus! {

/// What `str::trim` leaves of `text`: the text without the white space at
/// its two ends, white space being what Unicode calls so.
pub uninterp spec fn trimmed(text: Seq<char>) -> Seq<char>;

/// What `str::to_lowercase` makes of `text`: its lower-case form by
/// Unicode's mapping.
pub uninterp spec fn lowercased(text: Seq<char>) -> Seq<char>;

/// The number that `str::parse` reads from `text` as an `i32`, or `None`
/// where it refuses the text.
pub uninterp spec fn parsed_i32(text: Seq<char>) -> Option<i32>;

/// `str::trim` returns the part of the text between its leading and its
/// trailing white space; the result depends on the text alone.
pub assume_specification[ str::trim ](text: &str) -> (inner: &str)
    ensures
        inner@ == trimmed(text@),
;

/// `str::to_lowercase` returns the lower-case form of the text as a new
/// string; the result depends on the text alone.
pub assume_specification[ str::to_lowercase ](text: &str) -> (lower: String)
    ensures
        lower@ == lowercased(text@),
;

/// Reads a decimal `i32` with `str::parse`; the result depends on the text
/// alone.
#[verifier::external_body]
fn parse_i32(text: &str) -> (number: Option<i32>)
    ensures
        number == parsed_i32(text@),
{
    match text.parse::<i32>() {
        Ok(n) => Some(n),
        Err(_) => None,
    }
}

/// Whether a typed line gives consent: without the white space at its ends,
/// and whatever its case, it is the one letter `y`.
pub open spec fn consents(line: Seq<char>) -> bool {
    lowercased(trimmed(line)) == "y"@
}

/// The answer that a typed line gives to an optional question: nothing
/// where the line is blank, else the line without the white space at its
/// ends.
pub open spec fn optional_answer(line: Seq<char>) -> Option<Seq<char>> {
    if trimmed(line).len() == 0 {
        None
    } else {
        Some(trimmed(line))
    }
}

/// The number of tokens that a typed line asks for: the number it holds,
/// without the white space at its ends, if that lies within the limits.
pub open spec fn token_answer(line: Seq<char>) -> Option<i32> {
    accepted_tokens(parsed_i32(trimmed(line)))
}

/// The number of tokens that is accepted of what was read from a line: a
/// number from 1 up to the limit.
pub open spec fn accepted_tokens(read: Option<i32>) -> Option<i32> {
    match read {
        Some(n) if 0 < n <= MAX_TOKENS_LIMIT => Some(n),
        _ => None,
    }
}

/// Returns whether `line` gives consent.
pub fn is_consent(line: &str) -> (yes: bool)
    ensures
        yes == consents(line@),
{
    let answer = line.trim().to_lowercase();
    let wanted = "y".to_owned();
    answer == wanted
}

/// Returns the line without the white space at its ends.
pub fn trimmed_line(line: &str) -> (inner: String)
    ensures
        inner@ == trimmed(line@),
{
    line.trim().to_owned()
}

/// Returns the answer that `line` gives to an optional question.
pub fn read_optional(line: &str) -> (answer: Option<String>)
    ensures
        answer is Some <==> optional_answer(line@) is Some,
        answer matches Some(text) ==> Some(text@) == optional_answer(line@),
{
    let inner = line.trim();
    if inner.is_empty() {
        None
    } else {
        Some(inner.to_owned())
    }
}

/// Returns the number of tokens that is accepted of `read`.
pub fn accept_tokens(read: Option<i32>) -> (tokens: Option<i32>)
    ensures
        tokens == accepted_tokens(read),
{
    match read {
        Some(n) => if 0 < n && n <= MAX_TOKENS_LIMIT {
            Some(n)
        } else {
            None
        },
        None => None,
    }
}

/// Returns the number of tokens that `line` asks for.
pub fn read_tokens(line: &str) -> (tokens: Option<i32>)
    ensures
        tokens == token_answer(line@),
{
    accept_tokens(parse_i32(line.trim()))
}

} // verus!
