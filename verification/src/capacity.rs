//! How many people a room holds, as far as its description says so in one
//! of the two phrases that the booking page uses.

use crate::text::{
    begins_with, chars_of, chars_text, ends_with, numeral_value, parse_numeral, reads_as, slice_of,
    str_text,
};
use regex::Regex;
use vstd::prelude::*;
use vstd::string::*;

verus! {

/// The regular expression of the phrase `accommodate up to ... people`.
pub const ACCOMMODATE_PATTERN: &'static str = "accommodate up to \\S+ people";

/// The regular expression of the phrase `It has a capacity of ...`.
pub const CAPACITY_OF_PATTERN: &'static str = "It has a capacity of \\S+";

/// The text of the first match of the regular expression `pattern` in
/// `haystack`, as the `regex` crate finds it. There is none where nothing
/// matches, and none where the pattern is no regular expression.
pub uninterp spec fn first_match(pattern: Seq<char>, haystack: Seq<char>) -> Option<Seq<char>>;

/// `Regex::new` on `pattern`, then `Regex::find` on `haystack` and
/// `Match::as_str`. Trusted: what comes back is `first_match` of the two
/// texts, which says only that the same pattern and haystack give the same
/// match.
#[verifier::external_body]
fn find_first_match(pattern: &str, haystack: &str) -> (found: Option<String>)
    ensures
        match found {
            Some(text) => first_match(pattern@, haystack@) == Some(text@),
            None => first_match(pattern@, haystack@) is None,
        },
{
    match Regex::new(pattern) {
        Ok(regex) => regex.find(haystack).map(|found| found.as_str().to_string()),
        Err(_) => None,
    }
}

/// What stands between `prefix` and `suffix` in `phrase`, where the phrase
/// begins with the one and ends, after it, with the other.
pub open spec fn phrase_token(phrase: Seq<char>, prefix: Seq<char>, suffix: Seq<char>) -> Option<
    Seq<char>,
> {
    if prefix.len() + suffix.len() <= phrase.len() && prefix.is_prefix_of(phrase)
        && suffix.is_suffix_of(phrase) {
        Some(phrase.subrange(prefix.len() as int, phrase.len() - suffix.len()))
    } else {
        None
    }
}

/// The word for the capacity in the phrases found: that of the phrase
/// `accommodate up to ... people` where it was found and holds one, else
/// that of the phrase `It has a capacity of ...`.
pub open spec fn capacity_token(
    accommodate: Option<Seq<char>>,
    capacity_of: Option<Seq<char>>,
) -> Option<Seq<char>> {
    let first = match accommodate {
        Some(phrase) => phrase_token(phrase, "accommodate up to "@, " people"@),
        None => None,
    };
    match first {
        Some(token) => Some(token),
        None => match capacity_of {
            Some(phrase) => phrase_token(phrase, "It has a capacity of "@, ""@),
            None => None,
        },
    }
}

/// The number that a word for a capacity stands for: one of the number
/// words `ten`, `six` and `four`, or a numeral of at most 255.
pub open spec fn token_capacity(token: Seq<char>) -> Option<u8> {
    if token == "ten"@ {
        Some(10u8)
    } else if token == "six"@ {
        Some(6u8)
    } else if token == "four"@ {
        Some(4u8)
    } else {
        numeral_value(token)
    }
}

/// The capacity that a description states, where it states one.
pub open spec fn inferred_capacity(description: Seq<char>) -> Option<u8> {
    match capacity_token(
        first_match(ACCOMMODATE_PATTERN@, description),
        first_match(CAPACITY_OF_PATTERN@, description),
    ) {
        Some(token) => token_capacity(token),
        None => None,
    }
}

/// What stands between `prefix` and `suffix` in `phrase`.
fn token_between(phrase: &str, prefix: &str, suffix: &str) -> (token: Option<Vec<char>>)
    ensures
        chars_text(token) == phrase_token(phrase@, prefix@, suffix@),
{
    let text = chars_of(phrase);
    let prefix_len = prefix.unicode_len();
    let suffix_len = suffix.unicode_len();
    if prefix_len > text.len() || suffix_len > text.len() - prefix_len {
        return None;
    }
    if begins_with(&text, prefix) && ends_with(&text, suffix) {
        Some(slice_of(&text, prefix_len, text.len() - suffix_len))
    } else {
        None
    }
}

/// The word for the capacity in the phrases that were found in a
/// description: the first for `ACCOMMODATE_PATTERN`, the second for
/// `CAPACITY_OF_PATTERN`.
pub fn token_of_phrases(accommodate: Option<&str>, capacity_of: Option<&str>) -> (token: Option<
    Vec<char>,
>)
    ensures
        chars_text(token) == capacity_token(str_text(accommodate), str_text(capacity_of)),
{
    let first = match accommodate {
        Some(phrase) => token_between(phrase, "accommodate up to ", " people"),
        None => None,
    };
    match first {
        Some(token) => Some(token),
        None => match capacity_of {
            Some(phrase) => token_between(phrase, "It has a capacity of ", ""),
            None => None,
        },
    }
}

/// The number that a word for a capacity stands for.
pub fn capacity_of_token(token: &Vec<char>) -> (capacity: Option<u8>)
    ensures
        capacity == token_capacity(token@),
{
    if reads_as(token, "ten") {
        Some(10)
    } else if reads_as(token, "six") {
        Some(6)
    } else if reads_as(token, "four") {
        Some(4)
    } else {
        parse_numeral(token)
    }
}

/// The word for the capacity in a description, where one of the two phrases
/// stands in it.
pub fn stringly_capacity(haystack: &str) -> (token: Option<Vec<char>>)
    ensures
        chars_text(token) == capacity_token(
            first_match(ACCOMMODATE_PATTERN@, haystack@),
            first_match(CAPACITY_OF_PATTERN@, haystack@),
        ),
{
    let accommodate = find_first_match(ACCOMMODATE_PATTERN, haystack);
    let capacity_of = find_first_match(CAPACITY_OF_PATTERN, haystack);
    token_of_phrases(
        match &accommodate {
            Some(phrase) => Some(phrase.as_str()),
            None => None,
        },
        match &capacity_of {
            Some(phrase) => Some(phrase.as_str()),
            None => None,
        },
    )
}

} // verus!
