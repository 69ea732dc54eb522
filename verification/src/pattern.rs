//! Regular-expression searches, made by the `regex` crate.
//!
//! A match is given by its capture groups: group 0 is the whole match, and a
//! group that took no part in the match is `None`.
use vstd::prelude::*;
use crate::text::opt_chars;

verus! {

/// What `regex::Regex::new(pattern)` reports: `None` when the pattern
/// compiles, else the text of its error.
pub uninterp spec fn regex_compile_error(pattern: Seq<char>) -> Option<Seq<char>>;

/// The groups of the first match of `pattern` in `text` (what
/// `Regex::captures` finds), `None` when nothing matches.
pub uninterp spec fn regex_first_match(pattern: Seq<char>, text: Seq<char>) -> Option<
    Seq<Option<Seq<char>>>,
>;

/// The groups of each successive non-overlapping match of `pattern` in
/// `text` (what `Regex::captures_iter` yields).
pub uninterp spec fn regex_all_matches(pattern: Seq<char>, text: Seq<char>) -> Seq<
    Seq<Option<Seq<char>>>,
>;

/// The plain content of the groups of a match.
pub open spec fn groups_view(g: Seq<Option<String>>) -> Seq<Option<Seq<char>>> {
    g.map_values(|o: Option<String>| opt_chars(o))
}

/// Group `i` of a match: `None` when the pattern has no such group or the
/// group took no part in the match.
pub open spec fn group(g: Seq<Option<Seq<char>>>, i: int) -> Option<Seq<char>> {
    if 0 <= i < g.len() {
        g[i]
    } else {
        None
    }
}

/// The characters `regex::escape` puts a backslash before.
pub open spec fn is_meta_character(c: char) -> bool {
    c == '\\' || c == '.' || c == '+' || c == '*' || c == '?' || c == '(' || c == ')' || c == '|'
        || c == '[' || c == ']' || c == '{' || c == '}' || c == '^' || c == '$' || c == '#' || c
        == '&' || c == '-' || c == '~'
}

/// What `regex::escape` gives: `s` with a backslash before each meta character.
pub open spec fn escaped(s: Seq<char>) -> Seq<char>
    decreases s.len(),
{
    if s.len() == 0 {
        Seq::empty()
    } else if is_meta_character(s.last()) {
        escaped(s.drop_last()).push('\\').push(s.last())
    } else {
        escaped(s.drop_last()).push(s.last())
    }
}

/// Calls `regex::Regex::new` and keeps the text of its error, named by
/// [`regex_compile_error`].
#[verifier::external_body]
pub(crate) fn pattern_error(pattern: &str) -> (r: Option<String>)
    ensures
        opt_chars(r) == regex_compile_error(pattern@),
{
    regex::Regex::new(pattern).err().map(|e| e.to_string())
}

/// Calls `Regex::captures` on a pattern that compiles; the groups found are
/// named by [`regex_first_match`].
#[verifier::external_body]
pub(crate) fn first_match(pattern: &str, text: &str) -> (r: Option<Vec<Option<String>>>)
    requires
        regex_compile_error(pattern@) is None,
    ensures
        match r {
            Some(g) => regex_first_match(pattern@, text@) == Some(groups_view(g@)),
            None => regex_first_match(pattern@, text@) is None,
        },
{
    let re = regex::Regex::new(pattern).unwrap();
    re.captures(text).map(|c| c.iter().map(|m| m.map(|m| m.as_str().to_string())).collect())
}

/// Calls `Regex::captures_iter` on a pattern that compiles; the matches
/// found are named by [`regex_all_matches`].
#[verifier::external_body]
pub(crate) fn all_matches(pattern: &str, text: &str) -> (r: Vec<Vec<Option<String>>>)
    requires
        regex_compile_error(pattern@) is None,
    ensures
        r@.len() == regex_all_matches(pattern@, text@).len(),
        forall|k: int|
            0 <= k < r@.len() ==> groups_view(#[trigger] r@[k]@) == regex_all_matches(
                pattern@,
                text@,
            )[k],
{
    let re = regex::Regex::new(pattern).unwrap();
    re.captures_iter(text).map(|c| c.iter().map(|m| m.map(|m| m.as_str().to_string())).collect()).collect()
}

/// Calls `regex::escape`, which puts a backslash before every character of
/// `\ . + * ? ( ) | [ ] { } ^ $ # & - ~` and keeps the others (see [`escaped`]).
#[verifier::external_body]
pub(crate) fn escape(text: &str) -> (r: String)
    ensures
        r@ == escaped(text@),
{
    regex::escape(text)
}

/// Group `i` of a match, as a string.
pub fn group_text(g: &Vec<Option<String>>, i: usize) -> (r: Option<String>)
    ensures
        opt_chars(r) == group(groups_view(g@), i as int),
{
    if i < g.len() {
        match &g[i] {
            Some(s) => Some(s.clone()),
            None => None,
        }
    } else {
        None
    }
}

} // verus!
