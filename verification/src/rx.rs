//! Trusted access to the regex crate. Every result is named as a function of
//! the pattern and the text, which is sound because compiling a pattern and
//! matching a compiled pattern are deterministic in the pattern and the text.

use vstd::prelude::*;

verus! {

/// Whether a regular-expression pattern compiles.
pub uninterp spec fn regex_valid(pattern: Seq<char>) -> bool;

/// Whether a pattern matches somewhere in a text.
pub uninterp spec fn regex_match(pattern: Seq<char>, text: Seq<char>) -> bool;

/// The text with the leftmost match of the pattern replaced by the rewrite.
pub uninterp spec fn regex_replace_first(
    pattern: Seq<char>,
    text: Seq<char>,
    rewrite: Seq<char>,
) -> Seq<char>;

/// The non-overlapping successive matches of a pattern in a text: for each,
/// the whole match and its first two capture groups (empty when absent).
pub uninterp spec fn regex_captures2(pattern: Seq<char>, text: Seq<char>) -> Seq<
    (Seq<char>, Seq<char>, Seq<char>),
>;

/// Relies on regex::Regex::new: whether a pattern compiles depends on the
/// pattern alone.
#[verifier::external_body]
pub fn regex_compiles(pattern: &str) -> (r: bool)
    ensures
        r == regex_valid(pattern@),
{
    regex::Regex::new(pattern).is_ok()
}

/// Relies on regex::Regex::new and regex::Regex::is_match: whether a valid
/// pattern matches depends on the pattern and the text alone.
#[verifier::external_body]
pub fn regex_is_match(pattern: &str, text: &str) -> (r: bool)
    ensures
        regex_valid(pattern@) ==> r == regex_match(pattern@, text@),
{
    match regex::Regex::new(pattern) {
        Ok(re) => re.is_match(text),
        Err(_) => false,
    }
}

/// Relies on regex::Regex::new and regex::Regex::replace: replacing the
/// leftmost match depends on the pattern, the text and the rewrite alone, and
/// a text without a match comes back unchanged.
#[verifier::external_body]
pub fn regex_replace(pattern: &str, text: &str, rewrite: &str) -> (r: String)
    ensures
        regex_valid(pattern@) ==> r@ == regex_replace_first(pattern@, text@, rewrite@),
        regex_valid(pattern@) && !regex_match(pattern@, text@) ==> r@ == text@,
{
    match regex::Regex::new(pattern) {
        Ok(re) => re.replace(text, rewrite).to_string(),
        Err(_) => text.to_owned(),
    }
}

/// Relies on regex::Regex::new and regex::Regex::captures_iter: the list of
/// successive matches, each with its first two capture groups, depends on the
/// pattern and the text alone.
#[verifier::external_body]
pub fn regex_capture_pairs(pattern: &str, text: &str) -> (r: Vec<(String, String, String)>)
    ensures
        regex_valid(pattern@) ==> r.deep_view() == regex_captures2(pattern@, text@),
{
    match regex::Regex::new(pattern) {
        Ok(re) => re.captures_iter(text).map(
            |c: regex::Captures| (
                c.get(0).map(|m| m.as_str()).unwrap_or("").to_string(),
                c.get(1).map(|m| m.as_str()).unwrap_or("").to_string(),
                c.get(2).map(|m| m.as_str()).unwrap_or("").to_string(),
            ),
        ).collect(),
        Err(_) => Vec::new(),
    }
}

} // verus!
