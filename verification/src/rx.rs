//! Declarations and trusted wrappers for the regular expressions the
//! analyzers match with.  A compiled `regex::Regex` is opaque to the verified
//! logic; what it holds and what its methods return are named by
//! uninterpreted spec functions — each match is a pure function of the
//! pattern and the text, as the regex crate's source shows.

use vstd::prelude::*;

verus! {

#[verifier::external_type_specification]
#[verifier::external_body]
pub struct ExRegex(regex::Regex);

/// The pattern a compiled regex was built from.
pub uninterp spec fn regex_pattern_of(re: regex::Regex) -> Seq<char>;

/// Whether a pattern matches anywhere in a text.
pub uninterp spec fn regex_match_of(pattern: Seq<char>, text: Seq<char>) -> bool;

/// The leftmost match of a pattern in a text.
pub uninterp spec fn regex_first_match_of(pattern: Seq<char>, text: Seq<char>) -> Seq<char>;

/// A text with every match of a pattern replaced.
pub uninterp spec fn regex_replaced_of(
    pattern: Seq<char>,
    text: Seq<char>,
    replacement: Seq<char>,
) -> Seq<char>;

/// Relies on regex's `Regex::new`: compiles a pattern, or yields nothing for
/// an invalid one.
#[verifier::external_body]
pub fn regex_new(pattern: &str) -> (r: Option<regex::Regex>)
    ensures
        r matches Some(re) ==> regex_pattern_of(re) == pattern@,
{
    match regex::Regex::new(pattern) {
        Ok(re) => Some(re),
        Err(_) => None,
    }
}

/// Relies on regex's `Regex::is_match`: deterministic in the pattern and the
/// text.
#[verifier::external_body]
pub fn regex_is_match(re: &regex::Regex, text: &str) -> (r: bool)
    ensures
        r == regex_match_of(regex_pattern_of(*re), text@),
{
    re.is_match(text)
}

/// Relies on regex's `Regex::find`: the leftmost match, present exactly when
/// the pattern matches.
#[verifier::external_body]
pub fn regex_find_first(re: &regex::Regex, text: &str) -> (r: Option<String>)
    ensures
        r is Some <==> regex_match_of(regex_pattern_of(*re), text@),
        r matches Some(m) ==> m@ == regex_first_match_of(regex_pattern_of(*re), text@),
{
    re.find(text).map(|m| m.as_str().to_string())
}

/// Relies on regex's `Regex::replace_all`: deterministic in the pattern, the
/// text and the replacement.
#[verifier::external_body]
pub fn regex_replace_all(re: &regex::Regex, text: &str, replacement: &str) -> (r: String)
    ensures
        r@ == regex_replaced_of(regex_pattern_of(*re), text@, replacement@),
{
    re.replace_all(text, replacement).to_string()
}

} // verus!
