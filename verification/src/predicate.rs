//! Filter predicates.  The one predicate kind today matches the request path
//! against a regular expression; the variant set is open for extension.  The
//! regex engine is an outside library: compilation and matching stand behind
//! trusted wrappers, and everything downstream is stated over the named
//! results `regex_valid` and `regex_accepts`.

use vstd::prelude::*;
use vstd::string::*;
use crate::strutil::str_eq;

verus! {

#[verifier::external_type_specification]
#[verifier::external_body]
pub struct ExRegex(regex::Regex);

/// Whether the regex compiler accepts a pattern: valid syntax, within the
/// compiler's default limits.  Acceptance depends on the pattern alone.
pub uninterp spec fn regex_valid(pattern: Seq<char>) -> bool;

/// Whether a compiled pattern matches anywhere in a text.  Matching depends
/// on the pattern and the text alone.
pub uninterp spec fn regex_accepts(pattern: Seq<char>, text: Seq<char>) -> bool;

/// The pattern a compiled regex was built from.
pub uninterp spec fn regex_source(re: regex::Regex) -> Seq<char>;

/// Relies on `regex::Regex::new`: whether it compiles is a function of the
/// pattern alone, and the compiled value holds the pattern it was built from.
#[verifier::external_body]
fn regex_compile(pattern: &str) -> (r: Option<regex::Regex>)
    ensures
        (r is Some) == regex_valid(pattern@),
        r matches Some(re) ==> regex_source(re) == pattern@,
{
    regex::Regex::new(pattern).ok()
}

/// Relies on `regex::Regex::is_match`: true exactly when the regex matches
/// anywhere in the haystack, a function of the pattern and the haystack alone.
#[verifier::external_body]
fn regex_is_match(re: &regex::Regex, text: &str) -> (r: bool)
    ensures
        r == regex_accepts(regex_source(*re), text@),
{
    re.is_match(text)
}

/// A filter predicate: a closed variant set, open for extension.
#[derive(Debug, PartialEq, Clone)]
pub enum Predicate {
    PathPattern(String),
}

/// Whether a predicate selects a request with the given path.  A pattern
/// that does not compile selects nothing.
pub open spec fn spec_predicate_matches(p: Predicate, path: Seq<char>) -> bool {
    match p {
        Predicate::PathPattern(pattern) => regex_valid(pattern@) && regex_accepts(pattern@, path),
    }
}

impl Predicate {
    /// Build a predicate from its kind name and its expression.  The one
    /// supported kind is `path_pattern`; the caller vouches for the name.
    pub fn from_str(t: &str, exp: &str) -> (r: Self)
        requires
            t@ == "path_pattern"@,
        ensures
            r matches Predicate::PathPattern(p) && p@ == exp@,
    {
        if str_eq(t, "path_pattern") {
            Predicate::PathPattern(exp.to_owned())
        } else {
            proof {
                assert(false);
            }
            Predicate::PathPattern(exp.to_owned())
        }
    }

    /// Evaluate this predicate against a request path.
    pub fn matches_path(&self, path: &str) -> (r: bool)
        ensures
            r == spec_predicate_matches(*self, path@),
    {
        match self {
            Predicate::PathPattern(pattern) => {
                match regex_compile(pattern.as_str()) {
                    Some(re) => regex_is_match(&re, path),
                    None => false,
                }
            },
        }
    }
}

} // verus!
