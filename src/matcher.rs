use vstd::prelude::*;
use regex::Regex;

verus! {

#[verifier::external_type_specification]
#[verifier::external_body]
pub struct ExRegex(regex::Regex);

/// What `regex::Regex::new` says of a pattern: `None` where it compiles, else
/// the text of the error it gives.
pub uninterp spec fn regex_refusal(pattern: Seq<char>) -> Option<Seq<char>>;

/// Whether a regex compiled from `pattern` finds a match anywhere in `haystack`.
pub uninterp spec fn regex_finds(pattern: Seq<char>, haystack: Seq<char>) -> bool;

/// Relies on `regex::Regex::new` (default limits): whether the pattern
/// compiles, and the error's text, depend on the pattern alone.
#[verifier::external_body]
fn compile_regex(pattern: &str) -> (r: Result<Regex, String>)
    ensures
        match r {
            Ok(_) => regex_refusal(pattern@) is None,
            Err(m) => regex_refusal(pattern@) == Some(m@),
        },
{
    Regex::new(pattern).map_err(|e| e.to_string())
}

/// A pattern that the regex engine refused.
#[derive(Clone, Debug)]
pub struct PatternError {
    pub pattern: String,
    pub message: String,
}

/// A compiled filename pattern. Matching is an unanchored search: a pattern
/// matches a name when it matches some part of it.
pub struct Matcher {
    pattern: String,
    re: Regex,
}

impl View for Matcher {
    type V = Seq<char>;

    closed spec fn view(&self) -> Seq<char> {
        self.pattern@
    }
}

/// Relies on `regex::Regex::is_match`, an unanchored search. `m.re` was
/// compiled from `m.pattern` by `Matcher::compile`, the only place that
/// builds a `Matcher`.
#[verifier::external_body]
fn regex_is_match(m: &Matcher, haystack: &str) -> (r: bool)
    ensures
        r == regex_finds(m@, haystack@),
{
    m.re.is_match(haystack)
}

impl Matcher {
    pub fn compile(pattern: &str) -> (r: Result<Matcher, PatternError>)
        ensures
            match r {
                Ok(m) => regex_refusal(pattern@) is None && m@ == pattern@,
                Err(e) => regex_refusal(pattern@) == Some(e.message@) && e.pattern@ == pattern@,
            },
    {
        match compile_regex(pattern) {
            Ok(re) => Ok(Matcher { pattern: pattern.to_string(), re }),
            Err(message) => Err(PatternError { pattern: pattern.to_string(), message }),
        }
    }

    /// Whether the pattern occurs in `name` (a file name, not a path).
    pub fn matches(&self, name: &str) -> (r: bool)
        ensures
            r == regex_finds(self@, name@),
    {
        regex_is_match(self, name)
    }

    pub fn pattern(&self) -> (r: &str)
        ensures
            r@ == self@,
    {
        self.pattern.as_str()
    }
}

} // verus!
