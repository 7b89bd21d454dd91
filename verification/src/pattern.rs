//! Matching an address string against a user-supplied pattern.
//!
//! Compilation and matching are done by the regex crate; the compiled
//! pattern is carried together with the text it was compiled from, so
//! every match verdict is pinned to that text.

use vstd::prelude::*;

verus! {

/// Whether a pattern is a valid regular expression: the verdict of
/// `regex::Regex::new`, a function of the pattern alone.
pub uninterp spec fn regex_valid(pattern: Seq<char>) -> bool;

/// Whether a regular expression matches a text: the verdict of
/// `regex::Regex::is_match`, a function of pattern and text alone.
pub uninterp spec fn regex_match(pattern: Seq<char>, text: Seq<char>) -> bool;

#[verifier::external_type_specification]
#[verifier::external_body]
pub struct ExRegex(regex::Regex);

/// Relies on `regex::Regex::new`: compilation succeeds or fails by the
/// pattern alone.
#[verifier::external_body]
fn regex_new(pattern: &str) -> (r: Option<regex::Regex>)
    ensures
        r is Some <==> regex_valid(pattern@),
{
    regex::Regex::new(pattern).ok()
}

/// A compiled pattern, remembering the text it was compiled from.
pub struct Pattern {
    re: regex::Regex,
    text: Ghost<Seq<char>>,
}

impl Pattern {
    /// The pattern text this value was compiled from.
    pub closed spec fn pattern(&self) -> Seq<char> {
        self.text@
    }

    /// Compiles a pattern, or reports that it is not a valid regular
    /// expression.  An invalid pattern is a startup error: callers fail
    /// fast and never enter the search with it.
    pub fn compile(pattern: &str) -> (r: Option<Pattern>)
        ensures
            r is Some <==> regex_valid(pattern@),
            r is Some ==> r.unwrap().pattern() == pattern@,
    {
        match regex_new(pattern) {
            Some(re) => Some(Pattern { re, text: Ghost(pattern@) }),
            None => None,
        }
    }

    /// Relies on `regex::Regex::is_match`: the verdict is a function of
    /// the compiled pattern and the text alone.  The `text` field is set
    /// only by `compile`, to the pattern `re` was compiled from.
    #[verifier::external_body]
    fn re_is_match(&self, text: &str) -> (r: bool)
        ensures
            r == regex_match(self.pattern(), text@),
    {
        self.re.is_match(text)
    }

    /// Whether the pattern matches the text, exactly as the regex engine
    /// decides it.
    pub fn is_match(&self, text: &str) -> (r: bool)
        ensures
            r == regex_match(self.pattern(), text@),
    {
        self.re_is_match(text)
    }
}

} // verus!
