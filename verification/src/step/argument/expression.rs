//! Step argument expressions: the values that the step's regular expression
//! matched in the step text.

use vstd::prelude::*;

verus! {

#[verifier::external_type_specification]
#[verifier::external_body]
pub struct ExRegexMatch<'h>(regex::Match<'h>);

/// The byte offsets of the start and the end of a match in its haystack, as
/// `regex::Match::range` gives them.
pub uninterp spec fn match_bounds(m: regex::Match<'_>) -> (usize, usize);

/// The text of a match, as `regex::Match::as_str` gives it.
pub uninterp spec fn match_str(m: regex::Match<'_>) -> Seq<char>;

/// Trusted: calls `regex::Match::range`, which the regex crate documents as
/// the byte offsets of the start and the end of the match in the haystack,
/// such that `&haystack[start..end]` is the matched text. The contract names
/// the offsets as a function of the match, and claims that the start is not
/// past the end.
#[verifier::external_body]
fn match_range(m: &regex::Match<'_>) -> (r: (usize, usize))
    ensures
        r == match_bounds(*m),
        r.0 <= r.1,
{
    let range = m.range();
    (range.start, range.end)
}

/// Trusted: calls `regex::Match::as_str`, the text between the match's start
/// and end in the haystack; the contract names it as a function of the match.
/// Its characters are not related to the byte range here: nothing in this
/// library speaks of a text's bytes.
#[verifier::external_body]
fn match_text<'h>(m: &regex::Match<'h>) -> (t: &'h str)
    ensures
        t@ == match_str(*m),
{
    m.as_str()
}

/// A value matched from the step text, with its byte range in the text.
#[derive(Debug, Clone)]
pub struct Expression<'s> {
    value: &'s str,
    start: usize,
    end: usize,
}

impl<'s> Expression<'s> {
    /// The matched value.
    pub closed spec fn spec_value(&self) -> Seq<char> {
        self.value@
    }

    /// The start index of the match.
    pub closed spec fn spec_start(&self) -> usize {
        self.start
    }

    /// The end index of the match.
    pub closed spec fn spec_end(&self) -> usize {
        self.end
    }

    /// Creates the expression for a value matched at `start..end` of the step text.
    pub fn new(value: &'s str, start: usize, end: usize) -> (e: Expression<'s>)
        ensures
            e.spec_value() == value@,
            e.spec_start() == start,
            e.spec_end() == end,
    {
        Expression { value, start, end }
    }

    /// The expression of a match of the step's regular expression: its text
    /// and its byte range in the step text.
    pub fn from(mat: regex::Match<'s>) -> (e: Expression<'s>)
        ensures
            e.spec_value() == match_str(mat),
            (e.spec_start(), e.spec_end()) == match_bounds(mat),
            e.spec_start() <= e.spec_end(),
    {
        let (start, end) = match_range(&mat);
        let value = match_text(&mat);
        Expression { value, start, end }
    }

    /// Returns the parsed value from the step text.
    pub fn value(&self) -> (v: &'s str)
        ensures
            v@ == self.spec_value(),
    {
        self.value
    }

    /// Returns the start index of the matched value from the step text.
    pub fn start(&self) -> (s: usize)
        ensures
            s == self.spec_start(),
    {
        self.start
    }

    /// Returns the end index of the matched value from the step text.
    pub fn end(&self) -> (e: usize)
        ensures
            e == self.spec_end(),
    {
        self.end
    }
}

} // verus!
