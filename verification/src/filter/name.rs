//! Selecting scenarios by regular expressions on their names.

use vstd::prelude::*;

use crate::text::owned;

verus! {

/// What `regex::Regex::new` gives for a pattern: success, or the text its
/// error displays.
pub uninterp spec fn regex_new_outcome(pattern: Seq<char>) -> Result<(), Seq<char>>;

/// Whether a regular expression pattern compiles, as `regex::Regex::new`
/// decides it.
pub open spec fn regex_compiles(pattern: Seq<char>) -> bool {
    regex_new_outcome(pattern) is Ok
}

/// Whether the compiled pattern matches somewhere in the text, as
/// `regex::Regex::is_match` decides it.
pub uninterp spec fn regex_is_match(pattern: Seq<char>, haystack: Seq<char>) -> bool;

/// Trusted: calls `regex::Regex::new`; the contract names the outcome as a
/// function of the pattern, a failure by the text its error displays.
#[verifier::external_body]
pub(crate) fn regex_check(pattern: &str) -> (r: Result<(), String>)
    ensures
        match regex_new_outcome(pattern@) {
            Ok(()) => r is Ok,
            Err(m) => (r matches Err(e) && e@ == m),
        },
{
    match regex::Regex::new(pattern) {
        Ok(_) => Ok(()),
        Err(error) => Err(error.to_string()),
    }
}

/// Trusted: compiles the pattern with `regex::Regex::new` and calls
/// `regex::Regex::is_match` on the text; the contract names the answer as a
/// function of the pattern and the text.
#[verifier::external_body]
fn regex_matches(pattern: &str, haystack: &str) -> (m: bool)
    requires
        regex_compiles(pattern@),
    ensures
        m == regex_is_match(pattern@, haystack@),
{
    match regex::Regex::new(pattern) {
        Ok(regex) => regex.is_match(haystack),
        Err(_) => false,
    }
}

/// Whether one of the patterns matches the name.
pub open spec fn any_pattern_matches(patterns: Seq<Seq<char>>, name: Seq<char>) -> bool {
    exists|i: int| 0 <= i < patterns.len() && #[trigger] regex_is_match(patterns[i], name)
}

/// Whether all the patterns compile.
pub open spec fn all_compile(patterns: Seq<Seq<char>>) -> bool {
    forall|i: int| 0 <= i < patterns.len() ==> #[trigger] regex_compiles(patterns[i])
}

/// The characters of each string.
pub open spec fn strs_view(v: Seq<&str>) -> Seq<Seq<char>> {
    v.map_values(|s: &str| s@)
}

/// Selects scenarios whose names match one of several regular expressions.
pub struct NamePredicate {
    patterns: Vec<String>,
}

impl NamePredicate {
    /// The patterns of this predicate.
    pub closed spec fn spec_patterns(&self) -> Seq<Seq<char>> {
        self.patterns@.map_values(|s: String| s@)
    }

    /// Every pattern compiles.
    #[verifier::type_invariant]
    spec fn inv(&self) -> bool {
        all_compile(self.spec_patterns())
    }

    /// Creates the predicate from patterns that all compile.
    pub fn new(patterns: &[&str]) -> (p: NamePredicate)
        requires
            all_compile(strs_view(patterns@)),
        ensures
            p.spec_patterns() == strs_view(patterns@),
    {
        let mut name_patterns: Vec<String> = Vec::new();
        let mut i: usize = 0;
        while i < patterns.len()
            invariant
                0 <= i <= patterns@.len(),
                all_compile(strs_view(patterns@)),
                name_patterns@.map_values(|s: String| s@) == strs_view(patterns@).take(i as int),
            decreases patterns@.len() - i,
        {
            let pattern = owned(patterns[i]);
            let ghost before = name_patterns@;
            name_patterns.push(pattern);
            proof {
                assert(name_patterns@.map_values(|s: String| s@) == before.map_values(|s: String| s@).push(
                    pattern@,
                ));
                assert(strs_view(patterns@).take(i + 1) == strs_view(patterns@).take(i as int).push(
                    patterns@[i as int]@,
                ));
            }
            i = i + 1;
        }
        proof {
            assert(strs_view(patterns@).take(patterns@.len() as int) == strs_view(patterns@));
        }
        NamePredicate { patterns: name_patterns }
    }

    /// Creates the predicate where every pattern compiles; `None` where one
    /// does not.
    pub fn try_new(patterns: &[&str]) -> (r: Option<NamePredicate>)
        ensures
            all_compile(strs_view(patterns@)) <==> r is Some,
            r matches Some(p) ==> p.spec_patterns() == strs_view(patterns@),
    {
        let mut i: usize = 0;
        while i < patterns.len()
            invariant
                0 <= i <= patterns@.len(),
                forall|j: int| 0 <= j < i ==> #[trigger] regex_compiles(strs_view(patterns@)[j]),
            decreases patterns@.len() - i,
        {
            if regex_check(patterns[i]).is_err() {
                proof {
                    assert(!regex_compiles(strs_view(patterns@)[i as int]));
                }
                return None;
            }
            i = i + 1;
        }
        Some(NamePredicate::new(patterns))
    }

    /// Whether one of the patterns matches the scenario name.
    pub fn apply(&self, cuke_name: &str) -> (r: bool)
        ensures
            r == any_pattern_matches(self.spec_patterns(), cuke_name@),
    {
        proof {
            use_type_invariant(self);
        }
        let ghost pats = self.spec_patterns();
        let mut i: usize = 0;
        while i < self.patterns.len()
            invariant
                pats == self.patterns@.map_values(|s: String| s@),
                all_compile(pats),
                0 <= i <= self.patterns@.len(),
                forall|j: int| 0 <= j < i ==> !#[trigger] regex_is_match(pats[j], cuke_name@),
            decreases self.patterns@.len() - i,
        {
            proof {
                assert(pats[i as int] == self.patterns@[i as int]@);
                assert(regex_compiles(pats[i as int]));
            }
            if regex_matches(self.patterns[i].as_str(), cuke_name) {
                return true;
            }
            i = i + 1;
        }
        false
    }
}

} // verus!
