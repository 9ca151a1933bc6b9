//! Steps: their keywords and arguments.

pub mod argument;

use vstd::prelude::*;

use crate::text::{str_eq, to_lowercase, unicode_lowercase, is_ascii_text, ascii_lowercase, ascii_uppercase};

verus! {

/// A step keyword like "Given", "When" and "Then".
#[derive(Debug, PartialEq, Eq, Hash, Copy, Clone, Structural)]
pub enum StepKeyword {
    Given,
    When,
    Then,
    Star,
}

/// The name of a step keyword.
pub open spec fn step_keyword_name(keyword: StepKeyword) -> Seq<char> {
    match keyword {
        StepKeyword::Given => "Given"@,
        StepKeyword::When => "When"@,
        StepKeyword::Then => "Then"@,
        StepKeyword::Star => "*"@,
    }
}

/// The step keyword whose lower case name is the given text, if any.
pub open spec fn step_keyword_with_lower_name(lower: Seq<char>) -> Option<StepKeyword> {
    if lower == "given"@ {
        Some(StepKeyword::Given)
    } else if lower == "when"@ {
        Some(StepKeyword::When)
    } else if lower == "then"@ {
        Some(StepKeyword::Then)
    } else if lower == "*"@ {
        Some(StepKeyword::Star)
    } else {
        None
    }
}

/// The step keyword that a text names, in any letter case: the keyword whose
/// lower case name is the text's lower case form. On ASCII text that form
/// lowers `A` to `Z` alone; on other text it is Unicode's.
pub open spec fn step_keyword_named(name: Seq<char>) -> Option<StepKeyword> {
    if is_ascii_text(name) {
        step_keyword_with_lower_name(ascii_lowercase(name))
    } else {
        step_keyword_with_lower_name(unicode_lowercase(name))
    }
}

impl StepKeyword {
    /// Returns the name of this keyword.
    pub fn as_str(self) -> (name: &'static str)
        ensures
            name@ == step_keyword_name(self),
    {
        match self {
            StepKeyword::Given => "Given",
            StepKeyword::When => "When",
            StepKeyword::Then => "Then",
            StepKeyword::Star => "*",
        }
    }

    /// Parses a step keyword from its name in any letter case.
    pub fn from_name(s: &str) -> (r: Result<StepKeyword, ()>)
        ensures
            r == match step_keyword_named(s@) {
                Some(k) => Ok::<StepKeyword, ()>(k),
                None => Err(()),
            },
    {
        let lower = to_lowercase(s);
        let l = lower.as_str();
        if str_eq(l, "given") {
            Ok(StepKeyword::Given)
        } else if str_eq(l, "when") {
            Ok(StepKeyword::When)
        } else if str_eq(l, "then") {
            Ok(StepKeyword::Then)
        } else if str_eq(l, "*") {
            Ok(StepKeyword::Star)
        } else {
            Err(())
        }
    }
}

impl std::str::FromStr for StepKeyword {
    type Err = ();

    fn from_str(s: &str) -> (r: Result<StepKeyword, ()>)
        ensures
            r == match step_keyword_named(s@) {
                Some(k) => Ok::<StepKeyword, ()>(k),
                None => Err(()),
            },
    {
        StepKeyword::from_name(s)
    }
}

/// A keyword is parsed back from the lower case form of its name, and each
/// lower case name belongs to one keyword only.
pub proof fn lemma_step_keyword_lower_name_roundtrip(k: StepKeyword, lower: Seq<char>)
    ensures
        step_keyword_with_lower_name(lower) == Some(k) ==> lower == match k {
            StepKeyword::Given => "given"@,
            StepKeyword::When => "when"@,
            StepKeyword::Then => "then"@,
            StepKeyword::Star => "*"@,
        },
        step_keyword_with_lower_name(match k {
            StepKeyword::Given => "given"@,
            StepKeyword::When => "when"@,
            StepKeyword::Then => "then"@,
            StepKeyword::Star => "*"@,
        }) == Some(k),
{
    reveal_strlit("given");
    reveal_strlit("when");
    reveal_strlit("then");
    reveal_strlit("*");
    assert("given"@.len() == 5);
    assert("when"@.len() == 4);
    assert("then"@.len() == 4);
    assert("*"@.len() == 1);
    assert("when"@[0] != "then"@[0]);
}


/// Lowering an ASCII text's upper case form gives its lower case form.
proof fn lemma_ascii_lower_of_upper(s: Seq<char>)
    requires
        is_ascii_text(s),
    ensures
        is_ascii_text(ascii_uppercase(s)),
        ascii_lowercase(ascii_uppercase(s)) == ascii_lowercase(s),
{
    assert(ascii_lowercase(ascii_uppercase(s)) =~= ascii_lowercase(s));
}

/// `StepKeyword::from_str` ignores the letter case of ASCII text: a text, its
/// upper case form and its lower case form name the same keyword, if any.
pub proof fn lemma_step_keyword_named_ignores_case(s: Seq<char>)
    requires
        is_ascii_text(s),
    ensures
        step_keyword_named(ascii_uppercase(s)) == step_keyword_named(s),
        step_keyword_named(ascii_lowercase(s)) == step_keyword_named(s),
{
    lemma_ascii_lower_of_upper(s);
    assert(is_ascii_text(ascii_lowercase(s)));
    assert(ascii_lowercase(ascii_lowercase(s)) =~= ascii_lowercase(s));
}

/// A keyword's name is parsed back to the keyword, in its own letter case and
/// in upper case: `StepKeyword::from_str(k.as_str())` and
/// `StepKeyword::from_str(&k.as_str().to_uppercase())` both give `Ok(k)`.
pub proof fn lemma_step_keyword_name_parses_back(k: StepKeyword)
    ensures
        step_keyword_named(step_keyword_name(k)) == Some(k),
        step_keyword_named(ascii_uppercase(step_keyword_name(k))) == Some(k),
{
    reveal_strlit("Given");
    reveal_strlit("When");
    reveal_strlit("Then");
    reveal_strlit("*");
    reveal_strlit("given");
    reveal_strlit("when");
    reveal_strlit("then");
    let n = step_keyword_name(k);
    let lower = match k {
        StepKeyword::Given => "given"@,
        StepKeyword::When => "when"@,
        StepKeyword::Then => "then"@,
        StepKeyword::Star => "*"@,
    };
    assert(is_ascii_text(n));
    assert(ascii_lowercase(n) =~= lower);
    lemma_step_keyword_lower_name_roundtrip(k, lower);
    lemma_step_keyword_named_ignores_case(n);
}

} // verus!
