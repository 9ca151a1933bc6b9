//! Hooks: their types and the tag expressions that restrict them.

use vstd::prelude::*;

use crate::text::str_eq;

verus! {

/// A hook type like "BeforeScenario" or "AfterStep".
#[derive(Debug, PartialEq, Eq, Hash, Copy, Clone, Structural)]
pub enum HookType {
    BeforeScenario,
    BeforeStep,
    AfterStep,
    AfterScenario,
}

/// The name of a hook type.
pub open spec fn hook_type_name(hook_type: HookType) -> Seq<char> {
    match hook_type {
        HookType::BeforeScenario => "BeforeScenario"@,
        HookType::BeforeStep => "BeforeStep"@,
        HookType::AfterStep => "AfterStep"@,
        HookType::AfterScenario => "AfterScenario"@,
    }
}

impl HookType {
    /// Returns the name of this hook type.
    pub fn as_str(self) -> (name: &'static str)
        ensures
            name@ == hook_type_name(self),
    {
        match self {
            HookType::BeforeScenario => "BeforeScenario",
            HookType::BeforeStep => "BeforeStep",
            HookType::AfterStep => "AfterStep",
            HookType::AfterScenario => "AfterScenario",
        }
    }
}

/// The hook type with the given name, if any.
pub open spec fn hook_type_named(name: Seq<char>) -> Option<HookType> {
    if name == "BeforeScenario"@ {
        Some(HookType::BeforeScenario)
    } else if name == "BeforeStep"@ {
        Some(HookType::BeforeStep)
    } else if name == "AfterStep"@ {
        Some(HookType::AfterStep)
    } else if name == "AfterScenario"@ {
        Some(HookType::AfterScenario)
    } else {
        None
    }
}

impl HookType {
    /// Parses a hook type from its exact name.
    pub fn from_name(s: &str) -> (r: Result<HookType, ()>)
        ensures
            r == match hook_type_named(s@) {
                Some(h) => Ok::<HookType, ()>(h),
                None => Err(()),
            },
    {
        if str_eq(s, "BeforeScenario") {
            Ok(HookType::BeforeScenario)
        } else if str_eq(s, "BeforeStep") {
            Ok(HookType::BeforeStep)
        } else if str_eq(s, "AfterStep") {
            Ok(HookType::AfterStep)
        } else if str_eq(s, "AfterScenario") {
            Ok(HookType::AfterScenario)
        } else {
            Err(())
        }
    }
}

impl std::str::FromStr for HookType {
    type Err = ();

    fn from_str(s: &str) -> (r: Result<HookType, ()>)
        ensures
            r == match hook_type_named(s@) {
                Some(h) => Ok::<HookType, ()>(h),
                None => Err(()),
            },
    {
        HookType::from_name(s)
    }
}

/// Every hook type is parsed back from its name, and a name is parsed only to
/// the hook type that carries it: `HookType::from_str(h.as_str())` gives
/// `Ok(h)`, and `HookType::from_str(s)` gives `Ok(h)` only where `s` is
/// `h.as_str()`.
pub proof fn lemma_hook_type_name_roundtrip(h: HookType, name: Seq<char>)
    ensures
        hook_type_named(hook_type_name(h)) == Some(h),
        hook_type_named(name) == Some(h) ==> hook_type_name(h) == name,
{
    reveal_strlit("BeforeScenario");
    reveal_strlit("BeforeStep");
    reveal_strlit("AfterStep");
    reveal_strlit("AfterScenario");
    assert("BeforeScenario"@.len() == 14);
    assert("BeforeStep"@.len() == 10);
    assert("AfterStep"@.len() == 9);
    assert("AfterScenario"@.len() == 13);
}

} // verus!
pub mod tag_predicate;
