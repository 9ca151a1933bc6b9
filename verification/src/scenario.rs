//! Errors of taking a step or hook function's arguments from the scenario data.

use vstd::prelude::*;

verus! {

/// The error holding information for a failed conversion of scenario data
/// into a step or hook function argument.
#[derive(Debug)]
pub struct FromScenarioError {
    pub message: String,
}

impl FromScenarioError {
    /// Creates the error with its message.
    pub fn new(message: String) -> (e: FromScenarioError)
        ensures
            e.message@ == message@,
    {
        FromScenarioError { message }
    }
}

impl From<String> for FromScenarioError {
    fn from(message: String) -> (e: FromScenarioError) {
        FromScenarioError { message }
    }
}

impl vstd::std_specs::convert::FromSpecImpl<String> for FromScenarioError {
    open spec fn obeys_from_spec() -> bool {
        true
    }

    open spec fn from_spec(message: String) -> FromScenarioError {
        FromScenarioError { message }
    }
}

} // verus!
