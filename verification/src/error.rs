//! The errors of executing a step or hook function.

use vstd::prelude::*;

use crate::panic::{PanicInfo, short_text};
use crate::scenario::FromScenarioError;
use crate::step::argument::FromStepArgumentError;

verus! {

/// A panic of a step or hook function, with the information recorded about it.
#[derive(Debug)]
pub struct PanicError {
    panic_info: PanicInfo,
}

impl PanicError {
    /// The information recorded about the panic.
    pub closed spec fn spec_panic_info(&self) -> PanicInfo {
        self.panic_info
    }

    /// Wraps the information recorded about a panic.
    pub fn new(panic_info: PanicInfo) -> (e: PanicError)
        ensures
            e.spec_panic_info() == panic_info,
    {
        PanicError { panic_info }
    }

    /// Returns the information recorded about the panic.
    pub fn panic_info(&self) -> (p: &PanicInfo)
        ensures
            *p == self.spec_panic_info(),
    {
        &self.panic_info
    }

    /// The text of the error: the short report of the panic.
    pub fn to_text(&self) -> (t: String)
        ensures
            t@ == short_text(
                self.spec_panic_info().spec_thread_name(),
                self.spec_panic_info().spec_message(),
                self.spec_panic_info().spec_location().spec_text(),
                self.spec_panic_info().spec_frames(),
            ),
    {
        self.panic_info.short_display()
    }
}

/// Why the execution of a step or hook function failed.
#[derive(Debug)]
pub enum ExecutionError {
    /// An argument could not be taken from the scenario data.
    FromScenario(FromScenarioError),
    /// An argument could not be converted from the step's arguments.
    FromStepArgument(FromStepArgumentError),
    /// The function panicked.
    Panic(PanicError),
    /// Any other error, by its text.
    Other(String),
}

impl From<FromScenarioError> for ExecutionError {
    fn from(err: FromScenarioError) -> (e: ExecutionError) {
        ExecutionError::FromScenario(err)
    }
}

impl vstd::std_specs::convert::FromSpecImpl<FromScenarioError> for ExecutionError {
    open spec fn obeys_from_spec() -> bool {
        true
    }

    open spec fn from_spec(err: FromScenarioError) -> ExecutionError {
        ExecutionError::FromScenario(err)
    }
}

impl From<FromStepArgumentError> for ExecutionError {
    fn from(err: FromStepArgumentError) -> (e: ExecutionError) {
        ExecutionError::FromStepArgument(err)
    }
}

impl vstd::std_specs::convert::FromSpecImpl<FromStepArgumentError> for ExecutionError {
    open spec fn obeys_from_spec() -> bool {
        true
    }

    open spec fn from_spec(err: FromStepArgumentError) -> ExecutionError {
        ExecutionError::FromStepArgument(err)
    }
}

/// The text of an execution error: the message of the error it holds.
pub open spec fn execution_error_text(e: ExecutionError) -> Seq<char> {
    match e {
        ExecutionError::FromScenario(err) => err.message@,
        ExecutionError::FromStepArgument(err) => err.spec_message(),
        ExecutionError::Panic(err) => short_text(
            err.spec_panic_info().spec_thread_name(),
            err.spec_panic_info().spec_message(),
            err.spec_panic_info().spec_location().spec_text(),
            err.spec_panic_info().spec_frames(),
        ),
        ExecutionError::Other(text) => text@,
    }
}

impl ExecutionError {
    /// The text of the error: the message of the error it holds.
    pub fn to_text(&self) -> (t: String)
        ensures
            t@ == execution_error_text(*self),
    {
        match self {
            ExecutionError::FromScenario(err) => err.message.clone(),
            ExecutionError::FromStepArgument(err) => err.message().to_owned(),
            ExecutionError::Panic(err) => err.to_text(),
            ExecutionError::Other(text) => text.clone(),
        }
    }
}

} // verus!
