//! The names the code generation derives from a glue function's name: the
//! generated wrapper function, its location function, its static definition
//! and its parameters.

use vstd::prelude::*;
use vstd::string::StringExecFns;

use crate::hook::HookType;

verus! {

/// The prefix of the static definition of a hook of the given type.
pub open spec fn hook_struct_prefix(hook_type: HookType) -> Seq<char> {
    match hook_type {
        HookType::BeforeScenario => "static_cuke_runner_before_scenario_hook_info_for_"@,
        HookType::BeforeStep => "static_cuke_runner_before_step_hook_info_for_"@,
        HookType::AfterStep => "static_cuke_runner_after_step_hook_info_for_"@,
        HookType::AfterScenario => "static_cuke_runner_after_scenario_hook_info_for_"@,
    }
}

/// The prefix of the location function of a hook of the given type.
pub open spec fn hook_location_fn_prefix(hook_type: HookType) -> Seq<char> {
    match hook_type {
        HookType::BeforeScenario => "cuke_runner_before_scenario_hook_fn_location_fn_"@,
        HookType::BeforeStep => "cuke_runner_before_step_hook_fn_location_fn_"@,
        HookType::AfterStep => "cuke_runner_after_step_hook_fn_location_fn_"@,
        HookType::AfterScenario => "cuke_runner_after_scenario_hook_fn_location_fn_"@,
    }
}

/// The prefix of the generated function of a hook of the given type.
pub open spec fn hook_fn_prefix(hook_type: HookType) -> Seq<char> {
    match hook_type {
        HookType::BeforeScenario => "cuke_runner_before_scenario_hook_fn_"@,
        HookType::BeforeStep => "cuke_runner_before_step_hook_fn_"@,
        HookType::AfterStep => "cuke_runner_after_step_hook_fn_"@,
        HookType::AfterScenario => "cuke_runner_after_scenario_hook_fn_"@,
    }
}

/// Returns the prefix of the static definition of a hook of the given type.
pub fn hook_struct_prefix_of(hook_type: HookType) -> (p: &'static str)
    ensures
        p@ == hook_struct_prefix(hook_type),
{
    match hook_type {
        HookType::BeforeScenario => "static_cuke_runner_before_scenario_hook_info_for_",
        HookType::BeforeStep => "static_cuke_runner_before_step_hook_info_for_",
        HookType::AfterStep => "static_cuke_runner_after_step_hook_info_for_",
        HookType::AfterScenario => "static_cuke_runner_after_scenario_hook_info_for_",
    }
}

/// The prefix of the static definition of a step.
pub open spec fn step_struct_prefix() -> Seq<char> {
    "static_cuke_runner_step_info_for_"@
}

/// The prefix of the location function of a step.
pub open spec fn step_location_fn_prefix() -> Seq<char> {
    "cuke_runner_step_fn_location_fn_"@
}

/// The prefix of the generated function of a step.
pub open spec fn step_fn_prefix() -> Seq<char> {
    "cuke_runner_step_fn_"@
}

/// The prefix of a generated parameter name.
pub open spec fn param_prefix() -> Seq<char> {
    "__cuke_runner_param_"@
}

/// A name with a prefix put before it.
fn prepend(prefix: &str, name: &str) -> (r: String)
    ensures
        r@ == prefix@ + name@,
{
    let mut r = String::from_str(prefix);
    r.append(name);
    r
}

/// The name of the location function generated for the hook function `name`.
pub fn hook_location_fn_name(name: &str, hook_type: HookType) -> (r: String)
    ensures
        r@ == hook_location_fn_prefix(hook_type) + name@,
{
    let prefix = match hook_type {
        HookType::BeforeScenario => "cuke_runner_before_scenario_hook_fn_location_fn_",
        HookType::BeforeStep => "cuke_runner_before_step_hook_fn_location_fn_",
        HookType::AfterStep => "cuke_runner_after_step_hook_fn_location_fn_",
        HookType::AfterScenario => "cuke_runner_after_scenario_hook_fn_location_fn_",
    };
    prepend(prefix, name)
}

/// The name of the function generated for the hook function `name`.
pub fn hook_fn_name(name: &str, hook_type: HookType) -> (r: String)
    ensures
        r@ == hook_fn_prefix(hook_type) + name@,
{
    let prefix = match hook_type {
        HookType::BeforeScenario => "cuke_runner_before_scenario_hook_fn_",
        HookType::BeforeStep => "cuke_runner_before_step_hook_fn_",
        HookType::AfterStep => "cuke_runner_after_step_hook_fn_",
        HookType::AfterScenario => "cuke_runner_after_scenario_hook_fn_",
    };
    prepend(prefix, name)
}

/// The name of the static definition generated for the hook function `name`.
pub fn hook_struct_name(name: &str, hook_type: HookType) -> (r: String)
    ensures
        r@ == hook_struct_prefix(hook_type) + name@,
{
    prepend(hook_struct_prefix_of(hook_type), name)
}

/// The name of the location function generated for the step function `name`.
pub fn step_location_fn_name(name: &str) -> (r: String)
    ensures
        r@ == step_location_fn_prefix() + name@,
{
    prepend("cuke_runner_step_fn_location_fn_", name)
}

/// The name of the function generated for the step function `name`.
pub fn step_fn_name(name: &str) -> (r: String)
    ensures
        r@ == step_fn_prefix() + name@,
{
    prepend("cuke_runner_step_fn_", name)
}

/// The name of the static definition generated for the step function `name`.
pub fn step_struct_name(name: &str) -> (r: String)
    ensures
        r@ == step_struct_prefix() + name@,
{
    prepend("static_cuke_runner_step_info_for_", name)
}

/// The name the generated code gives to the parameter `name`.
pub fn param_name(name: &str) -> (r: String)
    ensures
        r@ == param_prefix() + name@,
{
    prepend("__cuke_runner_param_", name)
}

} // verus!
