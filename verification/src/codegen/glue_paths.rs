//! The three searches for glue functions: the step functions under a crate's
//! `steps` module, the static step definitions of a crate, and the static
//! glue definitions of each kind.

use vstd::prelude::*;
use vstd::string::StringExecFns;

use super::discovery::{discover, file_views, walk_file, DiscoveryError, Failure, FileSet, ModuleAttributes, Rules, SearchRules, WalkState};
use super::names::{hook_struct_prefix, hook_struct_prefix_of, step_struct_prefix};
use super::source::{SourceFile, SourceText};
use super::syntax::{parse_sources, text_files};
use crate::hook::HookType;
use crate::step::argument::data_table::row::strings_view;

verus! {

/// How deep modules may be nested, files included, for a search to follow
/// them. A module declaration can lead back to the file that declares it, and
/// a search that followed it would never end; past this depth a search stops
/// with `DiscoveryError::TooDeep` instead, whether or not the nesting comes
/// back to a file already read.
pub const MAX_MODULE_DEPTH: usize = 64;

/// The names of the step attributes.
pub open spec fn step_attribute_names() -> Seq<Seq<char>> {
    seq!["step"@, "given"@, "when"@, "then"@]
}

/// The names of the step attributes.
fn step_attributes() -> (names: Vec<String>)
    ensures
        strings_view(names@) == step_attribute_names(),
{
    let names = vec![String::from_str("step"), String::from_str("given"), String::from_str("when"), String::from_str("then")];
    assert(strings_view(names@) =~= step_attribute_names());
    names
}

/// The rules of the search for step functions under the `steps` module:
/// private modules are passed over, module attributes refused, and paths
/// written as `steps::module::function`.
pub open spec fn step_fn_rules() -> Rules {
    Rules {
        attribute_names: step_attribute_names(),
        skip_private_modules: true,
        module_attributes: ModuleAttributes::RefuseAny,
        definition_prefix: None,
    }
}

/// The outcome of a walk as the result of a search: the paths found, or the
/// failure.
pub open spec fn outcome_is(walk: Result<WalkState, Failure>, r: Result<Vec<String>, DiscoveryError>) -> bool {
    match walk {
        Ok(s) => r matches Ok(paths) && strings_view(paths@) == s.0,
        Err(f) => r matches Err(e) && e@ == f,
    }
}

/// The walk of the search for step functions.
pub open spec fn step_fn_walk(files: FileSet) -> Result<WalkState, Failure> {
    walk_file(step_fn_rules(), files, seq!["steps"@, "mod.rs"@], seq!["steps"@], Seq::empty(), MAX_MODULE_DEPTH as nat)
}

/// Searches parsed files for the step functions under the `steps` module.
fn step_fn_search(files: &Vec<SourceFile>) -> (r: Result<Vec<String>, DiscoveryError>)
    ensures
        outcome_is(step_fn_walk(file_views(files@)), r),
{
    let rules = SearchRules {
        attribute_names: step_attributes(),
        skip_private_modules: true,
        module_attributes: ModuleAttributes::RefuseAny,
        definition_prefix: None,
    };
    let root = vec![String::from_str("steps"), String::from_str("mod.rs")];
    let module = vec![String::from_str("steps")];
    proof {
        assert(strings_view(root@) =~= seq!["steps"@, "mod.rs"@]);
        assert(strings_view(module@) =~= seq!["steps"@]);
        assert(rules@ == step_fn_rules());
    }
    discover(&rules, files, &root, &module, MAX_MODULE_DEPTH)
}

/// The paths of the step functions found from the crate's `steps/mod.rs`:
/// public functions with a step attribute, in public modules, written as
/// `steps::module::function`; `sources` holds the crate's source files, as
/// read, by their paths relative to the crate root.
///
/// The sources must be ones that the search can walk to the end: every file
/// it reaches is read and parsed, every module is found, no module
/// declaration has attributes, and no function or module has a restricted
/// visibility (`pub(crate)`, `pub(super)`, `pub(in ..)`), with or without a
/// step attribute. `try_find_step_fn_paths` tells which failure ends a walk.
pub fn find_step_fn_paths(sources: &Vec<SourceText>) -> (paths: Vec<String>)
    requires
        step_fn_walk(text_files(sources@)) is Ok,
    ensures
        strings_view(paths@) == step_fn_walk(text_files(sources@))->Ok_0.0,
{
    let files = parse_sources(sources);
    match step_fn_search(&files) {
        Ok(paths) => paths,
        Err(_) => {
            assert(false);
            Vec::new()
        },
    }
}

/// The paths of the step functions found from the crate's `steps/mod.rs`, as
/// `find_step_fn_paths` gives them, or the failure that ends the walk: the
/// first restricted visibility, module attribute, missing module, unreadable
/// or unparsable file that it meets.
pub fn try_find_step_fn_paths(sources: &Vec<SourceText>) -> (r: Result<Vec<String>, DiscoveryError>)
    ensures
        outcome_is(step_fn_walk(text_files(sources@)), r),
{
    let files = parse_sources(sources);
    match step_fn_search(&files) {
        Ok(_) => Ok(find_step_fn_paths(sources)),
        Err(e) => Err(e),
    }
}

/// The rules of a search from a root file for the functions with one of the
/// given attributes, written as `::module::path::` + prefix + name; module
/// attributes are refused as `refused` says and private modules are followed.
pub open spec fn definition_rules(names: Seq<Seq<char>>, refused: ModuleAttributes, prefix: Seq<char>) -> Rules {
    Rules {
        attribute_names: names,
        skip_private_modules: false,
        module_attributes: refused,
        definition_prefix: Some(prefix),
    }
}

/// The walk of a search from the root file `root` by the given rules.
pub open spec fn root_walk(rules: Rules, files: FileSet, root: Seq<char>) -> Result<WalkState, Failure> {
    walk_file(rules, files, seq![root], Seq::empty(), Seq::empty(), MAX_MODULE_DEPTH as nat)
}

/// Searches parsed files from the root file `root` by the given rules.
fn search_from_root(rules: &SearchRules, files: &Vec<SourceFile>, root: &str) -> (r: Result<Vec<String>, DiscoveryError>)
    ensures
        outcome_is(root_walk(rules@, file_views(files@), root@), r),
{
    let root_path = vec![String::from_str(root)];
    let module: Vec<String> = Vec::new();
    proof {
        assert(strings_view(root_path@) =~= seq![root@]);
        assert(strings_view(module@) =~= Seq::<Seq<char>>::empty());
    }
    discover(rules, files, &root_path, &module, MAX_MODULE_DEPTH)
}

/// The rules of the search for static step definitions.
pub open spec fn step_definition_rules() -> Rules {
    definition_rules(step_attribute_names(), ModuleAttributes::RefuseAny, "static_step_definition_for_"@)
}

/// Searches parsed files for the static step definitions from the root file.
fn step_definition_search(root: &str, files: &Vec<SourceFile>) -> (r: Result<Vec<String>, DiscoveryError>)
    ensures
        outcome_is(root_walk(step_definition_rules(), file_views(files@), root@), r),
{
    let rules = SearchRules {
        attribute_names: step_attributes(),
        skip_private_modules: false,
        module_attributes: ModuleAttributes::RefuseAny,
        definition_prefix: Some(String::from_str("static_step_definition_for_")),
    };
    search_from_root(&rules, files, root)
}

/// The paths of the static step definitions found from the crate's root file
/// `root`: for each public function with a step attribute,
/// `::module::path::static_step_definition_for_` and its name; `sources`
/// holds the crate's source files, as read, by their paths relative to the
/// root file's directory.
///
/// The sources must be ones that the search can walk to the end: every file
/// it reaches is read and parsed, every module is found, no module
/// declaration has attributes, and no function has a restricted visibility.
/// `try_parse` tells which failure ends a walk.
pub fn parse(root: &str, sources: &Vec<SourceText>) -> (paths: Vec<String>)
    requires
        root_walk(step_definition_rules(), text_files(sources@), root@) is Ok,
    ensures
        strings_view(paths@) == root_walk(step_definition_rules(), text_files(sources@), root@)->Ok_0.0,
{
    let files = parse_sources(sources);
    match step_definition_search(root, &files) {
        Ok(paths) => paths,
        Err(_) => {
            assert(false);
            Vec::new()
        },
    }
}

/// The paths of the static step definitions, as `parse` gives them, or the
/// failure that ends the walk.
pub fn try_parse(root: &str, sources: &Vec<SourceText>) -> (r: Result<Vec<String>, DiscoveryError>)
    ensures
        outcome_is(root_walk(step_definition_rules(), text_files(sources@), root@), r),
{
    let files = parse_sources(sources);
    match step_definition_search(root, &files) {
        Ok(_) => Ok(parse(root, sources)),
        Err(e) => Err(e),
    }
}

/// Searches parsed files for static glue definitions.
fn glue_search(root: &str, files: &Vec<SourceFile>, attribute_names: &Vec<String>, struct_prefix: &str) -> (r: Result<
    Vec<String>,
    DiscoveryError,
>)
    ensures
        outcome_is(
            root_walk(
                definition_rules(strings_view(attribute_names@), ModuleAttributes::RefusePath, struct_prefix@),
                file_views(files@),
                root@,
            ),
            r,
        ),
{
    let rules = SearchRules {
        attribute_names: copy_names(attribute_names),
        skip_private_modules: false,
        module_attributes: ModuleAttributes::RefusePath,
        definition_prefix: Some(String::from_str(struct_prefix)),
    };
    search_from_root(&rules, files, root)
}

/// The paths of the static glue definitions found from the root file `root`
/// for the functions with one of the given attributes: `::module::path::`,
/// the prefix and the function's name.
///
/// The sources must be ones that the search can walk to the end: every file
/// it reaches is read and parsed, every module is found, no module
/// declaration has a `path` attribute, and no function has a restricted
/// visibility. `try_parse_paths` tells which failure ends a walk.
pub fn parse_paths(root: &str, sources: &Vec<SourceText>, attribute_names: &Vec<String>, struct_prefix: &str) -> (paths: Vec<String>)
    requires
        kind_walk(strings_view(attribute_names@), struct_prefix@, text_files(sources@), root@) is Ok,
    ensures
        strings_view(paths@) == kind_walk(strings_view(attribute_names@), struct_prefix@, text_files(sources@), root@)->Ok_0.0,
{
    let files = parse_sources(sources);
    match glue_search(root, &files, attribute_names, struct_prefix) {
        Ok(paths) => paths,
        Err(_) => {
            assert(false);
            Vec::new()
        },
    }
}

/// The paths of the static glue definitions for the given attributes, as
/// `parse_paths` gives them, or the failure that ends the walk.
pub fn try_parse_paths(root: &str, sources: &Vec<SourceText>, attribute_names: &Vec<String>, struct_prefix: &str) -> (r: Result<
    Vec<String>,
    DiscoveryError,
>)
    ensures
        outcome_is(kind_walk(strings_view(attribute_names@), struct_prefix@, text_files(sources@), root@), r),
{
    let files = parse_sources(sources);
    match glue_search(root, &files, attribute_names, struct_prefix) {
        Ok(_) => Ok(parse_paths(root, sources, attribute_names, struct_prefix)),
        Err(e) => Err(e),
    }
}

/// A copy of a list of names.
fn copy_names(names: &Vec<String>) -> (copy: Vec<String>)
    ensures
        strings_view(copy@) == strings_view(names@),
{
    let mut copy: Vec<String> = Vec::new();
    let mut i: usize = 0;
    while i < names.len()
        invariant
            0 <= i <= names@.len(),
            copy@.len() == i,
            forall|k: int| 0 <= k < i ==> #[trigger] copy@[k]@ == names@[k]@,
        decreases names@.len() - i,
    {
        copy.push(names[i].clone());
        i = i + 1;
    }
    assert(strings_view(copy@) =~= strings_view(names@));
    copy
}

/// The paths of the static glue definitions of each kind.
#[derive(Debug)]
pub struct GlueDefinitionPaths {
    pub before_scenario_hooks: Vec<String>,
    pub before_step_hooks: Vec<String>,
    pub steps: Vec<String>,
    pub after_step_hooks: Vec<String>,
    pub after_scenario_hooks: Vec<String>,
}

/// A list of one name.
fn one_name(name: &str) -> (names: Vec<String>)
    ensures
        strings_view(names@) == seq![name@],
{
    let names = vec![String::from_str(name)];
    assert(strings_view(names@) =~= seq![name@]);
    names
}

/// The walk of the search for the static glue definitions of one kind.
pub open spec fn kind_walk(names: Seq<Seq<char>>, prefix: Seq<char>, files: FileSet, root: Seq<char>) -> Result<WalkState, Failure> {
    root_walk(definition_rules(names, ModuleAttributes::RefusePath, prefix), files, root)
}

/// The walks of the five kinds of glue definitions, in their fixed order.
pub open spec fn kind_walks(files: FileSet, root: Seq<char>) -> Seq<Result<WalkState, Failure>> {
    seq![
        kind_walk(seq!["before_scenario"@], hook_struct_prefix(HookType::BeforeScenario), files, root),
        kind_walk(seq!["before_step"@], hook_struct_prefix(HookType::BeforeStep), files, root),
        kind_walk(seq!["given"@, "when"@, "then"@], step_struct_prefix(), files, root),
        kind_walk(seq!["after_step"@], hook_struct_prefix(HookType::AfterStep), files, root),
        kind_walk(seq!["after_scenario"@], hook_struct_prefix(HookType::AfterScenario), files, root),
    ]
}

/// The failure of the first of the walks that fails, if any.
pub open spec fn first_failure(walks: Seq<Result<WalkState, Failure>>) -> Option<Failure>
    decreases walks.len(),
{
    if walks.len() == 0 {
        None
    } else {
        match walks[0] {
            Err(f) => Some(f),
            Ok(_) => first_failure(walks.drop_first()),
        }
    }
}

/// Whether the paths of each kind are those that the walks found.
pub open spec fn found_by(walks: Seq<Result<WalkState, Failure>>, paths: GlueDefinitionPaths) -> bool {
    &&& outcome_is(walks[0], Ok::<Vec<String>, DiscoveryError>(paths.before_scenario_hooks))
    &&& outcome_is(walks[1], Ok::<Vec<String>, DiscoveryError>(paths.before_step_hooks))
    &&& outcome_is(walks[2], Ok::<Vec<String>, DiscoveryError>(paths.steps))
    &&& outcome_is(walks[3], Ok::<Vec<String>, DiscoveryError>(paths.after_step_hooks))
    &&& outcome_is(walks[4], Ok::<Vec<String>, DiscoveryError>(paths.after_scenario_hooks))
}

/// Searches parsed files for the static glue definitions of each kind, in
/// the fixed order; the first search that fails decides the error.
fn glue_definition_search(root: &str, files: &Vec<SourceFile>) -> (r: Result<GlueDefinitionPaths, DiscoveryError>)
    ensures
        first_failure(kind_walks(file_views(files@), root@)) is None <==> r is Ok,
        r matches Err(e) ==> first_failure(kind_walks(file_views(files@), root@)) == Some(e@),
        r matches Ok(paths) ==> found_by(kind_walks(file_views(files@), root@), paths),
{
    let ghost walks = kind_walks(file_views(files@), root@);
    proof {
        reveal_with_fuel(first_failure, 6);
        assert(walks.drop_first()[0] == walks[1]);
        assert(walks.drop_first().drop_first()[0] == walks[2]);
        assert(walks.drop_first().drop_first().drop_first()[0] == walks[3]);
        assert(walks.drop_first().drop_first().drop_first().drop_first()[0] == walks[4]);
        assert(walks.drop_first().drop_first().drop_first().drop_first().drop_first().len() == 0);
    }
    let before_scenario_hooks = match glue_search(root, files, &one_name("before_scenario"), hook_struct_prefix_of(HookType::BeforeScenario)) {
        Ok(paths) => paths,
        Err(e) => return Err(e),
    };
    let before_step_hooks = match glue_search(root, files, &one_name("before_step"), hook_struct_prefix_of(HookType::BeforeStep)) {
        Ok(paths) => paths,
        Err(e) => return Err(e),
    };
    let step_names = vec![String::from_str("given"), String::from_str("when"), String::from_str("then")];
    assert(strings_view(step_names@) =~= seq!["given"@, "when"@, "then"@]);
    let steps = match glue_search(root, files, &step_names, "static_cuke_runner_step_info_for_") {
        Ok(paths) => paths,
        Err(e) => return Err(e),
    };
    let after_step_hooks = match glue_search(root, files, &one_name("after_step"), hook_struct_prefix_of(HookType::AfterStep)) {
        Ok(paths) => paths,
        Err(e) => return Err(e),
    };
    let after_scenario_hooks = match glue_search(root, files, &one_name("after_scenario"), hook_struct_prefix_of(HookType::AfterScenario)) {
        Ok(paths) => paths,
        Err(e) => return Err(e),
    };
    Ok(GlueDefinitionPaths { before_scenario_hooks, before_step_hooks, steps, after_step_hooks, after_scenario_hooks })
}

/// The paths of the static glue definitions found from the root file `root`,
/// kind by kind: hooks by their hook attribute and type prefix, steps by the
/// `given`, `when` and `then` attributes and the step prefix.
///
/// The sources must be ones that each of the five searches can walk to the
/// end (see `parse_paths`). `try_static_glue_definition_paths` tells which
/// failure ends the first search that fails.
pub fn static_glue_definition_paths(root: &str, sources: &Vec<SourceText>) -> (paths: GlueDefinitionPaths)
    requires
        first_failure(kind_walks(text_files(sources@), root@)) is None,
    ensures
        found_by(kind_walks(text_files(sources@), root@), paths),
{
    let files = parse_sources(sources);
    match glue_definition_search(root, &files) {
        Ok(paths) => paths,
        Err(_) => {
            assert(false);
            GlueDefinitionPaths {
                before_scenario_hooks: Vec::new(),
                before_step_hooks: Vec::new(),
                steps: Vec::new(),
                after_step_hooks: Vec::new(),
                after_scenario_hooks: Vec::new(),
            }
        },
    }
}

/// The paths of the static glue definitions, as
/// `static_glue_definition_paths` gives them, or the failure of the first
/// search that fails: the searches run in the order of the kinds above.
pub fn try_static_glue_definition_paths(root: &str, sources: &Vec<SourceText>) -> (r: Result<GlueDefinitionPaths, DiscoveryError>)
    ensures
        first_failure(kind_walks(text_files(sources@), root@)) is None <==> r is Ok,
        r matches Err(e) ==> first_failure(kind_walks(text_files(sources@), root@)) == Some(e@),
        r matches Ok(paths) ==> found_by(kind_walks(text_files(sources@), root@), paths),
{
    let files = parse_sources(sources);
    match glue_definition_search(root, &files) {
        Ok(_) => Ok(static_glue_definition_paths(root, sources)),
        Err(e) => Err(e),
    }
}

} // verus!
