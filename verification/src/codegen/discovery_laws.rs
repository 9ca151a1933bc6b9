//! Laws of the search for glue functions: which functions a walk reports,
//! and which attributes each search looks for.

use vstd::prelude::*;

use super::discovery::{
    definition_path, file_at, joined, walk_file, walk_item, walk_items, FileSet, FileView, Rules, WalkState,
};
use super::glue_paths::{kind_walks, step_fn_walk};
use super::source::{FnItem, ItemVisibility, SourceItem};

verus! {

/// Whether `longer` starts with all of `shorter`.
pub open spec fn extends(longer: Seq<Seq<char>>, shorter: Seq<Seq<char>>) -> bool {
    &&& shorter.len() <= longer.len()
    &&& forall|i: int| 0 <= i < shorter.len() ==> #[trigger] longer[i] == shorter[i]
}

/// Whether a function is visible to the searches: it is `pub` or `crate`.
pub open spec fn visible(f: FnItem) -> bool {
    f.visibility == ItemVisibility::Public || f.visibility == ItemVisibility::Crate
}

proof fn lemma_items_extend(rules: Rules, files: FileSet, items: Seq<SourceItem>, module: Seq<Seq<char>>, state: WalkState, depth: nat)
    ensures
        walk_items(rules, files, items, module, state, depth) matches Ok(s) ==> extends(s.0, state.0),
    decreases depth, items.len() + 2,
{
    if items.len() > 0 {
        lemma_items_extend(rules, files, items.drop_last(), module, state, depth);
        if let Ok(s1) = walk_items(rules, files, items.drop_last(), module, state, depth) {
            lemma_item_extends(rules, files, items.last(), module, s1, depth);
        }
    }
}

proof fn lemma_item_extends(rules: Rules, files: FileSet, item: SourceItem, module: Seq<Seq<char>>, state: WalkState, depth: nat)
    ensures
        walk_item(rules, files, item, module, state, depth) matches Ok(s) ==> extends(s.0, state.0),
    decreases depth, 1nat,
{
    match item {
        SourceItem::Mod(m) => {
            if depth > 0 {
                match m.content {
                    Some(items) => {
                        lemma_items_extend(rules, files, items@, module.push(m.name@), state, (depth - 1) as nat);
                    },
                    None => {
                        let file = state.1.push(m.name@ + ".rs"@);
                        let nested = state.1.push(m.name@).push("mod.rs"@);
                        lemma_file_extends(rules, files, file, module.push(m.name@), state.0, depth);
                        lemma_file_extends(rules, files, nested, module.push(m.name@), state.0, depth);
                    },
                }
            }
        },
        _ => {},
    }
}

proof fn lemma_file_extends(rules: Rules, files: FileSet, path: Seq<Seq<char>>, module: Seq<Seq<char>>, found: Seq<Seq<char>>, depth: nat)
    ensures
        walk_file(rules, files, path, module, found, depth) matches Ok(s) ==> extends(s.0, found),
    decreases depth, 0nat,
{
    if depth > 0 && path.len() > 0 {
        if let Some(FileView::Items(items)) = file_at(files, path) {
            lemma_items_extend(rules, files, items, module, (found, path.drop_last()), (depth - 1) as nat);
        }
    }
}

/// A visible function is reported by a walk if and only if one of its
/// attributes, at any position among them, bears one of the names that the
/// search looks for; a reported function is written at the end of the paths
/// found so far.
pub proof fn lemma_glue_function_reported_by_any_attribute(
    rules: Rules,
    files: FileSet,
    f: FnItem,
    module: Seq<Seq<char>>,
    state: WalkState,
    depth: nat,
)
    requires
        visible(f),
    ensures
        (exists|k: int| 0 <= k < f.attributes@.len() && rules.attribute_names.contains(#[trigger] f.attributes@[k].name@))
            ==> walk_item(rules, files, SourceItem::Fn(f), module, state, depth) == Ok::<WalkState, super::discovery::Failure>(
            (state.0.push(definition_path(rules.definition_prefix, module, f.name@)), state.1),
        ),
        (forall|k: int| 0 <= k < f.attributes@.len() ==> !rules.attribute_names.contains(#[trigger] f.attributes@[k].name@))
            ==> walk_item(rules, files, SourceItem::Fn(f), module, state, depth) == Ok::<WalkState, super::discovery::Failure>(state),
{
}

/// Walking two runs of items one after the other is walking their
/// concatenation.
proof fn lemma_walk_items_concat(
    rules: Rules,
    files: FileSet,
    a: Seq<SourceItem>,
    b: Seq<SourceItem>,
    module: Seq<Seq<char>>,
    state: WalkState,
    depth: nat,
)
    ensures
        walk_items(rules, files, a + b, module, state, depth) == match walk_items(rules, files, a, module, state, depth) {
            Ok(s) => walk_items(rules, files, b, module, s, depth),
            Err(e) => Err(e),
        },
    decreases b.len(),
{
    if b.len() == 0 {
        assert(a + b == a);
    } else {
        assert((a + b).drop_last() == a + b.drop_last());
        assert((a + b).last() == b.last());
        lemma_walk_items_concat(rules, files, a, b.drop_last(), module, state, depth);
    }
}

/// Among the items that a walk goes through, each visible function with one
/// of the searched attributes, at any position among its attributes, is
/// reported: where the walk succeeds, its path is among the paths found.
pub proof fn lemma_walk_reports_glue_function(
    rules: Rules,
    files: FileSet,
    items: Seq<SourceItem>,
    module: Seq<Seq<char>>,
    state: WalkState,
    depth: nat,
    i: int,
    k: int,
)
    requires
        0 <= i < items.len(),
        items[i] matches SourceItem::Fn(f) && visible(f) && 0 <= k < f.attributes@.len()
            && rules.attribute_names.contains(f.attributes@[k].name@),
    ensures
        walk_items(rules, files, items, module, state, depth) matches Ok(s) ==> s.0.contains(
            definition_path(rules.definition_prefix, module, items[i]->Fn_0.name@),
        ),
{
    let f = items[i]->Fn_0;
    let a = items.take(i + 1);
    let b = items.skip(i + 1);
    assert(items == a + b);
    lemma_walk_items_concat(rules, files, a, b, module, state, depth);
    assert(a.drop_last() == items.take(i));
    assert(a.last() == items[i]);
    if let Ok(s) = walk_items(rules, files, items, module, state, depth) {
        let s0 = walk_items(rules, files, items.take(i), module, state, depth)->Ok_0;
        lemma_glue_function_reported_by_any_attribute(rules, files, f, module, s0, depth);
        let path = definition_path(rules.definition_prefix, module, f.name@);
        let s1 = (s0.0.push(path), s0.1);
        assert(walk_items(rules, files, a, module, state, depth) == Ok::<WalkState, super::discovery::Failure>(s1));
        lemma_items_extend(rules, files, b, module, s1, depth);
        assert(s.0[s0.0.len() as int] == s1.0[s0.0.len() as int]);
    }
}

/// The attribute names of each kind of glue definition, in the fixed order
/// of the kinds: before scenario hooks, before step hooks, steps, after step
/// hooks, after scenario hooks.
pub open spec fn kind_attribute(kind: int, name: Seq<char>) -> bool {
    ||| kind == 0 && name == "before_scenario"@
    ||| kind == 1 && name == "before_step"@
    ||| kind == 2 && (name == "given"@ || name == "when"@ || name == "then"@)
    ||| kind == 3 && name == "after_step"@
    ||| kind == 4 && name == "after_scenario"@
}

/// The prefix of the static definition of each kind of glue function.
pub open spec fn kind_prefix(kind: int) -> Seq<char> {
    if kind == 0 {
        "static_cuke_runner_before_scenario_hook_info_for_"@
    } else if kind == 1 {
        "static_cuke_runner_before_step_hook_info_for_"@
    } else if kind == 2 {
        "static_cuke_runner_step_info_for_"@
    } else if kind == 3 {
        "static_cuke_runner_after_step_hook_info_for_"@
    } else {
        "static_cuke_runner_after_scenario_hook_info_for_"@
    }
}

/// A visible function of the root file that carries an attribute of a kind,
/// at any position among its attributes, is among the static glue
/// definitions of that kind, written as `::::` and the kind's prefix and the
/// function's name, wherever the search of that kind succeeds: a step with
/// `given`, `when` or `then`, a hook with the attribute named after its type.
pub proof fn lemma_glue_definitions_of_each_kind(files: FileSet, root: Seq<char>, items: Seq<SourceItem>, kind: int, i: int, k: int)
    requires
        0 <= kind < 5,
        file_at(files, seq![root]) == Some(FileView::Items(items)),
        0 <= i < items.len(),
        items[i] matches SourceItem::Fn(f) && visible(f) && 0 <= k < f.attributes@.len()
            && kind_attribute(kind, f.attributes@[k].name@),
    ensures
        kind_walks(files, root)[kind] matches Ok(s) ==> s.0.contains(
            "::"@ + "::"@ + kind_prefix(kind) + items[i]->Fn_0.name@,
        ),
{
    let f = items[i]->Fn_0;
    let walk = kind_walks(files, root)[kind];
    let w = kind_walks(files, root);
    let rules = if kind == 0 {
        super::glue_paths::definition_rules(seq!["before_scenario"@], super::discovery::ModuleAttributes::RefusePath, kind_prefix(0))
    } else if kind == 1 {
        super::glue_paths::definition_rules(seq!["before_step"@], super::discovery::ModuleAttributes::RefusePath, kind_prefix(1))
    } else if kind == 2 {
        super::glue_paths::definition_rules(seq!["given"@, "when"@, "then"@], super::discovery::ModuleAttributes::RefusePath, kind_prefix(2))
    } else if kind == 3 {
        super::glue_paths::definition_rules(seq!["after_step"@], super::discovery::ModuleAttributes::RefusePath, kind_prefix(3))
    } else {
        super::glue_paths::definition_rules(seq!["after_scenario"@], super::discovery::ModuleAttributes::RefusePath, kind_prefix(4))
    };
    assert(walk == walk_file(rules, files, seq![root], Seq::empty(), Seq::empty(), 64));
    let name = f.attributes@[k].name@;
    assert(rules.attribute_names.contains(name)) by {
        if kind == 2 {
            if name == "given"@ {
                assert(rules.attribute_names[0] == name);
            } else if name == "when"@ {
                assert(rules.attribute_names[1] == name);
            } else {
                assert(rules.attribute_names[2] == name);
            }
        } else {
            assert(rules.attribute_names[0] == name);
        }
    }
    let start: WalkState = (Seq::empty(), seq![root].drop_last());
    lemma_walk_reports_glue_function(rules, files, items, Seq::empty(), start, 63, i, k);
    assert(joined(Seq::<Seq<char>>::empty()) == Seq::<char>::empty());
    assert(definition_path(rules.definition_prefix, Seq::empty(), f.name@) == "::"@ + "::"@ + kind_prefix(kind) + f.name@);
}

/// A visible function of `steps/mod.rs` that carries a `step`, `given`,
/// `when` or `then` attribute, at any position among its attributes, is
/// among the step functions found, as `steps::` and its name, wherever the
/// search succeeds.
pub proof fn lemma_step_fns_found_by_each_step_attribute(files: FileSet, items: Seq<SourceItem>, i: int, k: int)
    requires
        file_at(files, seq!["steps"@, "mod.rs"@]) == Some(FileView::Items(items)),
        0 <= i < items.len(),
        items[i] matches SourceItem::Fn(f) && visible(f) && 0 <= k < f.attributes@.len() && ({
            let name = f.attributes@[k].name@;
            name == "step"@ || name == "given"@ || name == "when"@ || name == "then"@
        }),
    ensures
        step_fn_walk(files) matches Ok(s) ==> s.0.contains("steps"@ + "::"@ + items[i]->Fn_0.name@),
{
    let f = items[i]->Fn_0;
    let rules = super::glue_paths::step_fn_rules();
    let name = f.attributes@[k].name@;
    assert(rules.attribute_names.contains(name)) by {
        if name == "step"@ {
            assert(rules.attribute_names[0] == name);
        } else if name == "given"@ {
            assert(rules.attribute_names[1] == name);
        } else if name == "when"@ {
            assert(rules.attribute_names[2] == name);
        } else {
            assert(rules.attribute_names[3] == name);
        }
    }
    let path = seq!["steps"@, "mod.rs"@];
    let start: WalkState = (Seq::empty(), path.drop_last());
    lemma_walk_reports_glue_function(rules, files, items, seq!["steps"@], start, 63, i, k);
    assert(joined(seq!["steps"@]) == "steps"@);
}

/// A visible function with one of the searched attributes inside a public
/// module without attributes is reported under the module's path: for an
/// inline module, from its own items; for a declared module, from the file
/// `name.rs` in the directory where modules are looked for, or where there is
/// no such file, from `name/mod.rs`.
pub proof fn lemma_module_function_reported(
    rules: Rules,
    files: FileSet,
    item: SourceItem,
    module: Seq<Seq<char>>,
    state: WalkState,
    depth: nat,
    inner: Seq<SourceItem>,
    i: int,
    k: int,
)
    requires
        depth > 0,
        item matches SourceItem::Mod(m) && m.visibility == ItemVisibility::Public && m.attributes@.len() == 0 && ({
            ||| m.content matches Some(c) && c@ == inner
            ||| m.content is None && file_at(files, state.1.push(m.name@ + ".rs"@)) == Some(FileView::Items(inner))
            ||| m.content is None && file_at(files, state.1.push(m.name@ + ".rs"@)) is None && file_at(
                files,
                state.1.push(m.name@).push("mod.rs"@),
            ) == Some(FileView::Items(inner))
        }),
        0 <= i < inner.len(),
        inner[i] matches SourceItem::Fn(f) && visible(f) && 0 <= k < f.attributes@.len()
            && rules.attribute_names.contains(f.attributes@[k].name@),
    ensures
        walk_item(rules, files, item, module, state, depth) matches Ok(s) ==> s.0.contains(
            definition_path(rules.definition_prefix, module.push(item->Mod_0.name@), inner[i]->Fn_0.name@),
        ),
{
    let m = item->Mod_0;
    let sub = module.push(m.name@);
    match m.content {
        Some(c) => {
            lemma_walk_reports_glue_function(rules, files, inner, sub, state, (depth - 1) as nat, i, k);
        },
        None => {
            let file = state.1.push(m.name@ + ".rs"@);
            let nested = state.1.push(m.name@).push("mod.rs"@);
            if file_at(files, file) is Some {
                lemma_walk_reports_glue_function(rules, files, inner, sub, (state.0, file.drop_last()), (depth - 1) as nat, i, k);
            } else {
                lemma_walk_reports_glue_function(rules, files, inner, sub, (state.0, nested.drop_last()), (depth - 1) as nat, i, k);
            }
        },
    }
}

/// What visibility and module attributes make of a walk: a function or a
/// followed module with a restricted visibility stops it; a function without
/// visibility is passed over, whatever its attributes; the search for step
/// functions passes over modules without visibility, which the searches for
/// definitions follow; and a followed module is refused where the step
/// searches meet any attribute on it, and where the glue searches meet a
/// `path` attribute on it.
pub proof fn lemma_walk_visibility_and_module_attributes(
    rules: Rules,
    files: FileSet,
    f: FnItem,
    m: super::source::ModItem,
    module: Seq<Seq<char>>,
    state: WalkState,
    depth: nat,
)
    ensures
        f.visibility == ItemVisibility::Restricted ==> walk_item(rules, files, SourceItem::Fn(f), module, state, depth)
            == Err::<WalkState, super::discovery::Failure>(super::discovery::Failure::RestrictedVisibility),
        f.visibility == ItemVisibility::Inherited ==> walk_item(rules, files, SourceItem::Fn(f), module, state, depth)
            == Ok::<WalkState, super::discovery::Failure>(state),
        (m.visibility == ItemVisibility::Restricted && rules == super::glue_paths::step_fn_rules()) ==> walk_item(
            rules,
            files,
            SourceItem::Mod(m),
            module,
            state,
            depth,
        ) == Err::<WalkState, super::discovery::Failure>(super::discovery::Failure::RestrictedVisibility),
        (m.visibility == ItemVisibility::Inherited && rules == super::glue_paths::step_fn_rules()) ==> walk_item(
            rules,
            files,
            SourceItem::Mod(m),
            module,
            state,
            depth,
        ) == Ok::<WalkState, super::discovery::Failure>(state),
        (m.visibility == ItemVisibility::Public && m.attributes@.len() > 0 && (rules == super::glue_paths::step_fn_rules()
            || rules == super::glue_paths::step_definition_rules())) ==> walk_item(rules, files, SourceItem::Mod(m), module, state, depth)
            == Err::<WalkState, super::discovery::Failure>(super::discovery::Failure::ModuleAttribute),
        (m.attributes@.len() > 0 && rules == super::glue_paths::step_definition_rules()) ==> walk_item(
            rules,
            files,
            SourceItem::Mod(m),
            module,
            state,
            depth,
        ) == Err::<WalkState, super::discovery::Failure>(super::discovery::Failure::ModuleAttribute),
        (depth > 0 && m.attributes@.len() == 0 && rules == super::glue_paths::step_definition_rules() && m.content is Some)
            ==> walk_item(rules, files, SourceItem::Mod(m), module, state, depth) == walk_items(
            rules,
            files,
            m.content->Some_0@,
            module.push(m.name@),
            state,
            (depth - 1) as nat,
        ),
        forall|names: Seq<Seq<char>>, prefix: Seq<char>| (exists|k: int| 0 <= k < m.attributes@.len() && #[trigger] m.attributes@[k].is_ident
            && m.attributes@[k].name@ == "path"@) && rules == #[trigger] super::glue_paths::definition_rules(
            names,
            super::discovery::ModuleAttributes::RefusePath,
            prefix,
        ) ==> walk_item(rules, files, SourceItem::Mod(m), module, state, depth)
            == Err::<WalkState, super::discovery::Failure>(super::discovery::Failure::ModulePathAttribute),
        forall|names: Seq<Seq<char>>, prefix: Seq<char>| (depth > 0 && (forall|k: int| 0 <= k < m.attributes@.len()
            ==> !(#[trigger] m.attributes@[k].is_ident && m.attributes@[k].name@ == "path"@)) && m.content is Some && rules
            == #[trigger] super::glue_paths::definition_rules(names, super::discovery::ModuleAttributes::RefusePath, prefix))
            ==> walk_item(rules, files, SourceItem::Mod(m), module, state, depth) == walk_items(
            rules,
            files,
            m.content->Some_0@,
            module.push(m.name@),
            state,
            (depth - 1) as nat,
        ),
{
    assert forall|names: Seq<Seq<char>>, prefix: Seq<char>| (exists|k: int| 0 <= k < m.attributes@.len() && #[trigger] m.attributes@[k].is_ident
        && m.attributes@[k].name@ == "path"@) && rules == #[trigger] super::glue_paths::definition_rules(
        names,
        super::discovery::ModuleAttributes::RefusePath,
        prefix,
    ) implies walk_item(rules, files, SourceItem::Mod(m), module, state, depth)
        == Err::<WalkState, super::discovery::Failure>(super::discovery::Failure::ModulePathAttribute) by {
        assert(super::discovery::has_path_attribute(m.attributes@));
    }
    assert forall|names: Seq<Seq<char>>, prefix: Seq<char>| (depth > 0 && (forall|k: int| 0 <= k < m.attributes@.len()
        ==> !(#[trigger] m.attributes@[k].is_ident && m.attributes@[k].name@ == "path"@)) && m.content is Some && rules
        == #[trigger] super::glue_paths::definition_rules(names, super::discovery::ModuleAttributes::RefusePath, prefix))
        implies walk_item(rules, files, SourceItem::Mod(m), module, state, depth) == walk_items(
        rules,
        files,
        m.content->Some_0@,
        module.push(m.name@),
        state,
        (depth - 1) as nat,
    ) by {
        assert(!super::discovery::has_path_attribute(m.attributes@));
    }
}

} // verus!
