//! The walk of a glue crate's module tree that collects the paths of its
//! glue functions: the public functions with one of the glue attributes, in
//! inline modules and in the files that module declarations name.

use vstd::prelude::*;
use vstd::string::StringExecFns;

use super::source::{AttributePath, FileContent, SourceItem, SourceFile, ItemVisibility};
use crate::step::argument::data_table::row::strings_view;
use crate::text::str_eq;

verus! {

/// What a module attribute makes of a search.
#[derive(Debug, Clone, Copy, PartialEq, Eq, Structural)]
pub enum ModuleAttributes {
    /// Any attribute on a module is refused.
    RefuseAny,
    /// A `path` attribute on a module is refused.
    RefusePath,
}

/// The rules of a search for glue functions.
#[derive(Debug, Clone)]
pub struct SearchRules {
    /// The attributes that make a function a glue function.
    pub attribute_names: Vec<String>,
    /// Whether modules that are not public are passed over.
    pub skip_private_modules: bool,
    /// Which module attributes are refused.
    pub module_attributes: ModuleAttributes,
    /// Where it is given, a function's path is written as
    /// `::module::path::` + prefix + name; else as `module::path::name`.
    pub definition_prefix: Option<String>,
}

/// The rules of a search, with names as character sequences.
pub ghost struct Rules {
    pub attribute_names: Seq<Seq<char>>,
    pub skip_private_modules: bool,
    pub module_attributes: ModuleAttributes,
    pub definition_prefix: Option<Seq<char>>,
}

impl View for SearchRules {
    type V = Rules;

    open spec fn view(&self) -> Rules {
        Rules {
            attribute_names: strings_view(self.attribute_names@),
            skip_private_modules: self.skip_private_modules,
            module_attributes: self.module_attributes,
            definition_prefix: match self.definition_prefix {
                Some(p) => Some(p@),
                None => None,
            },
        }
    }
}

/// Why a search failed.
#[derive(Debug, Clone, PartialEq, Eq)]
pub enum DiscoveryError {
    /// An item has a restricted visibility.
    RestrictedVisibility,
    /// A module has an attribute, which the search refuses.
    ModuleAttribute,
    /// A module has a `path` attribute.
    ModulePathAttribute,
    /// Neither file of a declared module exists; the path is that of the
    /// `mod.rs` file that was looked for.
    ModuleNotFound(Vec<String>),
    /// A file could not be read.
    UnreadableFile(Vec<String>),
    /// A file could not be parsed.
    UnparsableFile(Vec<String>),
    /// Modules are nested deeper than the search goes.
    TooDeep,
}

/// Why a search failed, with paths as character sequences.
pub ghost enum Failure {
    RestrictedVisibility,
    ModuleAttribute,
    ModulePathAttribute,
    ModuleNotFound(Seq<Seq<char>>),
    UnreadableFile(Seq<Seq<char>>),
    UnparsableFile(Seq<Seq<char>>),
    TooDeep,
}

impl View for DiscoveryError {
    type V = Failure;

    open spec fn view(&self) -> Failure {
        match self {
            DiscoveryError::RestrictedVisibility => Failure::RestrictedVisibility,
            DiscoveryError::ModuleAttribute => Failure::ModuleAttribute,
            DiscoveryError::ModulePathAttribute => Failure::ModulePathAttribute,
            DiscoveryError::ModuleNotFound(p) => Failure::ModuleNotFound(strings_view(p@)),
            DiscoveryError::UnreadableFile(p) => Failure::UnreadableFile(strings_view(p@)),
            DiscoveryError::UnparsableFile(p) => Failure::UnparsableFile(strings_view(p@)),
            DiscoveryError::TooDeep => Failure::TooDeep,
        }
    }
}

/// The state of a walk: the paths found so far, and the directory that the
/// next declared module is looked for in.
pub type WalkState = (Seq<Seq<char>>, Seq<Seq<char>>);

/// Module path segments joined with `::`.
pub open spec fn joined(parts: Seq<Seq<char>>) -> Seq<char>
    decreases parts.len(),
{
    if parts.len() == 0 {
        Seq::empty()
    } else if parts.len() == 1 {
        parts[0]
    } else {
        joined(parts.drop_last()) + "::"@ + parts.last()
    }
}

/// The path written for a glue function `name` in the module at `module`.
pub open spec fn definition_path(prefix: Option<Seq<char>>, module: Seq<Seq<char>>, name: Seq<char>) -> Seq<char> {
    match prefix {
        None => joined(module) + "::"@ + name,
        Some(p) => "::"@ + joined(module) + "::"@ + p + name,
    }
}

/// Whether one of the attributes is named as a glue attribute.
pub open spec fn has_glue_attribute(attributes: Seq<AttributePath>, names: Seq<Seq<char>>) -> bool {
    exists|k: int| 0 <= k < attributes.len() && names.contains(#[trigger] attributes[k].name@)
}

/// Whether one of the attributes is `path`.
pub open spec fn has_path_attribute(attributes: Seq<AttributePath>) -> bool {
    exists|k: int| 0 <= k < attributes.len() && #[trigger] attributes[k].is_ident && attributes[k].name@ == "path"@
}

/// The failure that the attributes of a module cause under the rules, if any.
pub open spec fn module_attribute_failure(rules: Rules, attributes: Seq<AttributePath>) -> Option<Failure> {
    match rules.module_attributes {
        ModuleAttributes::RefuseAny => if attributes.len() > 0 {
            Some(Failure::ModuleAttribute)
        } else {
            None
        },
        ModuleAttributes::RefusePath => if has_path_attribute(attributes) {
            Some(Failure::ModulePathAttribute)
        } else {
            None
        },
    }
}

/// What a file holds, with its items as a sequence.
pub ghost enum FileView {
    Items(Seq<SourceItem>),
    Unreadable,
    Unparsable,
}

/// The files of a search: each by its path, with what it holds.
pub type FileSet = Seq<(Seq<Seq<char>>, FileView)>;

/// What a file's content holds.
pub open spec fn content_view(content: FileContent) -> FileView {
    match content {
        FileContent::Items(items) => FileView::Items(items@),
        FileContent::Unreadable => FileView::Unreadable,
        FileContent::Unparsable => FileView::Unparsable,
    }
}

/// The files, each by its path with what it holds.
pub open spec fn file_views(files: Seq<SourceFile>) -> FileSet {
    files.map_values(|f: SourceFile| (strings_view(f.path@), content_view(f.content)))
}

/// What the first file with the given path holds, if any.
pub open spec fn file_at(files: FileSet, path: Seq<Seq<char>>) -> Option<FileView>
    decreases files.len(),
{
    if files.len() == 0 {
        None
    } else if files[0].0 == path {
        Some(files[0].1)
    } else {
        file_at(files.drop_first(), path)
    }
}

/// The walk over items, one after the other, from a state.
pub open spec fn walk_items(
    rules: Rules,
    files: FileSet,
    items: Seq<SourceItem>,
    module: Seq<Seq<char>>,
    state: WalkState,
    depth: nat,
) -> Result<WalkState, Failure>
    decreases depth, items.len() + 2,
{
    if items.len() == 0 {
        Ok(state)
    } else {
        match walk_items(rules, files, items.drop_last(), module, state, depth) {
            Err(f) => Err(f),
            Ok(s) => walk_item(rules, files, items.last(), module, s, depth),
        }
    }
}

/// The walk over one item from a state.
pub open spec fn walk_item(
    rules: Rules,
    files: FileSet,
    item: SourceItem,
    module: Seq<Seq<char>>,
    state: WalkState,
    depth: nat,
) -> Result<WalkState, Failure>
    decreases depth, 1nat,
{
    match item {
        SourceItem::Fn(f) => match f.visibility {
            ItemVisibility::Restricted => Err(Failure::RestrictedVisibility),
            ItemVisibility::Inherited => Ok(state),
            _ => if has_glue_attribute(f.attributes@, rules.attribute_names) {
                Ok((state.0.push(definition_path(rules.definition_prefix, module, f.name@)), state.1))
            } else {
                Ok(state)
            },
        },
        SourceItem::Mod(m) => {
            if rules.skip_private_modules && m.visibility == ItemVisibility::Restricted {
                Err(Failure::RestrictedVisibility)
            } else if rules.skip_private_modules && m.visibility == ItemVisibility::Inherited {
                Ok(state)
            } else if module_attribute_failure(rules, m.attributes@) is Some {
                Err(module_attribute_failure(rules, m.attributes@)->0)
            } else if depth == 0 {
                Err(Failure::TooDeep)
            } else {
                match m.content {
                    Some(items) => walk_items(rules, files, items@, module.push(m.name@), state, (depth - 1) as nat),
                    None => {
                        let file = state.1.push(m.name@ + ".rs"@);
                        let nested = state.1.push(m.name@).push("mod.rs"@);
                        if file_at(files, file) is Some {
                            walk_file(rules, files, file, module.push(m.name@), state.0, depth)
                        } else if file_at(files, nested) is Some {
                            walk_file(rules, files, nested, module.push(m.name@), state.0, depth)
                        } else {
                            Err(Failure::ModuleNotFound(nested))
                        }
                    },
                }
            }
        },
        SourceItem::Other => Ok(state),
    }
}

/// The walk over the items of the file at `path`, with the directory of that
/// file as the one where modules are looked for.
pub open spec fn walk_file(
    rules: Rules,
    files: FileSet,
    path: Seq<Seq<char>>,
    module: Seq<Seq<char>>,
    found: Seq<Seq<char>>,
    depth: nat,
) -> Result<WalkState, Failure>
    decreases depth, 0nat,
{
    if depth == 0 {
        Err(Failure::TooDeep)
    } else if path.len() == 0 {
        Err(Failure::UnreadableFile(path))
    } else {
        match file_at(files, path) {
            Some(FileView::Items(items)) => walk_items(
                rules,
                files,
                items,
                module,
                (found, path.drop_last()),
                (depth - 1) as nat,
            ),
            Some(FileView::Unparsable) => Err(Failure::UnparsableFile(path)),
            _ => Err(Failure::UnreadableFile(path)),
        }
    }
}

/// A walk that fails where a prefix of the items fails fails alike.
proof fn lemma_prefix_failure(
    rules: Rules,
    files: FileSet,
    items: Seq<SourceItem>,
    module: Seq<Seq<char>>,
    state: WalkState,
    depth: nat,
    n: int,
)
    requires
        0 <= n <= items.len(),
        walk_items(rules, files, items.take(n), module, state, depth) is Err,
    ensures
        walk_items(rules, files, items, module, state, depth) == walk_items(rules, files, items.take(n), module, state, depth),
    decreases items.len() - n,
{
    if n < items.len() {
        let next = items.take(n + 1);
        assert(next.drop_last() == items.take(n));
        lemma_prefix_failure(rules, files, items, module, state, depth, n + 1);
    } else {
        assert(items.take(n) == items);
    }
}

/// A copy of a path.
fn copy_path(path: &Vec<String>) -> (copy: Vec<String>)
    ensures
        strings_view(copy@) == strings_view(path@),
{
    let mut copy: Vec<String> = Vec::new();
    let mut i: usize = 0;
    while i < path.len()
        invariant
            0 <= i <= path@.len(),
            copy@.len() == i,
            forall|k: int| 0 <= k < i ==> #[trigger] copy@[k]@ == path@[k]@,
        decreases path@.len() - i,
    {
        let part = path[i].clone();
        copy.push(part);
        i = i + 1;
    }
    proof {
        assert(strings_view(copy@) =~= strings_view(path@));
    }
    copy
}

/// Whether two paths have the same components.
fn same_path(a: &Vec<String>, b: &Vec<String>) -> (r: bool)
    ensures
        r == (strings_view(a@) == strings_view(b@)),
{
    if a.len() != b.len() {
        assert(strings_view(a@).len() != strings_view(b@).len());
        return false;
    }
    let mut i: usize = 0;
    while i < a.len()
        invariant
            0 <= i <= a@.len(),
            a@.len() == b@.len(),
            forall|k: int| 0 <= k < i ==> #[trigger] a@[k]@ == b@[k]@,
        decreases a@.len() - i,
    {
        if !str_eq(a[i].as_str(), b[i].as_str()) {
            assert(strings_view(a@)[i as int] != strings_view(b@)[i as int]);
            return false;
        }
        i = i + 1;
    }
    assert(strings_view(a@) == strings_view(b@));
    true
}

/// The index of the first file with the given path, if any.
fn find_file(files: &Vec<SourceFile>, path: &Vec<String>) -> (r: Option<usize>)
    ensures
        r matches Some(i) ==> i < files@.len() && file_at(file_views(files@), strings_view(path@)) == Some(
            content_view(files@[i as int].content),
        ),
        r is None ==> file_at(file_views(files@), strings_view(path@)) is None,
{
    let ghost views = file_views(files@);
    let mut i: usize = 0;
    proof {
        assert(views.skip(0) == views);
    }
    while i < files.len()
        invariant
            0 <= i <= files@.len(),
            views == file_views(files@),
            file_at(views, strings_view(path@)) == file_at(views.skip(i as int), strings_view(path@)),
        decreases files@.len() - i,
    {
        proof {
            assert(views.skip(i as int)[0] == views[i as int]);
            assert(views.skip(i as int).drop_first() == views.skip(i + 1));
        }
        if same_path(&files[i].path, path) {
            return Some(i);
        }
        i = i + 1;
    }
    proof {
        assert(views.skip(i as int).len() == 0);
    }
    None
}

/// Whether one of the attributes is named as a glue attribute.
fn is_glue_function(attributes: &Vec<AttributePath>, names: &Vec<String>) -> (r: bool)
    ensures
        r == has_glue_attribute(attributes@, strings_view(names@)),
{
    let mut k: usize = 0;
    while k < attributes.len()
        invariant
            0 <= k <= attributes@.len(),
            forall|a: int| 0 <= a < k ==> !strings_view(names@).contains(#[trigger] attributes@[a].name@),
        decreases attributes@.len() - k,
    {
        let mut j: usize = 0;
        while j < names.len()
            invariant
                0 <= j <= names@.len(),
                k < attributes@.len(),
                forall|b: int| 0 <= b < j ==> #[trigger] names@[b]@ != attributes@[k as int].name@,
            decreases names@.len() - j,
        {
            if str_eq(names[j].as_str(), attributes[k].name.as_str()) {
                assert(strings_view(names@)[j as int] == attributes@[k as int].name@);
                return true;
            }
            j = j + 1;
        }
        assert(!strings_view(names@).contains(attributes@[k as int].name@)) by {
            if strings_view(names@).contains(attributes@[k as int].name@) {
                let b = choose|b: int| 0 <= b < strings_view(names@).len() && strings_view(names@)[b] == attributes@[k as int].name@;
                assert(names@[b]@ == attributes@[k as int].name@);
            }
        }
        k = k + 1;
    }
    false
}

/// Whether one of the attributes is `path`.
fn is_path_attributed(attributes: &Vec<AttributePath>) -> (r: bool)
    ensures
        r == has_path_attribute(attributes@),
{
    let mut k: usize = 0;
    while k < attributes.len()
        invariant
            0 <= k <= attributes@.len(),
            forall|a: int| 0 <= a < k ==> !(#[trigger] attributes@[a].is_ident && attributes@[a].name@ == "path"@),
        decreases attributes@.len() - k,
    {
        if attributes[k].is_ident && str_eq(attributes[k].name.as_str(), "path") {
            return true;
        }
        k = k + 1;
    }
    false
}

/// The failure that the attributes of a module cause under the rules, if any.
fn refused_module_attributes(rules: &SearchRules, attributes: &Vec<AttributePath>) -> (r: Option<DiscoveryError>)
    ensures
        r is Some <==> module_attribute_failure(rules@, attributes@) is Some,
        r matches Some(e) ==> module_attribute_failure(rules@, attributes@) == Some(e@),
{
    match rules.module_attributes {
        ModuleAttributes::RefuseAny => if attributes.len() > 0 {
            Some(DiscoveryError::ModuleAttribute)
        } else {
            None
        },
        ModuleAttributes::RefusePath => if is_path_attributed(attributes) {
            Some(DiscoveryError::ModulePathAttribute)
        } else {
            None
        },
    }
}

/// Module path segments joined with `::`.
fn join(parts: &Vec<String>) -> (r: String)
    ensures
        r@ == joined(strings_view(parts@)),
{
    if parts.len() == 0 {
        return String::new();
    }
    let mut r = parts[0].clone();
    proof {
        assert(strings_view(parts@).take(1).drop_last() == Seq::<Seq<char>>::empty());
        assert(strings_view(parts@).take(1)[0] == parts@[0]@);
    }
    let mut i: usize = 1;
    while i < parts.len()
        invariant
            1 <= i <= parts@.len(),
            r@ == joined(strings_view(parts@).take(i as int)),
        decreases parts@.len() - i,
    {
        r.append("::");
        r.append(parts[i].as_str());
        proof {
            let next = strings_view(parts@).take(i + 1);
            assert(next.drop_last() == strings_view(parts@).take(i as int));
            assert(next.last() == parts@[i as int]@);
        }
        i = i + 1;
    }
    proof {
        assert(strings_view(parts@).take(parts@.len() as int) == strings_view(parts@));
    }
    r
}

/// The path written for a glue function `name` in the module at `module`.
fn write_definition_path(rules: &SearchRules, module: &Vec<String>, name: &str) -> (r: String)
    ensures
        r@ == definition_path(rules@.definition_prefix, strings_view(module@), name@),
{
    match &rules.definition_prefix {
        None => {
            let mut r = join(module);
            r.append("::");
            r.append(name);
            r
        },
        Some(prefix) => {
            let mut r = String::from_str("::");
            let joined_module = join(module);
            r.append(joined_module.as_str());
            r.append("::");
            r.append(prefix.as_str());
            r.append(name);
            r
        },
    }
}

/// Walks over items one after the other; on success the module path is as it was.
fn walk_items_exec(
    rules: &SearchRules,
    files: &Vec<SourceFile>,
    items: &Vec<SourceItem>,
    module: &mut Vec<String>,
    found: &mut Vec<String>,
    dir: &mut Vec<String>,
    depth: usize,
) -> (r: Result<(), DiscoveryError>)
    ensures
        match walk_items(
            rules@,
            file_views(files@),
            items@,
            strings_view(old(module)@),
            (strings_view(old(found)@), strings_view(old(dir)@)),
            depth as nat,
        ) {
            Ok(s) => r is Ok && strings_view(final(found)@) == s.0 && strings_view(final(dir)@) == s.1
                && final(module)@ == old(module)@,
            Err(f) => r matches Err(e) && e@ == f,
        },
    decreases depth, items@.len() + 2,
{
    let ghost module0 = strings_view(module@);
    let ghost state0: WalkState = (strings_view(found@), strings_view(dir@));
    let ghost module_start = module@;
    let mut i: usize = 0;
    proof {
        assert(items@.take(0) == Seq::<SourceItem>::empty());
    }
    while i < items.len()
        invariant
            0 <= i <= items@.len(),
            module@ == module_start,
            module_start == old(module)@,
            strings_view(module@) == module0,
            module0 == strings_view(old(module)@),
            state0 == (strings_view(old(found)@), strings_view(old(dir)@)),
            walk_items(rules@, file_views(files@), items@.take(i as int), module0, state0, depth as nat) == Ok::<WalkState, Failure>(
                (strings_view(found@), strings_view(dir@)),
            ),
        decreases items@.len() - i,
    {
        let ghost before: WalkState = (strings_view(found@), strings_view(dir@));
        let step = walk_item_exec(rules, files, &items[i], module, found, dir, depth);
        proof {
            let next = items@.take(i + 1);
            assert(next.drop_last() == items@.take(i as int));
            assert(next.last() == items@[i as int]);
        }
        match step {
            Err(e) => {
                proof {
                    assert(walk_items(rules@, file_views(files@), items@.take(i + 1), module0, state0, depth as nat) == walk_item(
                        rules@,
                        file_views(files@),
                        items@[i as int],
                        module0,
                        before,
                        depth as nat,
                    ));
                    lemma_prefix_failure(rules@, file_views(files@), items@, module0, state0, depth as nat, i + 1);
                    assert(walk_items(rules@, file_views(files@), items@, module0, state0, depth as nat) == Err::<WalkState, Failure>(
                        e@,
                    ));
                }
                return Err(e);
            },
            Ok(()) => {},
        }
        i = i + 1;
    }
    proof {
        assert(items@.take(items@.len() as int) == items@);
    }
    Ok(())
}

/// Walks over one item; on success the module path is as it was.
fn walk_item_exec(
    rules: &SearchRules,
    files: &Vec<SourceFile>,
    item: &SourceItem,
    module: &mut Vec<String>,
    found: &mut Vec<String>,
    dir: &mut Vec<String>,
    depth: usize,
) -> (r: Result<(), DiscoveryError>)
    ensures
        match walk_item(
            rules@,
            file_views(files@),
            *item,
            strings_view(old(module)@),
            (strings_view(old(found)@), strings_view(old(dir)@)),
            depth as nat,
        ) {
            Ok(s) => r is Ok && strings_view(final(found)@) == s.0 && strings_view(final(dir)@) == s.1
                && final(module)@ == old(module)@,
            Err(f) => r matches Err(e) && e@ == f,
        },
    decreases depth, 1nat,
{
    match item {
        SourceItem::Fn(f) => match f.visibility {
            ItemVisibility::Restricted => Err(DiscoveryError::RestrictedVisibility),
            ItemVisibility::Inherited => Ok(()),
            _ => {
                if is_glue_function(&f.attributes, &rules.attribute_names) {
                    let path = write_definition_path(rules, module, f.name.as_str());
                    found.push(path);
                    proof {
                        assert(strings_view(found@) == strings_view(old(found)@).push(path@));
                    }
                }
                Ok(())
            },
        },
        SourceItem::Mod(m) => {
            if rules.skip_private_modules && m.visibility == ItemVisibility::Restricted {
                return Err(DiscoveryError::RestrictedVisibility);
            }
            if rules.skip_private_modules && m.visibility == ItemVisibility::Inherited {
                return Ok(());
            }
            match refused_module_attributes(rules, &m.attributes) {
                Some(e) => {
                    return Err(e);
                },
                None => {},
            }
            if depth == 0 {
                return Err(DiscoveryError::TooDeep);
            }
            match &m.content {
                Some(items) => {
                    module.push(m.name.clone());
                    proof {
                        assert(strings_view(module@) == strings_view(old(module)@).push(m.name@));
                    }
                    let r = walk_items_exec(rules, files, items, module, found, dir, depth - 1);
                    module.pop();
                    proof {
                        if r is Ok {
                            assert(module@ == old(module)@);
                        }
                    }
                    r
                },
                None => {
                    let mut file_name = m.name.clone();
                    file_name.append(".rs");
                    dir.push(file_name);
                    proof {
                        reveal_strlit(".rs");
                        assert(strings_view(dir@) == strings_view(old(dir)@).push(m.name@ + ".rs"@));
                    }
                    if find_file(files, dir).is_some() {
                        module.push(m.name.clone());
                        proof {
                            assert(strings_view(module@) == strings_view(old(module)@).push(m.name@));
                        }
                        let r = walk_file_exec(rules, files, module, found, dir, depth);
                        module.pop();
                        return r;
                    }
                    dir.pop();
                    dir.push(m.name.clone());
                    dir.push(String::from_str("mod.rs"));
                    proof {
                        assert(strings_view(dir@) == strings_view(old(dir)@).push(m.name@).push("mod.rs"@));
                    }
                    if find_file(files, dir).is_some() {
                        module.push(m.name.clone());
                        proof {
                            assert(strings_view(module@) == strings_view(old(module)@).push(m.name@));
                        }
                        let r = walk_file_exec(rules, files, module, found, dir, depth);
                        module.pop();
                        return r;
                    }
                    Err(DiscoveryError::ModuleNotFound(copy_path(dir)))
                },
            }
        },
        SourceItem::Other => Ok(()),
    }
}

/// Walks over the items of the file at `dir`, from the directory of that file;
/// on success the module path is as it was.
fn walk_file_exec(
    rules: &SearchRules,
    files: &Vec<SourceFile>,
    module: &mut Vec<String>,
    found: &mut Vec<String>,
    dir: &mut Vec<String>,
    depth: usize,
) -> (r: Result<(), DiscoveryError>)
    ensures
        match walk_file(rules@, file_views(files@), strings_view(old(dir)@), strings_view(old(module)@), strings_view(old(found)@), depth as nat) {
            Ok(s) => r is Ok && strings_view(final(found)@) == s.0 && strings_view(final(dir)@) == s.1
                && final(module)@ == old(module)@,
            Err(f) => r matches Err(e) && e@ == f,
        },
    decreases depth, 0nat,
{
    if depth == 0 {
        return Err(DiscoveryError::TooDeep);
    }
    if dir.len() == 0 {
        let empty: Vec<String> = Vec::new();
        proof {
            assert(strings_view(empty@) =~= strings_view(dir@));
        }
        return Err(DiscoveryError::UnreadableFile(empty));
    }
    match find_file(files, dir) {
        Some(k) => match &files[k].content {
            FileContent::Items(items) => {
                dir.pop();
                proof {
                    assert(strings_view(dir@) == strings_view(old(dir)@).drop_last());
                }
                walk_items_exec(rules, files, items, module, found, dir, depth - 1)
            },
            FileContent::Unparsable => Err(DiscoveryError::UnparsableFile(copy_path(dir))),
            FileContent::Unreadable => Err(DiscoveryError::UnreadableFile(copy_path(dir))),
        },
        None => Err(DiscoveryError::UnreadableFile(copy_path(dir))),
    }
}

/// The paths of the glue functions found from the file at `root` (relative to
/// the directory of the search), in the order of the items, with `module` as
/// the module path of that file.
pub fn discover(rules: &SearchRules, files: &Vec<SourceFile>, root: &Vec<String>, module: &Vec<String>, depth: usize) -> (r: Result<Vec<String>, DiscoveryError>)
    ensures
        match walk_file(rules@, file_views(files@), strings_view(root@), strings_view(module@), Seq::empty(), depth as nat) {
            Ok(s) => r matches Ok(paths) && strings_view(paths@) == s.0,
            Err(f) => r matches Err(e) && e@ == f,
        },
{
    let mut modules = copy_path(module);
    let mut dir = copy_path(root);
    let mut found: Vec<String> = Vec::new();
    proof {
        assert(strings_view(found@) == Seq::<Seq<char>>::empty());
    }
    match walk_file_exec(rules, files, &mut modules, &mut found, &mut dir, depth) {
        Ok(()) => Ok(found),
        Err(e) => Err(e),
    }
}

} // verus!
