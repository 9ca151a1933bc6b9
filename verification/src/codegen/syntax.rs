//! Parsing Rust source text into the items that the search for glue
//! functions reads, with `syn`.

use vstd::prelude::*;

use super::discovery::{FileSet, FileView, content_view, file_views};
use super::source::{AttributePath, FileContent, FnItem, SourceItem, ModItem, ItemVisibility, SourceFile, SourceText};
use crate::step::argument::data_table::row::strings_view;

verus! {

/// Declares `syn::Item`, an item of a parsed Rust file.
#[verifier::external_type_specification]
#[verifier::external_body]
pub struct ExSynItem(syn::Item);

/// What `syn::parse_file` gives for a source text, read as items: `None`
/// where the text does not parse as a Rust file.
pub uninterp spec fn parsed_items(text: Seq<char>) -> Option<Seq<SourceItem>>;

/// Trusted: calls `syn::parse_file` and reads each item of the file as an
/// `SourceItem`; the contract names the outcome as a function of the text.
#[verifier::external_body]
pub fn parse_items(text: &str) -> (r: Option<Vec<SourceItem>>)
    ensures
        r is None <==> parsed_items(text@) is None,
        r matches Some(items) ==> parsed_items(text@) == Some(items@),
{
    syn::parse_file(text).ok().map(|file| item_forms(&file.items))
}

/// Trusted: reads syntax items as `SourceItem`s, one for one and in order: the
/// name, visibility and attribute paths of functions and modules, and the
/// items of inline modules.
#[verifier::external_body]
fn item_forms(items: &[syn::Item]) -> (r: Vec<SourceItem>) {
    items.iter().map(|item| match item {
        syn::Item::Fn(f) => SourceItem::Fn(FnItem { name: f.sig.ident.to_string(), visibility: visibility_form(&f.vis), attributes: attribute_forms(&f.attrs) }),
        syn::Item::Mod(m) => SourceItem::Mod(ModItem {
            name: m.ident.to_string(),
            visibility: visibility_form(&m.vis),
            attributes: attribute_forms(&m.attrs),
            content: m.content.as_ref().map(|(_brace, inner)| item_forms(inner)),
        }),
        _ => SourceItem::Other,
    }).collect()
}

/// Declares `syn::Visibility`.
#[verifier::external_type_specification]
#[verifier::external_body]
pub struct ExSynVisibility(syn::Visibility);

/// Trusted: tells the variants of `syn::Visibility` apart.
#[verifier::external_body]
fn visibility_form(vis: &syn::Visibility) -> (r: ItemVisibility) {
    match vis {
        syn::Visibility::Public(_) => ItemVisibility::Public,
        syn::Visibility::Restricted(_) => ItemVisibility::Restricted,
        syn::Visibility::Inherited => ItemVisibility::Inherited,
    }
}

/// Declares `syn::Attribute`.
#[verifier::external_type_specification]
#[verifier::external_body]
pub struct ExSynAttribute(syn::Attribute);

/// Trusted: reads each attribute by the first segment of its path and
/// whether the path is a single identifier.
#[verifier::external_body]
fn attribute_forms(attrs: &[syn::Attribute]) -> (r: Vec<AttributePath>) {
    attrs.iter().map(|attr| AttributePath {
        name: attr.path().segments.first().map(|segment| segment.ident.to_string()).unwrap_or_default(),
        is_ident: attr.path().get_ident().is_some(),
    }).collect()
}

/// What a source text holds: the items it parses to, or that it could not
/// be read or not be parsed.
pub open spec fn text_view(text: Option<String>) -> FileView {
    match text {
        None => FileView::Unreadable,
        Some(t) => match parsed_items(t@) {
            None => FileView::Unparsable,
            Some(items) => FileView::Items(items),
        },
    }
}

/// The files of a search as read: each by its path, with what its text holds.
pub open spec fn text_files(texts: Seq<SourceText>) -> FileSet {
    texts.map_values(|t: SourceText| (strings_view(t.path@), text_view(t.text)))
}

/// Parses the source texts, one file for each text, in order.
pub fn parse_sources(texts: &Vec<SourceText>) -> (files: Vec<SourceFile>)
    ensures
        file_views(files@) == text_files(texts@),
{
    let mut files: Vec<SourceFile> = Vec::new();
    let mut i: usize = 0;
    while i < texts.len()
        invariant
            0 <= i <= texts@.len(),
            files@.len() == i,
            forall|k: int| 0 <= k < i ==> #[trigger] file_views(files@)[k] == text_files(texts@)[k],
        decreases texts@.len() - i,
    {
        let source = &texts[i];
        let content = match &source.text {
            None => FileContent::Unreadable,
            Some(text) => match parse_items(text.as_str()) {
                None => FileContent::Unparsable,
                Some(items) => FileContent::Items(items),
            },
        };
        let path = source.path.clone();
        proof {
            assert(strings_view(path@) =~= strings_view(source.path@)) by {
                assert forall|k: int| 0 <= k < path@.len() implies path@[k] == source.path@[k] by {
                    assert(cloned::<String>(source.path@[k], path@[k]));
                }
            }
        }
        let ghost before = files@;
        files.push(SourceFile { path, content });
        proof {
            assert forall|k: int| 0 <= k < i + 1 implies #[trigger] file_views(files@)[k] == text_files(texts@)[k] by {
                if k < i {
                    assert(files@[k] == before[k]);
                    assert(file_views(before)[k] == file_views(files@)[k]);
                }
            }
        }
        i = i + 1;
    }
    assert(file_views(files@) =~= text_files(texts@));
    files
}

} // verus!
