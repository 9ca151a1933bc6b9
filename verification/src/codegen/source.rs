//! The items of Rust source files that the search for glue definitions reads:
//! functions and modules with their names, visibility and attributes.

use vstd::prelude::*;

verus! {

/// The visibility of an item.
#[derive(Debug, Clone, Copy, PartialEq, Eq, Structural)]
pub enum ItemVisibility {
    /// `pub`
    Public,
    /// `crate`
    Crate,
    /// `pub(..)` with a restriction
    Restricted,
    /// no visibility written
    Inherited,
}

/// An outer attribute of an item: the name of the first segment of its path,
/// and whether the path is that name alone.
#[derive(Debug, Clone)]
pub struct AttributePath {
    pub name: String,
    pub is_ident: bool,
}

/// A function item.
#[derive(Debug, Clone)]
pub struct FnItem {
    pub name: String,
    pub visibility: ItemVisibility,
    pub attributes: Vec<AttributePath>,
}

/// A module item: `content` holds the items of an inline module, and is
/// `None` for a module declared with `mod name;`.
#[derive(Debug)]
pub struct ModItem {
    pub name: String,
    pub visibility: ItemVisibility,
    pub attributes: Vec<AttributePath>,
    pub content: Option<Vec<SourceItem>>,
}

/// An item of a source file.
#[derive(Debug)]
pub enum SourceItem {
    Fn(FnItem),
    Mod(ModItem),
    Other,
}

/// What a source file holds: its items, or that it could not be read or not
/// be parsed.
#[derive(Debug)]
pub enum FileContent {
    Items(Vec<SourceItem>),
    Unreadable,
    Unparsable,
}

/// A source file under the directory that the search starts in, as read:
/// the components of its path relative to that directory, and its text,
/// `None` where it could not be read.
#[derive(Debug, Clone)]
pub struct SourceText {
    pub path: Vec<String>,
    pub text: Option<String>,
}

/// A source file under the directory that the search starts in, by the
/// components of its path relative to that directory, with what it holds.
#[derive(Debug)]
pub struct SourceFile {
    pub path: Vec<String>,
    pub content: FileContent,
}

} // verus!
