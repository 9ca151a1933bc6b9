//! The parts of a compiled scenario ("cuke") that the glue logic reads.

use vstd::prelude::*;

verus! {

/// A position in a feature file.
#[derive(Debug, Clone, Copy, PartialEq, Eq, Structural)]
pub struct Location {
    pub line: u32,
    pub column: u32,
}

/// A tag attached to a scenario, such as `@wip`.
#[derive(Debug, Clone)]
pub struct Tag {
    pub location: Location,
    pub name: String,
}

/// The names of a list of tags, in order.
pub open spec fn tag_names(tags: Seq<Tag>) -> Seq<Seq<char>> {
    tags.map_values(|t: Tag| t.name@)
}

/// A scenario as the filters see it: its name, the locations it was compiled
/// from and its tags.
#[derive(Debug, Clone)]
pub struct Cuke {
    pub name: String,
    pub locations: Vec<Location>,
    pub tags: Vec<Tag>,
}

} // verus!
