//! Filters that select which scenarios run: by file line, by name pattern or
//! by tag expression.

pub mod line;
pub mod name;
pub mod tag;

use vstd::prelude::*;

use self::line::{LinePredicate, lines_match};
use self::name::{NamePredicate, any_pattern_matches};
use self::tag::TagPredicate;
use crate::cuke::{Cuke, Location, tag_names};
use crate::hook::tag_predicate::expression::eval;

verus! {

/// One filter on scenarios.
pub enum CukePredicate<'p> {
    Line(LinePredicate<'p>),
    Name(NamePredicate),
    Tag(TagPredicate<'p>),
}

/// Whether a filter selects a scenario read from the given file.
pub open spec fn cuke_predicate_selects(p: CukePredicate<'_>, uri: Seq<char>, cuke: Cuke) -> bool {
    match p {
        CukePredicate::Line(line_predicate) => lines_match(line_predicate.spec_filters(), uri, cuke.locations@),
        CukePredicate::Name(name_predicate) => any_pattern_matches(name_predicate.spec_patterns(), cuke.name@),
        CukePredicate::Tag(tag_predicate) => eval(tag_predicate.spec_expression(), tag_names(cuke.tags@)),
    }
}

impl<'p> CukePredicate<'p> {
    /// Whether this filter selects the scenario `cuke` of the file `uri`.
    pub fn apply(&self, uri: &str, cuke: &Cuke) -> (r: bool)
        ensures
            r == cuke_predicate_selects(*self, uri@, *cuke),
    {
        match self {
            CukePredicate::Line(line_predicate) => line_predicate.apply(uri, &cuke.locations),
            CukePredicate::Name(name_predicate) => name_predicate.apply(cuke.name.as_str()),
            CukePredicate::Tag(tag_predicate) => tag_predicate.apply(&cuke.tags),
        }
    }
}

/// A line predicate selects every scenario of a file that it has no lines
/// for; for a file with an entry, it selects a scenario exactly when one of
/// the scenario's locations lies on one of that entry's lines.
pub proof fn lemma_line_predicate_selects(p: LinePredicate<'_>, uri: Seq<char>, locations: Seq<Location>)
    requires
        line::files_distinct(p.spec_filters()),
    ensures
        (forall|i: int| 0 <= i < p.spec_filters().len() ==> #[trigger] p.spec_filters()[i].0 != uri) ==> lines_match(
            p.spec_filters(),
            uri,
            locations,
        ),
        forall|i: int|
            0 <= i < p.spec_filters().len() && #[trigger] p.spec_filters()[i].0 == uri ==> (lines_match(
                p.spec_filters(),
                uri,
                locations,
            ) <==> exists|k: int| 0 <= k < locations.len() && p.spec_filters()[i].1.contains(#[trigger] locations[k].line)),
{
    let f = p.spec_filters();
    assert forall|i: int| 0 <= i < f.len() && #[trigger] f[i].0 == uri implies (lines_match(f, uri, locations)
        <==> exists|k: int| 0 <= k < locations.len() && f[i].1.contains(#[trigger] locations[k].line)) by {
        if lines_match(f, uri, locations) {
            let (l, k) = choose|l: int, k: int|
                0 <= l < f[i].1.len() && 0 <= k < locations.len() && #[trigger] f[i].1[l] == #[trigger] locations[k].line;
            assert(f[i].1.contains(locations[k].line));
        }
        if exists|k: int| 0 <= k < locations.len() && f[i].1.contains(#[trigger] locations[k].line) {
            let k = choose|k: int| 0 <= k < locations.len() && f[i].1.contains(#[trigger] locations[k].line);
            let l = choose|l: int| 0 <= l < f[i].1.len() && f[i].1[l] == locations[k].line;
            assert forall|j: int| 0 <= j < f.len() && f[j].0 == uri implies exists|l2: int, k2: int|
                0 <= l2 < f[j].1.len() && 0 <= k2 < locations.len() && #[trigger] f[j].1[l2]
                    == #[trigger] locations[k2].line by {
                if j != i {
                    assert(f[j].0 != f[i].0);
                }
                assert(f[j].1[l] == locations[k].line);
            }
        }
    }
}

/// A name predicate selects a scenario exactly when one of its patterns,
/// wherever it stands among them, matches the scenario's name; adding
/// patterns never deselects a scenario.
pub proof fn lemma_name_predicate_selects(patterns: Seq<Seq<char>>, more: Seq<Seq<char>>, name: Seq<char>)
    ensures
        any_pattern_matches(patterns, name) <==> exists|p: Seq<char>| patterns.contains(p) && #[trigger] name::regex_is_match(p, name),
        any_pattern_matches(patterns, name) ==> any_pattern_matches(patterns + more, name),
        any_pattern_matches(more, name) ==> any_pattern_matches(patterns + more, name),
{
    if any_pattern_matches(patterns, name) {
        let i = choose|i: int| 0 <= i < patterns.len() && #[trigger] name::regex_is_match(patterns[i], name);
        assert(patterns.contains(patterns[i]));
        assert((patterns + more)[i] == patterns[i]);
    }
    if exists|p: Seq<char>| patterns.contains(p) && #[trigger] name::regex_is_match(p, name) {
        let p = choose|p: Seq<char>| patterns.contains(p) && #[trigger] name::regex_is_match(p, name);
        let i = choose|i: int| 0 <= i < patterns.len() && patterns[i] == p;
        assert(name::regex_is_match(patterns[i], name));
    }
    if any_pattern_matches(more, name) {
        let i = choose|i: int| 0 <= i < more.len() && #[trigger] name::regex_is_match(more[i], name);
        assert((patterns + more)[patterns.len() + i] == more[i]);
    }
}

} // verus!
