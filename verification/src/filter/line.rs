//! Selecting scenarios by the lines they were compiled from.

use vstd::prelude::*;

use crate::cuke::Location;
use crate::text::str_eq;

verus! {

/// The line filters of each file, as pairs of a file and its lines.
pub open spec fn filters_view(filters: Seq<(&str, Vec<u32>)>) -> Seq<(Seq<char>, Seq<u32>)> {
    filters.map_values(|f: (&str, Vec<u32>)| (f.0@, f.1@))
}

/// Whether no file has two entries.
pub open spec fn files_distinct(filters: Seq<(Seq<char>, Seq<u32>)>) -> bool {
    forall|i: int, j: int| 0 <= i < j < filters.len() ==> filters[i].0 != filters[j].0
}

/// Whether a scenario of the file `uri` with the given locations is selected:
/// a file without line filters has all its scenarios selected; otherwise one of
/// the scenario's locations must be on one of the filtered lines.
pub open spec fn lines_match(filters: Seq<(Seq<char>, Seq<u32>)>, uri: Seq<char>, locations: Seq<Location>) -> bool {
    forall|i: int| 0 <= i < filters.len() && filters[i].0 == uri ==> exists|l: int, k: int|
        0 <= l < filters[i].1.len() && 0 <= k < locations.len() && #[trigger] filters[i].1[l]
            == #[trigger] locations[k].line
}

/// Whether one of the locations lies on one of the lines.
fn lines_hit(lines: &Vec<u32>, locations: &[Location]) -> (r: bool)
    ensures
        r == exists|l: int, k: int|
            0 <= l < lines@.len() && 0 <= k < locations@.len() && #[trigger] lines@[l]
                == #[trigger] locations@[k].line,
{
    let mut l: usize = 0;
    while l < lines.len()
        invariant
            0 <= l <= lines@.len(),
            forall|a: int, k: int| 0 <= a < l && 0 <= k < locations@.len() ==> lines@[a] != locations@[k].line,
        decreases lines@.len() - l,
    {
        let mut k: usize = 0;
        while k < locations.len()
            invariant
                0 <= l < lines@.len(),
                0 <= k <= locations@.len(),
                forall|a: int, b: int|
                    0 <= a < l && 0 <= b < locations@.len() ==> lines@[a] != locations@[b].line,
                forall|b: int| 0 <= b < k ==> lines@[l as int] != locations@[b].line,
            decreases locations@.len() - k,
        {
            if lines[l] == locations[k].line {
                return true;
            }
            k = k + 1;
        }
        l = l + 1;
    }
    false
}

/// Selects scenarios whose locations lie on given lines of given files.
pub struct LinePredicate<'p> {
    line_filters: Vec<(&'p str, Vec<u32>)>,
}

impl<'p> LinePredicate<'p> {
    /// Each file has at most one entry.
    #[verifier::type_invariant]
    spec fn inv(&self) -> bool {
        files_distinct(filters_view(self.line_filters@))
    }

    /// The line filters, file by file.
    pub closed spec fn spec_filters(&self) -> Seq<(Seq<char>, Seq<u32>)> {
        filters_view(self.line_filters@)
    }

    /// Creates the predicate from the lines of each file; each file occurs once.
    pub fn new(line_filters: Vec<(&'p str, Vec<u32>)>) -> (p: LinePredicate<'p>)
        requires
            files_distinct(filters_view(line_filters@)),
        ensures
            p.spec_filters() == filters_view(line_filters@),
    {
        LinePredicate { line_filters }
    }

    /// Whether the scenario of the file `uri` with the given locations is selected.
    pub fn apply(&self, uri: &str, locations: &[Location]) -> (r: bool)
        ensures
            r == lines_match(self.spec_filters(), uri@, locations@),
    {
        proof {
            use_type_invariant(self);
        }
        let ghost filters = self.spec_filters();
        let mut i: usize = 0;
        while i < self.line_filters.len()
            invariant
                filters == filters_view(self.line_filters@),
                files_distinct(filters),
                0 <= i <= self.line_filters@.len(),
                forall|j: int| 0 <= j < i ==> filters[j].0 != uri@,
            decreases self.line_filters@.len() - i,
        {
            if str_eq(self.line_filters[i].0, uri) {
                let lines = &self.line_filters[i].1;
                proof {
                    assert(filters[i as int].0 == uri@);
                    assert(filters[i as int].1 == lines@);
                }
                return lines_hit(lines, locations);
            }
            i = i + 1;
        }
        true
    }
}

} // verus!
