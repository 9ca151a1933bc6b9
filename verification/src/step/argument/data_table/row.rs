//! Rows of a data table, borrowed or owned, with or without their headers.

use vstd::prelude::*;

use indexmap::IndexMap;

use super::cells::{
    ref_entries, owned_entries, find_key, lookup, insert_entry, ref_map_len, ref_map_get_index,
    ref_map_get, ref_map_contains_key, owned_map_with_capacity, owned_map_insert, owned_map_len,
    owned_map_get_index, owned_map_get, owned_map_contains_key,
};
use crate::text::owned;

verus! {

/// The characters of each borrowed string.
pub open spec fn strs_view(v: Seq<&str>) -> Seq<Seq<char>> {
    v.map_values(|s: &str| s@)
}

/// The characters of each owned string.
pub open spec fn strings_view(v: Seq<String>) -> Seq<Seq<char>> {
    v.map_values(|s: String| s@)
}

/// The characters of each pair of borrowed strings.
pub open spec fn pairs_view(v: Seq<(&str, &str)>) -> Seq<(Seq<char>, Seq<char>)> {
    v.map_values(|p: (&str, &str)| (p.0@, p.1@))
}

/// Whether no two entries have the same key.
pub open spec fn keys_distinct(entries: Seq<(Seq<char>, Seq<char>)>) -> bool {
    forall|i: int, j: int| 0 <= i < j < entries.len() ==> entries[i].0 != entries[j].0
}

/// Reference to a data table row with its cells.
#[derive(Debug)]
pub struct RowRef<'dt> {
    cells: &'dt [String],
}

impl<'dt> View for RowRef<'dt> {
    type V = Seq<Seq<char>>;

    closed spec fn view(&self) -> Seq<Seq<char>> {
        strings_view(self.cells@)
    }
}

impl<'dt> RowRef<'dt> {
    /// A reference to the given cells.
    pub(crate) fn new(cells: &'dt [String]) -> (r: RowRef<'dt>)
        ensures
            r@ == strings_view(cells@),
    {
        RowRef { cells }
    }

    /// Returns the number of cells in this row.
    pub fn len(&self) -> (n: usize)
        ensures
            n == self@.len(),
    {
        self.cells.len()
    }

    /// Returns the cell value at an index, `None` past the end.
    pub fn value_at_index(&self, index: usize) -> (v: Option<&'dt str>)
        ensures
            index < self@.len() <==> v is Some,
            v matches Some(s) ==> s@ == self@[index as int],
    {
        if index < self.cells.len() {
            Some(self.cells[index].as_str())
        } else {
            None
        }
    }

    /// Returns all cell values of this row, in order.
    pub fn iter(&self) -> (values: Vec<&'dt str>)
        ensures
            strs_view(values@) == self@,
    {
        let mut values: Vec<&'dt str> = Vec::new();
        let mut i: usize = 0;
        while i < self.cells.len()
            invariant
                0 <= i <= self.cells@.len(),
                strs_view(values@) == strings_view(self.cells@).take(i as int),
            decreases self.cells@.len() - i,
        {
            let v = self.cells[i].as_str();
            values.push(v);
            proof {
                assert(strings_view(self.cells@).take(i + 1) == strings_view(self.cells@).take(i as int).push(
                    self.cells@[i as int]@,
                ));
                assert(strs_view(values@) == strs_view(values@.drop_last()).push(v@));
            }
            i = i + 1;
        }
        proof {
            assert(strings_view(self.cells@).take(self.cells@.len() as int) == strings_view(self.cells@));
        }
        values
    }

    /// Detaches the data of this row, allocating every cell.
    pub fn to_owned(&self) -> (row: Row)
        ensures
            row@ == self@,
    {
        Row::new(self)
    }
}

/// Data table row with its cells, owning them.
#[derive(Debug)]
pub struct Row {
    cells: Vec<String>,
}

impl View for Row {
    type V = Seq<Seq<char>>;

    closed spec fn view(&self) -> Seq<Seq<char>> {
        strings_view(self.cells@)
    }
}

impl Row {
    /// Copies the cells of a row reference.
    fn new(row: &RowRef<'_>) -> (r: Row)
        ensures
            r@ == row@,
    {
        let mut cells: Vec<String> = Vec::new();
        let mut i: usize = 0;
        while i < row.cells.len()
            invariant
                0 <= i <= row.cells@.len(),
                strings_view(cells@) == strings_view(row.cells@).take(i as int),
            decreases row.cells@.len() - i,
        {
            let cell = row.cells[i].clone();
            cells.push(cell);
            proof {
                assert(strings_view(row.cells@).take(i + 1) == strings_view(row.cells@).take(i as int).push(
                    row.cells@[i as int]@,
                ));
                assert(strings_view(cells@) == strings_view(cells@.drop_last()).push(cell@));
            }
            i = i + 1;
        }
        proof {
            assert(strings_view(row.cells@).take(row.cells@.len() as int) == strings_view(row.cells@));
        }
        Row { cells }
    }

    /// Returns the number of cells in this row.
    pub fn len(&self) -> (n: usize)
        ensures
            n == self@.len(),
    {
        self.cells.len()
    }

    /// Returns the cell value at an index, `None` past the end.
    pub fn value_at_index(&self, index: usize) -> (v: Option<&str>)
        ensures
            index < self@.len() <==> v is Some,
            v matches Some(s) ==> s@ == self@[index as int],
    {
        if index < self.cells.len() {
            Some(self.cells[index].as_str())
        } else {
            None
        }
    }

    /// Returns all cell values of this row, in order.
    pub fn iter(&self) -> (values: Vec<&str>)
        ensures
            strs_view(values@) == self@,
    {
        let mut values: Vec<&str> = Vec::new();
        let mut i: usize = 0;
        while i < self.cells.len()
            invariant
                0 <= i <= self.cells@.len(),
                strs_view(values@) == strings_view(self.cells@).take(i as int),
            decreases self.cells@.len() - i,
        {
            let v = self.cells[i].as_str();
            values.push(v);
            proof {
                assert(strings_view(self.cells@).take(i + 1) == strings_view(self.cells@).take(i as int).push(
                    self.cells@[i as int]@,
                ));
                assert(strs_view(values@) == strs_view(values@.drop_last()).push(v@));
            }
            i = i + 1;
        }
        proof {
            assert(strings_view(self.cells@).take(self.cells@.len() as int) == strings_view(self.cells@));
        }
        values
    }
}

impl<'dt> std::ops::Index<usize> for RowRef<'dt> {
    type Output = str;

    fn index(&self, index: usize) -> (v: &str)
        ensures
            v@ == self@[index as int],
    {
        self.cells[index].as_str()
    }
}

impl<'dt> vstd::std_specs::core::IndexSpecImpl<usize> for RowRef<'dt> {
    open spec fn index_req(&self, index: &usize) -> bool {
        *index < self@.len()
    }
}

impl std::ops::Index<usize> for Row {
    type Output = str;

    fn index(&self, index: usize) -> (v: &str)
        ensures
            v@ == self@[index as int],
    {
        self.cells[index].as_str()
    }
}

impl vstd::std_specs::core::IndexSpecImpl<usize> for Row {
    open spec fn index_req(&self, index: &usize) -> bool {
        *index < self@.len()
    }
}

/// The distinct keys of a sequence of headers, in order of first occurrence:
/// the keys a map gets when the headers are inserted one after the other.
pub open spec fn header_keys(headers: Seq<Seq<char>>) -> Seq<Seq<char>>
    decreases headers.len(),
{
    if headers.len() == 0 {
        Seq::empty()
    } else {
        let prev = header_keys(headers.drop_last());
        if prev.contains(headers.last()) {
            prev
        } else {
            prev.push(headers.last())
        }
    }
}

/// The keys a table's headers give hold each header once, and no other.
pub proof fn lemma_header_keys(headers: Seq<Seq<char>>)
    ensures
        forall|i: int, j: int|
            0 <= i < j < header_keys(headers).len() ==> header_keys(headers)[i] != header_keys(headers)[j],
        forall|h: Seq<char>| headers.contains(h) <==> header_keys(headers).contains(h),
    decreases headers.len(),
{
    if headers.len() > 0 {
        let rest = headers.drop_last();
        lemma_header_keys(rest);
        let prev = header_keys(rest);
        let last = headers.last();
        assert forall|h: Seq<char>| headers.contains(h) <==> header_keys(headers).contains(h) by {
            assert(headers.contains(h) <==> (rest.contains(h) || h == last)) by {
                if headers.contains(h) {
                    let k = choose|k: int| 0 <= k < headers.len() && headers[k] == h;
                    if k < headers.len() - 1 {
                        assert(rest[k] == h);
                    }
                }
                if rest.contains(h) {
                    let k = choose|k: int| 0 <= k < rest.len() && rest[k] == h;
                    assert(headers[k] == h);
                }
                if h == last {
                    assert(headers[headers.len() - 1] == h);
                }
            }
            assert(prev.push(last).contains(h) <==> (prev.contains(h) || h == last)) by {
                if prev.push(last).contains(h) {
                    let k = choose|k: int| 0 <= k < prev.len() + 1 && prev.push(last)[k] == h;
                    if k < prev.len() {
                        assert(prev[k] == h);
                    }
                }
                if prev.contains(h) {
                    let k = choose|k: int| 0 <= k < prev.len() && prev[k] == h;
                    assert(prev.push(last)[k] == h);
                }
                if h == last {
                    assert(prev.push(last)[prev.len() as int] == h);
                }
            }
        }
    }
}

/// `find_key` finds the first entry with the key, and no entry has the key
/// where it finds none.
pub proof fn lemma_find_key(entries: Seq<(Seq<char>, Seq<char>)>, key: Seq<char>)
    ensures
        -1 <= find_key(entries, key) < entries.len(),
        find_key(entries, key) >= 0 ==> entries[find_key(entries, key)].0 == key,
        forall|j: int| 0 <= j < entries.len() && (find_key(entries, key) < 0 || j < find_key(entries, key))
            ==> entries[j].0 != key,
    decreases entries.len(),
{
    if entries.len() > 0 {
        let prev = entries.drop_last();
        lemma_find_key(prev, key);
        assert forall|j: int| 0 <= j < prev.len() implies prev[j] == entries[j] by {}
    }
}

/// Inserting keeps the keys of a map distinct.
pub proof fn lemma_insert_keeps_keys_distinct(entries: Seq<(Seq<char>, Seq<char>)>, key: Seq<char>, value: Seq<char>)
    requires
        keys_distinct(entries),
    ensures
        keys_distinct(insert_entry(entries, key, value)),
        find_key(entries, key) < 0 ==> insert_entry(entries, key, value) == entries.push((key, value)),
{
    lemma_find_key(entries, key);
}

/// In a map with distinct keys, the entry with a key is the only one with it.
pub proof fn lemma_find_key_distinct(entries: Seq<(Seq<char>, Seq<char>)>, i: int)
    requires
        keys_distinct(entries),
        0 <= i < entries.len(),
    ensures
        find_key(entries, entries[i].0) == i,
{
    lemma_find_key(entries, entries[i].0);
}

/// Every cell of a row whose headers are distinct is found by its header:
/// the value looked up by the header at an index is the value at that index.
pub proof fn lemma_cell_found_by_header(cells: Seq<(Seq<char>, Seq<char>)>, k: int)
    requires
        keys_distinct(cells),
        0 <= k < cells.len(),
    ensures
        lookup(cells, cells[k].0) == Some(cells[k].1),
{
    lemma_find_key_distinct(cells, k);
}

/// Reference to a data table body row: its cells keyed by the headers of the
/// first row.
#[derive(Debug)]
pub struct BodyRowRef<'r, 'dt> {
    cells: &'r IndexMap<&'dt str, &'dt str>,
}

impl<'r, 'dt> View for BodyRowRef<'r, 'dt> {
    type V = Seq<(Seq<char>, Seq<char>)>;

    closed spec fn view(&self) -> Seq<(Seq<char>, Seq<char>)> {
        ref_entries(*self.cells)
    }
}

impl<'r, 'dt> BodyRowRef<'r, 'dt> {
    /// No two cells have the same header.
    #[verifier::type_invariant]
    spec fn inv(&self) -> bool {
        keys_distinct(ref_entries(*self.cells))
    }

    /// A reference to cells keyed by distinct headers.
    pub(crate) fn new(cells: &'r IndexMap<&'dt str, &'dt str>) -> (r: BodyRowRef<'r, 'dt>)
        requires
            keys_distinct(ref_entries(*cells)),
        ensures
            r@ == ref_entries(*cells),
    {
        BodyRowRef { cells }
    }

    /// Returns the number of cells in this row, which is also the number of
    /// headers; no two of them are the same.
    pub fn len(&self) -> (n: usize)
        ensures
            n == self@.len(),
            keys_distinct(self@),
    {
        proof {
            use_type_invariant(self);
        }
        ref_map_len(self.cells)
    }

    /// Returns the header and the value at an index, `None` past the end.
    pub fn header_and_value_at_index(&self, index: usize) -> (r: Option<(&'dt str, &'dt str)>)
        ensures
            index < self@.len() <==> r is Some,
            r matches Some(e) ==> e.0@ == self@[index as int].0 && e.1@ == self@[index as int].1,
    {
        match ref_map_get_index(self.cells, index) {
            Some((header, value)) => Some((*header, *value)),
            None => None,
        }
    }

    /// Returns the header at an index, `None` past the end.
    pub fn header_at_index(&self, index: usize) -> (r: Option<&'dt str>)
        ensures
            index < self@.len() <==> r is Some,
            r matches Some(h) ==> h@ == self@[index as int].0,
    {
        match ref_map_get_index(self.cells, index) {
            Some((header, _value)) => Some(*header),
            None => None,
        }
    }

    /// Returns the cell value at an index, `None` past the end.
    pub fn value_at_index(&self, index: usize) -> (r: Option<&'dt str>)
        ensures
            index < self@.len() <==> r is Some,
            r matches Some(v) ==> v@ == self@[index as int].1,
    {
        match ref_map_get_index(self.cells, index) {
            Some((_header, value)) => Some(*value),
            None => None,
        }
    }

    /// Returns the cell value in the column of the given header, `None` where
    /// no column has it.
    pub fn value(&self, header: &str) -> (r: Option<&'dt str>)
        ensures
            lookup(self@, header@) is Some <==> r is Some,
            r matches Some(v) ==> lookup(self@, header@) == Some(v@),
    {
        match ref_map_get(self.cells, header) {
            Some(value) => Some(*value),
            None => None,
        }
    }

    /// Whether the table has a column with the given header.
    pub fn contains_header(&self, header: &str) -> (r: bool)
        ensures
            r == exists|i: int| 0 <= i < self@.len() && #[trigger] self@[i].0 == header@,
    {
        proof {
            lemma_find_key(self@, header@);
        }
        ref_map_contains_key(self.cells, header)
    }

    /// Returns all headers with their values, in column order.
    pub fn iter(&self) -> (r: Vec<(&'dt str, &'dt str)>)
        ensures
            pairs_view(r@) == self@,
    {
        let mut r: Vec<(&'dt str, &'dt str)> = Vec::new();
        let n = ref_map_len(self.cells);
        let mut i: usize = 0;
        while i < n
            invariant
                n == ref_entries(*self.cells).len(),
                0 <= i <= n,
                pairs_view(r@) == ref_entries(*self.cells).take(i as int),
            decreases n - i,
        {
            let entry = self.header_and_value_at_index(i);
            let (header, value) = entry.unwrap();
            r.push((header, value));
            proof {
                assert(pairs_view(r@) == pairs_view(r@.drop_last()).push((header@, value@)));
                assert(ref_entries(*self.cells).take(i + 1) == ref_entries(*self.cells).take(i as int).push(
                    ref_entries(*self.cells)[i as int],
                ));
            }
            i = i + 1;
        }
        proof {
            assert(ref_entries(*self.cells).take(n as int) == ref_entries(*self.cells));
        }
        r
    }

    /// Detaches the data of this row, allocating every header and every cell.
    pub fn to_owned(&self) -> (row: BodyRow)
        ensures
            row@ == self@,
    {
        BodyRow::new(self)
    }
}

impl<'r, 'dt> std::ops::Index<usize> for BodyRowRef<'r, 'dt> {
    type Output = &'dt str;

    fn index(&self, index: usize) -> (v: &&'dt str)
        ensures
            (*v)@ == self@[index as int].1,
    {
        let (_header, value) = ref_map_get_index(self.cells, index).unwrap();
        value
    }
}

impl<'r, 'dt> vstd::std_specs::core::IndexSpecImpl<usize> for BodyRowRef<'r, 'dt> {
    open spec fn index_req(&self, index: &usize) -> bool {
        *index < self@.len()
    }
}

impl<'r, 'dt, 'h> std::ops::Index<&'h str> for BodyRowRef<'r, 'dt> {
    type Output = &'dt str;

    fn index(&self, index: &'h str) -> (v: &&'dt str)
        ensures
            lookup(self@, index@) == Some((*v)@),
    {
        ref_map_get(self.cells, index).unwrap()
    }
}

impl<'r, 'dt, 'h> vstd::std_specs::core::IndexSpecImpl<&'h str> for BodyRowRef<'r, 'dt> {
    open spec fn index_req(&self, index: &&'h str) -> bool {
        lookup(self@, (*index)@) is Some
    }
}

/// Data table body row with its cells keyed by the headers, owning them.
#[derive(Debug)]
pub struct BodyRow {
    cells: IndexMap<String, String>,
}

impl View for BodyRow {
    type V = Seq<(Seq<char>, Seq<char>)>;

    closed spec fn view(&self) -> Seq<(Seq<char>, Seq<char>)> {
        owned_entries(self.cells)
    }
}

impl BodyRow {
    /// No two cells have the same header.
    #[verifier::type_invariant]
    spec fn inv(&self) -> bool {
        keys_distinct(owned_entries(self.cells))
    }

    /// Copies the headers and cells of a body row reference.
    fn new(body_row: &BodyRowRef<'_, '_>) -> (r: BodyRow)
        ensures
            r@ == body_row@,
    {
        proof {
            use_type_invariant(body_row);
        }
        let n = body_row.len();
        let mut cells = owned_map_with_capacity(n);
        let mut i: usize = 0;
        while i < n
            invariant
                n == body_row@.len(),
                keys_distinct(body_row@),
                0 <= i <= n,
                owned_entries(cells) == body_row@.take(i as int),
            decreases n - i,
        {
            let (header, value) = body_row.header_and_value_at_index(i).unwrap();
            let ghost before = owned_entries(cells);
            proof {
                lemma_find_key(before, header@);
                assert forall|j: int| 0 <= j < before.len() implies before[j].0 != header@ by {
                    assert(before[j] == body_row@[j]);
                }
            }
            owned_map_insert(&mut cells, owned(header), owned(value));
            proof {
                lemma_insert_keeps_keys_distinct(before, header@, value@);
                assert(body_row@.take(i + 1) == body_row@.take(i as int).push(body_row@[i as int]));
            }
            i = i + 1;
        }
        proof {
            assert(body_row@.take(n as int) == body_row@);
        }
        BodyRow { cells }
    }

    /// Returns the number of cells in this row, which is also the number of
    /// headers; no two of them are the same.
    pub fn len(&self) -> (n: usize)
        ensures
            n == self@.len(),
            keys_distinct(self@),
    {
        proof {
            use_type_invariant(self);
        }
        owned_map_len(&self.cells)
    }

    /// Returns the header and the value at an index, `None` past the end.
    pub fn header_and_value_at_index(&self, index: usize) -> (r: Option<(&str, &str)>)
        ensures
            index < self@.len() <==> r is Some,
            r matches Some(e) ==> e.0@ == self@[index as int].0 && e.1@ == self@[index as int].1,
    {
        owned_map_get_index(&self.cells, index)
    }

    /// Returns the header at an index, `None` past the end.
    pub fn header_at_index(&self, index: usize) -> (r: Option<&str>)
        ensures
            index < self@.len() <==> r is Some,
            r matches Some(h) ==> h@ == self@[index as int].0,
    {
        match owned_map_get_index(&self.cells, index) {
            Some((header, _value)) => Some(header),
            None => None,
        }
    }

    /// Returns the cell value at an index, `None` past the end.
    pub fn value_at_index(&self, index: usize) -> (r: Option<&str>)
        ensures
            index < self@.len() <==> r is Some,
            r matches Some(v) ==> v@ == self@[index as int].1,
    {
        match owned_map_get_index(&self.cells, index) {
            Some((_header, value)) => Some(value),
            None => None,
        }
    }

    /// Returns the cell value in the column of the given header, `None` where
    /// no column has it.
    pub fn value(&self, header: &str) -> (r: Option<&str>)
        ensures
            lookup(self@, header@) is Some <==> r is Some,
            r matches Some(v) ==> lookup(self@, header@) == Some(v@),
    {
        owned_map_get(&self.cells, header)
    }

    /// Whether the row has a column with the given header.
    pub fn contains_header(&self, header: &str) -> (r: bool)
        ensures
            r == exists|i: int| 0 <= i < self@.len() && #[trigger] self@[i].0 == header@,
    {
        proof {
            lemma_find_key(self@, header@);
        }
        owned_map_contains_key(&self.cells, header)
    }

    /// Returns all headers with their values, in column order.
    pub fn iter(&self) -> (r: Vec<(&str, &str)>)
        ensures
            pairs_view(r@) == self@,
    {
        let mut r: Vec<(&str, &str)> = Vec::new();
        let n = owned_map_len(&self.cells);
        let mut i: usize = 0;
        while i < n
            invariant
                n == owned_entries(self.cells).len(),
                0 <= i <= n,
                pairs_view(r@) == owned_entries(self.cells).take(i as int),
            decreases n - i,
        {
            let (header, value) = owned_map_get_index(&self.cells, i).unwrap();
            r.push((header, value));
            proof {
                assert(pairs_view(r@) == pairs_view(r@.drop_last()).push((header@, value@)));
                assert(owned_entries(self.cells).take(i + 1) == owned_entries(self.cells).take(i as int).push(
                    owned_entries(self.cells)[i as int],
                ));
            }
            i = i + 1;
        }
        proof {
            assert(owned_entries(self.cells).take(n as int) == owned_entries(self.cells));
        }
        r
    }
}

impl std::ops::Index<usize> for BodyRow {
    type Output = str;

    fn index(&self, index: usize) -> (v: &str)
        ensures
            v@ == self@[index as int].1,
    {
        let (_header, value) = owned_map_get_index(&self.cells, index).unwrap();
        value
    }
}

impl vstd::std_specs::core::IndexSpecImpl<usize> for BodyRow {
    open spec fn index_req(&self, index: &usize) -> bool {
        *index < self@.len()
    }
}

impl<'h> std::ops::Index<&'h str> for BodyRow {
    type Output = str;

    fn index(&self, index: &'h str) -> (v: &str)
        ensures
            lookup(self@, index@) == Some(v@),
    {
        owned_map_get(&self.cells, index).unwrap()
    }
}

impl<'h> vstd::std_specs::core::IndexSpecImpl<&'h str> for BodyRow {
    open spec fn index_req(&self, index: &&'h str) -> bool {
        lookup(self@, (*index)@) is Some
    }
}

} // verus!
