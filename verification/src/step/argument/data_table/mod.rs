//! Data tables attached to steps.

pub mod cells;
pub mod convert;
pub mod row;

use vstd::prelude::*;

use indexmap::IndexMap;

use self::cells::{ref_entries, find_key, ref_map_with_capacity, ref_map_insert, ref_map_set_value_at};
use self::convert::{FromDataTableRow, FromDataTableBodyRow};
use self::row::{
    BodyRowRef, RowRef, strings_view, strs_view, header_keys, keys_distinct, lemma_find_key,
    lemma_insert_keeps_keys_distinct,
};

verus! {

/// The cells of a table, row by row.
pub open spec fn table_view(rows: Seq<Vec<String>>) -> Seq<Seq<Seq<char>>> {
    rows.map_values(|r: Vec<String>| strings_view(r@))
}

/// The cells of a body row keyed by the headers, column by column.
pub open spec fn keyed_cells(keys: Seq<Seq<char>>, values: Seq<Seq<char>>) -> Seq<(Seq<char>, Seq<char>)> {
    Seq::new(keys.len(), |k: int| (keys[k], values[k]))
}

/// The keys of map entries, in order.
pub open spec fn entry_keys(entries: Seq<(Seq<char>, Seq<char>)>) -> Seq<Seq<char>> {
    entries.map_values(|e: (Seq<char>, Seq<char>)| e.0)
}

/// Whether a table has a header row and every body row has one cell for each
/// distinct header.
pub open spec fn body_rows_fit(table: Seq<Seq<Seq<char>>>) -> bool {
    &&& table.len() > 0
    &&& forall|i: int| 1 <= i < table.len() ==> #[trigger] table[i].len() == header_keys(table[0]).len()
}

/// A data table attached to a step text: all its cells, row by row.
#[derive(Debug, Clone)]
pub struct DataTable {
    rows: Vec<Vec<String>>,
}

impl View for DataTable {
    type V = Seq<Seq<Seq<char>>>;

    closed spec fn view(&self) -> Seq<Seq<Seq<char>>> {
        table_view(self.rows@)
    }
}

impl DataTable {
    /// Creates a table from its cells, row by row.
    pub fn new(rows: Vec<Vec<String>>) -> (t: DataTable)
        ensures
            t@ == table_view(rows@),
    {
        DataTable { rows }
    }

    /// The cells of row `i` as borrowed strings.
    fn row_cells<'s>(&'s self, i: usize) -> (cells: Vec<&'s str>)
        requires
            i < self@.len(),
        ensures
            strs_view(cells@) == self@[i as int],
    {
        let row = &self.rows[i];
        let mut cells: Vec<&'s str> = Vec::new();
        let mut j: usize = 0;
        while j < row.len()
            invariant
                0 <= j <= row@.len(),
                strs_view(cells@) == strings_view(row@).take(j as int),
            decreases row@.len() - j,
        {
            let c = row[j].as_str();
            cells.push(c);
            proof {
                assert(strs_view(cells@) == strs_view(cells@.drop_last()).push(c@));
                assert(strings_view(row@).take(j + 1) == strings_view(row@).take(j as int).push(row@[j as int]@));
            }
            j = j + 1;
        }
        proof {
            assert(strings_view(row@).take(row@.len() as int) == strings_view(row@));
        }
        cells
    }

    /// Returns all cell values, row by row.
    pub fn iter<'s>(&'s self) -> (r: Vec<Vec<&'s str>>)
        ensures
            r@.len() == self@.len(),
            forall|i: int| 0 <= i < r@.len() ==> strs_view(#[trigger] r@[i]@) == self@[i],
    {
        let mut r: Vec<Vec<&'s str>> = Vec::new();
        let mut i: usize = 0;
        while i < self.rows.len()
            invariant
                0 <= i <= self@.len(),
                self@.len() == self.rows@.len(),
                r@.len() == i,
                forall|k: int| 0 <= k < i ==> strs_view(#[trigger] r@[k]@) == self@[k],
            decreases self.rows@.len() - i,
        {
            let cells = self.row_cells(i);
            r.push(cells);
            i = i + 1;
        }
        r
    }

    /// Converts every row, the first one included, with `FromDataTableRow`.
    pub fn rows<'s, T: FromDataTableRow<'s>>(&'s self) -> (r: Vec<T>)
        ensures
            r@.len() == self@.len(),
            forall|i: int| 0 <= i < r@.len() ==> T::converts_row(self@[i], #[trigger] r@[i]),
    {
        let mut r: Vec<T> = Vec::new();
        let mut i: usize = 0;
        while i < self.rows.len()
            invariant
                0 <= i <= self@.len(),
                self@.len() == self.rows@.len(),
                r@.len() == i,
                forall|k: int| 0 <= k < i ==> T::converts_row(self@[k], #[trigger] r@[k]),
            decreases self.rows@.len() - i,
        {
            let row_ref = RowRef::new(self.rows[i].as_slice());
            let value = <T as FromDataTableRow<'s>>::from(row_ref);
            r.push(value);
            i = i + 1;
        }
        r
    }

    /// Converts every body row (every row but the first) with
    /// `FromDataTableBodyRow`, its cells keyed by the headers of the first row.
    /// A header that occurs twice is one key, at its first place.
    pub fn body_rows<'s, T: FromDataTableBodyRow<'s>>(&'s self) -> (r: Vec<T>)
        requires
            body_rows_fit(self@),
        ensures
            r@.len() == self@.len() - 1,
            forall|i: int|
                0 <= i < r@.len() ==> T::converts_body_row(
                    keyed_cells(header_keys(self@[0]), self@[i + 1]),
                    #[trigger] r@[i],
                ),
    {
        let ghost table = self@;
        let ghost keys = header_keys(table[0]);
        let mut cells: IndexMap<&'s str, &'s str> = ref_map_with_capacity(self.columns_len());
        let header = &self.rows[0];
        let mut j: usize = 0;
        while j < header.len()
            invariant
                0 <= j <= header@.len(),
                table == self@,
                strings_view(header@) == table[0],
                keys_distinct(ref_entries(cells)),
                entry_keys(ref_entries(cells)) == header_keys(table[0].take(j as int)),
            decreases header@.len() - j,
        {
            let ghost before = ref_entries(cells);
            let name = header[j].as_str();
            ref_map_insert(&mut cells, name, "");
            proof {
                lemma_find_key(before, name@);
                lemma_insert_keeps_keys_distinct(before, name@, ""@);
                let prefix = table[0].take(j + 1);
                assert(prefix.drop_last() == table[0].take(j as int));
                assert(prefix.last() == name@);
                if find_key(before, name@) >= 0 {
                    assert(entry_keys(before)[find_key(before, name@)] == name@);
                    assert(entry_keys(ref_entries(cells)) == entry_keys(before));
                } else {
                    assert(!entry_keys(before).contains(name@));
                    assert(entry_keys(ref_entries(cells)) == entry_keys(before).push(name@));
                }
            }
            j = j + 1;
        }
        proof {
            assert(table[0].take(header@.len() as int) == table[0]);
        }
        let mut r: Vec<T> = Vec::new();
        let mut i: usize = 1;
        while i < self.rows.len()
            invariant
                1 <= i <= self@.len(),
                table == self@,
                self@.len() == self.rows@.len(),
                body_rows_fit(table),
                keys == header_keys(table[0]),
                keys_distinct(ref_entries(cells)),
                entry_keys(ref_entries(cells)) == keys,
                r@.len() == i - 1,
                forall|k: int|
                    0 <= k < r@.len() ==> T::converts_body_row(
                        keyed_cells(keys, table[k + 1]),
                        #[trigger] r@[k],
                    ),
            decreases self.rows@.len() - i,
        {
            let row = &self.rows[i];
            assert(strings_view(row@) == table[i as int]);
            assert(table[i as int].len() == keys.len());
            let mut k: usize = 0;
            while k < row.len()
                invariant
                    0 <= k <= row@.len(),
                    row@.len() == keys.len(),
                    strings_view(row@) == table[i as int],
                    keys_distinct(ref_entries(cells)),
                    entry_keys(ref_entries(cells)) == keys,
                    forall|m: int| 0 <= m < k ==> #[trigger] ref_entries(cells)[m].1 == table[i as int][m],
                decreases row@.len() - k,
            {
                let ghost before = ref_entries(cells);
                assert(entry_keys(before).len() == keys.len());
                ref_map_set_value_at(&mut cells, k, row[k].as_str());
                proof {
                    assert(entry_keys(ref_entries(cells)) == entry_keys(before));
                    assert forall|a: int, b: int| 0 <= a < b < ref_entries(cells).len() implies
                        ref_entries(cells)[a].0 != ref_entries(cells)[b].0 by {
                        assert(ref_entries(cells)[a].0 == entry_keys(before)[a]);
                        assert(ref_entries(cells)[b].0 == entry_keys(before)[b]);
                    }
                }
                k = k + 1;
            }
            proof {
                assert forall|m: int| 0 <= m < keys.len() implies #[trigger] ref_entries(cells)[m] == keyed_cells(keys, table[i as int])[m] by {
                    assert(ref_entries(cells)[m].0 == entry_keys(ref_entries(cells))[m]);
                }
                assert(ref_entries(cells) == keyed_cells(keys, table[i as int]));
            }
            let body_row = BodyRowRef::new(&cells);
            let value = <T as FromDataTableBodyRow<'s>>::from(body_row);
            r.push(value);
            i = i + 1;
        }
        r
    }

    /// Returns the number of rows of this table (its height).
    pub fn rows_len(&self) -> (n: usize)
        ensures
            n == self@.len(),
    {
        self.rows.len()
    }

    /// Returns the number of columns of this table (its width): the length of
    /// the first row, or 0 for a table without rows.
    pub fn columns_len(&self) -> (n: usize)
        ensures
            self@.len() == 0 ==> n == 0,
            self@.len() > 0 ==> n == self@[0].len(),
    {
        if self.rows.len() == 0 {
            0
        } else {
            self.rows[0].len()
        }
    }
}

} // verus!
