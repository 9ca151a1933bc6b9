//! Conversions of data table rows into types of the user's choice.

use vstd::prelude::*;

use super::row::{Row, RowRef, BodyRow, BodyRowRef};

verus! {

/// Converts a row of the data table to `Self`; called for every row,
/// the first one included.
pub trait FromDataTableRow<'dt>: Sized {
    /// Whether `value` is a conversion of a row with these cells; an
    /// implementation that states nothing of its conversion keeps `true`.
    open spec fn converts_row(cells: Seq<Seq<char>>, value: Self) -> bool {
        true
    }

    /// Performs the conversion of a single table row reference to `Self`.
    fn from(row: RowRef<'dt>) -> (r: Self)
        ensures
            Self::converts_row(row@, r),
    ;
}

impl<'dt> FromDataTableRow<'dt> for Row {
    open spec fn converts_row(cells: Seq<Seq<char>>, value: Row) -> bool {
        value@ == cells
    }

    fn from(row: RowRef<'dt>) -> (r: Row) {
        row.to_owned()
    }
}

/// Converts a body row of the data table (any row but the first) to `Self`,
/// given its cells keyed by the headers of the first row.
pub trait FromDataTableBodyRow<'dt>: Sized {
    /// Whether `value` is a conversion of a body row with these keyed cells;
    /// an implementation that states nothing of its conversion keeps `true`.
    open spec fn converts_body_row(cells: Seq<(Seq<char>, Seq<char>)>, value: Self) -> bool {
        true
    }

    /// Performs the conversion of a single table body row reference to `Self`.
    fn from(body_row: BodyRowRef<'_, 'dt>) -> (r: Self)
        ensures
            Self::converts_body_row(body_row@, r),
    ;
}

impl<'dt> FromDataTableBodyRow<'dt> for BodyRow {
    open spec fn converts_body_row(cells: Seq<(Seq<char>, Seq<char>)>, value: BodyRow) -> bool {
        value@ == cells
    }

    fn from(body_row: BodyRowRef<'_, 'dt>) -> (r: BodyRow) {
        body_row.to_owned()
    }
}

} // verus!
