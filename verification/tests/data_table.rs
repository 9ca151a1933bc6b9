use cuke_runner_glue::step::argument::data_table::convert::{FromDataTableBodyRow, FromDataTableRow};
use cuke_runner_glue::step::argument::data_table::row::{BodyRow, BodyRowRef, Row, RowRef};
use cuke_runner_glue::step::argument::data_table::DataTable;

const EMPTY_TABLE: &[&[&str]] = &[];
const DEFAULT_NON_EMPTY_TABLE: &[&[&str]] = &[
    &["first", "second", "operation"],
    &["1", "4", "+"],
    &["2", "5", "*"],
    &["7", "6", "-"],
];

fn create_table(table: &[&[&str]]) -> DataTable {
    DataTable::new(
        table
            .iter()
            .map(|row| row.iter().map(|cell| cell.to_string()).collect())
            .collect(),
    )
}

#[test]
fn rows_len_0() {
    let data_table = create_table(EMPTY_TABLE);

    assert_eq!(data_table.rows_len(), 0);
}

#[test]
fn rows_len_4() {
    let data_table = create_table(DEFAULT_NON_EMPTY_TABLE);

    assert_eq!(data_table.rows_len(), 4);
}

#[test]
fn columns_len_0() {
    let data_table = create_table(EMPTY_TABLE);

    assert_eq!(data_table.columns_len(), 0);
}

#[test]
fn columns_len_3() {
    let data_table = create_table(DEFAULT_NON_EMPTY_TABLE);

    assert_eq!(data_table.columns_len(), 3);
}

#[test]
fn iter() {
    let data_table = create_table(DEFAULT_NON_EMPTY_TABLE);

    assert_eq!(*data_table.iter().first().unwrap().first().unwrap(), "first");
    assert_eq!(*data_table.iter().last().unwrap().last().unwrap(), "-");
}

#[test]
fn rows() {
    let data_table = create_table(DEFAULT_NON_EMPTY_TABLE);

    assert_eq!(data_table.rows::<Row>().len(), 4);
    assert_eq!(&data_table.rows::<Row>()[0][1], "second");
}

#[test]
fn custom_rows() {
    let data_table = create_table(DEFAULT_NON_EMPTY_TABLE);

    assert_eq!(data_table.rows::<TestRow>().len(), 4);

    let mut test_row_iter = data_table.rows::<TestRow>().into_iter();

    let header_test_row = test_row_iter.next().unwrap();
    assert_eq!(header_test_row.first, "first");
    assert_eq!(header_test_row.second, "second");
    assert_eq!(header_test_row.operation, "operation");
    let body_test_row = test_row_iter.next().unwrap();
    assert_eq!(body_test_row.first, "1");
    assert_eq!(body_test_row.second, "4");
    assert_eq!(body_test_row.operation, "+");

    let _collect_works = test_row_iter.collect::<Vec<_>>();
}

#[test]
fn body_rows() {
    let data_table = create_table(DEFAULT_NON_EMPTY_TABLE);

    assert_eq!(data_table.body_rows::<BodyRow>().len(), 3);
    assert_eq!(&data_table.body_rows::<BodyRow>()[0]["operation"], "+");
}

#[test]
fn custom_body_rows() {
    let data_table = create_table(DEFAULT_NON_EMPTY_TABLE);

    assert_eq!(data_table.body_rows::<BodyTestRowIndexedStr>().len(), 3);

    let mut test_row_iter = data_table.body_rows::<BodyTestRowIndexedStr>().into_iter();
    let first_row = test_row_iter.next().unwrap();
    assert_eq!(first_row.first, "1");
    assert_eq!(first_row.second, "4");
    assert_eq!(first_row.operation, "+");
    let second_row = test_row_iter.next().unwrap();
    assert_eq!(second_row.first, "2");
    assert_eq!(second_row.second, "5");
    assert_eq!(second_row.operation, "*");

    let mut test_row_iter = data_table.body_rows::<BodyTestRowIndexedUsize>().into_iter();
    let first_row = test_row_iter.next().unwrap();
    assert_eq!(first_row.first, "1");
    assert_eq!(first_row.second, "4");
    assert_eq!(first_row.operation, "+");
    let second_row = test_row_iter.next().unwrap();
    assert_eq!(second_row.first, "2");
    assert_eq!(second_row.second, "5");
    assert_eq!(second_row.operation, "*");

    let mut test_row_iter = data_table.body_rows::<BodyTestRowByHeaderName>().into_iter();
    let first_row = test_row_iter.next().unwrap();
    assert_eq!(first_row.first, "1");
    assert_eq!(first_row.second, "4");
    assert_eq!(first_row.operation, "+");
    let second_row = test_row_iter.next().unwrap();
    assert_eq!(second_row.first, "2");
    assert_eq!(second_row.second, "5");
    assert_eq!(second_row.operation, "*");

    let mut test_row_iter = data_table.body_rows::<BodyTestRowByValueAtIndex>().into_iter();
    let first_row = test_row_iter.next().unwrap();
    assert_eq!(first_row.first, "1");
    assert_eq!(first_row.second, "4");
    assert_eq!(first_row.operation, "+");
    let second_row = test_row_iter.next().unwrap();
    assert_eq!(second_row.first, "2");
    assert_eq!(second_row.second, "5");
    assert_eq!(second_row.operation, "*");

    let _collect_works = test_row_iter.collect::<Vec<_>>();
}

#[test]
fn body_rows_merge_repeated_headers_into_the_first_place() {
    let data_table = create_table(&[&["a", "b", "a"], &["1", "2"]]);
    let rows = data_table.body_rows::<BodyRow>();

    assert_eq!(rows.len(), 1);
    assert_eq!(rows[0].len(), 2);
    assert_eq!(rows[0].header_at_index(0), Some("a"));
    assert_eq!(rows[0].value("a"), Some("1"));
    assert_eq!(rows[0].value("b"), Some("2"));
}

#[test]
fn body_rows_of_a_header_only_table_are_none() {
    let data_table = create_table(&[&["first", "second"]]);

    assert_eq!(data_table.body_rows::<BodyRow>().len(), 0);
}

#[test]
fn row_lookups_past_the_end_give_nothing() {
    let data_table = create_table(DEFAULT_NON_EMPTY_TABLE);
    let rows = data_table.rows::<Row>();
    let body_rows = data_table.body_rows::<BodyRow>();

    assert_eq!(rows[0].value_at_index(3), None);
    assert_eq!(rows[0].len(), 3);
    assert_eq!(rows[3].iter(), vec!["7", "6", "-"]);
    assert_eq!(body_rows[2].value("missing"), None);
    assert!(!body_rows[2].contains_header("missing"));
    assert!(body_rows[2].contains_header("second"));
    assert_eq!(body_rows[2].header_and_value_at_index(1), Some(("second", "6")));
    assert_eq!(body_rows[2].iter(), vec![("first", "7"), ("second", "6"), ("operation", "-")]);
}

struct TestRow<'dt> {
    first: &'dt str,
    second: &'dt str,
    operation: &'dt str,
}

impl<'dt> FromDataTableRow<'dt> for TestRow<'dt> {
    fn from(row: RowRef<'dt>) -> Self {
        TestRow {
            first: row.value_at_index(0).unwrap(),
            second: row.value_at_index(1).unwrap(),
            operation: row.value_at_index(2).unwrap(),
        }
    }
}

struct BodyTestRowIndexedStr<'dt> {
    first: &'dt str,
    second: &'dt str,
    operation: &'dt str,
}

impl<'dt> FromDataTableBodyRow<'dt> for BodyTestRowIndexedStr<'dt> {
    fn from(row: BodyRowRef<'_, 'dt>) -> Self {
        BodyTestRowIndexedStr {
            first: row["first"],
            second: row["second"],
            operation: row["operation"],
        }
    }
}

struct BodyTestRowIndexedUsize<'dt> {
    first: &'dt str,
    second: &'dt str,
    operation: &'dt str,
}

impl<'dt> FromDataTableBodyRow<'dt> for BodyTestRowIndexedUsize<'dt> {
    fn from(row: BodyRowRef<'_, 'dt>) -> Self {
        BodyTestRowIndexedUsize {
            first: row[0],
            second: row[1],
            operation: row[2],
        }
    }
}

struct BodyTestRowByHeaderName<'dt> {
    first: &'dt str,
    second: &'dt str,
    operation: &'dt str,
}

impl<'dt> FromDataTableBodyRow<'dt> for BodyTestRowByHeaderName<'dt> {
    fn from(row: BodyRowRef<'_, 'dt>) -> Self {
        BodyTestRowByHeaderName {
            first: row.value("first").unwrap(),
            second: row.value("second").unwrap(),
            operation: row.value("operation").unwrap(),
        }
    }
}

struct BodyTestRowByValueAtIndex<'dt> {
    first: &'dt str,
    second: &'dt str,
    operation: &'dt str,
}

impl<'dt> FromDataTableBodyRow<'dt> for BodyTestRowByValueAtIndex<'dt> {
    fn from(row: BodyRowRef<'_, 'dt>) -> Self {
        BodyTestRowByValueAtIndex {
            first: row.value_at_index(0).unwrap(),
            second: row.value_at_index(1).unwrap(),
            operation: row.value_at_index(2).unwrap(),
        }
    }
}
