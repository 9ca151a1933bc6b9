use cuke_runner_glue::cuke::{Cuke, Location, Tag};
use cuke_runner_glue::filter::line::LinePredicate;
use cuke_runner_glue::filter::name::NamePredicate;
use cuke_runner_glue::filter::tag::TagPredicate;
use cuke_runner_glue::filter::CukePredicate;

fn cuke() -> Cuke {
    Cuke {
        name: "adding two numbers".to_string(),
        locations: vec![Location { line: 12, column: 3 }],
        tags: vec![Tag { location: Location { line: 11, column: 3 }, name: "@math".to_string() }],
    }
}

#[test]
fn each_filter_kind_reads_its_part_of_the_cuke() {
    assert!(CukePredicate::Line(LinePredicate::new(vec![("a.feature", vec![12])])).apply("a.feature", &cuke()));
    assert!(!CukePredicate::Line(LinePredicate::new(vec![("a.feature", vec![13])])).apply("a.feature", &cuke()));
    assert!(CukePredicate::Line(LinePredicate::new(vec![("a.feature", vec![13])])).apply("b.feature", &cuke()));
    assert!(CukePredicate::Name(NamePredicate::new(&["^adding"])).apply("a.feature", &cuke()));
    assert!(!CukePredicate::Name(NamePredicate::new(&["^two"])).apply("a.feature", &cuke()));
    assert!(CukePredicate::Tag(TagPredicate::new("@math and not @slow").unwrap()).apply("a.feature", &cuke()));
    assert!(!CukePredicate::Tag(TagPredicate::new("@slow").unwrap()).apply("a.feature", &cuke()));
}

#[test]
fn a_malformed_tag_filter_is_refused_with_the_parser_message() {
    assert_eq!(TagPredicate::new("(@math").unwrap_err(), "missing closing parentheses ')'");
}
