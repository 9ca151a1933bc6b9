use cuke_runner_glue::cuke::Location;
use cuke_runner_glue::filter::line::LinePredicate;

fn location(line: u32) -> Location {
    Location { line, column: 0 }
}

fn line_predicate(uri: &str, lines: Vec<u32>) -> LinePredicate<'_> {
    LinePredicate::new(vec![(uri, lines)])
}

#[test]
fn matches_pickles_from_files_not_in_the_predicate_map() {
    // the argument "path/file.feature another_path/file.feature:8"
    // results in only line predicates only for another_path/file.feature,
    // but all pickles from path/file.feature shall also be executed.
    let predicate = line_predicate("another_path/file.feature", vec![8]);

    assert!(predicate.apply("path/file.feature", &[location(4)]));
}

#[test]
fn matches_pickles_for_any_line_in_predicate() {
    let predicate = line_predicate("path/file.feature", vec![4, 8]);

    assert!(predicate.apply("path/file.feature", &[location(8)]));
}

#[test]
fn matches_pickles_on_any_location_of_the_pickle() {
    let predicate = line_predicate("path/file.feature", vec![8]);

    assert!(predicate.apply("path/file.feature", &[location(4), location(8)]));
}

#[test]
fn does_not_matches_pickles_not_on_any_line_of_the_predicate() {
    let predicate = line_predicate("path/file.feature", vec![10]);

    assert!(!predicate.apply("path/file.feature", &[location(4), location(8)]));
}
