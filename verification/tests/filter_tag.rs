use cuke_runner_glue::cuke::{Location, Tag};
use cuke_runner_glue::filter::tag::TagPredicate;

fn create_tags(tags: &[&str]) -> Vec<Tag> {
    tags.iter()
        .map(|tag| Tag {
            location: Location { line: 0, column: 0 },
            name: tag.to_string(),
        })
        .collect()
}

#[test]
fn empty_tag_predicate_matches_with_any_tags() {
    let tags = create_tags(&["@FOO"]);
    let predicate = TagPredicate::new("").unwrap();

    assert!(predicate.apply(&tags));
}

#[test]
fn single_tag_predicate_does_not_match_with_no_tags() {
    let tags = create_tags(&[]);
    let predicate = TagPredicate::new("@FOO").unwrap();

    assert!(!predicate.apply(&tags));
}

#[test]
fn single_tag_predicate_matches_with_same_single_tag() {
    let tags = create_tags(&["@FOO"]);
    let predicate = TagPredicate::new("@FOO").unwrap();

    assert!(predicate.apply(&tags));
}

#[test]
fn single_tag_predicate_matches_with_more_tags() {
    let tags = create_tags(&["@FOO", "@BAR"]);
    let predicate = TagPredicate::new("@FOO").unwrap();

    assert!(predicate.apply(&tags));
}

#[test]
fn single_tag_predicate_does_not_match_with_different_single_tag() {
    let tags = create_tags(&["@BAR"]);
    let predicate = TagPredicate::new("@FOO").unwrap();

    assert!(!predicate.apply(&tags));
}

#[test]
fn not_tag_predicate_matches_with_no_tags() {
    let tags = create_tags(&[]);
    let predicate = TagPredicate::new("not @FOO").unwrap();

    assert!(predicate.apply(&tags));
}

#[test]
fn not_tag_predicate_does_not_match_with_same_single_tag() {
    let tags = create_tags(&["@FOO"]);
    let predicate = TagPredicate::new("not @FOO").unwrap();

    assert!(!predicate.apply(&tags));
}

#[test]
fn not_tag_predicate_matches_with_different_single_tag() {
    let tags = create_tags(&["@BAR"]);
    let predicate = TagPredicate::new("not @FOO").unwrap();

    assert!(predicate.apply(&tags));
}

#[test]
fn and_tag_predicate_matches_with_all_tags() {
    let tags = create_tags(&["@FOO", "@BAR"]);
    let predicate = TagPredicate::new("@FOO and @BAR").unwrap();

    assert!(predicate.apply(&tags));
}

#[test]
fn and_tag_predicate_does_not_match_with_one_of_the_tags() {
    let tags = create_tags(&["@FOO"]);
    let predicate = TagPredicate::new("@FOO and @BAR").unwrap();

    assert!(!predicate.apply(&tags));
}

#[test]
fn or_tag_predicate_matches_with_one_of_the_tags() {
    let tags = create_tags(&["@FOO"]);
    let predicate = TagPredicate::new("@FOO or @BAR").unwrap();

    assert!(predicate.apply(&tags));
}

#[test]
fn or_tag_predicate_does_not_match_none_of_the_tags() {
    let tags = create_tags(&[]);
    let predicate = TagPredicate::new("@FOO or @BAR").unwrap();

    assert!(!predicate.apply(&tags));
}
