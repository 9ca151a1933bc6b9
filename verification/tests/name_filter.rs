use cuke_runner_glue::filter::name::NamePredicate;

#[test]
fn anchored_name_pattern_matches_exact_name() {
    let predicate = NamePredicate::new(&["^a pickle name$"]);

    assert!(predicate.apply("a pickle name"));
}

#[test]
fn anchored_name_pattern_does_not_match_part_of_name() {
    let predicate = NamePredicate::new(&["^a pickle name$"]);

    assert!(!predicate.apply("a pickle name with suffix"));
}

#[test]
fn non_anchored_name_pattern_matches_part_of_name() {
    let predicate = NamePredicate::new(&["a pickle name"]);

    assert!(predicate.apply("a pickle name with suffix"));
}

#[test]
fn wildcard_name_pattern_matches_part_of_name() {
    let predicate = NamePredicate::new(&["a .* name"]);

    assert!(predicate.apply("a pickleEvent name"));
}

#[test]
fn invalid_name_pattern_is_refused() {
    assert!(NamePredicate::try_new(&["a (name"]).is_none());
    assert!(NamePredicate::try_new(&["a name", "[b"]).is_none());
    assert!(NamePredicate::try_new(&["a name"]).is_some());
}

#[test]
fn no_pattern_matches_nothing() {
    let predicate = NamePredicate::new(&[]);

    assert!(!predicate.apply("a pickle name"));
}

#[test]
fn any_of_several_patterns_matches() {
    let predicate = NamePredicate::new(&["^first$", "second"]);

    assert!(predicate.apply("first"));
    assert!(predicate.apply("the second one"));
    assert!(!predicate.apply("third"));
}
