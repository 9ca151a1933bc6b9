use cuke_runner_glue::cuke::{Location, Tag};
use cuke_runner_glue::hook::tag_predicate::parser::{parse, tokenize};

fn tags(names: &[&str]) -> Vec<Tag> {
    names
        .iter()
        .map(|name| Tag { location: Location { line: 1, column: 1 }, name: name.to_string() })
        .collect()
}

fn holds(expression: &str, names: &[&str]) -> bool {
    parse(expression).unwrap().evaluate(&tags(names))
}

#[test]
fn empty_expression_holds_for_any_tags() {
    assert!(holds("", &[]));
    assert!(holds("   ", &["@a"]));
}

#[test]
fn and_binds_tighter_than_or() {
    // "@a or @b and @c" is "@a or (@b and @c)"
    assert!(holds("@a or @b and @c", &["@a"]));
    assert!(!holds("@a or @b and @c", &["@b"]));
    assert!(holds("@a or @b and @c", &["@b", "@c"]));
}

#[test]
fn not_binds_tighter_than_and() {
    // "not @a and @b" is "(not @a) and @b"
    assert!(holds("not @a and @b", &["@b"]));
    assert!(!holds("not @a and @b", &[]));
}

#[test]
fn parentheses_change_grouping() {
    assert!(!holds("(@a or @b) and @c", &["@a"]));
    assert!(holds("(@a or @b) and @c", &["@a", "@c"]));
    assert!(holds("not (@a and @b)", &["@a"]));
}

#[test]
fn escaped_parenthesis_is_dropped_from_a_tag() {
    assert!(holds("@a\\(b", &["@ab"]));
}

#[test]
fn missing_operand_is_reported() {
    assert_eq!(parse("@a and").unwrap_err(), "expression is incomplete");
    assert_eq!(parse("and @a").unwrap_err(), "expression is incomplete, expected operand but got operator");
}

#[test]
fn missing_operator_is_reported() {
    assert_eq!(parse("@a @b").unwrap_err(), "expression is incomplete, expected operator but got operand");
}

#[test]
fn unbalanced_parentheses_are_reported() {
    assert_eq!(parse("(@a").unwrap_err(), "missing closing parentheses ')'");
    assert_eq!(parse("@a)").unwrap_err(), "missing opening parentheses '('");
}

#[test]
fn documented_tag_expressions_select_as_described() {
    assert!(holds("@fast", &["@fast"]));
    assert!(!holds("@fast", &["@slow"]));
    assert!(holds("@wip and not @slow", &["@wip"]));
    assert!(!holds("@wip and not @slow", &["@wip", "@slow"]));
    assert!(holds("@smoke and @fast", &["@smoke", "@fast"]));
    assert!(!holds("@smoke and @fast", &["@smoke"]));
    assert!(holds("@gui or @database", &["@database"]));
    assert!(!holds("@gui or @database", &["@ui"]));
    assert!(holds("(@smoke or @ui) and (not @slow)", &["@ui"]));
    assert!(!holds("(@smoke or @ui) and (not @slow)", &["@ui", "@slow"]));
}

#[test]
fn tag_names_keep_their_order_and_tokens_their_shape() {
    assert_eq!(tokenize("not(@a\\(b or  @c)"), vec!["not", "(", "@ab", "or", "@c", ")"]);
    assert_eq!(tokenize(" \t "), Vec::<String>::new());
    assert!(!holds("@c and not (@a or @b)", &["@c", "@a"]));
    assert!(holds("@c and not (@a or @b)", &["@c"]));
}
