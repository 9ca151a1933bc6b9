//! Selecting scenarios by a tag expression.

use vstd::prelude::*;

use crate::cuke::{Tag, tag_names};
use crate::hook::tag_predicate::expression::{Expression, TagExpr, eval};
use crate::hook::tag_predicate::parser::{parse, parse_spec};

verus! {

/// A parsed tag expression that filters scenarios.
#[derive(Debug, Clone)]
pub struct TagPredicate<'p> {
    text: &'p str,
    expression: Expression,
}

impl<'p> TagPredicate<'p> {
    /// The text this predicate was parsed from.
    pub closed spec fn spec_text(&self) -> Seq<char> {
        self.text@
    }

    /// The expression this predicate tests.
    pub closed spec fn spec_expression(&self) -> TagExpr {
        self.expression@
    }

    /// Parses a tag expression into a filter; fails with the parser's message
    /// where the expression is malformed.
    pub fn new(tag_expression: &'p str) -> (r: Result<TagPredicate<'p>, String>)
        ensures
            match parse_spec(tag_expression@) {
                Ok(e) => (r matches Ok(p) && p.spec_expression() == e && p.spec_text() == tag_expression@),
                Err(m) => (r matches Err(x) && x@ == m),
            },
    {
        let expression = parse(tag_expression)?;
        Ok(TagPredicate { text: tag_expression, expression })
    }

    /// Whether a scenario with the given tags is selected.
    pub fn apply(&self, tags: &[Tag]) -> (r: bool)
        ensures
            r == eval(self.spec_expression(), tag_names(tags@)),
    {
        self.expression.evaluate(tags)
    }
}

} // verus!
