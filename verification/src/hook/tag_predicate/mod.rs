//! Tag predicates that decide whether a hook applies to a scenario.

pub mod expression;
pub mod laws;
pub mod parser;

use vstd::prelude::*;

use self::expression::{Expression, TagExpr, eval};
use self::parser::parse_spec;
use crate::cuke::{Tag, tag_names};

verus! {

/// A parsed tag expression together with its text.
#[derive(Debug, Clone)]
pub struct TagPredicate {
    text: &'static str,
    expression: Expression,
}

impl TagPredicate {
    /// The text this predicate was parsed from.
    pub closed spec fn spec_text(&self) -> Seq<char> {
        self.text@
    }

    /// The expression this predicate tests.
    pub closed spec fn spec_expression(&self) -> TagExpr {
        self.expression@
    }

    /// Parses a tag expression into a predicate; fails with the parser's
    /// message where the expression is malformed.
    pub fn new(tag_expression: &'static str) -> (r: Result<TagPredicate, String>)
        ensures
            match parse_spec(tag_expression@) {
                Ok(e) => (r matches Ok(p) && p.spec_expression() == e && p.spec_text() == tag_expression@),
                Err(m) => (r matches Err(x) && x@ == m),
            },
    {
        let expression = parser::parse(tag_expression)?;
        let tag_predicate = TagPredicate { text: tag_expression, expression };
        Ok(tag_predicate)
    }

    /// Whether a scenario with the given tags satisfies this predicate.
    pub fn test(&self, pickle_tags: &[Tag]) -> (r: bool)
        ensures
            r == eval(self.spec_expression(), tag_names(pickle_tags@)),
    {
        self.expression.evaluate(pickle_tags)
    }
}

} // verus!
