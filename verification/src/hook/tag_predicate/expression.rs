//! Tag expressions: boolean formulas over the tags of a scenario.

use vstd::prelude::*;

use crate::cuke::{Tag, tag_names};
use crate::text::str_eq;

verus! {

/// The mathematical form of a tag expression.
pub ghost enum TagExpr {
    Literal(Seq<char>),
    Or(Box<TagExpr>, Box<TagExpr>),
    And(Box<TagExpr>, Box<TagExpr>),
    Not(Box<TagExpr>),
    True,
}

/// Whether a tag expression holds of a scenario whose tags have the given names.
pub open spec fn eval(e: TagExpr, names: Seq<Seq<char>>) -> bool
    decreases e,
{
    match e {
        TagExpr::Literal(value) => names.contains(value),
        TagExpr::Or(left, right) => eval(*left, names) || eval(*right, names),
        TagExpr::And(left, right) => eval(*left, names) && eval(*right, names),
        TagExpr::Not(inner) => !eval(*inner, names),
        TagExpr::True => true,
    }
}

/// A parsed tag expression.
#[derive(Debug)]
pub enum Expression {
    Literal(LiteralExpression),
    Or(OrExpression),
    And(AndExpression),
    Not(NotExpression),
    True,
}

/// A tag name that a scenario must carry.
#[derive(Debug)]
pub struct LiteralExpression {
    pub value: String,
}

/// Either side must hold.
#[derive(Debug)]
pub struct OrExpression {
    pub left: Box<Expression>,
    pub right: Box<Expression>,
}

/// Both sides must hold.
#[derive(Debug)]
pub struct AndExpression {
    pub left: Box<Expression>,
    pub right: Box<Expression>,
}

/// The inner expression must not hold.
#[derive(Debug)]
pub struct NotExpression {
    pub expression: Box<Expression>,
}

impl View for Expression {
    type V = TagExpr;

    open spec fn view(&self) -> TagExpr
        decreases self,
    {
        match self {
            Expression::Literal(l) => TagExpr::Literal(l.value@),
            Expression::Or(o) => TagExpr::Or(Box::new((*o.left).view()), Box::new((*o.right).view())),
            Expression::And(a) => TagExpr::And(Box::new((*a.left).view()), Box::new((*a.right).view())),
            Expression::Not(n) => TagExpr::Not(Box::new((*n.expression).view())),
            Expression::True => TagExpr::True,
        }
    }
}

impl Expression {
    /// A deep copy of this expression.
    pub fn copy(&self) -> (r: Expression)
        ensures
            r@ == self@,
        decreases self,
    {
        match self {
            Expression::Literal(l) => Expression::Literal(LiteralExpression { value: l.value.clone() }),
            Expression::Or(o) => Expression::Or(OrExpression {
                left: Box::new(o.left.copy()),
                right: Box::new(o.right.copy()),
            }),
            Expression::And(a) => Expression::And(AndExpression {
                left: Box::new(a.left.copy()),
                right: Box::new(a.right.copy()),
            }),
            Expression::Not(n) => Expression::Not(NotExpression { expression: Box::new(n.expression.copy()) }),
            Expression::True => Expression::True,
        }
    }

    /// Evaluates this expression against the tags of a scenario.
    pub fn evaluate(&self, tags: &[Tag]) -> (holds: bool)
        ensures
            holds == eval(self@, tag_names(tags@)),
        decreases self,
    {
        match self {
            Expression::Literal(expression) => expression.evaluate(tags),
            Expression::Or(expression) => expression.evaluate(tags),
            Expression::And(expression) => expression.evaluate(tags),
            Expression::Not(expression) => expression.evaluate(tags),
            Expression::True => true,
        }
    }
}

impl LiteralExpression {
    /// Whether one of the tags has this name.
    pub fn evaluate(&self, tags: &[Tag]) -> (holds: bool)
        ensures
            holds == tag_names(tags@).contains(self.value@),
    {
        let mut i: usize = 0;
        while i < tags.len()
            invariant
                0 <= i <= tags@.len(),
                forall|j: int| 0 <= j < i ==> tags@[j].name@ != self.value@,
            decreases tags@.len() - i,
        {
            if str_eq(tags[i].name.as_str(), self.value.as_str()) {
                assert(tag_names(tags@)[i as int] == self.value@);
                return true;
            }
            i = i + 1;
        }
        assert forall|j: int| 0 <= j < tag_names(tags@).len() implies tag_names(tags@)[j] != self.value@ by {
            assert(tags@[j].name@ != self.value@);
        }
        false
    }
}

impl OrExpression {
    /// Whether either side holds.
    pub fn evaluate(&self, tags: &[Tag]) -> (holds: bool)
        ensures
            holds == (eval((*self.left)@, tag_names(tags@)) || eval((*self.right)@, tag_names(tags@))),
        decreases self,
    {
        self.left.evaluate(tags) || self.right.evaluate(tags)
    }
}

impl AndExpression {
    /// Whether both sides hold.
    pub fn evaluate(&self, tags: &[Tag]) -> (holds: bool)
        ensures
            holds == (eval((*self.left)@, tag_names(tags@)) && eval((*self.right)@, tag_names(tags@))),
        decreases self,
    {
        self.left.evaluate(tags) && self.right.evaluate(tags)
    }
}

impl NotExpression {
    /// Whether the inner expression does not hold.
    pub fn evaluate(&self, tags: &[Tag]) -> (holds: bool)
        ensures
            holds == !eval((*self.expression)@, tag_names(tags@)),
        decreases self,
    {
        !self.expression.evaluate(tags)
    }
}

impl Clone for Expression {
    fn clone(&self) -> (r: Expression)
        ensures
            r@ == self@,
    {
        self.copy()
    }
}

} // verus!
