//! The values of the glue attributes, checked as the code generation reads
//! them: hook types, step keywords, step expressions and tag expressions.

use vstd::prelude::*;
use vstd::string::StringExecFns;

use crate::filter::name::{regex_check, regex_compiles, regex_new_outcome};
use crate::hook::tag_predicate::parser::{parse, parse_spec};
use crate::hook::{hook_type_named, HookType as GlueHookType};
use crate::step::{step_keyword_named, StepKeyword as GlueStepKeyword};

verus! {

/// The value of an attribute argument as the code generation sees it: a path
/// (written as its tokens), or something else, by its description.
#[derive(Debug, Clone)]
pub enum MetaValue {
    Path(String),
    Other(String),
}

/// A refused attribute value: the message and the help shown with it.
#[derive(Debug, Clone)]
pub struct AttributeError {
    pub message: String,
    pub help: Option<String>,
}

/// The hook type of a hook attribute.
#[derive(Debug)]
pub struct HookType(pub GlueHookType);

/// The keyword of a step attribute.
#[derive(Debug)]
pub struct StepKeyword(pub GlueStepKeyword);

/// The expression of a step attribute: a regular expression that compiles.
#[derive(Debug)]
pub struct Regex {
    pattern: String,
}

/// The tag expression of a hook attribute, which parses.
#[derive(Debug)]
pub struct TagExpression(pub String);

/// An optional attribute value.
#[derive(Clone, Debug)]
pub struct Optional<T>(pub Option<T>);

/// The help shown with a refused hook type.
pub open spec fn hook_type_help() -> Seq<char> {
    "hook type must be one of: `BeforeScenario`, `BeforeStep`, `AfterStep`, `AfterScenario`"@
}

/// The help shown with a refused step keyword.
pub open spec fn keyword_help() -> Seq<char> {
    "keyword must be one of: `Given`, `When`, `Then`"@
}

/// The message for a value that is not a path.
pub open spec fn expected_identifier(description: Seq<char>) -> Seq<char> {
    "expected identifier, found "@ + description
}

/// Whether an error has the given message and help.
pub open spec fn error_is(e: AttributeError, message: Seq<char>, help: Seq<char>) -> bool {
    &&& e.message@ == message
    &&& e.help matches Some(h) && h@ == help
}

/// An error with a message and a help.
fn error_with_help(message: String, help: &str) -> (e: AttributeError)
    ensures
        error_is(e, message@, help@),
{
    AttributeError { message, help: Some(String::from_str(help)) }
}

/// The message for a value that is not a path.
fn expected_identifier_message(description: &str) -> (m: String)
    ensures
        m@ == expected_identifier(description@),
{
    let mut m = String::from_str("expected identifier, found ");
    m.append(description);
    m
}

impl HookType {
    /// Reads the hook type of a hook attribute: a path naming one of the hook
    /// types.
    pub fn from_meta(meta: &MetaValue) -> (r: Result<HookType, AttributeError>)
        ensures
            match meta {
                MetaValue::Path(p) => match hook_type_named(p@) {
                    Some(t) => r matches Ok(h) && h.0 == t,
                    None => r matches Err(e) && error_is(e, "invalid hook type"@, hook_type_help()),
                },
                MetaValue::Other(d) => r matches Err(e) && error_is(e, expected_identifier(d@), hook_type_help()),
            },
    {
        let help = "hook type must be one of: `BeforeScenario`, `BeforeStep`, `AfterStep`, `AfterScenario`";
        match meta {
            MetaValue::Path(path) => match GlueHookType::from_name(path.as_str()) {
                Ok(hook_type) => Ok(HookType(hook_type)),
                Err(()) => Err(error_with_help(String::from_str("invalid hook type"), help)),
            },
            MetaValue::Other(description) => Err(error_with_help(expected_identifier_message(description.as_str()), help)),
        }
    }
}

impl StepKeyword {
    /// Reads the keyword of a step attribute: a path naming one of the step
    /// keywords, `Star` included.
    pub fn from_meta(meta: &MetaValue) -> (r: Result<StepKeyword, AttributeError>)
        ensures
            match meta {
                MetaValue::Path(p) => match step_keyword_named(p@) {
                    Some(k) => r matches Ok(s) && s.0 == k,
                    None => r matches Err(e) && error_is(e, "invalid keyword"@, keyword_help()),
                },
                MetaValue::Other(d) => r matches Err(e) && error_is(e, expected_identifier(d@), keyword_help()),
            },
    {
        let help = "keyword must be one of: `Given`, `When`, `Then`";
        match meta {
            MetaValue::Path(path) => match GlueStepKeyword::from_name(path.as_str()) {
                Ok(keyword) => Ok(StepKeyword(keyword)),
                Err(()) => Err(error_with_help(String::from_str("invalid keyword"), help)),
            },
            MetaValue::Other(description) => Err(error_with_help(expected_identifier_message(description.as_str()), help)),
        }
    }
}

/// The message for a step expression that is not a regular expression, up to
/// the regular expression error.
pub open spec fn invalid_regex_message(expression: Seq<char>, error: Seq<char>) -> Seq<char> {
    "step expression \""@ + expression + "\" is not a valid regex: "@ + error
}

/// The message for a tag expression that does not parse.
pub open spec fn invalid_tag_expression_message(expression: Seq<char>, error: Seq<char>) -> Seq<char> {
    "tag expression \""@ + expression + "\" is invalid: "@ + error
}

impl Regex {
    /// The pattern.
    pub closed spec fn spec_pattern(&self) -> Seq<char> {
        self.pattern@
    }

    /// The pattern compiles.
    #[verifier::type_invariant]
    spec fn inv(&self) -> bool {
        regex_compiles(self.pattern@)
    }

    /// Reads the expression of a step attribute from its string literal: it
    /// must compile as a regular expression.
    pub fn from_literal(expression: &str) -> (r: Result<Regex, AttributeError>)
        ensures
            regex_compiles(expression@) <==> r is Ok,
            r matches Ok(x) ==> x.spec_pattern() == expression@,
            regex_new_outcome(expression@) matches Err(m) ==> (r matches Err(e) && e.help is None
                && e.message@ == invalid_regex_message(expression@, m)),
    {
        match regex_check(expression) {
            Ok(()) => Ok(Regex { pattern: String::from_str(expression) }),
            Err(error) => {
                let mut message = String::from_str("step expression \"");
                message.append(expression);
                message.append("\" is not a valid regex: ");
                message.append(error.as_str());
                Err(AttributeError { message, help: None })
            },
        }
    }

    /// Returns the pattern.
    pub fn as_str(&self) -> (p: &str)
        ensures
            p@ == self.spec_pattern(),
    {
        self.pattern.as_str()
    }
}

impl TagExpression {
    /// Reads the tag expression of a hook attribute from its string literal:
    /// it must parse; the error names the parser's message.
    pub fn from_literal(expression: &str) -> (r: Result<TagExpression, AttributeError>)
        ensures
            parse_spec(expression@) is Ok <==> r is Ok,
            r matches Ok(x) ==> x.0@ == expression@,
            parse_spec(expression@) matches Err(m) ==> (r matches Err(e) && e.help is None && e.message@
                == invalid_tag_expression_message(expression@, m)),
    {
        match parse(expression) {
            Ok(_expression) => Ok(TagExpression(String::from_str(expression))),
            Err(error) => {
                let mut message = String::from_str("tag expression \"");
                message.append(expression);
                message.append("\" is invalid: ");
                message.append(error.as_str());
                Err(AttributeError { message, help: None })
            },
        }
    }
}

/// The order and the tag expression of a hook, from the values its attribute
/// gives: a hook without an order runs at order 0, and one without a tag
/// expression has the empty one, which holds for every scenario.
pub fn hook_settings(order: Option<isize>, tag_expression: Option<TagExpression>) -> (r: (isize, String))
    ensures
        r.0 == match order {
            Some(o) => o,
            None => 0,
        },
        r.1@ == match tag_expression {
            Some(t) => t.0@,
            None => Seq::<char>::empty(),
        },
{
    let order = match order {
        Some(o) => o,
        None => 0,
    };
    let tag_expression = match tag_expression {
        Some(t) => t.0,
        None => String::new(),
    };
    (order, tag_expression)
}

} // verus!
