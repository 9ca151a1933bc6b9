//! A parser for infix tag expressions such as `@smoke and not (@slow or @gui)`.
//!
//! The text is split into tokens, then turned into an expression tree with an
//! operator stack (the shunting-yard method): `not` binds tighter than `and`,
//! which binds tighter than `or`; both binary operators group to the left, and
//! parentheses group explicitly.

use vstd::prelude::*;

use super::expression::{Expression, TagExpr, LiteralExpression, OrExpression, AndExpression, NotExpression};
use crate::text::{is_whitespace, char_is_whitespace, str_eq, string_from_chars};

verus! {

/// The character that escapes the next character of a tag expression.
pub const ESCAPING_CHAR: char = '\\';

// ---------------------------------------------------------------------------
// Tokens
// ---------------------------------------------------------------------------

/// The state of the tokenizer after a prefix of the text: the finished
/// tokens, the token being read, and whether the last character was the
/// escaping character.
pub ghost struct TokenizerState {
    pub tokens: Seq<Seq<char>>,
    pub token: Option<Seq<char>>,
    pub escaped: bool,
}

/// The tokens with the token being read, if any, appended.
pub open spec fn flush(tokens: Seq<Seq<char>>, token: Option<Seq<char>>) -> Seq<Seq<char>> {
    match token {
        Some(t) => tokens.push(t),
        None => tokens,
    }
}

/// What reading one more character does to the tokenizer.
///
/// The escaping character itself is dropped. Whitespace ends the current
/// token. An unescaped parenthesis ends the current token and is a token of
/// its own; an escaped one is dropped. Any other character extends the
/// current token.
pub open spec fn tokenizer_step(st: TokenizerState, c: char) -> TokenizerState {
    if c == ESCAPING_CHAR {
        TokenizerState { escaped: true, ..st }
    } else if char_is_whitespace(c) {
        TokenizerState { tokens: flush(st.tokens, st.token), token: None, escaped: false }
    } else if c == '(' || c == ')' {
        if !st.escaped {
            TokenizerState { tokens: flush(st.tokens, st.token).push(seq![c]), token: None, escaped: false }
        } else {
            TokenizerState { escaped: false, ..st }
        }
    } else {
        match st.token {
            Some(t) => TokenizerState { token: Some(t.push(c)), escaped: false, ..st },
            None => TokenizerState { token: Some(seq![c]), escaped: false, ..st },
        }
    }
}

/// The tokenizer state after reading the given characters.
pub open spec fn tokenizer_state(chars: Seq<char>) -> TokenizerState
    decreases chars.len(),
{
    if chars.len() == 0 {
        TokenizerState { tokens: Seq::empty(), token: None, escaped: false }
    } else {
        tokenizer_step(tokenizer_state(chars.drop_last()), chars.last())
    }
}

/// The tokens of a tag expression text.
pub open spec fn tokenize_spec(chars: Seq<char>) -> Seq<Seq<char>> {
    let st = tokenizer_state(chars);
    flush(st.tokens, st.token)
}

/// The characters of a vector of strings, element by element.
pub open spec fn strings_view(v: Seq<String>) -> Seq<Seq<char>> {
    v.map_values(|s: String| s@)
}

/// The expressions of a vector of parsed expressions, element by element.
pub open spec fn exprs_view(v: Seq<Expression>) -> Seq<TagExpr> {
    v.map_values(|e: Expression| e@)
}

/// Splits a tag expression into its tokens.
pub fn tokenize(expr: &str) -> (tokens: Vec<String>)
    ensures
        strings_view(tokens@) == tokenize_spec(expr@),
{
    let mut tokens: Vec<String> = Vec::new();
    let mut is_escaped = false;
    let mut token: Option<Vec<char>> = None;
    let ghost chars = expr@;
    let n = expr.unicode_len();
    let mut i: usize = 0;

    while i < n
        invariant
            n == chars.len(),
            chars == expr@,
            0 <= i <= n,
            ({
                let st = tokenizer_state(chars.take(i as int));
                &&& strings_view(tokens@) == st.tokens
                &&& st.escaped == is_escaped
                &&& match token {
                    Some(t) => st.token == Some(t@),
                    None => st.token is None,
                }
            }),
        decreases n - i,
    {
        let c = expr.get_char(i);
        proof {
            assert(chars.take(i + 1).drop_last() == chars.take(i as int));
            assert(chars.take(i + 1).last() == c);
        }
        if c == ESCAPING_CHAR {
            is_escaped = true;
        } else {
            if is_whitespace(c) {
                if let Some(t) = token.take() {
                    let s = string_from_chars(&t);
                    tokens.push(s);
                    proof {
                        assert(strings_view(tokens@) == strings_view(tokens@.drop_last()).push(t@));
                    }
                }
            } else if c == '(' || c == ')' {
                if !is_escaped {
                    if let Some(t) = token.take() {
                        let s = string_from_chars(&t);
                        tokens.push(s);
                        proof {
                            assert(strings_view(tokens@) == strings_view(tokens@.drop_last()).push(t@));
                        }
                    }
                    let mut paren: Vec<char> = Vec::new();
                    paren.push(c);
                    let s = string_from_chars(&paren);
                    tokens.push(s);
                    proof {
                        assert(paren@ == seq![c]);
                        assert(strings_view(tokens@) == strings_view(tokens@.drop_last()).push(seq![c]));
                    }
                }
            } else {
                match token {
                    Some(ref mut t) => {
                        t.push(c);
                    },
                    None => {
                        let mut t: Vec<char> = Vec::new();
                        t.push(c);
                        proof {
                            assert(t@ == seq![c]);
                        }
                        token = Some(t);
                    },
                }
            }
            is_escaped = false;
        }
        i = i + 1;
    }

    proof {
        assert(chars.take(n as int) == chars);
    }
    if let Some(t) = token {
        let s = string_from_chars(&t);
        tokens.push(s);
        proof {
            assert(strings_view(tokens@) == strings_view(tokens@.drop_last()).push(t@));
        }
    }
    tokens
}

// ---------------------------------------------------------------------------
// Token classes
// ---------------------------------------------------------------------------

/// Whether a token stands where an operand or where an operator is expected.
#[derive(Debug, Clone, Copy, PartialEq, Eq, Structural)]
pub enum TokenType {
    Operand,
    Operator,
}

/// The name of a token type.
pub open spec fn token_type_name(t: TokenType) -> Seq<char> {
    match t {
        TokenType::Operand => "Operand"@,
        TokenType::Operator => "Operator"@,
    }
}

/// The lower case name of a token type, as error messages spell it.
pub open spec fn token_type_lower_name(t: TokenType) -> Seq<char> {
    match t {
        TokenType::Operand => "operand"@,
        TokenType::Operator => "operator"@,
    }
}

impl TokenType {
    /// Returns the name of this token type.
    pub fn as_str(&self) -> (name: &'static str)
        ensures
            name@ == token_type_name(*self),
    {
        match self {
            TokenType::Operand => "Operand",
            TokenType::Operator => "Operator",
        }
    }

    /// Returns the lower case name of this token type.
    pub fn as_lower_str(&self) -> (name: &'static str)
        ensures
            name@ == token_type_lower_name(*self),
    {
        match self {
            TokenType::Operand => "operand",
            TokenType::Operator => "operator",
        }
    }
}

/// The way an operator groups with operators of the same precedence.
#[derive(Debug, Clone, Copy, PartialEq, Eq, Structural)]
pub enum Assoc {
    Left,
    Right,
}

/// Whether a token is the unary operator.
pub open spec fn spec_is_unary(token: Seq<char>) -> bool {
    token == "not"@
}

/// Whether a token is a binary operator.
pub open spec fn spec_is_binary(token: Seq<char>) -> bool {
    token == "or"@ || token == "and"@
}

/// The associativity of an operator token; `None` for any other token.
pub open spec fn spec_assoc(token: Seq<char>) -> Option<Assoc> {
    if token == "or"@ || token == "and"@ {
        Some(Assoc::Left)
    } else if token == "not"@ {
        Some(Assoc::Right)
    } else {
        None
    }
}

/// Whether a token is an operator.
pub open spec fn spec_is_operator(token: Seq<char>) -> bool {
    spec_assoc(token) is Some
}

/// Whether a token has a precedence: the operators and the parentheses.
pub open spec fn has_precedence(token: Seq<char>) -> bool {
    token == "("@ || token == ")"@ || token == "or"@ || token == "and"@ || token == "not"@
}

/// The precedence of a token that has one.
pub open spec fn spec_prec(token: Seq<char>) -> int {
    if token == "("@ {
        -2
    } else if token == ")"@ {
        -1
    } else if token == "or"@ {
        0
    } else if token == "and"@ {
        1
    } else {
        2
    }
}

/// Whether the token is the unary operator `not`.
pub fn is_unary(token: &str) -> (r: bool)
    ensures
        r == spec_is_unary(token@),
{
    str_eq(token, "not")
}

/// Whether the token is a binary operator, `or` or `and`.
pub fn is_binary(token: &str) -> (r: bool)
    ensures
        r == spec_is_binary(token@),
{
    str_eq(token, "or") || str_eq(token, "and")
}

/// Whether the token is an operator.
pub fn is_operator(token: &str) -> (r: bool)
    ensures
        r == spec_is_operator(token@),
{
    get_assoc(token).is_some()
}

/// The associativity of an operator token.
pub fn get_assoc(token: &str) -> (r: Option<Assoc>)
    ensures
        r == spec_assoc(token@),
{
    if str_eq(token, "or") {
        Some(Assoc::Left)
    } else if str_eq(token, "and") {
        Some(Assoc::Left)
    } else if str_eq(token, "not") {
        Some(Assoc::Right)
    } else {
        None
    }
}

/// The precedence of an operator or parenthesis token.
pub fn get_prec(token: &str) -> (r: i8)
    requires
        has_precedence(token@),
    ensures
        r == spec_prec(token@),
{
    if str_eq(token, "(") {
        -2
    } else if str_eq(token, ")") {
        -1
    } else if str_eq(token, "or") {
        0
    } else if str_eq(token, "and") {
        1
    } else {
        2
    }
}

// ---------------------------------------------------------------------------
// The operator-stack machine
// ---------------------------------------------------------------------------

/// The message of an error for an expression that ends too early.
pub open spec fn incomplete_message() -> Seq<char> {
    "expression is incomplete"@
}

/// The message of an error for a `)` without its `(`.
pub open spec fn missing_opening_message() -> Seq<char> {
    "missing opening parentheses '('"@
}

/// The message of an error for a `(` without its `)`.
pub open spec fn missing_closing_message() -> Seq<char> {
    "missing closing parentheses ')'"@
}

/// The message of an error for a token of the wrong type.
pub open spec fn unexpected_message(expected: TokenType, got: TokenType) -> Seq<char> {
    "expression is incomplete, expected "@ + token_type_lower_name(expected) + " but got "@
        + token_type_lower_name(got)
}

/// Checking that a token of the given type may stand where the expected one is due.
pub open spec fn check_spec(expected: TokenType, got: TokenType) -> Result<(), Seq<char>> {
    if expected != got {
        Err(unexpected_message(expected, got))
    } else {
        Ok(())
    }
}

/// What moving a token from the operator stack to the expression stack does:
/// an operator takes its operands from the top of the expression stack, any
/// other token becomes a literal.
pub open spec fn apply_token(token: Seq<char>, exprs: Seq<TagExpr>) -> Result<Seq<TagExpr>, Seq<char>> {
    if token == "and"@ || token == "or"@ {
        if exprs.len() < 2 {
            Err(incomplete_message())
        } else {
            let left = exprs[exprs.len() - 2];
            let right = exprs[exprs.len() - 1];
            let rest = exprs.subrange(0, exprs.len() - 2);
            if token == "and"@ {
                Ok(rest.push(TagExpr::And(Box::new(left), Box::new(right))))
            } else {
                Ok(rest.push(TagExpr::Or(Box::new(left), Box::new(right))))
            }
        }
    } else if token == "not"@ {
        if exprs.len() < 1 {
            Err(incomplete_message())
        } else {
            Ok(exprs.drop_last().push(TagExpr::Not(Box::new(exprs.last()))))
        }
    } else {
        Ok(exprs.push(TagExpr::Literal(token)))
    }
}

/// Whether a binary operator token makes the operator on top of the stack be
/// applied first.
pub open spec fn yields_to(token: Seq<char>, top: Seq<char>) -> bool {
    ||| spec_assoc(token) == Some(Assoc::Left) && spec_prec(token) <= spec_prec(top)
    ||| spec_assoc(token) == Some(Assoc::Right) && spec_prec(token) < spec_prec(top)
}

/// Applies the operators on top of the stack that bind at least as tightly as
/// the incoming binary operator.
pub open spec fn reduce_before(token: Seq<char>, ops: Seq<Seq<char>>, exprs: Seq<TagExpr>)
    -> Result<(Seq<Seq<char>>, Seq<TagExpr>), Seq<char>>
    decreases ops.len(),
{
    if ops.len() > 0 && spec_is_operator(ops.last()) && yields_to(token, ops.last()) {
        match apply_token(ops.last(), exprs) {
            Ok(exprs2) => reduce_before(token, ops.drop_last(), exprs2),
            Err(m) => Err(m),
        }
    } else {
        Ok((ops, exprs))
    }
}

/// Applies the operators on top of the stack down to the nearest `(`.
pub open spec fn reduce_to_paren(ops: Seq<Seq<char>>, exprs: Seq<TagExpr>)
    -> Result<(Seq<Seq<char>>, Seq<TagExpr>), Seq<char>>
    decreases ops.len(),
{
    if ops.len() > 0 && ops.last() != "("@ {
        match apply_token(ops.last(), exprs) {
            Ok(exprs2) => reduce_to_paren(ops.drop_last(), exprs2),
            Err(m) => Err(m),
        }
    } else {
        Ok((ops, exprs))
    }
}

/// The state of the parser between two tokens: the operator stack, the
/// expression stack and the type of token it expects next.
pub ghost struct ParseState {
    pub ops: Seq<Seq<char>>,
    pub exprs: Seq<TagExpr>,
    pub expected: TokenType,
}

/// The state the parser starts in.
pub open spec fn initial_state() -> ParseState {
    ParseState { ops: Seq::empty(), exprs: Seq::empty(), expected: TokenType::Operand }
}

/// What reading one token does to the parser.
pub open spec fn parse_step(st: ParseState, token: Seq<char>) -> Result<ParseState, Seq<char>> {
    if spec_is_unary(token) {
        match check_spec(st.expected, TokenType::Operand) {
            Err(m) => Err(m),
            Ok(_) => Ok(ParseState { ops: st.ops.push(token), exprs: st.exprs, expected: TokenType::Operand }),
        }
    } else if spec_is_binary(token) {
        match check_spec(st.expected, TokenType::Operator) {
            Err(m) => Err(m),
            Ok(_) => match reduce_before(token, st.ops, st.exprs) {
                Err(m) => Err(m),
                Ok((ops, exprs)) => Ok(ParseState { ops: ops.push(token), exprs, expected: TokenType::Operand }),
            },
        }
    } else if token == "("@ {
        match check_spec(st.expected, TokenType::Operand) {
            Err(m) => Err(m),
            Ok(_) => Ok(ParseState { ops: st.ops.push(token), exprs: st.exprs, expected: TokenType::Operand }),
        }
    } else if token == ")"@ {
        match check_spec(st.expected, TokenType::Operator) {
            Err(m) => Err(m),
            Ok(_) => match reduce_to_paren(st.ops, st.exprs) {
                Err(m) => Err(m),
                Ok((ops, exprs)) => if ops.len() == 0 {
                    Err(missing_opening_message())
                } else {
                    Ok(ParseState { ops: ops.drop_last(), exprs, expected: TokenType::Operator })
                },
            },
        }
    } else {
        match check_spec(st.expected, TokenType::Operand) {
            Err(m) => Err(m),
            Ok(_) => Ok(ParseState { ops: st.ops, exprs: st.exprs.push(TagExpr::Literal(token)), expected: TokenType::Operator }),
        }
    }
}

/// The parser state after reading the given tokens, or the first error.
pub open spec fn run_tokens(st: ParseState, tokens: Seq<Seq<char>>) -> Result<ParseState, Seq<char>>
    decreases tokens.len(),
{
    if tokens.len() == 0 {
        Ok(st)
    } else {
        match run_tokens(st, tokens.drop_last()) {
            Ok(st2) => parse_step(st2, tokens.last()),
            Err(m) => Err(m),
        }
    }
}

/// Applies all remaining operators and takes the expression on top of the stack.
pub open spec fn finish(ops: Seq<Seq<char>>, exprs: Seq<TagExpr>) -> Result<TagExpr, Seq<char>>
    decreases ops.len(),
{
    if ops.len() == 0 {
        if exprs.len() == 0 {
            Err(incomplete_message())
        } else {
            Ok(exprs.last())
        }
    } else if ops.last() == "("@ {
        Err(missing_closing_message())
    } else {
        match apply_token(ops.last(), exprs) {
            Ok(exprs2) => finish(ops.drop_last(), exprs2),
            Err(m) => Err(m),
        }
    }
}

/// The expression that a sequence of tokens denotes, or the error message.
/// No tokens at all denote the expression that always holds.
pub open spec fn parse_tokens(tokens: Seq<Seq<char>>) -> Result<TagExpr, Seq<char>> {
    if tokens.len() == 0 {
        Ok(TagExpr::True)
    } else {
        match run_tokens(initial_state(), tokens) {
            Ok(st) => finish(st.ops, st.exprs),
            Err(m) => Err(m),
        }
    }
}

/// The expression that a tag expression text denotes, or the error message.
pub open spec fn parse_spec(text: Seq<char>) -> Result<TagExpr, Seq<char>> {
    parse_tokens(tokenize_spec(text))
}

// ---------------------------------------------------------------------------
// Executable parser
// ---------------------------------------------------------------------------

/// Checks that a token of type `token_type` may stand where one of type
/// `expected_token_type` is due.
pub fn check(expected_token_type: TokenType, token_type: TokenType) -> (r: Result<(), String>)
    ensures
        match r {
            Ok(_) => check_spec(expected_token_type, token_type) is Ok,
            Err(m) => check_spec(expected_token_type, token_type) == Err::<(), Seq<char>>(m@),
        },
{
    if expected_token_type != token_type {
        let mut message = String::from_str("expression is incomplete, expected ");
        message.append(expected_token_type.as_lower_str());
        message.append(" but got ");
        message.append(token_type.as_lower_str());
        return Err(message);
    }
    Ok(())
}

/// Pops the top of a stack; an empty stack means the expression is incomplete.
pub fn pop<T>(stack: &mut Vec<T>) -> (r: Result<T, String>)
    ensures
        old(stack)@.len() > 0 ==> r == Ok::<T, String>(old(stack)@.last()) && final(stack)@ == old(stack)@.drop_last(),
        old(stack)@.len() == 0 ==> (r matches Err(m) && m@ == incomplete_message() && final(stack)@ == old(stack)@),
{
    match stack.pop() {
        Some(value) => Ok(value),
        None => Err(String::from_str("expression is incomplete")),
    }
}

/// Moves a token onto the expression stack: an operator takes its operands
/// from the stack, any other token becomes a literal.
pub fn push_expr(token: String, stack: &mut Vec<Expression>) -> (r: Result<(), String>)
    ensures
        match apply_token(token@, exprs_view(old(stack)@)) {
            Ok(exprs) => r is Ok && exprs_view(final(stack)@) == exprs,
            Err(m) => (r matches Err(e) && e@ == m),
        },
{
    let ghost before = exprs_view(stack@);
    if str_eq(token.as_str(), "and") {
        let right = pop(stack)?;
        let left = pop(stack)?;
        stack.push(Expression::And(AndExpression { left: Box::new(left), right: Box::new(right) }));
        proof {
            assert(exprs_view(stack@) == before.subrange(0, before.len() - 2).push(
                TagExpr::And(Box::new(before[before.len() - 2]), Box::new(before[before.len() - 1]))));
        }
    } else if str_eq(token.as_str(), "or") {
        let right = pop(stack)?;
        let left = pop(stack)?;
        stack.push(Expression::Or(OrExpression { left: Box::new(left), right: Box::new(right) }));
        proof {
            assert(exprs_view(stack@) == before.subrange(0, before.len() - 2).push(
                TagExpr::Or(Box::new(before[before.len() - 2]), Box::new(before[before.len() - 1]))));
        }
    } else if str_eq(token.as_str(), "not") {
        let expression = pop(stack)?;
        stack.push(Expression::Not(NotExpression { expression: Box::new(expression) }));
        proof {
            assert(exprs_view(stack@) == before.drop_last().push(TagExpr::Not(Box::new(before.last()))));
        }
    } else {
        stack.push(Expression::Literal(LiteralExpression { value: token }));
        proof {
            assert(exprs_view(stack@) == before.push(TagExpr::Literal(token@)));
        }
    }
    Ok(())
}

/// Applies the operators on top of the stack that bind at least as tightly as
/// the incoming binary operator `token`.
fn reduce_before_exec(token: &str, operators: &mut Vec<String>, expressions: &mut Vec<Expression>)
    -> (r: Result<(), String>)
    requires
        spec_is_binary(token@),
    ensures
        match reduce_before(token@, strings_view(old(operators)@), exprs_view(old(expressions)@)) {
            Ok((ops, exprs)) => r is Ok && strings_view(final(operators)@) == ops && exprs_view(
                final(expressions)@,
            ) == exprs,
            Err(m) => (r matches Err(e) && e@ == m),
        },
{
    let ghost goal = reduce_before(token@, strings_view(operators@), exprs_view(expressions@));
    loop
        invariant
            spec_is_binary(token@),
            goal == reduce_before(token@, strings_view(operators@), exprs_view(expressions@)),
            goal == reduce_before(token@, strings_view(old(operators)@), exprs_view(old(expressions)@)),
        decreases operators@.len(),
    {
        if operators.len() == 0 {
            return Ok(());
        }
        let last = operators.len() - 1;
        if !is_operator(operators[last].as_str()) {
            return Ok(());
        }
        proof {
            assert(strings_view(operators@).last() == operators@[last as int]@);
        }
        let token_prec = get_prec(token);
        let top_prec = get_prec(operators[last].as_str());
        let yields = match get_assoc(token) {
            Some(Assoc::Left) => token_prec <= top_prec,
            Some(Assoc::Right) => token_prec < top_prec,
            None => false,
        };
        if !yields {
            return Ok(());
        }
        let ghost ops_before = strings_view(operators@);
        let top = pop(operators)?;
        proof {
            assert(strings_view(operators@) == ops_before.drop_last());
        }
        push_expr(top, expressions)?;
    }
}

/// Applies the operators on top of the stack down to the nearest `(`.
fn reduce_to_paren_exec(operators: &mut Vec<String>, expressions: &mut Vec<Expression>)
    -> (r: Result<(), String>)
    ensures
        match reduce_to_paren(strings_view(old(operators)@), exprs_view(old(expressions)@)) {
            Ok((ops, exprs)) => r is Ok && strings_view(final(operators)@) == ops && exprs_view(
                final(expressions)@,
            ) == exprs,
            Err(m) => (r matches Err(e) && e@ == m),
        },
{
    let ghost goal = reduce_to_paren(strings_view(operators@), exprs_view(expressions@));
    loop
        invariant
            goal == reduce_to_paren(strings_view(operators@), exprs_view(expressions@)),
            goal == reduce_to_paren(strings_view(old(operators)@), exprs_view(old(expressions)@)),
        decreases operators@.len(),
    {
        if operators.len() == 0 {
            return Ok(());
        }
        let last = operators.len() - 1;
        proof {
            assert(strings_view(operators@).last() == operators@[last as int]@);
        }
        if str_eq(operators[last].as_str(), "(") {
            return Ok(());
        }
        let ghost ops_before = strings_view(operators@);
        let top = pop(operators)?;
        proof {
            assert(strings_view(operators@) == ops_before.drop_last());
        }
        push_expr(top, expressions)?;
    }
}

/// Applies all remaining operators and takes the expression on top of the stack.
fn finish_exec(operators: &mut Vec<String>, expressions: &mut Vec<Expression>)
    -> (r: Result<Expression, String>)
    ensures
        match finish(strings_view(old(operators)@), exprs_view(old(expressions)@)) {
            Ok(e) => (r matches Ok(x) && x@ == e),
            Err(m) => (r matches Err(x) && x@ == m),
        },
{
    let ghost goal = finish(strings_view(operators@), exprs_view(expressions@));
    while operators.len() > 0
        invariant
            goal == finish(strings_view(operators@), exprs_view(expressions@)),
            goal == finish(strings_view(old(operators)@), exprs_view(old(expressions)@)),
        decreases operators@.len(),
    {
        let last = operators.len() - 1;
        proof {
            assert(strings_view(operators@).last() == operators@[last as int]@);
        }
        if str_eq(operators[last].as_str(), "(") {
            return Err(String::from_str("missing closing parentheses ')'"));
        }
        let ghost ops_before = strings_view(operators@);
        let top = pop(operators)?;
        proof {
            assert(strings_view(operators@) == ops_before.drop_last());
        }
        push_expr(top, expressions)?;
    }
    let ghost exprs_before = exprs_view(expressions@);
    let expression = pop(expressions)?;
    proof {
        assert(exprs_before.last() == expression@);
    }
    Ok(expression)
}

/// Reads one token, updating the operator stack, the expression stack and the
/// type of token expected next.
fn parse_token(
    token: String,
    operators: &mut Vec<String>,
    expressions: &mut Vec<Expression>,
    expected_token_type: &mut TokenType,
) -> (r: Result<(), String>)
    ensures
        match parse_step(
            ParseState {
                ops: strings_view(old(operators)@),
                exprs: exprs_view(old(expressions)@),
                expected: *old(expected_token_type),
            },
            token@,
        ) {
            Ok(st) => r is Ok && st == ParseState {
                ops: strings_view(final(operators)@),
                exprs: exprs_view(final(expressions)@),
                expected: *final(expected_token_type),
            },
            Err(m) => (r matches Err(e) && e@ == m),
        },
{
    let ghost ops0 = strings_view(operators@);
    let ghost exprs0 = exprs_view(expressions@);
    if is_unary(token.as_str()) {
        check(*expected_token_type, TokenType::Operand)?;
        operators.push(token);
        proof {
            assert(strings_view(operators@) == ops0.push(token@));
        }
        *expected_token_type = TokenType::Operand;
    } else if is_binary(token.as_str()) {
        check(*expected_token_type, TokenType::Operator)?;
        reduce_before_exec(token.as_str(), operators, expressions)?;
        let ghost ops1 = strings_view(operators@);
        operators.push(token);
        proof {
            assert(strings_view(operators@) == ops1.push(token@));
        }
        *expected_token_type = TokenType::Operand;
    } else if str_eq(token.as_str(), "(") {
        check(*expected_token_type, TokenType::Operand)?;
        operators.push(token);
        proof {
            assert(strings_view(operators@) == ops0.push(token@));
        }
        *expected_token_type = TokenType::Operand;
    } else if str_eq(token.as_str(), ")") {
        check(*expected_token_type, TokenType::Operator)?;
        reduce_to_paren_exec(operators, expressions)?;
        if operators.len() == 0 {
            return Err(String::from_str("missing opening parentheses '('"));
        }
        let ghost ops1 = strings_view(operators@);
        pop(operators)?;
        proof {
            assert(strings_view(operators@) == ops1.drop_last());
        }
        *expected_token_type = TokenType::Operator;
    } else {
        check(*expected_token_type, TokenType::Operand)?;
        push_expr(token, expressions)?;
        *expected_token_type = TokenType::Operator;
    }
    Ok(())
}

/// Once a prefix of the tokens fails, all of them fail with the same message.
proof fn lemma_run_tokens_error_persists(st: ParseState, tokens: Seq<Seq<char>>, k: int, m: Seq<char>)
    requires
        0 <= k <= tokens.len(),
        run_tokens(st, tokens.take(k)) == Err::<ParseState, Seq<char>>(m),
    ensures
        run_tokens(st, tokens) == Err::<ParseState, Seq<char>>(m),
    decreases tokens.len() - k,
{
    if k < tokens.len() {
        assert(tokens.take(k + 1).drop_last() == tokens.take(k));
        lemma_run_tokens_error_persists(st, tokens, k + 1, m);
    } else {
        assert(tokens.take(k) == tokens);
    }
}

/// Parses an infix tag expression.
///
/// An empty text (or one of whitespace only) gives the expression that always
/// holds.
pub fn parse(infix: &str) -> (r: Result<Expression, String>)
    ensures
        match parse_spec(infix@) {
            Ok(e) => (r matches Ok(x) && x@ == e),
            Err(m) => (r matches Err(x) && x@ == m),
        },
{
    let tokens = tokenize(infix);

    if tokens.len() == 0 {
        return Ok(Expression::True);
    }

    let ghost toks = strings_view(tokens@);
    let mut operators: Vec<String> = Vec::new();
    let mut expressions: Vec<Expression> = Vec::new();
    let mut expected_token_type = TokenType::Operand;
    let mut i: usize = 0;

    proof {
        assert(toks.take(0) == Seq::<Seq<char>>::empty());
        assert(strings_view(operators@) == Seq::<Seq<char>>::empty());
        assert(exprs_view(expressions@) == Seq::<TagExpr>::empty());
    }

    while i < tokens.len()
        invariant
            toks == strings_view(tokens@),
            toks == tokenize_spec(infix@),
            toks.len() > 0,
            0 <= i <= tokens@.len(),
            run_tokens(initial_state(), toks.take(i as int)) == Ok::<ParseState, Seq<char>>(
                ParseState {
                    ops: strings_view(operators@),
                    exprs: exprs_view(expressions@),
                    expected: expected_token_type,
                },
            ),
        decreases tokens@.len() - i,
    {
        let token = tokens[i].clone();
        proof {
            assert(toks.take(i + 1).drop_last() == toks.take(i as int));
            assert(toks.take(i + 1).last() == token@);
        }
        let step = parse_token(token, &mut operators, &mut expressions, &mut expected_token_type);
        match step {
            Ok(()) => {},
            Err(m) => {
                proof {
                    lemma_run_tokens_error_persists(initial_state(), toks, i + 1, m@);
                }
                return Err(m);
            },
        }
        i = i + 1;
    }
    proof {
        assert(toks.take(tokens@.len() as int) == toks);
    }
    finish_exec(&mut operators, &mut expressions)
}

} // verus!
