//! Laws of the tag expression parser: how tokens group, and that every
//! expression written out with parentheses is read back unchanged.

use vstd::prelude::*;

use super::expression::{TagExpr, eval};
use super::parser::{
    ParseState, TokenType, spec_is_binary, spec_prec, parse_tokens, run_tokens, parse_step, has_precedence,
    initial_state, reduce_to_paren, reduce_before, apply_token, finish, parse_spec, tokenizer_state, tokenize_spec,
    tokenizer_step, TokenizerState, ESCAPING_CHAR, flush, spec_is_operator, spec_is_unary, yields_to,
};
use crate::text::char_is_whitespace;
use crate::cuke::{Tag, tag_names};

verus! {

/// Whether a token is read as a tag name: it is neither an operator nor a
/// parenthesis.
pub open spec fn is_tag_token(t: Seq<char>) -> bool {
    !has_precedence(t)
}

/// Whether an expression can be written out as tokens: every tag name is a
/// tag token, and the expression that always holds does not occur in it.
pub open spec fn writable(e: TagExpr) -> bool
    decreases e,
{
    match e {
        TagExpr::Literal(v) => is_tag_token(v),
        TagExpr::Or(l, r) => writable(*l) && writable(*r),
        TagExpr::And(l, r) => writable(*l) && writable(*r),
        TagExpr::Not(x) => writable(*x),
        TagExpr::True => false,
    }
}

/// The tokens of an expression written out with every subexpression in
/// parentheses.
pub open spec fn parenthesized_tokens(e: TagExpr) -> Seq<Seq<char>>
    decreases e,
{
    match e {
        TagExpr::Literal(v) => seq!["("@, v, ")"@],
        TagExpr::Or(l, r) => seq!["("@] + parenthesized_tokens(*l) + seq!["or"@] + parenthesized_tokens(*r)
            + seq![")"@],
        TagExpr::And(l, r) => seq!["("@] + parenthesized_tokens(*l) + seq!["and"@] + parenthesized_tokens(
            *r,
        ) + seq![")"@],
        TagExpr::Not(x) => seq!["("@, "not"@] + parenthesized_tokens(*x) + seq![")"@],
        TagExpr::True => Seq::empty(),
    }
}

proof fn lemma_token_literals()
    ensures
        "("@ != ")"@,
        "("@ != "or"@,
        "("@ != "and"@,
        "("@ != "not"@,
        ")"@ != "or"@,
        ")"@ != "and"@,
        ")"@ != "not"@,
        "or"@ != "and"@,
        "or"@ != "not"@,
        "and"@ != "not"@,
{
    reveal_strlit("(");
    reveal_strlit(")");
    reveal_strlit("or");
    reveal_strlit("and");
    reveal_strlit("not");
    assert("("@.len() == 1);
    assert(")"@.len() == 1);
    assert("or"@.len() == 2);
    assert("and"@.len() == 3);
    assert("not"@.len() == 3);
    assert("("@[0] != ")"@[0]);
    assert("and"@[0] != "not"@[0]);
}

/// Reading two sequences of tokens one after the other is reading their
/// concatenation.
proof fn lemma_run_tokens_concat(st: ParseState, a: Seq<Seq<char>>, b: Seq<Seq<char>>)
    ensures
        run_tokens(st, a + b) == match run_tokens(st, a) {
            Ok(s) => run_tokens(s, b),
            Err(m) => Err(m),
        },
    decreases b.len(),
{
    if b.len() == 0 {
        assert(a + b == a);
    } else {
        assert((a + b).drop_last() == a + b.drop_last());
        assert((a + b).last() == b.last());
        lemma_run_tokens_concat(st, a, b.drop_last());
    }
}

/// Reading a single token is one parser step.
proof fn lemma_run_single(st: ParseState, t: Seq<char>)
    ensures
        run_tokens(st, seq![t]) == parse_step(st, t),
{
    assert(seq![t].drop_last() == Seq::<Seq<char>>::empty());
    assert(seq![t].last() == t);
    assert(run_tokens(st, Seq::<Seq<char>>::empty()) == Ok::<ParseState, Seq<char>>(st));
}

/// Reading a parenthesized expression where an operand is due pushes the
/// expression and leaves the operator stack as it was.
proof fn lemma_parenthesized(st: ParseState, e: TagExpr)
    requires
        writable(e),
        st.expected == TokenType::Operand,
    ensures
        run_tokens(st, parenthesized_tokens(e)) == Ok::<ParseState, Seq<char>>(
            ParseState { ops: st.ops, exprs: st.exprs.push(e), expected: TokenType::Operator },
        ),
    decreases e,
{
    lemma_token_literals();
    let open = ParseState { ops: st.ops.push("("@), exprs: st.exprs, expected: TokenType::Operand };
    lemma_run_single(st, "("@);
    assert(run_tokens(st, seq!["("@]) == Ok::<ParseState, Seq<char>>(open));
    match e {
        TagExpr::Literal(v) => {
            let p = parenthesized_tokens(e);
            assert(p == seq!["("@, v] + seq![")"@]);
            assert(seq!["("@, v] == seq!["("@] + seq![v]);
            lemma_run_tokens_concat(st, seq!["("@], seq![v]);
            lemma_run_single(open, v);
            let after = ParseState { ops: st.ops.push("("@), exprs: st.exprs.push(e), expected: TokenType::Operator };
            assert(parse_step(open, v) == Ok::<ParseState, Seq<char>>(after));
            assert(run_tokens(st, seq!["("@, v]) == Ok::<ParseState, Seq<char>>(after));
            lemma_run_tokens_concat(st, seq!["("@, v], seq![")"@]);
            lemma_run_single(after, ")"@);
            assert(st.ops.push("("@).drop_last() == st.ops);
            assert(reduce_to_paren(after.ops, after.exprs) == Ok::<(Seq<Seq<char>>, Seq<TagExpr>), Seq<char>>((after.ops, after.exprs)));
            assert(run_tokens(st, p) == run_tokens(after, seq![")"@]));
            assert(parse_step(after, ")"@) == Ok::<ParseState, Seq<char>>(
                ParseState { ops: st.ops, exprs: st.exprs.push(e), expected: TokenType::Operator }));
            assert(run_tokens(st, p) == Ok::<ParseState, Seq<char>>(
                ParseState { ops: st.ops, exprs: st.exprs.push(e), expected: TokenType::Operator }));
            assert(run_tokens(st, parenthesized_tokens(e)) == Ok::<ParseState, Seq<char>>(
                ParseState { ops: st.ops, exprs: st.exprs.push(e), expected: TokenType::Operator }));
        },
        TagExpr::Or(l, r) => {
            let pl = parenthesized_tokens(*l);
            let pr = parenthesized_tokens(*r);
            lemma_parenthesized(open, *l);
            lemma_run_tokens_concat(st, seq!["("@], pl);
            let s1 = ParseState { ops: st.ops.push("("@), exprs: st.exprs.push(*l), expected: TokenType::Operator };
            lemma_run_single(s1, "or"@);
            lemma_run_tokens_concat(st, seq!["("@] + pl, seq!["or"@]);
            let s2 = ParseState { ops: st.ops.push("("@).push("or"@), exprs: st.exprs.push(*l), expected: TokenType::Operand };
            lemma_parenthesized(s2, *r);
            lemma_run_tokens_concat(st, seq!["("@] + pl + seq!["or"@], pr);
            let s3 = ParseState { ops: st.ops.push("("@).push("or"@), exprs: st.exprs.push(*l).push(*r), expected: TokenType::Operator };
            lemma_run_single(s3, ")"@);
            lemma_run_tokens_concat(st, seq!["("@] + pl + seq!["or"@] + pr, seq![")"@]);
            let ex = st.exprs.push(*l).push(*r);
            assert(ex.subrange(0, ex.len() - 2) == st.exprs);
            assert(st.ops.push("("@).push("or"@).drop_last() == st.ops.push("("@));
            assert(st.ops.push("("@).drop_last() == st.ops);
            assert(reduce_before("or"@, s1.ops, s1.exprs) == Ok::<(Seq<Seq<char>>, Seq<TagExpr>), Seq<char>>((s1.ops, s1.exprs)));
            assert(parse_step(s1, "or"@) == Ok::<ParseState, Seq<char>>(s2));
            assert(run_tokens(st, seq!["("@] + pl) == Ok::<ParseState, Seq<char>>(s1));
            assert(run_tokens(st, seq!["("@] + pl + seq!["or"@]) == Ok::<ParseState, Seq<char>>(s2));
            assert(run_tokens(st, seq!["("@] + pl + seq!["or"@] + pr) == Ok::<ParseState, Seq<char>>(s3));
            assert(apply_token("or"@, ex) == Ok::<Seq<TagExpr>, Seq<char>>(st.exprs.push(e)));
            assert(reduce_to_paren(st.ops.push("("@), st.exprs.push(e)) == Ok::<(Seq<Seq<char>>, Seq<TagExpr>), Seq<char>>((st.ops.push("("@), st.exprs.push(e))));
            assert(reduce_to_paren(s3.ops, s3.exprs) == Ok::<(Seq<Seq<char>>, Seq<TagExpr>), Seq<char>>((st.ops.push("("@), st.exprs.push(e))));
            assert(parse_step(s3, ")"@) == Ok::<ParseState, Seq<char>>(ParseState { ops: st.ops, exprs: st.exprs.push(e), expected: TokenType::Operator }));
            assert(parenthesized_tokens(e) == seq!["("@] + pl + seq!["or"@] + pr + seq![")"@]);
            assert(run_tokens(st, parenthesized_tokens(e)) == Ok::<ParseState, Seq<char>>(
                ParseState { ops: st.ops, exprs: st.exprs.push(e), expected: TokenType::Operator }));
        },
        TagExpr::And(l, r) => {
            let pl = parenthesized_tokens(*l);
            let pr = parenthesized_tokens(*r);
            lemma_parenthesized(open, *l);
            lemma_run_tokens_concat(st, seq!["("@], pl);
            let s1 = ParseState { ops: st.ops.push("("@), exprs: st.exprs.push(*l), expected: TokenType::Operator };
            lemma_run_single(s1, "and"@);
            lemma_run_tokens_concat(st, seq!["("@] + pl, seq!["and"@]);
            let s2 = ParseState { ops: st.ops.push("("@).push("and"@), exprs: st.exprs.push(*l), expected: TokenType::Operand };
            lemma_parenthesized(s2, *r);
            lemma_run_tokens_concat(st, seq!["("@] + pl + seq!["and"@], pr);
            let s3 = ParseState { ops: st.ops.push("("@).push("and"@), exprs: st.exprs.push(*l).push(*r), expected: TokenType::Operator };
            lemma_run_single(s3, ")"@);
            lemma_run_tokens_concat(st, seq!["("@] + pl + seq!["and"@] + pr, seq![")"@]);
            let ex = st.exprs.push(*l).push(*r);
            assert(ex.subrange(0, ex.len() - 2) == st.exprs);
            assert(st.ops.push("("@).push("and"@).drop_last() == st.ops.push("("@));
            assert(st.ops.push("("@).drop_last() == st.ops);
            assert(reduce_before("and"@, s1.ops, s1.exprs) == Ok::<(Seq<Seq<char>>, Seq<TagExpr>), Seq<char>>((s1.ops, s1.exprs)));
            assert(parse_step(s1, "and"@) == Ok::<ParseState, Seq<char>>(s2));
            assert(run_tokens(st, seq!["("@] + pl) == Ok::<ParseState, Seq<char>>(s1));
            assert(run_tokens(st, seq!["("@] + pl + seq!["and"@]) == Ok::<ParseState, Seq<char>>(s2));
            assert(run_tokens(st, seq!["("@] + pl + seq!["and"@] + pr) == Ok::<ParseState, Seq<char>>(s3));
            assert(apply_token("and"@, ex) == Ok::<Seq<TagExpr>, Seq<char>>(st.exprs.push(e)));
            assert(reduce_to_paren(st.ops.push("("@), st.exprs.push(e)) == Ok::<(Seq<Seq<char>>, Seq<TagExpr>), Seq<char>>((st.ops.push("("@), st.exprs.push(e))));
            assert(reduce_to_paren(s3.ops, s3.exprs) == Ok::<(Seq<Seq<char>>, Seq<TagExpr>), Seq<char>>((st.ops.push("("@), st.exprs.push(e))));
            assert(parse_step(s3, ")"@) == Ok::<ParseState, Seq<char>>(ParseState { ops: st.ops, exprs: st.exprs.push(e), expected: TokenType::Operator }));
            assert(parenthesized_tokens(e) == seq!["("@] + pl + seq!["and"@] + pr + seq![")"@]);
            assert(run_tokens(st, parenthesized_tokens(e)) == Ok::<ParseState, Seq<char>>(
                ParseState { ops: st.ops, exprs: st.exprs.push(e), expected: TokenType::Operator }));
        },
        TagExpr::Not(x) => {
            let px = parenthesized_tokens(*x);
            assert(seq!["("@, "not"@] == seq!["("@] + seq!["not"@]);
            lemma_run_single(open, "not"@);
            lemma_run_tokens_concat(st, seq!["("@], seq!["not"@]);
            let s1 = ParseState { ops: st.ops.push("("@).push("not"@), exprs: st.exprs, expected: TokenType::Operand };
            lemma_parenthesized(s1, *x);
            lemma_run_tokens_concat(st, seq!["("@, "not"@], px);
            let s2 = ParseState { ops: st.ops.push("("@).push("not"@), exprs: st.exprs.push(*x), expected: TokenType::Operator };
            lemma_run_single(s2, ")"@);
            lemma_run_tokens_concat(st, seq!["("@, "not"@] + px, seq![")"@]);
            assert(st.exprs.push(*x).drop_last() == st.exprs);
            assert(st.ops.push("("@).push("not"@).drop_last() == st.ops.push("("@));
            assert(st.ops.push("("@).drop_last() == st.ops);
            assert(run_tokens(st, seq!["("@, "not"@]) == Ok::<ParseState, Seq<char>>(s1));
            assert(run_tokens(st, seq!["("@, "not"@] + px) == Ok::<ParseState, Seq<char>>(s2));
            assert(apply_token("not"@, s2.exprs) == Ok::<Seq<TagExpr>, Seq<char>>(st.exprs.push(e)));
            assert(reduce_to_paren(st.ops.push("("@), st.exprs.push(e)) == Ok::<(Seq<Seq<char>>, Seq<TagExpr>), Seq<char>>((st.ops.push("("@), st.exprs.push(e))));
            assert(reduce_to_paren(s2.ops, s2.exprs) == Ok::<(Seq<Seq<char>>, Seq<TagExpr>), Seq<char>>((st.ops.push("("@), st.exprs.push(e))));
            assert(parse_step(s2, ")"@) == Ok::<ParseState, Seq<char>>(ParseState { ops: st.ops, exprs: st.exprs.push(e), expected: TokenType::Operator }));
            assert(parenthesized_tokens(e) == seq!["("@, "not"@] + px + seq![")"@]);
            assert(run_tokens(st, parenthesized_tokens(e)) == Ok::<ParseState, Seq<char>>(
                ParseState { ops: st.ops, exprs: st.exprs.push(e), expected: TokenType::Operator }));
        },
        TagExpr::True => {},
    }
}

/// Every tag expression, written out with each subexpression in parentheses,
/// is parsed back to itself.
pub proof fn lemma_parse_parenthesized_roundtrip(e: TagExpr)
    requires
        writable(e),
    ensures
        parse_tokens(parenthesized_tokens(e)) == Ok::<TagExpr, Seq<char>>(e),
{
    lemma_parenthesized(initial_state(), e);
    let st = ParseState { ops: Seq::empty(), exprs: Seq::empty().push(e), expected: TokenType::Operator };
    assert(parenthesized_tokens(e).len() > 0) by {
        reveal_with_fuel(parenthesized_tokens, 1);
    }
    assert(st.exprs.last() == e);
}

/// Literal expression of a tag name.
pub open spec fn lit(v: Seq<char>) -> TagExpr {
    TagExpr::Literal(v)
}

/// Reading five tokens is reading the first four and then the fifth.
proof fn lemma_run_five(st: ParseState, t: Seq<Seq<char>>)
    requires
        t.len() == 5,
    ensures
        run_tokens(st, t) == match run_tokens(st, seq![t[0], t[1], t[2], t[3]]) {
            Ok(s) => parse_step(s, t[4]),
            Err(m) => Err(m),
        },
        run_tokens(st, seq![t[0], t[1], t[2], t[3]]) == match run_tokens(st, seq![t[0], t[1], t[2]]) {
            Ok(s) => parse_step(s, t[3]),
            Err(m) => Err(m),
        },
        run_tokens(st, seq![t[0], t[1], t[2]]) == match run_tokens(st, seq![t[0], t[1]]) {
            Ok(s) => parse_step(s, t[2]),
            Err(m) => Err(m),
        },
        run_tokens(st, seq![t[0], t[1]]) == match parse_step(st, t[0]) {
            Ok(s) => parse_step(s, t[1]),
            Err(m) => Err(m),
        },
{
    assert(t.drop_last() == seq![t[0], t[1], t[2], t[3]]);
    assert(seq![t[0], t[1], t[2], t[3]].drop_last() == seq![t[0], t[1], t[2]]);
    assert(seq![t[0], t[1], t[2]].drop_last() == seq![t[0], t[1]]);
    assert(seq![t[0], t[1]].drop_last() == seq![t[0]]);
    lemma_run_single(st, t[0]);
}

/// `and` binds tighter than `or`, on either side of it.
pub proof fn lemma_and_binds_tighter_than_or(a: Seq<char>, b: Seq<char>, c: Seq<char>)
    requires
        is_tag_token(a),
        is_tag_token(b),
        is_tag_token(c),
    ensures
        parse_tokens(seq![a, "or"@, b, "and"@, c]) == Ok::<TagExpr, Seq<char>>(
            TagExpr::Or(Box::new(lit(a)), Box::new(TagExpr::And(Box::new(lit(b)), Box::new(lit(c))))),
        ),
        parse_tokens(seq![a, "and"@, b, "or"@, c]) == Ok::<TagExpr, Seq<char>>(
            TagExpr::Or(Box::new(TagExpr::And(Box::new(lit(a)), Box::new(lit(b)))), Box::new(lit(c))),
        ),
{
    lemma_token_literals();
    let e: Seq<Seq<char>> = Seq::empty();
    let init = initial_state();
    // a or b and c
    let t = seq![a, "or"@, b, "and"@, c];
    lemma_run_five(init, t);
    let s1 = ParseState { ops: e, exprs: seq![lit(a)], expected: TokenType::Operator };
    assert(parse_step(init, a) == Ok::<ParseState, Seq<char>>(s1));
    let s2 = ParseState { ops: seq!["or"@], exprs: seq![lit(a)], expected: TokenType::Operand };
    assert(reduce_before("or"@, e, seq![lit(a)]) == Ok::<(Seq<Seq<char>>, Seq<TagExpr>), Seq<char>>((e, seq![lit(a)])));
    assert(e.push("or"@) == seq!["or"@]);
    assert(parse_step(s1, "or"@) == Ok::<ParseState, Seq<char>>(s2));
    let s3 = ParseState { ops: seq!["or"@], exprs: seq![lit(a), lit(b)], expected: TokenType::Operator };
    assert(seq![lit(a)].push(lit(b)) == seq![lit(a), lit(b)]);
    assert(parse_step(s2, b) == Ok::<ParseState, Seq<char>>(s3));
    let s4 = ParseState { ops: seq!["or"@, "and"@], exprs: seq![lit(a), lit(b)], expected: TokenType::Operand };
    assert(reduce_before("and"@, seq!["or"@], seq![lit(a), lit(b)]) == Ok::<(Seq<Seq<char>>, Seq<TagExpr>), Seq<char>>((seq!["or"@], seq![lit(a), lit(b)])));
    assert(seq!["or"@].push("and"@) == seq!["or"@, "and"@]);
    assert(parse_step(s3, "and"@) == Ok::<ParseState, Seq<char>>(s4));
    let s5 = ParseState { ops: seq!["or"@, "and"@], exprs: seq![lit(a), lit(b), lit(c)], expected: TokenType::Operator };
    assert(seq![lit(a), lit(b)].push(lit(c)) == seq![lit(a), lit(b), lit(c)]);
    assert(parse_step(s4, c) == Ok::<ParseState, Seq<char>>(s5));
    assert(run_tokens(init, t) == Ok::<ParseState, Seq<char>>(s5));
    let bc = TagExpr::And(Box::new(lit(b)), Box::new(lit(c)));
    assert(seq![lit(a), lit(b), lit(c)].subrange(0, 1) == seq![lit(a)]);
    assert(seq![lit(a)].push(bc) == seq![lit(a), bc]);
    assert(apply_token("and"@, seq![lit(a), lit(b), lit(c)]) == Ok::<Seq<TagExpr>, Seq<char>>(seq![lit(a), bc]));
    assert(seq!["or"@, "and"@].drop_last() == seq!["or"@]);
    let whole = TagExpr::Or(Box::new(lit(a)), Box::new(bc));
    assert(seq![lit(a), bc].subrange(0, 0) == Seq::<TagExpr>::empty());
    assert(Seq::<TagExpr>::empty().push(whole) == seq![whole]);
    assert(apply_token("or"@, seq![lit(a), bc]) == Ok::<Seq<TagExpr>, Seq<char>>(seq![whole]));
    assert(seq!["or"@].drop_last() == e);
    assert(finish(e, seq![whole]) == Ok::<TagExpr, Seq<char>>(whole));
    assert(finish(seq!["or"@], seq![lit(a), bc]) == Ok::<TagExpr, Seq<char>>(whole));
    assert(finish(seq!["or"@, "and"@], seq![lit(a), lit(b), lit(c)]) == Ok::<TagExpr, Seq<char>>(whole));

    // a and b or c
    let u = seq![a, "and"@, b, "or"@, c];
    lemma_run_five(init, u);
    let r2 = ParseState { ops: seq!["and"@], exprs: seq![lit(a)], expected: TokenType::Operand };
    assert(e.push("and"@) == seq!["and"@]);
    assert(reduce_before("and"@, e, seq![lit(a)]) == Ok::<(Seq<Seq<char>>, Seq<TagExpr>), Seq<char>>((e, seq![lit(a)])));
    assert(parse_step(s1, "and"@) == Ok::<ParseState, Seq<char>>(r2));
    let r3 = ParseState { ops: seq!["and"@], exprs: seq![lit(a), lit(b)], expected: TokenType::Operator };
    assert(parse_step(r2, b) == Ok::<ParseState, Seq<char>>(r3));
    let ab = TagExpr::And(Box::new(lit(a)), Box::new(lit(b)));
    assert(seq![lit(a), lit(b)].subrange(0, 0) == Seq::<TagExpr>::empty());
    assert(Seq::<TagExpr>::empty().push(ab) == seq![ab]);
    assert(apply_token("and"@, seq![lit(a), lit(b)]) == Ok::<Seq<TagExpr>, Seq<char>>(seq![ab]));
    assert(seq!["and"@].drop_last() == e);
    assert(reduce_before("or"@, e, seq![ab]) == Ok::<(Seq<Seq<char>>, Seq<TagExpr>), Seq<char>>((e, seq![ab])));
    assert(reduce_before("or"@, seq!["and"@], seq![lit(a), lit(b)]) == Ok::<(Seq<Seq<char>>, Seq<TagExpr>), Seq<char>>((e, seq![ab])));
    let r4 = ParseState { ops: seq!["or"@], exprs: seq![ab], expected: TokenType::Operand };
    assert(parse_step(r3, "or"@) == Ok::<ParseState, Seq<char>>(r4));
    let r5 = ParseState { ops: seq!["or"@], exprs: seq![ab, lit(c)], expected: TokenType::Operator };
    assert(seq![ab].push(lit(c)) == seq![ab, lit(c)]);
    assert(parse_step(r4, c) == Ok::<ParseState, Seq<char>>(r5));
    assert(run_tokens(init, u) == Ok::<ParseState, Seq<char>>(r5));
    let whole2 = TagExpr::Or(Box::new(ab), Box::new(lit(c)));
    assert(seq![ab, lit(c)].subrange(0, 0) == Seq::<TagExpr>::empty());
    assert(Seq::<TagExpr>::empty().push(whole2) == seq![whole2]);
    assert(apply_token("or"@, seq![ab, lit(c)]) == Ok::<Seq<TagExpr>, Seq<char>>(seq![whole2]));
    assert(finish(e, seq![whole2]) == Ok::<TagExpr, Seq<char>>(whole2));
    assert(finish(seq!["or"@], seq![ab, lit(c)]) == Ok::<TagExpr, Seq<char>>(whole2));
}

/// The expression a binary operator token builds from its two operands.
pub open spec fn binary(op: Seq<char>, l: TagExpr, r: TagExpr) -> TagExpr {
    if op == "and"@ {
        TagExpr::And(Box::new(l), Box::new(r))
    } else {
        TagExpr::Or(Box::new(l), Box::new(r))
    }
}

/// A binary operator that binds at least as tightly as the one after it is
/// applied first: in particular `or` and `and` group to the left.
pub proof fn lemma_binary_operators_group_left(a: Seq<char>, p: Seq<char>, b: Seq<char>, q: Seq<char>, c: Seq<char>)
    requires
        is_tag_token(a),
        is_tag_token(b),
        is_tag_token(c),
        spec_is_binary(p),
        spec_is_binary(q),
        spec_prec(q) <= spec_prec(p),
    ensures
        parse_tokens(seq![a, p, b, q, c]) == Ok::<TagExpr, Seq<char>>(
            binary(q, binary(p, lit(a), lit(b)), lit(c)),
        ),
{
    lemma_token_literals();
    let e: Seq<Seq<char>> = Seq::empty();
    let init = initial_state();
    let u = seq![a, p, b, q, c];
    lemma_run_five(init, u);
    let s1 = ParseState { ops: e, exprs: seq![lit(a)], expected: TokenType::Operator };
    assert(parse_step(init, a) == Ok::<ParseState, Seq<char>>(s1));
    let r2 = ParseState { ops: seq![p], exprs: seq![lit(a)], expected: TokenType::Operand };
    assert(e.push(p) == seq![p]);
    assert(reduce_before(p, e, seq![lit(a)]) == Ok::<(Seq<Seq<char>>, Seq<TagExpr>), Seq<char>>((e, seq![lit(a)])));
    assert(parse_step(s1, p) == Ok::<ParseState, Seq<char>>(r2));
    let r3 = ParseState { ops: seq![p], exprs: seq![lit(a), lit(b)], expected: TokenType::Operator };
    assert(seq![lit(a)].push(lit(b)) == seq![lit(a), lit(b)]);
    assert(parse_step(r2, b) == Ok::<ParseState, Seq<char>>(r3));
    let ab = binary(p, lit(a), lit(b));
    assert(seq![lit(a), lit(b)].subrange(0, 0) == Seq::<TagExpr>::empty());
    assert(Seq::<TagExpr>::empty().push(ab) == seq![ab]);
    assert(apply_token(p, seq![lit(a), lit(b)]) == Ok::<Seq<TagExpr>, Seq<char>>(seq![ab]));
    assert(seq![p].drop_last() == e);
    assert(reduce_before(q, e, seq![ab]) == Ok::<(Seq<Seq<char>>, Seq<TagExpr>), Seq<char>>((e, seq![ab])));
    assert(reduce_before(q, seq![p], seq![lit(a), lit(b)]) == Ok::<(Seq<Seq<char>>, Seq<TagExpr>), Seq<char>>((e, seq![ab])));
    let r4 = ParseState { ops: seq![q], exprs: seq![ab], expected: TokenType::Operand };
    assert(e.push(q) == seq![q]);
    assert(parse_step(r3, q) == Ok::<ParseState, Seq<char>>(r4));
    let r5 = ParseState { ops: seq![q], exprs: seq![ab, lit(c)], expected: TokenType::Operator };
    assert(seq![ab].push(lit(c)) == seq![ab, lit(c)]);
    assert(parse_step(r4, c) == Ok::<ParseState, Seq<char>>(r5));
    assert(run_tokens(init, u) == Ok::<ParseState, Seq<char>>(r5));
    let whole = binary(q, ab, lit(c));
    assert(seq![ab, lit(c)].subrange(0, 0) == Seq::<TagExpr>::empty());
    assert(Seq::<TagExpr>::empty().push(whole) == seq![whole]);
    assert(apply_token(q, seq![ab, lit(c)]) == Ok::<Seq<TagExpr>, Seq<char>>(seq![whole]));
    assert(seq![q].drop_last() == e);
    assert(finish(e, seq![whole]) == Ok::<TagExpr, Seq<char>>(whole));
    assert(finish(seq![q], seq![ab, lit(c)]) == Ok::<TagExpr, Seq<char>>(whole));
}

/// Reading four tokens is reading the first three and then the fourth.
proof fn lemma_run_four(st: ParseState, t: Seq<Seq<char>>)
    requires
        t.len() == 4,
    ensures
        run_tokens(st, t) == match run_tokens(st, seq![t[0], t[1], t[2]]) {
            Ok(s) => parse_step(s, t[3]),
            Err(m) => Err(m),
        },
{
    assert(t.drop_last() == seq![t[0], t[1], t[2]]);
}

/// `not` binds tighter than either binary operator.
pub proof fn lemma_not_binds_tighter(a: Seq<char>, p: Seq<char>, b: Seq<char>)
    requires
        is_tag_token(a),
        is_tag_token(b),
        spec_is_binary(p),
    ensures
        parse_tokens(seq!["not"@, a, p, b]) == Ok::<TagExpr, Seq<char>>(
            binary(p, TagExpr::Not(Box::new(lit(a))), lit(b)),
        ),
{
    lemma_token_literals();
    let e: Seq<Seq<char>> = Seq::empty();
    let init = initial_state();
    let u = seq!["not"@, a, p, b];
    lemma_run_four(init, u);
    lemma_run_five(init, u.push(b));
    assert(seq![u[0], u[1], u[2]] == seq!["not"@, a, p]);
    let s1 = ParseState { ops: seq!["not"@], exprs: Seq::empty(), expected: TokenType::Operand };
    assert(e.push("not"@) == seq!["not"@]);
    assert(parse_step(init, "not"@) == Ok::<ParseState, Seq<char>>(s1));
    let s2 = ParseState { ops: seq!["not"@], exprs: seq![lit(a)], expected: TokenType::Operator };
    assert(Seq::<TagExpr>::empty().push(lit(a)) == seq![lit(a)]);
    assert(parse_step(s1, a) == Ok::<ParseState, Seq<char>>(s2));
    let na = TagExpr::Not(Box::new(lit(a)));
    assert(seq![lit(a)].drop_last() == Seq::<TagExpr>::empty());
    assert(Seq::<TagExpr>::empty().push(na) == seq![na]);
    assert(apply_token("not"@, seq![lit(a)]) == Ok::<Seq<TagExpr>, Seq<char>>(seq![na]));
    assert(seq!["not"@].drop_last() == e);
    assert(reduce_before(p, e, seq![na]) == Ok::<(Seq<Seq<char>>, Seq<TagExpr>), Seq<char>>((e, seq![na])));
    assert(reduce_before(p, seq!["not"@], seq![lit(a)]) == Ok::<(Seq<Seq<char>>, Seq<TagExpr>), Seq<char>>((e, seq![na])));
    let s3 = ParseState { ops: seq![p], exprs: seq![na], expected: TokenType::Operand };
    assert(e.push(p) == seq![p]);
    assert(parse_step(s2, p) == Ok::<ParseState, Seq<char>>(s3));
    assert(run_tokens(init, seq!["not"@, a]) == Ok::<ParseState, Seq<char>>(s2));
    assert(run_tokens(init, seq!["not"@, a, p]) == Ok::<ParseState, Seq<char>>(s3));
    let s4 = ParseState { ops: seq![p], exprs: seq![na, lit(b)], expected: TokenType::Operator };
    assert(seq![na].push(lit(b)) == seq![na, lit(b)]);
    assert(parse_step(s3, b) == Ok::<ParseState, Seq<char>>(s4));
    assert(run_tokens(init, u) == Ok::<ParseState, Seq<char>>(s4));
    let whole = binary(p, na, lit(b));
    assert(seq![na, lit(b)].subrange(0, 0) == Seq::<TagExpr>::empty());
    assert(Seq::<TagExpr>::empty().push(whole) == seq![whole]);
    assert(apply_token(p, seq![na, lit(b)]) == Ok::<Seq<TagExpr>, Seq<char>>(seq![whole]));
    assert(seq![p].drop_last() == e);
    assert(finish(e, seq![whole]) == Ok::<TagExpr, Seq<char>>(whole));
    assert(finish(seq![p], seq![na, lit(b)]) == Ok::<TagExpr, Seq<char>>(whole));
}

/// Reading only whitespace leaves the tokenizer without tokens.
proof fn lemma_blank_tokenizer(chars: Seq<char>)
    requires
        forall|i: int| 0 <= i < chars.len() ==> #[trigger] char_is_whitespace(chars[i]),
    ensures
        tokenizer_state(chars).tokens == Seq::<Seq<char>>::empty(),
        tokenizer_state(chars).token is None,
    decreases chars.len(),
{
    if chars.len() > 0 {
        let rest = chars.drop_last();
        assert forall|i: int| 0 <= i < rest.len() implies #[trigger] char_is_whitespace(rest[i]) by {
            assert(rest[i] == chars[i]);
        }
        lemma_blank_tokenizer(rest);
        assert(char_is_whitespace(chars[chars.len() - 1]));
    }
}

/// An expression text of whitespace only, the empty text among them, parses
/// to the expression that holds for any tags.
pub proof fn lemma_blank_expression_holds(text: Seq<char>, names: Seq<Seq<char>>)
    requires
        forall|i: int| 0 <= i < text.len() ==> #[trigger] char_is_whitespace(text[i]),
    ensures
        parse_spec(text) == Ok::<TagExpr, Seq<char>>(TagExpr::True),
        eval(TagExpr::True, names),
{
    lemma_blank_tokenizer(text);
}


/// Reading one more token is one more parser step after the tokens before it.
proof fn lemma_run_push(st: ParseState, ts: Seq<Seq<char>>, t: Seq<char>)
    ensures
        run_tokens(st, ts.push(t)) == match run_tokens(st, ts) {
            Ok(s) => parse_step(s, t),
            Err(m) => Err(m),
        },
{
    assert(ts.push(t).drop_last() == ts);
}

/// `a and not b` reads as `a` together with the negation of `b`.
pub proof fn lemma_and_not(a: Seq<char>, b: Seq<char>)
    requires
        is_tag_token(a),
        is_tag_token(b),
    ensures
        parse_tokens(seq![a, "and"@, "not"@, b]) == Ok::<TagExpr, Seq<char>>(
            TagExpr::And(Box::new(lit(a)), Box::new(TagExpr::Not(Box::new(lit(b))))),
        ),
{
    lemma_token_literals();
    let e: Seq<Seq<char>> = Seq::empty();
    let init = initial_state();
    let t0: Seq<Seq<char>> = Seq::empty();
    lemma_run_push(init, t0, a);
    lemma_run_push(init, t0.push(a), "and"@);
    lemma_run_push(init, t0.push(a).push("and"@), "not"@);
    lemma_run_push(init, t0.push(a).push("and"@).push("not"@), b);
    assert(t0.push(a).push("and"@).push("not"@).push(b) == seq![a, "and"@, "not"@, b]);
    let s1 = ParseState { ops: e, exprs: seq![lit(a)], expected: TokenType::Operator };
    assert(Seq::<TagExpr>::empty().push(lit(a)) == seq![lit(a)]);
    assert(parse_step(init, a) == Ok::<ParseState, Seq<char>>(s1));
    let s2 = ParseState { ops: seq!["and"@], exprs: seq![lit(a)], expected: TokenType::Operand };
    assert(e.push("and"@) == seq!["and"@]);
    assert(reduce_before("and"@, e, seq![lit(a)]) == Ok::<(Seq<Seq<char>>, Seq<TagExpr>), Seq<char>>((e, seq![lit(a)])));
    assert(parse_step(s1, "and"@) == Ok::<ParseState, Seq<char>>(s2));
    let s3 = ParseState { ops: seq!["and"@, "not"@], exprs: seq![lit(a)], expected: TokenType::Operand };
    assert(seq!["and"@].push("not"@) == seq!["and"@, "not"@]);
    assert(parse_step(s2, "not"@) == Ok::<ParseState, Seq<char>>(s3));
    let s4 = ParseState { ops: seq!["and"@, "not"@], exprs: seq![lit(a), lit(b)], expected: TokenType::Operator };
    assert(seq![lit(a)].push(lit(b)) == seq![lit(a), lit(b)]);
    assert(parse_step(s3, b) == Ok::<ParseState, Seq<char>>(s4));
    let nb = TagExpr::Not(Box::new(lit(b)));
    assert(seq![lit(a), lit(b)].drop_last() == seq![lit(a)]);
    assert(seq![lit(a)].push(nb) == seq![lit(a), nb]);
    assert(apply_token("not"@, seq![lit(a), lit(b)]) == Ok::<Seq<TagExpr>, Seq<char>>(seq![lit(a), nb]));
    let whole = TagExpr::And(Box::new(lit(a)), Box::new(nb));
    assert(seq![lit(a), nb].subrange(0, 0) == Seq::<TagExpr>::empty());
    assert(Seq::<TagExpr>::empty().push(whole) == seq![whole]);
    assert(apply_token("and"@, seq![lit(a), nb]) == Ok::<Seq<TagExpr>, Seq<char>>(seq![whole]));
    assert(seq!["and"@, "not"@].drop_last() == seq!["and"@]);
    assert(seq!["and"@].drop_last() == e);
    assert(finish(e, seq![whole]) == Ok::<TagExpr, Seq<char>>(whole));
    assert(finish(seq!["and"@], seq![lit(a), nb]) == Ok::<TagExpr, Seq<char>>(whole));
    assert(finish(seq!["and"@, "not"@], seq![lit(a), lit(b)]) == Ok::<TagExpr, Seq<char>>(whole));
}

/// Whether a character extends the token being read: it is neither the
/// escaping character, nor whitespace, nor a parenthesis.
pub open spec fn plain_char(c: char) -> bool {
    c != ESCAPING_CHAR && !char_is_whitespace(c) && c != '(' && c != ')'
}

/// Reading one more character is one tokenizer step.
proof fn lemma_tokenizer_push(chars: Seq<char>, c: char)
    ensures
        tokenizer_state(chars.push(c)) == tokenizer_step(tokenizer_state(chars), c),
{
    assert(chars.push(c).drop_last() == chars);
}

/// A word of plain characters, read where no token is open, becomes the
/// token being read.
proof fn lemma_tokenizer_word(p: Seq<char>, w: Seq<char>)
    requires
        tokenizer_state(p).token is None,
        !tokenizer_state(p).escaped,
        w.len() > 0,
        forall|i: int| 0 <= i < w.len() ==> #[trigger] plain_char(w[i]),
    ensures
        tokenizer_state(p + w) == (TokenizerState { tokens: tokenizer_state(p).tokens, token: Some(w), escaped: false }),
    decreases w.len(),
{
    let c = w.last();
    let w0 = w.drop_last();
    assert(p + w == (p + w0).push(c));
    lemma_tokenizer_push(p + w0, c);
    assert(plain_char(w[w.len() - 1]));
    if w0.len() == 0 {
        assert(p + w0 == p);
        assert(seq![c] == w);
    } else {
        assert forall|i: int| 0 <= i < w0.len() implies #[trigger] plain_char(w0[i]) by {
            assert(w0[i] == w[i]);
        }
        lemma_tokenizer_word(p, w0);
        assert(w0.push(c) == w);
    }
}


/// The tokens of `@wip and not @slow`.
proof fn lemma_tokens_wip_and_not_slow()
    ensures
        tokenize_spec("@wip and not @slow"@) == seq!["@wip"@, "and"@, "not"@, "@slow"@],
{
    reveal_strlit("@wip and not @slow");
    reveal_strlit("@wip");
    reveal_strlit("and");
    reveal_strlit("not");
    reveal_strlit("@slow");
    let e: Seq<char> = Seq::empty();
    let none: Seq<Seq<char>> = Seq::empty();
    assert(forall|i: int| 0 <= i < "@wip"@.len() ==> #[trigger] plain_char("@wip"@[i]));
    assert(forall|i: int| 0 <= i < "and"@.len() ==> #[trigger] plain_char("and"@[i]));
    assert(forall|i: int| 0 <= i < "not"@.len() ==> #[trigger] plain_char("not"@[i]));
    assert(forall|i: int| 0 <= i < "@slow"@.len() ==> #[trigger] plain_char("@slow"@[i]));
    lemma_tokenizer_word(e, "@wip"@);
    let p1 = (e + "@wip"@).push(' ');
    lemma_tokenizer_push(e + "@wip"@, ' ');
    assert(tokenizer_state(p1).tokens == seq!["@wip"@]);
    lemma_tokenizer_word(p1, "and"@);
    let p2 = (p1 + "and"@).push(' ');
    lemma_tokenizer_push(p1 + "and"@, ' ');
    assert(tokenizer_state(p2).tokens == seq!["@wip"@, "and"@]);
    lemma_tokenizer_word(p2, "not"@);
    let p3 = (p2 + "not"@).push(' ');
    lemma_tokenizer_push(p2 + "not"@, ' ');
    assert(tokenizer_state(p3).tokens == seq!["@wip"@, "and"@, "not"@]);
    lemma_tokenizer_word(p3, "@slow"@);
    assert(p3 + "@slow"@ == "@wip and not @slow"@);
    assert(tokenize_spec(p3 + "@slow"@) == seq!["@wip"@, "and"@, "not"@, "@slow"@]);
}

/// A scenario satisfies `@wip and not @slow` exactly when it is tagged `@wip`
/// and not tagged `@slow`, whatever other tags it carries.
pub proof fn lemma_wip_and_not_slow(tags: Seq<Tag>)
    ensures
        parse_spec("@wip and not @slow"@) matches Ok(e) && eval(e, tag_names(tags)) == (
            tag_names(tags).contains("@wip"@) && !tag_names(tags).contains("@slow"@)),
{
    lemma_tokens_wip_and_not_slow();
    lemma_token_literals();
    reveal_strlit("@wip");
    reveal_strlit("@slow");
    reveal_strlit("and");
    reveal_strlit("not");
    reveal_strlit("or");
    reveal_strlit("(");
    reveal_strlit(")");
    assert("@wip"@.len() == 4 && "@slow"@.len() == 5);
    assert("@wip"@ != "("@ && "@wip"@ != ")"@ && "@wip"@ != "or"@ && "@wip"@ != "and"@ && "@wip"@ != "not"@);
    assert("@slow"@ != "("@ && "@slow"@ != ")"@ && "@slow"@ != "or"@ && "@slow"@ != "and"@ && "@slow"@ != "not"@);
    lemma_and_not("@wip"@, "@slow"@);
    reveal_with_fuel(eval, 3);
}


/// `(a or b) and (not c)` reads as the alternative of `a` and `b` together
/// with the negation of `c`.
pub proof fn lemma_grouped_or_and_not(a: Seq<char>, b: Seq<char>, c: Seq<char>)
    requires
        is_tag_token(a),
        is_tag_token(b),
        is_tag_token(c),
    ensures
        parse_tokens(seq!["("@, a, "or"@, b, ")"@, "and"@, "("@, "not"@, c, ")"@]) == Ok::<TagExpr, Seq<char>>(
            TagExpr::And(
                Box::new(TagExpr::Or(Box::new(lit(a)), Box::new(lit(b)))),
                Box::new(TagExpr::Not(Box::new(lit(c)))),
            ),
        ),
{
    lemma_token_literals();
    let e: Seq<Seq<char>> = Seq::empty();
    let no: Seq<TagExpr> = Seq::empty();
    let init = initial_state();
    let q1 = e.push("("@);
    let q2 = q1.push(a);
    let q3 = q2.push("or"@);
    let q4 = q3.push(b);
    let q5 = q4.push(")"@);
    let q6 = q5.push("and"@);
    let q7 = q6.push("("@);
    let q8 = q7.push("not"@);
    let q9 = q8.push(c);
    let q10 = q9.push(")"@);
    assert(q10 == seq!["("@, a, "or"@, b, ")"@, "and"@, "("@, "not"@, c, ")"@]);
    lemma_run_push(init, e, "("@);
    lemma_run_push(init, q1, a);
    lemma_run_push(init, q2, "or"@);
    lemma_run_push(init, q3, b);
    lemma_run_push(init, q4, ")"@);
    lemma_run_push(init, q5, "and"@);
    lemma_run_push(init, q6, "("@);
    lemma_run_push(init, q7, "not"@);
    lemma_run_push(init, q8, c);
    lemma_run_push(init, q9, ")"@);
    let ab = TagExpr::Or(Box::new(lit(a)), Box::new(lit(b)));
    let nc = TagExpr::Not(Box::new(lit(c)));
    let whole = TagExpr::And(Box::new(ab), Box::new(nc));

    let s1 = ParseState { ops: seq!["("@], exprs: no, expected: TokenType::Operand };
    assert(e.push("("@) == seq!["("@]);
    assert(parse_step(init, "("@) == Ok::<ParseState, Seq<char>>(s1));
    let s2 = ParseState { ops: seq!["("@], exprs: seq![lit(a)], expected: TokenType::Operator };
    assert(no.push(lit(a)) == seq![lit(a)]);
    assert(parse_step(s1, a) == Ok::<ParseState, Seq<char>>(s2));
    let s3 = ParseState { ops: seq!["("@, "or"@], exprs: seq![lit(a)], expected: TokenType::Operand };
    assert(reduce_before("or"@, seq!["("@], seq![lit(a)]) == Ok::<(Seq<Seq<char>>, Seq<TagExpr>), Seq<char>>((seq!["("@], seq![lit(a)])));
    assert(seq!["("@].push("or"@) == seq!["("@, "or"@]);
    assert(parse_step(s2, "or"@) == Ok::<ParseState, Seq<char>>(s3));
    let s4 = ParseState { ops: seq!["("@, "or"@], exprs: seq![lit(a), lit(b)], expected: TokenType::Operator };
    assert(seq![lit(a)].push(lit(b)) == seq![lit(a), lit(b)]);
    assert(parse_step(s3, b) == Ok::<ParseState, Seq<char>>(s4));
    let s5 = ParseState { ops: e, exprs: seq![ab], expected: TokenType::Operator };
    assert(seq![lit(a), lit(b)].subrange(0, 0) == no);
    assert(no.push(ab) == seq![ab]);
    assert(apply_token("or"@, seq![lit(a), lit(b)]) == Ok::<Seq<TagExpr>, Seq<char>>(seq![ab]));
    assert(seq!["("@, "or"@].drop_last() == seq!["("@]);
    assert(seq!["("@].drop_last() == e);
    assert(reduce_to_paren(seq!["("@], seq![ab]) == Ok::<(Seq<Seq<char>>, Seq<TagExpr>), Seq<char>>((seq!["("@], seq![ab])));
    assert(reduce_to_paren(seq!["("@, "or"@], seq![lit(a), lit(b)]) == Ok::<(Seq<Seq<char>>, Seq<TagExpr>), Seq<char>>((seq!["("@], seq![ab])));
    assert(parse_step(s4, ")"@) == Ok::<ParseState, Seq<char>>(s5));
    let s6 = ParseState { ops: seq!["and"@], exprs: seq![ab], expected: TokenType::Operand };
    assert(reduce_before("and"@, e, seq![ab]) == Ok::<(Seq<Seq<char>>, Seq<TagExpr>), Seq<char>>((e, seq![ab])));
    assert(e.push("and"@) == seq!["and"@]);
    assert(parse_step(s5, "and"@) == Ok::<ParseState, Seq<char>>(s6));
    let s7 = ParseState { ops: seq!["and"@, "("@], exprs: seq![ab], expected: TokenType::Operand };
    assert(seq!["and"@].push("("@) == seq!["and"@, "("@]);
    assert(parse_step(s6, "("@) == Ok::<ParseState, Seq<char>>(s7));
    let s8 = ParseState { ops: seq!["and"@, "("@, "not"@], exprs: seq![ab], expected: TokenType::Operand };
    assert(seq!["and"@, "("@].push("not"@) == seq!["and"@, "("@, "not"@]);
    assert(parse_step(s7, "not"@) == Ok::<ParseState, Seq<char>>(s8));
    let s9 = ParseState { ops: seq!["and"@, "("@, "not"@], exprs: seq![ab, lit(c)], expected: TokenType::Operator };
    assert(seq![ab].push(lit(c)) == seq![ab, lit(c)]);
    assert(parse_step(s8, c) == Ok::<ParseState, Seq<char>>(s9));
    let s10 = ParseState { ops: seq!["and"@], exprs: seq![ab, nc], expected: TokenType::Operator };
    assert(seq![ab, lit(c)].drop_last() == seq![ab]);
    assert(seq![ab].push(nc) == seq![ab, nc]);
    assert(apply_token("not"@, seq![ab, lit(c)]) == Ok::<Seq<TagExpr>, Seq<char>>(seq![ab, nc]));
    assert(seq!["and"@, "("@, "not"@].drop_last() == seq!["and"@, "("@]);
    assert(seq!["and"@, "("@].drop_last() == seq!["and"@]);
    assert(reduce_to_paren(seq!["and"@, "("@], seq![ab, nc]) == Ok::<(Seq<Seq<char>>, Seq<TagExpr>), Seq<char>>((seq!["and"@, "("@], seq![ab, nc])));
    assert(reduce_to_paren(seq!["and"@, "("@, "not"@], seq![ab, lit(c)]) == Ok::<(Seq<Seq<char>>, Seq<TagExpr>), Seq<char>>((seq!["and"@, "("@], seq![ab, nc])));
    assert(parse_step(s9, ")"@) == Ok::<ParseState, Seq<char>>(s10));
    assert(run_tokens(init, q10) == Ok::<ParseState, Seq<char>>(s10));
    assert(seq![ab, nc].subrange(0, 0) == no);
    assert(no.push(whole) == seq![whole]);
    assert(apply_token("and"@, seq![ab, nc]) == Ok::<Seq<TagExpr>, Seq<char>>(seq![whole]));
    assert(seq!["and"@].drop_last() == e);
    assert(finish(e, seq![whole]) == Ok::<TagExpr, Seq<char>>(whole));
    assert(finish(seq!["and"@], seq![ab, nc]) == Ok::<TagExpr, Seq<char>>(whole));
}


/// The tokens of `(@smoke or @ui) and (not @slow)`.
proof fn lemma_tokens_smoke_or_ui_and_not_slow()
    ensures
        tokenize_spec("(@smoke or @ui) and (not @slow)"@) == seq![
            "("@, "@smoke"@, "or"@, "@ui"@, ")"@, "and"@, "("@, "not"@, "@slow"@, ")"@,
        ],
{
    reveal_strlit("(@smoke or @ui) and (not @slow)");
    reveal_strlit("@smoke");
    reveal_strlit("@ui");
    reveal_strlit("or");
    reveal_strlit("and");
    reveal_strlit("not");
    reveal_strlit("@slow");
    reveal_strlit("(");
    reveal_strlit(")");
    let e: Seq<char> = Seq::empty();
    assert(forall|i: int| 0 <= i < "@smoke"@.len() ==> #[trigger] plain_char("@smoke"@[i]));
    assert(forall|i: int| 0 <= i < "@ui"@.len() ==> #[trigger] plain_char("@ui"@[i]));
    assert(forall|i: int| 0 <= i < "or"@.len() ==> #[trigger] plain_char("or"@[i]));
    assert(forall|i: int| 0 <= i < "and"@.len() ==> #[trigger] plain_char("and"@[i]));
    assert(forall|i: int| 0 <= i < "not"@.len() ==> #[trigger] plain_char("not"@[i]));
    assert(forall|i: int| 0 <= i < "@slow"@.len() ==> #[trigger] plain_char("@slow"@[i]));
    assert(seq!['('] == "("@);
    assert(seq![')'] == ")"@);
    assert(tokenizer_state(e) == (TokenizerState { tokens: Seq::empty(), token: None, escaped: false }));
    lemma_tokenizer_push(e, '(');
    let p0 = e.push('(');
    assert(tokenizer_state(p0).tokens == seq!["("@]);
    lemma_tokenizer_word(p0, "@smoke"@);
    lemma_tokenizer_push(p0 + "@smoke"@, ' ');
    let p1 = (p0 + "@smoke"@).push(' ');
    assert(tokenizer_state(p1).tokens == seq!["("@, "@smoke"@]);
    lemma_tokenizer_word(p1, "or"@);
    lemma_tokenizer_push(p1 + "or"@, ' ');
    let p2 = (p1 + "or"@).push(' ');
    assert(tokenizer_state(p2).tokens == seq!["("@, "@smoke"@, "or"@]);
    lemma_tokenizer_word(p2, "@ui"@);
    lemma_tokenizer_push(p2 + "@ui"@, ')');
    let p3 = (p2 + "@ui"@).push(')');
    assert(tokenizer_state(p3).tokens == seq!["("@, "@smoke"@, "or"@, "@ui"@, ")"@]);
    lemma_tokenizer_push(p3, ' ');
    let p4 = p3.push(' ');
    assert(tokenizer_state(p4).tokens == seq!["("@, "@smoke"@, "or"@, "@ui"@, ")"@]);
    lemma_tokenizer_word(p4, "and"@);
    lemma_tokenizer_push(p4 + "and"@, ' ');
    let p5 = (p4 + "and"@).push(' ');
    assert(tokenizer_state(p5).tokens == seq!["("@, "@smoke"@, "or"@, "@ui"@, ")"@, "and"@]);
    lemma_tokenizer_push(p5, '(');
    let p6 = p5.push('(');
    assert(tokenizer_state(p6).tokens == seq!["("@, "@smoke"@, "or"@, "@ui"@, ")"@, "and"@, "("@]);
    lemma_tokenizer_word(p6, "not"@);
    lemma_tokenizer_push(p6 + "not"@, ' ');
    let p7 = (p6 + "not"@).push(' ');
    assert(tokenizer_state(p7).tokens == seq!["("@, "@smoke"@, "or"@, "@ui"@, ")"@, "and"@, "("@, "not"@]);
    lemma_tokenizer_word(p7, "@slow"@);
    lemma_tokenizer_push(p7 + "@slow"@, ')');
    let p8 = (p7 + "@slow"@).push(')');
    assert(tokenizer_state(p8).tokens == seq![
        "("@, "@smoke"@, "or"@, "@ui"@, ")"@, "and"@, "("@, "not"@, "@slow"@, ")"@,
    ]);
    assert(p8 == "(@smoke or @ui) and (not @slow)"@);
}

/// A scenario satisfies `(@smoke or @ui) and (not @slow)` exactly when it is
/// tagged `@smoke` or `@ui`, and not tagged `@slow`.
pub proof fn lemma_smoke_or_ui_and_not_slow(tags: Seq<Tag>)
    ensures
        parse_spec("(@smoke or @ui) and (not @slow)"@) matches Ok(e) && eval(e, tag_names(tags)) == (
            (tag_names(tags).contains("@smoke"@) || tag_names(tags).contains("@ui"@))
            && !tag_names(tags).contains("@slow"@)),
{
    lemma_tokens_smoke_or_ui_and_not_slow();
    lemma_token_literals();
    reveal_strlit("@smoke");
    reveal_strlit("@ui");
    reveal_strlit("@slow");
    reveal_strlit("and");
    reveal_strlit("not");
    reveal_strlit("or");
    reveal_strlit("(");
    reveal_strlit(")");
    assert("@smoke"@.len() == 6 && "@ui"@.len() == 3 && "@slow"@.len() == 5);
    assert("@smoke"@ != "("@ && "@smoke"@ != ")"@ && "@smoke"@ != "or"@ && "@smoke"@ != "and"@ && "@smoke"@ != "not"@);
    assert("@ui"@ != "("@ && "@ui"@ != ")"@ && "@ui"@ != "or"@ && "@ui"@[0] != "and"@[0] && "@ui"@[0] != "not"@[0]);
    assert("@slow"@ != "("@ && "@slow"@ != ")"@ && "@slow"@ != "or"@ && "@slow"@ != "and"@ && "@slow"@ != "not"@);
    lemma_grouped_or_and_not("@smoke"@, "@ui"@, "@slow"@);
    reveal_with_fuel(eval, 3);
}


/// Whether a token has the shape that the tokenizer gives: a parenthesis on
/// its own, or one or more characters none of which is whitespace, a
/// parenthesis or the escaping character.
pub open spec fn well_formed_token(t: Seq<char>) -> bool {
    ||| t == seq!['(']
    ||| t == seq![')']
    ||| t.len() > 0 && forall|i: int| 0 <= i < t.len() ==> #[trigger] plain_char(t[i])
}

/// Whether a tokenizer state holds well formed tokens only, and a token being
/// read of plain characters.
pub open spec fn well_formed_state(st: TokenizerState) -> bool {
    &&& forall|k: int| 0 <= k < st.tokens.len() ==> #[trigger] well_formed_token(st.tokens[k])
    &&& match st.token {
        Some(t) => t.len() > 0 && forall|i: int| 0 <= i < t.len() ==> #[trigger] plain_char(t[i]),
        None => true,
    }
}

proof fn lemma_tokenizer_well_formed(chars: Seq<char>)
    ensures
        well_formed_state(tokenizer_state(chars)),
    decreases chars.len(),
{
    if chars.len() > 0 {
        lemma_tokenizer_well_formed(chars.drop_last());
        let st = tokenizer_state(chars.drop_last());
        let c = chars.last();
        let next = tokenizer_state(chars);
        assert(next == tokenizer_step(st, c));
        if c == ESCAPING_CHAR {
        } else if char_is_whitespace(c) {
            if let Some(t) = st.token {
                assert(well_formed_token(t));
                assert forall|k: int| 0 <= k < next.tokens.len() implies #[trigger] well_formed_token(next.tokens[k]) by {
                    if k < st.tokens.len() {
                        assert(next.tokens[k] == st.tokens[k]);
                    }
                }
            }
        } else if c == '(' || c == ')' {
            if !st.escaped {
                let flushed = flush(st.tokens, st.token);
                assert forall|k: int| 0 <= k < flushed.len() implies #[trigger] well_formed_token(flushed[k]) by {
                    if k < st.tokens.len() {
                        assert(flushed[k] == st.tokens[k]);
                    } else {
                        let t = st.token->0;
                        assert(flushed[k] == t);
                        assert(well_formed_token(t));
                    }
                }
                assert forall|k: int| 0 <= k < next.tokens.len() implies #[trigger] well_formed_token(next.tokens[k]) by {
                    if k < flushed.len() {
                        assert(next.tokens[k] == flushed[k]);
                    }
                }
            }
        } else {
            assert(plain_char(c));
            match st.token {
                Some(t) => {
                    let t2 = t.push(c);
                    assert forall|i: int| 0 <= i < t2.len() implies #[trigger] plain_char(t2[i]) by {
                        if i < t.len() {
                            assert(t2[i] == t[i]);
                        }
                    }
                },
                None => {
                    assert(seq![c][0] == c);
                },
            }
        }
    }
}

/// Every token of a tag expression text is a parenthesis on its own, or one
/// or more characters none of which is whitespace, a parenthesis or the
/// escaping character.
pub proof fn lemma_tokens_well_formed(chars: Seq<char>)
    ensures
        forall|k: int| 0 <= k < tokenize_spec(chars).len() ==> #[trigger] well_formed_token(tokenize_spec(chars)[k]),
{
    lemma_tokenizer_well_formed(chars);
    let st = tokenizer_state(chars);
    let ts = tokenize_spec(chars);
    assert forall|k: int| 0 <= k < ts.len() implies #[trigger] well_formed_token(ts[k]) by {
        if k < st.tokens.len() {
            assert(ts[k] == st.tokens[k]);
        } else {
            let t = st.token->0;
            assert(ts[k] == t);
            assert(well_formed_token(t));
        }
    }
}

/// The tag names of an expression, read from left to right.
pub open spec fn literals(e: TagExpr) -> Seq<Seq<char>>
    decreases e,
{
    match e {
        TagExpr::Literal(v) => seq![v],
        TagExpr::Or(l, r) => literals(*l) + literals(*r),
        TagExpr::And(l, r) => literals(*l) + literals(*r),
        TagExpr::Not(x) => literals(*x),
        TagExpr::True => Seq::empty(),
    }
}

/// The tag names of a stack of expressions, bottom first.
pub open spec fn stack_literals(exprs: Seq<TagExpr>) -> Seq<Seq<char>>
    decreases exprs.len(),
{
    if exprs.len() == 0 {
        Seq::empty()
    } else {
        stack_literals(exprs.drop_last()) + literals(exprs.last())
    }
}

/// The tag tokens among the tokens, in order.
pub open spec fn tag_tokens(tokens: Seq<Seq<char>>) -> Seq<Seq<char>>
    decreases tokens.len(),
{
    if tokens.len() == 0 {
        Seq::empty()
    } else if is_tag_token(tokens.last()) {
        tag_tokens(tokens.drop_last()).push(tokens.last())
    } else {
        tag_tokens(tokens.drop_last())
    }
}

/// The number of binary operators on an operator stack.
pub open spec fn binary_count(ops: Seq<Seq<char>>) -> nat
    decreases ops.len(),
{
    if ops.len() == 0 {
        0
    } else if spec_is_binary(ops.last()) {
        binary_count(ops.drop_last()) + 1
    } else {
        binary_count(ops.drop_last())
    }
}

/// Whether an operator stack holds operators and opening parentheses only.
pub open spec fn stack_ops(ops: Seq<Seq<char>>) -> bool {
    forall|k: int| 0 <= k < ops.len() ==> (#[trigger] spec_is_operator(ops[k]) || ops[k] == "("@)
}

/// What the parser keeps between tokens: the tag names on the expression
/// stack are the tag tokens read, the operator stack holds operators and
/// parentheses, and the expression stack holds one operand for each binary
/// operator, and one more where an operator is due.
pub open spec fn parse_invariant(st: ParseState, read: Seq<Seq<char>>) -> bool {
    &&& stack_literals(st.exprs) == tag_tokens(read)
    &&& stack_ops(st.ops)
    &&& st.exprs.len() == binary_count(st.ops) + if st.expected == TokenType::Operator { 1int } else { 0int }
}

proof fn lemma_stack_literals_push(exprs: Seq<TagExpr>, e: TagExpr)
    ensures
        stack_literals(exprs.push(e)) == stack_literals(exprs) + literals(e),
{
    assert(exprs.push(e).drop_last() == exprs);
}

proof fn lemma_push_counts(ops: Seq<Seq<char>>, t: Seq<char>)
    ensures
        binary_count(ops.push(t)) == binary_count(ops) + if spec_is_binary(t) { 1int } else { 0int },
        stack_ops(ops) && (spec_is_operator(t) || t == "("@) ==> stack_ops(ops.push(t)),
{
    assert(ops.push(t).drop_last() == ops);
    if stack_ops(ops) && (spec_is_operator(t) || t == "("@) {
        assert forall|k: int| 0 <= k < ops.push(t).len() implies (#[trigger] spec_is_operator(ops.push(t)[k]) || ops.push(t)[k] == "("@) by {
            if k < ops.len() {
                assert(ops.push(t)[k] == ops[k]);
            }
        }
    }
}

proof fn lemma_drop_counts(ops: Seq<Seq<char>>)
    requires
        ops.len() > 0,
    ensures
        binary_count(ops) == binary_count(ops.drop_last()) + if spec_is_binary(ops.last()) { 1int } else { 0int },
        stack_ops(ops) ==> stack_ops(ops.drop_last()),
        stack_ops(ops) ==> (spec_is_operator(ops.last()) || ops.last() == "("@),
{
    if stack_ops(ops) {
        assert forall|k: int| 0 <= k < ops.drop_last().len() implies (#[trigger] spec_is_operator(ops.drop_last()[k]) || ops.drop_last()[k] == "("@) by {
            assert(ops.drop_last()[k] == ops[k]);
        }
        assert(spec_is_operator(ops[ops.len() - 1]) || ops[ops.len() - 1] == "("@);
    }
}

/// Applying an operator keeps the tag names on the expression stack, and a
/// binary one takes one expression off it.
proof fn lemma_apply_keeps_literals(op: Seq<char>, exprs: Seq<TagExpr>)
    requires
        spec_is_operator(op),
        apply_token(op, exprs) is Ok,
    ensures
        stack_literals(apply_token(op, exprs)->Ok_0) == stack_literals(exprs),
        apply_token(op, exprs)->Ok_0.len() == exprs.len() - if spec_is_binary(op) { 1int } else { 0int },
{
    lemma_token_literals();
    let ex2 = apply_token(op, exprs)->Ok_0;
    if op == "and"@ || op == "or"@ {
        let n = exprs.len();
        let l = exprs[n - 2];
        let r = exprs[n - 1];
        let rest = exprs.subrange(0, n - 2);
        let b = if op == "and"@ { TagExpr::And(Box::new(l), Box::new(r)) } else { TagExpr::Or(Box::new(l), Box::new(r)) };
        assert(ex2 == rest.push(b));
        lemma_stack_literals_push(rest, b);
        assert(literals(b) == literals(l) + literals(r));
        assert(exprs.drop_last() == rest.push(l));
        assert(exprs.last() == r);
        lemma_stack_literals_push(rest, l);
        assert(stack_literals(exprs) == stack_literals(rest) + literals(l) + literals(r));
        assert(stack_literals(rest) + literals(l) + literals(r) == stack_literals(rest) + (literals(l) + literals(r)));
    } else {
        let x = exprs.last();
        let nx = TagExpr::Not(Box::new(x));
        assert(ex2 == exprs.drop_last().push(nx));
        lemma_stack_literals_push(exprs.drop_last(), nx);
        assert(literals(nx) == literals(x));
    }
}

/// Applying the operators that bind at least as tightly as an incoming one
/// keeps the tag names and the balance of operands and binary operators.
proof fn lemma_reduce_before_keeps(token: Seq<char>, ops: Seq<Seq<char>>, exprs: Seq<TagExpr>)
    requires
        stack_ops(ops),
        reduce_before(token, ops, exprs) is Ok,
    ensures
        stack_literals(reduce_before(token, ops, exprs)->Ok_0.1) == stack_literals(exprs),
        stack_ops(reduce_before(token, ops, exprs)->Ok_0.0),
        reduce_before(token, ops, exprs)->Ok_0.1.len() - binary_count(reduce_before(token, ops, exprs)->Ok_0.0)
            == exprs.len() - binary_count(ops),
    decreases ops.len(),
{
    if ops.len() > 0 && spec_is_operator(ops.last()) && yields_to(token, ops.last()) {
        lemma_apply_keeps_literals(ops.last(), exprs);
        lemma_drop_counts(ops);
        lemma_reduce_before_keeps(token, ops.drop_last(), apply_token(ops.last(), exprs)->Ok_0);
    }
}

/// Applying the operators down to the nearest `(` keeps the tag names and
/// the balance, and stops at a `(` or an empty stack.
proof fn lemma_reduce_to_paren_keeps(ops: Seq<Seq<char>>, exprs: Seq<TagExpr>)
    requires
        stack_ops(ops),
        reduce_to_paren(ops, exprs) is Ok,
    ensures
        stack_literals(reduce_to_paren(ops, exprs)->Ok_0.1) == stack_literals(exprs),
        stack_ops(reduce_to_paren(ops, exprs)->Ok_0.0),
        reduce_to_paren(ops, exprs)->Ok_0.1.len() - binary_count(reduce_to_paren(ops, exprs)->Ok_0.0)
            == exprs.len() - binary_count(ops),
        reduce_to_paren(ops, exprs)->Ok_0.0.len() == 0 || reduce_to_paren(ops, exprs)->Ok_0.0.last() == "("@,
    decreases ops.len(),
{
    if ops.len() > 0 && ops.last() != "("@ {
        lemma_drop_counts(ops);
        lemma_apply_keeps_literals(ops.last(), exprs);
        lemma_reduce_to_paren_keeps(ops.drop_last(), apply_token(ops.last(), exprs)->Ok_0);
    }
}

/// Finishing with at most one operand more than binary operators succeeds
/// only with exactly one more, and gives an expression with the tag names of
/// the whole stack.
proof fn lemma_finish_literals(ops: Seq<Seq<char>>, exprs: Seq<TagExpr>)
    requires
        stack_ops(ops),
        exprs.len() <= binary_count(ops) + 1,
        finish(ops, exprs) is Ok,
    ensures
        exprs.len() == binary_count(ops) + 1,
        literals(finish(ops, exprs)->Ok_0) == stack_literals(exprs),
    decreases ops.len(),
{
    if ops.len() == 0 {
        assert(exprs.drop_last().len() == 0);
        assert(stack_literals(exprs.drop_last()) == Seq::<Seq<char>>::empty());
        assert(stack_literals(exprs) == Seq::<Seq<char>>::empty() + literals(exprs.last()));
        assert(Seq::<Seq<char>>::empty() + literals(exprs.last()) == literals(exprs.last()));
    } else {
        lemma_drop_counts(ops);
        lemma_apply_keeps_literals(ops.last(), exprs);
        lemma_finish_literals(ops.drop_last(), apply_token(ops.last(), exprs)->Ok_0);
    }
}

proof fn lemma_tag_tokens_push(tokens: Seq<Seq<char>>, t: Seq<char>)
    ensures
        tag_tokens(tokens.push(t)) == if is_tag_token(t) { tag_tokens(tokens).push(t) } else { tag_tokens(tokens) },
{
    assert(tokens.push(t).drop_last() == tokens);
}

/// One parser step keeps the invariant.
proof fn lemma_parse_step_keeps(st: ParseState, read: Seq<Seq<char>>, t: Seq<char>)
    requires
        parse_invariant(st, read),
        parse_step(st, t) is Ok,
    ensures
        parse_invariant(parse_step(st, t)->Ok_0, read.push(t)),
{
    lemma_token_literals();
    lemma_tag_tokens_push(read, t);
    let next = parse_step(st, t)->Ok_0;
    if spec_is_unary(t) {
        lemma_push_counts(st.ops, t);
    } else if spec_is_binary(t) {
        lemma_reduce_before_keeps(t, st.ops, st.exprs);
        let (ops2, ex2) = reduce_before(t, st.ops, st.exprs)->Ok_0;
        lemma_push_counts(ops2, t);
    } else if t == "("@ {
        lemma_push_counts(st.ops, t);
    } else if t == ")"@ {
        lemma_reduce_to_paren_keeps(st.ops, st.exprs);
        let (ops2, ex2) = reduce_to_paren(st.ops, st.exprs)->Ok_0;
        lemma_drop_counts(ops2);
    } else {
        lemma_stack_literals_push(st.exprs, TagExpr::Literal(t));
        assert(literals(TagExpr::Literal(t)) == seq![t]);
        assert(tag_tokens(read) + seq![t] == tag_tokens(read).push(t));
    }
}

/// Reading tokens from the start keeps the invariant.
proof fn lemma_run_tokens_keeps(tokens: Seq<Seq<char>>)
    requires
        run_tokens(initial_state(), tokens) is Ok,
    ensures
        parse_invariant(run_tokens(initial_state(), tokens)->Ok_0, tokens),
    decreases tokens.len(),
{
    if tokens.len() == 0 {
        assert(stack_literals(Seq::<TagExpr>::empty()) == Seq::<Seq<char>>::empty());
    } else {
        let before = tokens.drop_last();
        lemma_run_tokens_keeps(before);
        lemma_parse_step_keeps(run_tokens(initial_state(), before)->Ok_0, before, tokens.last());
        assert(before.push(tokens.last()) == tokens);
    }
}

/// The tag names of a parsed expression, read from left to right, are its
/// tag tokens, in the order in which they stand; for a text, the tokens are
/// `tokenize_spec` of it, as `parse_spec` reads them.
pub proof fn lemma_parse_keeps_tag_order(tokens: Seq<Seq<char>>)
    requires
        parse_tokens(tokens) is Ok,
    ensures
        literals(parse_tokens(tokens)->Ok_0) == tag_tokens(tokens),
{
    if tokens.len() == 0 {
    } else {
        lemma_run_tokens_keeps(tokens);
        let st = run_tokens(initial_state(), tokens)->Ok_0;
        lemma_finish_literals(st.ops, st.exprs);
    }
}
} // verus!
