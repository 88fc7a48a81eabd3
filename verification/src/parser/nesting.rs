//! What precedence climbing guarantees of every expression that it builds.
//!
//! Two facts pin the tree down. Read from left to right, the tree spells the
//! children of its node, operand for operand and operator for operator
//! ([`lemma_expr_spells_its_node`]); and it is nested by binding power
//! ([`lemma_expr_is_well_nested`]): an operator takes as its right operand
//! only what binds more tightly than itself, and as its left operand what
//! binds at least as tightly, down the whole right edge of that operand.
//! No other tree has both properties ([`lemma_expr_is_unique`]).

use vstd::prelude::*;
use crate::ast::{BinaryOp, ExprModel, UnaryOp};
use crate::cst::{Cst, Rule};
use crate::error::{mismatch, StructuralError};
use crate::parser::expr::{
    climb_of, expr_of, exprs_upto, extend_of, infix_of, infix_power, operand_of, prefix_of,
    prefix_power, primary_of,
};
use crate::parser::ident::ident_name;
use crate::parser::literal::literal_of;

verus! {

/// Whether an expression may stand to the left of an infix operator of the
/// binding power `power`: along its right edge, down to its last operand,
/// every infix operator binds at least as tightly and every prefix operator
/// binds more tightly. Were it otherwise, that operator would have taken in
/// the one that follows.
pub open spec fn fits_left(e: ExprModel, power: nat) -> bool
    decreases e,
{
    match e {
        ExprModel::Binary(_, op, rhs) => infix_power(op) >= power && fits_left(*rhs, power),
        ExprModel::Unary(op, rhs) => prefix_power(op) > power && fits_left(*rhs, power),
        _ => true,
    }
}

/// Whether an expression may stand to the right of an operator that takes
/// in what binds more tightly than `min`.
pub open spec fn fits_right(e: ExprModel, min: nat) -> bool {
    match e {
        ExprModel::Binary(_, op, _) => infix_power(op) > min,
        _ => true,
    }
}

/// Whether an expression is nested by binding power, in all its parts.
pub open spec fn well_nested(e: ExprModel) -> bool
    decreases e,
{
    match e {
        ExprModel::Binary(lhs, op, rhs) => {
            &&& well_nested(*lhs)
            &&& well_nested(*rhs)
            &&& fits_left(*lhs, infix_power(op))
            &&& fits_right(*rhs, infix_power(op))
        },
        ExprModel::Unary(op, rhs) => {
            &&& well_nested(*rhs)
            &&& fits_right(*rhs, (prefix_power(op) - 1) as nat)
        },
        ExprModel::ExprList(list) => forall|i: int|
            0 <= i < list.len() ==> well_nested(#[trigger] list[i]),
        _ => true,
    }
}

/// Whether child `pos` of a node, if there is one, is an infix operator
/// that does not bind more tightly than `min`.
pub open spec fn stops_at(cst: Cst, pos: int, min: nat) -> bool {
    0 <= pos < cst.children.len() ==> {
        &&& infix_of(cst.children[pos].rule) is Some
        &&& infix_power(infix_of(cst.children[pos].rule)->Some_0) <= min
    }
}

/// Whether an expression may stand to the left of child `pos` of a node,
/// if that child is an infix operator.
pub open spec fn fits_next(e: ExprModel, cst: Cst, pos: int) -> bool {
    0 <= pos < cst.children.len() && infix_of(cst.children[pos].rule) is Some ==> fits_left(
        e,
        infix_power(infix_of(cst.children[pos].rule)->Some_0),
    )
}

/// Every expression that is built is nested by binding power.
pub proof fn lemma_expr_is_well_nested(cst: Cst)
    ensures
        expr_of(cst) matches Ok(e) ==> well_nested(e),
    decreases cst, cst.children.len() + 1, 0nat,
{
    if cst.rule == Rule::Expr {
        lemma_climb_is_well_nested(cst, 0, 0);
    }
}

/// Every operand that is built is nested by binding power, and is no
/// application of an infix or a prefix operator.
pub proof fn lemma_primary_is_well_nested(cst: Cst)
    ensures
        primary_of(cst) matches Ok(e) ==> well_nested(e) && !(e is Binary) && !(e is Unary),
    decreases cst, cst.children.len() + 1, 0nat,
{
    if cst.rule == Rule::Exprs {
        lemma_list_is_well_nested(cst, cst.children.len() as int);
    }
}

/// Every expression of a list that is built is nested by binding power.
pub proof fn lemma_list_is_well_nested(cst: Cst, n: int)
    ensures
        exprs_upto(cst, n) matches Ok(list) ==> forall|i: int|
            0 <= i < list.len() ==> well_nested(#[trigger] list[i]),
    decreases cst, n, 0nat,
{
    if 0 < n <= cst.children.len() {
        lemma_list_is_well_nested(cst, n - 1);
        lemma_expr_is_well_nested(cst.children[n - 1]);
    }
}

/// A climb builds an expression that is nested by binding power, that may
/// stand to the right of an operator of the power `min`, and that ends
/// before an operator that does not bind more tightly than `min`.
pub proof fn lemma_climb_is_well_nested(cst: Cst, pos: int, min: nat)
    ensures
        climb_of(cst, pos, min) matches Ok((e, next)) ==> {
            &&& well_nested(e)
            &&& fits_right(e, min)
            &&& pos < next <= cst.children.len()
            &&& stops_at(cst, next, min)
            &&& fits_next(e, cst, next)
        },
    decreases cst, cst.children.len() - pos, 2nat,
{
    if 0 <= pos < cst.children.len() {
        lemma_operand_is_well_nested(cst, pos);
        if let Ok((lhs, next)) = operand_of(cst, pos) {
            lemma_extend_is_well_nested(cst, lhs, next, min);
        }
    }
}

/// An operand with its prefix operators is nested by binding power, is no
/// application of an infix operator, and may stand to the left of the
/// operator that follows it.
pub proof fn lemma_operand_is_well_nested(cst: Cst, pos: int)
    ensures
        operand_of(cst, pos) matches Ok((e, next)) ==> {
            &&& well_nested(e)
            &&& !(e is Binary)
            &&& pos < next <= cst.children.len()
            &&& fits_next(e, cst, next)
        },
    decreases cst, cst.children.len() - pos, 1nat,
{
    if 0 <= pos < cst.children.len() {
        let token = cst.children[pos];
        match prefix_of(token.rule) {
            Some(op) => {
                lemma_climb_is_well_nested(cst, pos + 1, (prefix_power(op) - 1) as nat);
            },
            None => {
                lemma_primary_is_well_nested(token);
            },
        }
    }
}

/// Extending an expression that is nested by binding power, and that may
/// stand to the left of the operator at `pos`, gives one that is nested by
/// binding power. It is the expression itself, or an application of an infix
/// operator that binds more tightly than `min`.
pub proof fn lemma_extend_is_well_nested(cst: Cst, lhs: ExprModel, pos: int, min: nat)
    requires
        0 <= pos <= cst.children.len(),
        well_nested(lhs),
        fits_next(lhs, cst, pos),
    ensures
        extend_of(cst, lhs, pos, min) matches Ok((e, next)) ==> {
            &&& well_nested(e)
            &&& e == lhs || fits_right(e, min) && e is Binary
            &&& pos <= next <= cst.children.len()
            &&& stops_at(cst, next, min)
            &&& fits_next(e, cst, next)
        },
    decreases cst, cst.children.len() - pos, 0nat,
{
    if pos < cst.children.len() {
        let token = cst.children[pos];
        if let Some(op) = infix_of(token.rule) {
            if infix_power(op) > min {
                lemma_climb_is_well_nested(cst, pos + 1, infix_power(op));
                if let Ok((rhs, next)) = climb_of(cst, pos + 1, infix_power(op)) {
                    let taken = ExprModel::Binary(Box::new(lhs), op, Box::new(rhs));
                    assert(well_nested(taken));
                    lemma_extend_is_well_nested(cst, taken, next, min);
                }
            }
        }
    }
}

/// An expression that is built takes in every child of its node.
pub proof fn lemma_expr_takes_all(cst: Cst)
    requires
        expr_of(cst) is Ok,
    ensures
        climb_of(cst, 0, 0) matches Ok((expr, end)) && end == cst.children.len() && expr_of(cst)
            == Ok::<ExprModel, StructuralError>(expr),
{
    lemma_climb_is_well_nested(cst, 0, 0);
}

/// Precedence and associativity, for two operators between three operands:
/// the second operator takes the middle operand if it binds more tightly
/// than the first, and otherwise the first one does.
pub proof fn lemma_two_operators(
    cst: Cst,
    a: ExprModel,
    first: BinaryOp,
    b: ExprModel,
    second: BinaryOp,
    c: ExprModel,
)
    requires
        cst.rule == Rule::Expr,
        cst.children.len() == 5,
        prefix_of(cst.children[0].rule) is None,
        prefix_of(cst.children[2].rule) is None,
        prefix_of(cst.children[4].rule) is None,
        primary_of(cst.children[0]) == Ok::<ExprModel, StructuralError>(a),
        primary_of(cst.children[2]) == Ok::<ExprModel, StructuralError>(b),
        primary_of(cst.children[4]) == Ok::<ExprModel, StructuralError>(c),
        infix_of(cst.children[1].rule) == Some(first),
        infix_of(cst.children[3].rule) == Some(second),
    ensures
        expr_of(cst) == Ok::<ExprModel, StructuralError>(
            if infix_power(second) > infix_power(first) {
                ExprModel::Binary(
                    Box::new(a),
                    first,
                    Box::new(ExprModel::Binary(Box::new(b), second, Box::new(c))),
                )
            } else {
                ExprModel::Binary(
                    Box::new(ExprModel::Binary(Box::new(a), first, Box::new(b))),
                    second,
                    Box::new(c),
                )
            },
        ),
{
    let p = infix_power(first);
    let q = infix_power(second);
    assert(operand_of(cst, 0) == Ok::<(ExprModel, int), StructuralError>((a, 1)));
    assert(operand_of(cst, 2) == Ok::<(ExprModel, int), StructuralError>((b, 3)));
    assert(operand_of(cst, 4) == Ok::<(ExprModel, int), StructuralError>((c, 5)));
    assert(extend_of(cst, c, 5, q) == Ok::<(ExprModel, int), StructuralError>((c, 5)));
    assert(climb_of(cst, 4, q) == Ok::<(ExprModel, int), StructuralError>((c, 5)));
    if q > p {
        let bc = ExprModel::Binary(Box::new(b), second, Box::new(c));
        assert(extend_of(cst, bc, 5, p) == Ok::<(ExprModel, int), StructuralError>((bc, 5)));
        assert(extend_of(cst, b, 3, p) == Ok::<(ExprModel, int), StructuralError>((bc, 5)));
        assert(climb_of(cst, 2, p) == Ok::<(ExprModel, int), StructuralError>((bc, 5)));
        let abc = ExprModel::Binary(Box::new(a), first, Box::new(bc));
        assert(extend_of(cst, abc, 5, 0) == Ok::<(ExprModel, int), StructuralError>((abc, 5)));
        assert(extend_of(cst, a, 1, 0) == Ok::<(ExprModel, int), StructuralError>((abc, 5)));
    } else {
        assert(extend_of(cst, b, 3, p) == Ok::<(ExprModel, int), StructuralError>((b, 3)));
        assert(climb_of(cst, 2, p) == Ok::<(ExprModel, int), StructuralError>((b, 3)));
        let ab = ExprModel::Binary(Box::new(a), first, Box::new(b));
        let abc = ExprModel::Binary(Box::new(ab), second, Box::new(c));
        assert(extend_of(cst, abc, 5, 0) == Ok::<(ExprModel, int), StructuralError>((abc, 5)));
        assert(extend_of(cst, ab, 3, 0) == Ok::<(ExprModel, int), StructuralError>((abc, 5)));
        assert(extend_of(cst, a, 1, 0) == Ok::<(ExprModel, int), StructuralError>((abc, 5)));
    }
    assert(climb_of(cst, 0, 0) is Ok);
}

/// Whether a tag is that of a prefix or an infix operator.
pub open spec fn is_operator(rule: Rule) -> bool {
    prefix_of(rule) is Some || infix_of(rule) is Some
}

/// Whether two trees differ at most in what their operator nodes hold
/// beyond their tags, at whatever depth the operators stand: in how an
/// operator was spelled.
pub open spec fn same_but_spelling(a: Cst, b: Cst) -> bool
    decreases a,
{
    &&& a.rule == b.rule
    &&& is_operator(a.rule) || {
        &&& a.text == b.text
        &&& a.children.len() == b.children.len()
        &&& forall|i: int|
            0 <= i < a.children.len() ==> same_but_spelling(#[trigger] a.children[i], b.children[i])
    }
}

/// The spelling of an operator does not matter: two nodes that differ in
/// nothing else stand for the same expression, wherever in them the
/// operators stand.
pub proof fn lemma_spelling_is_immaterial(a: Cst, b: Cst)
    requires
        same_but_spelling(a, b),
    ensures
        expr_of(a) == expr_of(b),
    decreases a, a.children.len() + 1, 0nat,
{
    if a.rule == Rule::Expr {
        lemma_same_climb(a, b, 0, 0);
    }
}

/// Two trees that differ only in the spelling of operators stand for the
/// same name.
pub proof fn lemma_same_name(a: Cst, b: Cst)
    requires
        same_but_spelling(a, b),
    ensures
        ident_name(a) == ident_name(b),
{
    if a.rule == Rule::Ident && a.children.len() == 1 {
        assert(same_but_spelling(a.children[0], b.children[0]));
    }
}

/// Two trees that differ only in the spelling of operators stand for the
/// same literal.
pub proof fn lemma_same_literal(a: Cst, b: Cst)
    requires
        same_but_spelling(a, b),
    ensures
        literal_of(a) == literal_of(b),
{
    if a.rule == Rule::Literal && a.children.len() == 1 {
        assert(same_but_spelling(a.children[0], b.children[0]));
    }
}

/// Two trees that differ only in the spelling of operators stand for the
/// same operand.
pub proof fn lemma_same_primary(a: Cst, b: Cst)
    requires
        same_but_spelling(a, b),
    ensures
        primary_of(a) == primary_of(b),
    decreases a, a.children.len() + 1, 0nat,
{
    if a.rule == Rule::Literal {
        lemma_same_literal(a, b);
    } else if a.rule == Rule::QualifiedColumn {
        if a.children.len() >= 1 {
            lemma_same_name(a.children[0], b.children[0]);
        }
        if a.children.len() >= 2 {
            lemma_same_name(a.children[1], b.children[1]);
        }
        if a.children.len() >= 3 {
            lemma_same_name(a.children[2], b.children[2]);
        }
    } else if a.rule == Rule::Exprs {
        lemma_same_list(a, b, a.children.len() as int);
    }
}

/// Two trees that differ only in the spelling of operators give the same
/// list of expressions.
pub proof fn lemma_same_list(a: Cst, b: Cst, n: int)
    requires
        same_but_spelling(a, b),
        !is_operator(a.rule),
    ensures
        exprs_upto(a, n) == exprs_upto(b, n),
    decreases a, n, 0nat,
{
    if 0 < n <= a.children.len() {
        lemma_same_list(a, b, n - 1);
        lemma_spelling_is_immaterial(a.children[n - 1], b.children[n - 1]);
    }
}

/// Two nodes that differ only in the spelling of operators give the same
/// climb and the same operand from every position.
pub proof fn lemma_same_climb(a: Cst, b: Cst, pos: int, min: nat)
    requires
        same_but_spelling(a, b),
        !is_operator(a.rule),
    ensures
        climb_of(a, pos, min) == climb_of(b, pos, min),
        operand_of(a, pos) == operand_of(b, pos),
    decreases a, a.children.len() - pos, 1nat,
{
    if 0 <= pos < a.children.len() {
        let token = a.children[pos];
        assert(same_but_spelling(token, b.children[pos]));
        match prefix_of(token.rule) {
            Some(op) => {
                lemma_same_climb(a, b, pos + 1, (prefix_power(op) - 1) as nat);
            },
            None => {
                lemma_same_primary(token, b.children[pos]);
            },
        }
        if let Ok((lhs, next)) = operand_of(a, pos) {
            if pos < next <= a.children.len() {
                lemma_same_extend(a, b, lhs, next, min);
            }
        }
    }
}

/// Two nodes that differ only in the spelling of operators give the same
/// extension of an operand.
pub proof fn lemma_same_extend(a: Cst, b: Cst, lhs: ExprModel, pos: int, min: nat)
    requires
        same_but_spelling(a, b),
        !is_operator(a.rule),
    ensures
        extend_of(a, lhs, pos, min) == extend_of(b, lhs, pos, min),
    decreases a, a.children.len() - pos, 0nat,
{
    if 0 <= pos < a.children.len() {
        let token = a.children[pos];
        assert(same_but_spelling(token, b.children[pos]));
        if let Some(op) = infix_of(token.rule) {
            if infix_power(op) > min {
                lemma_same_climb(a, b, pos + 1, infix_power(op));
                if let Ok((rhs, next)) = climb_of(a, pos + 1, infix_power(op)) {
                    if pos < next <= a.children.len() {
                        lemma_same_extend(
                            a,
                            b,
                            ExprModel::Binary(Box::new(lhs), op, Box::new(rhs)),
                            next,
                            min,
                        );
                    }
                }
            }
        } else {
            assert(mismatch(token) == mismatch(b.children[pos]));
        }
    }
}

/// An inequality between two operands is an application of `Ne`, whatever
/// the text of its operator node: `<>` and `!=` leave no trace.
pub proof fn lemma_inequality(cst: Cst, lhs: ExprModel, rhs: ExprModel)
    requires
        cst.rule == Rule::Expr,
        cst.children.len() == 3,
        cst.children[1].rule == Rule::Ne,
        !is_operator(cst.children[0].rule),
        !is_operator(cst.children[2].rule),
        primary_of(cst.children[0]) == Ok::<ExprModel, StructuralError>(lhs),
        primary_of(cst.children[2]) == Ok::<ExprModel, StructuralError>(rhs),
    ensures
        expr_of(cst) == Ok::<ExprModel, StructuralError>(
            ExprModel::Binary(Box::new(lhs), BinaryOp::Ne, Box::new(rhs)),
        ),
{
    let power = infix_power(BinaryOp::Ne);
    let whole = ExprModel::Binary(Box::new(lhs), BinaryOp::Ne, Box::new(rhs));
    assert(operand_of(cst, 0) == Ok::<(ExprModel, int), StructuralError>((lhs, 1)));
    assert(operand_of(cst, 2) == Ok::<(ExprModel, int), StructuralError>((rhs, 3)));
    assert(extend_of(cst, rhs, 3, power) == Ok::<(ExprModel, int), StructuralError>((rhs, 3)));
    assert(climb_of(cst, 2, power) == Ok::<(ExprModel, int), StructuralError>((rhs, 3)));
    assert(extend_of(cst, whole, 3, 0) == Ok::<(ExprModel, int), StructuralError>((whole, 3)));
    assert(extend_of(cst, lhs, 1, 0) == Ok::<(ExprModel, int), StructuralError>((whole, 3)));
    assert(climb_of(cst, 0, 0) is Ok);
}

/// One word of an expression read from left to right.
pub ghost enum Word {
    Operand(ExprModel),
    Prefix(UnaryOp),
    Infix(BinaryOp),
}

/// An expression read from left to right: each operand that no operator of
/// the expression made, and each operator, in the order of the text.
pub open spec fn spelled(e: ExprModel) -> Seq<Word>
    decreases e,
{
    match e {
        ExprModel::Binary(lhs, op, rhs) => spelled(*lhs) + seq![Word::Infix(op)] + spelled(*rhs),
        ExprModel::Unary(op, rhs) => seq![Word::Prefix(op)] + spelled(*rhs),
        _ => seq![Word::Operand(e)],
    }
}

/// The word that a child of an expression node stands for. A child that is
/// no operator is an operand, and must be one that can be built.
pub open spec fn word_of(cst: Cst) -> Word {
    if prefix_of(cst.rule) is Some {
        Word::Prefix(prefix_of(cst.rule)->Some_0)
    } else if infix_of(cst.rule) is Some {
        Word::Infix(infix_of(cst.rule)->Some_0)
    } else {
        Word::Operand(primary_of(cst)->Ok_0)
    }
}

/// The words of the children of a node from position `from` up to `to`.
pub open spec fn words_of(cst: Cst, from: int, to: int) -> Seq<Word> {
    Seq::new((to - from) as nat, |i: int| word_of(cst.children[from + i]))
}

/// The words of two runs of children that meet make up the words of the
/// whole run.
pub proof fn lemma_words_join(cst: Cst, from: int, mid: int, to: int)
    requires
        0 <= from <= mid <= to <= cst.children.len(),
    ensures
        words_of(cst, from, mid) + words_of(cst, mid, to) == words_of(cst, from, to),
{
    assert(words_of(cst, from, mid) + words_of(cst, mid, to) =~= words_of(cst, from, to));
}

/// An expression that is built spells the children of its node.
pub proof fn lemma_expr_spells_its_node(cst: Cst)
    ensures
        expr_of(cst) matches Ok(e) ==> spelled(e) == words_of(cst, 0, cst.children.len() as int),
{
    if cst.rule == Rule::Expr {
        lemma_climb_spells(cst, 0, 0);
        lemma_climb_is_well_nested(cst, 0, 0);
    }
}

/// A climb spells the children that it takes in; so does an operand.
pub proof fn lemma_climb_spells(cst: Cst, pos: int, min: nat)
    ensures
        climb_of(cst, pos, min) matches Ok((e, next)) ==> pos < next <= cst.children.len()
            && spelled(e) == words_of(cst, pos, next),
        operand_of(cst, pos) matches Ok((e, next)) ==> pos < next <= cst.children.len()
            && spelled(e) == words_of(cst, pos, next),
    decreases cst.children.len() - pos, 1nat,
{
    if 0 <= pos < cst.children.len() {
        let token = cst.children[pos];
        match prefix_of(token.rule) {
            Some(op) => {
                lemma_climb_spells(cst, pos + 1, (prefix_power(op) - 1) as nat);
                if let Ok((rhs, next)) = climb_of(cst, pos + 1, (prefix_power(op) - 1) as nat) {
                    assert(words_of(cst, pos, pos + 1) =~= seq![Word::Prefix(op)]);
                    lemma_words_join(cst, pos, pos + 1, next);
                }
            },
            None => {
                lemma_primary_is_well_nested(token);
                if let Ok(e) = primary_of(token) {
                    assert(infix_of(token.rule) is None);
                    assert(words_of(cst, pos, pos + 1) =~= seq![Word::Operand(e)]);
                }
            },
        }
        if let Ok((lhs, next)) = operand_of(cst, pos) {
            lemma_extend_spells(cst, lhs, pos, next, min);
        }
    }
}

/// An extension spells the children from `from` on that it and the
/// expression it extends take in.
pub proof fn lemma_extend_spells(cst: Cst, lhs: ExprModel, from: int, pos: int, min: nat)
    requires
        0 <= from <= pos <= cst.children.len(),
        spelled(lhs) == words_of(cst, from, pos),
    ensures
        extend_of(cst, lhs, pos, min) matches Ok((e, next)) ==> pos <= next <= cst.children.len()
            && spelled(e) == words_of(cst, from, next),
    decreases cst.children.len() - pos, 0nat,
{
    if pos < cst.children.len() {
        let token = cst.children[pos];
        if let Some(op) = infix_of(token.rule) {
            if infix_power(op) > min {
                lemma_climb_spells(cst, pos + 1, infix_power(op));
                if let Ok((rhs, next)) = climb_of(cst, pos + 1, infix_power(op)) {
                    let taken = ExprModel::Binary(Box::new(lhs), op, Box::new(rhs));
                    assert(prefix_of(token.rule) is None);
                    assert(words_of(cst, pos, pos + 1) =~= seq![Word::Infix(op)]);
                    lemma_words_join(cst, from, pos, pos + 1);
                    lemma_words_join(cst, from, pos + 1, next);
                    lemma_extend_spells(cst, taken, from, next, min);
                }
            }
        }
    }
}

/// Whether every child of a node from position `from` up to `to` that is no
/// operator is an operand that can be built.
pub open spec fn operands_build(cst: Cst, from: int, to: int) -> bool {
    forall|i: int|
        from <= i < to ==> {
            let child = #[trigger] cst.children[i];
            prefix_of(child.rule) is Some || infix_of(child.rule) is Some || primary_of(child)
                is Ok
        }
}

/// Whether an expression spells the children of a node from position `pos`
/// on, as many as it has words.
pub open spec fn spells(cst: Cst, e: ExprModel, pos: int) -> bool {
    &&& 0 <= pos
    &&& pos + spelled(e).len() <= cst.children.len()
    &&& words_of(cst, pos, pos + spelled(e).len()) == spelled(e)
}

/// The expression that stands `k` steps down the left edge of an
/// expression: the left operand of the left operand, and so on.
pub open spec fn left_edge(e: ExprModel, k: nat) -> ExprModel
    decreases k,
{
    if k == 0 {
        e
    } else {
        match e {
            ExprModel::Binary(lhs, _, _) => left_edge(*lhs, (k - 1) as nat),
            _ => e,
        }
    }
}

/// The left operand of an application of an infix operator.
pub open spec fn left_operand(e: ExprModel) -> ExprModel {
    match e {
        ExprModel::Binary(lhs, _, _) => *lhs,
        _ => e,
    }
}

/// The right operand of an application of an operator.
pub open spec fn right_operand(e: ExprModel) -> ExprModel {
    match e {
        ExprModel::Binary(_, _, rhs) => *rhs,
        ExprModel::Unary(_, rhs) => *rhs,
        _ => e,
    }
}

/// The binding power of the infix operator at the top of an expression.
pub open spec fn top_power(e: ExprModel) -> nat {
    match e {
        ExprModel::Binary(_, op, _) => infix_power(op),
        _ => 0,
    }
}

/// The number of infix operators down the left edge of an expression.
pub open spec fn left_depth(e: ExprModel) -> nat
    decreases e,
{
    match e {
        ExprModel::Binary(lhs, _, _) => 1 + left_depth(*lhs),
        _ => 0,
    }
}

/// An expression has at least one word.
pub proof fn lemma_spelled_is_not_empty(e: ExprModel)
    ensures
        spelled(e).len() >= 1,
    decreases e,
{
    match e {
        ExprModel::Binary(lhs, _, rhs) => {
            lemma_spelled_is_not_empty(*lhs);
            lemma_spelled_is_not_empty(*rhs);
        },
        ExprModel::Unary(_, rhs) => {
            lemma_spelled_is_not_empty(*rhs);
        },
        _ => {},
    }
}

/// An expression that spells a run of children does so part by part: its
/// operands spell their parts of the run, and its operator is the child
/// between them.
pub proof fn lemma_spells_parts(cst: Cst, e: ExprModel, pos: int)
    requires
        spells(cst, e, pos),
    ensures
        match e {
            ExprModel::Binary(lhs, op, rhs) => {
                &&& spells(cst, *lhs, pos)
                &&& word_of(cst.children[pos + spelled(*lhs).len()]) == Word::Infix(op)
                &&& spells(cst, *rhs, pos + spelled(*lhs).len() + 1)
                &&& spelled(e).len() == spelled(*lhs).len() + 1 + spelled(*rhs).len()
            },
            ExprModel::Unary(op, rhs) => {
                &&& word_of(cst.children[pos]) == Word::Prefix(op)
                &&& spells(cst, *rhs, pos + 1)
                &&& spelled(e).len() == 1 + spelled(*rhs).len()
            },
            _ => word_of(cst.children[pos]) == Word::Operand(e) && spelled(e).len() == 1,
        },
{
    let all = words_of(cst, pos, pos + spelled(e).len());
    match e {
        ExprModel::Binary(lhs, op, rhs) => {
            let a = spelled(*lhs).len() as int;
            let b = spelled(*rhs).len() as int;
            assert(words_of(cst, pos, pos + a) =~= spelled(*lhs)) by {
                assert forall|i: int| 0 <= i < a implies words_of(cst, pos, pos + a)[i] == spelled(
                    *lhs,
                )[i] by {
                    assert(all[i] == spelled(e)[i]);
                }
            }
            assert(all[a] == spelled(e)[a]);
            assert(words_of(cst, pos + a + 1, pos + a + 1 + b) =~= spelled(*rhs)) by {
                assert forall|i: int| 0 <= i < b implies words_of(
                    cst,
                    pos + a + 1,
                    pos + a + 1 + b,
                )[i] == spelled(*rhs)[i] by {
                    assert(all[a + 1 + i] == spelled(e)[a + 1 + i]);
                }
            }
        },
        ExprModel::Unary(op, rhs) => {
            let b = spelled(*rhs).len() as int;
            assert(all[0] == spelled(e)[0]);
            assert(words_of(cst, pos + 1, pos + 1 + b) =~= spelled(*rhs)) by {
                assert forall|i: int| 0 <= i < b implies words_of(cst, pos + 1, pos + 1 + b)[i]
                    == spelled(*rhs)[i] by {
                    assert(all[1 + i] == spelled(e)[1 + i]);
                }
            }
        },
        _ => {
            assert(all[0] == spelled(e)[0]);
        },
    }
}

/// What holds `k` steps down the left edge of an expression that is nested
/// by binding power and spells a run of children: the expression there is
/// nested by binding power and spells the start of the run, and the infix
/// operators above it bind at least as tightly as the one at the top.
pub proof fn lemma_left_edge(cst: Cst, e: ExprModel, k: nat, pos: int)
    requires
        k <= left_depth(e),
        well_nested(e),
        spells(cst, e, pos),
    ensures
        well_nested(left_edge(e, k)),
        spells(cst, left_edge(e, k), pos),
        spelled(left_edge(e, k)).len() <= spelled(e).len(),
        k > 0 ==> spelled(left_edge(e, k)).len() < spelled(e).len(),
        left_depth(left_edge(e, k)) == left_depth(e) - k,
        k > 0 ==> {
            &&& left_edge(e, (k - 1) as nat) is Binary
            &&& left_operand(left_edge(e, (k - 1) as nat)) == left_edge(e, k)
            &&& top_power(left_edge(e, (k - 1) as nat)) >= top_power(e)
        },
    decreases k,
{
    if k > 0 {
        lemma_spells_parts(cst, e, pos);
        match e {
            ExprModel::Binary(lhs, top, rhs) => {
                lemma_left_edge(cst, *lhs, (k - 1) as nat, pos);
                lemma_left_edge_steps(e, k);
                if k > 1 {
                    assert(left_edge(e, (k - 1) as nat) == left_edge(*lhs, (k - 2) as nat));
                }
            },
            _ => {},
        }
    }
}

/// One step further down the left edge is the left operand.
pub proof fn lemma_left_edge_steps(e: ExprModel, k: nat)
    requires
        0 < k <= left_depth(e),
    ensures
        left_edge(e, (k - 1) as nat) is Binary,
        left_operand(left_edge(e, (k - 1) as nat)) == left_edge(e, k),
    decreases k,
{
    match e {
        ExprModel::Binary(lhs, _, _) => {
            assert(left_edge(e, k) == left_edge(*lhs, (k - 1) as nat));
            if k > 1 {
                lemma_left_edge_steps(*lhs, (k - 1) as nat);
                assert(left_edge(e, (k - 1) as nat) == left_edge(*lhs, (k - 2) as nat));
            } else {
                assert(left_edge(*lhs, 0) == *lhs);
                assert(left_edge(e, 0) == e);
            }
        },
        _ => {},
    }
}

/// Whether child `pos` of a node, if there is one, is an infix operator.
pub open spec fn infix_follows(cst: Cst, pos: int) -> bool {
    0 <= pos < cst.children.len() ==> infix_of(cst.children[pos].rule) is Some
}

/// Climbing recovers an operand from its words: an expression that is no
/// application of an infix operator, is nested by binding power, and spells
/// the children from `pos` on is the operand that is built there.
pub proof fn lemma_operand_recovers(cst: Cst, e: ExprModel, pos: int)
    requires
        !(e is Binary),
        well_nested(e),
        spells(cst, e, pos),
        operands_build(cst, pos, pos + spelled(e).len()),
        infix_follows(cst, pos + spelled(e).len()),
        fits_next(e, cst, pos + spelled(e).len()),
    ensures
        operand_of(cst, pos) == Ok::<(ExprModel, int), StructuralError>(
            (e, pos + spelled(e).len()),
        ),
    decreases spelled(e).len(), 0nat, 0nat,
{
    lemma_spells_parts(cst, e, pos);
    lemma_spelled_is_not_empty(e);
    let child = cst.children[pos];
    match e {
        ExprModel::Unary(op, rhs) => {
            assert(prefix_of(child.rule) == Some(op));
            let end = pos + 1 + spelled(*rhs).len();
            assert(stops_at(cst, end, (prefix_power(op) - 1) as nat));
            lemma_climb_recovers(cst, *rhs, pos + 1, (prefix_power(op) - 1) as nat);
        },
        _ => {
            assert(prefix_of(child.rule) is None);
            assert(primary_of(child) is Ok);
        },
    }
}

/// Climbing recovers an expression from its words: an expression that is
/// nested by binding power, that spells the children from `pos` on, and
/// that what follows it lets end there, is the one that a climb from `pos`
/// builds.
pub proof fn lemma_climb_recovers(cst: Cst, e: ExprModel, pos: int, min: nat)
    requires
        well_nested(e),
        spells(cst, e, pos),
        operands_build(cst, pos, pos + spelled(e).len()),
        fits_right(e, min),
        stops_at(cst, pos + spelled(e).len(), min),
        fits_next(e, cst, pos + spelled(e).len()),
    ensures
        climb_of(cst, pos, min) == Ok::<(ExprModel, int), StructuralError>(
            (e, pos + spelled(e).len()),
        ),
    decreases spelled(e).len(), 2nat, 0nat,
{
    let k = left_depth(e);
    let bottom = left_edge(e, k);
    lemma_left_edge(cst, e, k, pos);
    lemma_spelled_is_not_empty(bottom);
    if k > 0 {
        let parent = left_edge(e, (k - 1) as nat);
        lemma_left_edge(cst, e, (k - 1) as nat, pos);
        lemma_spells_parts(cst, parent, pos);
    }
    lemma_operand_recovers(cst, bottom, pos);
    lemma_extend_recovers(cst, e, k, pos, min);
}

/// Extending recovers an expression from the part of it that stands `k`
/// steps down its left edge.
pub proof fn lemma_extend_recovers(cst: Cst, e: ExprModel, k: nat, pos: int, min: nat)
    requires
        k <= left_depth(e),
        well_nested(e),
        spells(cst, e, pos),
        operands_build(cst, pos, pos + spelled(e).len()),
        fits_right(e, min),
        stops_at(cst, pos + spelled(e).len(), min),
        fits_next(e, cst, pos + spelled(e).len()),
    ensures
        extend_of(cst, left_edge(e, k), pos + spelled(left_edge(e, k)).len(), min) == Ok::<
            (ExprModel, int),
            StructuralError,
        >((e, pos + spelled(e).len())),
    decreases spelled(e).len(), 1nat, k,
{
    lemma_left_edge(cst, e, k, pos);
    let lhs = left_edge(e, k);
    let at = pos + spelled(lhs).len();
    if k > 0 {
        let parent = left_edge(e, (k - 1) as nat);
        lemma_left_edge(cst, e, (k - 1) as nat, pos);
        lemma_spells_parts(cst, parent, pos);
        let rhs = right_operand(parent);
        let power = top_power(parent);
        let end = pos + spelled(parent).len();
        assert(power > min);
        assert(infix_of(cst.children[at].rule) is Some);
        assert(infix_power(infix_of(cst.children[at].rule)->Some_0) == power);
        if k > 1 {
            let above = left_edge(e, (k - 2) as nat);
            lemma_left_edge(cst, e, (k - 2) as nat, pos);
            lemma_spells_parts(cst, above, pos);
            assert(left_operand(above) == parent);
            assert(fits_left(parent, top_power(above)));
        }
        assert(stops_at(cst, end, power));
        assert(fits_next(rhs, cst, end));
        lemma_climb_recovers(cst, rhs, at + 1, power);
        lemma_spelled_is_not_empty(rhs);
        lemma_extend_recovers(cst, e, (k - 1) as nat, pos, min);
    }
}

/// The expression of a node is the only one that is nested by binding power
/// and spells the children of the node: whatever has these two properties is
/// what the builder makes.
pub proof fn lemma_expr_is_unique(cst: Cst, e: ExprModel)
    requires
        cst.rule == Rule::Expr,
        operands_build(cst, 0, cst.children.len() as int),
        well_nested(e),
        spelled(e) == words_of(cst, 0, cst.children.len() as int),
    ensures
        expr_of(cst) == Ok::<ExprModel, StructuralError>(e),
{
    lemma_climb_recovers(cst, e, 0, 0);
}

/// Whether an expression holds a test of a range, in any of its parts.
pub open spec fn tests_range(e: ExprModel) -> bool
    decreases e,
{
    match e {
        ExprModel::Between { .. } => true,
        ExprModel::Binary(lhs, _, rhs) => tests_range(*lhs) || tests_range(*rhs),
        ExprModel::Unary(_, rhs) => tests_range(*rhs),
        ExprModel::ExprList(list) => exists|i: int|
            0 <= i < list.len() && tests_range(#[trigger] list[i]),
        _ => false,
    }
}

/// No expression that is built holds a test of a range.
pub proof fn lemma_expr_tests_no_range(cst: Cst)
    ensures
        expr_of(cst) matches Ok(e) ==> !tests_range(e),
    decreases cst, cst.children.len() + 1, 0nat,
{
    if cst.rule == Rule::Expr {
        lemma_climb_tests_no_range(cst, 0, 0);
    }
}

/// No operand that is built holds a test of a range.
pub proof fn lemma_primary_tests_no_range(cst: Cst)
    ensures
        primary_of(cst) matches Ok(e) ==> !tests_range(e),
    decreases cst, cst.children.len() + 1, 0nat,
{
    if cst.rule == Rule::Exprs {
        lemma_list_tests_no_range(cst, cst.children.len() as int);
    }
}

/// No expression of a list that is built holds a test of a range.
pub proof fn lemma_list_tests_no_range(cst: Cst, n: int)
    ensures
        exprs_upto(cst, n) matches Ok(list) ==> forall|i: int|
            0 <= i < list.len() ==> !tests_range(#[trigger] list[i]),
    decreases cst, n, 0nat,
{
    if 0 < n <= cst.children.len() {
        lemma_list_tests_no_range(cst, n - 1);
        lemma_expr_tests_no_range(cst.children[n - 1]);
    }
}

/// No climb and no operand builds a test of a range.
pub proof fn lemma_climb_tests_no_range(cst: Cst, pos: int, min: nat)
    ensures
        climb_of(cst, pos, min) matches Ok((e, _)) ==> !tests_range(e),
        operand_of(cst, pos) matches Ok((e, _)) ==> !tests_range(e),
    decreases cst, cst.children.len() - pos, 1nat,
{
    if 0 <= pos < cst.children.len() {
        let token = cst.children[pos];
        match prefix_of(token.rule) {
            Some(op) => {
                lemma_climb_tests_no_range(cst, pos + 1, (prefix_power(op) - 1) as nat);
            },
            None => {
                lemma_primary_tests_no_range(token);
            },
        }
        if let Ok((lhs, next)) = operand_of(cst, pos) {
            if pos < next <= cst.children.len() {
                lemma_extend_tests_no_range(cst, lhs, next, min);
            }
        }
    }
}

/// Extending an expression that holds no test of a range gives one that
/// holds none.
pub proof fn lemma_extend_tests_no_range(cst: Cst, lhs: ExprModel, pos: int, min: nat)
    requires
        !tests_range(lhs),
    ensures
        extend_of(cst, lhs, pos, min) matches Ok((e, _)) ==> !tests_range(e),
    decreases cst, cst.children.len() - pos, 0nat,
{
    if 0 <= pos < cst.children.len() {
        let token = cst.children[pos];
        if let Some(op) = infix_of(token.rule) {
            if infix_power(op) > min {
                lemma_climb_tests_no_range(cst, pos + 1, infix_power(op));
                if let Ok((rhs, next)) = climb_of(cst, pos + 1, infix_power(op)) {
                    if pos < next <= cst.children.len() {
                        lemma_extend_tests_no_range(
                            cst,
                            ExprModel::Binary(Box::new(lhs), op, Box::new(rhs)),
                            next,
                            min,
                        );
                    }
                }
            }
        }
    }
}

} // verus!
