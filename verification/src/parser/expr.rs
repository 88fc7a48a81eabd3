//! Expressions: operands, and the operators between them resolved by
//! binding power.
//!
//! An expression node holds a flat run of children: operands, each preceded
//! by any number of prefix operators, with one infix operator between two
//! operands. The builder nests them by precedence climbing. Every infix
//! operator associates to the left.

use vstd::prelude::*;
use crate::ast::{expr_model, lemma_expr_list_model, BinaryOp, Expr, ExprModel, Literal, UnaryOp};
use crate::cst::{Cst, Node, Rule};
use crate::error::{mismatch, outcome, StructuralError};
use crate::parser::ident::ident_name;
use crate::parser::literal::literal_of;
use crate::parser::{build_each, Parser};

verus! {

/// The prefix operator that a tag stands for, if it stands for one.
pub open spec fn prefix_of(rule: Rule) -> Option<UnaryOp> {
    match rule {
        Rule::LogicalNot => Some(UnaryOp::LogicalNot),
        Rule::BitwiseNot => Some(UnaryOp::BitwiseNot),
        Rule::Positive => Some(UnaryOp::Positive),
        Rule::Negative => Some(UnaryOp::Negative),
        _ => None,
    }
}

/// The infix operator that a tag stands for, if it stands for one.
pub open spec fn infix_of(rule: Rule) -> Option<BinaryOp> {
    match rule {
        Rule::Concat => Some(BinaryOp::Concat),
        Rule::Mul => Some(BinaryOp::Mul),
        Rule::Div => Some(BinaryOp::Div),
        Rule::Modulo => Some(BinaryOp::Mod),
        Rule::Plus => Some(BinaryOp::Plus),
        Rule::Minus => Some(BinaryOp::Minus),
        Rule::BitwiseAnd => Some(BinaryOp::BitwiseAnd),
        Rule::BitwiseOr => Some(BinaryOp::BitwiseOr),
        Rule::RightShift => Some(BinaryOp::RightShift),
        Rule::LeftShift => Some(BinaryOp::LeftShift),
        Rule::Lt => Some(BinaryOp::Lt),
        Rule::Le => Some(BinaryOp::Le),
        Rule::Gt => Some(BinaryOp::Gt),
        Rule::Ge => Some(BinaryOp::Ge),
        Rule::Eq => Some(BinaryOp::Eq),
        Rule::Ne => Some(BinaryOp::Ne),
        Rule::Is => Some(BinaryOp::Is),
        Rule::IsNot => Some(BinaryOp::IsNot),
        Rule::LogicalAnd => Some(BinaryOp::LogicalAnd),
        Rule::LogicalOr => Some(BinaryOp::LogicalOr),
        _ => None,
    }
}

/// The binding power of a prefix operator. `NOT` binds more loosely than the
/// comparisons; the other prefix operators bind tightest of all.
pub open spec fn prefix_power(op: UnaryOp) -> nat {
    match op {
        UnaryOp::LogicalNot => 3,
        UnaryOp::BitwiseNot => 11,
        UnaryOp::Positive => 11,
        UnaryOp::Negative => 11,
    }
}

/// The binding power of an infix operator: the higher, the tighter.
pub open spec fn infix_power(op: BinaryOp) -> nat {
    match op {
        BinaryOp::LogicalOr => 1,
        BinaryOp::LogicalAnd => 2,
        BinaryOp::Is => 4,
        BinaryOp::IsNot => 4,
        BinaryOp::Eq => 5,
        BinaryOp::Ne => 5,
        BinaryOp::Lt => 6,
        BinaryOp::Le => 6,
        BinaryOp::Gt => 6,
        BinaryOp::Ge => 6,
        BinaryOp::BitwiseAnd => 7,
        BinaryOp::BitwiseOr => 7,
        BinaryOp::RightShift => 7,
        BinaryOp::LeftShift => 7,
        BinaryOp::Plus => 8,
        BinaryOp::Minus => 8,
        BinaryOp::Mul => 9,
        BinaryOp::Div => 9,
        BinaryOp::Mod => 9,
        BinaryOp::Concat => 10,
    }
}

/// The column that a qualified name stands for. Of one, two or three
/// segments the last is the column, the one before it the table, and the one
/// before that the schema.
pub open spec fn column_of(cst: Cst) -> Result<ExprModel, StructuralError> {
    let parts = cst.children;
    if parts.len() == 1 {
        match ident_name(parts[0]) {
            Err(e) => Err(e),
            Ok(column) => Ok(ExprModel::QualifiedColumn(None, None, column)),
        }
    } else if parts.len() == 2 {
        match ident_name(parts[0]) {
            Err(e) => Err(e),
            Ok(table) => match ident_name(parts[1]) {
                Err(e) => Err(e),
                Ok(column) => Ok(ExprModel::QualifiedColumn(None, Some(table), column)),
            },
        }
    } else if parts.len() == 3 {
        match ident_name(parts[0]) {
            Err(e) => Err(e),
            Ok(schema) => match ident_name(parts[1]) {
                Err(e) => Err(e),
                Ok(table) => match ident_name(parts[2]) {
                    Err(e) => Err(e),
                    Ok(column) => Ok(
                        ExprModel::QualifiedColumn(Some(schema), Some(table), column),
                    ),
                },
            },
        }
    } else {
        Err(mismatch(cst))
    }
}

/// The expression that an expression node stands for.
pub open spec fn expr_of(cst: Cst) -> Result<ExprModel, StructuralError>
    decreases cst, cst.children.len() + 1, 0nat,
{
    if cst.rule == Rule::Expr {
        match climb_of(cst, 0, 0) {
            Err(e) => Err(e),
            Ok((expr, end)) => Ok(expr),
        }
    } else {
        Err(mismatch(cst))
    }
}

/// The expression that an operand stands for: a literal, a column, or a
/// parenthesised list.
pub open spec fn primary_of(cst: Cst) -> Result<ExprModel, StructuralError>
    decreases cst, cst.children.len() + 1, 0nat,
{
    if cst.rule == Rule::Literal {
        match literal_of(cst) {
            Err(e) => Err(e),
            Ok(literal) => Ok(ExprModel::Literal(literal)),
        }
    } else if cst.rule == Rule::QualifiedColumn {
        column_of(cst)
    } else if cst.rule == Rule::Exprs {
        match exprs_upto(cst, cst.children.len() as int) {
            Err(e) => Err(e),
            Ok(list) => Ok(ExprModel::ExprList(list)),
        }
    } else {
        Err(mismatch(cst))
    }
}

/// The expressions that the first `n` children of a node stand for, or the
/// error of the first child that fails.
pub open spec fn exprs_upto(cst: Cst, n: int) -> Result<Seq<ExprModel>, StructuralError>
    decreases cst, n, 0nat,
{
    if 0 < n <= cst.children.len() {
        match exprs_upto(cst, n - 1) {
            Err(e) => Err(e),
            Ok(front) => match expr_of(cst.children[n - 1]) {
                Err(e) => Err(e),
                Ok(expr) => Ok(front.push(expr)),
            },
        }
    } else {
        Ok(Seq::empty())
    }
}

/// The expression that starts at child `pos` of an expression node and takes
/// in every following operator that binds more tightly than `min`, with the
/// position of the first child that it leaves.
pub open spec fn climb_of(cst: Cst, pos: int, min: nat) -> Result<(ExprModel, int), StructuralError>
    decreases cst, cst.children.len() - pos, 2nat,
{
    if 0 <= pos {
        match operand_of(cst, pos) {
            Err(e) => Err(e),
            Ok((lhs, next)) => if pos < next <= cst.children.len() {
                extend_of(cst, lhs, next, min)
            } else {
                Err(mismatch(cst))
            },
        }
    } else {
        Err(mismatch(cst))
    }
}

/// The operand at child `pos`, with the prefix operators before it applied
/// to it. A prefix operator takes in what binds at least as tightly as itself.
pub open spec fn operand_of(cst: Cst, pos: int) -> Result<(ExprModel, int), StructuralError>
    decreases cst, cst.children.len() - pos, 1nat,
{
    if 0 <= pos < cst.children.len() {
        let token = cst.children[pos];
        match prefix_of(token.rule) {
            Some(op) => match climb_of(cst, pos + 1, (prefix_power(op) - 1) as nat) {
                Err(e) => Err(e),
                Ok((rhs, next)) => Ok((ExprModel::Unary(op, Box::new(rhs)), next)),
            },
            None => match primary_of(token) {
                Err(e) => Err(e),
                Ok(expr) => Ok((expr, pos + 1)),
            },
        }
    } else {
        Err(mismatch(cst))
    }
}

/// `lhs` extended by the infix operators from child `pos` on that bind more
/// tightly than `min`. The right operand of an operator takes in only what
/// binds more tightly than the operator itself, so operators of one power
/// nest to the left.
pub open spec fn extend_of(cst: Cst, lhs: ExprModel, pos: int, min: nat) -> Result<
    (ExprModel, int),
    StructuralError,
>
    decreases cst, cst.children.len() - pos, 0nat,
{
    if 0 <= pos < cst.children.len() {
        let token = cst.children[pos];
        match infix_of(token.rule) {
            None => Err(mismatch(token)),
            Some(op) => if infix_power(op) <= min {
                Ok((lhs, pos))
            } else {
                match climb_of(cst, pos + 1, infix_power(op)) {
                    Err(e) => Err(e),
                    Ok((rhs, next)) => if pos < next <= cst.children.len() {
                        extend_of(
                            cst,
                            ExprModel::Binary(Box::new(lhs), op, Box::new(rhs)),
                            next,
                            min,
                        )
                    } else {
                        Err(mismatch(cst))
                    },
                }
            },
        }
    } else {
        Ok((lhs, pos))
    }
}

/// What a climb returned, seen through the model of the expression.
pub open spec fn climbed(r: Result<(Expr, usize), StructuralError>) -> Result<
    (ExprModel, int),
    StructuralError,
> {
    match r {
        Ok((expr, next)) => Ok((expr.deep_view(), next as int)),
        Err(e) => Err(e),
    }
}

/// The prefix operator that a tag stands for.
pub fn prefix_operator(rule: Rule) -> (op: Option<UnaryOp>)
    ensures
        op == prefix_of(rule),
{
    match rule {
        Rule::LogicalNot => Some(UnaryOp::LogicalNot),
        Rule::BitwiseNot => Some(UnaryOp::BitwiseNot),
        Rule::Positive => Some(UnaryOp::Positive),
        Rule::Negative => Some(UnaryOp::Negative),
        _ => None,
    }
}

/// The infix operator that a tag stands for.
pub fn infix_operator(rule: Rule) -> (op: Option<BinaryOp>)
    ensures
        op == infix_of(rule),
{
    match rule {
        Rule::Concat => Some(BinaryOp::Concat),
        Rule::Mul => Some(BinaryOp::Mul),
        Rule::Div => Some(BinaryOp::Div),
        Rule::Modulo => Some(BinaryOp::Mod),
        Rule::Plus => Some(BinaryOp::Plus),
        Rule::Minus => Some(BinaryOp::Minus),
        Rule::BitwiseAnd => Some(BinaryOp::BitwiseAnd),
        Rule::BitwiseOr => Some(BinaryOp::BitwiseOr),
        Rule::RightShift => Some(BinaryOp::RightShift),
        Rule::LeftShift => Some(BinaryOp::LeftShift),
        Rule::Lt => Some(BinaryOp::Lt),
        Rule::Le => Some(BinaryOp::Le),
        Rule::Gt => Some(BinaryOp::Gt),
        Rule::Ge => Some(BinaryOp::Ge),
        Rule::Eq => Some(BinaryOp::Eq),
        Rule::Ne => Some(BinaryOp::Ne),
        Rule::Is => Some(BinaryOp::Is),
        Rule::IsNot => Some(BinaryOp::IsNot),
        Rule::LogicalAnd => Some(BinaryOp::LogicalAnd),
        Rule::LogicalOr => Some(BinaryOp::LogicalOr),
        _ => None,
    }
}

/// The binding power of a prefix operator.
pub fn unary_power(op: UnaryOp) -> (power: u8)
    ensures
        power == prefix_power(op),
{
    match op {
        UnaryOp::LogicalNot => 3,
        UnaryOp::BitwiseNot => 11,
        UnaryOp::Positive => 11,
        UnaryOp::Negative => 11,
    }
}

/// The binding power of an infix operator.
pub fn binary_power(op: BinaryOp) -> (power: u8)
    ensures
        power == infix_power(op),
{
    match op {
        BinaryOp::LogicalOr => 1,
        BinaryOp::LogicalAnd => 2,
        BinaryOp::Is => 4,
        BinaryOp::IsNot => 4,
        BinaryOp::Eq => 5,
        BinaryOp::Ne => 5,
        BinaryOp::Lt => 6,
        BinaryOp::Le => 6,
        BinaryOp::Gt => 6,
        BinaryOp::Ge => 6,
        BinaryOp::BitwiseAnd => 7,
        BinaryOp::BitwiseOr => 7,
        BinaryOp::RightShift => 7,
        BinaryOp::LeftShift => 7,
        BinaryOp::Plus => 8,
        BinaryOp::Minus => 8,
        BinaryOp::Mul => 9,
        BinaryOp::Div => 9,
        BinaryOp::Mod => 9,
        BinaryOp::Concat => 10,
    }
}

/// Builds the column that a qualified name stands for.
pub fn parse_column(node: &Node) -> (built: Result<Expr, StructuralError>)
    ensures
        outcome(built) == column_of(node.deep_view()),
{
    let n = node.len();
    if n == 1 {
        let column = String::parse(node.child(0))?;
        Ok(Expr::QualifiedColumn(None, None, column))
    } else if n == 2 {
        let table = String::parse(node.child(0))?;
        let column = String::parse(node.child(1))?;
        Ok(Expr::QualifiedColumn(None, Some(table), column))
    } else if n == 3 {
        let schema = String::parse(node.child(0))?;
        let table = String::parse(node.child(1))?;
        let column = String::parse(node.child(2))?;
        Ok(Expr::QualifiedColumn(Some(schema), Some(table), column))
    } else {
        Err(StructuralError { rule: node.rule() })
    }
}

/// Builds the expression that an expression node stands for.
pub fn parse_expr(node: &Node) -> (built: Result<Expr, StructuralError>)
    ensures
        outcome(built) == expr_of(node.deep_view()),
    decreases node.deep_view(), node.deep_view().children.len() + 1, 0nat,
{
    if node.rule() == Rule::Expr {
        let (expr, _end) = climb(node, 0, 0)?;
        Ok(expr)
    } else {
        Err(StructuralError { rule: node.rule() })
    }
}

/// Builds the expression that an operand stands for.
pub fn parse_primary(node: &Node) -> (built: Result<Expr, StructuralError>)
    ensures
        outcome(built) == primary_of(node.deep_view()),
    decreases node.deep_view(), node.deep_view().children.len() + 1, 0nat,
{
    let rule = node.rule();
    if rule == Rule::Literal {
        let literal = Literal::parse(node)?;
        Ok(Expr::Literal(literal))
    } else if rule == Rule::QualifiedColumn {
        parse_column(node)
    } else if rule == Rule::Exprs {
        let list = parse_exprs(node)?;
        proof {
            lemma_expr_list_model(list);
        }
        Ok(Expr::ExprList(list))
    } else {
        Err(StructuralError { rule })
    }
}

/// Builds the expressions that the children of a node stand for.
pub fn parse_exprs(node: &Node) -> (built: Result<Vec<Expr>, StructuralError>)
    ensures
        outcome(built) == exprs_upto(node.deep_view(), node.deep_view().children.len() as int),
    decreases node.deep_view(), node.deep_view().children.len(), 0nat,
{
    let n = node.len();
    let mut list: Vec<Expr> = Vec::new();
    let mut i: usize = 0;
    proof {
        assert(list.deep_view() =~= Seq::empty());
    }
    while i < n
        invariant
            i <= n,
            n == node.deep_view().children.len(),
            exprs_upto(node.deep_view(), i as int) == Ok::<Seq<ExprModel>, StructuralError>(
                list.deep_view(),
            ),
        decreases n - i,
    {
        match parse_expr(node.child(i)) {
            Ok(expr) => {
                let ghost before = list.deep_view();
                list.push(expr);
                proof {
                    assert(list.deep_view() =~= before.push(expr.deep_view()));
                }
            },
            Err(e) => {
                proof {
                    lemma_exprs_upto_fails(node.deep_view(), i + 1, n as int);
                }
                return Err(e);
            },
        }
        i += 1;
    }
    Ok(list)
}

/// Once the expressions of the first `n` children have failed, those of the
/// first `m` fail with the same error, for every `m` from `n` on.
pub proof fn lemma_exprs_upto_fails(cst: Cst, n: int, m: int)
    requires
        0 <= n <= m <= cst.children.len(),
        exprs_upto(cst, n) is Err,
    ensures
        exprs_upto(cst, m) == exprs_upto(cst, n),
    decreases m - n,
{
    if n < m {
        lemma_exprs_upto_fails(cst, n, m - 1);
    }
}

/// Builds the expression that starts at child `pos` and takes in every
/// following operator that binds more tightly than `min`.
pub fn climb(node: &Node, pos: usize, min: u8) -> (built: Result<(Expr, usize), StructuralError>)
    ensures
        climbed(built) == climb_of(node.deep_view(), pos as int, min as nat),
        built is Ok ==> pos < built->Ok_0.1 <= node.deep_view().children.len(),
    decreases node.deep_view(), node.deep_view().children.len() - pos, 2nat,
{
    let n = node.len();
    let (first, next) = operand(node, pos)?;
    let mut lhs = first;
    let mut p = next;
    loop
        invariant
            pos < p <= n,
            n == node.deep_view().children.len(),
            extend_of(node.deep_view(), lhs.deep_view(), p as int, min as nat) == climb_of(
                node.deep_view(),
                pos as int,
                min as nat,
            ),
        decreases n - p,
    {
        if p >= n {
            return Ok((lhs, p));
        }
        let token = node.child(p);
        match infix_operator(token.rule()) {
            None => {
                return Err(StructuralError { rule: token.rule() });
            },
            Some(op) => {
                let power = binary_power(op);
                if power <= min {
                    return Ok((lhs, p));
                }
                let (rhs, q) = climb(node, p + 1, power)?;
                lhs = Expr::Binary(Box::new(lhs), op, Box::new(rhs));
                p = q;
            },
        }
    }
}

/// Builds the operand at child `pos`, with the prefix operators before it.
pub fn operand(node: &Node, pos: usize) -> (built: Result<(Expr, usize), StructuralError>)
    ensures
        climbed(built) == operand_of(node.deep_view(), pos as int),
        built is Ok ==> pos < built->Ok_0.1 <= node.deep_view().children.len(),
    decreases node.deep_view(), node.deep_view().children.len() - pos, 1nat,
{
    if pos >= node.len() {
        return Err(StructuralError { rule: node.rule() });
    }
    let token = node.child(pos);
    match prefix_operator(token.rule()) {
        Some(op) => {
            let (rhs, next) = climb(node, pos + 1, unary_power(op) - 1)?;
            Ok((Expr::Unary(op, Box::new(rhs)), next))
        },
        None => {
            let expr = parse_primary(token)?;
            Ok((expr, pos + 1))
        },
    }
}

/// The expressions of the children of a node are what building each child
/// as an expression gives.
pub proof fn lemma_exprs_are_built_each(cst: Cst, n: int)
    requires
        0 <= n <= cst.children.len(),
    ensures
        exprs_upto(cst, n) == build_each::<Expr>(cst.children.take(n)),
    decreases n,
{
    if n > 0 {
        lemma_exprs_are_built_each(cst, n - 1);
        assert(cst.children.take(n).drop_last() =~= cst.children.take(n - 1));
        assert(cst.children.take(n).last() == cst.children[n - 1]);
    } else {
        assert(cst.children.take(0).len() == 0);
    }
}

impl Parser for Expr {
    open spec fn build(cst: Cst) -> Result<ExprModel, StructuralError> {
        expr_of(cst)
    }

    fn parse(node: &Node) -> (built: Result<Expr, StructuralError>)
        ensures
            outcome(built) == Self::build(node.deep_view()),
    {
        parse_expr(node)
    }
}

} // verus!
