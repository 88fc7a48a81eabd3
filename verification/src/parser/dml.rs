//! The builders of the statements that read and change rows.
//!
//! A builder walks the children of its node once, from the first to the last.
//! Where a clause is optional it looks at the tag of the next child: if the
//! clause is there it is built, and if not its default is taken and the same
//! child is looked at again for the clause that may come next. A node with
//! children left over, or without a child that must be there, is refused.

use vstd::prelude::*;
use crate::ast::ddl::{IndexedColumn, IndexedColumnModel};
use crate::ast::dml::{
    CompoundOperator, Delete, DeleteModel, Dml, DmlModel, FromClause, FromClauseModel, Indexed,
    IndexedModel, Insert, InsertHeader, InsertModel, InsertValues, InsertValuesModel, JoinClause,
    JoinClauseModel, JoinConstraint, JoinConstraintModel, JoinOperator, JoinSubClause,
    JoinSubClauseModel, OrderingTerm, OrderingTermModel, OuterJoinType, QualifiedTable,
    QualifiedTableModel, ResultColumn, ResultColumnModel, ReturnSubClause, ReturnSubClauseModel,
    Select, SelectCore, SelectCoreModel, SelectModel, SetSubClause, SetSubClauseModel, Update,
    UpdateModel, UpsertSubClause, UpsertSubClauseModel, UpsertType, UpsertTypeModel,
};
use crate::ast::{Expr, ExprModel, SchemaObject};
use crate::cst::{Cst, Node, Rule};
use crate::error::{mismatch, outcome, StructuralError};
use crate::parser::{
    after, aliased_of, at, build_at, build_each, build_list, build_list_at, build_opt,
    build_opt_list, built, chain_of, is_chain, is_link, lemma_chain, parse_aliased, parse_at, parse_each, parse_list,
    parse_list_at, parse_opt, parse_opt_list, parse_resolution, resolution_at, tagged, Parser,
};

verus! {

impl Parser for OrderingTerm {
    /// A term without a written order is ascending, and without a written
    /// place for nulls it puts them first.
    open spec fn build(cst: Cst) -> Result<OrderingTermModel, StructuralError> {
        let expr = build_at::<Expr>(cst, 0);
        let nulls_at = if tagged(cst, 1, Rule::Asc) || tagged(cst, 1, Rule::Desc) {
            2int
        } else {
            1int
        };
        let end = if tagged(cst, nulls_at, Rule::First) || tagged(cst, nulls_at, Rule::Last) {
            nulls_at + 1
        } else {
            nulls_at
        };
        if cst.rule != Rule::OrderingTerm || cst.children.len() != end {
            Err(mismatch(cst))
        } else if expr is Err {
            Err(expr->Err_0)
        } else {
            Ok(
                OrderingTermModel {
                    expr: expr->Ok_0,
                    asc: !tagged(cst, 1, Rule::Desc),
                    nulls_first: !tagged(cst, nulls_at, Rule::Last),
                },
            )
        }
    }

    fn parse(node: &Node) -> (built: Result<OrderingTerm, StructuralError>)
        ensures
            outcome(built) == Self::build(node.deep_view()),
    {
        let desc = at(node, 1, Rule::Desc);
        let nulls_at: usize = if at(node, 1, Rule::Asc) || desc {
            2
        } else {
            1
        };
        let last = at(node, nulls_at, Rule::Last);
        let end: usize = if at(node, nulls_at, Rule::First) || last {
            nulls_at + 1
        } else {
            nulls_at
        };
        if node.rule() != Rule::OrderingTerm || node.len() != end {
            return Err(StructuralError { rule: node.rule() });
        }
        let expr = parse_at::<Expr>(node, 0)?;
        Ok(OrderingTerm { expr, asc: !desc, nulls_first: !last })
    }
}

impl Parser for ResultColumn {
    open spec fn build(cst: Cst) -> Result<ResultColumnModel, StructuralError> {
        if cst.rule != Rule::ResultColumn || cst.children.len() != 1 {
            Err(mismatch(cst))
        } else if cst.children[0].rule == Rule::Star {
            Ok(ResultColumnModel::Star)
        } else if cst.children[0].rule == Rule::ResultExpr {
            match aliased_of(cst.children[0]) {
                Err(e) => Err(e),
                Ok((expr, alias)) => Ok(ResultColumnModel::Expr(expr, alias)),
            }
        } else {
            Err(mismatch(cst.children[0]))
        }
    }

    fn parse(node: &Node) -> (built: Result<ResultColumn, StructuralError>)
        ensures
            outcome(built) == Self::build(node.deep_view()),
    {
        if node.rule() != Rule::ResultColumn || node.len() != 1 {
            return Err(StructuralError { rule: node.rule() });
        }
        let inner = node.child(0);
        if inner.rule() == Rule::Star {
            Ok(ResultColumn::Star)
        } else if inner.rule() == Rule::ResultExpr {
            let (expr, alias) = parse_aliased(inner)?;
            Ok(ResultColumn::Expr(expr, alias))
        } else {
            Err(StructuralError { rule: inner.rule() })
        }
    }
}

impl Parser for ReturnSubClause {
    open spec fn build(cst: Cst) -> Result<ReturnSubClauseModel, StructuralError> {
        if cst.rule == Rule::ReturnStar {
            Ok(ReturnSubClauseModel::Star)
        } else if cst.rule == Rule::ReturnExpr {
            match aliased_of(cst) {
                Err(e) => Err(e),
                Ok((expr, alias)) => Ok(ReturnSubClauseModel::Expr(expr, alias)),
            }
        } else {
            Err(mismatch(cst))
        }
    }

    fn parse(node: &Node) -> (built: Result<ReturnSubClause, StructuralError>)
        ensures
            outcome(built) == Self::build(node.deep_view()),
    {
        if node.rule() == Rule::ReturnStar {
            Ok(ReturnSubClause::Star)
        } else if node.rule() == Rule::ReturnExpr {
            let (expr, alias) = parse_aliased(node)?;
            Ok(ReturnSubClause::Expr(expr, alias))
        } else {
            Err(StructuralError { rule: node.rule() })
        }
    }
}

impl Parser for Indexed {
    open spec fn build(cst: Cst) -> Result<IndexedModel, StructuralError> {
        if cst.rule == Rule::IndexedBy && cst.children.len() == 1 {
            match build_at::<String>(cst, 0) {
                Err(e) => Err(e),
                Ok(name) => Ok(IndexedModel::By(name)),
            }
        } else if cst.rule == Rule::NotIndexed {
            Ok(IndexedModel::NotIndexed)
        } else {
            Err(mismatch(cst))
        }
    }

    fn parse(node: &Node) -> (built: Result<Indexed, StructuralError>)
        ensures
            outcome(built) == Self::build(node.deep_view()),
    {
        if node.rule() == Rule::IndexedBy && node.len() == 1 {
            let name = parse_at::<String>(node, 0)?;
            Ok(Indexed::By(name))
        } else if node.rule() == Rule::NotIndexed {
            Ok(Indexed::NotIndexed)
        } else {
            Err(StructuralError { rule: node.rule() })
        }
    }
}

impl Parser for QualifiedTable {
    /// A table without an alias or an index hint has none.
    open spec fn build(cst: Cst) -> Result<QualifiedTableModel, StructuralError> {
        let table = build_at::<SchemaObject>(cst, 0);
        let alias = build_opt::<String>(cst, 1, Rule::Ident);
        let hint_at = after(cst, 1, Rule::Ident);
        let hinted = tagged(cst, hint_at, Rule::IndexedBy) || tagged(cst, hint_at, Rule::NotIndexed);
        let hint = build_at::<Indexed>(cst, hint_at);
        let end = if hinted {
            hint_at + 1
        } else {
            hint_at
        };
        if cst.rule != Rule::QualifiedTable || cst.children.len() != end {
            Err(mismatch(cst))
        } else if table is Err {
            Err(table->Err_0)
        } else if alias is Err {
            Err(alias->Err_0)
        } else if hinted && hint is Err {
            Err(hint->Err_0)
        } else {
            Ok(
                QualifiedTableModel {
                    schema_table: table->Ok_0,
                    alias: alias->Ok_0,
                    indexed: if hinted {
                        Some(hint->Ok_0)
                    } else {
                        None
                    },
                },
            )
        }
    }

    fn parse(node: &Node) -> (built: Result<QualifiedTable, StructuralError>)
        ensures
            outcome(built) == Self::build(node.deep_view()),
    {
        let hint_at: usize = if at(node, 1, Rule::Ident) {
            2
        } else {
            1
        };
        let hinted = at(node, hint_at, Rule::IndexedBy) || at(node, hint_at, Rule::NotIndexed);
        let end: usize = if hinted {
            hint_at + 1
        } else {
            hint_at
        };
        if node.rule() != Rule::QualifiedTable || node.len() != end {
            return Err(StructuralError { rule: node.rule() });
        }
        let schema_table = parse_at::<SchemaObject>(node, 0)?;
        let alias = parse_opt::<String>(node, 1, Rule::Ident)?;
        let indexed = if hinted {
            Some(parse_at::<Indexed>(node, hint_at)?)
        } else {
            None
        };
        Ok(QualifiedTable { schema_table, alias, indexed })
    }
}

/// The join that a qualified join operator stands for: inner or outer, and
/// natural where the word stands before it.
pub open spec fn qualified_join_of(cst: Cst) -> Result<JoinOperator, StructuralError> {
    let natural = tagged(cst, 0, Rule::Natural);
    let kind_at = after(cst, 0, Rule::Natural);
    if cst.children.len() != kind_at + 1 {
        Err(mismatch(cst))
    } else {
        let kind = cst.children[kind_at];
        if kind.rule == Rule::Inner {
            Ok(JoinOperator::Inner(natural))
        } else if kind.rule == Rule::Left {
            Ok(JoinOperator::Outer(natural, OuterJoinType::Left))
        } else if kind.rule == Rule::Right {
            Ok(JoinOperator::Outer(natural, OuterJoinType::Right))
        } else if kind.rule == Rule::Full {
            Ok(JoinOperator::Outer(natural, OuterJoinType::Full))
        } else {
            Err(mismatch(kind))
        }
    }
}

/// Builds the join that a qualified join operator stands for.
pub fn parse_qualified_join(node: &Node) -> (built: Result<JoinOperator, StructuralError>)
    ensures
        outcome(built) == qualified_join_of(node.deep_view()),
{
    let natural = at(node, 0, Rule::Natural);
    let kind_at: usize = if natural {
        1
    } else {
        0
    };
    if node.len() != kind_at + 1 {
        return Err(StructuralError { rule: node.rule() });
    }
    let rule = node.child(kind_at).rule();
    if rule == Rule::Inner {
        Ok(JoinOperator::Inner(natural))
    } else if rule == Rule::Left {
        Ok(JoinOperator::Outer(natural, OuterJoinType::Left))
    } else if rule == Rule::Right {
        Ok(JoinOperator::Outer(natural, OuterJoinType::Right))
    } else if rule == Rule::Full {
        Ok(JoinOperator::Outer(natural, OuterJoinType::Full))
    } else {
        Err(StructuralError { rule })
    }
}

impl Parser for JoinOperator {
    open spec fn build(cst: Cst) -> Result<JoinOperator, StructuralError> {
        if cst.rule != Rule::JoinOperator || cst.children.len() != 1 {
            Err(mismatch(cst))
        } else if cst.children[0].rule == Rule::JoinComma {
            Ok(JoinOperator::Comma)
        } else if cst.children[0].rule == Rule::JoinCross {
            Ok(JoinOperator::Cross)
        } else if cst.children[0].rule == Rule::JoinQualified {
            qualified_join_of(cst.children[0])
        } else {
            Err(mismatch(cst.children[0]))
        }
    }

    fn parse(node: &Node) -> (built: Result<JoinOperator, StructuralError>)
        ensures
            outcome(built) == Self::build(node.deep_view()),
    {
        if node.rule() != Rule::JoinOperator || node.len() != 1 {
            return Err(StructuralError { rule: node.rule() });
        }
        let inner = node.child(0);
        if inner.rule() == Rule::JoinComma {
            Ok(JoinOperator::Comma)
        } else if inner.rule() == Rule::JoinCross {
            Ok(JoinOperator::Cross)
        } else if inner.rule() == Rule::JoinQualified {
            parse_qualified_join(inner)
        } else {
            Err(StructuralError { rule: inner.rule() })
        }
    }
}

impl Parser for JoinConstraint {
    open spec fn build(cst: Cst) -> Result<JoinConstraintModel, StructuralError> {
        if cst.rule != Rule::JoinConstraint || cst.children.len() != 1 {
            Err(mismatch(cst))
        } else if cst.children[0].rule == Rule::Expr {
            match Expr::build(cst.children[0]) {
                Err(e) => Err(e),
                Ok(expr) => Ok(JoinConstraintModel::Expr(expr)),
            }
        } else if cst.children[0].rule == Rule::Idents {
            match build_list::<String>(cst.children[0], Rule::Idents) {
                Err(e) => Err(e),
                Ok(columns) => Ok(JoinConstraintModel::Using(columns)),
            }
        } else {
            Err(mismatch(cst.children[0]))
        }
    }

    fn parse(node: &Node) -> (built: Result<JoinConstraint, StructuralError>)
        ensures
            outcome(built) == Self::build(node.deep_view()),
    {
        if node.rule() != Rule::JoinConstraint || node.len() != 1 {
            return Err(StructuralError { rule: node.rule() });
        }
        let inner = node.child(0);
        if inner.rule() == Rule::Expr {
            let expr = Expr::parse(inner)?;
            Ok(JoinConstraint::Expr(expr))
        } else if inner.rule() == Rule::Idents {
            let columns = parse_list::<String>(inner, Rule::Idents)?;
            Ok(JoinConstraint::Using(columns))
        } else {
            Err(StructuralError { rule: inner.rule() })
        }
    }
}

impl Parser for JoinSubClause {
    /// A join without a written constraint has none.
    open spec fn build(cst: Cst) -> Result<JoinSubClauseModel, StructuralError> {
        let operator = build_at::<JoinOperator>(cst, 0);
        let table = build_at::<QualifiedTable>(cst, 1);
        let constraint = build_opt::<JoinConstraint>(cst, 2, Rule::JoinConstraint);
        if cst.rule != Rule::JoinSubClause || cst.children.len() != after(
            cst,
            2,
            Rule::JoinConstraint,
        ) {
            Err(mismatch(cst))
        } else if operator is Err {
            Err(operator->Err_0)
        } else if table is Err {
            Err(table->Err_0)
        } else if constraint is Err {
            Err(constraint->Err_0)
        } else {
            Ok(
                JoinSubClauseModel {
                    operator: operator->Ok_0,
                    table_or_subquery: table->Ok_0,
                    constraint: constraint->Ok_0,
                },
            )
        }
    }

    fn parse(node: &Node) -> (built: Result<JoinSubClause, StructuralError>)
        ensures
            outcome(built) == Self::build(node.deep_view()),
    {
        let end: usize = if at(node, 2, Rule::JoinConstraint) {
            3
        } else {
            2
        };
        if node.rule() != Rule::JoinSubClause || node.len() != end {
            return Err(StructuralError { rule: node.rule() });
        }
        let operator = parse_at::<JoinOperator>(node, 0)?;
        let table_or_subquery = parse_at::<QualifiedTable>(node, 1)?;
        let constraint = parse_opt::<JoinConstraint>(node, 2, Rule::JoinConstraint)?;
        Ok(JoinSubClause { operator, table_or_subquery, constraint })
    }
}

impl Parser for JoinClause {
    /// The first child is the table; every child after it is one join.
    open spec fn build(cst: Cst) -> Result<JoinClauseModel, StructuralError> {
        let table = build_at::<QualifiedTable>(cst, 0);
        let joins = build_each::<JoinSubClause>(cst.children.skip(1));
        if cst.rule != Rule::JoinClause || cst.children.len() == 0 {
            Err(mismatch(cst))
        } else if table is Err {
            Err(table->Err_0)
        } else if joins is Err {
            Err(joins->Err_0)
        } else {
            Ok(JoinClauseModel { table_or_subquery: table->Ok_0, joins: joins->Ok_0 })
        }
    }

    fn parse(node: &Node) -> (built: Result<JoinClause, StructuralError>)
        ensures
            outcome(built) == Self::build(node.deep_view()),
    {
        if node.rule() != Rule::JoinClause || node.len() == 0 {
            return Err(StructuralError { rule: node.rule() });
        }
        let table_or_subquery = parse_at::<QualifiedTable>(node, 0)?;
        let joins = parse_each::<JoinSubClause>(node, 1)?;
        Ok(JoinClause { table_or_subquery, joins })
    }
}

impl Parser for FromClause {
    open spec fn build(cst: Cst) -> Result<FromClauseModel, StructuralError> {
        if cst.rule != Rule::FromClause || cst.children.len() != 1 {
            Err(mismatch(cst))
        } else if cst.children[0].rule == Rule::FromTables {
            match build_list::<QualifiedTable>(cst.children[0], Rule::FromTables) {
                Err(e) => Err(e),
                Ok(tables) => Ok(FromClauseModel::TableOrQuerys(tables)),
            }
        } else if cst.children[0].rule == Rule::FromJoin && cst.children[0].children.len() == 1 {
            match build_at::<JoinClause>(cst.children[0], 0) {
                Err(e) => Err(e),
                Ok(join) => Ok(FromClauseModel::Join(join)),
            }
        } else {
            Err(mismatch(cst.children[0]))
        }
    }

    fn parse(node: &Node) -> (built: Result<FromClause, StructuralError>)
        ensures
            outcome(built) == Self::build(node.deep_view()),
    {
        if node.rule() != Rule::FromClause || node.len() != 1 {
            return Err(StructuralError { rule: node.rule() });
        }
        let inner = node.child(0);
        if inner.rule() == Rule::FromTables {
            let tables = parse_list::<QualifiedTable>(inner, Rule::FromTables)?;
            Ok(FromClause::TableOrQuerys(tables))
        } else if inner.rule() == Rule::FromJoin && inner.len() == 1 {
            let join = parse_at::<JoinClause>(inner, 0)?;
            Ok(FromClause::Join(join))
        } else {
            Err(StructuralError { rule: inner.rule() })
        }
    }
}

/// The columns that an assignment sets: those of a list, or the one named.
pub open spec fn targets_of(cst: Cst) -> Result<Seq<Seq<char>>, StructuralError> {
    if cst.rule == Rule::Idents {
        build_list::<String>(cst, Rule::Idents)
    } else if cst.rule == Rule::Ident {
        match String::build(cst) {
            Err(e) => Err(e),
            Ok(name) => Ok(seq![name]),
        }
    } else {
        Err(mismatch(cst))
    }
}

/// Builds the columns that an assignment sets.
pub fn parse_targets(node: &Node) -> (built: Result<Vec<String>, StructuralError>)
    ensures
        outcome(built) == targets_of(node.deep_view()),
{
    if node.rule() == Rule::Idents {
        parse_list::<String>(node, Rule::Idents)
    } else if node.rule() == Rule::Ident {
        let name = String::parse(node)?;
        let mut columns: Vec<String> = Vec::new();
        columns.push(name);
        proof {
            assert(columns.deep_view() =~= seq![name@]);
        }
        Ok(columns)
    } else {
        Err(StructuralError { rule: node.rule() })
    }
}

impl Parser for SetSubClause {
    open spec fn build(cst: Cst) -> Result<SetSubClauseModel, StructuralError> {
        if cst.rule != Rule::SetSubClause || cst.children.len() != 2 {
            Err(mismatch(cst))
        } else {
            let columns = targets_of(cst.children[0]);
            let value = build_at::<Expr>(cst, 1);
            if columns is Err {
                Err(columns->Err_0)
            } else if value is Err {
                Err(value->Err_0)
            } else {
                Ok(SetSubClauseModel { columns: columns->Ok_0, value: value->Ok_0 })
            }
        }
    }

    fn parse(node: &Node) -> (built: Result<SetSubClause, StructuralError>)
        ensures
            outcome(built) == Self::build(node.deep_view()),
    {
        if node.rule() != Rule::SetSubClause || node.len() != 2 {
            return Err(StructuralError { rule: node.rule() });
        }
        let columns = parse_targets(node.child(0))?;
        let value = parse_at::<Expr>(node, 1)?;
        Ok(SetSubClause { columns, value })
    }
}

/// The rows that the first `n` children of a list of rows stand for: each
/// child is a list of expressions. The first row that fails decides the error.
pub open spec fn rows_upto(cst: Cst, n: int) -> Result<Seq<Seq<ExprModel>>, StructuralError>
    decreases n,
{
    if 0 < n <= cst.children.len() {
        let front = rows_upto(cst, n - 1);
        let row = build_list::<Expr>(cst.children[n - 1], Rule::Exprs);
        if front is Err {
            Err(front->Err_0)
        } else if row is Err {
            Err(row->Err_0)
        } else {
            Ok(front->Ok_0.push(row->Ok_0))
        }
    } else {
        Ok(Seq::empty())
    }
}

/// The rows that the child at position `i` stands for. It must be a list of
/// rows.
pub open spec fn rows_at(cst: Cst, i: int) -> Result<Seq<Seq<ExprModel>>, StructuralError> {
    if !(0 <= i < cst.children.len()) {
        Err(mismatch(cst))
    } else if cst.children[i].rule != Rule::ValueRows {
        Err(mismatch(cst.children[i]))
    } else {
        rows_upto(cst.children[i], cst.children[i].children.len() as int)
    }
}

/// Once the first `n` rows have failed, the first `m` fail with the same
/// error, for every `m` from `n` on.
pub proof fn lemma_rows_upto_fails(cst: Cst, n: int, m: int)
    requires
        0 <= n <= m <= cst.children.len(),
        rows_upto(cst, n) is Err,
    ensures
        rows_upto(cst, m) == rows_upto(cst, n),
    decreases m - n,
{
    if n < m {
        lemma_rows_upto_fails(cst, n, m - 1);
    }
}

/// Builds the rows that the child at position `i` stands for.
pub fn parse_rows(node: &Node, i: usize) -> (built: Result<Vec<Vec<Expr>>, StructuralError>)
    ensures
        outcome(built) == rows_at(node.deep_view(), i as int),
{
    if i >= node.len() {
        return Err(StructuralError { rule: node.rule() });
    }
    let list = node.child(i);
    if list.rule() != Rule::ValueRows {
        return Err(StructuralError { rule: list.rule() });
    }
    let n = list.len();
    let mut rows: Vec<Vec<Expr>> = Vec::new();
    let mut k: usize = 0;
    proof {
        assert(rows.deep_view() =~= Seq::empty());
    }
    while k < n
        invariant
            k <= n,
            n == list.deep_view().children.len(),
            i < node.deep_view().children.len(),
            list.deep_view() == node.deep_view().children[i as int],
            list.deep_view().rule == Rule::ValueRows,
            rows_upto(list.deep_view(), k as int) == Ok::<Seq<Seq<ExprModel>>, StructuralError>(
                rows.deep_view(),
            ),
        decreases n - k,
    {
        match parse_list::<Expr>(list.child(k), Rule::Exprs) {
            Ok(row) => {
                let ghost before = rows.deep_view();
                rows.push(row);
                proof {
                    assert(rows.deep_view() =~= before.push(row.deep_view()));
                }
            },
            Err(e) => {
                proof {
                    assert(rows_upto(list.deep_view(), k + 1) == Err::<
                        Seq<Seq<ExprModel>>,
                        StructuralError,
                    >(e));
                    lemma_rows_upto_fails(list.deep_view(), k + 1, n as int);
                }
                return Err(e);
            },
        }
        k += 1;
    }
    Ok(rows)
}

/// The query that a `SELECT` core stands for. The clauses come in this
/// order, each of them optional but the columns: `DISTINCT` or `ALL`, the
/// columns, `FROM`, `WHERE`, `GROUP BY`, `HAVING`. There is no `HAVING`
/// without a `GROUP BY` before it.
pub open spec fn query_of(cst: Cst) -> Result<SelectCoreModel, StructuralError> {
    let columns_at = if tagged(cst, 0, Rule::Distinct) || tagged(cst, 0, Rule::All) {
        1int
    } else {
        0int
    };
    let from_at = columns_at + 1;
    let where_at = after(cst, from_at, Rule::FromClause);
    let group_at = after(cst, where_at, Rule::Expr);
    let having_at = after(cst, group_at, Rule::Exprs);
    let end = if tagged(cst, group_at, Rule::Exprs) {
        after(cst, having_at, Rule::Expr)
    } else {
        group_at
    };
    let columns = build_list_at::<ResultColumn>(cst, columns_at, Rule::ResultColumns);
    let from_clause = build_opt::<FromClause>(cst, from_at, Rule::FromClause);
    let where_clause = build_opt::<Expr>(cst, where_at, Rule::Expr);
    let group_by = build_opt_list::<Expr>(cst, group_at, Rule::Exprs);
    let having = build_opt::<Expr>(cst, having_at, Rule::Expr);
    if cst.children.len() != end {
        Err(mismatch(cst))
    } else if columns is Err {
        Err(columns->Err_0)
    } else if from_clause is Err {
        Err(from_clause->Err_0)
    } else if where_clause is Err {
        Err(where_clause->Err_0)
    } else if group_by is Err {
        Err(group_by->Err_0)
    } else if having is Err {
        Err(having->Err_0)
    } else {
        Ok(
            SelectCoreModel::Query {
                is_distinct: tagged(cst, 0, Rule::Distinct),
                columns: columns->Ok_0,
                from_clause: from_clause->Ok_0,
                where_clause: where_clause->Ok_0,
                group_by: group_by->Ok_0,
                having: having->Ok_0,
            },
        )
    }
}

/// Builds the query that a `SELECT` core stands for.
pub fn parse_query(node: &Node) -> (built: Result<SelectCore, StructuralError>)
    ensures
        outcome(built) == query_of(node.deep_view()),
{
    let is_distinct = at(node, 0, Rule::Distinct);
    let columns_at: usize = if is_distinct || at(node, 0, Rule::All) {
        1
    } else {
        0
    };
    let from_at: usize = columns_at + 1;
    let where_at: usize = if at(node, from_at, Rule::FromClause) {
        from_at + 1
    } else {
        from_at
    };
    let group_at: usize = if at(node, where_at, Rule::Expr) {
        where_at + 1
    } else {
        where_at
    };
    let grouped = at(node, group_at, Rule::Exprs);
    let having_at: usize = if grouped {
        group_at + 1
    } else {
        group_at
    };
    let end: usize = if grouped && at(node, having_at, Rule::Expr) {
        having_at + 1
    } else {
        having_at
    };
    if node.len() != end {
        return Err(StructuralError { rule: node.rule() });
    }
    let columns = parse_list_at::<ResultColumn>(node, columns_at, Rule::ResultColumns)?;
    let from_clause = parse_opt::<FromClause>(node, from_at, Rule::FromClause)?;
    let where_clause = parse_opt::<Expr>(node, where_at, Rule::Expr)?;
    let group_by = parse_opt_list::<Expr>(node, group_at, Rule::Exprs)?;
    let having = parse_opt::<Expr>(node, having_at, Rule::Expr)?;
    Ok(SelectCore::Query { is_distinct, columns, from_clause, where_clause, group_by, having })
}

impl Parser for SelectCore {
    open spec fn build(cst: Cst) -> Result<SelectCoreModel, StructuralError> {
        if cst.rule == Rule::SelectQuery {
            query_of(cst)
        } else if cst.rule == Rule::SelectValues && cst.children.len() == 1 {
            match rows_at(cst, 0) {
                Err(e) => Err(e),
                Ok(rows) => Ok(SelectCoreModel::Values(rows)),
            }
        } else {
            Err(mismatch(cst))
        }
    }

    fn parse(node: &Node) -> (built: Result<SelectCore, StructuralError>)
        ensures
            outcome(built) == Self::build(node.deep_view()),
    {
        if node.rule() == Rule::SelectQuery {
            parse_query(node)
        } else if node.rule() == Rule::SelectValues && node.len() == 1 {
            let rows = parse_rows(node, 0)?;
            Ok(SelectCore::Values(rows))
        } else {
            Err(StructuralError { rule: node.rule() })
        }
    }
}

impl Parser for CompoundOperator {
    open spec fn build(cst: Cst) -> Result<CompoundOperator, StructuralError> {
        if cst.rule != Rule::CompoundOperator || cst.children.len() != 1 {
            Err(mismatch(cst))
        } else if cst.children[0].rule == Rule::Union {
            Ok(CompoundOperator::Union(false))
        } else if cst.children[0].rule == Rule::UnionAll {
            Ok(CompoundOperator::Union(true))
        } else if cst.children[0].rule == Rule::Intersect {
            Ok(CompoundOperator::Intersect)
        } else if cst.children[0].rule == Rule::Except {
            Ok(CompoundOperator::Except)
        } else {
            Err(mismatch(cst.children[0]))
        }
    }

    fn parse(node: &Node) -> (built: Result<CompoundOperator, StructuralError>)
        ensures
            outcome(built) == Self::build(node.deep_view()),
    {
        if node.rule() != Rule::CompoundOperator || node.len() != 1 {
            return Err(StructuralError { rule: node.rule() });
        }
        let rule = node.child(0).rule();
        if rule == Rule::Union {
            Ok(CompoundOperator::Union(false))
        } else if rule == Rule::UnionAll {
            Ok(CompoundOperator::Union(true))
        } else if rule == Rule::Intersect {
            Ok(CompoundOperator::Intersect)
        } else if rule == Rule::Except {
            Ok(CompoundOperator::Except)
        } else {
            Err(StructuralError { rule })
        }
    }
}

/// The cores chained to a first one: `done`, followed by one pair for each
/// compound operator from child `pos` on and the core after it, with the
/// position of the first child that is no compound operator.
pub open spec fn compounds_of(
    cst: Cst,
    done: Seq<(CompoundOperator, SelectCoreModel)>,
    pos: int,
) -> Result<(Seq<(CompoundOperator, SelectCoreModel)>, int), StructuralError> {
    chain_of::<CompoundOperator, SelectCore>(cst, done, pos, Rule::CompoundOperator)
}

/// What a walk over the chained cores returned, seen through their models.
pub open spec fn chained(
    r: Result<(Vec<(CompoundOperator, SelectCore)>, usize), StructuralError>,
) -> Result<(Seq<(CompoundOperator, SelectCoreModel)>, int), StructuralError> {
    match r {
        Ok((list, end)) => Ok((list.deep_view(), end as int)),
        Err(e) => Err(e),
    }
}

/// Builds the cores chained to the first one, from child 1 on.
pub fn parse_compounds(node: &Node) -> (built: Result<
    (Vec<(CompoundOperator, SelectCore)>, usize),
    StructuralError,
>)
    ensures
        chained(built) == compounds_of(node.deep_view(), Seq::empty(), 1),
        built is Ok ==> built->Ok_0.1 <= node.deep_view().children.len() + 1,
{
    let n = node.len();
    let mut compound: Vec<(CompoundOperator, SelectCore)> = Vec::new();
    let mut pos: usize = 1;
    proof {
        assert(compound.deep_view() =~= Seq::empty());
    }
    while at(node, pos, Rule::CompoundOperator)
        invariant
            1 <= pos <= n + 1,
            n == node.deep_view().children.len(),
            compounds_of(node.deep_view(), compound.deep_view(), pos as int) == compounds_of(
                node.deep_view(),
                Seq::empty(),
                1,
            ),
        decreases n + 1 - pos,
    {
        let ghost before = compound.deep_view();
        let operator = match CompoundOperator::parse(node.child(pos)) {
            Ok(operator) => operator,
            Err(e) => {
                return Err(e);
            },
        };
        let next = match parse_at::<SelectCore>(node, pos + 1) {
            Ok(next) => next,
            Err(e) => {
                return Err(e);
            },
        };
        let ghost pair = (operator, next.deep_view());
        compound.push((operator, next));
        proof {
            assert(compound.deep_view() =~= before.push(pair));
        }
        pos += 2;
    }
    Ok((compound, pos))
}

impl Parser for Select {
    /// A first core, the cores chained to it, then `ORDER BY`, `LIMIT` and
    /// `OFFSET`, each of the three optional; an offset stands only after a
    /// limit.
    open spec fn build(cst: Cst) -> Result<SelectModel, StructuralError> {
        let core = build_at::<SelectCore>(cst, 0);
        let compound = compounds_of(cst, Seq::empty(), 1);
        if cst.rule != Rule::Select {
            Err(mismatch(cst))
        } else if core is Err {
            Err(core->Err_0)
        } else if compound is Err {
            Err(compound->Err_0)
        } else {
            let order_at = compound->Ok_0.1;
            let limit_at = after(cst, order_at, Rule::OrderingTerms);
            let offset_at = after(cst, limit_at, Rule::Expr);
            let end = after(cst, offset_at, Rule::Expr);
            let order_by = build_opt_list::<OrderingTerm>(cst, order_at, Rule::OrderingTerms);
            let limit = build_opt::<Expr>(cst, limit_at, Rule::Expr);
            let offset = build_opt::<Expr>(cst, offset_at, Rule::Expr);
            if cst.children.len() != end {
                Err(mismatch(cst))
            } else if order_by is Err {
                Err(order_by->Err_0)
            } else if limit is Err {
                Err(limit->Err_0)
            } else if offset is Err {
                Err(offset->Err_0)
            } else {
                Ok(
                    SelectModel {
                        core: core->Ok_0,
                        compound: compound->Ok_0.0,
                        order_by: order_by->Ok_0,
                        limit: limit->Ok_0,
                        offset: offset->Ok_0,
                    },
                )
            }
        }
    }

    fn parse(node: &Node) -> (built: Result<Select, StructuralError>)
        ensures
            outcome(built) == Self::build(node.deep_view()),
    {
        if node.rule() != Rule::Select {
            return Err(StructuralError { rule: node.rule() });
        }
        let core = parse_at::<SelectCore>(node, 0)?;
        let n = node.len();
        let (compound, pos) = parse_compounds(node)?;
        let limit_at: usize = if at(node, pos, Rule::OrderingTerms) {
            pos + 1
        } else {
            pos
        };
        let offset_at: usize = if at(node, limit_at, Rule::Expr) {
            limit_at + 1
        } else {
            limit_at
        };
        let end: usize = if at(node, offset_at, Rule::Expr) {
            offset_at + 1
        } else {
            offset_at
        };
        if n != end {
            return Err(StructuralError { rule: node.rule() });
        }
        let order_by = parse_opt_list::<OrderingTerm>(node, pos, Rule::OrderingTerms)?;
        let limit = parse_opt::<Expr>(node, limit_at, Rule::Expr)?;
        let offset = parse_opt::<Expr>(node, offset_at, Rule::Expr)?;
        Ok(Select { core, compound, order_by, limit, offset })
    }
}

/// What a `SELECT` that is built holds, whatever it is built of: its first
/// core; one pair for each compound operator, in the order of the text;
/// the terms of `ORDER BY`, or none where there is no such clause; and a
/// limit and an offset, or neither where there is no limit. There is no
/// offset without a limit.
pub proof fn lemma_select_parts(cst: Cst)
    requires
        Select::build(cst) is Ok,
    ensures
        ({
            let select = Select::build(cst)->Ok_0;
            let chained = select.compound.len() as int;
            let order_at = 1 + 2 * chained;
            let limit_at = after(cst, order_at, Rule::OrderingTerms);
            &&& built::<SelectCore>(cst.children[0]) == Ok::<SelectCoreModel, StructuralError>(
                select.core,
            )
            &&& is_chain::<CompoundOperator, SelectCore>(
                cst,
                Seq::empty(),
                1,
                Rule::CompoundOperator,
                select.compound,
                order_at,
            )
            &&& !tagged(cst, order_at, Rule::CompoundOperator)
            &&& !tagged(cst, order_at, Rule::OrderingTerms) ==> select.order_by.len() == 0
            &&& !tagged(cst, limit_at, Rule::Expr) ==> select.limit is None && select.offset
                is None
            &&& select.offset is Some ==> select.limit is Some
        }),
{
    lemma_chain::<CompoundOperator, SelectCore>(cst, Seq::empty(), 1, Rule::CompoundOperator);
    assert(built::<SelectCore>(cst.children[0]) == SelectCore::build(cst.children[0])) by {
        reveal(built);
    }
}

/// Whether the tree of a `SELECT` holds a compound operator in the place of
/// its `i`th: after the first core, two by two.
pub open spec fn compound_at(cst: Cst, i: int) -> bool {
    tagged(cst, 1 + 2 * i, Rule::CompoundOperator)
}

/// A `SELECT` that is built chains as many cores as its tree holds compound
/// operators after the first core, two by two.
pub proof fn lemma_select_counts(cst: Cst, operators: int)
    requires
        Select::build(cst) is Ok,
        0 <= operators,
        forall|i: int| 0 <= i < operators ==> #[trigger] compound_at(cst, i),
        !compound_at(cst, operators),
    ensures
        Select::build(cst)->Ok_0.compound.len() == operators,
{
    lemma_select_parts(cst);
    let chain = Select::build(cst)->Ok_0.compound;
    let chained = chain.len() as int;
    if chained > operators {
        assert(is_link::<CompoundOperator, SelectCore>(
            cst,
            0,
            1,
            Rule::CompoundOperator,
            chain,
            operators,
        ));
    }
    if chained < operators {
        assert(compound_at(cst, chained));
    }
}

/// The compound operator that each tag names: `UNION` without `ALL`, `UNION
/// ALL`, `INTERSECT` and `EXCEPT`.
pub proof fn lemma_compound_operators(cst: Cst)
    requires
        cst.rule == Rule::CompoundOperator,
        cst.children.len() == 1,
    ensures
        cst.children[0].rule == Rule::Union ==> CompoundOperator::build(cst) == Ok::<
            CompoundOperator,
            StructuralError,
        >(CompoundOperator::Union(false)),
        cst.children[0].rule == Rule::UnionAll ==> CompoundOperator::build(cst) == Ok::<
            CompoundOperator,
            StructuralError,
        >(CompoundOperator::Union(true)),
        cst.children[0].rule == Rule::Intersect ==> CompoundOperator::build(cst) == Ok::<
            CompoundOperator,
            StructuralError,
        >(CompoundOperator::Intersect),
        cst.children[0].rule == Rule::Except ==> CompoundOperator::build(cst) == Ok::<
            CompoundOperator,
            StructuralError,
        >(CompoundOperator::Except),
{
}

/// What an upsert is aimed at: the columns of the conflict, and the filter
/// that may follow them.
pub open spec fn conflict_target_of(cst: Cst) -> Result<
    (Seq<IndexedColumnModel>, Option<ExprModel>),
    StructuralError,
> {
    let columns = build_list_at::<IndexedColumn>(cst, 0, Rule::IndexedColumns);
    let filter = build_opt::<Expr>(cst, 1, Rule::Expr);
    if cst.rule != Rule::ConflictColumns || cst.children.len() != after(cst, 1, Rule::Expr) {
        Err(mismatch(cst))
    } else if columns is Err {
        Err(columns->Err_0)
    } else if filter is Err {
        Err(filter->Err_0)
    } else {
        Ok((columns->Ok_0, filter->Ok_0))
    }
}

/// Builds what an upsert is aimed at.
pub fn parse_conflict_target(node: &Node) -> (built: Result<
    (Vec<IndexedColumn>, Option<Expr>),
    StructuralError,
>)
    ensures
        outcome(built) == conflict_target_of(node.deep_view()),
{
    let end: usize = if at(node, 1, Rule::Expr) {
        2
    } else {
        1
    };
    if node.rule() != Rule::ConflictColumns || node.len() != end {
        return Err(StructuralError { rule: node.rule() });
    }
    let columns = parse_list_at::<IndexedColumn>(node, 0, Rule::IndexedColumns)?;
    let filter = parse_opt::<Expr>(node, 1, Rule::Expr)?;
    Ok((columns, filter))
}

impl Parser for UpsertType {
    open spec fn build(cst: Cst) -> Result<UpsertTypeModel, StructuralError> {
        if cst.rule == Rule::UpsertNothing {
            Ok(UpsertTypeModel::Nothing)
        } else if cst.rule == Rule::UpsertUpdate && cst.children.len() == after(
            cst,
            1,
            Rule::Expr,
        ) {
            let set_clause = build_list_at::<SetSubClause>(cst, 0, Rule::SetClause);
            let where_clause = build_opt::<Expr>(cst, 1, Rule::Expr);
            if set_clause is Err {
                Err(set_clause->Err_0)
            } else if where_clause is Err {
                Err(where_clause->Err_0)
            } else {
                Ok(
                    UpsertTypeModel::Update {
                        set_clause: set_clause->Ok_0,
                        where_clause: where_clause->Ok_0,
                    },
                )
            }
        } else {
            Err(mismatch(cst))
        }
    }

    fn parse(node: &Node) -> (built: Result<UpsertType, StructuralError>)
        ensures
            outcome(built) == Self::build(node.deep_view()),
    {
        let end: usize = if at(node, 1, Rule::Expr) {
            2
        } else {
            1
        };
        if node.rule() == Rule::UpsertNothing {
            Ok(UpsertType::Nothing)
        } else if node.rule() == Rule::UpsertUpdate && node.len() == end {
            let set_clause = parse_list_at::<SetSubClause>(node, 0, Rule::SetClause)?;
            let where_clause = parse_opt::<Expr>(node, 1, Rule::Expr)?;
            Ok(UpsertType::Update { set_clause, where_clause })
        } else {
            Err(StructuralError { rule: node.rule() })
        }
    }
}

impl Parser for UpsertSubClause {
    /// An upsert without a written target has no columns and no filter.
    open spec fn build(cst: Cst) -> Result<UpsertSubClauseModel, StructuralError> {
        let targeted = tagged(cst, 0, Rule::ConflictColumns);
        let action_at = after(cst, 0, Rule::ConflictColumns);
        let target = if targeted {
            conflict_target_of(cst.children[0])
        } else {
            Ok((Seq::empty(), None))
        };
        let action = build_at::<UpsertType>(cst, action_at);
        if cst.rule != Rule::UpsertSubClause || cst.children.len() != action_at + 1 {
            Err(mismatch(cst))
        } else if target is Err {
            Err(target->Err_0)
        } else if action is Err {
            Err(action->Err_0)
        } else {
            Ok(
                UpsertSubClauseModel {
                    indexed_cols: target->Ok_0.0,
                    where_clause: target->Ok_0.1,
                    upsert_type: action->Ok_0,
                },
            )
        }
    }

    fn parse(node: &Node) -> (built: Result<UpsertSubClause, StructuralError>)
        ensures
            outcome(built) == Self::build(node.deep_view()),
    {
        let targeted = at(node, 0, Rule::ConflictColumns);
        let action_at: usize = if targeted {
            1
        } else {
            0
        };
        if node.rule() != Rule::UpsertSubClause || node.len() != action_at + 1 {
            return Err(StructuralError { rule: node.rule() });
        }
        let (indexed_cols, where_clause) = if targeted {
            parse_conflict_target(node.child(0))?
        } else {
            let none: Vec<IndexedColumn> = Vec::new();
            proof {
                assert(none.deep_view() =~= Seq::empty());
            }
            (none, None)
        };
        let upsert_type = parse_at::<UpsertType>(node, action_at)?;
        Ok(UpsertSubClause { indexed_cols, where_clause, upsert_type })
    }
}

impl Parser for InsertHeader {
    /// An insertion without a written conflict clause aborts on a conflict.
    open spec fn build(cst: Cst) -> Result<InsertHeader, StructuralError> {
        if cst.rule == Rule::InsertInto && cst.children.len() == after(
            cst,
            0,
            Rule::ConflictResolution,
        ) {
            match resolution_at(cst, 0) {
                Err(e) => Err(e),
                Ok(resolution) => Ok(InsertHeader::Insert(resolution)),
            }
        } else if cst.rule == Rule::ReplaceInto {
            Ok(InsertHeader::Replace)
        } else {
            Err(mismatch(cst))
        }
    }

    fn parse(node: &Node) -> (built: Result<InsertHeader, StructuralError>)
        ensures
            outcome(built) == Self::build(node.deep_view()),
    {
        let end: usize = if at(node, 0, Rule::ConflictResolution) {
            1
        } else {
            0
        };
        if node.rule() == Rule::InsertInto && node.len() == end {
            let resolution = parse_resolution(node, 0)?;
            Ok(InsertHeader::Insert(resolution))
        } else if node.rule() == Rule::ReplaceInto {
            Ok(InsertHeader::Replace)
        } else {
            Err(StructuralError { rule: node.rule() })
        }
    }
}

impl Parser for InsertValues {
    /// Rows or a query, each with the upsert that may follow; or the defaults.
    open spec fn build(cst: Cst) -> Result<InsertValuesModel, StructuralError> {
        let shaped = cst.children.len() == after(cst, 1, Rule::UpsertSubClause);
        let upsert = build_opt::<UpsertSubClause>(cst, 1, Rule::UpsertSubClause);
        if cst.rule == Rule::InsertValues && shaped {
            let values = rows_at(cst, 0);
            if values is Err {
                Err(values->Err_0)
            } else if upsert is Err {
                Err(upsert->Err_0)
            } else {
                Ok(InsertValuesModel::Values { values: values->Ok_0, upsert: upsert->Ok_0 })
            }
        } else if cst.rule == Rule::InsertSelect && shaped {
            let select = build_at::<Select>(cst, 0);
            if select is Err {
                Err(select->Err_0)
            } else if upsert is Err {
                Err(upsert->Err_0)
            } else {
                Ok(InsertValuesModel::Select { select: select->Ok_0, upsert: upsert->Ok_0 })
            }
        } else if cst.rule == Rule::InsertDefault {
            Ok(InsertValuesModel::Default)
        } else {
            Err(mismatch(cst))
        }
    }

    fn parse(node: &Node) -> (built: Result<InsertValues, StructuralError>)
        ensures
            outcome(built) == Self::build(node.deep_view()),
    {
        let end: usize = if at(node, 1, Rule::UpsertSubClause) {
            2
        } else {
            1
        };
        let shaped = node.len() == end;
        if node.rule() == Rule::InsertValues && shaped {
            let values = parse_rows(node, 0)?;
            let upsert = parse_opt::<UpsertSubClause>(node, 1, Rule::UpsertSubClause)?;
            Ok(InsertValues::Values { values, upsert })
        } else if node.rule() == Rule::InsertSelect && shaped {
            let select = parse_at::<Select>(node, 0)?;
            let upsert = parse_opt::<UpsertSubClause>(node, 1, Rule::UpsertSubClause)?;
            Ok(InsertValues::Select { select: Box::new(select), upsert })
        } else if node.rule() == Rule::InsertDefault {
            Ok(InsertValues::Default)
        } else {
            Err(StructuralError { rule: node.rule() })
        }
    }
}

impl Parser for Insert {
    /// The header and the table, then an alias and a column list, each
    /// optional, then the source of the rows, then an optional `RETURNING`.
    open spec fn build(cst: Cst) -> Result<InsertModel, StructuralError> {
        let columns_at = after(cst, 2, Rule::Ident);
        let values_at = after(cst, columns_at, Rule::Idents);
        let header = build_at::<InsertHeader>(cst, 0);
        let table = build_at::<SchemaObject>(cst, 1);
        let alias = build_opt::<String>(cst, 2, Rule::Ident);
        let columns = build_opt_list::<String>(cst, columns_at, Rule::Idents);
        let values = build_at::<InsertValues>(cst, values_at);
        let returning = build_opt_list::<ReturnSubClause>(cst, values_at + 1, Rule::Returning);
        if cst.rule != Rule::Insert || cst.children.len() != after(
            cst,
            values_at + 1,
            Rule::Returning,
        ) {
            Err(mismatch(cst))
        } else if header is Err {
            Err(header->Err_0)
        } else if table is Err {
            Err(table->Err_0)
        } else if alias is Err {
            Err(alias->Err_0)
        } else if columns is Err {
            Err(columns->Err_0)
        } else if values is Err {
            Err(values->Err_0)
        } else if returning is Err {
            Err(returning->Err_0)
        } else {
            Ok(
                InsertModel {
                    header: header->Ok_0,
                    schema_table: table->Ok_0,
                    alias: alias->Ok_0,
                    columns: columns->Ok_0,
                    values: values->Ok_0,
                    return_clause: returning->Ok_0,
                },
            )
        }
    }

    fn parse(node: &Node) -> (built: Result<Insert, StructuralError>)
        ensures
            outcome(built) == Self::build(node.deep_view()),
    {
        let columns_at: usize = if at(node, 2, Rule::Ident) {
            3
        } else {
            2
        };
        let values_at: usize = if at(node, columns_at, Rule::Idents) {
            columns_at + 1
        } else {
            columns_at
        };
        let end: usize = if at(node, values_at + 1, Rule::Returning) {
            values_at + 2
        } else {
            values_at + 1
        };
        if node.rule() != Rule::Insert || node.len() != end {
            return Err(StructuralError { rule: node.rule() });
        }
        let header = parse_at::<InsertHeader>(node, 0)?;
        let schema_table = parse_at::<SchemaObject>(node, 1)?;
        let alias = parse_opt::<String>(node, 2, Rule::Ident)?;
        let columns = parse_opt_list::<String>(node, columns_at, Rule::Idents)?;
        let values = parse_at::<InsertValues>(node, values_at)?;
        let return_clause = parse_opt_list::<ReturnSubClause>(
            node,
            values_at + 1,
            Rule::Returning,
        )?;
        Ok(Insert { header, schema_table, alias, columns, values, return_clause })
    }
}

impl Parser for Update {
    /// An optional conflict clause, the table and the assignments, then
    /// `FROM`, `WHERE` and `RETURNING`, each of the three optional.
    open spec fn build(cst: Cst) -> Result<UpdateModel, StructuralError> {
        let table_at = after(cst, 0, Rule::ConflictResolution);
        let from_at = table_at + 2;
        let where_at = after(cst, from_at, Rule::FromClause);
        let return_at = after(cst, where_at, Rule::Expr);
        let conflict = resolution_at(cst, 0);
        let table = build_at::<QualifiedTable>(cst, table_at);
        let set_clause = build_list_at::<SetSubClause>(cst, table_at + 1, Rule::SetClause);
        let from_clause = build_opt::<FromClause>(cst, from_at, Rule::FromClause);
        let where_clause = build_opt::<Expr>(cst, where_at, Rule::Expr);
        let returning = build_opt_list::<ReturnSubClause>(cst, return_at, Rule::Returning);
        if cst.rule != Rule::Update || cst.children.len() != after(
            cst,
            return_at,
            Rule::Returning,
        ) {
            Err(mismatch(cst))
        } else if conflict is Err {
            Err(conflict->Err_0)
        } else if table is Err {
            Err(table->Err_0)
        } else if set_clause is Err {
            Err(set_clause->Err_0)
        } else if from_clause is Err {
            Err(from_clause->Err_0)
        } else if where_clause is Err {
            Err(where_clause->Err_0)
        } else if returning is Err {
            Err(returning->Err_0)
        } else {
            Ok(
                UpdateModel {
                    conflict: conflict->Ok_0,
                    qualified_table: table->Ok_0,
                    set_clause: set_clause->Ok_0,
                    from_clause: from_clause->Ok_0,
                    where_clause: where_clause->Ok_0,
                    return_clause: returning->Ok_0,
                },
            )
        }
    }

    fn parse(node: &Node) -> (built: Result<Update, StructuralError>)
        ensures
            outcome(built) == Self::build(node.deep_view()),
    {
        let table_at: usize = if at(node, 0, Rule::ConflictResolution) {
            1
        } else {
            0
        };
        let from_at: usize = table_at + 2;
        let where_at: usize = if at(node, from_at, Rule::FromClause) {
            from_at + 1
        } else {
            from_at
        };
        let return_at: usize = if at(node, where_at, Rule::Expr) {
            where_at + 1
        } else {
            where_at
        };
        let end: usize = if at(node, return_at, Rule::Returning) {
            return_at + 1
        } else {
            return_at
        };
        if node.rule() != Rule::Update || node.len() != end {
            return Err(StructuralError { rule: node.rule() });
        }
        let conflict = parse_resolution(node, 0)?;
        let qualified_table = parse_at::<QualifiedTable>(node, table_at)?;
        let set_clause = parse_list_at::<SetSubClause>(node, table_at + 1, Rule::SetClause)?;
        let from_clause = parse_opt::<FromClause>(node, from_at, Rule::FromClause)?;
        let where_clause = parse_opt::<Expr>(node, where_at, Rule::Expr)?;
        let return_clause = parse_opt_list::<ReturnSubClause>(node, return_at, Rule::Returning)?;
        Ok(Update { conflict, qualified_table, set_clause, from_clause, where_clause, return_clause })
    }
}

impl Parser for Delete {
    /// The table, then `WHERE` and `RETURNING`, each optional.
    open spec fn build(cst: Cst) -> Result<DeleteModel, StructuralError> {
        let return_at = after(cst, 1, Rule::Expr);
        let table = build_at::<QualifiedTable>(cst, 0);
        let where_clause = build_opt::<Expr>(cst, 1, Rule::Expr);
        let returning = build_opt_list::<ReturnSubClause>(cst, return_at, Rule::Returning);
        if cst.rule != Rule::Delete || cst.children.len() != after(
            cst,
            return_at,
            Rule::Returning,
        ) {
            Err(mismatch(cst))
        } else if table is Err {
            Err(table->Err_0)
        } else if where_clause is Err {
            Err(where_clause->Err_0)
        } else if returning is Err {
            Err(returning->Err_0)
        } else {
            Ok(
                DeleteModel {
                    qualified_table: table->Ok_0,
                    where_clause: where_clause->Ok_0,
                    return_clause: returning->Ok_0,
                },
            )
        }
    }

    fn parse(node: &Node) -> (built: Result<Delete, StructuralError>)
        ensures
            outcome(built) == Self::build(node.deep_view()),
    {
        let return_at: usize = if at(node, 1, Rule::Expr) {
            2
        } else {
            1
        };
        let end: usize = if at(node, return_at, Rule::Returning) {
            return_at + 1
        } else {
            return_at
        };
        if node.rule() != Rule::Delete || node.len() != end {
            return Err(StructuralError { rule: node.rule() });
        }
        let qualified_table = parse_at::<QualifiedTable>(node, 0)?;
        let where_clause = parse_opt::<Expr>(node, 1, Rule::Expr)?;
        let return_clause = parse_opt_list::<ReturnSubClause>(node, return_at, Rule::Returning)?;
        Ok(Delete { qualified_table, where_clause, return_clause })
    }
}

impl Parser for Dml {
    /// The statement that the node's own tag names.
    open spec fn build(cst: Cst) -> Result<DmlModel, StructuralError> {
        if cst.rule == Rule::Select {
            match Select::build(cst) {
                Err(e) => Err(e),
                Ok(select) => Ok(DmlModel::Select(select)),
            }
        } else if cst.rule == Rule::Insert {
            match Insert::build(cst) {
                Err(e) => Err(e),
                Ok(insert) => Ok(DmlModel::Insert(insert)),
            }
        } else if cst.rule == Rule::Update {
            match Update::build(cst) {
                Err(e) => Err(e),
                Ok(update) => Ok(DmlModel::Update(update)),
            }
        } else if cst.rule == Rule::Delete {
            match Delete::build(cst) {
                Err(e) => Err(e),
                Ok(delete) => Ok(DmlModel::Delete(delete)),
            }
        } else {
            Err(mismatch(cst))
        }
    }

    fn parse(node: &Node) -> (built: Result<Dml, StructuralError>)
        ensures
            outcome(built) == Self::build(node.deep_view()),
    {
        let rule = node.rule();
        if rule == Rule::Select {
            Ok(Dml::Select(Select::parse(node)?))
        } else if rule == Rule::Insert {
            Ok(Dml::Insert(Insert::parse(node)?))
        } else if rule == Rule::Update {
            Ok(Dml::Update(Update::parse(node)?))
        } else if rule == Rule::Delete {
            Ok(Dml::Delete(Delete::parse(node)?))
        } else {
            Err(StructuralError { rule })
        }
    }
}

} // verus!
