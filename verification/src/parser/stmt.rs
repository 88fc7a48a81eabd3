//! Statements, and the scripts that they make up.

use vstd::prelude::*;
use crate::ast::ddl::{
    AlterTable, CreateIndex, CreateTable, CreateTrigger, CreateView, DropIndex, DropTable,
    DropTrigger, DropView,
};
use crate::ast::dml::{Delete, Insert, Select, Update};
use crate::ast::{Stmt, StmtModel};
use crate::cst::{Cst, Node, Rule};
use crate::error::{mismatch, outcome, StructuralError};
use crate::parser::{build_list, built, lemma_build_each, parse_as, parse_list, Parser};

verus! {

/// The statement that a tree stands for: the one that its own tag names.
pub open spec fn statement_of(cst: Cst) -> Result<StmtModel, StructuralError> {
    if cst.rule == Rule::Select {
        match built::<Select>(cst) {
            Err(e) => Err(e),
            Ok(s) => Ok(StmtModel::Select(s)),
        }
    } else if cst.rule == Rule::Insert {
        match built::<Insert>(cst) {
            Err(e) => Err(e),
            Ok(s) => Ok(StmtModel::Insert(s)),
        }
    } else if cst.rule == Rule::Update {
        match built::<Update>(cst) {
            Err(e) => Err(e),
            Ok(s) => Ok(StmtModel::Update(s)),
        }
    } else if cst.rule == Rule::Delete {
        match built::<Delete>(cst) {
            Err(e) => Err(e),
            Ok(s) => Ok(StmtModel::Delete(s)),
        }
    } else if cst.rule == Rule::CreateTable {
        match built::<CreateTable>(cst) {
            Err(e) => Err(e),
            Ok(s) => Ok(StmtModel::CreateTable(s)),
        }
    } else if cst.rule == Rule::CreateIndex {
        match built::<CreateIndex>(cst) {
            Err(e) => Err(e),
            Ok(s) => Ok(StmtModel::CreateIndex(s)),
        }
    } else if cst.rule == Rule::CreateView {
        match built::<CreateView>(cst) {
            Err(e) => Err(e),
            Ok(s) => Ok(StmtModel::CreateView(s)),
        }
    } else if cst.rule == Rule::CreateTrigger {
        match built::<CreateTrigger>(cst) {
            Err(e) => Err(e),
            Ok(s) => Ok(StmtModel::CreateTrigger(s)),
        }
    } else if cst.rule == Rule::AlterTable {
        match built::<AlterTable>(cst) {
            Err(e) => Err(e),
            Ok(s) => Ok(StmtModel::AlterTable(s)),
        }
    } else if cst.rule == Rule::DropTable {
        match built::<DropTable>(cst) {
            Err(e) => Err(e),
            Ok(s) => Ok(StmtModel::DropTable(s)),
        }
    } else if cst.rule == Rule::DropIndex {
        match built::<DropIndex>(cst) {
            Err(e) => Err(e),
            Ok(s) => Ok(StmtModel::DropIndex(s)),
        }
    } else if cst.rule == Rule::DropView {
        match built::<DropView>(cst) {
            Err(e) => Err(e),
            Ok(s) => Ok(StmtModel::DropView(s)),
        }
    } else if cst.rule == Rule::DropTrigger {
        match built::<DropTrigger>(cst) {
            Err(e) => Err(e),
            Ok(s) => Ok(StmtModel::DropTrigger(s)),
        }
    } else {
        Err(mismatch(cst))
    }
}

/// Builds the statement that a node's own tag names.
pub fn parse_statement(node: &Node) -> (built: Result<Stmt, StructuralError>)
    ensures
        outcome(built) == statement_of(node.deep_view()),
{
    let rule = node.rule();
    if rule == Rule::Select {
        Ok(Stmt::Select(parse_as::<Select>(node)?))
    } else if rule == Rule::Insert {
        Ok(Stmt::Insert(parse_as::<Insert>(node)?))
    } else if rule == Rule::Update {
        Ok(Stmt::Update(parse_as::<Update>(node)?))
    } else if rule == Rule::Delete {
        Ok(Stmt::Delete(parse_as::<Delete>(node)?))
    } else if rule == Rule::CreateTable {
        Ok(Stmt::CreateTable(parse_as::<CreateTable>(node)?))
    } else if rule == Rule::CreateIndex {
        Ok(Stmt::CreateIndex(parse_as::<CreateIndex>(node)?))
    } else if rule == Rule::CreateView {
        Ok(Stmt::CreateView(parse_as::<CreateView>(node)?))
    } else if rule == Rule::CreateTrigger {
        Ok(Stmt::CreateTrigger(parse_as::<CreateTrigger>(node)?))
    } else if rule == Rule::AlterTable {
        Ok(Stmt::AlterTable(parse_as::<AlterTable>(node)?))
    } else if rule == Rule::DropTable {
        Ok(Stmt::DropTable(parse_as::<DropTable>(node)?))
    } else if rule == Rule::DropIndex {
        Ok(Stmt::DropIndex(parse_as::<DropIndex>(node)?))
    } else if rule == Rule::DropView {
        Ok(Stmt::DropView(parse_as::<DropView>(node)?))
    } else if rule == Rule::DropTrigger {
        Ok(Stmt::DropTrigger(parse_as::<DropTrigger>(node)?))
    } else {
        Err(StructuralError { rule })
    }
}

impl Parser for Stmt {
    /// A statement node holds one child: the statement itself.
    open spec fn build(cst: Cst) -> Result<StmtModel, StructuralError> {
        if cst.rule != Rule::Stmt || cst.children.len() != 1 {
            Err(mismatch(cst))
        } else {
            statement_of(cst.children[0])
        }
    }

    fn parse(node: &Node) -> (built: Result<Stmt, StructuralError>)
        ensures
            outcome(built) == Self::build(node.deep_view()),
    {
        if node.rule() != Rule::Stmt || node.len() != 1 {
            Err(StructuralError { rule: node.rule() })
        } else {
            parse_statement(node.child(0))
        }
    }
}

/// The statements that the trees of a parsed script stand for, in the order
/// of the text. A script is one tree, whose children are the statements,
/// and it holds at least one.
pub open spec fn script_of(trees: Seq<Cst>) -> Result<Seq<StmtModel>, StructuralError> {
    if trees.len() != 1 {
        Err(StructuralError { rule: Rule::Script })
    } else if trees[0].rule == Rule::Script && trees[0].children.len() == 0 {
        Err(mismatch(trees[0]))
    } else {
        build_list::<Stmt>(trees[0], Rule::Script)
    }
}

/// A script that is built gives one statement for each child of its tree,
/// in order, and so at least one.
pub proof fn lemma_script_statements(trees: Seq<Cst>)
    ensures
        script_of(trees) matches Ok(stmts) ==> {
            &&& trees.len() == 1
            &&& trees[0].rule == Rule::Script
            &&& stmts.len() == trees[0].children.len()
            &&& stmts.len() >= 1
            &&& forall|i: int|
                0 <= i < stmts.len() ==> Stmt::build(#[trigger] trees[0].children[i]) == Ok::<
                    StmtModel,
                    StructuralError,
                >(stmts[i])
        },
{
    if trees.len() == 1 {
        lemma_build_each::<Stmt>(trees[0].children);
    }
}

/// Builds the statements of a parsed script.
pub fn build_script(nodes: &Vec<Node>) -> (built: Result<Vec<Stmt>, StructuralError>)
    ensures
        outcome(built) == script_of(nodes.deep_view()),
        built matches Ok(stmts) ==> stmts@.len() >= 1,
{
    proof {
        lemma_script_statements(nodes.deep_view());
    }
    if nodes.len() != 1 {
        Err(StructuralError { rule: Rule::Script })
    } else if nodes[0].rule() == Rule::Script && nodes[0].len() == 0 {
        Err(StructuralError { rule: Rule::Script })
    } else {
        parse_list::<Stmt>(&nodes[0], Rule::Script)
    }
}

} // verus!
