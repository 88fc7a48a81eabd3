//! The builders of the statements that control transactions.

use vstd::prelude::*;
use crate::ast::tcl::{
    Begin, Commit, Release, ReleaseModel, Rollback, RollbackModel, Savepoint, SavepointModel,
    TransactionMode,
};
use crate::cst::{Cst, Node, Rule};
use crate::error::{mismatch, outcome, StructuralError};
use crate::parser::ident::ident_name;
use crate::parser::Parser;

verus! {

/// The transaction mode that a tag names.
pub open spec fn mode_of(rule: Rule) -> Option<TransactionMode> {
    match rule {
        Rule::Deferred => Some(TransactionMode::Deferred),
        Rule::Immediate => Some(TransactionMode::Immediate),
        Rule::Exclusive => Some(TransactionMode::Exclusive),
        _ => None,
    }
}

impl Parser for Begin {
    /// A transaction without a written mode is deferred.
    open spec fn build(cst: Cst) -> Result<Begin, StructuralError> {
        if cst.rule == Rule::Begin && cst.children.len() == 0 {
            Ok(Begin(TransactionMode::Deferred))
        } else if cst.rule == Rule::Begin && cst.children.len() == 1 {
            match mode_of(cst.children[0].rule) {
                Some(mode) => Ok(Begin(mode)),
                None => Err(mismatch(cst.children[0])),
            }
        } else {
            Err(mismatch(cst))
        }
    }

    fn parse(node: &Node) -> (built: Result<Begin, StructuralError>)
        ensures
            outcome(built) == Self::build(node.deep_view()),
    {
        if node.rule() == Rule::Begin && node.len() == 0 {
            Ok(Begin(TransactionMode::Deferred))
        } else if node.rule() == Rule::Begin && node.len() == 1 {
            let rule = node.child(0).rule();
            match rule {
                Rule::Deferred => Ok(Begin(TransactionMode::Deferred)),
                Rule::Immediate => Ok(Begin(TransactionMode::Immediate)),
                Rule::Exclusive => Ok(Begin(TransactionMode::Exclusive)),
                _ => Err(StructuralError { rule }),
            }
        } else {
            Err(StructuralError { rule: node.rule() })
        }
    }
}

impl Parser for Commit {
    /// Every spelling of a commit gives the same statement.
    open spec fn build(cst: Cst) -> Result<Commit, StructuralError> {
        if cst.rule == Rule::Commit && cst.children.len() == 0 {
            Ok(Commit)
        } else {
            Err(mismatch(cst))
        }
    }

    fn parse(node: &Node) -> (built: Result<Commit, StructuralError>)
        ensures
            outcome(built) == Self::build(node.deep_view()),
    {
        if node.rule() == Rule::Commit && node.len() == 0 {
            Ok(Commit)
        } else {
            Err(StructuralError { rule: node.rule() })
        }
    }
}

impl Parser for Rollback {
    open spec fn build(cst: Cst) -> Result<RollbackModel, StructuralError> {
        if cst.rule == Rule::Rollback && cst.children.len() == 0 {
            Ok(RollbackModel(None))
        } else if cst.rule == Rule::Rollback && cst.children.len() == 1 {
            match ident_name(cst.children[0]) {
                Err(e) => Err(e),
                Ok(name) => Ok(RollbackModel(Some(name))),
            }
        } else {
            Err(mismatch(cst))
        }
    }

    fn parse(node: &Node) -> (built: Result<Rollback, StructuralError>)
        ensures
            outcome(built) == Self::build(node.deep_view()),
    {
        if node.rule() == Rule::Rollback && node.len() == 0 {
            Ok(Rollback(None))
        } else if node.rule() == Rule::Rollback && node.len() == 1 {
            let name = String::parse(node.child(0))?;
            Ok(Rollback(Some(name)))
        } else {
            Err(StructuralError { rule: node.rule() })
        }
    }
}

impl Parser for Savepoint {
    open spec fn build(cst: Cst) -> Result<SavepointModel, StructuralError> {
        if cst.rule == Rule::Savepoint && cst.children.len() == 1 {
            match ident_name(cst.children[0]) {
                Err(e) => Err(e),
                Ok(name) => Ok(SavepointModel(name)),
            }
        } else {
            Err(mismatch(cst))
        }
    }

    fn parse(node: &Node) -> (built: Result<Savepoint, StructuralError>)
        ensures
            outcome(built) == Self::build(node.deep_view()),
    {
        if node.rule() == Rule::Savepoint && node.len() == 1 {
            let name = String::parse(node.child(0))?;
            Ok(Savepoint(name))
        } else {
            Err(StructuralError { rule: node.rule() })
        }
    }
}

impl Parser for Release {
    open spec fn build(cst: Cst) -> Result<ReleaseModel, StructuralError> {
        if cst.rule == Rule::Release && cst.children.len() == 1 {
            match ident_name(cst.children[0]) {
                Err(e) => Err(e),
                Ok(name) => Ok(ReleaseModel(name)),
            }
        } else {
            Err(mismatch(cst))
        }
    }

    fn parse(node: &Node) -> (built: Result<Release, StructuralError>)
        ensures
            outcome(built) == Self::build(node.deep_view()),
    {
        if node.rule() == Rule::Release && node.len() == 1 {
            let name = String::parse(node.child(0))?;
            Ok(Release(name))
        } else {
            Err(StructuralError { rule: node.rule() })
        }
    }
}

} // verus!
