//! A parser for a dialect of SQL: from the text of a script to a typed
//! abstract syntax tree.
//!
//! The grammar engine turns the text into a concrete syntax tree, a tree of
//! [`Node`]s. The builders, one for each type of the abstract syntax tree,
//! turn nodes into values. Each builder is proved to return what
//! [`Parser::build`] makes of the node's model.

pub mod ast;
pub mod cst;
pub mod engine;
pub mod error;
pub mod grammar;
pub mod parser;

pub use crate::ast::ddl::{
    AlterTable, AlterTableAction, ColumnConstraint, ColumnConstraintType, ColumnDef, CreateIndex,
    CreateTable, CreateTableBody, CreateTrigger, CreateView, DropIndex, DropTable, DropTrigger,
    DropView, IndexedColumn, TableConstraint, TableConstraintType, TableOption, TriggerEvent,
    TriggerTiming, TypeDef, TypeName, TypeSize,
};
pub use crate::ast::dml::{
    CompoundOperator, Delete, Dml, FromClause, Indexed, Insert, InsertHeader, InsertValues,
    JoinClause, JoinConstraint, JoinOperator, JoinSubClause, OrderingTerm, OuterJoinType,
    QualifiedTable, ResultColumn, ReturnSubClause, Select, SelectCore, SetSubClause, Update,
    UpsertSubClause, UpsertType,
};
pub use crate::ast::tcl::{Begin, Commit, Release, Rollback, Savepoint, TransactionMode};
pub use crate::ast::{
    BinaryOp, ConflictResolution, Expr, Literal, SchemaObject, Stmt, UnaryOp,
};
pub use crate::cst::{Node, Rule};
pub use crate::engine::SqlParser;
pub use crate::error::{ParseError, StructuralError, SyntaxError};
pub use crate::parser::Parser;

use vstd::prelude::*;
use crate::engine::script_outcome;

verus! {

/// Parses a script: one or more statements, each closed by a semicolon,
/// which the last one may lack. The grammar is compiled anew at every call;
/// a [`SqlParser`] that is kept compiles it once.
///
/// The grammar engine decides whether the text is a script, and which tree
/// it is. The statements returned are those that
/// [`script_of`](crate::parser::stmt::script_of) makes of that tree, in the
/// order of the text.
pub fn parse_stmt(input: &str) -> (parsed: Result<Vec<Stmt>, ParseError>)
    ensures
        script_outcome(parsed),
        parsed matches Ok(stmts) ==> stmts@.len() >= 1,
{
    match SqlParser::new() {
        Some(parser) => parser.statements(input),
        None => Err(ParseError::Structure(StructuralError { rule: Rule::Script })),
    }
}

} // verus!
