//! What a statement says by leaving something out.
//!
//! Each lemma takes a tree in which an optional part is missing and states
//! the value that the builder puts in its place.

use vstd::prelude::*;
use crate::ast::ddl::{
    ColumnConstraintTypeModel, ColumnDef, CreateIndex, CreateTable, CreateTableBodyModel,
    CreateTrigger, CreateView, IndexedColumn, TriggerEvent, TriggerEventModel,
};
use crate::ast::dml::{
    Delete, Insert, InsertHeader, OrderingTerm, QualifiedTable, Select, SelectCoreModel, Update,
    UpsertSubClause,
};
use crate::ast::tcl::{Begin, Rollback, RollbackModel, TransactionMode};
use crate::ast::ConflictResolution;
use crate::cst::{Cst, Rule};
use crate::error::StructuralError;
use crate::parser::ddl::{columns_body_of, dropped_of, primary_key_of};
use crate::parser::dml::{compounds_of, query_of};
use crate::parser::{tagged, Parser};

verus! {

/// A transaction that names no mode is deferred.
pub proof fn lemma_begin_is_deferred(cst: Cst)
    requires
        cst.rule == Rule::Begin,
        cst.children.len() == 0,
    ensures
        Begin::build(cst) == Ok::<Begin, StructuralError>(Begin(TransactionMode::Deferred)),
{
}

/// A rollback that names no savepoint has none.
pub proof fn lemma_rollback_is_whole(cst: Cst)
    requires
        cst.rule == Rule::Rollback,
        cst.children.len() == 0,
    ensures
        Rollback::build(cst) == Ok::<RollbackModel, StructuralError>(RollbackModel(None)),
{
}

/// A column of an index or a key is ascending unless it says `DESC`.
pub proof fn lemma_indexed_column_ascends(cst: Cst)
    requires
        IndexedColumn::build(cst) is Ok,
        !tagged(cst, 1, Rule::Desc),
    ensures
        IndexedColumn::build(cst)->Ok_0.asc,
{
}

/// A term of `ORDER BY` is ascending unless it says `DESC`, and puts nulls
/// first unless it says `NULLS LAST`. With nothing after its expression it
/// is both.
pub proof fn lemma_ordering_term_defaults(cst: Cst)
    requires
        OrderingTerm::build(cst) is Ok,
    ensures
        !tagged(cst, 1, Rule::Desc) ==> OrderingTerm::build(cst)->Ok_0.asc,
        !tagged(cst, 1, Rule::Last) && !tagged(cst, 2, Rule::Last) ==> OrderingTerm::build(
            cst,
        )->Ok_0.nulls_first,
        cst.children.len() == 1 ==> OrderingTerm::build(cst)->Ok_0.asc && OrderingTerm::build(
            cst,
        )->Ok_0.nulls_first,
{
}

/// A bare `PRIMARY KEY` is ascending and does not auto-increment.
pub proof fn lemma_primary_key_defaults(cst: Cst)
    requires
        cst.children.len() == 0,
    ensures
        primary_key_of(cst) == Ok::<ColumnConstraintTypeModel, StructuralError>(
            ColumnConstraintTypeModel::PrimaryKey { asc: true, auto_inc: false },
        ),
{
}

/// An insertion that names no way of resolving a conflict aborts on one.
pub proof fn lemma_insert_aborts(cst: Cst)
    requires
        cst.rule == Rule::InsertInto,
        cst.children.len() == 0,
    ensures
        InsertHeader::build(cst) == Ok::<InsertHeader, StructuralError>(
            InsertHeader::Insert(ConflictResolution::Abort),
        ),
{
}

/// An update that names no way of resolving a conflict aborts on one.
pub proof fn lemma_update_aborts(cst: Cst)
    requires
        Update::build(cst) is Ok,
        !tagged(cst, 0, Rule::ConflictResolution),
    ensures
        Update::build(cst)->Ok_0.conflict == ConflictResolution::Abort,
{
}

/// An update of nothing but a table and its assignments has no `FROM`, no
/// filter, and returns nothing.
pub proof fn lemma_update_defaults(cst: Cst)
    requires
        Update::build(cst) is Ok,
        cst.children.len() == 2,
    ensures
        Update::build(cst)->Ok_0.conflict == ConflictResolution::Abort,
        Update::build(cst)->Ok_0.from_clause is None,
        Update::build(cst)->Ok_0.where_clause is None,
        Update::build(cst)->Ok_0.return_clause.len() == 0,
{
}

/// A deletion of nothing but a table has no filter and returns nothing.
pub proof fn lemma_delete_defaults(cst: Cst)
    requires
        Delete::build(cst) is Ok,
        cst.children.len() == 1,
    ensures
        Delete::build(cst)->Ok_0.where_clause is None,
        Delete::build(cst)->Ok_0.return_clause.len() == 0,
{
}

/// An insertion of nothing but a header, a table and a source has no alias,
/// names no columns, and returns nothing.
pub proof fn lemma_insert_defaults(cst: Cst)
    requires
        Insert::build(cst) is Ok,
        cst.children.len() == 3,
    ensures
        Insert::build(cst)->Ok_0.alias is None,
        Insert::build(cst)->Ok_0.columns.len() == 0,
        Insert::build(cst)->Ok_0.return_clause.len() == 0,
{
}

/// An upsert that names no target has no columns and no filter.
pub proof fn lemma_upsert_defaults(cst: Cst)
    requires
        UpsertSubClause::build(cst) is Ok,
        cst.children.len() == 1,
    ensures
        UpsertSubClause::build(cst)->Ok_0.indexed_cols.len() == 0,
        UpsertSubClause::build(cst)->Ok_0.where_clause is None,
{
}

/// A table that is named and nothing more has no alias and no index hint.
pub proof fn lemma_qualified_table_defaults(cst: Cst)
    requires
        QualifiedTable::build(cst) is Ok,
        cst.children.len() == 1,
    ensures
        QualifiedTable::build(cst)->Ok_0.alias is None,
        QualifiedTable::build(cst)->Ok_0.indexed is None,
{
}

/// A query of nothing but columns is not distinct, has no `FROM`, no filter
/// and no `HAVING`, and groups by nothing.
pub proof fn lemma_query_defaults(cst: Cst)
    requires
        query_of(cst) is Ok,
        cst.children.len() == 1,
    ensures
        query_of(cst)->Ok_0 matches SelectCoreModel::Query {
            is_distinct,
            from_clause,
            where_clause,
            group_by,
            having,
            ..
        } && !is_distinct && from_clause is None && where_clause is None && group_by.len() == 0
            && having is None,
{
}

/// A `SELECT` of a single core chains nothing to it, is not ordered, and has
/// neither a limit nor an offset.
pub proof fn lemma_select_defaults(cst: Cst)
    requires
        Select::build(cst) is Ok,
        cst.children.len() == 1,
    ensures
        Select::build(cst)->Ok_0.compound.len() == 0,
        Select::build(cst)->Ok_0.order_by.len() == 0,
        Select::build(cst)->Ok_0.limit is None,
        Select::build(cst)->Ok_0.offset is None,
{
    assert(compounds_of(cst, Seq::empty(), 1) is Ok);
}

/// A column that is named and nothing more has no type and no constraints.
pub proof fn lemma_column_defaults(cst: Cst)
    requires
        ColumnDef::build(cst) is Ok,
        cst.children.len() == 1,
    ensures
        ColumnDef::build(cst)->Ok_0.col_type is None,
        ColumnDef::build(cst)->Ok_0.constraints.len() == 0,
{
}

/// A table body of nothing but columns has no table constraints and no
/// table options.
pub proof fn lemma_table_body_defaults(cst: Cst)
    requires
        columns_body_of(cst) is Ok,
        cst.children.len() == 1,
    ensures
        columns_body_of(cst)->Ok_0 matches CreateTableBodyModel::Columns {
            table_constraints,
            table_options,
            ..
        } && table_constraints.len() == 0 && table_options.len() == 0,
{
    assert(cst.children.skip(1).len() == 0);
}

/// A table of nothing but a name and a body is not temporary and is created
/// unconditionally.
pub proof fn lemma_create_table_defaults(cst: Cst)
    requires
        CreateTable::build(cst) is Ok,
        cst.children.len() == 2,
    ensures
        !CreateTable::build(cst)->Ok_0.temp,
        !CreateTable::build(cst)->Ok_0.if_not_exists,
{
}

/// An index of nothing but a name, a table and columns is not unique, is
/// created unconditionally, and has no filter.
pub proof fn lemma_create_index_defaults(cst: Cst)
    requires
        CreateIndex::build(cst) is Ok,
        cst.children.len() == 3,
    ensures
        !CreateIndex::build(cst)->Ok_0.unique,
        !CreateIndex::build(cst)->Ok_0.if_not_exists,
        CreateIndex::build(cst)->Ok_0.where_cond is None,
{
}

/// A view of nothing but a name and a query is not temporary, is created
/// unconditionally, and names no columns.
pub proof fn lemma_create_view_defaults(cst: Cst)
    requires
        CreateView::build(cst) is Ok,
        cst.children.len() == 2,
    ensures
        !CreateView::build(cst)->Ok_0.temp,
        !CreateView::build(cst)->Ok_0.if_not_exists,
        CreateView::build(cst)->Ok_0.columns.len() == 0,
{
}

/// A trigger without `TEMP`, `IF NOT EXISTS` and `WHEN` is not temporary,
/// is created unconditionally, and has no condition.
pub proof fn lemma_create_trigger_defaults(cst: Cst)
    requires
        CreateTrigger::build(cst) is Ok,
        !tagged(cst, 0, Rule::Temp),
        !tagged(cst, 0, Rule::IfNotExists),
        !tagged(cst, 4, Rule::WhenClause),
    ensures
        !CreateTrigger::build(cst)->Ok_0.temp,
        !CreateTrigger::build(cst)->Ok_0.if_not_exists,
        CreateTrigger::build(cst)->Ok_0.when_cond is None,
{
}

/// An update event that names no columns has an empty list of them.
pub proof fn lemma_trigger_update_defaults(cst: Cst)
    requires
        cst.rule == Rule::TriggerUpdate,
        cst.children.len() == 0,
    ensures
        TriggerEvent::build(cst) == Ok::<TriggerEventModel, StructuralError>(
            TriggerEventModel::Update(Seq::empty()),
        ),
{
}

/// A `DROP` of nothing but a name is unconditional.
pub proof fn lemma_drop_defaults(cst: Cst, rule: Rule)
    requires
        dropped_of(cst, rule) is Ok,
        cst.children.len() == 1,
    ensures
        !dropped_of(cst, rule)->Ok_0.0,
{
}

} // verus!
