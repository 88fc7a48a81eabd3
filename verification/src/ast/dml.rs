//! The statements that read and change rows, and their clauses.

use vstd::prelude::*;
use crate::ast::ddl::{IndexedColumn, IndexedColumnModel};
use crate::ast::{ConflictResolution, Expr, ExprModel, SchemaObject, SchemaObjectModel};

verus! {

/// A statement that reads or changes rows.
#[derive(Clone, Debug, PartialEq)]
pub enum Dml {
    Select(Select),
    Insert(Insert),
    Update(Update),
    Delete(Delete),
}

/// The mathematical model of [`Dml`].
pub ghost enum DmlModel {
    Select(SelectModel),
    Insert(InsertModel),
    Update(UpdateModel),
    Delete(DeleteModel),
}

impl DeepView for Dml {
    type V = DmlModel;

    open spec fn deep_view(&self) -> DmlModel {
        match self {
            Dml::Select(x0) => DmlModel::Select(x0.deep_view()),
            Dml::Insert(x0) => DmlModel::Insert(x0.deep_view()),
            Dml::Update(x0) => DmlModel::Update(x0.deep_view()),
            Dml::Delete(x0) => DmlModel::Delete(x0.deep_view()),
        }
    }
}

/// `SELECT`: a first core, the cores chained to it by compound operators,
/// and the ordering and limits of the whole.
#[derive(Clone, Debug, PartialEq)]
pub struct Select {
    pub core: SelectCore,
    pub compound: Vec<(CompoundOperator, SelectCore)>,
    pub order_by: Vec<OrderingTerm>,
    pub limit: Option<Expr>,
    pub offset: Option<Expr>,
}

/// The mathematical model of [`Select`].
pub ghost struct SelectModel {
    pub core: SelectCoreModel,
    pub compound: Seq<(CompoundOperator, SelectCoreModel)>,
    pub order_by: Seq<OrderingTermModel>,
    pub limit: Option<ExprModel>,
    pub offset: Option<ExprModel>,
}

impl DeepView for Select {
    type V = SelectModel;

    open spec fn deep_view(&self) -> SelectModel {
        SelectModel {
            core: self.core.deep_view(),
            compound: self.compound.deep_view(),
            order_by: self.order_by.deep_view(),
            limit: self.limit.deep_view(),
            offset: self.offset.deep_view(),
        }
    }
}

/// `INSERT` or `REPLACE`
#[derive(Clone, Debug, PartialEq)]
pub struct Insert {
    pub header: InsertHeader,
    pub schema_table: SchemaObject,
    pub alias: Option<String>,
    pub columns: Vec<String>,
    pub values: InsertValues,
    pub return_clause: Vec<ReturnSubClause>,
}

/// The mathematical model of [`Insert`].
pub ghost struct InsertModel {
    pub header: InsertHeader,
    pub schema_table: SchemaObjectModel,
    pub alias: Option<Seq<char>>,
    pub columns: Seq<Seq<char>>,
    pub values: InsertValuesModel,
    pub return_clause: Seq<ReturnSubClauseModel>,
}

impl DeepView for Insert {
    type V = InsertModel;

    open spec fn deep_view(&self) -> InsertModel {
        InsertModel {
            header: self.header.deep_view(),
            schema_table: self.schema_table.deep_view(),
            alias: self.alias.deep_view(),
            columns: self.columns.deep_view(),
            values: self.values.deep_view(),
            return_clause: self.return_clause.deep_view(),
        }
    }
}

/// `UPDATE`
#[derive(Clone, Debug, PartialEq)]
pub struct Update {
    pub conflict: ConflictResolution,
    pub qualified_table: QualifiedTable,
    pub set_clause: Vec<SetSubClause>,
    pub from_clause: Option<FromClause>,
    pub where_clause: Option<Expr>,
    pub return_clause: Vec<ReturnSubClause>,
}

/// The mathematical model of [`Update`].
pub ghost struct UpdateModel {
    pub conflict: ConflictResolution,
    pub qualified_table: QualifiedTableModel,
    pub set_clause: Seq<SetSubClauseModel>,
    pub from_clause: Option<FromClauseModel>,
    pub where_clause: Option<ExprModel>,
    pub return_clause: Seq<ReturnSubClauseModel>,
}

impl DeepView for Update {
    type V = UpdateModel;

    open spec fn deep_view(&self) -> UpdateModel {
        UpdateModel {
            conflict: self.conflict.deep_view(),
            qualified_table: self.qualified_table.deep_view(),
            set_clause: self.set_clause.deep_view(),
            from_clause: self.from_clause.deep_view(),
            where_clause: self.where_clause.deep_view(),
            return_clause: self.return_clause.deep_view(),
        }
    }
}

/// `DELETE`
#[derive(Clone, Debug, PartialEq)]
pub struct Delete {
    pub qualified_table: QualifiedTable,
    pub where_clause: Option<Expr>,
    pub return_clause: Vec<ReturnSubClause>,
}

/// The mathematical model of [`Delete`].
pub ghost struct DeleteModel {
    pub qualified_table: QualifiedTableModel,
    pub where_clause: Option<ExprModel>,
    pub return_clause: Seq<ReturnSubClauseModel>,
}

impl DeepView for Delete {
    type V = DeleteModel;

    open spec fn deep_view(&self) -> DeleteModel {
        DeleteModel {
            qualified_table: self.qualified_table.deep_view(),
            where_clause: self.where_clause.deep_view(),
            return_clause: self.return_clause.deep_view(),
        }
    }
}

/// One row-producing part of a `SELECT`.
#[derive(Clone, Debug, PartialEq)]
pub enum SelectCore {
    Query {
        is_distinct: bool,
        columns: Vec<ResultColumn>,
        from_clause: Option<FromClause>,
        where_clause: Option<Expr>,
        group_by: Vec<Expr>,
        having: Option<Expr>,
    },
    /// The rows of a `VALUES` list.
    Values(Vec<Vec<Expr>>),
}

/// The mathematical model of [`SelectCore`].
pub ghost enum SelectCoreModel {
    Query {
        is_distinct: bool,
        columns: Seq<ResultColumnModel>,
        from_clause: Option<FromClauseModel>,
        where_clause: Option<ExprModel>,
        group_by: Seq<ExprModel>,
        having: Option<ExprModel>,
    },
    Values(Seq<Seq<ExprModel>>),
}

impl DeepView for SelectCore {
    type V = SelectCoreModel;

    open spec fn deep_view(&self) -> SelectCoreModel {
        match self {
            SelectCore::Query { is_distinct, columns, from_clause, where_clause, group_by, having } => SelectCoreModel::Query {
                is_distinct: is_distinct.deep_view(),
                columns: columns.deep_view(),
                from_clause: from_clause.deep_view(),
                where_clause: where_clause.deep_view(),
                group_by: group_by.deep_view(),
                having: having.deep_view(),
            },
            SelectCore::Values(x0) => SelectCoreModel::Values(x0.deep_view()),
        }
    }
}

/// A column of a query's result.
#[derive(Clone, Debug, PartialEq)]
pub enum ResultColumn {
    /// An expression and its alias.
    Expr(Expr, Option<String>),
    Star,
}

/// The mathematical model of [`ResultColumn`].
pub ghost enum ResultColumnModel {
    Expr(ExprModel, Option<Seq<char>>),
    Star,
}

impl DeepView for ResultColumn {
    type V = ResultColumnModel;

    open spec fn deep_view(&self) -> ResultColumnModel {
        match self {
            ResultColumn::Expr(x0, x1) => ResultColumnModel::Expr(x0.deep_view(), x1.deep_view()),
            ResultColumn::Star => ResultColumnModel::Star,
        }
    }
}

/// Where the rows of an `INSERT` come from.
#[derive(Clone, Debug, PartialEq)]
pub enum InsertValues {
    Values {
        values: Vec<Vec<Expr>>,
        upsert: Option<UpsertSubClause>,
    },
    Select {
        select: Box<Select>,
        upsert: Option<UpsertSubClause>,
    },
    Default,
}

/// The mathematical model of [`InsertValues`].
pub ghost enum InsertValuesModel {
    Values {
        values: Seq<Seq<ExprModel>>,
        upsert: Option<UpsertSubClauseModel>,
    },
    Select {
        select: SelectModel,
        upsert: Option<UpsertSubClauseModel>,
    },
    Default,
}

impl DeepView for InsertValues {
    type V = InsertValuesModel;

    open spec fn deep_view(&self) -> InsertValuesModel {
        match self {
            InsertValues::Values { values, upsert } => InsertValuesModel::Values {
                values: values.deep_view(),
                upsert: upsert.deep_view(),
            },
            InsertValues::Select { select, upsert } => InsertValuesModel::Select {
                select: select.deep_view(),
                upsert: upsert.deep_view(),
            },
            InsertValues::Default => InsertValuesModel::Default,
        }
    }
}

/// One assignment of a `SET` clause.
#[derive(Clone, Debug, PartialEq)]
pub struct SetSubClause {
    pub columns: Vec<String>,
    pub value: Expr,
}

/// The mathematical model of [`SetSubClause`].
pub ghost struct SetSubClauseModel {
    pub columns: Seq<Seq<char>>,
    pub value: ExprModel,
}

impl DeepView for SetSubClause {
    type V = SetSubClauseModel;

    open spec fn deep_view(&self) -> SetSubClauseModel {
        SetSubClauseModel {
            columns: self.columns.deep_view(),
            value: self.value.deep_view(),
        }
    }
}

/// A table and the tables joined to it.
#[derive(Clone, Debug, PartialEq)]
pub struct JoinClause {
    pub table_or_subquery: QualifiedTable,
    pub joins: Vec<JoinSubClause>,
}

/// The mathematical model of [`JoinClause`].
pub ghost struct JoinClauseModel {
    pub table_or_subquery: QualifiedTableModel,
    pub joins: Seq<JoinSubClauseModel>,
}

impl DeepView for JoinClause {
    type V = JoinClauseModel;

    open spec fn deep_view(&self) -> JoinClauseModel {
        JoinClauseModel {
            table_or_subquery: self.table_or_subquery.deep_view(),
            joins: self.joins.deep_view(),
        }
    }
}

/// One joined table.
#[derive(Clone, Debug, PartialEq)]
pub struct JoinSubClause {
    pub operator: JoinOperator,
    pub table_or_subquery: QualifiedTable,
    pub constraint: Option<JoinConstraint>,
}

/// The mathematical model of [`JoinSubClause`].
pub ghost struct JoinSubClauseModel {
    pub operator: JoinOperator,
    pub table_or_subquery: QualifiedTableModel,
    pub constraint: Option<JoinConstraintModel>,
}

impl DeepView for JoinSubClause {
    type V = JoinSubClauseModel;

    open spec fn deep_view(&self) -> JoinSubClauseModel {
        JoinSubClauseModel {
            operator: self.operator.deep_view(),
            table_or_subquery: self.table_or_subquery.deep_view(),
            constraint: self.constraint.deep_view(),
        }
    }
}

/// How a table is joined. The flag says whether the join is `NATURAL`.
#[derive(Clone, Copy, Debug, PartialEq, Eq)]
pub enum JoinOperator {
    Comma,
    Cross,
    Inner(bool),
    Outer(bool, OuterJoinType),
}

impl DeepView for JoinOperator {
    type V = JoinOperator;

    open spec fn deep_view(&self) -> JoinOperator {
        *self
    }
}

/// The side that an outer join keeps.
#[derive(Clone, Copy, Debug, PartialEq, Eq)]
pub enum OuterJoinType {
    Left,
    Right,
    Full,
}

impl DeepView for OuterJoinType {
    type V = OuterJoinType;

    open spec fn deep_view(&self) -> OuterJoinType {
        *self
    }
}

/// The condition of a join.
#[derive(Clone, Debug, PartialEq)]
pub enum JoinConstraint {
    Expr(Expr),
    Using(Vec<String>),
}

/// The mathematical model of [`JoinConstraint`].
pub ghost enum JoinConstraintModel {
    Expr(ExprModel),
    Using(Seq<Seq<char>>),
}

impl DeepView for JoinConstraint {
    type V = JoinConstraintModel;

    open spec fn deep_view(&self) -> JoinConstraintModel {
        match self {
            JoinConstraint::Expr(x0) => JoinConstraintModel::Expr(x0.deep_view()),
            JoinConstraint::Using(x0) => JoinConstraintModel::Using(x0.deep_view()),
        }
    }
}

/// A table as a statement names it: with its alias and index hint.
#[derive(Clone, Debug, PartialEq)]
pub struct QualifiedTable {
    pub schema_table: SchemaObject,
    pub alias: Option<String>,
    pub indexed: Option<Indexed>,
}

/// The mathematical model of [`QualifiedTable`].
pub ghost struct QualifiedTableModel {
    pub schema_table: SchemaObjectModel,
    pub alias: Option<Seq<char>>,
    pub indexed: Option<IndexedModel>,
}

impl DeepView for QualifiedTable {
    type V = QualifiedTableModel;

    open spec fn deep_view(&self) -> QualifiedTableModel {
        QualifiedTableModel {
            schema_table: self.schema_table.deep_view(),
            alias: self.alias.deep_view(),
            indexed: self.indexed.deep_view(),
        }
    }
}

/// An index hint.
#[derive(Clone, Debug, PartialEq)]
pub enum Indexed {
    By(String),
    NotIndexed,
}

/// The mathematical model of [`Indexed`].
pub ghost enum IndexedModel {
    By(Seq<char>),
    NotIndexed,
}

impl DeepView for Indexed {
    type V = IndexedModel;

    open spec fn deep_view(&self) -> IndexedModel {
        match self {
            Indexed::By(x0) => IndexedModel::By(x0.deep_view()),
            Indexed::NotIndexed => IndexedModel::NotIndexed,
        }
    }
}

/// `FROM`
#[derive(Clone, Debug, PartialEq)]
pub enum FromClause {
    TableOrQuerys(Vec<QualifiedTable>),
    Join(JoinClause),
}

/// The mathematical model of [`FromClause`].
pub ghost enum FromClauseModel {
    TableOrQuerys(Seq<QualifiedTableModel>),
    Join(JoinClauseModel),
}

impl DeepView for FromClause {
    type V = FromClauseModel;

    open spec fn deep_view(&self) -> FromClauseModel {
        match self {
            FromClause::TableOrQuerys(x0) => FromClauseModel::TableOrQuerys(x0.deep_view()),
            FromClause::Join(x0) => FromClauseModel::Join(x0.deep_view()),
        }
    }
}

/// One term of `ORDER BY`. Ascending, with nulls first, where nothing else is written.
#[derive(Clone, Debug, PartialEq)]
pub struct OrderingTerm {
    pub expr: Expr,
    pub asc: bool,
    pub nulls_first: bool,
}

/// The mathematical model of [`OrderingTerm`].
pub ghost struct OrderingTermModel {
    pub expr: ExprModel,
    pub asc: bool,
    pub nulls_first: bool,
}

impl DeepView for OrderingTerm {
    type V = OrderingTermModel;

    open spec fn deep_view(&self) -> OrderingTermModel {
        OrderingTermModel {
            expr: self.expr.deep_view(),
            asc: self.asc.deep_view(),
            nulls_first: self.nulls_first.deep_view(),
        }
    }
}

/// One item of `RETURNING`.
#[derive(Clone, Debug, PartialEq)]
pub enum ReturnSubClause {
    Star,
    /// An expression and its alias.
    Expr(Expr, Option<String>),
}

/// The mathematical model of [`ReturnSubClause`].
pub ghost enum ReturnSubClauseModel {
    Star,
    Expr(ExprModel, Option<Seq<char>>),
}

impl DeepView for ReturnSubClause {
    type V = ReturnSubClauseModel;

    open spec fn deep_view(&self) -> ReturnSubClauseModel {
        match self {
            ReturnSubClause::Star => ReturnSubClauseModel::Star,
            ReturnSubClause::Expr(x0, x1) => ReturnSubClauseModel::Expr(x0.deep_view(), x1.deep_view()),
        }
    }
}

/// How an insertion opens.
#[derive(Clone, Copy, Debug, PartialEq, Eq)]
pub enum InsertHeader {
    Insert(ConflictResolution),
    Replace,
}

impl DeepView for InsertHeader {
    type V = InsertHeader;

    open spec fn deep_view(&self) -> InsertHeader {
        *self
    }
}

/// `ON CONFLICT`
#[derive(Clone, Debug, PartialEq)]
pub struct UpsertSubClause {
    pub indexed_cols: Vec<IndexedColumn>,
    pub where_clause: Option<Expr>,
    pub upsert_type: UpsertType,
}

/// The mathematical model of [`UpsertSubClause`].
pub ghost struct UpsertSubClauseModel {
    pub indexed_cols: Seq<IndexedColumnModel>,
    pub where_clause: Option<ExprModel>,
    pub upsert_type: UpsertTypeModel,
}

impl DeepView for UpsertSubClause {
    type V = UpsertSubClauseModel;

    open spec fn deep_view(&self) -> UpsertSubClauseModel {
        UpsertSubClauseModel {
            indexed_cols: self.indexed_cols.deep_view(),
            where_clause: self.where_clause.deep_view(),
            upsert_type: self.upsert_type.deep_view(),
        }
    }
}

/// What an upsert does on a conflict.
#[derive(Clone, Debug, PartialEq)]
pub enum UpsertType {
    Nothing,
    Update {
        set_clause: Vec<SetSubClause>,
        where_clause: Option<Expr>,
    },
}

/// The mathematical model of [`UpsertType`].
pub ghost enum UpsertTypeModel {
    Nothing,
    Update {
        set_clause: Seq<SetSubClauseModel>,
        where_clause: Option<ExprModel>,
    },
}

impl DeepView for UpsertType {
    type V = UpsertTypeModel;

    open spec fn deep_view(&self) -> UpsertTypeModel {
        match self {
            UpsertType::Nothing => UpsertTypeModel::Nothing,
            UpsertType::Update { set_clause, where_clause } => UpsertTypeModel::Update {
                set_clause: set_clause.deep_view(),
                where_clause: where_clause.deep_view(),
            },
        }
    }
}

/// The operator between two cores of a compound `SELECT`.
#[derive(Clone, Copy, Debug, PartialEq, Eq)]
pub enum CompoundOperator {
    /// The flag says whether it is `UNION ALL`.
    Union(bool),
    Intersect,
    Except,
}

impl DeepView for CompoundOperator {
    type V = CompoundOperator;

    open spec fn deep_view(&self) -> CompoundOperator {
        *self
    }
}

} // verus!
