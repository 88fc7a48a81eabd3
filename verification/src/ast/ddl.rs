//! The statements that define tables, indexes, views and triggers.

use vstd::prelude::*;
use crate::ast::dml::{Dml, DmlModel, Select, SelectModel};
use crate::ast::{Expr, ExprModel, Literal, LiteralModel, SchemaObject, SchemaObjectModel};

verus! {

/// `CREATE TABLE`
#[derive(Clone, Debug, PartialEq)]
pub struct CreateTable {
    pub temp: bool,
    pub if_not_exists: bool,
    pub schema_table: SchemaObject,
    pub body: CreateTableBody,
}

/// The mathematical model of [`CreateTable`].
pub ghost struct CreateTableModel {
    pub temp: bool,
    pub if_not_exists: bool,
    pub schema_table: SchemaObjectModel,
    pub body: CreateTableBodyModel,
}

impl DeepView for CreateTable {
    type V = CreateTableModel;

    open spec fn deep_view(&self) -> CreateTableModel {
        CreateTableModel {
            temp: self.temp.deep_view(),
            if_not_exists: self.if_not_exists.deep_view(),
            schema_table: self.schema_table.deep_view(),
            body: self.body.deep_view(),
        }
    }
}

/// `CREATE INDEX`
#[derive(Clone, Debug, PartialEq)]
pub struct CreateIndex {
    pub unique: bool,
    pub if_not_exists: bool,
    pub schema_index: SchemaObject,
    pub table_name: String,
    pub indexed_cols: Vec<IndexedColumn>,
    pub where_cond: Option<Expr>,
}

/// The mathematical model of [`CreateIndex`].
pub ghost struct CreateIndexModel {
    pub unique: bool,
    pub if_not_exists: bool,
    pub schema_index: SchemaObjectModel,
    pub table_name: Seq<char>,
    pub indexed_cols: Seq<IndexedColumnModel>,
    pub where_cond: Option<ExprModel>,
}

impl DeepView for CreateIndex {
    type V = CreateIndexModel;

    open spec fn deep_view(&self) -> CreateIndexModel {
        CreateIndexModel {
            unique: self.unique.deep_view(),
            if_not_exists: self.if_not_exists.deep_view(),
            schema_index: self.schema_index.deep_view(),
            table_name: self.table_name.deep_view(),
            indexed_cols: self.indexed_cols.deep_view(),
            where_cond: self.where_cond.deep_view(),
        }
    }
}

/// `CREATE VIEW`
#[derive(Clone, Debug, PartialEq)]
pub struct CreateView {
    pub temp: bool,
    pub if_not_exists: bool,
    pub schema_view: SchemaObject,
    pub columns: Vec<String>,
    pub select: Select,
}

/// The mathematical model of [`CreateView`].
pub ghost struct CreateViewModel {
    pub temp: bool,
    pub if_not_exists: bool,
    pub schema_view: SchemaObjectModel,
    pub columns: Seq<Seq<char>>,
    pub select: SelectModel,
}

impl DeepView for CreateView {
    type V = CreateViewModel;

    open spec fn deep_view(&self) -> CreateViewModel {
        CreateViewModel {
            temp: self.temp.deep_view(),
            if_not_exists: self.if_not_exists.deep_view(),
            schema_view: self.schema_view.deep_view(),
            columns: self.columns.deep_view(),
            select: self.select.deep_view(),
        }
    }
}

/// `CREATE TRIGGER`
#[derive(Clone, Debug, PartialEq)]
pub struct CreateTrigger {
    pub temp: bool,
    pub if_not_exists: bool,
    pub schema_trigger: SchemaObject,
    pub timing: TriggerTiming,
    pub event: TriggerEvent,
    pub table_name: String,
    pub when_cond: Option<Expr>,
    pub statements: Vec<Dml>,
}

/// The mathematical model of [`CreateTrigger`].
pub ghost struct CreateTriggerModel {
    pub temp: bool,
    pub if_not_exists: bool,
    pub schema_trigger: SchemaObjectModel,
    pub timing: TriggerTiming,
    pub event: TriggerEventModel,
    pub table_name: Seq<char>,
    pub when_cond: Option<ExprModel>,
    pub statements: Seq<DmlModel>,
}

impl DeepView for CreateTrigger {
    type V = CreateTriggerModel;

    open spec fn deep_view(&self) -> CreateTriggerModel {
        CreateTriggerModel {
            temp: self.temp.deep_view(),
            if_not_exists: self.if_not_exists.deep_view(),
            schema_trigger: self.schema_trigger.deep_view(),
            timing: self.timing.deep_view(),
            event: self.event.deep_view(),
            table_name: self.table_name.deep_view(),
            when_cond: self.when_cond.deep_view(),
            statements: self.statements.deep_view(),
        }
    }
}

/// `ALTER TABLE`
#[derive(Clone, Debug, PartialEq)]
pub struct AlterTable {
    pub schema_table: SchemaObject,
    pub action: AlterTableAction,
}

/// The mathematical model of [`AlterTable`].
pub ghost struct AlterTableModel {
    pub schema_table: SchemaObjectModel,
    pub action: AlterTableActionModel,
}

impl DeepView for AlterTable {
    type V = AlterTableModel;

    open spec fn deep_view(&self) -> AlterTableModel {
        AlterTableModel {
            schema_table: self.schema_table.deep_view(),
            action: self.action.deep_view(),
        }
    }
}

/// `DROP TABLE`
#[derive(Clone, Debug, PartialEq)]
pub struct DropTable {
    pub if_exists: bool,
    pub schema_table: SchemaObject,
}

/// The mathematical model of [`DropTable`].
pub ghost struct DropTableModel {
    pub if_exists: bool,
    pub schema_table: SchemaObjectModel,
}

impl DeepView for DropTable {
    type V = DropTableModel;

    open spec fn deep_view(&self) -> DropTableModel {
        DropTableModel {
            if_exists: self.if_exists.deep_view(),
            schema_table: self.schema_table.deep_view(),
        }
    }
}

/// `DROP INDEX`
#[derive(Clone, Debug, PartialEq)]
pub struct DropIndex {
    pub if_exists: bool,
    pub schema_index: SchemaObject,
}

/// The mathematical model of [`DropIndex`].
pub ghost struct DropIndexModel {
    pub if_exists: bool,
    pub schema_index: SchemaObjectModel,
}

impl DeepView for DropIndex {
    type V = DropIndexModel;

    open spec fn deep_view(&self) -> DropIndexModel {
        DropIndexModel {
            if_exists: self.if_exists.deep_view(),
            schema_index: self.schema_index.deep_view(),
        }
    }
}

/// `DROP VIEW`
#[derive(Clone, Debug, PartialEq)]
pub struct DropView {
    pub if_exists: bool,
    pub schema_view: SchemaObject,
}

/// The mathematical model of [`DropView`].
pub ghost struct DropViewModel {
    pub if_exists: bool,
    pub schema_view: SchemaObjectModel,
}

impl DeepView for DropView {
    type V = DropViewModel;

    open spec fn deep_view(&self) -> DropViewModel {
        DropViewModel {
            if_exists: self.if_exists.deep_view(),
            schema_view: self.schema_view.deep_view(),
        }
    }
}

/// `DROP TRIGGER`
#[derive(Clone, Debug, PartialEq)]
pub struct DropTrigger {
    pub if_exists: bool,
    pub schema_trigger: SchemaObject,
}

/// The mathematical model of [`DropTrigger`].
pub ghost struct DropTriggerModel {
    pub if_exists: bool,
    pub schema_trigger: SchemaObjectModel,
}

impl DeepView for DropTrigger {
    type V = DropTriggerModel;

    open spec fn deep_view(&self) -> DropTriggerModel {
        DropTriggerModel {
            if_exists: self.if_exists.deep_view(),
            schema_trigger: self.schema_trigger.deep_view(),
        }
    }
}

/// What an `ALTER TABLE` statement does to the table.
#[derive(Clone, Debug, PartialEq)]
pub enum AlterTableAction {
    RenameTable(String),
    /// The old name, then the new one.
    RenameColumn(String, String),
    AddColumn(ColumnDef),
    DropColumn(String),
}

/// The mathematical model of [`AlterTableAction`].
pub ghost enum AlterTableActionModel {
    RenameTable(Seq<char>),
    RenameColumn(Seq<char>, Seq<char>),
    AddColumn(ColumnDefModel),
    DropColumn(Seq<char>),
}

impl DeepView for AlterTableAction {
    type V = AlterTableActionModel;

    open spec fn deep_view(&self) -> AlterTableActionModel {
        match self {
            AlterTableAction::RenameTable(x0) => AlterTableActionModel::RenameTable(x0.deep_view()),
            AlterTableAction::RenameColumn(x0, x1) => AlterTableActionModel::RenameColumn(x0.deep_view(), x1.deep_view()),
            AlterTableAction::AddColumn(x0) => AlterTableActionModel::AddColumn(x0.deep_view()),
            AlterTableAction::DropColumn(x0) => AlterTableActionModel::DropColumn(x0.deep_view()),
        }
    }
}

/// The definition of one column.
#[derive(Clone, Debug, PartialEq)]
pub struct ColumnDef {
    pub col_name: String,
    pub col_type: Option<TypeName>,
    pub constraints: Vec<ColumnConstraint>,
}

/// The mathematical model of [`ColumnDef`].
pub ghost struct ColumnDefModel {
    pub col_name: Seq<char>,
    pub col_type: Option<TypeNameModel>,
    pub constraints: Seq<ColumnConstraintModel>,
}

impl DeepView for ColumnDef {
    type V = ColumnDefModel;

    open spec fn deep_view(&self) -> ColumnDefModel {
        ColumnDefModel {
            col_name: self.col_name.deep_view(),
            col_type: self.col_type.deep_view(),
            constraints: self.constraints.deep_view(),
        }
    }
}

/// The declared type of a column.
#[derive(Clone, Debug, PartialEq)]
pub struct TypeName {
    pub ty: TypeDef,
    pub size: Option<TypeSize>,
}

/// The mathematical model of [`TypeName`].
pub ghost struct TypeNameModel {
    pub ty: TypeDef,
    pub size: Option<TypeSizeModel>,
}

impl DeepView for TypeName {
    type V = TypeNameModel;

    open spec fn deep_view(&self) -> TypeNameModel {
        TypeNameModel {
            ty: self.ty.deep_view(),
            size: self.size.deep_view(),
        }
    }
}

/// The families of column types.
#[derive(Clone, Copy, Debug, PartialEq, Eq)]
pub enum TypeDef {
    Decimal,
    Double,
    Integer,
    String,
    Varchar,
}

impl DeepView for TypeDef {
    type V = TypeDef;

    open spec fn deep_view(&self) -> TypeDef {
        *self
    }
}

/// The size written after a type name, as written.
#[derive(Clone, Debug, PartialEq)]
pub enum TypeSize {
    MaxSize(String),
    /// Precision, then scale.
    TypeSize(String, String),
}

/// The mathematical model of [`TypeSize`].
pub ghost enum TypeSizeModel {
    MaxSize(Seq<char>),
    TypeSize(Seq<char>, Seq<char>),
}

impl DeepView for TypeSize {
    type V = TypeSizeModel;

    open spec fn deep_view(&self) -> TypeSizeModel {
        match self {
            TypeSize::MaxSize(x0) => TypeSizeModel::MaxSize(x0.deep_view()),
            TypeSize::TypeSize(x0, x1) => TypeSizeModel::TypeSize(x0.deep_view(), x1.deep_view()),
        }
    }
}

/// A constraint on one column, with the name it was given, if any.
#[derive(Clone, Debug, PartialEq)]
pub struct ColumnConstraint {
    pub name: Option<String>,
    pub ty: ColumnConstraintType,
}

/// The mathematical model of [`ColumnConstraint`].
pub ghost struct ColumnConstraintModel {
    pub name: Option<Seq<char>>,
    pub ty: ColumnConstraintTypeModel,
}

impl DeepView for ColumnConstraint {
    type V = ColumnConstraintModel;

    open spec fn deep_view(&self) -> ColumnConstraintModel {
        ColumnConstraintModel {
            name: self.name.deep_view(),
            ty: self.ty.deep_view(),
        }
    }
}

/// The kinds of column constraint.
#[derive(Clone, Debug, PartialEq)]
pub enum ColumnConstraintType {
    /// Ascending, and without auto-increment, where nothing else is written.
    PrimaryKey { asc: bool, auto_inc: bool },
    NotNull,
    Unique,
    Check(Expr),
    Default(Literal),
}

/// The mathematical model of [`ColumnConstraintType`].
pub ghost enum ColumnConstraintTypeModel {
    PrimaryKey {
        asc: bool,
        auto_inc: bool,
    },
    NotNull,
    Unique,
    Check(ExprModel),
    Default(LiteralModel),
}

impl DeepView for ColumnConstraintType {
    type V = ColumnConstraintTypeModel;

    open spec fn deep_view(&self) -> ColumnConstraintTypeModel {
        match self {
            ColumnConstraintType::PrimaryKey { asc, auto_inc } => ColumnConstraintTypeModel::PrimaryKey {
                asc: asc.deep_view(),
                auto_inc: auto_inc.deep_view(),
            },
            ColumnConstraintType::NotNull => ColumnConstraintTypeModel::NotNull,
            ColumnConstraintType::Unique => ColumnConstraintTypeModel::Unique,
            ColumnConstraintType::Check(x0) => ColumnConstraintTypeModel::Check(x0.deep_view()),
            ColumnConstraintType::Default(x0) => ColumnConstraintTypeModel::Default(x0.deep_view()),
        }
    }
}

/// A constraint on a table, with the name it was given, if any.
#[derive(Clone, Debug, PartialEq)]
pub struct TableConstraint {
    pub name: Option<String>,
    pub cols: Vec<IndexedColumn>,
    pub ty: TableConstraintType,
}

/// The mathematical model of [`TableConstraint`].
pub ghost struct TableConstraintModel {
    pub name: Option<Seq<char>>,
    pub cols: Seq<IndexedColumnModel>,
    pub ty: TableConstraintType,
}

impl DeepView for TableConstraint {
    type V = TableConstraintModel;

    open spec fn deep_view(&self) -> TableConstraintModel {
        TableConstraintModel {
            name: self.name.deep_view(),
            cols: self.cols.deep_view(),
            ty: self.ty.deep_view(),
        }
    }
}

/// The kinds of table constraint.
#[derive(Clone, Copy, Debug, PartialEq, Eq)]
pub enum TableConstraintType {
    PrimaryKey,
    Unique,
}

impl DeepView for TableConstraintType {
    type V = TableConstraintType;

    open spec fn deep_view(&self) -> TableConstraintType {
        *self
    }
}

/// A column of an index or a key. Ascending where no order is written.
#[derive(Clone, Debug, PartialEq)]
pub struct IndexedColumn {
    pub name: String,
    pub asc: bool,
}

/// The mathematical model of [`IndexedColumn`].
pub ghost struct IndexedColumnModel {
    pub name: Seq<char>,
    pub asc: bool,
}

impl DeepView for IndexedColumn {
    type V = IndexedColumnModel;

    open spec fn deep_view(&self) -> IndexedColumnModel {
        IndexedColumnModel {
            name: self.name.deep_view(),
            asc: self.asc.deep_view(),
        }
    }
}

/// What follows the table's name in `CREATE TABLE`.
#[derive(Clone, Debug, PartialEq)]
pub enum CreateTableBody {
    Select(Select),
    Columns {
        columns: Vec<ColumnDef>,
        table_constraints: Vec<TableConstraint>,
        table_options: Vec<TableOption>,
    },
}

/// The mathematical model of [`CreateTableBody`].
pub ghost enum CreateTableBodyModel {
    Select(SelectModel),
    Columns {
        columns: Seq<ColumnDefModel>,
        table_constraints: Seq<TableConstraintModel>,
        table_options: Seq<TableOption>,
    },
}

impl DeepView for CreateTableBody {
    type V = CreateTableBodyModel;

    open spec fn deep_view(&self) -> CreateTableBodyModel {
        match self {
            CreateTableBody::Select(x0) => CreateTableBodyModel::Select(x0.deep_view()),
            CreateTableBody::Columns { columns, table_constraints, table_options } => CreateTableBodyModel::Columns {
                columns: columns.deep_view(),
                table_constraints: table_constraints.deep_view(),
                table_options: table_options.deep_view(),
            },
        }
    }
}

/// An option written after the column list of `CREATE TABLE`.
#[derive(Clone, Copy, Debug, PartialEq, Eq)]
pub enum TableOption {
    WithoutRowid,
    Strict,
}

impl DeepView for TableOption {
    type V = TableOption;

    open spec fn deep_view(&self) -> TableOption {
        *self
    }
}

/// When a trigger fires, relative to the event.
#[derive(Clone, Copy, Debug, PartialEq, Eq)]
pub enum TriggerTiming {
    Before,
    After,
    InsteadOf,
}

impl DeepView for TriggerTiming {
    type V = TriggerTiming;

    open spec fn deep_view(&self) -> TriggerTiming {
        *self
    }
}

/// The event that fires a trigger.
#[derive(Clone, Debug, PartialEq)]
pub enum TriggerEvent {
    Delete,
    Insert,
    /// The columns named after `UPDATE OF`; empty where none is named.
    Update(Vec<String>),
}

/// The mathematical model of [`TriggerEvent`].
pub ghost enum TriggerEventModel {
    Delete,
    Insert,
    Update(Seq<Seq<char>>),
}

impl DeepView for TriggerEvent {
    type V = TriggerEventModel;

    open spec fn deep_view(&self) -> TriggerEventModel {
        match self {
            TriggerEvent::Delete => TriggerEventModel::Delete,
            TriggerEvent::Insert => TriggerEventModel::Insert,
            TriggerEvent::Update(x0) => TriggerEventModel::Update(x0.deep_view()),
        }
    }
}

} // verus!
