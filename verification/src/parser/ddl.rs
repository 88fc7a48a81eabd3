//! The builders of the statements that define tables, indexes, views and
//! triggers.
//!
//! They walk their children as the builders of the row statements do: once,
//! in order, deciding by the tag of the next child whether an optional part
//! is there.

use vstd::prelude::*;
use vstd::string::StringExecFns;
use crate::ast::ddl::{
    AlterTable, AlterTableAction, AlterTableActionModel, AlterTableModel, ColumnConstraint,
    ColumnConstraintModel, ColumnConstraintType, ColumnConstraintTypeModel, ColumnDef,
    ColumnDefModel, CreateIndex, CreateIndexModel, CreateTable, CreateTableBody,
    CreateTableBodyModel, CreateTableModel, CreateTrigger, CreateTriggerModel, CreateView,
    CreateViewModel, DropIndex, DropIndexModel, DropTable, DropTableModel, DropTrigger,
    DropTriggerModel, DropView, DropViewModel, IndexedColumn, IndexedColumnModel, TableConstraint,
    TableConstraintModel, TableConstraintType, TableOption, TriggerEvent, TriggerEventModel,
    TriggerTiming, TypeDef, TypeName, TypeNameModel, TypeSize, TypeSizeModel,
};
use crate::ast::dml::{Dml, Select};
use crate::ast::{Expr, ExprModel, Literal, SchemaObject, SchemaObjectModel};
use crate::cst::{Cst, Node, Rule};
use crate::error::{mismatch, outcome, StructuralError};
use crate::parser::{
    after, at, build_at, build_each, build_list_at, build_opt, build_opt_list, parse_at,
    parse_each, parse_list_at, parse_opt, parse_opt_list, tagged, Parser,
};

verus! {

impl Parser for IndexedColumn {
    /// A column without a written order is ascending.
    open spec fn build(cst: Cst) -> Result<IndexedColumnModel, StructuralError> {
        let name = build_at::<String>(cst, 0);
        let shaped = cst.children.len() == 1 || (cst.children.len() == 2 && (tagged(
            cst,
            1,
            Rule::Asc,
        ) || tagged(cst, 1, Rule::Desc)));
        if cst.rule != Rule::IndexedColumn || !shaped {
            Err(mismatch(cst))
        } else if name is Err {
            Err(name->Err_0)
        } else {
            Ok(IndexedColumnModel { name: name->Ok_0, asc: !tagged(cst, 1, Rule::Desc) })
        }
    }

    fn parse(node: &Node) -> (built: Result<IndexedColumn, StructuralError>)
        ensures
            outcome(built) == Self::build(node.deep_view()),
    {
        let n = node.len();
        let desc = at(node, 1, Rule::Desc);
        let shaped = n == 1 || (n == 2 && (at(node, 1, Rule::Asc) || desc));
        if node.rule() != Rule::IndexedColumn || !shaped {
            return Err(StructuralError { rule: node.rule() });
        }
        let name = parse_at::<String>(node, 0)?;
        Ok(IndexedColumn { name, asc: !desc })
    }
}

impl Parser for TableOption {
    open spec fn build(cst: Cst) -> Result<TableOption, StructuralError> {
        if cst.rule == Rule::WithoutRowid {
            Ok(TableOption::WithoutRowid)
        } else if cst.rule == Rule::Strict {
            Ok(TableOption::Strict)
        } else {
            Err(mismatch(cst))
        }
    }

    fn parse(node: &Node) -> (built: Result<TableOption, StructuralError>)
        ensures
            outcome(built) == Self::build(node.deep_view()),
    {
        if node.rule() == Rule::WithoutRowid {
            Ok(TableOption::WithoutRowid)
        } else if node.rule() == Rule::Strict {
            Ok(TableOption::Strict)
        } else {
            Err(StructuralError { rule: node.rule() })
        }
    }
}

/// The family of types that a tag names.
pub open spec fn type_of(rule: Rule) -> Option<TypeDef> {
    match rule {
        Rule::TypeDecimal => Some(TypeDef::Decimal),
        Rule::TypeDouble => Some(TypeDef::Double),
        Rule::TypeInt => Some(TypeDef::Integer),
        Rule::TypeString => Some(TypeDef::String),
        Rule::TypeVarchar => Some(TypeDef::Varchar),
        _ => None,
    }
}

/// The family of types that a tag names.
pub fn type_family(rule: Rule) -> (family: Option<TypeDef>)
    ensures
        family == type_of(rule),
{
    match rule {
        Rule::TypeDecimal => Some(TypeDef::Decimal),
        Rule::TypeDouble => Some(TypeDef::Double),
        Rule::TypeInt => Some(TypeDef::Integer),
        Rule::TypeString => Some(TypeDef::String),
        Rule::TypeVarchar => Some(TypeDef::Varchar),
        _ => None,
    }
}

impl Parser for TypeName {
    /// The family, then no size, one size, or a precision and a scale, each
    /// kept as written.
    open spec fn build(cst: Cst) -> Result<TypeNameModel, StructuralError> {
        let n = cst.children.len();
        let sized = n == 1 || (n == 2 && tagged(cst, 1, Rule::TypeSize)) || (n == 3 && tagged(
            cst,
            1,
            Rule::TypeSize,
        ) && tagged(cst, 2, Rule::TypeSize));
        if cst.rule != Rule::TypeName || !sized {
            Err(mismatch(cst))
        } else if type_of(cst.children[0].rule) is None {
            Err(mismatch(cst.children[0]))
        } else {
            Ok(
                TypeNameModel {
                    ty: type_of(cst.children[0].rule)->Some_0,
                    size: if n == 1 {
                        None
                    } else if n == 2 {
                        Some(TypeSizeModel::MaxSize(cst.children[1].text))
                    } else {
                        Some(TypeSizeModel::TypeSize(cst.children[1].text, cst.children[2].text))
                    },
                },
            )
        }
    }

    fn parse(node: &Node) -> (built: Result<TypeName, StructuralError>)
        ensures
            outcome(built) == Self::build(node.deep_view()),
    {
        let n = node.len();
        let sized = n == 1 || (n == 2 && at(node, 1, Rule::TypeSize)) || (n == 3 && at(
            node,
            1,
            Rule::TypeSize,
        ) && at(node, 2, Rule::TypeSize));
        if node.rule() != Rule::TypeName || !sized {
            return Err(StructuralError { rule: node.rule() });
        }
        let family = node.child(0).rule();
        let ty = match type_family(family) {
            Some(ty) => ty,
            None => {
                return Err(StructuralError { rule: family });
            },
        };
        let size = if n == 1 {
            None
        } else if n == 2 {
            Some(TypeSize::MaxSize(String::from_str(node.child(1).text())))
        } else {
            Some(
                TypeSize::TypeSize(
                    String::from_str(node.child(1).text()),
                    String::from_str(node.child(2).text()),
                ),
            )
        };
        Ok(TypeName { ty, size })
    }
}

/// The primary key that a column constraint declares: ascending unless it
/// says `DESC`, and auto-incrementing only where it says so.
pub open spec fn primary_key_of(cst: Cst) -> Result<ColumnConstraintTypeModel, StructuralError> {
    let auto_at = if tagged(cst, 0, Rule::Asc) || tagged(cst, 0, Rule::Desc) {
        1int
    } else {
        0int
    };
    if cst.children.len() != after(cst, auto_at, Rule::Autoincrement) {
        Err(mismatch(cst))
    } else {
        Ok(
            ColumnConstraintTypeModel::PrimaryKey {
                asc: !tagged(cst, 0, Rule::Desc),
                auto_inc: tagged(cst, auto_at, Rule::Autoincrement),
            },
        )
    }
}

/// Builds the primary key that a column constraint declares.
pub fn parse_primary_key(node: &Node) -> (built: Result<ColumnConstraintType, StructuralError>)
    ensures
        outcome(built) == primary_key_of(node.deep_view()),
{
    let desc = at(node, 0, Rule::Desc);
    let auto_at: usize = if at(node, 0, Rule::Asc) || desc {
        1
    } else {
        0
    };
    let auto_inc = at(node, auto_at, Rule::Autoincrement);
    let end: usize = if auto_inc {
        auto_at + 1
    } else {
        auto_at
    };
    if node.len() != end {
        return Err(StructuralError { rule: node.rule() });
    }
    Ok(ColumnConstraintType::PrimaryKey { asc: !desc, auto_inc })
}

impl Parser for ColumnConstraintType {
    open spec fn build(cst: Cst) -> Result<ColumnConstraintTypeModel, StructuralError> {
        if cst.rule == Rule::ColumnPrimaryKey {
            primary_key_of(cst)
        } else if cst.rule == Rule::ColumnNotNull {
            Ok(ColumnConstraintTypeModel::NotNull)
        } else if cst.rule == Rule::ColumnUnique {
            Ok(ColumnConstraintTypeModel::Unique)
        } else if cst.rule == Rule::ColumnCheck && cst.children.len() == 1 {
            match build_at::<Expr>(cst, 0) {
                Err(e) => Err(e),
                Ok(expr) => Ok(ColumnConstraintTypeModel::Check(expr)),
            }
        } else if cst.rule == Rule::ColumnDefault && cst.children.len() == 1 {
            match build_at::<Literal>(cst, 0) {
                Err(e) => Err(e),
                Ok(literal) => Ok(ColumnConstraintTypeModel::Default(literal)),
            }
        } else {
            Err(mismatch(cst))
        }
    }

    fn parse(node: &Node) -> (built: Result<ColumnConstraintType, StructuralError>)
        ensures
            outcome(built) == Self::build(node.deep_view()),
    {
        let rule = node.rule();
        if rule == Rule::ColumnPrimaryKey {
            parse_primary_key(node)
        } else if rule == Rule::ColumnNotNull {
            Ok(ColumnConstraintType::NotNull)
        } else if rule == Rule::ColumnUnique {
            Ok(ColumnConstraintType::Unique)
        } else if rule == Rule::ColumnCheck && node.len() == 1 {
            let expr = parse_at::<Expr>(node, 0)?;
            Ok(ColumnConstraintType::Check(expr))
        } else if rule == Rule::ColumnDefault && node.len() == 1 {
            let literal = parse_at::<Literal>(node, 0)?;
            Ok(ColumnConstraintType::Default(literal))
        } else {
            Err(StructuralError { rule })
        }
    }
}

impl Parser for ColumnConstraint {
    /// An optional name, then the constraint itself.
    open spec fn build(cst: Cst) -> Result<ColumnConstraintModel, StructuralError> {
        let kind_at = after(cst, 0, Rule::Ident);
        let name = build_opt::<String>(cst, 0, Rule::Ident);
        let ty = build_at::<ColumnConstraintType>(cst, kind_at);
        if cst.rule != Rule::ColumnConstraint || cst.children.len() != kind_at + 1 {
            Err(mismatch(cst))
        } else if name is Err {
            Err(name->Err_0)
        } else if ty is Err {
            Err(ty->Err_0)
        } else {
            Ok(ColumnConstraintModel { name: name->Ok_0, ty: ty->Ok_0 })
        }
    }

    fn parse(node: &Node) -> (built: Result<ColumnConstraint, StructuralError>)
        ensures
            outcome(built) == Self::build(node.deep_view()),
    {
        let kind_at: usize = if at(node, 0, Rule::Ident) {
            1
        } else {
            0
        };
        if node.rule() != Rule::ColumnConstraint || node.len() != kind_at + 1 {
            return Err(StructuralError { rule: node.rule() });
        }
        let name = parse_opt::<String>(node, 0, Rule::Ident)?;
        let ty = parse_at::<ColumnConstraintType>(node, kind_at)?;
        Ok(ColumnConstraint { name, ty })
    }
}

/// The kind of table constraint that a tag names.
pub open spec fn table_constraint_of(rule: Rule) -> Option<TableConstraintType> {
    match rule {
        Rule::TablePrimaryKey => Some(TableConstraintType::PrimaryKey),
        Rule::TableUnique => Some(TableConstraintType::Unique),
        _ => None,
    }
}

impl Parser for TableConstraint {
    /// An optional name, then the kind of the constraint with its columns.
    open spec fn build(cst: Cst) -> Result<TableConstraintModel, StructuralError> {
        let kind_at = after(cst, 0, Rule::Ident);
        let name = build_opt::<String>(cst, 0, Rule::Ident);
        if cst.rule != Rule::TableConstraint || cst.children.len() != kind_at + 1 {
            Err(mismatch(cst))
        } else {
            let kind = cst.children[kind_at];
            let cols = build_list_at::<IndexedColumn>(kind, 0, Rule::IndexedColumns);
            if name is Err {
                Err(name->Err_0)
            } else if table_constraint_of(kind.rule) is None || kind.children.len() != 1 {
                Err(mismatch(kind))
            } else if cols is Err {
                Err(cols->Err_0)
            } else {
                Ok(
                    TableConstraintModel {
                        name: name->Ok_0,
                        cols: cols->Ok_0,
                        ty: table_constraint_of(kind.rule)->Some_0,
                    },
                )
            }
        }
    }

    fn parse(node: &Node) -> (built: Result<TableConstraint, StructuralError>)
        ensures
            outcome(built) == Self::build(node.deep_view()),
    {
        let kind_at: usize = if at(node, 0, Rule::Ident) {
            1
        } else {
            0
        };
        if node.rule() != Rule::TableConstraint || node.len() != kind_at + 1 {
            return Err(StructuralError { rule: node.rule() });
        }
        let name = parse_opt::<String>(node, 0, Rule::Ident)?;
        let kind = node.child(kind_at);
        let ty = if kind.rule() == Rule::TablePrimaryKey {
            TableConstraintType::PrimaryKey
        } else if kind.rule() == Rule::TableUnique {
            TableConstraintType::Unique
        } else {
            return Err(StructuralError { rule: kind.rule() });
        };
        if kind.len() != 1 {
            return Err(StructuralError { rule: kind.rule() });
        }
        let cols = parse_list_at::<IndexedColumn>(kind, 0, Rule::IndexedColumns)?;
        Ok(TableConstraint { name, cols, ty })
    }
}

impl Parser for ColumnDef {
    /// The name, then a type and a list of constraints, each optional. A
    /// column without a type has none; one without constraints has an empty
    /// list of them.
    open spec fn build(cst: Cst) -> Result<ColumnDefModel, StructuralError> {
        let constraints_at = after(cst, 1, Rule::TypeName);
        let name = build_at::<String>(cst, 0);
        let ty = build_opt::<TypeName>(cst, 1, Rule::TypeName);
        let constraints = build_opt_list::<ColumnConstraint>(
            cst,
            constraints_at,
            Rule::ColumnConstraints,
        );
        if cst.rule != Rule::ColumnDef || cst.children.len() != after(
            cst,
            constraints_at,
            Rule::ColumnConstraints,
        ) {
            Err(mismatch(cst))
        } else if name is Err {
            Err(name->Err_0)
        } else if ty is Err {
            Err(ty->Err_0)
        } else if constraints is Err {
            Err(constraints->Err_0)
        } else {
            Ok(
                ColumnDefModel {
                    col_name: name->Ok_0,
                    col_type: ty->Ok_0,
                    constraints: constraints->Ok_0,
                },
            )
        }
    }

    fn parse(node: &Node) -> (built: Result<ColumnDef, StructuralError>)
        ensures
            outcome(built) == Self::build(node.deep_view()),
    {
        let constraints_at: usize = if at(node, 1, Rule::TypeName) {
            2
        } else {
            1
        };
        let end: usize = if at(node, constraints_at, Rule::ColumnConstraints) {
            constraints_at + 1
        } else {
            constraints_at
        };
        if node.rule() != Rule::ColumnDef || node.len() != end {
            return Err(StructuralError { rule: node.rule() });
        }
        let col_name = parse_at::<String>(node, 0)?;
        let col_type = parse_opt::<TypeName>(node, 1, Rule::TypeName)?;
        let constraints = parse_opt_list::<ColumnConstraint>(
            node,
            constraints_at,
            Rule::ColumnConstraints,
        )?;
        Ok(ColumnDef { col_name, col_type, constraints })
    }
}

/// The columns, constraints and options of a table that is defined by a
/// column list. The list of columns comes first; a list of table constraints
/// may follow it; every child after that is one table option.
pub open spec fn columns_body_of(cst: Cst) -> Result<CreateTableBodyModel, StructuralError> {
    let options_at = after(cst, 1, Rule::TableConstraints);
    let columns = build_list_at::<ColumnDef>(cst, 0, Rule::ColumnDefs);
    let constraints = build_opt_list::<TableConstraint>(cst, 1, Rule::TableConstraints);
    let options = build_each::<TableOption>(cst.children.skip(options_at));
    if columns is Err {
        Err(columns->Err_0)
    } else if constraints is Err {
        Err(constraints->Err_0)
    } else if options is Err {
        Err(options->Err_0)
    } else {
        Ok(
            CreateTableBodyModel::Columns {
                columns: columns->Ok_0,
                table_constraints: constraints->Ok_0,
                table_options: options->Ok_0,
            },
        )
    }
}

/// Builds the body of a table that is defined by a column list.
pub fn parse_columns_body(node: &Node) -> (built: Result<CreateTableBody, StructuralError>)
    ensures
        outcome(built) == columns_body_of(node.deep_view()),
{
    let options_at: usize = if at(node, 1, Rule::TableConstraints) {
        2
    } else {
        1
    };
    let columns = parse_list_at::<ColumnDef>(node, 0, Rule::ColumnDefs)?;
    let table_constraints = parse_opt_list::<TableConstraint>(node, 1, Rule::TableConstraints)?;
    let table_options = parse_each::<TableOption>(node, options_at)?;
    Ok(CreateTableBody::Columns { columns, table_constraints, table_options })
}

impl Parser for CreateTableBody {
    /// Either a query, or a column list with what follows it.
    open spec fn build(cst: Cst) -> Result<CreateTableBodyModel, StructuralError> {
        if cst.rule != Rule::CreateTableBody {
            Err(mismatch(cst))
        } else if tagged(cst, 0, Rule::Select) && cst.children.len() == 1 {
            match build_at::<Select>(cst, 0) {
                Err(e) => Err(e),
                Ok(select) => Ok(CreateTableBodyModel::Select(select)),
            }
        } else if tagged(cst, 0, Rule::ColumnDefs) {
            columns_body_of(cst)
        } else {
            Err(mismatch(cst))
        }
    }

    fn parse(node: &Node) -> (built: Result<CreateTableBody, StructuralError>)
        ensures
            outcome(built) == Self::build(node.deep_view()),
    {
        if node.rule() != Rule::CreateTableBody {
            Err(StructuralError { rule: node.rule() })
        } else if at(node, 0, Rule::Select) && node.len() == 1 {
            let select = parse_at::<Select>(node, 0)?;
            Ok(CreateTableBody::Select(select))
        } else if at(node, 0, Rule::ColumnDefs) {
            parse_columns_body(node)
        } else {
            Err(StructuralError { rule: node.rule() })
        }
    }
}

impl Parser for CreateTable {
    /// `TEMP` and `IF NOT EXISTS`, each optional, then the name and the body.
    open spec fn build(cst: Cst) -> Result<CreateTableModel, StructuralError> {
        let exists_at = after(cst, 0, Rule::Temp);
        let name_at = after(cst, exists_at, Rule::IfNotExists);
        let name = build_at::<SchemaObject>(cst, name_at);
        let body = build_at::<CreateTableBody>(cst, name_at + 1);
        if cst.rule != Rule::CreateTable || cst.children.len() != name_at + 2 {
            Err(mismatch(cst))
        } else if name is Err {
            Err(name->Err_0)
        } else if body is Err {
            Err(body->Err_0)
        } else {
            Ok(
                CreateTableModel {
                    temp: tagged(cst, 0, Rule::Temp),
                    if_not_exists: tagged(cst, exists_at, Rule::IfNotExists),
                    schema_table: name->Ok_0,
                    body: body->Ok_0,
                },
            )
        }
    }

    fn parse(node: &Node) -> (built: Result<CreateTable, StructuralError>)
        ensures
            outcome(built) == Self::build(node.deep_view()),
    {
        let temp = at(node, 0, Rule::Temp);
        let exists_at: usize = if temp {
            1
        } else {
            0
        };
        let if_not_exists = at(node, exists_at, Rule::IfNotExists);
        let name_at: usize = if if_not_exists {
            exists_at + 1
        } else {
            exists_at
        };
        if node.rule() != Rule::CreateTable || node.len() != name_at + 2 {
            return Err(StructuralError { rule: node.rule() });
        }
        let schema_table = parse_at::<SchemaObject>(node, name_at)?;
        let body = parse_at::<CreateTableBody>(node, name_at + 1)?;
        Ok(CreateTable { temp, if_not_exists, schema_table, body })
    }
}

impl Parser for AlterTableAction {
    open spec fn build(cst: Cst) -> Result<AlterTableActionModel, StructuralError> {
        if cst.rule == Rule::RenameTable && cst.children.len() == 1 {
            match build_at::<String>(cst, 0) {
                Err(e) => Err(e),
                Ok(name) => Ok(AlterTableActionModel::RenameTable(name)),
            }
        } else if cst.rule == Rule::RenameColumn && cst.children.len() == 2 {
            let old_name = build_at::<String>(cst, 0);
            let new_name = build_at::<String>(cst, 1);
            if old_name is Err {
                Err(old_name->Err_0)
            } else if new_name is Err {
                Err(new_name->Err_0)
            } else {
                Ok(AlterTableActionModel::RenameColumn(old_name->Ok_0, new_name->Ok_0))
            }
        } else if cst.rule == Rule::AddColumn && cst.children.len() == 1 {
            match build_at::<ColumnDef>(cst, 0) {
                Err(e) => Err(e),
                Ok(column) => Ok(AlterTableActionModel::AddColumn(column)),
            }
        } else if cst.rule == Rule::DropColumn && cst.children.len() == 1 {
            match build_at::<String>(cst, 0) {
                Err(e) => Err(e),
                Ok(name) => Ok(AlterTableActionModel::DropColumn(name)),
            }
        } else {
            Err(mismatch(cst))
        }
    }

    fn parse(node: &Node) -> (built: Result<AlterTableAction, StructuralError>)
        ensures
            outcome(built) == Self::build(node.deep_view()),
    {
        let rule = node.rule();
        let n = node.len();
        if rule == Rule::RenameTable && n == 1 {
            let name = parse_at::<String>(node, 0)?;
            Ok(AlterTableAction::RenameTable(name))
        } else if rule == Rule::RenameColumn && n == 2 {
            let old_name = parse_at::<String>(node, 0)?;
            let new_name = parse_at::<String>(node, 1)?;
            Ok(AlterTableAction::RenameColumn(old_name, new_name))
        } else if rule == Rule::AddColumn && n == 1 {
            let column = parse_at::<ColumnDef>(node, 0)?;
            Ok(AlterTableAction::AddColumn(column))
        } else if rule == Rule::DropColumn && n == 1 {
            let name = parse_at::<String>(node, 0)?;
            Ok(AlterTableAction::DropColumn(name))
        } else {
            Err(StructuralError { rule })
        }
    }
}

impl Parser for AlterTable {
    open spec fn build(cst: Cst) -> Result<AlterTableModel, StructuralError> {
        let name = build_at::<SchemaObject>(cst, 0);
        let action = build_at::<AlterTableAction>(cst, 1);
        if cst.rule != Rule::AlterTable || cst.children.len() != 2 {
            Err(mismatch(cst))
        } else if name is Err {
            Err(name->Err_0)
        } else if action is Err {
            Err(action->Err_0)
        } else {
            Ok(AlterTableModel { schema_table: name->Ok_0, action: action->Ok_0 })
        }
    }

    fn parse(node: &Node) -> (built: Result<AlterTable, StructuralError>)
        ensures
            outcome(built) == Self::build(node.deep_view()),
    {
        if node.rule() != Rule::AlterTable || node.len() != 2 {
            return Err(StructuralError { rule: node.rule() });
        }
        let schema_table = parse_at::<SchemaObject>(node, 0)?;
        let action = parse_at::<AlterTableAction>(node, 1)?;
        Ok(AlterTable { schema_table, action })
    }
}

/// What a `DROP` statement of the kind `rule` says: whether it holds
/// `IF EXISTS`, and the name of what it drops.
pub open spec fn dropped_of(cst: Cst, rule: Rule) -> Result<
    (bool, SchemaObjectModel),
    StructuralError,
> {
    let name_at = after(cst, 0, Rule::IfExists);
    let name = build_at::<SchemaObject>(cst, name_at);
    if cst.rule != rule || cst.children.len() != name_at + 1 {
        Err(mismatch(cst))
    } else if name is Err {
        Err(name->Err_0)
    } else {
        Ok((tagged(cst, 0, Rule::IfExists), name->Ok_0))
    }
}

/// Builds the parts of a `DROP` statement of the kind `rule`.
pub fn parse_dropped(node: &Node, rule: Rule) -> (built: Result<
    (bool, SchemaObject),
    StructuralError,
>)
    ensures
        outcome(built) == dropped_of(node.deep_view(), rule),
{
    let if_exists = at(node, 0, Rule::IfExists);
    let name_at: usize = if if_exists {
        1
    } else {
        0
    };
    if node.rule() != rule || node.len() != name_at + 1 {
        return Err(StructuralError { rule: node.rule() });
    }
    let name = parse_at::<SchemaObject>(node, name_at)?;
    Ok((if_exists, name))
}

impl Parser for DropTable {
    open spec fn build(cst: Cst) -> Result<DropTableModel, StructuralError> {
        match dropped_of(cst, Rule::DropTable) {
            Err(e) => Err(e),
            Ok((if_exists, name)) => Ok(DropTableModel { if_exists, schema_table: name }),
        }
    }

    fn parse(node: &Node) -> (built: Result<DropTable, StructuralError>)
        ensures
            outcome(built) == Self::build(node.deep_view()),
    {
        let (if_exists, schema_table) = parse_dropped(node, Rule::DropTable)?;
        Ok(DropTable { if_exists, schema_table })
    }
}

impl Parser for DropIndex {
    open spec fn build(cst: Cst) -> Result<DropIndexModel, StructuralError> {
        match dropped_of(cst, Rule::DropIndex) {
            Err(e) => Err(e),
            Ok((if_exists, name)) => Ok(DropIndexModel { if_exists, schema_index: name }),
        }
    }

    fn parse(node: &Node) -> (built: Result<DropIndex, StructuralError>)
        ensures
            outcome(built) == Self::build(node.deep_view()),
    {
        let (if_exists, schema_index) = parse_dropped(node, Rule::DropIndex)?;
        Ok(DropIndex { if_exists, schema_index })
    }
}

impl Parser for DropView {
    open spec fn build(cst: Cst) -> Result<DropViewModel, StructuralError> {
        match dropped_of(cst, Rule::DropView) {
            Err(e) => Err(e),
            Ok((if_exists, name)) => Ok(DropViewModel { if_exists, schema_view: name }),
        }
    }

    fn parse(node: &Node) -> (built: Result<DropView, StructuralError>)
        ensures
            outcome(built) == Self::build(node.deep_view()),
    {
        let (if_exists, schema_view) = parse_dropped(node, Rule::DropView)?;
        Ok(DropView { if_exists, schema_view })
    }
}

impl Parser for DropTrigger {
    open spec fn build(cst: Cst) -> Result<DropTriggerModel, StructuralError> {
        match dropped_of(cst, Rule::DropTrigger) {
            Err(e) => Err(e),
            Ok((if_exists, name)) => Ok(DropTriggerModel { if_exists, schema_trigger: name }),
        }
    }

    fn parse(node: &Node) -> (built: Result<DropTrigger, StructuralError>)
        ensures
            outcome(built) == Self::build(node.deep_view()),
    {
        let (if_exists, schema_trigger) = parse_dropped(node, Rule::DropTrigger)?;
        Ok(DropTrigger { if_exists, schema_trigger })
    }
}

impl Parser for CreateIndex {
    /// `UNIQUE` and `IF NOT EXISTS`, each optional, then the index, the
    /// table and the columns, then an optional filter.
    open spec fn build(cst: Cst) -> Result<CreateIndexModel, StructuralError> {
        let exists_at = after(cst, 0, Rule::Unique);
        let name_at = after(cst, exists_at, Rule::IfNotExists);
        let name = build_at::<SchemaObject>(cst, name_at);
        let table = build_at::<String>(cst, name_at + 1);
        let columns = build_list_at::<IndexedColumn>(cst, name_at + 2, Rule::IndexedColumns);
        let filter = build_opt::<Expr>(cst, name_at + 3, Rule::Expr);
        if cst.rule != Rule::CreateIndex || cst.children.len() != after(
            cst,
            name_at + 3,
            Rule::Expr,
        ) {
            Err(mismatch(cst))
        } else if name is Err {
            Err(name->Err_0)
        } else if table is Err {
            Err(table->Err_0)
        } else if columns is Err {
            Err(columns->Err_0)
        } else if filter is Err {
            Err(filter->Err_0)
        } else {
            Ok(
                CreateIndexModel {
                    unique: tagged(cst, 0, Rule::Unique),
                    if_not_exists: tagged(cst, exists_at, Rule::IfNotExists),
                    schema_index: name->Ok_0,
                    table_name: table->Ok_0,
                    indexed_cols: columns->Ok_0,
                    where_cond: filter->Ok_0,
                },
            )
        }
    }

    fn parse(node: &Node) -> (built: Result<CreateIndex, StructuralError>)
        ensures
            outcome(built) == Self::build(node.deep_view()),
    {
        let unique = at(node, 0, Rule::Unique);
        let exists_at: usize = if unique {
            1
        } else {
            0
        };
        let if_not_exists = at(node, exists_at, Rule::IfNotExists);
        let name_at: usize = if if_not_exists {
            exists_at + 1
        } else {
            exists_at
        };
        let end: usize = if at(node, name_at + 3, Rule::Expr) {
            name_at + 4
        } else {
            name_at + 3
        };
        if node.rule() != Rule::CreateIndex || node.len() != end {
            return Err(StructuralError { rule: node.rule() });
        }
        let schema_index = parse_at::<SchemaObject>(node, name_at)?;
        let table_name = parse_at::<String>(node, name_at + 1)?;
        let indexed_cols = parse_list_at::<IndexedColumn>(
            node,
            name_at + 2,
            Rule::IndexedColumns,
        )?;
        let where_cond = parse_opt::<Expr>(node, name_at + 3, Rule::Expr)?;
        Ok(CreateIndex { unique, if_not_exists, schema_index, table_name, indexed_cols, where_cond })
    }
}

impl Parser for CreateView {
    /// `TEMP` and `IF NOT EXISTS`, each optional, then the name, an optional
    /// list of columns, and the query.
    open spec fn build(cst: Cst) -> Result<CreateViewModel, StructuralError> {
        let exists_at = after(cst, 0, Rule::Temp);
        let name_at = after(cst, exists_at, Rule::IfNotExists);
        let select_at = after(cst, name_at + 1, Rule::Idents);
        let name = build_at::<SchemaObject>(cst, name_at);
        let columns = build_opt_list::<String>(cst, name_at + 1, Rule::Idents);
        let select = build_at::<Select>(cst, select_at);
        if cst.rule != Rule::CreateView || cst.children.len() != select_at + 1 {
            Err(mismatch(cst))
        } else if name is Err {
            Err(name->Err_0)
        } else if columns is Err {
            Err(columns->Err_0)
        } else if select is Err {
            Err(select->Err_0)
        } else {
            Ok(
                CreateViewModel {
                    temp: tagged(cst, 0, Rule::Temp),
                    if_not_exists: tagged(cst, exists_at, Rule::IfNotExists),
                    schema_view: name->Ok_0,
                    columns: columns->Ok_0,
                    select: select->Ok_0,
                },
            )
        }
    }

    fn parse(node: &Node) -> (built: Result<CreateView, StructuralError>)
        ensures
            outcome(built) == Self::build(node.deep_view()),
    {
        let temp = at(node, 0, Rule::Temp);
        let exists_at: usize = if temp {
            1
        } else {
            0
        };
        let if_not_exists = at(node, exists_at, Rule::IfNotExists);
        let name_at: usize = if if_not_exists {
            exists_at + 1
        } else {
            exists_at
        };
        let select_at: usize = if at(node, name_at + 1, Rule::Idents) {
            name_at + 2
        } else {
            name_at + 1
        };
        if node.rule() != Rule::CreateView || node.len() != select_at + 1 {
            return Err(StructuralError { rule: node.rule() });
        }
        let schema_view = parse_at::<SchemaObject>(node, name_at)?;
        let columns = parse_opt_list::<String>(node, name_at + 1, Rule::Idents)?;
        let select = parse_at::<Select>(node, select_at)?;
        Ok(CreateView { temp, if_not_exists, schema_view, columns, select })
    }
}

impl Parser for TriggerTiming {
    open spec fn build(cst: Cst) -> Result<TriggerTiming, StructuralError> {
        if cst.rule == Rule::Before {
            Ok(TriggerTiming::Before)
        } else if cst.rule == Rule::After {
            Ok(TriggerTiming::After)
        } else if cst.rule == Rule::Instead {
            Ok(TriggerTiming::InsteadOf)
        } else {
            Err(mismatch(cst))
        }
    }

    fn parse(node: &Node) -> (built: Result<TriggerTiming, StructuralError>)
        ensures
            outcome(built) == Self::build(node.deep_view()),
    {
        let rule = node.rule();
        if rule == Rule::Before {
            Ok(TriggerTiming::Before)
        } else if rule == Rule::After {
            Ok(TriggerTiming::After)
        } else if rule == Rule::Instead {
            Ok(TriggerTiming::InsteadOf)
        } else {
            Err(StructuralError { rule })
        }
    }
}

impl Parser for TriggerEvent {
    /// An update that names no columns has an empty list of them.
    open spec fn build(cst: Cst) -> Result<TriggerEventModel, StructuralError> {
        if cst.rule == Rule::TriggerDelete {
            Ok(TriggerEventModel::Delete)
        } else if cst.rule == Rule::TriggerInsert {
            Ok(TriggerEventModel::Insert)
        } else if cst.rule == Rule::TriggerUpdate && cst.children.len() == after(
            cst,
            0,
            Rule::Idents,
        ) {
            match build_opt_list::<String>(cst, 0, Rule::Idents) {
                Err(e) => Err(e),
                Ok(columns) => Ok(TriggerEventModel::Update(columns)),
            }
        } else {
            Err(mismatch(cst))
        }
    }

    fn parse(node: &Node) -> (built: Result<TriggerEvent, StructuralError>)
        ensures
            outcome(built) == Self::build(node.deep_view()),
    {
        let rule = node.rule();
        let end: usize = if at(node, 0, Rule::Idents) {
            1
        } else {
            0
        };
        if rule == Rule::TriggerDelete {
            Ok(TriggerEvent::Delete)
        } else if rule == Rule::TriggerInsert {
            Ok(TriggerEvent::Insert)
        } else if rule == Rule::TriggerUpdate && node.len() == end {
            let columns = parse_opt_list::<String>(node, 0, Rule::Idents)?;
            Ok(TriggerEvent::Update(columns))
        } else {
            Err(StructuralError { rule })
        }
    }
}

/// The condition of a trigger: nothing where the child at position `i` is no
/// `WHEN` clause.
pub open spec fn condition_at(cst: Cst, i: int) -> Result<Option<ExprModel>, StructuralError> {
    if !tagged(cst, i, Rule::WhenClause) {
        Ok(None)
    } else if cst.children[i].children.len() != 1 {
        Err(mismatch(cst.children[i]))
    } else {
        match build_at::<Expr>(cst.children[i], 0) {
            Err(e) => Err(e),
            Ok(expr) => Ok(Some(expr)),
        }
    }
}

/// Builds the condition of a trigger.
pub fn parse_condition(node: &Node, i: usize) -> (built: Result<Option<Expr>, StructuralError>)
    ensures
        outcome(built) == condition_at(node.deep_view(), i as int),
{
    if !at(node, i, Rule::WhenClause) {
        Ok(None)
    } else {
        let clause = node.child(i);
        if clause.len() != 1 {
            return Err(StructuralError { rule: clause.rule() });
        }
        let expr = parse_at::<Expr>(clause, 0)?;
        Ok(Some(expr))
    }
}

impl Parser for CreateTrigger {
    /// `TEMP` and `IF NOT EXISTS`, each optional, then the name, the timing,
    /// the event and the table, then an optional condition. Every child after
    /// that is one statement of the body, and there is at least one.
    open spec fn build(cst: Cst) -> Result<CreateTriggerModel, StructuralError> {
        let exists_at = after(cst, 0, Rule::Temp);
        let name_at = after(cst, exists_at, Rule::IfNotExists);
        let body_at = after(cst, name_at + 4, Rule::WhenClause);
        let name = build_at::<SchemaObject>(cst, name_at);
        let timing = build_at::<TriggerTiming>(cst, name_at + 1);
        let event = build_at::<TriggerEvent>(cst, name_at + 2);
        let table = build_at::<String>(cst, name_at + 3);
        let condition = condition_at(cst, name_at + 4);
        let statements = build_each::<Dml>(cst.children.skip(body_at));
        if cst.rule != Rule::CreateTrigger || cst.children.len() <= body_at {
            Err(mismatch(cst))
        } else if name is Err {
            Err(name->Err_0)
        } else if timing is Err {
            Err(timing->Err_0)
        } else if event is Err {
            Err(event->Err_0)
        } else if table is Err {
            Err(table->Err_0)
        } else if condition is Err {
            Err(condition->Err_0)
        } else if statements is Err {
            Err(statements->Err_0)
        } else {
            Ok(
                CreateTriggerModel {
                    temp: tagged(cst, 0, Rule::Temp),
                    if_not_exists: tagged(cst, exists_at, Rule::IfNotExists),
                    schema_trigger: name->Ok_0,
                    timing: timing->Ok_0,
                    event: event->Ok_0,
                    table_name: table->Ok_0,
                    when_cond: condition->Ok_0,
                    statements: statements->Ok_0,
                },
            )
        }
    }

    fn parse(node: &Node) -> (built: Result<CreateTrigger, StructuralError>)
        ensures
            outcome(built) == Self::build(node.deep_view()),
    {
        let temp = at(node, 0, Rule::Temp);
        let exists_at: usize = if temp {
            1
        } else {
            0
        };
        let if_not_exists = at(node, exists_at, Rule::IfNotExists);
        let name_at: usize = if if_not_exists {
            exists_at + 1
        } else {
            exists_at
        };
        let body_at: usize = if at(node, name_at + 4, Rule::WhenClause) {
            name_at + 5
        } else {
            name_at + 4
        };
        if node.rule() != Rule::CreateTrigger || node.len() <= body_at {
            return Err(StructuralError { rule: node.rule() });
        }
        let schema_trigger = parse_at::<SchemaObject>(node, name_at)?;
        let timing = parse_at::<TriggerTiming>(node, name_at + 1)?;
        let event = parse_at::<TriggerEvent>(node, name_at + 2)?;
        let table_name = parse_at::<String>(node, name_at + 3)?;
        let when_cond = parse_condition(node, name_at + 4)?;
        let statements = parse_each::<Dml>(node, body_at)?;
        Ok(
            CreateTrigger {
                temp,
                if_not_exists,
                schema_trigger,
                timing,
                event,
                table_name,
                when_cond,
                statements,
            },
        )
    }
}

} // verus!
