//! The abstract syntax tree: the statements, expressions and clause
//! fragments that the builders produce, each with its mathematical model.

pub mod ddl;
pub mod dml;
pub mod tcl;

use vstd::prelude::*;
use crate::ast::ddl::{
    AlterTable, AlterTableModel, CreateIndex, CreateIndexModel, CreateTable, CreateTableModel,
    CreateTrigger, CreateTriggerModel, CreateView, CreateViewModel, DropIndex, DropIndexModel,
    DropTable, DropTableModel, DropTrigger, DropTriggerModel, DropView, DropViewModel,
};
use crate::ast::dml::{
    Delete, DeleteModel, Insert, InsertModel, Select, SelectModel, Update, UpdateModel,
};

verus! {

/// One SQL statement.
#[derive(Clone, Debug, PartialEq)]
pub enum Stmt {
    Select(Select),
    Insert(Insert),
    Update(Update),
    Delete(Delete),
    CreateTable(CreateTable),
    CreateIndex(CreateIndex),
    CreateView(CreateView),
    CreateTrigger(CreateTrigger),
    AlterTable(AlterTable),
    DropTable(DropTable),
    DropIndex(DropIndex),
    DropView(DropView),
    DropTrigger(DropTrigger),
}

/// The mathematical model of [`Stmt`].
pub ghost enum StmtModel {
    Select(SelectModel),
    Insert(InsertModel),
    Update(UpdateModel),
    Delete(DeleteModel),
    CreateTable(CreateTableModel),
    CreateIndex(CreateIndexModel),
    CreateView(CreateViewModel),
    CreateTrigger(CreateTriggerModel),
    AlterTable(AlterTableModel),
    DropTable(DropTableModel),
    DropIndex(DropIndexModel),
    DropView(DropViewModel),
    DropTrigger(DropTriggerModel),
}

impl DeepView for Stmt {
    type V = StmtModel;

    open spec fn deep_view(&self) -> StmtModel {
        match self {
            Stmt::Select(x0) => StmtModel::Select(x0.deep_view()),
            Stmt::Insert(x0) => StmtModel::Insert(x0.deep_view()),
            Stmt::Update(x0) => StmtModel::Update(x0.deep_view()),
            Stmt::Delete(x0) => StmtModel::Delete(x0.deep_view()),
            Stmt::CreateTable(x0) => StmtModel::CreateTable(x0.deep_view()),
            Stmt::CreateIndex(x0) => StmtModel::CreateIndex(x0.deep_view()),
            Stmt::CreateView(x0) => StmtModel::CreateView(x0.deep_view()),
            Stmt::CreateTrigger(x0) => StmtModel::CreateTrigger(x0.deep_view()),
            Stmt::AlterTable(x0) => StmtModel::AlterTable(x0.deep_view()),
            Stmt::DropTable(x0) => StmtModel::DropTable(x0.deep_view()),
            Stmt::DropIndex(x0) => StmtModel::DropIndex(x0.deep_view()),
            Stmt::DropView(x0) => StmtModel::DropView(x0.deep_view()),
            Stmt::DropTrigger(x0) => StmtModel::DropTrigger(x0.deep_view()),
        }
    }
}

/// A literal value. Numbers keep the text they were written with; the text
/// of a string or a blob is what stood between its delimiters.
#[derive(Debug, PartialEq)]
pub enum Literal {
    /// A number written with an exponent.
    Double(String),
    /// A number written with a decimal point and no exponent.
    Decimal(String),
    /// A number written with neither.
    Integer(String),
    String(String),
    /// The hexadecimal digits of a binary literal.
    Blob(String),
    Null,
    Bool(bool),
}

/// The mathematical model of [`Literal`].
pub ghost enum LiteralModel {
    Double(Seq<char>),
    Decimal(Seq<char>),
    Integer(Seq<char>),
    String(Seq<char>),
    Blob(Seq<char>),
    Null,
    Bool(bool),
}

impl DeepView for Literal {
    type V = LiteralModel;

    open spec fn deep_view(&self) -> LiteralModel {
        match self {
            Literal::Double(x0) => LiteralModel::Double(x0.deep_view()),
            Literal::Decimal(x0) => LiteralModel::Decimal(x0.deep_view()),
            Literal::Integer(x0) => LiteralModel::Integer(x0.deep_view()),
            Literal::String(x0) => LiteralModel::String(x0.deep_view()),
            Literal::Blob(x0) => LiteralModel::Blob(x0.deep_view()),
            Literal::Null => LiteralModel::Null,
            Literal::Bool(x0) => LiteralModel::Bool(x0.deep_view()),
        }
    }
}

/// A binary operator, listed from the tightest binding to the loosest.
#[derive(Clone, Copy, Debug, PartialEq, Eq)]
pub enum BinaryOp {
    /// `||`
    Concat,
    /// `*`
    Mul,
    /// `/`
    Div,
    /// `%`
    Mod,
    /// `+`
    Plus,
    /// `-`
    Minus,
    /// `&`
    BitwiseAnd,
    /// `|`
    BitwiseOr,
    /// `>>`
    RightShift,
    /// `<<`
    LeftShift,
    /// `<`
    Lt,
    /// `<=`
    Le,
    /// `>`
    Gt,
    /// `>=`
    Ge,
    /// `=` or `==`
    Eq,
    /// `!=` or `<>`
    Ne,
    /// `IS`
    Is,
    /// `IS NOT`
    IsNot,
    /// `AND`
    LogicalAnd,
    /// `OR`
    LogicalOr,
}

impl DeepView for BinaryOp {
    type V = BinaryOp;

    open spec fn deep_view(&self) -> BinaryOp {
        *self
    }
}

/// A prefix operator.
#[derive(Clone, Copy, Debug, PartialEq, Eq)]
pub enum UnaryOp {
    /// `~`
    BitwiseNot,
    /// `+`
    Positive,
    /// `-`
    Negative,
    /// `NOT`
    LogicalNot,
}

impl DeepView for UnaryOp {
    type V = UnaryOp;

    open spec fn deep_view(&self) -> UnaryOp {
        *self
    }
}

/// An expression.
#[derive(Debug, PartialEq)]
pub enum Expr {
    Literal(Literal),
    Unary(UnaryOp, Box<Expr>),
    Binary(Box<Expr>, BinaryOp, Box<Expr>),
    /// A parenthesised list of expressions.
    ExprList(Vec<Expr>),
    /// A test of a range. The grammar has no rule for it, and no builder
    /// makes one.
    Between {
        expr: Box<Expr>,
        not: bool,
        low: Box<Expr>,
        high: Box<Expr>,
    },
    /// A column, with the schema and the table it was qualified by, if any.
    QualifiedColumn(Option<String>, Option<String>, String),
}

/// The mathematical model of [`Expr`].
pub ghost enum ExprModel {
    Literal(LiteralModel),
    Unary(UnaryOp, Box<ExprModel>),
    Binary(Box<ExprModel>, BinaryOp, Box<ExprModel>),
    ExprList(Seq<ExprModel>),
    Between {
        expr: Box<ExprModel>,
        not: bool,
        low: Box<ExprModel>,
        high: Box<ExprModel>,
    },
    QualifiedColumn(Option<Seq<char>>, Option<Seq<char>>, Seq<char>),
}

/// The model of an expression: the same tree over the models of its parts.
pub open spec fn expr_model(e: Expr) -> ExprModel
    decreases e,
{
    match e {
        Expr::Literal(l) => ExprModel::Literal(l.deep_view()),
        Expr::Unary(op, rhs) => ExprModel::Unary(op, Box::new(expr_model(*rhs))),
        Expr::Binary(lhs, op, rhs) => ExprModel::Binary(
            Box::new(expr_model(*lhs)),
            op,
            Box::new(expr_model(*rhs)),
        ),
        Expr::ExprList(list) => ExprModel::ExprList(
            Seq::new(
                list@.len(),
                |i: int|
                    if 0 <= i < list@.len() {
                        expr_model(list@[i])
                    } else {
                        arbitrary()
                    },
            ),
        ),
        Expr::Between { expr, not, low, high } => ExprModel::Between {
            expr: Box::new(expr_model(*expr)),
            not,
            low: Box::new(expr_model(*low)),
            high: Box::new(expr_model(*high)),
        },
        Expr::QualifiedColumn(schema, table, column) => ExprModel::QualifiedColumn(
            schema.deep_view(),
            table.deep_view(),
            column@,
        ),
    }
}

impl DeepView for Expr {
    type V = ExprModel;

    open spec fn deep_view(&self) -> ExprModel {
        expr_model(*self)
    }
}

/// Copies an expression, part by part.
pub fn clone_expr(e: &Expr) -> (copy: Expr)
    ensures
        copy.deep_view() == e.deep_view(),
    decreases e,
{
    match e {
        Expr::Literal(l) => Expr::Literal(clone_literal(l)),
        Expr::Unary(op, rhs) => Expr::Unary(*op, Box::new(clone_expr(rhs))),
        Expr::Binary(lhs, op, rhs) => Expr::Binary(
            Box::new(clone_expr(lhs)),
            *op,
            Box::new(clone_expr(rhs)),
        ),
        Expr::ExprList(list) => {
            let copies = clone_exprs(list);
            proof {
                lemma_expr_list_model(*list);
                lemma_expr_list_model(copies);
            }
            Expr::ExprList(copies)
        },
        Expr::Between { expr, not, low, high } => Expr::Between {
            expr: Box::new(clone_expr(expr)),
            not: *not,
            low: Box::new(clone_expr(low)),
            high: Box::new(clone_expr(high)),
        },
        Expr::QualifiedColumn(schema, table, column) => Expr::QualifiedColumn(
            clone_name(schema),
            clone_name(table),
            column.clone(),
        ),
    }
}

/// Copies a list of expressions.
pub fn clone_exprs(list: &Vec<Expr>) -> (copies: Vec<Expr>)
    ensures
        copies.deep_view() == list.deep_view(),
    decreases list,
{
    let mut copies: Vec<Expr> = Vec::new();
    let mut i: usize = 0;
    while i < list.len()
        invariant
            i <= list.len(),
            copies.len() == i,
            forall|j: int| 0 <= j < i ==> copies@[j].deep_view() == list@[j].deep_view(),
        decreases list.len() - i,
    {
        copies.push(clone_expr(&list[i]));
        i += 1;
    }
    proof {
        assert(copies.deep_view() =~= list.deep_view());
    }
    copies
}

/// Copies an optional name.
pub fn clone_name(name: &Option<String>) -> (copy: Option<String>)
    ensures
        copy.deep_view() == name.deep_view(),
{
    match name {
        Some(text) => Some(text.clone()),
        None => None,
    }
}

/// Copies a literal.
pub fn clone_literal(l: &Literal) -> (copy: Literal)
    ensures
        copy.deep_view() == l.deep_view(),
{
    match l {
        Literal::Double(text) => Literal::Double(text.clone()),
        Literal::Decimal(text) => Literal::Decimal(text.clone()),
        Literal::Integer(text) => Literal::Integer(text.clone()),
        Literal::String(text) => Literal::String(text.clone()),
        Literal::Blob(text) => Literal::Blob(text.clone()),
        Literal::Null => Literal::Null,
        Literal::Bool(b) => Literal::Bool(*b),
    }
}

impl Clone for Literal {
    fn clone(&self) -> (copy: Literal)
        ensures
            copy.deep_view() == self.deep_view(),
    {
        clone_literal(self)
    }
}

impl Clone for Expr {
    fn clone(&self) -> (copy: Expr)
        ensures
            copy.deep_view() == self.deep_view(),
    {
        clone_expr(self)
    }
}

/// The model of a list of expressions is the list of their models.
pub proof fn lemma_expr_list_model(list: Vec<Expr>)
    ensures
        expr_model(Expr::ExprList(list)) == ExprModel::ExprList(list.deep_view()),
{
    let a = expr_model(Expr::ExprList(list))->ExprList_0;
    assert(a =~= list.deep_view());
}

/// The name of a table, index, view or trigger, with the schema it was
/// qualified by, if any.
#[derive(Clone, Debug, PartialEq)]
pub struct SchemaObject {
    pub schema_name: Option<String>,
    pub name: String,
}

/// The mathematical model of [`SchemaObject`].
pub ghost struct SchemaObjectModel {
    pub schema_name: Option<Seq<char>>,
    pub name: Seq<char>,
}

impl DeepView for SchemaObject {
    type V = SchemaObjectModel;

    open spec fn deep_view(&self) -> SchemaObjectModel {
        SchemaObjectModel {
            schema_name: self.schema_name.deep_view(),
            name: self.name.deep_view(),
        }
    }
}

/// What to do when a constraint is violated. `Abort` where none is written.
#[derive(Clone, Copy, Debug, PartialEq, Eq)]
pub enum ConflictResolution {
    Abort,
    Fail,
    Ignore,
    Replace,
    Rollback,
}

impl DeepView for ConflictResolution {
    type V = ConflictResolution;

    open spec fn deep_view(&self) -> ConflictResolution {
        *self
    }
}

} // verus!
