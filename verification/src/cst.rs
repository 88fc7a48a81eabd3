//! The concrete syntax tree that the grammar engine hands to the builders.
//!
//! A tree is made of [`Node`]s. Each node carries the tag of the grammar rule
//! that matched, the source text it matched, and its child nodes in source
//! order. The builders never look at anything else.

use vstd::prelude::*;

verus! {

/// The tag of a grammar rule. The set is closed: the builders match on it.
#[derive(Clone, Copy, Debug, PartialEq, Eq, Hash, Structural)]
pub enum Rule {
    Script,
    Stmt,
    BareIdent,
    QuotedIdent,
    Ident,
    Idents,
    SchemaObject,
    Number,
    StringLiteral,
    BlobLiteral,
    NullLiteral,
    TrueLiteral,
    FalseLiteral,
    Literal,
    LogicalOr,
    LogicalAnd,
    LogicalNot,
    IsNot,
    Is,
    Eq,
    Ne,
    Lt,
    Le,
    Gt,
    Ge,
    BitwiseAnd,
    BitwiseOr,
    RightShift,
    LeftShift,
    Plus,
    Minus,
    Mul,
    Div,
    Modulo,
    Concat,
    BitwiseNot,
    Positive,
    Negative,
    QualifiedColumn,
    Expr,
    Exprs,
    Asc,
    Desc,
    Temp,
    Unique,
    IfExists,
    IfNotExists,
    ConflictAbort,
    ConflictFail,
    ConflictIgnore,
    ConflictReplace,
    ConflictRollback,
    ConflictResolution,
    Begin,
    Deferred,
    Immediate,
    Exclusive,
    Commit,
    Rollback,
    Savepoint,
    Release,
    CreateTable,
    CreateTableBody,
    WithoutRowid,
    Strict,
    ColumnDefs,
    ColumnDef,
    ColumnConstraints,
    TypeName,
    TypeDecimal,
    TypeDouble,
    TypeInt,
    TypeString,
    TypeVarchar,
    TypeSize,
    ColumnConstraint,
    ColumnPrimaryKey,
    Autoincrement,
    ColumnNotNull,
    ColumnUnique,
    ColumnCheck,
    ColumnDefault,
    TableConstraints,
    TableConstraint,
    TablePrimaryKey,
    TableUnique,
    IndexedColumns,
    IndexedColumn,
    AlterTable,
    RenameTable,
    RenameColumn,
    AddColumn,
    DropColumn,
    DropTable,
    DropIndex,
    DropView,
    DropTrigger,
    CreateIndex,
    CreateView,
    CreateTrigger,
    Before,
    After,
    Instead,
    TriggerDelete,
    TriggerInsert,
    TriggerUpdate,
    WhenClause,
    Select,
    SelectQuery,
    SelectValues,
    ValueRows,
    Distinct,
    All,
    CompoundOperator,
    UnionAll,
    Union,
    Intersect,
    Except,
    ResultColumns,
    ResultColumn,
    ResultExpr,
    Star,
    FromClause,
    FromTables,
    FromJoin,
    QualifiedTable,
    IndexedBy,
    NotIndexed,
    JoinClause,
    JoinSubClause,
    JoinOperator,
    JoinComma,
    JoinCross,
    JoinQualified,
    Natural,
    Inner,
    Left,
    Right,
    Full,
    JoinConstraint,
    OrderingTerms,
    OrderingTerm,
    First,
    Last,
    Insert,
    InsertInto,
    ReplaceInto,
    InsertValues,
    InsertSelect,
    InsertDefault,
    Returning,
    ReturnStar,
    ReturnExpr,
    UpsertSubClause,
    ConflictColumns,
    UpsertNothing,
    UpsertUpdate,
    SetClause,
    SetSubClause,
    Update,
    Delete,
}

/// A node of the concrete syntax tree.
#[derive(Debug, PartialEq, Eq)]
pub struct Node {
    /// The grammar rule that produced this node.
    pub rule: Rule,
    /// The source text that the rule matched.
    pub text: String,
    /// The nodes of the rules matched inside this one, in source order.
    pub children: Vec<Node>,
}

/// The mathematical model of a [`Node`].
pub ghost struct Cst {
    pub rule: Rule,
    pub text: Seq<char>,
    pub children: Seq<Cst>,
}

/// The model of a node: its tag, its text and the models of its children.
pub open spec fn node_model(node: Node) -> Cst
    decreases node,
{
    Cst {
        rule: node.rule,
        text: node.text@,
        children: Seq::new(
            node.children@.len(),
            |i: int|
                if 0 <= i < node.children@.len() {
                    node_model(node.children@[i])
                } else {
                    arbitrary()
                },
        ),
    }
}

impl DeepView for Node {
    type V = Cst;

    open spec fn deep_view(&self) -> Cst {
        node_model(*self)
    }
}

/// The model of a list of nodes: the models of its elements, in order.
pub open spec fn forest(nodes: Seq<Node>) -> Seq<Cst> {
    Seq::new(nodes.len(), |i: int| nodes[i].deep_view())
}

/// A node's model holds the node's tag and text and the models of its children.
pub proof fn lemma_node_model(node: Node)
    ensures
        node.deep_view() == (Cst {
            rule: node.rule,
            text: node.text@,
            children: forest(node.children@),
        }),
{
    let model = node.deep_view();
    assert(model.children =~= forest(node.children@));
}

impl Node {
    /// The tag of this node.
    pub fn rule(&self) -> (rule: Rule)
        ensures
            rule == self.deep_view().rule,
    {
        proof {
            lemma_node_model(*self);
        }
        self.rule
    }

    /// The source text of this node.
    pub fn text(&self) -> (text: &str)
        ensures
            text@ == self.deep_view().text,
    {
        proof {
            lemma_node_model(*self);
        }
        self.text.as_str()
    }

    /// The number of children of this node.
    pub fn len(&self) -> (len: usize)
        ensures
            len == self.deep_view().children.len(),
    {
        proof {
            lemma_node_model(*self);
        }
        self.children.len()
    }

    /// The child at position `i`.
    pub fn child(&self, i: usize) -> (child: &Node)
        requires
            i < self.deep_view().children.len(),
        ensures
            child.deep_view() == self.deep_view().children[i as int],
    {
        proof {
            lemma_node_model(*self);
        }
        &self.children[i]
    }
}

/// Copies a tree, node by node.
pub fn clone_node(node: &Node) -> (copy: Node)
    ensures
        copy.deep_view() == node.deep_view(),
    decreases node,
{
    let children = clone_nodes(&node.children);
    let copy = Node { rule: node.rule, text: node.text.clone(), children };
    proof {
        lemma_node_model(*node);
        lemma_node_model(copy);
        assert(forest(copy.children@) =~= forest(node.children@));
    }
    copy
}

/// Copies a list of trees.
pub fn clone_nodes(nodes: &Vec<Node>) -> (copies: Vec<Node>)
    ensures
        copies.deep_view() == nodes.deep_view(),
    decreases nodes,
{
    let mut copies: Vec<Node> = Vec::new();
    let mut i: usize = 0;
    while i < nodes.len()
        invariant
            i <= nodes.len(),
            copies.len() == i,
            forall|j: int| 0 <= j < i ==> copies@[j].deep_view() == nodes@[j].deep_view(),
        decreases nodes.len() - i,
    {
        copies.push(clone_node(&nodes[i]));
        i += 1;
    }
    proof {
        assert(copies.deep_view() =~= nodes.deep_view());
    }
    copies
}

impl Clone for Node {
    fn clone(&self) -> (copy: Node)
        ensures
            copy.deep_view() == self.deep_view(),
    {
        clone_node(self)
    }
}

/// The name that the grammar gives to a rule.
pub open spec fn rule_name(rule: Rule) -> Seq<char> {
    match rule {
        Rule::Script => "script"@,
        Rule::Stmt => "stmt"@,
        Rule::BareIdent => "bare_ident"@,
        Rule::QuotedIdent => "quoted_ident"@,
        Rule::Ident => "ident"@,
        Rule::Idents => "idents"@,
        Rule::SchemaObject => "schema_object"@,
        Rule::Number => "number"@,
        Rule::StringLiteral => "string_literal"@,
        Rule::BlobLiteral => "blob_literal"@,
        Rule::NullLiteral => "null_literal"@,
        Rule::TrueLiteral => "true_literal"@,
        Rule::FalseLiteral => "false_literal"@,
        Rule::Literal => "literal"@,
        Rule::LogicalOr => "logical_or"@,
        Rule::LogicalAnd => "logical_and"@,
        Rule::LogicalNot => "logical_not"@,
        Rule::IsNot => "is_not"@,
        Rule::Is => "is"@,
        Rule::Eq => "eq"@,
        Rule::Ne => "ne"@,
        Rule::Lt => "lt"@,
        Rule::Le => "le"@,
        Rule::Gt => "gt"@,
        Rule::Ge => "ge"@,
        Rule::BitwiseAnd => "bitwise_and"@,
        Rule::BitwiseOr => "bitwise_or"@,
        Rule::RightShift => "right_shift"@,
        Rule::LeftShift => "left_shift"@,
        Rule::Plus => "plus"@,
        Rule::Minus => "minus"@,
        Rule::Mul => "mul"@,
        Rule::Div => "div"@,
        Rule::Modulo => "modulo"@,
        Rule::Concat => "concat"@,
        Rule::BitwiseNot => "bitwise_not"@,
        Rule::Positive => "positive"@,
        Rule::Negative => "negative"@,
        Rule::QualifiedColumn => "qualified_column"@,
        Rule::Expr => "expr"@,
        Rule::Exprs => "exprs"@,
        Rule::Asc => "asc"@,
        Rule::Desc => "desc"@,
        Rule::Temp => "temp"@,
        Rule::Unique => "unique"@,
        Rule::IfExists => "if_exists"@,
        Rule::IfNotExists => "if_not_exists"@,
        Rule::ConflictAbort => "conflict_abort"@,
        Rule::ConflictFail => "conflict_fail"@,
        Rule::ConflictIgnore => "conflict_ignore"@,
        Rule::ConflictReplace => "conflict_replace"@,
        Rule::ConflictRollback => "conflict_rollback"@,
        Rule::ConflictResolution => "conflict_resolution"@,
        Rule::Begin => "begin"@,
        Rule::Deferred => "deferred"@,
        Rule::Immediate => "immediate"@,
        Rule::Exclusive => "exclusive"@,
        Rule::Commit => "commit"@,
        Rule::Rollback => "rollback"@,
        Rule::Savepoint => "savepoint"@,
        Rule::Release => "release"@,
        Rule::CreateTable => "create_table"@,
        Rule::CreateTableBody => "create_table_body"@,
        Rule::WithoutRowid => "without_rowid"@,
        Rule::Strict => "strict"@,
        Rule::ColumnDefs => "column_defs"@,
        Rule::ColumnDef => "column_def"@,
        Rule::ColumnConstraints => "column_constraints"@,
        Rule::TypeName => "type_name"@,
        Rule::TypeDecimal => "type_decimal"@,
        Rule::TypeDouble => "type_double"@,
        Rule::TypeInt => "type_int"@,
        Rule::TypeString => "type_string"@,
        Rule::TypeVarchar => "type_varchar"@,
        Rule::TypeSize => "type_size"@,
        Rule::ColumnConstraint => "column_constraint"@,
        Rule::ColumnPrimaryKey => "column_primary_key"@,
        Rule::Autoincrement => "autoincrement"@,
        Rule::ColumnNotNull => "column_not_null"@,
        Rule::ColumnUnique => "column_unique"@,
        Rule::ColumnCheck => "column_check"@,
        Rule::ColumnDefault => "column_default"@,
        Rule::TableConstraints => "table_constraints"@,
        Rule::TableConstraint => "table_constraint"@,
        Rule::TablePrimaryKey => "table_primary_key"@,
        Rule::TableUnique => "table_unique"@,
        Rule::IndexedColumns => "indexed_columns"@,
        Rule::IndexedColumn => "indexed_column"@,
        Rule::AlterTable => "alter_table"@,
        Rule::RenameTable => "rename_table"@,
        Rule::RenameColumn => "rename_column"@,
        Rule::AddColumn => "add_column"@,
        Rule::DropColumn => "drop_column"@,
        Rule::DropTable => "drop_table"@,
        Rule::DropIndex => "drop_index"@,
        Rule::DropView => "drop_view"@,
        Rule::DropTrigger => "drop_trigger"@,
        Rule::CreateIndex => "create_index"@,
        Rule::CreateView => "create_view"@,
        Rule::CreateTrigger => "create_trigger"@,
        Rule::Before => "before"@,
        Rule::After => "after"@,
        Rule::Instead => "instead"@,
        Rule::TriggerDelete => "trigger_delete"@,
        Rule::TriggerInsert => "trigger_insert"@,
        Rule::TriggerUpdate => "trigger_update"@,
        Rule::WhenClause => "when_clause"@,
        Rule::Select => "select"@,
        Rule::SelectQuery => "select_query"@,
        Rule::SelectValues => "select_values"@,
        Rule::ValueRows => "value_rows"@,
        Rule::Distinct => "distinct"@,
        Rule::All => "all"@,
        Rule::CompoundOperator => "compound_operator"@,
        Rule::UnionAll => "union_all"@,
        Rule::Union => "union"@,
        Rule::Intersect => "intersect"@,
        Rule::Except => "except"@,
        Rule::ResultColumns => "result_columns"@,
        Rule::ResultColumn => "result_column"@,
        Rule::ResultExpr => "result_expr"@,
        Rule::Star => "star"@,
        Rule::FromClause => "from_clause"@,
        Rule::FromTables => "from_tables"@,
        Rule::FromJoin => "from_join"@,
        Rule::QualifiedTable => "qualified_table"@,
        Rule::IndexedBy => "indexed_by"@,
        Rule::NotIndexed => "not_indexed"@,
        Rule::JoinClause => "join_clause"@,
        Rule::JoinSubClause => "join_sub_clause"@,
        Rule::JoinOperator => "join_operator"@,
        Rule::JoinComma => "join_comma"@,
        Rule::JoinCross => "join_cross"@,
        Rule::JoinQualified => "join_qualified"@,
        Rule::Natural => "natural"@,
        Rule::Inner => "inner"@,
        Rule::Left => "left"@,
        Rule::Right => "right"@,
        Rule::Full => "full"@,
        Rule::JoinConstraint => "join_constraint"@,
        Rule::OrderingTerms => "ordering_terms"@,
        Rule::OrderingTerm => "ordering_term"@,
        Rule::First => "first"@,
        Rule::Last => "last"@,
        Rule::Insert => "insert"@,
        Rule::InsertInto => "insert_into"@,
        Rule::ReplaceInto => "replace_into"@,
        Rule::InsertValues => "insert_values"@,
        Rule::InsertSelect => "insert_select"@,
        Rule::InsertDefault => "insert_default"@,
        Rule::Returning => "returning"@,
        Rule::ReturnStar => "return_star"@,
        Rule::ReturnExpr => "return_expr"@,
        Rule::UpsertSubClause => "upsert_sub_clause"@,
        Rule::ConflictColumns => "conflict_columns"@,
        Rule::UpsertNothing => "upsert_nothing"@,
        Rule::UpsertUpdate => "upsert_update"@,
        Rule::SetClause => "set_clause"@,
        Rule::SetSubClause => "set_sub_clause"@,
        Rule::Update => "update"@,
        Rule::Delete => "delete"@,
    }
}

/// The rule that the grammar calls `name`, if there is one.
pub open spec fn rule_named(name: Seq<char>) -> Option<Rule> {
    if name == "script"@ {
        Some(Rule::Script)
    } else if name == "stmt"@ {
        Some(Rule::Stmt)
    } else if name == "bare_ident"@ {
        Some(Rule::BareIdent)
    } else if name == "quoted_ident"@ {
        Some(Rule::QuotedIdent)
    } else if name == "ident"@ {
        Some(Rule::Ident)
    } else if name == "idents"@ {
        Some(Rule::Idents)
    } else if name == "schema_object"@ {
        Some(Rule::SchemaObject)
    } else if name == "number"@ {
        Some(Rule::Number)
    } else if name == "string_literal"@ {
        Some(Rule::StringLiteral)
    } else if name == "blob_literal"@ {
        Some(Rule::BlobLiteral)
    } else if name == "null_literal"@ {
        Some(Rule::NullLiteral)
    } else if name == "true_literal"@ {
        Some(Rule::TrueLiteral)
    } else if name == "false_literal"@ {
        Some(Rule::FalseLiteral)
    } else if name == "literal"@ {
        Some(Rule::Literal)
    } else if name == "logical_or"@ {
        Some(Rule::LogicalOr)
    } else if name == "logical_and"@ {
        Some(Rule::LogicalAnd)
    } else if name == "logical_not"@ {
        Some(Rule::LogicalNot)
    } else if name == "is_not"@ {
        Some(Rule::IsNot)
    } else if name == "is"@ {
        Some(Rule::Is)
    } else if name == "eq"@ {
        Some(Rule::Eq)
    } else if name == "ne"@ {
        Some(Rule::Ne)
    } else if name == "lt"@ {
        Some(Rule::Lt)
    } else if name == "le"@ {
        Some(Rule::Le)
    } else if name == "gt"@ {
        Some(Rule::Gt)
    } else if name == "ge"@ {
        Some(Rule::Ge)
    } else if name == "bitwise_and"@ {
        Some(Rule::BitwiseAnd)
    } else if name == "bitwise_or"@ {
        Some(Rule::BitwiseOr)
    } else if name == "right_shift"@ {
        Some(Rule::RightShift)
    } else if name == "left_shift"@ {
        Some(Rule::LeftShift)
    } else if name == "plus"@ {
        Some(Rule::Plus)
    } else if name == "minus"@ {
        Some(Rule::Minus)
    } else if name == "mul"@ {
        Some(Rule::Mul)
    } else if name == "div"@ {
        Some(Rule::Div)
    } else if name == "modulo"@ {
        Some(Rule::Modulo)
    } else if name == "concat"@ {
        Some(Rule::Concat)
    } else if name == "bitwise_not"@ {
        Some(Rule::BitwiseNot)
    } else if name == "positive"@ {
        Some(Rule::Positive)
    } else if name == "negative"@ {
        Some(Rule::Negative)
    } else if name == "qualified_column"@ {
        Some(Rule::QualifiedColumn)
    } else if name == "expr"@ {
        Some(Rule::Expr)
    } else if name == "exprs"@ {
        Some(Rule::Exprs)
    } else if name == "asc"@ {
        Some(Rule::Asc)
    } else if name == "desc"@ {
        Some(Rule::Desc)
    } else if name == "temp"@ {
        Some(Rule::Temp)
    } else if name == "unique"@ {
        Some(Rule::Unique)
    } else if name == "if_exists"@ {
        Some(Rule::IfExists)
    } else if name == "if_not_exists"@ {
        Some(Rule::IfNotExists)
    } else if name == "conflict_abort"@ {
        Some(Rule::ConflictAbort)
    } else if name == "conflict_fail"@ {
        Some(Rule::ConflictFail)
    } else if name == "conflict_ignore"@ {
        Some(Rule::ConflictIgnore)
    } else if name == "conflict_replace"@ {
        Some(Rule::ConflictReplace)
    } else if name == "conflict_rollback"@ {
        Some(Rule::ConflictRollback)
    } else if name == "conflict_resolution"@ {
        Some(Rule::ConflictResolution)
    } else if name == "begin"@ {
        Some(Rule::Begin)
    } else if name == "deferred"@ {
        Some(Rule::Deferred)
    } else if name == "immediate"@ {
        Some(Rule::Immediate)
    } else if name == "exclusive"@ {
        Some(Rule::Exclusive)
    } else if name == "commit"@ {
        Some(Rule::Commit)
    } else if name == "rollback"@ {
        Some(Rule::Rollback)
    } else if name == "savepoint"@ {
        Some(Rule::Savepoint)
    } else if name == "release"@ {
        Some(Rule::Release)
    } else if name == "create_table"@ {
        Some(Rule::CreateTable)
    } else if name == "create_table_body"@ {
        Some(Rule::CreateTableBody)
    } else if name == "without_rowid"@ {
        Some(Rule::WithoutRowid)
    } else if name == "strict"@ {
        Some(Rule::Strict)
    } else if name == "column_defs"@ {
        Some(Rule::ColumnDefs)
    } else if name == "column_def"@ {
        Some(Rule::ColumnDef)
    } else if name == "column_constraints"@ {
        Some(Rule::ColumnConstraints)
    } else if name == "type_name"@ {
        Some(Rule::TypeName)
    } else if name == "type_decimal"@ {
        Some(Rule::TypeDecimal)
    } else if name == "type_double"@ {
        Some(Rule::TypeDouble)
    } else if name == "type_int"@ {
        Some(Rule::TypeInt)
    } else if name == "type_string"@ {
        Some(Rule::TypeString)
    } else if name == "type_varchar"@ {
        Some(Rule::TypeVarchar)
    } else if name == "type_size"@ {
        Some(Rule::TypeSize)
    } else if name == "column_constraint"@ {
        Some(Rule::ColumnConstraint)
    } else if name == "column_primary_key"@ {
        Some(Rule::ColumnPrimaryKey)
    } else if name == "autoincrement"@ {
        Some(Rule::Autoincrement)
    } else if name == "column_not_null"@ {
        Some(Rule::ColumnNotNull)
    } else if name == "column_unique"@ {
        Some(Rule::ColumnUnique)
    } else if name == "column_check"@ {
        Some(Rule::ColumnCheck)
    } else if name == "column_default"@ {
        Some(Rule::ColumnDefault)
    } else if name == "table_constraints"@ {
        Some(Rule::TableConstraints)
    } else if name == "table_constraint"@ {
        Some(Rule::TableConstraint)
    } else if name == "table_primary_key"@ {
        Some(Rule::TablePrimaryKey)
    } else if name == "table_unique"@ {
        Some(Rule::TableUnique)
    } else if name == "indexed_columns"@ {
        Some(Rule::IndexedColumns)
    } else if name == "indexed_column"@ {
        Some(Rule::IndexedColumn)
    } else if name == "alter_table"@ {
        Some(Rule::AlterTable)
    } else if name == "rename_table"@ {
        Some(Rule::RenameTable)
    } else if name == "rename_column"@ {
        Some(Rule::RenameColumn)
    } else if name == "add_column"@ {
        Some(Rule::AddColumn)
    } else if name == "drop_column"@ {
        Some(Rule::DropColumn)
    } else if name == "drop_table"@ {
        Some(Rule::DropTable)
    } else if name == "drop_index"@ {
        Some(Rule::DropIndex)
    } else if name == "drop_view"@ {
        Some(Rule::DropView)
    } else if name == "drop_trigger"@ {
        Some(Rule::DropTrigger)
    } else if name == "create_index"@ {
        Some(Rule::CreateIndex)
    } else if name == "create_view"@ {
        Some(Rule::CreateView)
    } else if name == "create_trigger"@ {
        Some(Rule::CreateTrigger)
    } else if name == "before"@ {
        Some(Rule::Before)
    } else if name == "after"@ {
        Some(Rule::After)
    } else if name == "instead"@ {
        Some(Rule::Instead)
    } else if name == "trigger_delete"@ {
        Some(Rule::TriggerDelete)
    } else if name == "trigger_insert"@ {
        Some(Rule::TriggerInsert)
    } else if name == "trigger_update"@ {
        Some(Rule::TriggerUpdate)
    } else if name == "when_clause"@ {
        Some(Rule::WhenClause)
    } else if name == "select"@ {
        Some(Rule::Select)
    } else if name == "select_query"@ {
        Some(Rule::SelectQuery)
    } else if name == "select_values"@ {
        Some(Rule::SelectValues)
    } else if name == "value_rows"@ {
        Some(Rule::ValueRows)
    } else if name == "distinct"@ {
        Some(Rule::Distinct)
    } else if name == "all"@ {
        Some(Rule::All)
    } else if name == "compound_operator"@ {
        Some(Rule::CompoundOperator)
    } else if name == "union_all"@ {
        Some(Rule::UnionAll)
    } else if name == "union"@ {
        Some(Rule::Union)
    } else if name == "intersect"@ {
        Some(Rule::Intersect)
    } else if name == "except"@ {
        Some(Rule::Except)
    } else if name == "result_columns"@ {
        Some(Rule::ResultColumns)
    } else if name == "result_column"@ {
        Some(Rule::ResultColumn)
    } else if name == "result_expr"@ {
        Some(Rule::ResultExpr)
    } else if name == "star"@ {
        Some(Rule::Star)
    } else if name == "from_clause"@ {
        Some(Rule::FromClause)
    } else if name == "from_tables"@ {
        Some(Rule::FromTables)
    } else if name == "from_join"@ {
        Some(Rule::FromJoin)
    } else if name == "qualified_table"@ {
        Some(Rule::QualifiedTable)
    } else if name == "indexed_by"@ {
        Some(Rule::IndexedBy)
    } else if name == "not_indexed"@ {
        Some(Rule::NotIndexed)
    } else if name == "join_clause"@ {
        Some(Rule::JoinClause)
    } else if name == "join_sub_clause"@ {
        Some(Rule::JoinSubClause)
    } else if name == "join_operator"@ {
        Some(Rule::JoinOperator)
    } else if name == "join_comma"@ {
        Some(Rule::JoinComma)
    } else if name == "join_cross"@ {
        Some(Rule::JoinCross)
    } else if name == "join_qualified"@ {
        Some(Rule::JoinQualified)
    } else if name == "natural"@ {
        Some(Rule::Natural)
    } else if name == "inner"@ {
        Some(Rule::Inner)
    } else if name == "left"@ {
        Some(Rule::Left)
    } else if name == "right"@ {
        Some(Rule::Right)
    } else if name == "full"@ {
        Some(Rule::Full)
    } else if name == "join_constraint"@ {
        Some(Rule::JoinConstraint)
    } else if name == "ordering_terms"@ {
        Some(Rule::OrderingTerms)
    } else if name == "ordering_term"@ {
        Some(Rule::OrderingTerm)
    } else if name == "first"@ {
        Some(Rule::First)
    } else if name == "last"@ {
        Some(Rule::Last)
    } else if name == "insert"@ {
        Some(Rule::Insert)
    } else if name == "insert_into"@ {
        Some(Rule::InsertInto)
    } else if name == "replace_into"@ {
        Some(Rule::ReplaceInto)
    } else if name == "insert_values"@ {
        Some(Rule::InsertValues)
    } else if name == "insert_select"@ {
        Some(Rule::InsertSelect)
    } else if name == "insert_default"@ {
        Some(Rule::InsertDefault)
    } else if name == "returning"@ {
        Some(Rule::Returning)
    } else if name == "return_star"@ {
        Some(Rule::ReturnStar)
    } else if name == "return_expr"@ {
        Some(Rule::ReturnExpr)
    } else if name == "upsert_sub_clause"@ {
        Some(Rule::UpsertSubClause)
    } else if name == "conflict_columns"@ {
        Some(Rule::ConflictColumns)
    } else if name == "upsert_nothing"@ {
        Some(Rule::UpsertNothing)
    } else if name == "upsert_update"@ {
        Some(Rule::UpsertUpdate)
    } else if name == "set_clause"@ {
        Some(Rule::SetClause)
    } else if name == "set_sub_clause"@ {
        Some(Rule::SetSubClause)
    } else if name == "update"@ {
        Some(Rule::Update)
    } else if name == "delete"@ {
        Some(Rule::Delete)
    } else {
        None
    }
}

/// A rule that a name finds is a rule of that name.
pub proof fn lemma_rule_named(name: Seq<char>)
    ensures
        rule_named(name) matches Some(rule) ==> rule_name(rule) == name,
{
}

impl Rule {
    /// The name that the grammar gives to this rule.
    pub fn name(self) -> (name: &'static str)
        ensures
            name@ == rule_name(self),
    {
        match self {
            Rule::Script => "script",
            Rule::Stmt => "stmt",
            Rule::BareIdent => "bare_ident",
            Rule::QuotedIdent => "quoted_ident",
            Rule::Ident => "ident",
            Rule::Idents => "idents",
            Rule::SchemaObject => "schema_object",
            Rule::Number => "number",
            Rule::StringLiteral => "string_literal",
            Rule::BlobLiteral => "blob_literal",
            Rule::NullLiteral => "null_literal",
            Rule::TrueLiteral => "true_literal",
            Rule::FalseLiteral => "false_literal",
            Rule::Literal => "literal",
            Rule::LogicalOr => "logical_or",
            Rule::LogicalAnd => "logical_and",
            Rule::LogicalNot => "logical_not",
            Rule::IsNot => "is_not",
            Rule::Is => "is",
            Rule::Eq => "eq",
            Rule::Ne => "ne",
            Rule::Lt => "lt",
            Rule::Le => "le",
            Rule::Gt => "gt",
            Rule::Ge => "ge",
            Rule::BitwiseAnd => "bitwise_and",
            Rule::BitwiseOr => "bitwise_or",
            Rule::RightShift => "right_shift",
            Rule::LeftShift => "left_shift",
            Rule::Plus => "plus",
            Rule::Minus => "minus",
            Rule::Mul => "mul",
            Rule::Div => "div",
            Rule::Modulo => "modulo",
            Rule::Concat => "concat",
            Rule::BitwiseNot => "bitwise_not",
            Rule::Positive => "positive",
            Rule::Negative => "negative",
            Rule::QualifiedColumn => "qualified_column",
            Rule::Expr => "expr",
            Rule::Exprs => "exprs",
            Rule::Asc => "asc",
            Rule::Desc => "desc",
            Rule::Temp => "temp",
            Rule::Unique => "unique",
            Rule::IfExists => "if_exists",
            Rule::IfNotExists => "if_not_exists",
            Rule::ConflictAbort => "conflict_abort",
            Rule::ConflictFail => "conflict_fail",
            Rule::ConflictIgnore => "conflict_ignore",
            Rule::ConflictReplace => "conflict_replace",
            Rule::ConflictRollback => "conflict_rollback",
            Rule::ConflictResolution => "conflict_resolution",
            Rule::Begin => "begin",
            Rule::Deferred => "deferred",
            Rule::Immediate => "immediate",
            Rule::Exclusive => "exclusive",
            Rule::Commit => "commit",
            Rule::Rollback => "rollback",
            Rule::Savepoint => "savepoint",
            Rule::Release => "release",
            Rule::CreateTable => "create_table",
            Rule::CreateTableBody => "create_table_body",
            Rule::WithoutRowid => "without_rowid",
            Rule::Strict => "strict",
            Rule::ColumnDefs => "column_defs",
            Rule::ColumnDef => "column_def",
            Rule::ColumnConstraints => "column_constraints",
            Rule::TypeName => "type_name",
            Rule::TypeDecimal => "type_decimal",
            Rule::TypeDouble => "type_double",
            Rule::TypeInt => "type_int",
            Rule::TypeString => "type_string",
            Rule::TypeVarchar => "type_varchar",
            Rule::TypeSize => "type_size",
            Rule::ColumnConstraint => "column_constraint",
            Rule::ColumnPrimaryKey => "column_primary_key",
            Rule::Autoincrement => "autoincrement",
            Rule::ColumnNotNull => "column_not_null",
            Rule::ColumnUnique => "column_unique",
            Rule::ColumnCheck => "column_check",
            Rule::ColumnDefault => "column_default",
            Rule::TableConstraints => "table_constraints",
            Rule::TableConstraint => "table_constraint",
            Rule::TablePrimaryKey => "table_primary_key",
            Rule::TableUnique => "table_unique",
            Rule::IndexedColumns => "indexed_columns",
            Rule::IndexedColumn => "indexed_column",
            Rule::AlterTable => "alter_table",
            Rule::RenameTable => "rename_table",
            Rule::RenameColumn => "rename_column",
            Rule::AddColumn => "add_column",
            Rule::DropColumn => "drop_column",
            Rule::DropTable => "drop_table",
            Rule::DropIndex => "drop_index",
            Rule::DropView => "drop_view",
            Rule::DropTrigger => "drop_trigger",
            Rule::CreateIndex => "create_index",
            Rule::CreateView => "create_view",
            Rule::CreateTrigger => "create_trigger",
            Rule::Before => "before",
            Rule::After => "after",
            Rule::Instead => "instead",
            Rule::TriggerDelete => "trigger_delete",
            Rule::TriggerInsert => "trigger_insert",
            Rule::TriggerUpdate => "trigger_update",
            Rule::WhenClause => "when_clause",
            Rule::Select => "select",
            Rule::SelectQuery => "select_query",
            Rule::SelectValues => "select_values",
            Rule::ValueRows => "value_rows",
            Rule::Distinct => "distinct",
            Rule::All => "all",
            Rule::CompoundOperator => "compound_operator",
            Rule::UnionAll => "union_all",
            Rule::Union => "union",
            Rule::Intersect => "intersect",
            Rule::Except => "except",
            Rule::ResultColumns => "result_columns",
            Rule::ResultColumn => "result_column",
            Rule::ResultExpr => "result_expr",
            Rule::Star => "star",
            Rule::FromClause => "from_clause",
            Rule::FromTables => "from_tables",
            Rule::FromJoin => "from_join",
            Rule::QualifiedTable => "qualified_table",
            Rule::IndexedBy => "indexed_by",
            Rule::NotIndexed => "not_indexed",
            Rule::JoinClause => "join_clause",
            Rule::JoinSubClause => "join_sub_clause",
            Rule::JoinOperator => "join_operator",
            Rule::JoinComma => "join_comma",
            Rule::JoinCross => "join_cross",
            Rule::JoinQualified => "join_qualified",
            Rule::Natural => "natural",
            Rule::Inner => "inner",
            Rule::Left => "left",
            Rule::Right => "right",
            Rule::Full => "full",
            Rule::JoinConstraint => "join_constraint",
            Rule::OrderingTerms => "ordering_terms",
            Rule::OrderingTerm => "ordering_term",
            Rule::First => "first",
            Rule::Last => "last",
            Rule::Insert => "insert",
            Rule::InsertInto => "insert_into",
            Rule::ReplaceInto => "replace_into",
            Rule::InsertValues => "insert_values",
            Rule::InsertSelect => "insert_select",
            Rule::InsertDefault => "insert_default",
            Rule::Returning => "returning",
            Rule::ReturnStar => "return_star",
            Rule::ReturnExpr => "return_expr",
            Rule::UpsertSubClause => "upsert_sub_clause",
            Rule::ConflictColumns => "conflict_columns",
            Rule::UpsertNothing => "upsert_nothing",
            Rule::UpsertUpdate => "upsert_update",
            Rule::SetClause => "set_clause",
            Rule::SetSubClause => "set_sub_clause",
            Rule::Update => "update",
            Rule::Delete => "delete",
        }
    }

    /// Looks a rule up by the name that the grammar gives it.
    pub fn from_name(name: &str) -> (rule: Option<Rule>)
        ensures
            rule == rule_named(name@),
    {
        if same_text(name, "script") {
            Some(Rule::Script)
        } else if same_text(name, "stmt") {
            Some(Rule::Stmt)
        } else if same_text(name, "bare_ident") {
            Some(Rule::BareIdent)
        } else if same_text(name, "quoted_ident") {
            Some(Rule::QuotedIdent)
        } else if same_text(name, "ident") {
            Some(Rule::Ident)
        } else if same_text(name, "idents") {
            Some(Rule::Idents)
        } else if same_text(name, "schema_object") {
            Some(Rule::SchemaObject)
        } else if same_text(name, "number") {
            Some(Rule::Number)
        } else if same_text(name, "string_literal") {
            Some(Rule::StringLiteral)
        } else if same_text(name, "blob_literal") {
            Some(Rule::BlobLiteral)
        } else if same_text(name, "null_literal") {
            Some(Rule::NullLiteral)
        } else if same_text(name, "true_literal") {
            Some(Rule::TrueLiteral)
        } else if same_text(name, "false_literal") {
            Some(Rule::FalseLiteral)
        } else if same_text(name, "literal") {
            Some(Rule::Literal)
        } else if same_text(name, "logical_or") {
            Some(Rule::LogicalOr)
        } else if same_text(name, "logical_and") {
            Some(Rule::LogicalAnd)
        } else if same_text(name, "logical_not") {
            Some(Rule::LogicalNot)
        } else if same_text(name, "is_not") {
            Some(Rule::IsNot)
        } else if same_text(name, "is") {
            Some(Rule::Is)
        } else if same_text(name, "eq") {
            Some(Rule::Eq)
        } else if same_text(name, "ne") {
            Some(Rule::Ne)
        } else if same_text(name, "lt") {
            Some(Rule::Lt)
        } else if same_text(name, "le") {
            Some(Rule::Le)
        } else if same_text(name, "gt") {
            Some(Rule::Gt)
        } else if same_text(name, "ge") {
            Some(Rule::Ge)
        } else if same_text(name, "bitwise_and") {
            Some(Rule::BitwiseAnd)
        } else if same_text(name, "bitwise_or") {
            Some(Rule::BitwiseOr)
        } else if same_text(name, "right_shift") {
            Some(Rule::RightShift)
        } else if same_text(name, "left_shift") {
            Some(Rule::LeftShift)
        } else if same_text(name, "plus") {
            Some(Rule::Plus)
        } else if same_text(name, "minus") {
            Some(Rule::Minus)
        } else if same_text(name, "mul") {
            Some(Rule::Mul)
        } else if same_text(name, "div") {
            Some(Rule::Div)
        } else if same_text(name, "modulo") {
            Some(Rule::Modulo)
        } else if same_text(name, "concat") {
            Some(Rule::Concat)
        } else if same_text(name, "bitwise_not") {
            Some(Rule::BitwiseNot)
        } else if same_text(name, "positive") {
            Some(Rule::Positive)
        } else if same_text(name, "negative") {
            Some(Rule::Negative)
        } else if same_text(name, "qualified_column") {
            Some(Rule::QualifiedColumn)
        } else if same_text(name, "expr") {
            Some(Rule::Expr)
        } else if same_text(name, "exprs") {
            Some(Rule::Exprs)
        } else if same_text(name, "asc") {
            Some(Rule::Asc)
        } else if same_text(name, "desc") {
            Some(Rule::Desc)
        } else if same_text(name, "temp") {
            Some(Rule::Temp)
        } else if same_text(name, "unique") {
            Some(Rule::Unique)
        } else if same_text(name, "if_exists") {
            Some(Rule::IfExists)
        } else if same_text(name, "if_not_exists") {
            Some(Rule::IfNotExists)
        } else if same_text(name, "conflict_abort") {
            Some(Rule::ConflictAbort)
        } else if same_text(name, "conflict_fail") {
            Some(Rule::ConflictFail)
        } else if same_text(name, "conflict_ignore") {
            Some(Rule::ConflictIgnore)
        } else if same_text(name, "conflict_replace") {
            Some(Rule::ConflictReplace)
        } else if same_text(name, "conflict_rollback") {
            Some(Rule::ConflictRollback)
        } else if same_text(name, "conflict_resolution") {
            Some(Rule::ConflictResolution)
        } else if same_text(name, "begin") {
            Some(Rule::Begin)
        } else if same_text(name, "deferred") {
            Some(Rule::Deferred)
        } else if same_text(name, "immediate") {
            Some(Rule::Immediate)
        } else if same_text(name, "exclusive") {
            Some(Rule::Exclusive)
        } else if same_text(name, "commit") {
            Some(Rule::Commit)
        } else if same_text(name, "rollback") {
            Some(Rule::Rollback)
        } else if same_text(name, "savepoint") {
            Some(Rule::Savepoint)
        } else if same_text(name, "release") {
            Some(Rule::Release)
        } else if same_text(name, "create_table") {
            Some(Rule::CreateTable)
        } else if same_text(name, "create_table_body") {
            Some(Rule::CreateTableBody)
        } else if same_text(name, "without_rowid") {
            Some(Rule::WithoutRowid)
        } else if same_text(name, "strict") {
            Some(Rule::Strict)
        } else if same_text(name, "column_defs") {
            Some(Rule::ColumnDefs)
        } else if same_text(name, "column_def") {
            Some(Rule::ColumnDef)
        } else if same_text(name, "column_constraints") {
            Some(Rule::ColumnConstraints)
        } else if same_text(name, "type_name") {
            Some(Rule::TypeName)
        } else if same_text(name, "type_decimal") {
            Some(Rule::TypeDecimal)
        } else if same_text(name, "type_double") {
            Some(Rule::TypeDouble)
        } else if same_text(name, "type_int") {
            Some(Rule::TypeInt)
        } else if same_text(name, "type_string") {
            Some(Rule::TypeString)
        } else if same_text(name, "type_varchar") {
            Some(Rule::TypeVarchar)
        } else if same_text(name, "type_size") {
            Some(Rule::TypeSize)
        } else if same_text(name, "column_constraint") {
            Some(Rule::ColumnConstraint)
        } else if same_text(name, "column_primary_key") {
            Some(Rule::ColumnPrimaryKey)
        } else if same_text(name, "autoincrement") {
            Some(Rule::Autoincrement)
        } else if same_text(name, "column_not_null") {
            Some(Rule::ColumnNotNull)
        } else if same_text(name, "column_unique") {
            Some(Rule::ColumnUnique)
        } else if same_text(name, "column_check") {
            Some(Rule::ColumnCheck)
        } else if same_text(name, "column_default") {
            Some(Rule::ColumnDefault)
        } else if same_text(name, "table_constraints") {
            Some(Rule::TableConstraints)
        } else if same_text(name, "table_constraint") {
            Some(Rule::TableConstraint)
        } else if same_text(name, "table_primary_key") {
            Some(Rule::TablePrimaryKey)
        } else if same_text(name, "table_unique") {
            Some(Rule::TableUnique)
        } else if same_text(name, "indexed_columns") {
            Some(Rule::IndexedColumns)
        } else if same_text(name, "indexed_column") {
            Some(Rule::IndexedColumn)
        } else if same_text(name, "alter_table") {
            Some(Rule::AlterTable)
        } else if same_text(name, "rename_table") {
            Some(Rule::RenameTable)
        } else if same_text(name, "rename_column") {
            Some(Rule::RenameColumn)
        } else if same_text(name, "add_column") {
            Some(Rule::AddColumn)
        } else if same_text(name, "drop_column") {
            Some(Rule::DropColumn)
        } else if same_text(name, "drop_table") {
            Some(Rule::DropTable)
        } else if same_text(name, "drop_index") {
            Some(Rule::DropIndex)
        } else if same_text(name, "drop_view") {
            Some(Rule::DropView)
        } else if same_text(name, "drop_trigger") {
            Some(Rule::DropTrigger)
        } else if same_text(name, "create_index") {
            Some(Rule::CreateIndex)
        } else if same_text(name, "create_view") {
            Some(Rule::CreateView)
        } else if same_text(name, "create_trigger") {
            Some(Rule::CreateTrigger)
        } else if same_text(name, "before") {
            Some(Rule::Before)
        } else if same_text(name, "after") {
            Some(Rule::After)
        } else if same_text(name, "instead") {
            Some(Rule::Instead)
        } else if same_text(name, "trigger_delete") {
            Some(Rule::TriggerDelete)
        } else if same_text(name, "trigger_insert") {
            Some(Rule::TriggerInsert)
        } else if same_text(name, "trigger_update") {
            Some(Rule::TriggerUpdate)
        } else if same_text(name, "when_clause") {
            Some(Rule::WhenClause)
        } else if same_text(name, "select") {
            Some(Rule::Select)
        } else if same_text(name, "select_query") {
            Some(Rule::SelectQuery)
        } else if same_text(name, "select_values") {
            Some(Rule::SelectValues)
        } else if same_text(name, "value_rows") {
            Some(Rule::ValueRows)
        } else if same_text(name, "distinct") {
            Some(Rule::Distinct)
        } else if same_text(name, "all") {
            Some(Rule::All)
        } else if same_text(name, "compound_operator") {
            Some(Rule::CompoundOperator)
        } else if same_text(name, "union_all") {
            Some(Rule::UnionAll)
        } else if same_text(name, "union") {
            Some(Rule::Union)
        } else if same_text(name, "intersect") {
            Some(Rule::Intersect)
        } else if same_text(name, "except") {
            Some(Rule::Except)
        } else if same_text(name, "result_columns") {
            Some(Rule::ResultColumns)
        } else if same_text(name, "result_column") {
            Some(Rule::ResultColumn)
        } else if same_text(name, "result_expr") {
            Some(Rule::ResultExpr)
        } else if same_text(name, "star") {
            Some(Rule::Star)
        } else if same_text(name, "from_clause") {
            Some(Rule::FromClause)
        } else if same_text(name, "from_tables") {
            Some(Rule::FromTables)
        } else if same_text(name, "from_join") {
            Some(Rule::FromJoin)
        } else if same_text(name, "qualified_table") {
            Some(Rule::QualifiedTable)
        } else if same_text(name, "indexed_by") {
            Some(Rule::IndexedBy)
        } else if same_text(name, "not_indexed") {
            Some(Rule::NotIndexed)
        } else if same_text(name, "join_clause") {
            Some(Rule::JoinClause)
        } else if same_text(name, "join_sub_clause") {
            Some(Rule::JoinSubClause)
        } else if same_text(name, "join_operator") {
            Some(Rule::JoinOperator)
        } else if same_text(name, "join_comma") {
            Some(Rule::JoinComma)
        } else if same_text(name, "join_cross") {
            Some(Rule::JoinCross)
        } else if same_text(name, "join_qualified") {
            Some(Rule::JoinQualified)
        } else if same_text(name, "natural") {
            Some(Rule::Natural)
        } else if same_text(name, "inner") {
            Some(Rule::Inner)
        } else if same_text(name, "left") {
            Some(Rule::Left)
        } else if same_text(name, "right") {
            Some(Rule::Right)
        } else if same_text(name, "full") {
            Some(Rule::Full)
        } else if same_text(name, "join_constraint") {
            Some(Rule::JoinConstraint)
        } else if same_text(name, "ordering_terms") {
            Some(Rule::OrderingTerms)
        } else if same_text(name, "ordering_term") {
            Some(Rule::OrderingTerm)
        } else if same_text(name, "first") {
            Some(Rule::First)
        } else if same_text(name, "last") {
            Some(Rule::Last)
        } else if same_text(name, "insert") {
            Some(Rule::Insert)
        } else if same_text(name, "insert_into") {
            Some(Rule::InsertInto)
        } else if same_text(name, "replace_into") {
            Some(Rule::ReplaceInto)
        } else if same_text(name, "insert_values") {
            Some(Rule::InsertValues)
        } else if same_text(name, "insert_select") {
            Some(Rule::InsertSelect)
        } else if same_text(name, "insert_default") {
            Some(Rule::InsertDefault)
        } else if same_text(name, "returning") {
            Some(Rule::Returning)
        } else if same_text(name, "return_star") {
            Some(Rule::ReturnStar)
        } else if same_text(name, "return_expr") {
            Some(Rule::ReturnExpr)
        } else if same_text(name, "upsert_sub_clause") {
            Some(Rule::UpsertSubClause)
        } else if same_text(name, "conflict_columns") {
            Some(Rule::ConflictColumns)
        } else if same_text(name, "upsert_nothing") {
            Some(Rule::UpsertNothing)
        } else if same_text(name, "upsert_update") {
            Some(Rule::UpsertUpdate)
        } else if same_text(name, "set_clause") {
            Some(Rule::SetClause)
        } else if same_text(name, "set_sub_clause") {
            Some(Rule::SetSubClause)
        } else if same_text(name, "update") {
            Some(Rule::Update)
        } else if same_text(name, "delete") {
            Some(Rule::Delete)
        } else {
            None
        }
    }
}

/// Whether two texts hold the same characters in the same order.
pub(crate) fn same_text(a: &str, b: &str) -> (same: bool)
    ensures
        same == (a@ == b@),
{
    let n = a.unicode_len();
    if n != b.unicode_len() {
        return false;
    }
    let mut i: usize = 0;
    while i < n
        invariant
            i <= n,
            n == a@.len(),
            n == b@.len(),
            forall|j: int| 0 <= j < i ==> a@[j] == b@[j],
        decreases n - i,
    {
        if a.get_char(i) != b.get_char(i) {
            return false;
        }
        i += 1;
    }
    proof {
        assert(a@ =~= b@);
    }
    true
}

} // verus!
