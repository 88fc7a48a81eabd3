use pesqlite::{ParseError, Rule, SqlParser};

fn all_rules() -> Vec<Rule> {
    vec![
        Rule::Script, Rule::Stmt, Rule::BareIdent, Rule::QuotedIdent, Rule::Ident, Rule::Idents,
        Rule::SchemaObject, Rule::Number, Rule::StringLiteral, Rule::BlobLiteral,
        Rule::NullLiteral, Rule::TrueLiteral, Rule::FalseLiteral, Rule::Literal, Rule::LogicalOr,
        Rule::LogicalAnd, Rule::LogicalNot, Rule::IsNot, Rule::Is, Rule::Eq, Rule::Ne, Rule::Lt,
        Rule::Le, Rule::Gt, Rule::Ge, Rule::BitwiseAnd, Rule::BitwiseOr, Rule::RightShift,
        Rule::LeftShift, Rule::Plus, Rule::Minus, Rule::Mul, Rule::Div, Rule::Modulo, Rule::Concat,
        Rule::BitwiseNot, Rule::Positive, Rule::Negative, Rule::QualifiedColumn, Rule::Expr,
        Rule::Exprs, Rule::Asc, Rule::Desc, Rule::Temp, Rule::Unique, Rule::IfExists,
        Rule::IfNotExists, Rule::ConflictAbort, Rule::ConflictFail, Rule::ConflictIgnore,
        Rule::ConflictReplace, Rule::ConflictRollback, Rule::ConflictResolution, Rule::Begin,
        Rule::Deferred, Rule::Immediate, Rule::Exclusive, Rule::Commit, Rule::Rollback,
        Rule::Savepoint, Rule::Release, Rule::CreateTable, Rule::CreateTableBody,
        Rule::WithoutRowid, Rule::Strict, Rule::ColumnDefs, Rule::ColumnDef,
        Rule::ColumnConstraints, Rule::TypeName, Rule::TypeDecimal, Rule::TypeDouble,
        Rule::TypeInt, Rule::TypeString, Rule::TypeVarchar, Rule::TypeSize, Rule::ColumnConstraint,
        Rule::ColumnPrimaryKey, Rule::Autoincrement, Rule::ColumnNotNull, Rule::ColumnUnique,
        Rule::ColumnCheck, Rule::ColumnDefault, Rule::TableConstraints, Rule::TableConstraint,
        Rule::TablePrimaryKey, Rule::TableUnique, Rule::IndexedColumns, Rule::IndexedColumn,
        Rule::AlterTable, Rule::RenameTable, Rule::RenameColumn, Rule::AddColumn, Rule::DropColumn,
        Rule::DropTable, Rule::DropIndex, Rule::DropView, Rule::DropTrigger, Rule::CreateIndex,
        Rule::CreateView, Rule::CreateTrigger, Rule::Before, Rule::After, Rule::Instead,
        Rule::TriggerDelete, Rule::TriggerInsert, Rule::TriggerUpdate, Rule::WhenClause,
        Rule::Select, Rule::SelectQuery, Rule::SelectValues, Rule::ValueRows, Rule::Distinct,
        Rule::All, Rule::CompoundOperator, Rule::UnionAll, Rule::Union, Rule::Intersect,
        Rule::Except, Rule::ResultColumns, Rule::ResultColumn, Rule::ResultExpr, Rule::Star,
        Rule::FromClause, Rule::FromTables, Rule::FromJoin, Rule::QualifiedTable, Rule::IndexedBy,
        Rule::NotIndexed, Rule::JoinClause, Rule::JoinSubClause, Rule::JoinOperator,
        Rule::JoinComma, Rule::JoinCross, Rule::JoinQualified, Rule::Natural, Rule::Inner,
        Rule::Left, Rule::Right, Rule::Full, Rule::JoinConstraint, Rule::OrderingTerms,
        Rule::OrderingTerm, Rule::First, Rule::Last, Rule::Insert, Rule::InsertInto,
        Rule::ReplaceInto, Rule::InsertValues, Rule::InsertSelect, Rule::InsertDefault,
        Rule::Returning, Rule::ReturnStar, Rule::ReturnExpr, Rule::UpsertSubClause,
        Rule::ConflictColumns, Rule::UpsertNothing, Rule::UpsertUpdate, Rule::SetClause,
        Rule::SetSubClause, Rule::Update, Rule::Delete,
    ]
}

#[test]
fn there_are_as_many_rules_as_names() {
    let rules = all_rules();
    assert_eq!(rules.len(), 161);
    let mut names: Vec<&str> = rules.iter().map(|rule| rule.name()).collect();
    names.sort();
    names.dedup();
    assert_eq!(names.len(), rules.len());
}

#[test]
fn a_rule_is_found_by_its_name() {
    for rule in all_rules() {
        assert_eq!(Rule::from_name(rule.name()), Some(rule));
    }
    assert_eq!(Rule::from_name("script"), Some(Rule::Script));
    assert_eq!(Rule::from_name("select_query"), Some(Rule::SelectQuery));
    assert_eq!(Rule::Modulo.name(), "modulo");
    assert_eq!(Rule::from_name("Script"), None);
    assert_eq!(Rule::from_name("keyword"), None);
    assert_eq!(Rule::from_name(""), None);
}

#[test]
fn the_grammar_defines_every_rule() {
    let parser = SqlParser::new().expect("the grammar compiles");
    for rule in all_rules() {
        match parser.parse(rule, "\u{1}") {
            Err(ParseError::Structure(e)) => panic!("{:?} is not defined: {:?}", rule, e),
            _ => {}
        }
    }
}
