use pesqlite::{
    AlterTable, AlterTableAction, BinaryOp, ColumnConstraint, ColumnConstraintType, ColumnDef,
    CompoundOperator, ConflictResolution, CreateIndex, CreateTable, CreateTableBody,
    CreateTrigger, CreateView, Delete, Dml, DropIndex, DropTable, DropTrigger, DropView, Expr,
    FromClause, Indexed, IndexedColumn, Insert, InsertHeader, InsertValues, JoinClause,
    JoinConstraint, JoinOperator, JoinSubClause, Literal, Node, OrderingTerm, OuterJoinType,
    Parser, QualifiedTable, ResultColumn, ReturnSubClause, Rule, SchemaObject, Select,
    SelectCore, SetSubClause, SqlParser, TableConstraint, TableConstraintType, TableOption,
    TriggerEvent, TriggerTiming, TypeDef, TypeName, TypeSize, UnaryOp, Update, UpsertSubClause,
    UpsertType,
};

fn first(parser: &SqlParser, rule: Rule, input: &str) -> Node {
    match parser.parse(rule, input) {
        Ok(mut nodes) => nodes.remove(0),
        Err(e) => panic!("Failed to parse input '{}': {:?}", input, e),
    }
}

#[test]
fn test_literal_double() {
    let parser = SqlParser::new().expect("the grammar compiles");
    let cases = [
        ("123e-1", Literal::Double("123e-1".to_owned())),
        ("123e+2", Literal::Double("123e+2".to_owned())),
        ("123.1e+2", Literal::Double("123.1e+2".to_owned())),
    ];
    for (input, expected) in cases {
        assert_eq!(Literal::parse(&first(&parser, Rule::Literal, input)), Ok(expected));
    }
}

#[test]
fn test_literal_decimal() {
    let parser = SqlParser::new().expect("the grammar compiles");
    let cases = [
        ("123.", Literal::Decimal("123.".to_owned())),
        ("123.12", Literal::Decimal("123.12".to_owned())),
        (".5", Literal::Decimal(".5".to_owned())),
    ];
    for (input, expected) in cases {
        assert_eq!(Literal::parse(&first(&parser, Rule::Literal, input)), Ok(expected));
    }
}

#[test]
fn test_literal_integer() {
    let parser = SqlParser::new().expect("the grammar compiles");
    let cases = [
        ("123", Literal::Integer("123".to_owned())),
        ("+123", Literal::Integer("+123".to_owned())),
        ("-123", Literal::Integer("-123".to_owned())),
    ];
    for (input, expected) in cases {
        assert_eq!(Literal::parse(&first(&parser, Rule::Literal, input)), Ok(expected));
    }
}

#[test]
fn test_literal_string() {
    let parser = SqlParser::new().expect("the grammar compiles");
    let cases = [
        ("'hello'", Literal::String("hello".to_owned())),
        ("''", Literal::String("".to_owned())),
    ];
    for (input, expected) in cases {
        assert_eq!(Literal::parse(&first(&parser, Rule::Literal, input)), Ok(expected));
    }
}

#[test]
fn test_literal_blob() {
    let parser = SqlParser::new().expect("the grammar compiles");
    let cases = [
        ("x'010D'", Literal::Blob("010D".to_owned())),
        ("X'010D'", Literal::Blob("010D".to_owned())),
        ("x''", Literal::Blob("".to_owned())),
    ];
    for (input, expected) in cases {
        assert_eq!(Literal::parse(&first(&parser, Rule::Literal, input)), Ok(expected));
    }
}

#[test]
fn test_expr_accuracy() {
    let parser = SqlParser::new().expect("the grammar compiles");
    let cases = [
        ("a", Expr::QualifiedColumn(None, None, "a".to_owned())),
        (
            "\"a\" and b",
            Expr::Binary(
                Box::new(Expr::QualifiedColumn(None, None, "a".to_owned())),
                BinaryOp::LogicalAnd,
                Box::new(Expr::QualifiedColumn(None, None, "b".to_owned())),
            )
        ),
        (
            "a >= b",
            Expr::Binary(
                Box::new(Expr::QualifiedColumn(None, None, "a".to_owned())),
                BinaryOp::Ge,
                Box::new(Expr::QualifiedColumn(None, None, "b".to_owned())),
            )
        ),
        (
            "1 + 2 * 3",
            Expr::Binary(
                Box::new(Expr::Literal(Literal::Integer("1".to_owned()))),
                BinaryOp::Plus,
                Box::new(Expr::Binary(
                    Box::new(Expr::Literal(Literal::Integer("2".to_owned()))),
                    BinaryOp::Mul,
                    Box::new(Expr::Literal(Literal::Integer("3".to_owned())))
                ))
            )
        ),
        (
            "a IS NOT NULL",
            Expr::Binary(
                Box::new(Expr::QualifiedColumn(None, None, "a".to_owned())),
                BinaryOp::IsNot,
                Box::new(Expr::Literal(Literal::Null)),
            )
        ),
        (
            "NOT a",
            Expr::Unary(
                UnaryOp::LogicalNot,
                Box::new(Expr::QualifiedColumn(None, None, "a".to_owned())),
            )
        ),
        (
            "TRUE AND FALSE",
            Expr::Binary(
                Box::new(Expr::Literal(Literal::Bool(true))),
                BinaryOp::LogicalAnd,
                Box::new(Expr::Literal(Literal::Bool(false))),
            )
        ),
    ];
    for (input, expected) in cases {
        assert_eq!(Expr::parse(&first(&parser, Rule::Expr, input)), Ok(expected));
    }
}

#[test]
fn test_expr_samples() {
    let parser = SqlParser::new().expect("the grammar compiles");
    let samples = [
        "1 + 2",
        "1 - 2",
        "1 * 2",
        "1 / 2",
        "1 % 2",
        "1 + 2 * 3",
        "(1 + 2) * 3",
        "1 + (2 * 3)",
        "1 + 2 * 3 - 4 / 5",
        "a + b",
        "a * (b + c)",
        "a / b - c * d",
        "a + b + c + d",
        "a * b * c * d",
        "a + b * c - d / e",
        "a > b",
        "a < b",
        "a >= b",
        "a <= b",
        "a = b",
        "a != b",
        "a AND b",
        "a OR b",
        "NOT a",
        "a IS NULL",
        "a IS NOT NULL",
        "a || b",
        "a + -b",
        "-a + b",
        "a + (b * (c - d))",
        "((a + b) * c) / d",
        "1.23 + 4.56",
        "'hello' || 'world'",
        "TRUE AND FALSE",
        "a + b * c / d - e % f",
        "a IS TRUE",
        "a IS NOT FALSE",
    ];

    for sample in samples {
        let node = first(&parser, Rule::Expr, sample);
        assert_eq!(
            node.text.len(),
            sample.len(),
            "Input '{}' was not fully consumed during parsing",
            sample
        );
        assert!(Expr::parse(&node).is_ok());
    }
}

#[test]
fn test_sql_samples() {
    let parser = SqlParser::new().expect("the grammar compiles");
    let samples = [
        "CREATE TABLE users (id INTEGER PRIMARY KEY, name VARCHAR(255));",
        "INSERT INTO users (id, name) VALUES (1, 'Alice');",
        "SELECT * FROM users WHERE id = 1;",
        "UPDATE users SET name = 'Bob' WHERE id = 1;",
        "DELETE FROM users WHERE id = 1;",
        "CREATE INDEX idx_name ON users (name);",
        "DROP TABLE users;",
    ];

    for sample in samples {
        let node = first(&parser, Rule::Stmt, sample);
        assert_eq!(
            node.text.len(),
            sample.len(),
            "Input '{}' was not fully consumed during parsing",
            sample
        );
    }
}
