use pesqlite::{
    parse_stmt, BinaryOp, CreateIndex, DropTable, Expr, FromClause, IndexedColumn, Literal,
    Node, ParseError, Parser, QualifiedTable, ResultColumn, Rule, SchemaObject, Select,
    SelectCore, SqlParser, Stmt, StructuralError,
};

fn users() -> QualifiedTable {
    QualifiedTable {
        schema_table: SchemaObject { schema_name: None, name: "users".to_owned() },
        alias: None,
        indexed: None,
    }
}

fn select_all_from_users(where_clause: Option<Expr>) -> Stmt {
    Stmt::Select(Select {
        core: SelectCore::Query {
            is_distinct: false,
            columns: vec![ResultColumn::Star],
            from_clause: Some(FromClause::TableOrQuerys(vec![users()])),
            where_clause,
            group_by: vec![],
            having: None,
        },
        compound: vec![],
        order_by: vec![],
        limit: None,
        offset: None,
    })
}

fn drop_users() -> Stmt {
    Stmt::DropTable(DropTable {
        if_exists: false,
        schema_table: SchemaObject { schema_name: None, name: "users".to_owned() },
    })
}

#[test]
fn a_script_gives_its_statements_in_order() {
    let parsed = parse_stmt("SELECT * FROM users WHERE id = 1; DROP TABLE users;");
    let id_is_one = Expr::Binary(
        Box::new(Expr::QualifiedColumn(None, None, "id".to_owned())),
        BinaryOp::Eq,
        Box::new(Expr::Literal(Literal::Integer("1".to_owned()))),
    );
    assert_eq!(parsed, Ok(vec![select_all_from_users(Some(id_is_one)), drop_users()]));
}

#[test]
fn the_last_statement_may_lack_its_semicolon() {
    assert_eq!(parse_stmt("drop table users"), Ok(vec![drop_users()]));
    assert_eq!(parse_stmt("  drop table users ;  "), Ok(vec![drop_users()]));
    assert_eq!(
        parse_stmt("drop table users; -- gone\n/* and again */ drop table users"),
        Ok(vec![drop_users(), drop_users()])
    );
}

#[test]
fn an_index_is_created_as_it_is_written() {
    let parser = SqlParser::new().expect("the grammar compiles");
    let input = "CREATE UNIQUE INDEX IF NOT EXISTS Index_eage ON employee(eage desc)";
    let expected = CreateIndex {
        unique: true,
        if_not_exists: true,
        schema_index: SchemaObject { schema_name: None, name: "index_eage".to_owned() },
        table_name: "employee".to_owned(),
        indexed_cols: vec![IndexedColumn { name: "eage".to_owned(), asc: false }],
        where_cond: None,
    };
    let nodes: Vec<Node> = parser.parse(Rule::CreateIndex, input).expect("an index");
    assert_eq!(nodes.len(), 1);
    assert_eq!(CreateIndex::parse(&nodes[0]).as_ref(), Ok(&expected));
    assert_eq!(parser.statements(input), Ok(vec![Stmt::CreateIndex(expected)]));
}

#[test]
fn a_text_outside_the_grammar_is_a_syntax_error() {
    match parse_stmt("SELECT FROM") {
        Err(ParseError::Syntax(e)) => {
            assert_eq!(e.position, 7);
            assert!(!e.expected.is_empty());
            assert_eq!(e.message, "");
        }
        other => panic!("not a syntax error: {:?}", other),
    }
    assert!(matches!(parse_stmt(""), Err(ParseError::Syntax(_))));
    assert!(matches!(parse_stmt("drop table users; nonsense"), Err(ParseError::Syntax(_))));
    assert!(matches!(parse_stmt("begin"), Err(ParseError::Syntax(_))));
    assert!(matches!(parse_stmt("selectid from t"), Err(ParseError::Syntax(_))));
    assert!(matches!(parse_stmt("select id from"), Err(ParseError::Syntax(_))));
}

#[test]
fn two_parses_of_one_text_agree() {
    let parser = SqlParser::new().expect("the grammar compiles");
    let input = "insert or ignore into t (a, b) values (1, 'x'), (2, 'y') returning *;";
    assert_eq!(parser.statements(input), parser.statements(input));
    assert_eq!(parser.statements(input), parse_stmt(input));
    assert!(parser.statements(input).is_ok());
}

#[test]
fn keywords_end_at_a_word_boundary() {
    let parser = SqlParser::new().expect("the grammar compiles");
    let nodes = parser.parse(Rule::Select, "select selected, fromage as asc_ from tables");
    let nodes = nodes.expect("a select");
    match Select::parse(&nodes[0]) {
        Ok(Select { core: SelectCore::Query { columns, from_clause, .. }, .. }) => {
            assert_eq!(
                columns,
                vec![
                    ResultColumn::Expr(
                        Expr::QualifiedColumn(None, None, "selected".to_owned()),
                        None
                    ),
                    ResultColumn::Expr(
                        Expr::QualifiedColumn(None, None, "fromage".to_owned()),
                        Some("asc_".to_owned())
                    ),
                ]
            );
            assert_eq!(
                from_clause,
                Some(FromClause::TableOrQuerys(vec![QualifiedTable {
                    schema_table: SchemaObject { schema_name: None, name: "tables".to_owned() },
                    alias: None,
                    indexed: None,
                }]))
            );
        }
        other => panic!("not a query: {:?}", other),
    }
}

#[test]
fn a_script_holds_at_least_one_statement() {
    for input in ["select 1", "select 1; select 2;", "drop table t; select 1; delete from t"] {
        let stmts = parse_stmt(input).expect("a script");
        assert_eq!(stmts.len(), input.split(';').filter(|part| !part.trim().is_empty()).count());
        assert!(!stmts.is_empty());
    }
    assert!(parse_stmt(";").is_err());
    assert!(parse_stmt("  ").is_err());
}

#[test]
fn a_script_must_be_one_tree() {
    let none: Vec<Node> = vec![];
    assert_eq!(
        pesqlite::parser::stmt::build_script(&none),
        Err(StructuralError { rule: Rule::Script })
    );
    let stmt = Node { rule: Rule::Stmt, text: String::new(), children: vec![] };
    assert_eq!(
        pesqlite::parser::stmt::build_script(&vec![stmt]),
        Err(StructuralError { rule: Rule::Stmt })
    );
    let empty = Node { rule: Rule::Script, text: String::new(), children: vec![] };
    assert_eq!(
        pesqlite::parser::stmt::build_script(&vec![empty]),
        Err(StructuralError { rule: Rule::Script })
    );
    let drop = Node {
        rule: Rule::DropTable,
        text: String::new(),
        children: vec![Node {
            rule: Rule::SchemaObject,
            text: String::new(),
            children: vec![Node {
                rule: Rule::Ident,
                text: String::new(),
                children: vec![Node {
                    rule: Rule::BareIdent,
                    text: "Users".to_owned(),
                    children: vec![],
                }],
            }],
        }],
    };
    let stmt = Node { rule: Rule::Stmt, text: String::new(), children: vec![drop] };
    let one = Node { rule: Rule::Script, text: String::new(), children: vec![stmt] };
    assert_eq!(pesqlite::parser::stmt::build_script(&vec![one]), Ok(vec![drop_users()]));
}
