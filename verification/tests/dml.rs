use pesqlite::{
    AlterTable, AlterTableAction, BinaryOp, ColumnConstraint, ColumnConstraintType, ColumnDef,
    CompoundOperator, ConflictResolution, CreateIndex, CreateTable, CreateTableBody,
    CreateTrigger, CreateView, Delete, Dml, DropIndex, DropTable, DropTrigger, DropView, Expr,
    FromClause, Indexed, IndexedColumn, Insert, InsertHeader, InsertValues, JoinClause,
    JoinConstraint, JoinOperator, JoinSubClause, Literal, Node, OrderingTerm, OuterJoinType,
    Parser, QualifiedTable, ResultColumn, ReturnSubClause, Rule, SchemaObject, Select,
    SelectCore, SetSubClause, SqlParser, TableConstraint, TableConstraintType, TableOption,
    TriggerEvent, TriggerTiming, TypeDef, TypeName, TypeSize, UnaryOp, Update, UpsertSubClause,
    UpsertType,
};

fn first(parser: &SqlParser, rule: Rule, input: &str) -> Node {
    match parser.parse(rule, input) {
        Ok(mut nodes) => nodes.remove(0),
        Err(e) => panic!("Failed to parse input '{}': {:?}", input, e),
    }
}

#[test]
fn test_schema_object() {
    let parser = SqlParser::new().expect("the grammar compiles");
    let cases = [
        (
            "sql.users",
            SchemaObject {
                schema_name: Some("sql".to_owned()),
                name: "users".to_owned(),
            }
        ),
        (
            "sql.users as u",
            SchemaObject {
                schema_name: Some("sql".to_owned()),
                name: "users".to_owned(),
            }
        )
    ];
    for (input, expected) in cases {
        assert_eq!(SchemaObject::parse(&first(&parser, Rule::SchemaObject, input)), Ok(expected));
    }
}

#[test]
fn test_qualified_table() {
    let parser = SqlParser::new().expect("the grammar compiles");
    let cases = [
        (
            "sql.users as u",
            QualifiedTable {
                schema_table: SchemaObject {
                    schema_name: Some("sql".to_owned()),
                    name: "users".to_owned(),
                },
                alias: Some("u".to_owned()),
                indexed: None,
            }
        ),
        (
            "sql.users as u indexed by idx_users",
            QualifiedTable {
                schema_table: SchemaObject {
                    schema_name: Some("sql".to_owned()),
                    name: "users".to_owned(),
                },
                alias: Some("u".to_owned()),
                indexed: Some(Indexed::By("idx_users".to_owned())),
            }
        ),
        (
            "sql.users indexed by idx_users",
            QualifiedTable {
                schema_table: SchemaObject {
                    schema_name: Some("sql".to_owned()),
                    name: "users".to_owned(),
                },
                alias: None,
                indexed: Some(Indexed::By("idx_users".to_owned())),
            }
        )
    ];
    for (input, expected) in cases {
        assert_eq!(QualifiedTable::parse(&first(&parser, Rule::QualifiedTable, input)), Ok(expected));
    }
}

#[test]
fn test_select_core() {
    let parser = SqlParser::new().expect("the grammar compiles");
    let cases = [
        (
            "VALUES (1, 'Alice'), (2, 'Bob')",
            SelectCore::Values(vec![
                vec![
                    Expr::Literal(Literal::Integer("1".to_owned())),
                    Expr::Literal(Literal::String("Alice".to_owned())),
                ],
                vec![
                    Expr::Literal(Literal::Integer("2".to_owned())),
                    Expr::Literal(Literal::String("Bob".to_owned())),
                ],
            ])
        ),
        (
            "SELECT id, name FROM sql.users WHERE age > 30",
            SelectCore::Query {
                is_distinct: false,
                columns: vec![
                    ResultColumn::Expr(Expr::QualifiedColumn(None, None, "id".to_owned()), None),
                    ResultColumn::Expr(Expr::QualifiedColumn(None, None, "name".to_owned()), None),
                ],
                from_clause: Some(FromClause::TableOrQuerys(vec![QualifiedTable {
                    schema_table: SchemaObject {
                        schema_name: Some("sql".to_owned()),
                        name: "users".to_owned(),
                    },
                    alias: None,
                    indexed: None,
                }])),
                where_clause: Some(Expr::Binary(
                    Box::new(Expr::QualifiedColumn(None, None, "age".to_owned())),
                    BinaryOp::Gt,
                    Box::new(Expr::Literal(Literal::Integer("30".to_owned()))),
                )),
                group_by: vec![],
                having: None
            }
        )
    ];
    for (input, expected) in cases {
        let rule = if input.starts_with("VALUES") {
            Rule::SelectValues
        } else {
            Rule::SelectQuery
        };
        assert_eq!(SelectCore::parse(&first(&parser, rule, input)), Ok(expected));
    }
}

#[test]
fn test_select() {
    let parser = SqlParser::new().expect("the grammar compiles");
    let cases = [
        (
            r"SELECT id, name FROM sql.users as u
            WHERE age > 30
            group by age
            having age > 20
            order by name
            limit 10 offset 5",
            Select {
                core: SelectCore::Query {
                    is_distinct: false,
                    columns: vec![
                        ResultColumn::Expr(
                            Expr::QualifiedColumn(None, None, "id".to_owned()),
                            None
                        ),
                        ResultColumn::Expr(
                            Expr::QualifiedColumn(None, None, "name".to_owned()),
                            None
                        ),
                    ],
                    from_clause: Some(FromClause::TableOrQuerys(vec![QualifiedTable {
                        schema_table: SchemaObject {
                            schema_name: Some("sql".to_owned()),
                            name: "users".to_owned(),
                        },
                        alias: Some("u".to_owned()),
                        indexed: None,
                    }])),
                    where_clause: Some(Expr::Binary(
                        Box::new(Expr::QualifiedColumn(None, None, "age".to_owned())),
                        BinaryOp::Gt,
                        Box::new(Expr::Literal(Literal::Integer("30".to_owned()))),
                    )),
                    group_by: vec![Expr::QualifiedColumn(None, None, "age".to_owned())],
                    having: Some(Expr::Binary(
                        Box::new(Expr::QualifiedColumn(None, None, "age".to_owned())),
                        BinaryOp::Gt,
                        Box::new(Expr::Literal(Literal::Integer("20".to_owned()))),
                    )),
                },
                compound: vec![],
                order_by: vec![OrderingTerm {
                    expr: Expr::QualifiedColumn(None, None, "name".to_owned()),
                    asc: true,
                    nulls_first: true,
                }],
                limit: Some(Expr::Literal(Literal::Integer("10".to_owned()))),
                offset: Some(Expr::Literal(Literal::Integer("5".to_owned()))),
            }
        ),
        (
            r"SELECT id, name FROM sql.users UNION ALL SELECT age FROM sql.users
            order by name
            limit 10 offset 5",
            Select {
                core: SelectCore::Query {
                    is_distinct: false,
                    columns: vec![
                        ResultColumn::Expr(
                            Expr::QualifiedColumn(None, None, "id".to_owned()),
                            None
                        ),
                        ResultColumn::Expr(
                            Expr::QualifiedColumn(None, None, "name".to_owned()),
                            None
                        ),
                    ],
                    from_clause: Some(FromClause::TableOrQuerys(vec![QualifiedTable {
                        schema_table: SchemaObject {
                            schema_name: Some("sql".to_owned()),
                            name: "users".to_owned(),
                        },
                        alias: None,
                        indexed: None,
                    }])),
                    where_clause: None,
                    group_by: vec![],
                    having: None,
                },
                compound: vec![(
                    CompoundOperator::Union(true),
                    SelectCore::Query {
                        is_distinct: false,
                        columns: vec![ResultColumn::Expr(
                            Expr::QualifiedColumn(None, None, "age".to_owned()),
                            None,
                        )],
                        from_clause: Some(FromClause::TableOrQuerys(vec![QualifiedTable {
                            schema_table: SchemaObject {
                                schema_name: Some("sql".to_owned()),
                                name: "users".to_owned(),
                            },
                            alias: None,
                            indexed: None,
                        }])),
                        where_clause: None,
                        group_by: vec![],
                        having: None,
                    }
                )],
                order_by: vec![OrderingTerm {
                    expr: Expr::QualifiedColumn(None, None, "name".to_owned()),
                    asc: true,
                    nulls_first: true,
                }],
                limit: Some(Expr::Literal(Literal::Integer("10".to_owned()))),
                offset: Some(Expr::Literal(Literal::Integer("5".to_owned()))),
            }
        )
    ];
    for (input, expected) in cases {
        assert_eq!(Select::parse(&first(&parser, Rule::Select, input)), Ok(expected));
    }
}

#[test]
fn test_insert() {
    let parser = SqlParser::new().expect("the grammar compiles");
    let cases = [
        (
            "Replace into sql.users (id, name) values (1, 'Alice'), (2, 'Bob')",
            Insert {
                header: InsertHeader::Replace,
                schema_table: SchemaObject {
                    schema_name: Some("sql".to_owned()),
                    name: "users".to_owned(),
                },
                alias: None,
                columns: vec!["id".to_owned(), "name".to_owned()],
                values: InsertValues::Values {
                    values: vec![
                        vec![
                            Expr::Literal(Literal::Integer("1".to_owned())),
                            Expr::Literal(Literal::String("Alice".to_owned())),
                        ],
                        vec![
                            Expr::Literal(Literal::Integer("2".to_owned())),
                            Expr::Literal(Literal::String("Bob".to_owned())),
                        ],
                    ],
                    upsert: None
                },
                return_clause: vec![],
            }
        ),
        (
            "Insert OR ROLLBACK into sql.users (id, name) values (1, 'Alice'), (2, 'Bob') returning id",
            Insert {
                header: InsertHeader::Insert(ConflictResolution::Rollback),
                schema_table: SchemaObject {
                    schema_name: Some("sql".to_owned()),
                    name: "users".to_owned(),
                },
                alias: None,
                columns: vec!["id".to_owned(), "name".to_owned()],
                values: InsertValues::Values {
                    values: vec![
                        vec![
                            Expr::Literal(Literal::Integer("1".to_owned())),
                            Expr::Literal(Literal::String("Alice".to_owned())),
                        ],
                        vec![
                            Expr::Literal(Literal::Integer("2".to_owned())),
                            Expr::Literal(Literal::String("Bob".to_owned())),
                        ],
                    ],
                    upsert: None
                },
                return_clause: vec![ReturnSubClause::Expr(
                    Expr::QualifiedColumn(None, None, "id".to_owned()),
                    None
                )],
            }
        )
    ];
    for (input, expected) in cases {
        assert_eq!(Insert::parse(&first(&parser, Rule::Insert, input)), Ok(expected));
    }
}

#[test]
fn test_set_sub_clause() {
    let parser = SqlParser::new().expect("the grammar compiles");
    let cases = [
        (
            "name = 'Alice'",
            SetSubClause {
                columns: vec!["name".to_owned()],
                value: Expr::Literal(Literal::String("Alice".to_owned())),
            }
        ),
        (
            "(name, job) = ('Bob', 'Teacher')",
            SetSubClause {
                columns: vec!["name".to_owned(), "job".to_owned()],
                value: Expr::ExprList(vec![
                    Expr::Literal(Literal::String("Bob".to_owned())),
                    Expr::Literal(Literal::String("Teacher".to_owned())),
                ]),
            }
        ),
    ];
    for (input, expected) in cases {
        assert_eq!(SetSubClause::parse(&first(&parser, Rule::SetSubClause, input)), Ok(expected));
    }
}

#[test]
fn test_join_constraint() {
    let parser = SqlParser::new().expect("the grammar compiles");
    let cases = [
        (
            "on table1",
            JoinConstraint::Expr(Expr::QualifiedColumn(None, None, "table1".to_owned()))
        ),
        (
            "using (table1, table2, table3)",
            JoinConstraint::Using(vec![
                "table1".to_owned(),
                "table2".to_owned(),
                "table3".to_owned()
            ])
        )
    ];
    for (input, expected) in cases {
        assert_eq!(JoinConstraint::parse(&first(&parser, Rule::JoinConstraint, input)), Ok(expected));
    }
}

#[test]
fn test_join_operator() {
    let parser = SqlParser::new().expect("the grammar compiles");
    let cases = [
        (",", JoinOperator::Comma),
        ("cross join", JoinOperator::Cross),
        ("join", JoinOperator::Inner(false)),
        ("inner join", JoinOperator::Inner(false)),
        ("natural inner join", JoinOperator::Inner(true)),
        (
            "left outer join",
            JoinOperator::Outer(false, OuterJoinType::Left)
        ),
        (
            "natural left outer join",
            JoinOperator::Outer(true, OuterJoinType::Left)
        ),
        (
            "right outer join",
            JoinOperator::Outer(false, OuterJoinType::Right)
        ),
        (
            "natural right outer join",
            JoinOperator::Outer(true, OuterJoinType::Right)
        ),
        (
            "full outer join",
            JoinOperator::Outer(false, OuterJoinType::Full)
        ),
        (
            "natural full outer join",
            JoinOperator::Outer(true, OuterJoinType::Full)
        ),
    ];
    for (input, expected) in cases {
        assert_eq!(JoinOperator::parse(&first(&parser, Rule::JoinOperator, input)), Ok(expected));
    }
}

#[test]
fn test_join_clause() {
    let parser = SqlParser::new().expect("the grammar compiles");
    let cases = [(
        "user left join orders on user.id = orders.user_id",
        JoinClause {
            table_or_subquery: QualifiedTable {
                schema_table: SchemaObject {
                    schema_name: None,
                    name: "user".to_owned()
                },
                alias: None,
                indexed: None
            },
            joins: vec![JoinSubClause {
                operator: JoinOperator::Outer(false, OuterJoinType::Left),
                table_or_subquery: QualifiedTable {
                    schema_table: SchemaObject {
                        schema_name: None,
                        name: "orders".to_owned()
                    },
                    alias: None,
                    indexed: None
                },
                constraint: Some(JoinConstraint::Expr(Expr::Binary(
                    Box::new(Expr::QualifiedColumn(
                        None,
                        Some("user".to_owned()),
                        "id".to_owned()
                    )),
                    BinaryOp::Eq,
                    Box::new(Expr::QualifiedColumn(
                        None,
                        Some("orders".to_owned()),
                        "user_id".to_owned()
                    ))
                )))
            }]
        }
    ),
    ];
    for (input, expected) in cases {
        assert_eq!(JoinClause::parse(&first(&parser, Rule::JoinClause, input)), Ok(expected));
    }
}

#[test]
fn test_update() {
    let parser = SqlParser::new().expect("the grammar compiles");
    let cases = [
        (
            "update employee set eage = eage + 1 returning *",
            Update {
                conflict: ConflictResolution::Abort,
                qualified_table: QualifiedTable {
                    schema_table: SchemaObject {
                        schema_name: None,
                        name: "employee".to_owned(),
                    },
                    alias: None,
                    indexed: None
                },
                set_clause: vec![SetSubClause {
                    columns: vec!["eage".to_owned()],
                    value: Expr::Binary(
                        Box::new(Expr::QualifiedColumn(None, None, "eage".to_owned())),
                        BinaryOp::Plus,
                        Box::new(Expr::Literal(Literal::Integer("1".to_owned()))),
                    ),
                }],
                from_clause: None,
                where_clause: None,
                return_clause: vec![ReturnSubClause::Star],
            }
        ),
        (
            "update OR ROLLBACK employee set eage = eage + 1",
            Update {
                conflict: ConflictResolution::Rollback,
                qualified_table: QualifiedTable {
                    schema_table: SchemaObject {
                        schema_name: None,
                        name: "employee".to_owned(),
                    },
                    alias: None,
                    indexed: None
                },
                set_clause: vec![SetSubClause {
                    columns: vec!["eage".to_owned()],
                    value: Expr::Binary(
                        Box::new(Expr::QualifiedColumn(None, None, "eage".to_owned())),
                        BinaryOp::Plus,
                        Box::new(Expr::Literal(Literal::Integer("1".to_owned()))),
                    ),
                }],
                from_clause: None,
                where_clause: None,
                return_clause: vec![],
            }
        )
    ];
    for (input, expected) in cases {
        assert_eq!(Update::parse(&first(&parser, Rule::Update, input)), Ok(expected));
    }
}

#[test]
fn test_delete() {
    let parser = SqlParser::new().expect("the grammar compiles");
    let cases = [
        (
            "delete from employee where eid = 1001",
            Delete {
                qualified_table: QualifiedTable {
                    schema_table: SchemaObject {
                        schema_name: None,
                        name: "employee".to_owned(),
                    },
                    alias: None,
                    indexed: None
                },
                where_clause: Some(Expr::Binary(
                    Box::new(Expr::QualifiedColumn(None, None, "eid".to_owned())),
                    BinaryOp::Eq,
                    Box::new(Expr::Literal(Literal::Integer("1001".to_owned()))),
                )),
                return_clause: vec![],
            }
        ),
        (
            "delete from employee returning *",
            Delete {
                qualified_table: QualifiedTable {
                    schema_table: SchemaObject {
                        schema_name: None,
                        name: "employee".to_owned(),
                    },
                    alias: None,
                    indexed: None
                },
                where_clause: None,
                return_clause: vec![ReturnSubClause::Star],
            }
        )
    ];
    for (input, expected) in cases {
        assert_eq!(Delete::parse(&first(&parser, Rule::Delete, input)), Ok(expected));
    }
}

#[test]
fn test_ordering_term() {
    let parser = SqlParser::new().expect("the grammar compiles");
    let cases = [(
        "eid + 1001 DESC NULLS LAST",
        OrderingTerm {
            expr: Expr::Binary(
                Box::new(Expr::QualifiedColumn(None, None, "eid".to_owned())),
                BinaryOp::Plus,
                Box::new(Expr::Literal(Literal::Integer("1001".to_owned()))),
            ),
            asc: false,
            nulls_first: false,
        }
    )
    ];
    for (input, expected) in cases {
        assert_eq!(OrderingTerm::parse(&first(&parser, Rule::OrderingTerm, input)), Ok(expected));
    }
}

#[test]
fn test_result_column() {
    let parser = SqlParser::new().expect("the grammar compiles");
    let cases = [
        (
            "id",
            ResultColumn::Expr(Expr::QualifiedColumn(None, None, "id".to_owned()), None)
        ),
        (
            "id as identifier",
            ResultColumn::Expr(
                Expr::QualifiedColumn(None, None, "id".to_owned()),
                Some("identifier".to_owned())
            )
        ),
    ];
    for (input, expected) in cases {
        assert_eq!(ResultColumn::parse(&first(&parser, Rule::ResultColumn, input)), Ok(expected));
    }
}

#[test]
fn test_upsert_sub_clause() {
    let parser = SqlParser::new().expect("the grammar compiles");
    let cases = [
        (
            "ON CONFLICT (id) DO NOTHING",
            UpsertSubClause {
                indexed_cols: vec![IndexedColumn {
                    name: "id".to_owned(),
                    asc: true
                }],
                where_clause: None,
                upsert_type: UpsertType::Nothing,
            }
        ),
        (
            "ON CONFLICT (id desc, name) where name != 'Alice' DO UPDATE SET name = 'Bob'",
            UpsertSubClause {
                indexed_cols: vec![
                    IndexedColumn {
                        name: "id".to_owned(),
                        asc: false
                    },
                    IndexedColumn {
                        name: "name".to_owned(),
                        asc: true
                    }
                ],
                where_clause: Some(Expr::Binary(
                    Box::new(Expr::QualifiedColumn(None, None, "name".to_owned())),
                    BinaryOp::Ne,
                    Box::new(Expr::Literal(Literal::String("Alice".to_owned()))),
                )),
                upsert_type: UpsertType::Update {
                    set_clause: vec![SetSubClause {
                        columns: vec!["name".to_owned()],
                        value: Expr::Literal(Literal::String("Bob".to_owned())),
                    }],
                    where_clause: None
                },
            }
        ),
    ];
    for (input, expected) in cases {
        assert_eq!(UpsertSubClause::parse(&first(&parser, Rule::UpsertSubClause, input)), Ok(expected));
    }
}
