use pesqlite::{
    parse_stmt, AlterTable, AlterTableAction, BinaryOp, ColumnConstraint, ColumnConstraintType,
    ColumnDef, CompoundOperator, ConflictResolution, CreateTable, CreateTableBody, CreateTrigger,
    CreateView, Delete, Dml, Expr, FromClause, Indexed, Insert, InsertHeader, InsertValues,
    JoinConstraint, JoinOperator, Literal, Node, OuterJoinType, Parser, QualifiedTable,
    ResultColumn, ReturnSubClause, Rule, SchemaObject, Select, SelectCore, SetSubClause,
    SqlParser, Stmt, TableOption, TriggerEvent, TriggerTiming, TypeDef, TypeName, Update,
    UpsertType,
};

fn first(parser: &SqlParser, rule: Rule, input: &str) -> Node {
    match parser.parse(rule, input) {
        Ok(mut nodes) => {
            let node = nodes.remove(0);
            assert_eq!(node.text, input, "only a part of the text was parsed");
            node
        }
        Err(e) => panic!("Failed to parse input '{}': {:?}", input, e),
    }
}

fn column(name: &str) -> Expr {
    Expr::QualifiedColumn(None, None, name.to_owned())
}

fn integer(text: &str) -> Expr {
    Expr::Literal(Literal::Integer(text.to_owned()))
}

fn table(name: &str) -> QualifiedTable {
    QualifiedTable {
        schema_table: SchemaObject { schema_name: None, name: name.to_owned() },
        alias: None,
        indexed: None,
    }
}

fn query(parser: &SqlParser, input: &str) -> Select {
    Select::parse(&first(parser, Rule::Select, input)).expect("a select")
}

#[test]
fn select_takes_its_clauses_in_order() {
    let parser = SqlParser::new().expect("the grammar compiles");
    let select = query(
        &parser,
        "select distinct a, b as c, * from t where a > 1 group by a, b having b < 2",
    );
    assert_eq!(
        select.core,
        SelectCore::Query {
            is_distinct: true,
            columns: vec![
                ResultColumn::Expr(column("a"), None),
                ResultColumn::Expr(column("b"), Some("c".to_owned())),
                ResultColumn::Star,
            ],
            from_clause: Some(FromClause::TableOrQuerys(vec![table("t")])),
            where_clause: Some(Expr::Binary(
                Box::new(column("a")),
                BinaryOp::Gt,
                Box::new(integer("1"))
            )),
            group_by: vec![column("a"), column("b")],
            having: Some(Expr::Binary(
                Box::new(column("b")),
                BinaryOp::Lt,
                Box::new(integer("2"))
            )),
        }
    );
    assert_eq!(select.compound, vec![]);
    assert_eq!(select.order_by, vec![]);
    assert_eq!(select.limit, None);
    assert_eq!(select.offset, None);
}

#[test]
fn select_all_is_not_distinct() {
    let parser = SqlParser::new().expect("the grammar compiles");
    match query(&parser, "select all a").core {
        SelectCore::Query { is_distinct, from_clause, where_clause, group_by, having, .. } => {
            assert!(!is_distinct);
            assert_eq!(from_clause, None);
            assert_eq!(where_clause, None);
            assert_eq!(group_by, vec![]);
            assert_eq!(having, None);
        }
        other => panic!("not a query: {:?}", other),
    }
}

#[test]
fn group_by_without_a_filter_is_no_filter() {
    let parser = SqlParser::new().expect("the grammar compiles");
    match query(&parser, "select a from t group by a having a").core {
        SelectCore::Query { where_clause, group_by, having, .. } => {
            assert_eq!(where_clause, None);
            assert_eq!(group_by, vec![column("a")]);
            assert_eq!(having, Some(column("a")));
        }
        other => panic!("not a query: {:?}", other),
    }
}

#[test]
fn compound_selects_chain_to_the_left() {
    let parser = SqlParser::new().expect("the grammar compiles");
    let select = query(
        &parser,
        "select a union select b intersect values (1) except select c union all select d limit 3",
    );
    let core = |name: &str| SelectCore::Query {
        is_distinct: false,
        columns: vec![ResultColumn::Expr(column(name), None)],
        from_clause: None,
        where_clause: None,
        group_by: vec![],
        having: None,
    };
    assert_eq!(select.core, core("a"));
    assert_eq!(
        select.compound,
        vec![
            (CompoundOperator::Union(false), core("b")),
            (CompoundOperator::Intersect, SelectCore::Values(vec![vec![integer("1")]])),
            (CompoundOperator::Except, core("c")),
            (CompoundOperator::Union(true), core("d")),
        ]
    );
    assert_eq!(select.limit, Some(integer("3")));
    assert_eq!(select.offset, None);
}

#[test]
fn a_list_of_tables_is_no_join() {
    let parser = SqlParser::new().expect("the grammar compiles");
    match query(&parser, "select * from a, b x, c as y not indexed").core {
        SelectCore::Query { from_clause, .. } => assert_eq!(
            from_clause,
            Some(FromClause::TableOrQuerys(vec![
                table("a"),
                QualifiedTable { alias: Some("x".to_owned()), ..table("b") },
                QualifiedTable {
                    alias: Some("y".to_owned()),
                    indexed: Some(Indexed::NotIndexed),
                    ..table("c")
                },
            ]))
        ),
        other => panic!("not a query: {:?}", other),
    }
}

#[test]
fn joins_keep_their_operators_and_constraints() {
    let parser = SqlParser::new().expect("the grammar compiles");
    let input = "select * from a, b natural left join c cross join d join e using (x, y)";
    match query(&parser, input).core {
        SelectCore::Query { from_clause: Some(FromClause::Join(join)), .. } => {
            assert_eq!(join.table_or_subquery, table("a"));
            let operators: Vec<JoinOperator> =
                join.joins.iter().map(|sub| sub.operator).collect();
            assert_eq!(
                operators,
                vec![
                    JoinOperator::Comma,
                    JoinOperator::Outer(true, OuterJoinType::Left),
                    JoinOperator::Cross,
                    JoinOperator::Inner(false),
                ]
            );
            let tables: Vec<QualifiedTable> =
                join.joins.iter().map(|sub| sub.table_or_subquery.clone()).collect();
            assert_eq!(tables, vec![table("b"), table("c"), table("d"), table("e")]);
            assert_eq!(join.joins[0].constraint, None);
            assert_eq!(
                join.joins[3].constraint,
                Some(JoinConstraint::Using(vec!["x".to_owned(), "y".to_owned()]))
            );
        }
        other => panic!("not a join: {:?}", other),
    }
}

#[test]
fn insert_takes_its_rows_from_three_sources() {
    let parser = SqlParser::new().expect("the grammar compiles");
    let insert = |input: &str| Insert::parse(&first(&parser, Rule::Insert, input));
    let into_t = SchemaObject { schema_name: None, name: "t".to_owned() };
    assert_eq!(
        insert("insert into t default values"),
        Ok(Insert {
            header: InsertHeader::Insert(ConflictResolution::Abort),
            schema_table: into_t.clone(),
            alias: None,
            columns: vec![],
            values: InsertValues::Default,
            return_clause: vec![],
        })
    );
    assert_eq!(
        insert("insert or fail into t as u (a) values (1) returning a as b, *"),
        Ok(Insert {
            header: InsertHeader::Insert(ConflictResolution::Fail),
            schema_table: into_t.clone(),
            alias: Some("u".to_owned()),
            columns: vec!["a".to_owned()],
            values: InsertValues::Values { values: vec![vec![integer("1")]], upsert: None },
            return_clause: vec![
                ReturnSubClause::Expr(column("a"), Some("b".to_owned())),
                ReturnSubClause::Star,
            ],
        })
    );
    match insert("replace into t select a from s on conflict do nothing") {
        Ok(Insert { header, values: InsertValues::Select { select, upsert }, .. }) => {
            assert_eq!(header, InsertHeader::Replace);
            assert_eq!(select.order_by, vec![]);
            let upsert = upsert.expect("an upsert");
            assert_eq!(upsert.indexed_cols, vec![]);
            assert_eq!(upsert.where_clause, None);
            assert_eq!(upsert.upsert_type, UpsertType::Nothing);
        }
        other => panic!("not an insert from a select: {:?}", other),
    }
}

#[test]
fn each_conflict_resolution_is_recognised() {
    let parser = SqlParser::new().expect("the grammar compiles");
    let cases = [
        ("update or abort t set a = 1", ConflictResolution::Abort),
        ("update or fail t set a = 1", ConflictResolution::Fail),
        ("update or ignore t set a = 1", ConflictResolution::Ignore),
        ("update or replace t set a = 1", ConflictResolution::Replace),
        ("update or rollback t set a = 1", ConflictResolution::Rollback),
        ("update t set a = 1", ConflictResolution::Abort),
    ];
    for (input, expected) in cases {
        let update = Update::parse(&first(&parser, Rule::Update, input)).expect("an update");
        assert_eq!(update.conflict, expected);
        assert_eq!(
            update.set_clause,
            vec![SetSubClause { columns: vec!["a".to_owned()], value: integer("1") }]
        );
    }
}

#[test]
fn update_and_delete_take_their_optional_clauses() {
    let parser = SqlParser::new().expect("the grammar compiles");
    let input = "update t indexed by i set (a, b) = (1, 2), c = 3 from s where a returning c";
    let update = Update::parse(&first(&parser, Rule::Update, input)).expect("an update");
    assert_eq!(
        update.qualified_table,
        QualifiedTable { indexed: Some(Indexed::By("i".to_owned())), ..table("t") }
    );
    assert_eq!(
        update.set_clause,
        vec![
            SetSubClause {
                columns: vec!["a".to_owned(), "b".to_owned()],
                value: Expr::ExprList(vec![integer("1"), integer("2")]),
            },
            SetSubClause { columns: vec!["c".to_owned()], value: integer("3") },
        ]
    );
    assert_eq!(update.from_clause, Some(FromClause::TableOrQuerys(vec![table("s")])));
    assert_eq!(update.where_clause, Some(column("a")));
    assert_eq!(update.return_clause, vec![ReturnSubClause::Expr(column("c"), None)]);
    assert_eq!(
        Delete::parse(&first(&parser, Rule::Delete, "delete from t")),
        Ok(Delete { qualified_table: table("t"), where_clause: None, return_clause: vec![] })
    );
}

#[test]
fn create_table_takes_columns_constraints_and_options() {
    let parser = SqlParser::new().expect("the grammar compiles");
    let input = "create temporary table if not exists s.t (a text default 'x' check (a), \
                 b real constraint n not null on conflict ignore) without rowid, strict";
    let create = CreateTable::parse(&first(&parser, Rule::CreateTable, input));
    assert_eq!(
        create,
        Ok(CreateTable {
            temp: true,
            if_not_exists: true,
            schema_table: SchemaObject {
                schema_name: Some("s".to_owned()),
                name: "t".to_owned()
            },
            body: CreateTableBody::Columns {
                columns: vec![
                    ColumnDef {
                        col_name: "a".to_owned(),
                        col_type: Some(TypeName { ty: TypeDef::String, size: None }),
                        constraints: vec![
                            ColumnConstraint {
                                name: None,
                                ty: ColumnConstraintType::Default(Literal::String(
                                    "x".to_owned()
                                )),
                            },
                            ColumnConstraint {
                                name: None,
                                ty: ColumnConstraintType::Check(column("a")),
                            },
                        ],
                    },
                    ColumnDef {
                        col_name: "b".to_owned(),
                        col_type: Some(TypeName { ty: TypeDef::Double, size: None }),
                        constraints: vec![ColumnConstraint {
                            name: Some("n".to_owned()),
                            ty: ColumnConstraintType::NotNull,
                        }],
                    },
                ],
                table_constraints: vec![],
                table_options: vec![TableOption::WithoutRowid, TableOption::Strict],
            },
        })
    );
}

#[test]
fn alter_table_does_one_of_four_things() {
    let parser = SqlParser::new().expect("the grammar compiles");
    let action = |input: &str| {
        AlterTable::parse(&first(&parser, Rule::AlterTable, input)).map(|alter| alter.action)
    };
    assert_eq!(
        action("alter table t rename to U"),
        Ok(AlterTableAction::RenameTable("u".to_owned()))
    );
    assert_eq!(
        action("alter table t rename column a to \"B\""),
        Ok(AlterTableAction::RenameColumn("a".to_owned(), "B".to_owned()))
    );
    assert_eq!(
        action("alter table t rename a to b"),
        Ok(AlterTableAction::RenameColumn("a".to_owned(), "b".to_owned()))
    );
    assert_eq!(
        action("alter table t drop column a"),
        Ok(AlterTableAction::DropColumn("a".to_owned()))
    );
    assert_eq!(
        action("alter table t add a"),
        Ok(AlterTableAction::AddColumn(ColumnDef {
            col_name: "a".to_owned(),
            col_type: None,
            constraints: vec![]
        }))
    );
}

#[test]
fn a_trigger_has_a_timing_an_event_and_a_body() {
    let parser = SqlParser::new().expect("the grammar compiles");
    let input = "create temp trigger if not exists s.g instead of update of a, b on t \
                 for each row when a > b begin select 1; delete from t; end";
    let trigger = CreateTrigger::parse(&first(&parser, Rule::CreateTrigger, input));
    let trigger = trigger.expect("a trigger");
    assert!(trigger.temp);
    assert!(trigger.if_not_exists);
    assert_eq!(
        trigger.schema_trigger,
        SchemaObject { schema_name: Some("s".to_owned()), name: "g".to_owned() }
    );
    assert_eq!(trigger.timing, TriggerTiming::InsteadOf);
    assert_eq!(trigger.event, TriggerEvent::Update(vec!["a".to_owned(), "b".to_owned()]));
    assert_eq!(trigger.table_name, "t");
    assert_eq!(
        trigger.when_cond,
        Some(Expr::Binary(Box::new(column("a")), BinaryOp::Gt, Box::new(column("b"))))
    );
    assert_eq!(trigger.statements.len(), 2);
    assert!(matches!(trigger.statements[0], Dml::Select(_)));
    assert_eq!(
        trigger.statements[1],
        Dml::Delete(Delete { qualified_table: table("t"), where_clause: None, return_clause: vec![] })
    );
    let timing = |input: &str| {
        CreateTrigger::parse(&first(&parser, Rule::CreateTrigger, input))
            .map(|trigger| (trigger.timing, trigger.event))
    };
    assert_eq!(
        timing("create trigger g before delete on t begin select 1; end"),
        Ok((TriggerTiming::Before, TriggerEvent::Delete))
    );
    assert_eq!(
        timing("create trigger g after insert on t begin select 1; end"),
        Ok((TriggerTiming::After, TriggerEvent::Insert))
    );
}

#[test]
fn a_view_may_name_its_columns() {
    let parser = SqlParser::new().expect("the grammar compiles");
    let view = CreateView::parse(&first(&parser, Rule::CreateView, "create view v as select 1"));
    let view = view.expect("a view");
    assert!(!view.temp);
    assert!(!view.if_not_exists);
    assert_eq!(view.columns, Vec::<String>::new());
}

#[test]
fn every_kind_of_statement_is_parsed_from_a_script() {
    let script = "select 1; \
                  insert into t values (1); \
                  update t set a = 1; \
                  delete from t; \
                  create table t (a); \
                  create index i on t (a); \
                  create view v as select 1; \
                  create trigger g after insert on t begin select 1; end; \
                  alter table t drop a; \
                  drop table t; \
                  drop index i; \
                  drop view v; \
                  drop trigger g;";
    let stmts = parse_stmt(script).expect("a script");
    assert_eq!(stmts.len(), 13);
    assert!(matches!(stmts[0], Stmt::Select(_)));
    assert!(matches!(stmts[1], Stmt::Insert(_)));
    assert!(matches!(stmts[2], Stmt::Update(_)));
    assert!(matches!(stmts[3], Stmt::Delete(_)));
    assert!(matches!(stmts[4], Stmt::CreateTable(_)));
    assert!(matches!(stmts[5], Stmt::CreateIndex(_)));
    assert!(matches!(stmts[6], Stmt::CreateView(_)));
    assert!(matches!(stmts[7], Stmt::CreateTrigger(_)));
    assert!(matches!(stmts[8], Stmt::AlterTable(_)));
    assert!(matches!(stmts[9], Stmt::DropTable(_)));
    assert!(matches!(stmts[10], Stmt::DropIndex(_)));
    assert!(matches!(stmts[11], Stmt::DropView(_)));
    assert!(matches!(stmts[12], Stmt::DropTrigger(_)));
}

#[test]
fn values_are_copied_with_their_parts() {
    let parser = SqlParser::new().expect("the grammar compiles");
    let node = first(&parser, Rule::Expr, "a + (b, 'c', x'0F') * -1.5e3");
    assert_eq!(node.clone(), node);
    let expr = Expr::parse(&node).expect("an expression");
    assert_eq!(expr.clone(), expr);
    let select = query(&parser, "select a from t order by a desc nulls last limit 1 offset 2");
    assert_eq!(select.clone(), select);
}
