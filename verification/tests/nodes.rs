use pesqlite::{
    Begin, BinaryOp, ColumnConstraint, ColumnConstraintType, Commit, ConflictResolution,
    CreateTable, Delete, DropTable, Expr, IndexedColumn, InsertHeader, Literal, Node,
    OrderingTerm, Parser, Rollback, Rule, SchemaObject, Select, SelectCore, Stmt,
    StructuralError, TransactionMode, TriggerEvent, TypeDef, TypeName, TypeSize,
};

fn leaf(rule: Rule, text: &str) -> Node {
    Node { rule, text: text.to_owned(), children: vec![] }
}

fn node(rule: Rule, children: Vec<Node>) -> Node {
    Node { rule, text: String::new(), children }
}

fn bare(name: &str) -> Node {
    node(Rule::Ident, vec![leaf(Rule::BareIdent, name)])
}

fn quoted(text: &str) -> Node {
    node(Rule::Ident, vec![leaf(Rule::QuotedIdent, text)])
}

fn number(text: &str) -> Node {
    node(Rule::Literal, vec![leaf(Rule::Number, text)])
}

fn column(name: &str) -> Node {
    node(Rule::QualifiedColumn, vec![bare(name)])
}

fn refused(rule: Rule) -> StructuralError {
    StructuralError { rule }
}

#[test]
fn a_bare_identifier_is_folded_to_lower_case() {
    assert_eq!(String::parse(&bare("Index_eage")), Ok("index_eage".to_owned()));
    assert_eq!(String::parse(&bare("ABCXYZ_09az")), Ok("abcxyz_09az".to_owned()));
    assert_eq!(String::parse(&bare("@[`{")), Ok("@[`{".to_owned()));
    assert_eq!(String::parse(&bare("ÀÉ")), Ok("ÀÉ".to_owned()));
    assert_eq!(String::parse(&bare("")), Ok(String::new()));
}

#[test]
fn a_quoted_identifier_keeps_its_case() {
    assert_eq!(String::parse(&quoted("\"Savepoint2\"")), Ok("Savepoint2".to_owned()));
    assert_eq!(String::parse(&quoted("\"\"")), Ok(String::new()));
    assert_eq!(String::parse(&quoted("\"a \"b\" C\"")), Ok("a \"b\" C".to_owned()));
    assert_eq!(String::parse(&quoted("\"É\"")), Ok("É".to_owned()));
}

#[test]
fn an_identifier_of_another_shape_is_refused() {
    assert_eq!(String::parse(&quoted("\"")), Err(refused(Rule::QuotedIdent)));
    assert_eq!(String::parse(&quoted("")), Err(refused(Rule::QuotedIdent)));
    assert_eq!(String::parse(&leaf(Rule::BareIdent, "a")), Err(refused(Rule::BareIdent)));
    assert_eq!(String::parse(&node(Rule::Ident, vec![])), Err(refused(Rule::Ident)));
    assert_eq!(
        String::parse(&node(Rule::Ident, vec![leaf(Rule::Number, "1")])),
        Err(refused(Rule::Number))
    );
    assert_eq!(
        String::parse(&node(
            Rule::Ident,
            vec![leaf(Rule::BareIdent, "a"), leaf(Rule::BareIdent, "b")]
        )),
        Err(refused(Rule::Ident))
    );
}

#[test]
fn a_number_is_classified_by_the_way_it_is_written() {
    let cases = [
        ("123.", Literal::Decimal("123.".to_owned())),
        (".5", Literal::Decimal(".5".to_owned())),
        ("123", Literal::Integer("123".to_owned())),
        ("123e-1", Literal::Double("123e-1".to_owned())),
        ("1E5", Literal::Double("1E5".to_owned())),
        ("1.5e3", Literal::Double("1.5e3".to_owned())),
        ("-7", Literal::Integer("-7".to_owned())),
        ("99999999999999999999999999", Literal::Integer("99999999999999999999999999".to_owned())),
    ];
    for (text, expected) in cases {
        assert_eq!(Literal::parse(&number(text)), Ok(expected));
    }
}

#[test]
fn strings_and_blobs_lose_their_delimiters() {
    let string = |text: &str| node(Rule::Literal, vec![leaf(Rule::StringLiteral, text)]);
    let blob = |text: &str| node(Rule::Literal, vec![leaf(Rule::BlobLiteral, text)]);
    assert_eq!(Literal::parse(&string("'hello'")), Ok(Literal::String("hello".to_owned())));
    assert_eq!(Literal::parse(&string("''")), Ok(Literal::String(String::new())));
    assert_eq!(Literal::parse(&string("'it''s'")), Ok(Literal::String("it''s".to_owned())));
    assert_eq!(Literal::parse(&string("'")), Err(refused(Rule::StringLiteral)));
    assert_eq!(Literal::parse(&blob("x'010D'")), Ok(Literal::Blob("010D".to_owned())));
    assert_eq!(Literal::parse(&blob("X''")), Ok(Literal::Blob(String::new())));
    assert_eq!(Literal::parse(&blob("x'")), Err(refused(Rule::BlobLiteral)));
}

#[test]
fn the_other_literals_are_known_by_their_tags() {
    let literal = |rule: Rule| node(Rule::Literal, vec![leaf(rule, "whatever")]);
    assert_eq!(Literal::parse(&literal(Rule::NullLiteral)), Ok(Literal::Null));
    assert_eq!(Literal::parse(&literal(Rule::TrueLiteral)), Ok(Literal::Bool(true)));
    assert_eq!(Literal::parse(&literal(Rule::FalseLiteral)), Ok(Literal::Bool(false)));
    assert_eq!(Literal::parse(&literal(Rule::Star)), Err(refused(Rule::Star)));
    assert_eq!(Literal::parse(&node(Rule::Literal, vec![])), Err(refused(Rule::Literal)));
    assert_eq!(Literal::parse(&leaf(Rule::Number, "1")), Err(refused(Rule::Number)));
}

#[test]
fn an_expression_is_built_from_a_flat_run_of_children() {
    let tree = node(
        Rule::Expr,
        vec![
            number("1"),
            leaf(Rule::Plus, "+"),
            number("2"),
            leaf(Rule::Mul, "*"),
            number("3"),
        ],
    );
    assert_eq!(
        Expr::parse(&tree),
        Ok(Expr::Binary(
            Box::new(Expr::Literal(Literal::Integer("1".to_owned()))),
            BinaryOp::Plus,
            Box::new(Expr::Binary(
                Box::new(Expr::Literal(Literal::Integer("2".to_owned()))),
                BinaryOp::Mul,
                Box::new(Expr::Literal(Literal::Integer("3".to_owned()))),
            )),
        ))
    );
}

#[test]
fn the_spelling_of_an_operator_does_not_matter() {
    let with = |spelling: &str| {
        node(Rule::Expr, vec![column("a"), leaf(Rule::Ne, spelling), column("b")])
    };
    assert_eq!(Expr::parse(&with("<>")), Expr::parse(&with("!=")));
    assert_eq!(
        Expr::parse(&with("anything")),
        Ok(Expr::Binary(
            Box::new(Expr::QualifiedColumn(None, None, "a".to_owned())),
            BinaryOp::Ne,
            Box::new(Expr::QualifiedColumn(None, None, "b".to_owned())),
        ))
    );
}

#[test]
fn a_malformed_expression_is_refused() {
    assert_eq!(Expr::parse(&node(Rule::Expr, vec![])), Err(refused(Rule::Expr)));
    assert_eq!(Expr::parse(&number("1")), Err(refused(Rule::Literal)));
    assert_eq!(
        Expr::parse(&node(Rule::Expr, vec![number("1"), number("2")])),
        Err(refused(Rule::Literal))
    );
    assert_eq!(
        Expr::parse(&node(Rule::Expr, vec![number("1"), leaf(Rule::Plus, "+")])),
        Err(refused(Rule::Expr))
    );
    assert_eq!(
        Expr::parse(&node(Rule::Expr, vec![leaf(Rule::Plus, "+"), number("1")])),
        Err(refused(Rule::Plus))
    );
    assert_eq!(
        Expr::parse(&node(
            Rule::Expr,
            vec![number("1"), leaf(Rule::LogicalNot, "not"), number("2")]
        )),
        Err(refused(Rule::LogicalNot))
    );
    assert_eq!(
        Expr::parse(&node(Rule::Expr, vec![leaf(Rule::Negative, "-")])),
        Err(refused(Rule::Expr))
    );
    assert_eq!(
        Expr::parse(&node(Rule::Expr, vec![node(Rule::QualifiedColumn, vec![])])),
        Err(refused(Rule::QualifiedColumn))
    );
    let four = vec![bare("a"), bare("b"), bare("c"), bare("d")];
    assert_eq!(
        Expr::parse(&node(Rule::Expr, vec![node(Rule::QualifiedColumn, four)])),
        Err(refused(Rule::QualifiedColumn))
    );
}

#[test]
fn what_is_left_out_takes_its_default() {
    assert_eq!(Begin::parse(&node(Rule::Begin, vec![])), Ok(Begin(TransactionMode::Deferred)));
    assert_eq!(Rollback::parse(&node(Rule::Rollback, vec![])), Ok(Rollback(None)));
    assert_eq!(
        IndexedColumn::parse(&node(Rule::IndexedColumn, vec![bare("c")])),
        Ok(IndexedColumn { name: "c".to_owned(), asc: true })
    );
    assert_eq!(
        OrderingTerm::parse(&node(
            Rule::OrderingTerm,
            vec![node(Rule::Expr, vec![column("c")])]
        )),
        Ok(OrderingTerm {
            expr: Expr::QualifiedColumn(None, None, "c".to_owned()),
            asc: true,
            nulls_first: true
        })
    );
    assert_eq!(
        ColumnConstraint::parse(&node(
            Rule::ColumnConstraint,
            vec![node(Rule::ColumnPrimaryKey, vec![])]
        )),
        Ok(ColumnConstraint {
            name: None,
            ty: ColumnConstraintType::PrimaryKey { asc: true, auto_inc: false }
        })
    );
    assert_eq!(
        InsertHeader::parse(&node(Rule::InsertInto, vec![])),
        Ok(InsertHeader::Insert(ConflictResolution::Abort))
    );
    assert_eq!(
        TriggerEvent::parse(&node(Rule::TriggerUpdate, vec![])),
        Ok(TriggerEvent::Update(vec![]))
    );
}

#[test]
fn what_is_written_replaces_the_default() {
    assert_eq!(
        Begin::parse(&node(Rule::Begin, vec![leaf(Rule::Exclusive, "exclusive")])),
        Ok(Begin(TransactionMode::Exclusive))
    );
    assert_eq!(
        IndexedColumn::parse(&node(
            Rule::IndexedColumn,
            vec![bare("c"), leaf(Rule::Desc, "desc")]
        )),
        Ok(IndexedColumn { name: "c".to_owned(), asc: false })
    );
    assert_eq!(
        OrderingTerm::parse(&node(
            Rule::OrderingTerm,
            vec![node(Rule::Expr, vec![column("c")]), leaf(Rule::Last, "last")]
        )),
        Ok(OrderingTerm {
            expr: Expr::QualifiedColumn(None, None, "c".to_owned()),
            asc: true,
            nulls_first: false
        })
    );
    assert_eq!(
        ColumnConstraint::parse(&node(
            Rule::ColumnConstraint,
            vec![node(
                Rule::ColumnPrimaryKey,
                vec![leaf(Rule::Desc, "desc"), leaf(Rule::Autoincrement, "autoincrement")]
            )]
        )),
        Ok(ColumnConstraint {
            name: None,
            ty: ColumnConstraintType::PrimaryKey { asc: false, auto_inc: true }
        })
    );
}

#[test]
fn a_type_keeps_its_sizes_as_written() {
    let ty = |children: Vec<Node>| TypeName::parse(&node(Rule::TypeName, children));
    assert_eq!(
        ty(vec![leaf(Rule::TypeInt, "int")]),
        Ok(TypeName { ty: TypeDef::Integer, size: None })
    );
    assert_eq!(
        ty(vec![leaf(Rule::TypeVarchar, "varchar"), leaf(Rule::TypeSize, "255")]),
        Ok(TypeName { ty: TypeDef::Varchar, size: Some(TypeSize::MaxSize("255".to_owned())) })
    );
    assert_eq!(
        ty(vec![
            leaf(Rule::TypeDecimal, "decimal"),
            leaf(Rule::TypeSize, "10"),
            leaf(Rule::TypeSize, "+2")
        ]),
        Ok(TypeName {
            ty: TypeDef::Decimal,
            size: Some(TypeSize::TypeSize("10".to_owned(), "+2".to_owned()))
        })
    );
    assert_eq!(ty(vec![leaf(Rule::TypeDouble, "real")]).map(|t| t.ty), Ok(TypeDef::Double));
    assert_eq!(ty(vec![leaf(Rule::TypeString, "text")]).map(|t| t.ty), Ok(TypeDef::String));
    assert_eq!(ty(vec![leaf(Rule::Number, "1")]), Err(refused(Rule::Number)));
    assert_eq!(ty(vec![]), Err(refused(Rule::TypeName)));
    assert_eq!(
        ty(vec![leaf(Rule::TypeInt, "int"), leaf(Rule::Number, "1")]),
        Err(refused(Rule::TypeName))
    );
}

#[test]
fn a_builder_refuses_a_node_of_another_rule() {
    let select = node(Rule::Select, vec![]);
    assert_eq!(Begin::parse(&select), Err(refused(Rule::Select)));
    assert_eq!(Commit::parse(&select), Err(refused(Rule::Select)));
    assert_eq!(DropTable::parse(&select), Err(refused(Rule::Select)));
    assert_eq!(CreateTable::parse(&select), Err(refused(Rule::Select)));
    assert_eq!(Delete::parse(&select), Err(refused(Rule::Select)));
    assert_eq!(SchemaObject::parse(&select), Err(refused(Rule::Select)));
    assert_eq!(Select::parse(&select), Err(refused(Rule::Select)));
    assert_eq!(Stmt::parse(&select), Err(refused(Rule::Select)));
    assert_eq!(
        Stmt::parse(&node(Rule::Stmt, vec![node(Rule::Begin, vec![])])),
        Err(refused(Rule::Begin))
    );
}

#[test]
fn a_builder_refuses_children_that_are_left_over() {
    let name = || node(Rule::SchemaObject, vec![bare("t")]);
    assert_eq!(
        DropTable::parse(&node(Rule::DropTable, vec![name()])),
        Ok(DropTable {
            if_exists: false,
            schema_table: SchemaObject { schema_name: None, name: "t".to_owned() }
        })
    );
    assert_eq!(
        DropTable::parse(&node(Rule::DropTable, vec![name(), name()])),
        Err(refused(Rule::DropTable))
    );
    assert_eq!(
        DropTable::parse(&node(Rule::DropTable, vec![])),
        Err(refused(Rule::DropTable))
    );
    assert_eq!(
        DropTable::parse(&node(Rule::DropTable, vec![leaf(Rule::IfExists, "if exists")])),
        Err(refused(Rule::DropTable))
    );
    assert_eq!(
        Commit::parse(&node(Rule::Commit, vec![leaf(Rule::Deferred, "deferred")])),
        Err(refused(Rule::Commit))
    );
    assert_eq!(
        SchemaObject::parse(&node(Rule::SchemaObject, vec![bare("a"), bare("b"), bare("c")])),
        Err(refused(Rule::SchemaObject))
    );
}

#[test]
fn the_first_child_that_fails_decides_the_error() {
    let broken = node(
        Rule::SchemaObject,
        vec![quoted("\""), node(Rule::Ident, vec![leaf(Rule::Number, "1")])],
    );
    assert_eq!(SchemaObject::parse(&broken), Err(refused(Rule::QuotedIdent)));
    let list = node(
        Rule::Exprs,
        vec![
            node(Rule::Expr, vec![column("a")]),
            node(Rule::Expr, vec![leaf(Rule::Star, "*")]),
            node(Rule::Expr, vec![leaf(Rule::Asc, "asc")]),
        ],
    );
    assert_eq!(
        Expr::parse(&node(Rule::Expr, vec![list])),
        Err(refused(Rule::Star))
    );
}

#[test]
fn having_stands_only_after_group_by() {
    let columns = || {
        node(
            Rule::ResultColumns,
            vec![node(Rule::ResultColumn, vec![leaf(Rule::Star, "*")])],
        )
    };
    let a = || node(Rule::Expr, vec![column("a")]);
    let group = || node(Rule::Exprs, vec![a()]);
    let core = |children: Vec<Node>| SelectCore::parse(&node(Rule::SelectQuery, children));
    let built = |children: Vec<Node>| match core(children) {
        Ok(SelectCore::Query { where_clause, group_by, having, .. }) => {
            (where_clause.is_some(), group_by.len(), having.is_some())
        }
        other => panic!("not a query: {:?}", other),
    };
    assert_eq!(built(vec![columns()]), (false, 0, false));
    assert_eq!(built(vec![columns(), a()]), (true, 0, false));
    assert_eq!(built(vec![columns(), group()]), (false, 1, false));
    assert_eq!(built(vec![columns(), group(), a()]), (false, 1, true));
    assert_eq!(built(vec![columns(), a(), group(), a()]), (true, 1, true));
    assert_eq!(core(vec![columns(), a(), a()]), Err(refused(Rule::SelectQuery)));
    assert_eq!(core(vec![columns(), a(), group(), a(), a()]), Err(refused(Rule::SelectQuery)));
}

#[test]
fn an_operator_in_a_list_may_be_spelled_either_way() {
    let inequality = |spelling: &str| {
        node(Rule::Expr, vec![column("a"), leaf(Rule::Ne, spelling), column("b")])
    };
    let listed = |spelling: &str| {
        node(
            Rule::Expr,
            vec![
                leaf(Rule::LogicalNot, "not"),
                node(Rule::Exprs, vec![inequality(spelling), inequality("!=")]),
            ],
        )
    };
    assert_eq!(Expr::parse(&listed("<>")), Expr::parse(&listed("!=")));
    assert!(Expr::parse(&listed("<>")).is_ok());
}
