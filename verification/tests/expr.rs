use pest::iterators::Pair;
use pest::pratt_parser::{Assoc, Op, PrattParser};
use pest_vm::Vm;

use pesqlite::grammar::GRAMMAR;
use pesqlite::parser::expr::{
    binary_power, infix_operator, parse_primary, prefix_operator, unary_power,
};
use pesqlite::{BinaryOp, Expr, Literal, Node, Parser, Rule, SqlParser, UnaryOp};

fn first(parser: &SqlParser, rule: Rule, input: &str) -> Node {
    match parser.parse(rule, input) {
        Ok(mut nodes) => nodes.remove(0),
        Err(e) => panic!("Failed to parse input '{}': {:?}", input, e),
    }
}

fn expr(parser: &SqlParser, input: &str) -> Expr {
    let node = first(parser, Rule::Expr, input);
    assert_eq!(node.text, input, "only a part of '{}' was parsed", input);
    match Expr::parse(&node) {
        Ok(expr) => expr,
        Err(e) => panic!("Failed to build '{}': {:?}", input, e),
    }
}

fn column(name: &str) -> Expr {
    Expr::QualifiedColumn(None, None, name.to_owned())
}

fn integer(text: &str) -> Expr {
    Expr::Literal(Literal::Integer(text.to_owned()))
}

fn binary(lhs: Expr, op: BinaryOp, rhs: Expr) -> Expr {
    Expr::Binary(Box::new(lhs), op, Box::new(rhs))
}

fn unary(op: UnaryOp, rhs: Expr) -> Expr {
    Expr::Unary(op, Box::new(rhs))
}

#[test]
fn multiplication_binds_tighter_than_addition() {
    let parser = SqlParser::new().expect("the grammar compiles");
    assert_eq!(
        expr(&parser, "1 + 2 * 3"),
        binary(integer("1"), BinaryOp::Plus, binary(integer("2"), BinaryOp::Mul, integer("3")))
    );
    assert_ne!(
        expr(&parser, "1 + 2 * 3"),
        binary(binary(integer("1"), BinaryOp::Plus, integer("2")), BinaryOp::Mul, integer("3"))
    );
    assert_eq!(
        expr(&parser, "1 * 2 + 3"),
        binary(binary(integer("1"), BinaryOp::Mul, integer("2")), BinaryOp::Plus, integer("3"))
    );
}

#[test]
fn subtraction_associates_to_the_left() {
    let parser = SqlParser::new().expect("the grammar compiles");
    assert_eq!(
        expr(&parser, "a - b - c"),
        binary(binary(column("a"), BinaryOp::Minus, column("b")), BinaryOp::Minus, column("c"))
    );
    assert_eq!(
        expr(&parser, "a - b + c - d"),
        binary(
            binary(
                binary(column("a"), BinaryOp::Minus, column("b")),
                BinaryOp::Plus,
                column("c")
            ),
            BinaryOp::Minus,
            column("d")
        )
    );
}

#[test]
fn is_not_null_is_a_plain_binary() {
    let parser = SqlParser::new().expect("the grammar compiles");
    assert_eq!(
        expr(&parser, "a IS NOT NULL"),
        binary(column("a"), BinaryOp::IsNot, Expr::Literal(Literal::Null))
    );
    assert_eq!(
        expr(&parser, "a IS NOT FALSE"),
        binary(column("a"), BinaryOp::IsNot, Expr::Literal(Literal::Bool(false)))
    );
    assert_eq!(
        expr(&parser, "a IS TRUE"),
        binary(column("a"), BinaryOp::Is, Expr::Literal(Literal::Bool(true)))
    );
    assert_eq!(
        expr(&parser, "a is   not b"),
        binary(column("a"), BinaryOp::IsNot, column("b"))
    );
}

#[test]
fn both_spellings_of_an_operator_give_one_node() {
    let parser = SqlParser::new().expect("the grammar compiles");
    assert_eq!(expr(&parser, "a <> b"), binary(column("a"), BinaryOp::Ne, column("b")));
    assert_eq!(expr(&parser, "a != b"), binary(column("a"), BinaryOp::Ne, column("b")));
    assert_eq!(expr(&parser, "a <> b"), expr(&parser, "a != b"));
    assert_eq!(expr(&parser, "a = b"), binary(column("a"), BinaryOp::Eq, column("b")));
    assert_eq!(expr(&parser, "a == b"), expr(&parser, "a = b"));
}

#[test]
fn each_operator_is_recognised() {
    let parser = SqlParser::new().expect("the grammar compiles");
    let infix = [
        ("||", BinaryOp::Concat),
        ("*", BinaryOp::Mul),
        ("/", BinaryOp::Div),
        ("%", BinaryOp::Mod),
        ("+", BinaryOp::Plus),
        ("-", BinaryOp::Minus),
        ("&", BinaryOp::BitwiseAnd),
        ("|", BinaryOp::BitwiseOr),
        (">>", BinaryOp::RightShift),
        ("<<", BinaryOp::LeftShift),
        ("<", BinaryOp::Lt),
        ("<=", BinaryOp::Le),
        (">", BinaryOp::Gt),
        (">=", BinaryOp::Ge),
        ("=", BinaryOp::Eq),
        ("!=", BinaryOp::Ne),
        ("is", BinaryOp::Is),
        ("is not", BinaryOp::IsNot),
        ("and", BinaryOp::LogicalAnd),
        ("or", BinaryOp::LogicalOr),
    ];
    for (spelling, op) in infix {
        let input = format!("a {} b", spelling);
        assert_eq!(expr(&parser, &input), binary(column("a"), op, column("b")));
    }
    let prefix = [
        ("~", UnaryOp::BitwiseNot),
        ("+", UnaryOp::Positive),
        ("-", UnaryOp::Negative),
        ("not ", UnaryOp::LogicalNot),
    ];
    for (spelling, op) in prefix {
        let input = format!("{}a", spelling);
        assert_eq!(expr(&parser, &input), unary(op, column("a")));
    }
}

#[test]
fn binding_powers_follow_the_table() {
    assert_eq!(binary_power(BinaryOp::LogicalOr), 1);
    assert_eq!(binary_power(BinaryOp::LogicalAnd), 2);
    assert_eq!(unary_power(UnaryOp::LogicalNot), 3);
    assert_eq!(binary_power(BinaryOp::Is), 4);
    assert_eq!(binary_power(BinaryOp::IsNot), 4);
    assert_eq!(binary_power(BinaryOp::Eq), 5);
    assert_eq!(binary_power(BinaryOp::Ne), 5);
    assert_eq!(binary_power(BinaryOp::Lt), 6);
    assert_eq!(binary_power(BinaryOp::Le), 6);
    assert_eq!(binary_power(BinaryOp::Gt), 6);
    assert_eq!(binary_power(BinaryOp::Ge), 6);
    assert_eq!(binary_power(BinaryOp::BitwiseAnd), 7);
    assert_eq!(binary_power(BinaryOp::BitwiseOr), 7);
    assert_eq!(binary_power(BinaryOp::RightShift), 7);
    assert_eq!(binary_power(BinaryOp::LeftShift), 7);
    assert_eq!(binary_power(BinaryOp::Plus), 8);
    assert_eq!(binary_power(BinaryOp::Minus), 8);
    assert_eq!(binary_power(BinaryOp::Mul), 9);
    assert_eq!(binary_power(BinaryOp::Div), 9);
    assert_eq!(binary_power(BinaryOp::Mod), 9);
    assert_eq!(binary_power(BinaryOp::Concat), 10);
    assert_eq!(unary_power(UnaryOp::BitwiseNot), 11);
    assert_eq!(unary_power(UnaryOp::Positive), 11);
    assert_eq!(unary_power(UnaryOp::Negative), 11);
}

#[test]
fn prefix_operators_take_what_binds_at_least_as_tightly() {
    let parser = SqlParser::new().expect("the grammar compiles");
    assert_eq!(
        expr(&parser, "NOT a = b"),
        unary(UnaryOp::LogicalNot, binary(column("a"), BinaryOp::Eq, column("b")))
    );
    assert_eq!(
        expr(&parser, "NOT a AND b"),
        binary(unary(UnaryOp::LogicalNot, column("a")), BinaryOp::LogicalAnd, column("b"))
    );
    assert_eq!(
        expr(&parser, "-a * b"),
        binary(unary(UnaryOp::Negative, column("a")), BinaryOp::Mul, column("b"))
    );
    assert_eq!(
        expr(&parser, "a + -b"),
        binary(column("a"), BinaryOp::Plus, unary(UnaryOp::Negative, column("b")))
    );
    assert_eq!(
        expr(&parser, "NOT NOT a"),
        unary(UnaryOp::LogicalNot, unary(UnaryOp::LogicalNot, column("a")))
    );
    assert_eq!(
        expr(&parser, "a + NOT b = c"),
        binary(
            column("a"),
            BinaryOp::Plus,
            unary(UnaryOp::LogicalNot, binary(column("b"), BinaryOp::Eq, column("c")))
        )
    );
}

#[test]
fn parentheses_make_a_list() {
    let parser = SqlParser::new().expect("the grammar compiles");
    assert_eq!(
        expr(&parser, "(1 + 2) * 3"),
        binary(
            Expr::ExprList(vec![binary(integer("1"), BinaryOp::Plus, integer("2"))]),
            BinaryOp::Mul,
            integer("3")
        )
    );
    assert_eq!(
        expr(&parser, "(a, b, 3)"),
        Expr::ExprList(vec![column("a"), column("b"), integer("3")])
    );
}

#[test]
fn qualified_columns_have_one_to_three_segments() {
    let parser = SqlParser::new().expect("the grammar compiles");
    assert_eq!(expr(&parser, "c"), Expr::QualifiedColumn(None, None, "c".to_owned()));
    assert_eq!(
        expr(&parser, "t.c"),
        Expr::QualifiedColumn(None, Some("t".to_owned()), "c".to_owned())
    );
    assert_eq!(
        expr(&parser, "s.t.c"),
        Expr::QualifiedColumn(Some("s".to_owned()), Some("t".to_owned()), "c".to_owned())
    );
    assert_eq!(
        expr(&parser, "S.\"T\".C"),
        Expr::QualifiedColumn(Some("s".to_owned()), Some("T".to_owned()), "c".to_owned())
    );
}

fn node_of(pair: Pair<&str>) -> Node {
    Node {
        rule: Rule::from_name(pair.as_rule()).expect("every rule has a tag"),
        text: pair.as_str().to_owned(),
        children: pair.into_inner().map(node_of).collect(),
    }
}

fn tag(pair: &Pair<&str>) -> Rule {
    Rule::from_name(pair.as_rule()).expect("every rule has a tag")
}

fn climb_with_pest<'i>(table: &PrattParser<&'i str>, pair: Pair<'i, &'i str>) -> Expr {
    table
        .map_primary(|primary| match primary.as_rule() {
            "exprs" => Expr::ExprList(
                primary.into_inner().map(|inner| climb_with_pest(table, inner)).collect(),
            ),
            _ => parse_primary(&node_of(primary)).expect("a primary"),
        })
        .map_infix(|lhs, op, rhs| {
            let op = infix_operator(tag(&op)).expect("an infix operator");
            Expr::Binary(Box::new(lhs), op, Box::new(rhs))
        })
        .map_prefix(|op, rhs| {
            let op = prefix_operator(tag(&op)).expect("a prefix operator");
            Expr::Unary(op, Box::new(rhs))
        })
        .parse(pair.into_inner())
}

#[test]
fn climbing_agrees_with_the_pratt_parser_of_pest() {
    let rules = pest_meta::parse_and_optimize(GRAMMAR).expect("the grammar compiles").1;
    let vm = Vm::new(rules);
    let table: PrattParser<&str> = PrattParser::new()
        .op(Op::infix("logical_or", Assoc::Left))
        .op(Op::infix("logical_and", Assoc::Left))
        .op(Op::prefix("logical_not"))
        .op(Op::infix("is_not", Assoc::Left) | Op::infix("is", Assoc::Left))
        .op(Op::infix("eq", Assoc::Left) | Op::infix("ne", Assoc::Left))
        .op(Op::infix("lt", Assoc::Left)
            | Op::infix("le", Assoc::Left)
            | Op::infix("gt", Assoc::Left)
            | Op::infix("ge", Assoc::Left))
        .op(Op::infix("bitwise_and", Assoc::Left)
            | Op::infix("bitwise_or", Assoc::Left)
            | Op::infix("right_shift", Assoc::Left)
            | Op::infix("left_shift", Assoc::Left))
        .op(Op::infix("plus", Assoc::Left) | Op::infix("minus", Assoc::Left))
        .op(Op::infix("mul", Assoc::Left)
            | Op::infix("div", Assoc::Left)
            | Op::infix("modulo", Assoc::Left))
        .op(Op::infix("concat", Assoc::Left))
        .op(Op::prefix("bitwise_not") | Op::prefix("positive") | Op::prefix("negative"));
    let samples = [
        "a",
        "1 + 2 * 3",
        "1 * 2 + 3",
        "a - b - c",
        "a + b * c - d / e",
        "a + b * c / d - e % f",
        "a OR b AND c",
        "a AND b OR c AND d",
        "NOT a = b",
        "NOT a AND b",
        "NOT NOT a OR b",
        "a + NOT b = c",
        "-a * b",
        "- - a",
        "~a || b",
        "a || b || c",
        "a IS NOT b = c",
        "a = b IS NOT c",
        "a < b = c > d",
        "a << b + c & d",
        "a | b >> c",
        "a + -b * +c",
        "(a + b) * (c, d)",
        "((a))",
        "x.y.z + 1.5e3 * 'text'",
        "a IS NULL AND NOT b IS NOT NULL OR c",
        "a % b * c / d",
        "a >= b AND c <= d OR e != f AND g <> h",
    ];
    for sample in samples {
        let pair = match vm.parse("expr", sample) {
            Ok(mut pairs) => pairs.next().expect("one pair"),
            Err(e) => panic!("Failed to parse input '{}': {}", sample, e),
        };
        assert_eq!(pair.as_str(), sample);
        let node = node_of(pair.clone());
        assert_eq!(Expr::parse(&node), Ok(climb_with_pest(&table, pair)), "on '{}'", sample);
    }
}
