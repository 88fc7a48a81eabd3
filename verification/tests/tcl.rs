use pesqlite::{
    Begin, Commit, Node, Parser, Release, Rollback, Rule, Savepoint, SqlParser, TransactionMode,
};

fn first(parser: &SqlParser, rule: Rule, input: &str) -> Node {
    match parser.parse(rule, input) {
        Ok(mut nodes) => nodes.remove(0),
        Err(e) => panic!("Failed to parse input '{}': {:?}", input, e),
    }
}

#[test]
fn test_begin() {
    let parser = SqlParser::new().expect("the grammar compiles");
    let cases = [
        ("BEGIN IMMEDIATE", Begin(TransactionMode::Immediate)),
        ("BEGIN EXCLUSIVE", Begin(TransactionMode::Exclusive)),
        ("BEGIN", Begin(TransactionMode::Deferred)),
    ];
    for (input, expected) in cases {
        assert_eq!(Begin::parse(&first(&parser, Rule::Begin, input)), Ok(expected));
    }
}

#[test]
fn test_commit() {
    let parser = SqlParser::new().expect("the grammar compiles");
    let cases = [("Commit", Commit), ("End", Commit), ("Commit Transaction", Commit)];
    for (input, expected) in cases {
        assert_eq!(Commit::parse(&first(&parser, Rule::Commit, input)), Ok(expected));
    }
}

#[test]
fn test_rollback() {
    let parser = SqlParser::new().expect("the grammar compiles");
    let cases = [
        ("ROLLBACK TO savepoint1", Rollback(Some("savepoint1".to_owned()))),
        ("ROLLBACK", Rollback(None)),
        ("ROLLBACK TRANSACTION TO \"Savepoint2\"", Rollback(Some("Savepoint2".to_owned()))),
    ];
    for (input, expected) in cases {
        assert_eq!(Rollback::parse(&first(&parser, Rule::Rollback, input)), Ok(expected));
    }
}

#[test]
fn test_savepoint() {
    let parser = SqlParser::new().expect("the grammar compiles");
    let cases = [
        ("SAVEPOINT sp1", Savepoint("sp1".to_owned())),
        ("SAVEPOINT \"MySavepoint\"", Savepoint("MySavepoint".to_owned())),
    ];
    for (input, expected) in cases {
        assert_eq!(Savepoint::parse(&first(&parser, Rule::Savepoint, input)), Ok(expected));
    }
}

#[test]
fn test_release() {
    let parser = SqlParser::new().expect("the grammar compiles");
    let cases = [
        ("RELEASE sp1", Release("sp1".to_owned())),
        ("RELEASE \"MySavepoint\"", Release("MySavepoint".to_owned())),
    ];
    for (input, expected) in cases {
        assert_eq!(Release::parse(&first(&parser, Rule::Release, input)), Ok(expected));
    }
}
