use pesqlite::grammar::GRAMMAR;
use pesqlite::{ParseError, Rule, SqlParser};

#[test]
fn grammar_compiles() {
    match pest_meta::parse_and_optimize(GRAMMAR) {
        Ok(_) => {}
        Err(errors) => {
            for error in &errors {
                println!("{}", error);
            }
            panic!("the grammar does not compile");
        }
    }
}

#[test]
fn grammar_defines_each_entry_rule() {
    let parser = SqlParser::new().expect("the grammar compiles");
    let rules = [
        Rule::Script,
        Rule::Stmt,
        Rule::Select,
        Rule::Insert,
        Rule::Update,
        Rule::Delete,
        Rule::CreateTable,
        Rule::CreateIndex,
        Rule::CreateView,
        Rule::CreateTrigger,
        Rule::AlterTable,
        Rule::DropTable,
        Rule::DropIndex,
        Rule::DropView,
        Rule::DropTrigger,
        Rule::Begin,
        Rule::Commit,
        Rule::Rollback,
        Rule::Savepoint,
        Rule::Release,
        Rule::Expr,
        Rule::Literal,
    ];
    for rule in rules {
        assert!(!matches!(
            parser.parse(rule, ""),
            Err(ParseError::Structure(_))
        ));
    }
}
