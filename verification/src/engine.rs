//! The grammar engine: from SQL text to a concrete syntax tree.
//!
//! The engine is `pest`, run on [`GRAMMAR`] by `pest_vm`. Nothing here is
//! proved of what it makes of a text: its answer depends on the process as
//! well as on the text, since it gives up where a process-wide call limit or
//! the native stack runs out. What is proved is the conversion of its trees
//! into [`Node`]s, and everything that is done with the nodes afterwards.

use vstd::prelude::*;
use vstd::string::StringExecFns;
use pest::error::{Error, ErrorVariant, InputLocation};
use pest::iterators::{Pair, Pairs};
use pest_meta::optimizer::OptimizedRule;
use pest_vm::Vm;
use crate::ast::{Stmt, StmtModel};
use crate::cst::{
    forest, lemma_node_model, lemma_rule_named, rule_name, rule_named, same_text, Cst, Node, Rule,
};
use crate::error::{outcome, ParseError, StructuralError, SyntaxError};
use crate::grammar::GRAMMAR;
use crate::parser::stmt::{build_script, script_of};

verus! {

/// `pest::iterators::Pairs`: the trees that the engine hands out, one after
/// the other.
#[verifier::external_type_specification]
#[verifier::external_body]
#[verifier::reject_recursive_types(R)]
pub struct ExPairs<'i, R>(Pairs<'i, R>);

/// `pest::iterators::Pair`: one tree of the engine.
#[verifier::external_type_specification]
#[verifier::external_body]
#[verifier::reject_recursive_types(R)]
pub struct ExPair<'i, R>(Pair<'i, R>);

/// `pest::error::Error`: the engine's report of a text that it refuses.
#[verifier::external_type_specification]
#[verifier::external_body]
#[verifier::reject_recursive_types(R)]
pub struct ExError<R>(Error<R>);

/// `pest_meta::optimizer::OptimizedRule`: one rule of a compiled grammar.
#[verifier::external_type_specification]
#[verifier::external_body]
pub struct ExOptimizedRule(OptimizedRule);

/// `pest_vm::Vm`: a compiled grammar, ready to run.
#[verifier::external_type_specification]
#[verifier::external_body]
pub struct ExVm(Vm);

/// A tree as the engine hands it out: each node under the name of its rule.
pub ghost struct Parse {
    pub rule: Seq<char>,
    pub text: Seq<char>,
    pub children: Seq<Parse>,
}

/// The trees that are left in a `Pairs`, in the order in which it gives them.
pub uninterp spec fn pairs_held(pairs: Pairs<&str>) -> Seq<Parse>;

/// The tree that a `Pair` is: its rule's name, the text it spans, and its
/// inner pairs.
pub uninterp spec fn pair_held(pair: Pair<&str>) -> Parse;

/// The name of a compiled rule.
pub uninterp spec fn rule_label(rule: OptimizedRule) -> Seq<char>;

/// The rules that a `Vm` holds, each under its name.
pub uninterp spec fn vm_rules(vm: Vm) -> Map<Seq<char>, OptimizedRule>;

/// Whether a table of rules is one that `pest_meta` has validated: every
/// rule that its rules refer to is in it or built in.
pub uninterp spec fn validated(rules: Map<Seq<char>, OptimizedRule>) -> bool;

/// Whether a rule of the name `name` is among `rules`.
pub open spec fn defines(rules: Seq<OptimizedRule>, name: Seq<char>) -> bool {
    exists|i: int| 0 <= i < rules.len() && rule_label(#[trigger] rules[i]) == name
}

/// The place of the last rule of the name `name` in a list that has one.
pub open spec fn last_named(rules: Seq<OptimizedRule>, name: Seq<char>) -> int {
    choose|i: int|
        {
            &&& 0 <= i < rules.len()
            &&& rule_label(rules[i]) == name
            &&& forall|j: int| i < j < rules.len() ==> rule_label(#[trigger] rules[j]) != name
        }
}

/// The table that a list of rules makes: under each name that the list
/// holds, the last rule of that name.
pub open spec fn table_of(rules: Seq<OptimizedRule>) -> Map<Seq<char>, OptimizedRule> {
    Map::new(
        |name: Seq<char>| defines(rules, name),
        |name: Seq<char>| rules[last_named(rules, name)],
    )
}

/// `Pairs::next`: takes the first of the trees that are left, if there is one.
#[verifier::external_body]
fn next_pair<'i>(pairs: &mut Pairs<'i, &'i str>) -> (next: Option<Pair<'i, &'i str>>)
    ensures
        match next {
            Some(pair) => pairs_held(*old(pairs)).len() > 0 && pair_held(pair) == pairs_held(
                *old(pairs),
            )[0] && pairs_held(*final(pairs)) == pairs_held(*old(pairs)).skip(1),
            None => pairs_held(*old(pairs)).len() == 0 && pairs_held(*final(pairs)) == pairs_held(
                *old(pairs),
            ),
        },
{
    pairs.next()
}

/// `Pair::as_rule`: the rule that made the pair. The engine runs with rules
/// known by their names.
#[verifier::external_body]
fn pair_rule<'i>(pair: &Pair<'i, &'i str>) -> (name: &'i str)
    ensures
        name@ == pair_held(*pair).rule,
{
    pair.as_rule()
}

/// `Pair::as_str`: the text that the pair spans.
#[verifier::external_body]
fn pair_text<'i>(pair: &Pair<'i, &'i str>) -> (text: &'i str)
    ensures
        text@ == pair_held(*pair).text,
{
    pair.as_str()
}

/// `Pair::into_inner`: the pairs inside the pair.
#[verifier::external_body]
fn pair_children<'i>(pair: Pair<'i, &'i str>) -> (inner: Pairs<'i, &'i str>)
    ensures
        pairs_held(inner) == pair_held(pair).children,
{
    pair.into_inner()
}

/// `pest_meta::parse_and_optimize`: compiles a grammar. Rules that it hands
/// out have passed its validation. Only the grammar of this library is ever
/// compiled, and nothing is claimed of another. Whether it hands out rules
/// is not a matter of the grammar alone: it reads the grammar with `pest`,
/// which gives up where a process-wide call limit or the native stack runs
/// out.
#[verifier::external_body]
fn compile(grammar: &str) -> (rules: Option<Vec<OptimizedRule>>)
    requires
        grammar@ == GRAMMAR@,
    ensures
        rules is Some ==> validated(table_of(rules->Some_0@)),
{
    pest_meta::parse_and_optimize(grammar).ok().map(|compiled| compiled.1)
}

/// The field `name` of a compiled rule.
#[verifier::external_body]
fn label(rule: &OptimizedRule) -> (name: &str)
    ensures
        name@ == rule_label(*rule),
{
    rule.name.as_str()
}

/// `Vm::new`: a machine that holds the rules it is given in a map by their
/// names, a later rule in place of an earlier one of the same name.
#[verifier::external_body]
fn machine(rules: Vec<OptimizedRule>) -> (vm: Vm)
    ensures
        vm_rules(vm) == table_of(rules@),
{
    Vm::new(rules)
}

/// `Vm::parse`: runs the rule `rule` on `input`. It panics on a rule that is
/// not defined, so the rules must be validated and hold the one asked for.
/// Nothing is claimed of its answer.
#[verifier::external_body]
fn run<'a>(vm: &'a Vm, rule: &'a str, input: &'a str) -> (parsed: Result<
    Pairs<'a, &'a str>,
    Error<&'a str>,
>)
    requires
        validated(vm_rules(*vm)),
        vm_rules(*vm).dom().contains(rule@),
{
    vm.parse(rule, input)
}

/// The fields of the engine's error: where it gave up, and the rules that it
/// would have taken there, or the message of an error that is no mismatch.
#[verifier::external_body]
fn refusal(error: Error<&str>) -> (refused: SyntaxError) {
    let position = match error.location {
        InputLocation::Pos(at) => at,
        InputLocation::Span((start, _)) => start,
    };
    let (expected, message) = match error.variant {
        ErrorVariant::ParsingError { positives, .. } => (positives, String::new()),
        ErrorVariant::CustomError { message } => (Vec::new(), message),
    };
    SyntaxError { position, expected: expected.into_iter().map(String::from).collect(), message }
}

/// The node that a tree of the engine stands for: the same tree, with each
/// rule's name replaced by its tag. A name that is no tag's makes the tree
/// useless; the error then carries `parent`, the tag of the node above it.
pub open spec fn node_of(parse: Parse, parent: Rule) -> Result<Cst, StructuralError>
    decreases parse, 0nat,
{
    match rule_named(parse.rule) {
        None => Err(StructuralError { rule: parent }),
        Some(rule) => match nodes_upto(parse.children, rule, parse.children.len() as int) {
            Err(e) => Err(e),
            Ok(children) => Ok(Cst { rule, text: parse.text, children }),
        },
    }
}

/// The nodes that the first `n` trees of a list stand for, or the error of
/// the first tree that is useless.
pub open spec fn nodes_upto(list: Seq<Parse>, parent: Rule, n: int) -> Result<
    Seq<Cst>,
    StructuralError,
>
    decreases list, n,
{
    if 0 < n <= list.len() {
        match nodes_upto(list, parent, n - 1) {
            Err(e) => Err(e),
            Ok(front) => match node_of(list[n - 1], parent) {
                Err(e) => Err(e),
                Ok(node) => Ok(front.push(node)),
            },
        }
    } else {
        Ok(Seq::empty())
    }
}

/// A node that a tree of the engine stands for keeps the tree's text and
/// has as many children as the tree, and its tag is the one that the tree's
/// rule names.
pub proof fn lemma_node_keeps_shape(parse: Parse, parent: Rule)
    ensures
        node_of(parse, parent) matches Ok(cst) ==> {
            &&& rule_name(cst.rule) == parse.rule
            &&& cst.text == parse.text
            &&& cst.children.len() == parse.children.len()
        },
{
    lemma_rule_named(parse.rule);
    if let Some(rule) = rule_named(parse.rule) {
        lemma_nodes_count(parse.children, rule, parse.children.len() as int);
    }
}

/// The first `n` trees of a list stand for `n` nodes, if they stand for any.
pub proof fn lemma_nodes_count(list: Seq<Parse>, parent: Rule, n: int)
    requires
        0 <= n <= list.len(),
    ensures
        nodes_upto(list, parent, n) matches Ok(nodes) ==> nodes.len() == n,
    decreases n,
{
    if n > 0 {
        lemma_nodes_count(list, parent, n - 1);
    }
}

/// Once the first `n` trees have failed, the first `m` fail with the same
/// error, for every `m` from `n` on.
pub proof fn lemma_nodes_upto_fails(list: Seq<Parse>, parent: Rule, n: int, m: int)
    requires
        0 <= n <= m <= list.len(),
        nodes_upto(list, parent, n) is Err,
    ensures
        nodes_upto(list, parent, m) == nodes_upto(list, parent, n),
    decreases m - n,
{
    if n < m {
        lemma_nodes_upto_fails(list, parent, n, m - 1);
    }
}

/// Converts one tree of the engine.
fn convert(pair: Pair<&str>, parent: Rule) -> (node: Result<Node, StructuralError>)
    ensures
        outcome(node) == node_of(pair_held(pair), parent),
    decreases pair_held(pair), 0nat,
{
    let rule = match Rule::from_name(pair_rule(&pair)) {
        Some(rule) => rule,
        None => {
            return Err(StructuralError { rule: parent });
        },
    };
    let text = String::from_str(pair_text(&pair));
    let children = convert_each(pair_children(pair), rule)?;
    let node = Node { rule, text, children };
    proof {
        lemma_node_model(node);
        assert(forest(children@) =~= children.deep_view());
    }
    Ok(node)
}

/// Converts the trees that the engine hands out, in order.
fn convert_each(pairs: Pairs<&str>, parent: Rule) -> (nodes: Result<Vec<Node>, StructuralError>)
    ensures
        outcome(nodes) == nodes_upto(
            pairs_held(pairs),
            parent,
            pairs_held(pairs).len() as int,
        ),
    decreases pairs_held(pairs), pairs_held(pairs).len(),
{
    let ghost all = pairs_held(pairs);
    let mut rest = pairs;
    let mut nodes: Vec<Node> = Vec::new();
    let ghost mut done: int = 0;
    proof {
        assert(nodes.deep_view() =~= Seq::empty());
        assert(all.skip(0) =~= all);
    }
    loop
        invariant
            0 <= done <= all.len(),
            all == pairs_held(pairs),
            pairs_held(rest) == all.skip(done),
            nodes_upto(all, parent, done) == Ok::<Seq<Cst>, StructuralError>(nodes.deep_view()),
        decreases all.len() - done,
    {
        match next_pair(&mut rest) {
            None => {
                return Ok(nodes);
            },
            Some(pair) => {
                proof {
                    assert(all.skip(done)[0] == all[done]);
                    assert(all.skip(done).skip(1) =~= all.skip(done + 1));
                }
                match convert(pair, parent) {
                    Ok(node) => {
                        let ghost before = nodes.deep_view();
                        nodes.push(node);
                        proof {
                            assert(nodes.deep_view() =~= before.push(node.deep_view()));
                            done = done + 1;
                        }
                    },
                    Err(e) => {
                        proof {
                            assert(nodes_upto(all, parent, done + 1) == Err::<
                                Seq<Cst>,
                                StructuralError,
                            >(e));
                            lemma_nodes_upto_fails(all, parent, done + 1, all.len() as int);
                        }
                        return Err(e);
                    },
                }
            },
        }
    }
}

/// The names of a list of rules, rule for rule.
pub open spec fn labels_of(rules: Seq<OptimizedRule>) -> Seq<Seq<char>> {
    Seq::new(rules.len(), |i: int| rule_label(rules[i]))
}

/// The names of a list of rules are the names under which its table holds
/// a rule.
pub proof fn lemma_labels_name_the_table(rules: Seq<OptimizedRule>)
    ensures
        forall|name: Seq<char>|
            labels_of(rules).contains(name) <==> #[trigger] table_of(rules).dom().contains(name),
{
    assert forall|name: Seq<char>|
        labels_of(rules).contains(name) <==> #[trigger] table_of(rules).dom().contains(
            name,
        ) by {
        if labels_of(rules).contains(name) {
            let i = choose|i: int| 0 <= i < labels_of(rules).len() && labels_of(rules)[i] == name;
            assert(rule_label(rules[i]) == name);
        }
        if defines(rules, name) {
            let i = choose|i: int| 0 <= i < rules.len() && rule_label(#[trigger] rules[i]) == name;
            assert(labels_of(rules)[i] == name);
        }
    }
}

/// The names of the rules in `rules`, rule for rule.
fn labels(rules: &Vec<OptimizedRule>) -> (names: Vec<String>)
    ensures
        names.deep_view() == labels_of(rules@),
{
    let mut names: Vec<String> = Vec::new();
    let mut i: usize = 0;
    while i < rules.len()
        invariant
            i <= rules.len(),
            names.len() == i,
            forall|j: int| 0 <= j < i ==> (#[trigger] names@[j])@ == rule_label(rules@[j]),
        decreases rules.len() - i,
    {
        names.push(String::from_str(label(&rules[i])));
        i += 1;
    }
    proof {
        assert(names.deep_view() =~= labels_of(rules@));
    }
    names
}

/// Whether `name` is among `names`.
fn listed(names: &Vec<String>, name: &str) -> (found: bool)
    ensures
        found == names.deep_view().contains(name@),
{
    let mut i: usize = 0;
    while i < names.len()
        invariant
            i <= names.len(),
            forall|j: int| 0 <= j < i ==> (#[trigger] names@[j])@ != name@,
        decreases names.len() - i,
    {
        if same_text(names[i].as_str(), name) {
            proof {
                assert(names.deep_view()[i as int] == name@);
            }
            return true;
        }
        i += 1;
    }
    proof {
        assert forall|j: int| 0 <= j < names.deep_view().len() implies names.deep_view()[j]
            != name@ by {
            assert(names.deep_view()[j] == names@[j]@);
        }
    }
    false
}

/// The parser of the SQL dialect: the grammar, compiled.
pub struct SqlParser {
    vm: Vm,
    names: Vec<String>,
}

impl SqlParser {
    #[verifier::type_invariant]
    spec fn ready(&self) -> bool {
        &&& validated(vm_rules(self.vm))
        &&& forall|name: Seq<char>|
            self.names.deep_view().contains(name) <==> #[trigger] vm_rules(self.vm).dom().contains(
                name,
            )
    }

    /// The rules that this parser runs, each under its name.
    pub closed spec fn rules(&self) -> Map<Seq<char>, OptimizedRule> {
        vm_rules(self.vm)
    }

    /// The names by which this parser knows its rules.
    pub closed spec fn names(&self) -> Seq<Seq<char>> {
        self.names.deep_view()
    }

    /// Whether this parser knows its rules: the names it holds are those
    /// under which it runs a rule.
    pub open spec fn knows_its_rules(&self) -> bool {
        forall|name: Seq<char>|
            self.names().contains(name) <==> #[trigger] self.rules().dom().contains(name)
    }

    /// The parser of a compiled grammar: one that runs the rules of the
    /// grammar and knows each by its name. Of a grammar that did not compile
    /// there is none.
    fn of(compiled: Option<Vec<OptimizedRule>>) -> (parser: Option<SqlParser>)
        requires
            compiled matches Some(rules) ==> validated(table_of(rules@)),
        ensures
            parser is Some <==> compiled is Some,
            parser matches Some(made) ==> made.rules() == table_of(compiled->Some_0@)
                && made.names() == labels_of(compiled->Some_0@),
    {
        match compiled {
            Some(rules) => {
                let names = labels(&rules);
                proof {
                    lemma_labels_name_the_table(rules@);
                }
                Some(SqlParser { vm: machine(rules), names })
            },
            None => None,
        }
    }

    /// Compiles the grammar. The grammar that this library ships compiles;
    /// were it otherwise, there would be no parser. A parser that is made
    /// runs rules that the compiler has validated, and knows each of them by
    /// its name.
    pub fn new() -> (parser: Option<SqlParser>)
        ensures
            parser matches Some(made) ==> validated(made.rules()) && made.knows_its_rules(),
    {
        let compiled = compile(GRAMMAR);
        proof {
            if compiled is Some {
                lemma_labels_name_the_table(compiled->Some_0@);
            }
        }
        SqlParser::of(compiled)
    }

    /// Runs the grammar on `input`, starting from the rule `rule`, and hands
    /// out the trees that the engine makes of it. The rule need not take in
    /// all of the text: what it leaves is not looked at.
    ///
    /// A rule that this parser does not know is refused before the engine
    /// is asked, with an error of structure that carries the rule. Of a rule
    /// that it knows, the nodes that come back are those that [`nodes_upto`]
    /// makes of the engine's trees, and an error of structure is the one
    /// that [`nodes_upto`] gives for them: the grammar has made a node under
    /// a name that is no tag's.
    pub fn parse(&self, rule: Rule, input: &str) -> (nodes: Result<Vec<Node>, ParseError>)
        ensures
            !self.names().contains(rule_name(rule)) ==> nodes == Err::<Vec<Node>, ParseError>(
                ParseError::Structure(StructuralError { rule }),
            ),
            nodes is Ok ==> self.names().contains(rule_name(rule)),
            self.names().contains(rule_name(rule)) ==> match nodes {
                Ok(list) => exists|trees: Seq<Parse>|
                    nodes_upto(trees, rule, trees.len() as int) == Ok::<Seq<Cst>, StructuralError>(
                        list.deep_view(),
                    ),
                Err(ParseError::Structure(e)) => exists|trees: Seq<Parse>|
                    nodes_upto(trees, rule, trees.len() as int) == Err::<
                        Seq<Cst>,
                        StructuralError,
                    >(e),
                Err(ParseError::Syntax(_)) => true,
            },
    {
        proof {
            use_type_invariant(self);
        }
        if !listed(&self.names, rule.name()) {
            return Err(ParseError::Structure(StructuralError { rule }));
        }
        match run(&self.vm, rule.name(), input) {
            Err(error) => Err(ParseError::Syntax(refusal(error))),
            Ok(pairs) => {
                let ghost trees = pairs_held(pairs);
                match convert_each(pairs, rule) {
                    Ok(nodes) => {
                        proof {
                            assert(nodes_upto(trees, rule, trees.len() as int) == Ok::<
                                Seq<Cst>,
                                StructuralError,
                            >(nodes.deep_view()));
                        }
                        Ok(nodes)
                    },
                    Err(e) => {
                        proof {
                            assert(nodes_upto(trees, rule, trees.len() as int) == Err::<
                                Seq<Cst>,
                                StructuralError,
                            >(e));
                        }
                        Err(ParseError::Structure(e))
                    },
                }
            },
        }
    }

    /// Parses a script with this parser: see [`parse_stmt`](crate::parse_stmt).
    pub fn statements(&self, input: &str) -> (parsed: Result<Vec<Stmt>, ParseError>)
        ensures
            script_outcome(parsed),
            parsed matches Ok(stmts) ==> stmts@.len() >= 1,
            !self.names().contains(rule_name(Rule::Script)) ==> parsed == Err::<
                Vec<Stmt>,
                ParseError,
            >(ParseError::Structure(StructuralError { rule: Rule::Script })),
            parsed is Ok ==> self.names().contains(rule_name(Rule::Script)),
    {
        let nodes = match self.parse(Rule::Script, input) {
            Ok(nodes) => nodes,
            Err(e) => {
                return Err(e);
            },
        };
        match build_script(&nodes) {
            Ok(stmts) => {
                proof {
                    assert(script_of(nodes.deep_view()) == Ok::<Seq<StmtModel>, StructuralError>(
                        stmts.deep_view(),
                    ));
                }
                Ok(stmts)
            },
            Err(e) => {
                proof {
                    assert(script_of(nodes.deep_view()) == Err::<Seq<StmtModel>, StructuralError>(
                        e,
                    ));
                }
                Err(ParseError::Structure(e))
            },
        }
    }
}

/// What holds of every answer to a script, whatever the engine made of the
/// text. Statements are those that [`script_of`] makes of some list of trees.
/// An error of structure is one that [`script_of`] gives for some list of
/// trees, or one of a grammar that does not define scripts or makes nodes
/// under names that are no tags'.
pub open spec fn script_outcome(parsed: Result<Vec<Stmt>, ParseError>) -> bool {
    match parsed {
        Ok(stmts) => exists|trees: Seq<Cst>|
            script_of(trees) == Ok::<Seq<StmtModel>, StructuralError>(stmts.deep_view()),
        Err(ParseError::Structure(e)) => {
            ||| e.rule == Rule::Script
            ||| exists|trees: Seq<Cst>|
                script_of(trees) == Err::<Seq<StmtModel>, StructuralError>(e)
            ||| exists|trees: Seq<Parse>|
                nodes_upto(trees, Rule::Script, trees.len() as int) == Err::<
                    Seq<Cst>,
                    StructuralError,
                >(e)
        },
        Err(ParseError::Syntax(_)) => true,
    }
}

} // verus!
