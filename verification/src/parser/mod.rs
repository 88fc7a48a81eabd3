//! The builders: from a concrete syntax tree to the abstract one.

pub mod ddl;
pub mod defaults;
pub mod dml;
pub mod expr;
pub mod ident;
pub mod literal;
pub mod nesting;
pub mod stmt;
pub mod tcl;

use vstd::prelude::*;
use crate::ast::{ConflictResolution, Expr, ExprModel, SchemaObject, SchemaObjectModel};
use crate::cst::{Cst, Node, Rule};
use crate::error::{mismatch, outcome, StructuralError};
use crate::parser::ident::ident_name;

verus! {

/// A type that a builder makes from one node of the concrete syntax tree.
pub trait Parser: DeepView + Sized {
    /// What the builder makes of a tree, or the error it gives up with.
    spec fn build(cst: Cst) -> Result<<Self as DeepView>::V, StructuralError>;

    /// Builds the value that `node` stands for.
    fn parse(node: &Node) -> (built: Result<Self, StructuralError>)
        ensures
            outcome(built) == Self::build(node.deep_view()),
    ;
}

/// Building is a function of the tree: two values that a builder has made
/// of trees with one model have one model themselves, and if the one
/// building failed, the other failed with the same error.
pub proof fn lemma_same_tree_same_value<T: Parser>(
    first: Node,
    second: Node,
    one: Result<T, StructuralError>,
    other: Result<T, StructuralError>,
)
    requires
        first.deep_view() == second.deep_view(),
        outcome(one) == T::build(first.deep_view()),
        outcome(other) == T::build(second.deep_view()),
    ensures
        outcome(one) == outcome(other),
{
}

/// What building each tree of a list gives: the values in order, or the
/// error of the first tree that fails.
pub open spec fn build_each<T: Parser>(trees: Seq<Cst>) -> Result<Seq<T::V>, StructuralError>
    decreases trees.len(),
{
    if trees.len() == 0 {
        Ok(Seq::empty())
    } else {
        match build_each::<T>(trees.drop_last()) {
            Err(e) => Err(e),
            Ok(front) => match T::build(trees.last()) {
                Err(e) => Err(e),
                Ok(value) => Ok(front.push(value)),
            },
        }
    }
}

/// A list that is built holds, for each tree, the value that is built of
/// that tree; a list that fails does so with the error of a tree before which
/// every tree can be built.
pub proof fn lemma_build_each<T: Parser>(trees: Seq<Cst>)
    ensures
        match build_each::<T>(trees) {
            Ok(values) => {
                &&& values.len() == trees.len()
                &&& forall|i: int|
                    0 <= i < trees.len() ==> T::build(#[trigger] trees[i]) == Ok::<
                        T::V,
                        StructuralError,
                    >(values[i])
            },
            Err(e) => exists|i: int|
                {
                    &&& 0 <= i < trees.len()
                    &&& T::build(#[trigger] trees[i]) == Err::<T::V, StructuralError>(e)
                    &&& forall|j: int| 0 <= j < i ==> T::build(#[trigger] trees[j]) is Ok
                },
        },
    decreases trees.len(),
{
    if trees.len() > 0 {
        let front = trees.drop_last();
        lemma_build_each::<T>(front);
        match build_each::<T>(front) {
            Ok(values) => {
                assert forall|j: int| 0 <= j < front.len() implies T::build(
                    #[trigger] trees[j],
                ) is Ok by {
                    assert(trees[j] == front[j]);
                }
                match T::build(trees.last()) {
                    Ok(value) => {
                        assert forall|i: int| 0 <= i < trees.len() implies T::build(
                            #[trigger] trees[i],
                        ) == Ok::<T::V, StructuralError>(values.push(value)[i]) by {
                            if i < front.len() {
                                assert(trees[i] == front[i]);
                            }
                        }
                    },
                    Err(e) => {
                        assert(T::build(trees[trees.len() - 1]) == Err::<T::V, StructuralError>(e));
                    },
                }
            },
            Err(e) => {
                let i = choose|i: int|
                    {
                        &&& 0 <= i < front.len()
                        &&& T::build(#[trigger] front[i]) == Err::<T::V, StructuralError>(e)
                        &&& forall|j: int| 0 <= j < i ==> T::build(#[trigger] front[j]) is Ok
                    };
                assert(trees[i] == front[i]);
                assert forall|j: int| 0 <= j < i implies T::build(#[trigger] trees[j]) is Ok by {
                    assert(trees[j] == front[j]);
                }
            },
        }
    }
}

/// Once a prefix of a list has failed, the whole list fails with the same error.
pub proof fn lemma_build_each_fails<T: Parser>(trees: Seq<Cst>, n: int)
    requires
        0 <= n <= trees.len(),
        build_each::<T>(trees.take(n)) is Err,
    ensures
        build_each::<T>(trees) == build_each::<T>(trees.take(n)),
    decreases trees.len() - n,
{
    if n == trees.len() {
        assert(trees.take(n) =~= trees);
    } else {
        assert(trees.take(n + 1).drop_last() =~= trees.take(n));
        lemma_build_each_fails::<T>(trees, n + 1);
    }
}

/// What building each child of a tree from position `from` on gives. A
/// tree with fewer than `from` children is itself at fault.
pub open spec fn build_from<T: Parser>(cst: Cst, from: int) -> Result<Seq<T::V>, StructuralError> {
    if 0 <= from <= cst.children.len() {
        build_each::<T>(cst.children.skip(from))
    } else {
        Err(mismatch(cst))
    }
}

/// Builds a value from each child of `node`, starting with the child at `from`.
pub fn parse_each<T: Parser>(node: &Node, from: usize) -> (built: Result<Vec<T>, StructuralError>)
    ensures
        outcome(built) == build_from::<T>(node.deep_view(), from as int),
{
    if from > node.len() {
        return Err(StructuralError { rule: node.rule() });
    }
    let ghost trees = node.deep_view().children.skip(from as int);
    let n = node.len();
    let mut values: Vec<T> = Vec::new();
    let mut i = from;
    proof {
        assert(trees.take(0).len() == 0);
        assert(values.deep_view() =~= Seq::empty());
    }
    while i < n
        invariant
            from <= i <= n,
            n == node.deep_view().children.len(),
            trees == node.deep_view().children.skip(from as int),
            build_each::<T>(trees.take(i - from)) == Ok::<Seq<T::V>, StructuralError>(
                values.deep_view(),
            ),
        decreases n - i,
    {
        proof {
            assert(trees.take(i - from + 1).drop_last() =~= trees.take(i - from));
            assert(trees.take(i - from + 1).last() == node.deep_view().children[i as int]);
        }
        match T::parse(node.child(i)) {
            Ok(value) => {
                let ghost before = values.deep_view();
                values.push(value);
                proof {
                    assert(values.deep_view() =~= before.push(value.deep_view()));
                }
            },
            Err(e) => {
                proof {
                    lemma_build_each_fails::<T>(trees, i - from + 1);
                }
                return Err(e);
            },
        }
        i += 1;
    }
    proof {
        assert(trees.take(n - from) =~= trees);
    }
    Ok(values)
}

/// What the builder of `T` makes of a tree: [`Parser::build`] under a name
/// that stays folded until it is revealed, for use where the builders of
/// many types meet.
#[verifier::opaque]
pub open spec fn built<T: Parser>(cst: Cst) -> Result<T::V, StructuralError> {
    T::build(cst)
}

/// Builds a value of the type `T` from `node`.
pub fn parse_as<T: Parser>(node: &Node) -> (value: Result<T, StructuralError>)
    ensures
        outcome(value) == built::<T>(node.deep_view()),
{
    reveal(built);
    T::parse(node)
}

/// Whether a tree has a child at position `i` that carries the tag `rule`.
pub open spec fn tagged(cst: Cst, i: int, rule: Rule) -> bool {
    0 <= i < cst.children.len() && cst.children[i].rule == rule
}

/// The position after an optional child: `i + 1` where the child at `i`
/// carries the tag `rule`, and `i` where it does not.
pub open spec fn after(cst: Cst, i: int, rule: Rule) -> int {
    if tagged(cst, i, rule) {
        i + 1
    } else {
        i
    }
}

/// What building the child at position `i` gives. A tree without such a
/// child is itself at fault.
pub open spec fn build_at<T: Parser>(cst: Cst, i: int) -> Result<T::V, StructuralError> {
    if 0 <= i < cst.children.len() {
        T::build(cst.children[i])
    } else {
        Err(mismatch(cst))
    }
}

/// What building an optional child gives: nothing where the child at
/// position `i` does not carry the tag `rule`.
pub open spec fn build_opt<T: Parser>(cst: Cst, i: int, rule: Rule) -> Result<
    Option<T::V>,
    StructuralError,
> {
    if tagged(cst, i, rule) {
        match T::build(cst.children[i]) {
            Err(e) => Err(e),
            Ok(value) => Ok(Some(value)),
        }
    } else {
        Ok(None)
    }
}

/// What building the children of a list node gives. The node must carry the
/// tag `rule`.
pub open spec fn build_list<T: Parser>(cst: Cst, rule: Rule) -> Result<Seq<T::V>, StructuralError> {
    if cst.rule == rule {
        build_each::<T>(cst.children)
    } else {
        Err(mismatch(cst))
    }
}

/// What building an optional list node gives: the empty list where the child
/// at position `i` does not carry the tag `rule`.
pub open spec fn build_opt_list<T: Parser>(cst: Cst, i: int, rule: Rule) -> Result<
    Seq<T::V>,
    StructuralError,
> {
    if tagged(cst, i, rule) {
        build_each::<T>(cst.children[i].children)
    } else {
        Ok(Seq::empty())
    }
}

/// A chain of pairs: `done`, followed by one pair for each child from
/// position `pos` on, two by two, that carries the tag `rule`: what is built
/// of that child, and what is built of the child after it. It comes with the
/// position of the first such child that does not carry the tag.
pub open spec fn chain_of<A: Parser, B: Parser>(
    cst: Cst,
    done: Seq<(A::V, B::V)>,
    pos: int,
    rule: Rule,
) -> Result<(Seq<(A::V, B::V)>, int), StructuralError>
    decreases cst.children.len() - pos,
{
    if tagged(cst, pos, rule) {
        let first = A::build(cst.children[pos]);
        let second = build_at::<B>(cst, pos + 1);
        if first is Err {
            Err(first->Err_0)
        } else if second is Err {
            Err(second->Err_0)
        } else {
            chain_of::<A, B>(cst, done.push((first->Ok_0, second->Ok_0)), pos + 2, rule)
        }
    } else {
        Ok((done, pos))
    }
}

/// Whether pair `before + i` of a list is what is built of the children at
/// positions `pos + 2 * i` and `pos + 2 * i + 1`, the first of which carries
/// the tag `rule`.
pub open spec fn is_link<A: Parser, B: Parser>(
    cst: Cst,
    before: int,
    pos: int,
    rule: Rule,
    list: Seq<(A::V, B::V)>,
    i: int,
) -> bool {
    let at = pos + 2 * i;
    &&& tagged(cst, at, rule)
    &&& at + 1 < cst.children.len()
    &&& 0 <= before + i < list.len()
    &&& built::<A>(cst.children[at]) == Ok::<A::V, StructuralError>(list[before + i].0)
    &&& built::<B>(cst.children[at + 1]) == Ok::<B::V, StructuralError>(list[before + i].1)
}

/// Whether a list holds `done`, and after that one pair for each child from
/// position `pos` up to `end`, two by two, each of which carries the tag
/// `rule`: what is built of that child, and what is built of the child
/// after it.
pub open spec fn is_chain<A: Parser, B: Parser>(
    cst: Cst,
    done: Seq<(A::V, B::V)>,
    pos: int,
    rule: Rule,
    list: Seq<(A::V, B::V)>,
    end: int,
) -> bool {
    let more = list.len() - done.len();
    &&& more >= 0
    &&& end == pos + 2 * more
    &&& forall|i: int| 0 <= i < done.len() ==> list[i] == done[i]
    &&& forall|i: int|
        0 <= i < more ==> #[trigger] is_link::<A, B>(cst, done.len() as int, pos, rule, list, i)
}

/// A chain that is built holds what was done before it started, and after
/// that one pair for each child that carries the tag, in order. It ends at
/// a child that does not carry the tag.
pub proof fn lemma_chain<A: Parser, B: Parser>(
    cst: Cst,
    done: Seq<(A::V, B::V)>,
    pos: int,
    rule: Rule,
)
    requires
        0 <= pos,
    ensures
        chain_of::<A, B>(cst, done, pos, rule) matches Ok((list, end)) ==> is_chain::<A, B>(
            cst,
            done,
            pos,
            rule,
            list,
            end,
        ) && !tagged(cst, end, rule),
    decreases cst.children.len() - pos,
{
    reveal(built);
    if tagged(cst, pos, rule) {
        let first = A::build(cst.children[pos]);
        let second = build_at::<B>(cst, pos + 1);
        if first is Ok && second is Ok {
            let next = done.push((first->Ok_0, second->Ok_0));
            lemma_chain::<A, B>(cst, next, pos + 2, rule);
            if let Ok((list, end)) = chain_of::<A, B>(cst, next, pos + 2, rule) {
                let more = list.len() - done.len();
                let before = done.len() as int;
                assert(list[before] == next[before]);
                assert forall|i: int| 0 <= i < before implies list[i] == done[i] by {
                    assert(list[i] == next[i]);
                }
                assert forall|i: int| 0 <= i < more implies #[trigger] is_link::<A, B>(
                    cst,
                    before,
                    pos,
                    rule,
                    list,
                    i,
                ) by {
                    if i > 0 {
                        assert(is_link::<A, B>(cst, before + 1, pos + 2, rule, list, i - 1));
                    }
                }
            }
        }
    }
}

/// Whether `node` has a child at position `i` that carries the tag `rule`.
pub fn at(node: &Node, i: usize, rule: Rule) -> (found: bool)
    ensures
        found == tagged(node.deep_view(), i as int, rule),
{
    i < node.len() && node.child(i).rule() == rule
}

/// Builds a value from the child at position `i`.
pub fn parse_at<T: Parser>(node: &Node, i: usize) -> (built: Result<T, StructuralError>)
    ensures
        outcome(built) == build_at::<T>(node.deep_view(), i as int),
{
    if i < node.len() {
        T::parse(node.child(i))
    } else {
        Err(StructuralError { rule: node.rule() })
    }
}

/// Builds a value from the child at position `i` if it carries the tag `rule`.
pub fn parse_opt<T: Parser>(node: &Node, i: usize, rule: Rule) -> (built: Result<
    Option<T>,
    StructuralError,
>)
    ensures
        outcome(built) == build_opt::<T>(node.deep_view(), i as int, rule),
{
    if at(node, i, rule) {
        let value = T::parse(node.child(i))?;
        Ok(Some(value))
    } else {
        Ok(None)
    }
}

/// Builds a value from each child of a list node that carries the tag `rule`.
pub fn parse_list<T: Parser>(node: &Node, rule: Rule) -> (built: Result<Vec<T>, StructuralError>)
    ensures
        outcome(built) == build_list::<T>(node.deep_view(), rule),
{
    if node.rule() == rule {
        proof {
            assert(node.deep_view().children.skip(0) =~= node.deep_view().children);
        }
        parse_each(node, 0)
    } else {
        Err(StructuralError { rule: node.rule() })
    }
}

/// Builds a value from each child of the list node at position `i`, if the
/// child there carries the tag `rule`.
pub fn parse_opt_list<T: Parser>(node: &Node, i: usize, rule: Rule) -> (built: Result<
    Vec<T>,
    StructuralError,
>)
    ensures
        outcome(built) == build_opt_list::<T>(node.deep_view(), i as int, rule),
{
    if at(node, i, rule) {
        let list = node.child(i);
        proof {
            assert(list.deep_view().children.skip(0) =~= list.deep_view().children);
        }
        parse_each(list, 0)
    } else {
        let empty: Vec<T> = Vec::new();
        proof {
            assert(empty.deep_view() =~= Seq::empty());
        }
        Ok(empty)
    }
}

/// What building the children of the list node at position `i` gives. A tree
/// without such a child is itself at fault.
pub open spec fn build_list_at<T: Parser>(cst: Cst, i: int, rule: Rule) -> Result<
    Seq<T::V>,
    StructuralError,
> {
    if 0 <= i < cst.children.len() {
        build_list::<T>(cst.children[i], rule)
    } else {
        Err(mismatch(cst))
    }
}

/// Builds a value from each child of the list node at position `i`.
pub fn parse_list_at<T: Parser>(node: &Node, i: usize, rule: Rule) -> (built: Result<
    Vec<T>,
    StructuralError,
>)
    ensures
        outcome(built) == build_list_at::<T>(node.deep_view(), i as int, rule),
{
    if i < node.len() {
        parse_list(node.child(i), rule)
    } else {
        Err(StructuralError { rule: node.rule() })
    }
}

/// An expression with the alias that may follow it: the expression at
/// position 0, and the identifier at position 1 where there is one.
pub open spec fn aliased_of(cst: Cst) -> Result<(ExprModel, Option<Seq<char>>), StructuralError> {
    let expr = build_at::<Expr>(cst, 0);
    let alias = build_opt::<String>(cst, 1, Rule::Ident);
    if cst.children.len() != after(cst, 1, Rule::Ident) {
        Err(mismatch(cst))
    } else if expr is Err {
        Err(expr->Err_0)
    } else if alias is Err {
        Err(alias->Err_0)
    } else {
        Ok((expr->Ok_0, alias->Ok_0))
    }
}

/// Builds an expression and the alias that may follow it.
pub fn parse_aliased(node: &Node) -> (built: Result<(Expr, Option<String>), StructuralError>)
    ensures
        outcome(built) == aliased_of(node.deep_view()),
{
    let end: usize = if at(node, 1, Rule::Ident) {
        2
    } else {
        1
    };
    if node.len() != end {
        return Err(StructuralError { rule: node.rule() });
    }
    let expr = parse_at::<Expr>(node, 0)?;
    let alias = parse_opt::<String>(node, 1, Rule::Ident)?;
    Ok((expr, alias))
}

impl Parser for SchemaObject {
    /// One identifier is the object's name; of two, the first is the schema.
    open spec fn build(cst: Cst) -> Result<SchemaObjectModel, StructuralError> {
        if cst.rule == Rule::SchemaObject && cst.children.len() == 1 {
            match ident_name(cst.children[0]) {
                Err(e) => Err(e),
                Ok(name) => Ok(SchemaObjectModel { schema_name: None, name }),
            }
        } else if cst.rule == Rule::SchemaObject && cst.children.len() == 2 {
            match ident_name(cst.children[0]) {
                Err(e) => Err(e),
                Ok(schema) => match ident_name(cst.children[1]) {
                    Err(e) => Err(e),
                    Ok(name) => Ok(SchemaObjectModel { schema_name: Some(schema), name }),
                },
            }
        } else {
            Err(mismatch(cst))
        }
    }

    fn parse(node: &Node) -> (built: Result<SchemaObject, StructuralError>)
        ensures
            outcome(built) == Self::build(node.deep_view()),
    {
        if node.rule() == Rule::SchemaObject && node.len() == 1 {
            let name = String::parse(node.child(0))?;
            Ok(SchemaObject { schema_name: None, name })
        } else if node.rule() == Rule::SchemaObject && node.len() == 2 {
            let schema = String::parse(node.child(0))?;
            let name = String::parse(node.child(1))?;
            Ok(SchemaObject { schema_name: Some(schema), name })
        } else {
            Err(StructuralError { rule: node.rule() })
        }
    }
}

/// The way of resolving a conflict that a tag names.
pub open spec fn resolution_of(rule: Rule) -> Option<ConflictResolution> {
    match rule {
        Rule::ConflictAbort => Some(ConflictResolution::Abort),
        Rule::ConflictFail => Some(ConflictResolution::Fail),
        Rule::ConflictIgnore => Some(ConflictResolution::Ignore),
        Rule::ConflictReplace => Some(ConflictResolution::Replace),
        Rule::ConflictRollback => Some(ConflictResolution::Rollback),
        _ => None,
    }
}

impl Parser for ConflictResolution {
    open spec fn build(cst: Cst) -> Result<ConflictResolution, StructuralError> {
        if cst.rule == Rule::ConflictResolution && cst.children.len() == 1 {
            match resolution_of(cst.children[0].rule) {
                Some(resolution) => Ok(resolution),
                None => Err(mismatch(cst.children[0])),
            }
        } else {
            Err(mismatch(cst))
        }
    }

    fn parse(node: &Node) -> (built: Result<ConflictResolution, StructuralError>)
        ensures
            outcome(built) == Self::build(node.deep_view()),
    {
        if node.rule() == Rule::ConflictResolution && node.len() == 1 {
            let rule = node.child(0).rule();
            match rule {
                Rule::ConflictAbort => Ok(ConflictResolution::Abort),
                Rule::ConflictFail => Ok(ConflictResolution::Fail),
                Rule::ConflictIgnore => Ok(ConflictResolution::Ignore),
                Rule::ConflictReplace => Ok(ConflictResolution::Replace),
                Rule::ConflictRollback => Ok(ConflictResolution::Rollback),
                _ => Err(StructuralError { rule }),
            }
        } else {
            Err(StructuralError { rule: node.rule() })
        }
    }
}

/// What building an optional conflict clause gives: `Abort` where the child
/// at position `i` is no conflict clause.
pub open spec fn resolution_at(cst: Cst, i: int) -> Result<ConflictResolution, StructuralError> {
    if tagged(cst, i, Rule::ConflictResolution) {
        ConflictResolution::build(cst.children[i])
    } else {
        Ok(ConflictResolution::Abort)
    }
}

/// Builds the conflict clause at position `i`, or the default without one.
pub fn parse_resolution(node: &Node, i: usize) -> (built: Result<
    ConflictResolution,
    StructuralError,
>)
    ensures
        outcome(built) == resolution_at(node.deep_view(), i as int),
{
    if at(node, i, Rule::ConflictResolution) {
        ConflictResolution::parse(node.child(i))
    } else {
        Ok(ConflictResolution::Abort)
    }
}

} // verus!
