//! Literals: the kind of a number, and the text between the delimiters of
//! strings and binary literals.

use vstd::prelude::*;
use crate::ast::{Literal, LiteralModel};
use crate::cst::{Cst, Node, Rule};
use crate::error::{mismatch, outcome, StructuralError};
use crate::parser::ident::{strip, strip_ends};
use crate::parser::Parser;

verus! {

/// Whether a number is written with an exponent.
pub open spec fn has_exponent(text: Seq<char>) -> bool {
    text.contains('e') || text.contains('E')
}

/// Whether a number is written with a decimal point.
pub open spec fn has_point(text: Seq<char>) -> bool {
    text.contains('.')
}

/// The literal that a number stands for. Its kind follows from how it is
/// written, not from its value: with an exponent it is a double, with a
/// decimal point and no exponent a decimal, and otherwise an integer. The
/// text is kept as it stands.
pub open spec fn number_literal(text: Seq<char>) -> LiteralModel {
    if has_exponent(text) {
        LiteralModel::Double(text)
    } else if has_point(text) {
        LiteralModel::Decimal(text)
    } else {
        LiteralModel::Integer(text)
    }
}

/// The text that a literal carries, where it carries one.
pub open spec fn literal_text(literal: LiteralModel) -> Option<Seq<char>> {
    match literal {
        LiteralModel::Double(text) => Some(text),
        LiteralModel::Decimal(text) => Some(text),
        LiteralModel::Integer(text) => Some(text),
        LiteralModel::String(text) => Some(text),
        LiteralModel::Blob(text) => Some(text),
        LiteralModel::Null => None,
        LiteralModel::Bool(_) => None,
    }
}

/// A number is of exactly one kind, which follows from how it is written,
/// and it keeps its text.
pub proof fn lemma_number_kind(text: Seq<char>)
    ensures
        number_literal(text) is Double <==> has_exponent(text),
        number_literal(text) is Decimal <==> !has_exponent(text) && has_point(text),
        number_literal(text) is Integer <==> !has_exponent(text) && !has_point(text),
        literal_text(number_literal(text)) == Some(text),
{
}

/// Whether a character occurs in a text.
pub fn contains_char(text: &str, c: char) -> (found: bool)
    ensures
        found == text@.contains(c),
{
    let n = text.unicode_len();
    let mut i: usize = 0;
    while i < n
        invariant
            i <= n,
            n == text@.len(),
            forall|j: int| 0 <= j < i ==> text@[j] != c,
        decreases n - i,
    {
        if text.get_char(i) == c {
            return true;
        }
        i += 1;
    }
    false
}

/// Classifies a number by the way it is written.
pub fn classify_number(text: &str) -> (literal: Literal)
    ensures
        literal.deep_view() == number_literal(text@),
{
    if contains_char(text, 'e') || contains_char(text, 'E') {
        Literal::Double(text.to_owned())
    } else if contains_char(text, '.') {
        Literal::Decimal(text.to_owned())
    } else {
        Literal::Integer(text.to_owned())
    }
}

/// The literal that a tree stands for.
pub open spec fn literal_of(cst: Cst) -> Result<LiteralModel, StructuralError> {
    if cst.rule == Rule::Literal && cst.children.len() == 1 {
        let inner = cst.children[0];
        if inner.rule == Rule::Number {
            Ok(number_literal(inner.text))
        } else if inner.rule == Rule::StringLiteral && inner.text.len() >= 2 {
            Ok(LiteralModel::String(strip(inner.text, 1, 1)))
        } else if inner.rule == Rule::BlobLiteral && inner.text.len() >= 3 {
            Ok(LiteralModel::Blob(strip(inner.text, 2, 1)))
        } else if inner.rule == Rule::NullLiteral {
            Ok(LiteralModel::Null)
        } else if inner.rule == Rule::TrueLiteral {
            Ok(LiteralModel::Bool(true))
        } else if inner.rule == Rule::FalseLiteral {
            Ok(LiteralModel::Bool(false))
        } else {
            Err(mismatch(inner))
        }
    } else {
        Err(mismatch(cst))
    }
}

impl Parser for Literal {
    open spec fn build(cst: Cst) -> Result<LiteralModel, StructuralError> {
        literal_of(cst)
    }

    fn parse(node: &Node) -> (built: Result<Literal, StructuralError>)
        ensures
            outcome(built) == Self::build(node.deep_view()),
    {
        proof {
            assert(Literal::build(node.deep_view()) == literal_of(node.deep_view()));
        }
        if !(node.rule() == Rule::Literal && node.len() == 1) {
            return Err(StructuralError { rule: node.rule() });
        }
        let inner = node.child(0);
        let rule = inner.rule();
        if rule == Rule::Number {
            Ok(classify_number(inner.text()))
        } else if rule == Rule::StringLiteral {
            match strip_ends(inner.text(), 1, 1) {
                Some(text) => Ok(Literal::String(text)),
                None => Err(StructuralError { rule }),
            }
        } else if rule == Rule::BlobLiteral {
            match strip_ends(inner.text(), 2, 1) {
                Some(text) => Ok(Literal::Blob(text)),
                None => Err(StructuralError { rule }),
            }
        } else if rule == Rule::NullLiteral {
            Ok(Literal::Null)
        } else if rule == Rule::TrueLiteral {
            Ok(Literal::Bool(true))
        } else if rule == Rule::FalseLiteral {
            Ok(Literal::Bool(false))
        } else {
            Err(StructuralError { rule })
        }
    }
}

} // verus!
