//! Identifiers: case folding and the stripping of delimiters.

use vstd::prelude::*;
use vstd::string::StringExecFns;
use crate::cst::{Cst, Node, Rule};
use crate::error::{mismatch, outcome, StructuralError};
use crate::parser::Parser;

verus! {

/// The lower-case form of an ASCII capital; any other character is itself.
pub open spec fn fold_char(c: char) -> char {
    if 'A' <= c && c <= 'Z' {
        ((c as u8) + 32) as char
    } else {
        c
    }
}

/// A text with each of its characters folded to lower case.
pub open spec fn fold_case(text: Seq<char>) -> Seq<char> {
    Seq::new(text.len(), |i: int| fold_char(text[i]))
}

/// A text without its first `front` and its last `back` characters.
pub open spec fn strip(text: Seq<char>, front: int, back: int) -> Seq<char>
    recommends
        0 <= front,
        0 <= back,
        front + back <= text.len(),
{
    text.subrange(front, text.len() - back)
}

/// Folds one character to lower case.
pub fn to_lower(c: char) -> (folded: char)
    ensures
        folded == fold_char(c),
{
    if 'A' <= c && c <= 'Z' {
        ((c as u8) + 32) as char
    } else {
        c
    }
}

/// Appends one character to a string with `String::push`, which adds the
/// character at the end and leaves what was there in place.
#[verifier::external_body]
fn push_char(s: &mut String, c: char)
    ensures
        final(s)@ == old(s)@.push(c),
{
    s.push(c)
}

/// Folds a text to lower case.
pub fn lower_case(text: &str) -> (folded: String)
    ensures
        folded@ == fold_case(text@),
{
    let n = text.unicode_len();
    let mut folded = String::new();
    let mut i: usize = 0;
    while i < n
        invariant
            i <= n,
            n == text@.len(),
            folded@ == fold_case(text@.take(i as int)),
        decreases n - i,
    {
        let c = text.get_char(i);
        push_char(&mut folded, to_lower(c));
        proof {
            assert(folded@ =~= fold_case(text@.take(i + 1)));
        }
        i += 1;
    }
    proof {
        assert(text@.take(n as int) =~= text@);
    }
    folded
}

/// Removes the first `front` and the last `back` characters of a text, if it
/// has that many.
pub fn strip_ends(text: &str, front: usize, back: usize) -> (inner: Option<String>)
    requires
        front + back <= usize::MAX,
    ensures
        inner is Some <==> front + back <= text@.len(),
        inner is Some ==> inner->Some_0@ == strip(text@, front as int, back as int),
{
    let n = text.unicode_len();
    if front + back <= n {
        Some(String::from_str(text.substring_char(front, n - back)))
    } else {
        None
    }
}

/// The name that an identifier tree stands for: a bare identifier in lower
/// case, a quoted one as it stands between its delimiters.
pub open spec fn ident_name(cst: Cst) -> Result<Seq<char>, StructuralError> {
    if cst.rule == Rule::Ident && cst.children.len() == 1 {
        let inner = cst.children[0];
        if inner.rule == Rule::BareIdent {
            Ok(fold_case(inner.text))
        } else if inner.rule == Rule::QuotedIdent && inner.text.len() >= 2 {
            Ok(strip(inner.text, 1, 1))
        } else {
            Err(mismatch(inner))
        }
    } else {
        Err(mismatch(cst))
    }
}

/// Whether a character is an ASCII capital.
pub open spec fn is_capital(c: char) -> bool {
    'A' <= c && c <= 'Z'
}

/// A folded text has the length of the text, holds no ASCII capital, and
/// differs from the text only where the text holds one.
pub proof fn lemma_fold_case(text: Seq<char>)
    ensures
        fold_case(text).len() == text.len(),
        forall|i: int| 0 <= i < text.len() ==> !is_capital(#[trigger] fold_case(text)[i]),
        forall|i: int|
            0 <= i < text.len() && !is_capital(text[i]) ==> #[trigger] fold_case(text)[i]
                == text[i],
{
}

/// Folding a text twice is folding it once.
pub proof fn lemma_fold_case_once(text: Seq<char>)
    ensures
        fold_case(fold_case(text)) == fold_case(text),
{
    lemma_fold_case(text);
    assert(fold_case(fold_case(text)) =~= fold_case(text));
}

/// A text without an ASCII capital is its own folded form.
pub proof fn lemma_fold_case_keeps_lower(text: Seq<char>)
    requires
        forall|i: int| 0 <= i < text.len() ==> !is_capital(#[trigger] text[i]),
    ensures
        fold_case(text) == text,
{
    assert(fold_case(text) =~= text);
}

/// The name of a bare identifier is its text in lower case, whatever the
/// text is; the name of a quoted identifier is its text without the first
/// and the last character, every other character kept as it is.
pub proof fn lemma_identifier_case(cst: Cst)
    requires
        cst.rule == Rule::Ident,
        cst.children.len() == 1,
    ensures
        cst.children[0].rule == Rule::BareIdent ==> ident_name(cst) == Ok::<
            Seq<char>,
            StructuralError,
        >(fold_case(cst.children[0].text)),
        cst.children[0].rule == Rule::QuotedIdent && cst.children[0].text.len() >= 2 ==> {
            let text = cst.children[0].text;
            &&& ident_name(cst) is Ok
            &&& ident_name(cst)->Ok_0.len() == text.len() - 2
            &&& forall|i: int|
                0 <= i < text.len() - 2 ==> #[trigger] ident_name(cst)->Ok_0[i] == text[i + 1]
        },
{
}

impl Parser for String {
    open spec fn build(cst: Cst) -> Result<Seq<char>, StructuralError> {
        ident_name(cst)
    }

    fn parse(node: &Node) -> (built: Result<String, StructuralError>)
        ensures
            outcome(built) == Self::build(node.deep_view()),
    {
        if node.rule() == Rule::Ident && node.len() == 1 {
            let inner = node.child(0);
            if inner.rule() == Rule::BareIdent {
                Ok(lower_case(inner.text()))
            } else if inner.rule() == Rule::QuotedIdent {
                match strip_ends(inner.text(), 1, 1) {
                    Some(name) => Ok(name),
                    None => Err(StructuralError { rule: inner.rule() }),
                }
            } else {
                Err(StructuralError { rule: inner.rule() })
            }
        } else {
            Err(StructuralError { rule: node.rule() })
        }
    }
}

} // verus!
