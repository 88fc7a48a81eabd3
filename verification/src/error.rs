//! The errors of parsing.

use vstd::prelude::*;
use crate::cst::{Cst, Rule};

verus! {

/// A tree whose shape is not the one that a builder expects. It tells of a
/// grammar and a builder that do not fit each other, never of the SQL text.
#[derive(Clone, Copy, Debug, PartialEq, Eq)]
pub struct StructuralError {
    /// The tag of the node at which the builder gave up.
    pub rule: Rule,
}

/// A text that the grammar engine refuses.
#[derive(Clone, Debug, PartialEq, Eq)]
pub struct SyntaxError {
    /// The byte offset at which the engine gave up.
    pub position: usize,
    /// The names of the rules of which one would have had to match there.
    pub expected: Vec<String>,
    /// What the engine says of an error that is no mismatch; otherwise empty.
    pub message: String,
}

/// Why a text gave no statements.
#[derive(Clone, Debug, PartialEq, Eq)]
pub enum ParseError {
    /// The text is not in the grammar.
    Syntax(SyntaxError),
    /// The grammar and the builders do not fit each other.
    Structure(StructuralError),
}

/// The error of a builder that cannot use `cst`.
pub open spec fn mismatch(cst: Cst) -> StructuralError {
    StructuralError { rule: cst.rule }
}

/// What a builder returned, seen through the model of the value it built.
pub open spec fn outcome<T: DeepView>(r: Result<T, StructuralError>) -> Result<
    T::V,
    StructuralError,
> {
    match r {
        Ok(value) => Ok(value.deep_view()),
        Err(e) => Err(e),
    }
}

} // verus!
