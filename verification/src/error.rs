//! The recoverable failures that the checker and the resolver surface to
//! their caller.  The caller attaches source-location context; no location
//! information lives here.

use vstd::prelude::*;

verus! {

/// A recoverable failure of type checking or literal resolution.
#[derive(Debug)]
#[allow(inconsistent_fields)]
pub enum ValueError {
    /// An array's length disagrees with its declared dimension; carries the
    /// offending array's rendering and the expected length.
    ArrayLength { array: String, expected: usize },
    /// An instantiated record's type name disagrees with the declared record
    /// type; carries both names.
    CircuitName { expected: String, actual: String },
    /// A structural incompatibility not covered by a more specific case;
    /// carries the declared type's rendering and the value's rendering.
    TypeMismatch { expected: String, value: String },
    /// A literal's text could not be parsed as its required primitive
    /// representation; carries the text.
    LiteralParse { text: String },
}

/// The mathematical shape of a [`ValueError`], used in contracts.
#[allow(inconsistent_fields)]
pub enum ValueErrorModel {
    ArrayLength { array: Seq<char>, expected: int },
    CircuitName { expected: Seq<char>, actual: Seq<char> },
    TypeMismatch { expected: Seq<char>, value: Seq<char> },
    LiteralParse { text: Seq<char> },
}

impl View for ValueError {
    type V = ValueErrorModel;

    open spec fn view(&self) -> ValueErrorModel {
        match self {
            ValueError::ArrayLength { array, expected } => ValueErrorModel::ArrayLength {
                array: array@,
                expected: *expected as int,
            },
            ValueError::CircuitName { expected, actual } => ValueErrorModel::CircuitName {
                expected: expected@,
                actual: actual@,
            },
            ValueError::TypeMismatch { expected, value } => ValueErrorModel::TypeMismatch {
                expected: expected@,
                value: value@,
            },
            ValueError::LiteralParse { text } => ValueErrorModel::LiteralParse { text: text@ },
        }
    }
}

} // verus!
