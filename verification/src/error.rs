//! The ways decoding and loading can fail.

use vstd::prelude::*;

verus! {

/// Why a text could not be decoded as one of an enumeration's choices.
#[derive(Clone, Copy, Debug, PartialEq, Eq, Structural)]
pub enum DecodeError {
    /// No declared name matches the text.
    UnknownVariant,
}

/// Why a document could not be turned into an overlay.
#[derive(Clone, Copy, Debug, PartialEq, Eq, Structural)]
pub enum ParseError {
    /// The text is not a well-formed document.
    MalformedDocument,
    /// A declared option is present with a value of the wrong shape.
    TypeMismatch,
    /// An option that takes one of a closed set of choices is present with
    /// a text that names none of them.
    UnknownVariant,
}

} // verus!
