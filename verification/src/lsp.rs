//! The values of the language server protocol that a session reads and hands out.
use crate::url::Url;
use vstd::prelude::*;

verus! {

/// A place in a text document: a line and a character on it, both counted from zero.
#[derive(Clone, Copy, Debug, PartialEq, Eq)]
pub struct Position {
    pub line: u32,
    pub character: u32,
}

/// The part of a text document between two places.
#[derive(Clone, Copy, Debug, PartialEq, Eq)]
pub struct Range {
    pub start: Position,
    pub end: Position,
}

/// A part of the document that a URL names.
#[derive(Debug, PartialEq, Eq)]
pub struct Location {
    pub uri: Url,
    pub range: Range,
}

/// The answer to the question where a token is declared.
#[derive(Debug, PartialEq, Eq)]
pub enum GotoDefinitionResponse {
    Scalar(Location),
}

/// A change of a text document: the text that takes the place of `range`, or of the whole
/// document if there is no range.
#[derive(Debug, PartialEq, Eq)]
pub struct TextDocumentContentChangeEvent {
    pub range: Option<Range>,
    pub text: String,
}

} // verus!
