//! Tokens and the map that holds them.
use crate::lsp::Range;
use crate::path::{FilePath, PathId};
use crate::program::TyFunctionDecl;
use crate::table::{Key, Table};
use vstd::prelude::*;

verus! {

/// An identifier in a source file: its name, its range, and the path of the file.
#[derive(Debug, PartialEq, Eq)]
pub struct TokenIdent {
    pub name: String,
    pub range: Range,
    pub path: Option<FilePath>,
}

/// What tells one identifier from another: its name, its range, and the number of its path, however
/// the path is written.
pub struct TokenIdentView {
    pub name: Seq<char>,
    pub range: Range,
    pub path: Option<PathId>,
}

impl View for TokenIdent {
    type V = TokenIdentView;

    open spec fn view(&self) -> TokenIdentView {
        TokenIdentView {
            name: self.name@,
            range: self.range,
            path: match self.path {
                Some(path) => Some(path.id),
                None => None,
            },
        }
    }
}

impl Key for TokenIdent {
    fn same(&self, other: &Self) -> (b: bool) {
        let same_path = match (&self.path, &other.path) {
            (Some(a), Some(b)) => a.id == b.id,
            (None, None) => true,
            _ => false,
        };
        same_path && self.name == other.name && self.range.start.line == other.range.start.line
            && self.range.start.character == other.range.start.character && self.range.end.line
            == other.range.end.line && self.range.end.character == other.range.end.character
    }
}

/// What the typed syntax tree says of a token, as far as a session reads it.
#[derive(Debug, PartialEq, Eq)]
pub enum TypedAstToken {
    TypedFunctionDeclaration(TyFunctionDecl),
    /// Any other node, by the number under which the compiler keeps it.
    Other(u64),
}

/// A token: the number under which the compiler keeps its parsed node, and what the typed syntax
/// tree says of it, if anything.
#[derive(Debug, PartialEq, Eq)]
pub struct Token {
    pub parsed: u64,
    pub typed: Option<TypedAstToken>,
}

/// The tokens of a project, by their identifiers.
pub type TokenMap = Table<TokenIdent, Token>;

} // verus!
