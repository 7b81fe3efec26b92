//! Compiled programs, as far as a session reads them.
//!
//! What the compiler alone can look into (a lexed program, a syntax tree node, a namespace) is
//! carried by the number under which the compiler keeps it.
use crate::lsp::Range;
use crate::path::PathId;
use std::collections::HashMap;
use vstd::prelude::*;

verus! {

/// A lexed program.
#[derive(Clone, Copy, Debug, PartialEq, Eq)]
pub struct LexedProgram {
    pub id: u64,
}

/// A node of a parsed syntax tree.
#[derive(Clone, Copy, Debug, PartialEq, Eq)]
pub struct AstNode {
    pub id: u64,
}

/// A node of a typed syntax tree.
#[derive(Clone, Copy, Debug, PartialEq, Eq)]
pub struct TyAstNode {
    pub id: u64,
}

/// The names that are known in a module.
#[derive(Clone, Copy, Debug, PartialEq, Eq)]
pub struct Namespace {
    pub id: u64,
}

/// A stretch of source text: the source file that it lies in, if it lies in one, and its range
/// there.
#[derive(Clone, Copy, Debug, PartialEq, Eq)]
pub struct Span {
    pub source_id: Option<u32>,
    pub range: Range,
}

/// A name and where it is written.
#[derive(Debug, PartialEq, Eq)]
pub struct Ident {
    pub name: String,
    pub span: Span,
}

/// An attribute of a declaration.
#[derive(Debug, PartialEq, Eq)]
pub struct Attribute {
    pub name: String,
    pub span: Span,
}

/// The declaration of a function, with its attributes in the order in which they are written.
#[derive(Debug, PartialEq, Eq)]
pub struct TyFunctionDecl {
    pub name: Ident,
    pub attributes: Vec<Attribute>,
}

/// The kinds of programs.
#[derive(Clone, Copy, Debug, PartialEq, Eq)]
pub enum TreeType {
    Predicate,
    Script,
    Contract,
    Library,
}

/// The kind of a typed program, with the main function of a script.
#[derive(Debug, PartialEq, Eq)]
pub enum TyProgramKind {
    Contract,
    Library,
    Predicate,
    Script { main_function: TyFunctionDecl },
}

/// A typed module: the names known in it, its nodes and the modules directly below it.
#[derive(Debug, PartialEq, Eq)]
pub struct TyModule {
    pub namespace: Namespace,
    pub all_nodes: Vec<TyAstNode>,
    pub submodules: Vec<(String, TySubmodule)>,
}

/// A typed module below another one.
#[derive(Debug, PartialEq, Eq)]
pub struct TySubmodule {
    pub module: TyModule,
}

/// A typed program, with its test functions in the order in which the compiler lists them.
#[derive(Debug, PartialEq, Eq)]
pub struct TyProgram {
    pub kind: TyProgramKind,
    pub root: TyModule,
    pub test_fns: Vec<TyFunctionDecl>,
}

/// The nodes at the root of a parsed module.
#[derive(Debug, PartialEq, Eq)]
pub struct ParseTree {
    pub root_nodes: Vec<AstNode>,
}

/// A parsed module: its tree and the modules directly below it.
#[derive(Debug, PartialEq, Eq)]
pub struct ParseModule {
    pub tree: ParseTree,
    pub submodules: Vec<(String, ParseSubmodule)>,
}

/// A parsed module below another one.
#[derive(Debug, PartialEq, Eq)]
pub struct ParseSubmodule {
    pub module: ParseModule,
}

/// A parsed program.
#[derive(Debug, PartialEq, Eq)]
pub struct ParseProgram {
    pub root: ParseModule,
}

impl TyProgramKind {
    /// The kind without what it carries.
    pub open spec fn spec_tree_type(&self) -> TreeType {
        match self {
            TyProgramKind::Contract => TreeType::Contract,
            TyProgramKind::Library => TreeType::Library,
            TyProgramKind::Predicate => TreeType::Predicate,
            TyProgramKind::Script { .. } => TreeType::Script,
        }
    }

    /// The kind without what it carries.
    pub fn tree_type(&self) -> (tree_type: TreeType)
        ensures
            tree_type == self.spec_tree_type(),
    {
        match self {
            TyProgramKind::Contract => TreeType::Contract,
            TyProgramKind::Library => TreeType::Library,
            TyProgramKind::Predicate => TreeType::Predicate,
            TyProgramKind::Script { .. } => TreeType::Script,
        }
    }
}

/// The tables that the compiler fills, as far as a session reads them.
#[derive(Debug, PartialEq, Eq)]
pub struct Engines {
    /// The paths of the source files, by their numbers.
    pub source_paths: HashMap<u32, PathId>,
}

impl Engines {
    /// Whether `span` lies in no source file or in one whose path is known.
    pub open spec fn knows(&self, span: Span) -> bool {
        span.source_id matches Some(id) ==> self.source_paths@.contains_key(id)
    }

    /// Engines that know of no source file.
    pub fn new() -> (engines: Self)
        ensures
            engines.source_paths@ == Map::<u32, PathId>::empty(),
    {
        Engines { source_paths: HashMap::new() }
    }

    /// The path of the source file with the number `source_id`.
    pub fn get_path(&self, source_id: u32) -> (path: PathId)
        requires
            self.source_paths@.contains_key(source_id),
        ensures
            path == self.source_paths@[source_id],
    {
        broadcast use vstd::std_specs::hash::group_hash_axioms;

        match self.source_paths.get(&source_id) {
            Some(path) => *path,
            None => 0,
        }
    }

    /// Whether `span` lies in no source file or in one whose path is known.
    pub fn knows_span(&self, span: &Span) -> (b: bool)
        ensures
            b == self.knows(*span),
    {
        broadcast use vstd::std_specs::hash::group_hash_axioms;

        match span.source_id {
            Some(id) => self.source_paths.contains_key(&id),
            None => true,
        }
    }
}

} // verus!
