//! The session of one member of a workspace.
use crate::diagnostic::{Diagnostic, DiagnosticMap};
use crate::document::TextDocument;
use crate::path::PathId;
use crate::program::{Engines, LexedProgram, Namespace, ParseProgram, TyProgram};
use crate::runnable::Runnable;
use crate::sync::SyncWorkspace;
use crate::table::Table;
use crate::token::{Token, TokenIdentView, TokenMap};
use std::collections::HashMap;
use vstd::prelude::*;

pub mod documents;
pub mod lifecycle;
pub mod runnables;
pub mod tokens;

verus! {

/// The documents of a session, by their paths.
pub type Documents = Table<String, TextDocument>;

/// What clients can run, by the paths of the files that it is written in.
pub type Runnables = HashMap<PathId, Vec<Runnable>>;

/// How many threads may parse, or wait to parse, at the same time: one parses and one waits. All
/// others are answered with the diagnostics at hand.
pub const PARSE_PERMITS: usize = 2;

/// The outcome of the last compilation that went through.
#[derive(Debug, PartialEq, Eq)]
pub struct CompiledProgram {
    pub lexed: Option<LexedProgram>,
    pub parsed: Option<ParseProgram>,
    pub typed: Option<TyProgram>,
}

/// What is known of a single member of a workspace: its tokens, its documents, what can be run in
/// it, its program and the tables of the compiler, its directories, and its diagnostics.
#[derive(Debug)]
pub struct Session {
    pub token_map: TokenMap,
    pub documents: Documents,
    pub runnables: Runnables,
    pub compiled_program: CompiledProgram,
    pub engines: Engines,
    pub sync: SyncWorkspace,
    /// How many threads may parse, or wait to parse, at the same time.
    pub parse_permits: usize,
    /// The diagnostics of the last compilation.
    pub diagnostics: DiagnosticMap,
}

impl Default for CompiledProgram {
    /// No program has been compiled.
    fn default() -> (program: Self)
        ensures
            program == (CompiledProgram { lexed: None, parsed: None, typed: None }),
    {
        CompiledProgram { lexed: None, parsed: None, typed: None }
    }
}

/// The names known at the root of the typed program, if there is one.
pub open spec fn root_namespace(program: CompiledProgram) -> Option<Namespace> {
    match program.typed {
        Some(typed) => Some(typed.root.namespace),
        None => None,
    }
}

impl Session {
    /// The tables of the session are well-formed.
    pub open spec fn wf(&self) -> bool {
        &&& self.token_map.wf()
        &&& self.documents.wf()
        &&& self.diagnostics.wf()
    }

    /// Nothing but the documents differs between the two sessions.
    pub open spec fn same_but_documents(&self, other: &Session) -> bool {
        &&& self.token_map == other.token_map
        &&& self.runnables == other.runnables
        &&& self.compiled_program == other.compiled_program
        &&& self.engines == other.engines
        &&& self.sync == other.sync
        &&& self.parse_permits == other.parse_permits
        &&& self.diagnostics == other.diagnostics
    }

    /// The session knows of nothing.
    pub open spec fn is_new(&self) -> bool {
        &&& self.wf()
        &&& self.token_map@ == Map::<TokenIdentView, Token>::empty()
        &&& self.documents@ == Map::<Seq<char>, TextDocument>::empty()
        &&& self.runnables@ == Map::<PathId, Vec<Runnable>>::empty()
        &&& self.compiled_program.lexed is None
        &&& self.compiled_program.parsed is None
        &&& self.compiled_program.typed is None
        &&& self.engines.source_paths@ == Map::<u32, PathId>::empty()
        &&& self.sync.manifest_dir is None
        &&& self.sync.temp_dir is None
        &&& self.sync.notify_join_handle is None
        &&& !self.sync.should_end
        &&& self.parse_permits == PARSE_PERMITS
        &&& self.diagnostics@ == Map::<Seq<char>, Seq<Diagnostic>>::empty()
    }

    /// A session that knows of nothing.
    pub fn new() -> (session: Self)
        ensures
            session.is_new(),
    {
        Session {
            token_map: Table::new(),
            documents: Table::new(),
            runnables: HashMap::new(),
            compiled_program: CompiledProgram::default(),
            engines: Engines::new(),
            sync: SyncWorkspace::new(),
            parse_permits: PARSE_PERMITS,
            diagnostics: DiagnosticMap::new(),
        }
    }

    /// The tokens of the session.
    pub fn token_map(&self) -> (token_map: &TokenMap)
        ensures
            *token_map == self.token_map,
    {
        &self.token_map
    }

    /// A copy of the diagnostics at hand.
    pub fn wait_for_parsing(&self) -> (diagnostics: DiagnosticMap)
        requires
            self.wf(),
        ensures
            diagnostics.wf(),
            diagnostics@ == self.diagnostics@,
    {
        self.diagnostics.copy()
    }

    /// The names known at the root of the typed program, if there is one.
    pub fn namespace(&self) -> (namespace: Option<&Namespace>)
        ensures
            match namespace {
                Some(n) => root_namespace(self.compiled_program) == Some(*n),
                None => root_namespace(self.compiled_program) is None,
            },
    {
        match &self.compiled_program.typed {
            Some(typed) => Some(&typed.root.namespace),
            None => None,
        }
    }
}

impl Default for Session {
    /// A session that knows of nothing.
    fn default() -> (session: Self)
        ensures
            session.is_new(),
    {
        Session::new()
    }
}

} // verus!
