//! What can be run in the program of a session, and the outcome of parsing that it comes from.
use crate::path::PathId;
use crate::program::{
    Engines, LexedProgram, ParseProgram, Span, TreeType, TyFunctionDecl, TyProgram, TyProgramKind,
};
use crate::runnable::{Runnable, RunnableMainFn, RunnableTestFn};
use crate::session::{CompiledProgram, Session};
use crate::token::TokenMap;
use vstd::prelude::*;

verus! {

/// An error of the compiler.
#[derive(Debug, PartialEq, Eq)]
pub struct CompileError {
    pub message: String,
}

/// A warning of the compiler.
#[derive(Debug, PartialEq, Eq)]
pub struct CompileWarning {
    pub message: String,
}

/// The outcome of parsing a project, which a session takes over once parsing has gone through.
#[derive(Debug)]
pub struct ParseResult {
    pub diagnostics: (Vec<CompileError>, Vec<CompileWarning>),
    pub token_map: TokenMap,
    pub engines: Engines,
    pub lexed: LexedProgram,
    pub parsed: ParseProgram,
    pub typed: TyProgram,
}

/// Where a test function stands: its first attribute, or its name if it has none.
pub open spec fn test_span(decl: TyFunctionDecl) -> Span {
    if decl.attributes@.len() > 0 {
        decl.attributes@[0].span
    } else {
        decl.name.span
    }
}

/// The runnable that a test function gives, with the path of the file that it stands in: none if
/// it stands in no file.
pub open spec fn test_runnable(
    decl: TyFunctionDecl,
    tree_type: TreeType,
    paths: Map<u32, PathId>,
) -> Seq<(PathId, Runnable)> {
    match test_span(decl).source_id {
        Some(id) => seq![
            (
                paths[id],
                Runnable::TestFn(
                    RunnableTestFn {
                        range: test_span(decl).range,
                        tree_type,
                        test_name: Some(decl.name.name),
                    },
                ),
            ),
        ],
        None => seq![],
    }
}

/// The runnables that the test functions give, in their order.
pub open spec fn test_runnables(
    decls: Seq<TyFunctionDecl>,
    tree_type: TreeType,
    paths: Map<u32, PathId>,
) -> Seq<(PathId, Runnable)>
    decreases decls.len(),
{
    if decls.len() == 0 {
        seq![]
    } else {
        test_runnables(decls.drop_last(), tree_type, paths) + test_runnable(
            decls.last(),
            tree_type,
            paths,
        )
    }
}

/// The runnable that the main function of a script gives, with the path of the file that it stands
/// in: none if it stands in no file. Other programs give none.
pub open spec fn main_runnable(kind: TyProgramKind, paths: Map<u32, PathId>) -> Seq<
    (PathId, Runnable),
> {
    match kind {
        TyProgramKind::Script { main_function } => match main_function.name.span.source_id {
            Some(id) => seq![
                (
                    paths[id],
                    Runnable::MainFn(
                        RunnableMainFn {
                            range: main_function.name.span.range,
                            tree_type: TreeType::Script,
                        },
                    ),
                ),
            ],
            None => seq![],
        },
        _ => seq![],
    }
}

/// What can be run in a program. A script gives its test functions in their order, and after them
/// its main function. Other programs give nothing.
pub open spec fn program_runnables(program: TyProgram, paths: Map<u32, PathId>) -> Seq<
    (PathId, Runnable),
> {
    match program.kind {
        TyProgramKind::Script { .. } => test_runnables(
            program.test_fns@,
            program.kind.spec_tree_type(),
            paths,
        ) + main_runnable(program.kind, paths),
        _ => seq![],
    }
}

/// What of `runnables` stands in the file at `path`, in its order.
pub open spec fn in_file(runnables: Seq<(PathId, Runnable)>, path: PathId) -> Seq<Runnable>
    decreases runnables.len(),
{
    if runnables.len() == 0 {
        seq![]
    } else if runnables.last().0 == path {
        in_file(runnables.drop_last(), path).push(runnables.last().1)
    } else {
        in_file(runnables.drop_last(), path)
    }
}

/// What a table of runnables lists for the file at `path`.
pub open spec fn listed(table: Map<PathId, Vec<Runnable>>, path: PathId) -> Seq<Runnable> {
    if table.contains_key(path) {
        table[path]@
    } else {
        seq![]
    }
}

/// `after` lists for each file what `before` lists for it, followed by what of `runnables` stands
/// in it; and it has no other files.
pub open spec fn extended(
    before: Map<PathId, Vec<Runnable>>,
    runnables: Seq<(PathId, Runnable)>,
    after: Map<PathId, Vec<Runnable>>,
) -> bool {
    forall|path: PathId|
        {
            &&& #[trigger] listed(after, path) == listed(before, path) + in_file(runnables, path)
            &&& after.contains_key(path) <==> before.contains_key(path) || in_file(
                runnables,
                path,
            ).len() > 0
        }
}

/// The paths of the files in which the runnables of a program stand are known.
pub open spec fn sources_known(program: TyProgram, engines: Engines) -> bool {
    program.kind matches TyProgramKind::Script { main_function } ==> {
        &&& forall|i: int|
            0 <= i < program.test_fns@.len() ==> engines.knows(
                test_span(#[trigger] program.test_fns@[i]),
            )
        &&& engines.knows(main_function.name.span)
    }
}

/// `after` is the session `before` with the outcome of parsing `res` in place of an earlier one: its
/// tokens, its engines, its programs and what can be run in them. All else is as before.
pub open spec fn takes_over(before: Session, res: ParseResult, after: Session) -> bool {
    &&& after.token_map == res.token_map
    &&& after.engines == res.engines
    &&& extended(
        Map::empty(),
        program_runnables(res.typed, res.engines.source_paths@),
        after.runnables@,
    )
    &&& after.compiled_program == (CompiledProgram {
        lexed: Some(res.lexed),
        parsed: Some(res.parsed),
        typed: Some(res.typed),
    })
    &&& after.documents == before.documents
    &&& after.sync == before.sync
    &&& after.parse_permits == before.parse_permits
    &&& after.diagnostics == before.diagnostics
}

/// Where a test function stands: its first attribute, or its name if it has none.
fn test_fn_span(decl: &TyFunctionDecl) -> (span: Span)
    ensures
        span == test_span(*decl),
{
    if decl.attributes.len() > 0 {
        decl.attributes[0].span
    } else {
        decl.name.span
    }
}

/// Whether the paths of the files in which the runnables of a program stand are known.
pub fn check_sources_known(program: &TyProgram, engines: &Engines) -> (known: bool)
    ensures
        known == sources_known(*program, *engines),
{
    match &program.kind {
        TyProgramKind::Script { main_function } => {
            for i in 0..program.test_fns.len()
                invariant
                    program.kind is Script,
                    forall|j: int|
                        0 <= j < i ==> engines.knows(test_span(#[trigger] program.test_fns@[j])),
            {
                if !engines.knows_span(&test_fn_span(&program.test_fns[i])) {
                    return false;
                }
            }
            engines.knows_span(&main_function.name.span)
        },
        _ => true,
    }
}

/// Listing one more runnable after others.
proof fn lemma_extended_push(
    before: Map<PathId, Vec<Runnable>>,
    runnables: Seq<(PathId, Runnable)>,
    middle: Map<PathId, Vec<Runnable>>,
    path: PathId,
    runnable: Runnable,
    list: Vec<Runnable>,
)
    requires
        extended(before, runnables, middle),
        list@ == listed(middle, path).push(runnable),
    ensures
        extended(before, runnables + seq![(path, runnable)], middle.insert(path, list)),
{
    let more = runnables + seq![(path, runnable)];
    let after = middle.insert(path, list);
    assert(more.drop_last() =~= runnables);
    assert(more.last() == (path, runnable));
    assert forall|p: PathId|
        {
            &&& #[trigger] listed(after, p) == listed(before, p) + in_file(more, p)
            &&& after.contains_key(p) <==> before.contains_key(p) || in_file(more, p).len() > 0
        } by {
        assert(listed(middle, p) == listed(before, p) + in_file(runnables, p));
        if p == path {
            assert(in_file(more, p) == in_file(runnables, p).push(runnable));
            assert(listed(after, p) =~= listed(before, p) + in_file(more, p));
        } else {
            assert(in_file(more, p) == in_file(runnables, p));
        }
    }
}

impl Session {
    /// Nothing but the runnables differs between the two sessions.
    pub open spec fn same_but_runnables(&self, other: &Session) -> bool {
        &&& self.token_map == other.token_map
        &&& self.documents == other.documents
        &&& self.compiled_program == other.compiled_program
        &&& self.engines == other.engines
        &&& self.sync == other.sync
        &&& self.parse_permits == other.parse_permits
        &&& self.diagnostics == other.diagnostics
    }

    /// Lists `runnable` after what is listed for the file at `path`.
    fn push_runnable(&mut self, path: PathId, runnable: Runnable)
        requires
            old(self).wf(),
        ensures
            final(self).wf(),
            final(self).same_but_runnables(old(self)),
            exists|list: Vec<Runnable>|
                list@ == listed(old(self).runnables@, path).push(runnable)
                    && final(self).runnables@ == #[trigger] old(self).runnables@.insert(
                    path,
                    list,
                ),
    {
        broadcast use vstd::std_specs::hash::group_hash_axioms;

        let mut list: Vec<Runnable> = match self.runnables.remove(&path) {
            Some(list) => list,
            None => Vec::new(),
        };
        assert(list@ =~= listed(old(self).runnables@, path));
        list.push(runnable);
        self.runnables.insert(path, list);
        assert(self.runnables@ =~= old(self).runnables@.insert(path, list));
    }

    /// Lists what can be run in the program, if it is a script, file by file: its test functions in
    /// their order, and after them its main function. Of other programs nothing is listed.
    pub fn create_runnables(&mut self, typed_program: &TyProgram)
        requires
            old(self).wf(),
            sources_known(*typed_program, old(self).engines),
        ensures
            final(self).wf(),
            final(self).same_but_runnables(old(self)),
            extended(
                old(self).runnables@,
                program_runnables(*typed_program, old(self).engines.source_paths@),
                final(self).runnables@,
            ),
            !(typed_program.kind is Script) ==> final(self).runnables@ == old(self).runnables@,
    {
        let ghost before = self.runnables@;
        let ghost paths = self.engines.source_paths@;
        let ghost decls = typed_program.test_fns@;
        proof {
            assert(decls.take(0) =~= seq![]);
            assert forall|path: PathId| #[trigger]
                listed(before, path) == listed(before, path) + in_file(seq![], path) by {
                assert(listed(before, path) =~= listed(before, path) + seq![]);
            }
        }
        if let TyProgramKind::Script { main_function } = &typed_program.kind {
            let tree_type: TreeType = typed_program.kind.tree_type();
            for i in 0..typed_program.test_fns.len()
                invariant
                    self.wf(),
                    self.same_but_runnables(old(self)),
                    paths == old(self).engines.source_paths@,
                    decls == typed_program.test_fns@,
                    typed_program.kind is Script,
                    tree_type == typed_program.kind.spec_tree_type(),
                    sources_known(*typed_program, old(self).engines),
                    extended(
                        before,
                        test_runnables(decls.take(i as int), tree_type, paths),
                        self.runnables@,
                    ),
            {
                let decl = &typed_program.test_fns[i];
                let span: Span = test_fn_span(decl);
                let ghost done = test_runnables(decls.take(i as int), tree_type, paths);
                let ghost middle = self.runnables@;
                proof {
                    assert(decls.take(i + 1).drop_last() =~= decls.take(i as int));
                    assert(decls.take(i + 1).last() == *decl);
                    assert(self.engines.knows(test_span(typed_program.test_fns@[i as int])));
                }
                if let Some(source_id) = span.source_id {
                    let path: PathId = self.engines.get_path(source_id);
                    let runnable = Runnable::TestFn(
                        RunnableTestFn {
                            range: span.range,
                            tree_type,
                            test_name: Some(decl.name.name.clone()),
                        },
                    );
                    let ghost p = path;
                    self.push_runnable(path, runnable);
                    proof {
                        let list = choose|list: Vec<Runnable>|
                            list@ == listed(middle, p).push(runnable) && self.runnables@
                                == #[trigger] middle.insert(p, list);
                        lemma_extended_push(before, done, middle, p, runnable, list);
                    }
                } else {
                    assert(done + seq![] =~= done);
                }
            }
            assert(decls.take(decls.len() as int) =~= decls);
            let ghost done = test_runnables(decls, tree_type, paths);
            let ghost middle = self.runnables@;
            let span: Span = main_function.name.span;
            if let Some(source_id) = span.source_id {
                let path: PathId = self.engines.get_path(source_id);
                let runnable = Runnable::MainFn(RunnableMainFn { range: span.range, tree_type });
                let ghost p = path;
                self.push_runnable(path, runnable);
                proof {
                    let list = choose|list: Vec<Runnable>|
                        list@ == listed(middle, p).push(runnable) && self.runnables@
                            == #[trigger] middle.insert(p, list);
                    lemma_extended_push(before, done, middle, p, runnable, list);
                }
            } else {
                assert(done + seq![] =~= done);
            }
        }
    }

    /// Takes over the outcome of parsing: its tokens, its engines and its programs, and what can be
    /// run in it. Nothing of the outcome before it is left.
    pub fn write_parse_result(&mut self, res: ParseResult)
        requires
            old(self).wf(),
            res.token_map.wf(),
            sources_known(res.typed, res.engines),
        ensures
            final(self).wf(),
            takes_over(*old(self), res, *final(self)),
    {
        self.runnables.clear();
        self.engines = res.engines;
        self.token_map = res.token_map;
        self.create_runnables(&res.typed);
        self.compiled_program.lexed = Some(res.lexed);
        self.compiled_program.parsed = Some(res.parsed);
        self.compiled_program.typed = Some(res.typed);
    }
}

} // verus!
