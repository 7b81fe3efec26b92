//! What holds of what can be run in a program.
use crate::path::PathId;
use crate::program::{Engines, TreeType, TyFunctionDecl, TyProgram, TyProgramKind};
use crate::runnable::{Runnable, RunnableMainFn, RunnableTestFn};
use crate::session::runnables::{
    extended, in_file, listed, main_runnable, program_runnables, sources_known, test_runnable,
    test_runnables, test_span,
};
use vstd::prelude::*;

verus! {

/// Two tables that are filled from nothing with the same runnables list the same.
pub proof fn law_listing_is_determined(
    runnables: Seq<(PathId, Runnable)>,
    a: Map<PathId, Vec<Runnable>>,
    b: Map<PathId, Vec<Runnable>>,
)
    requires
        extended(Map::empty(), runnables, a),
        extended(Map::empty(), runnables, b),
    ensures
        a.dom() == b.dom(),
        forall|path: PathId| #[trigger] listed(a, path) == listed(b, path),
{
    assert forall|path: PathId| a.contains_key(path) == b.contains_key(path) by {
        assert(listed(a, path) == listed(Map::empty(), path) + in_file(runnables, path));
        assert(listed(b, path) == listed(Map::empty(), path) + in_file(runnables, path));
    }
    assert(a.dom() =~= b.dom());
    assert forall|path: PathId| #[trigger] listed(a, path) == listed(b, path) by {
        assert(listed(b, path) == listed(Map::empty(), path) + in_file(runnables, path));
    }
}

/// What comes first is listed first.
proof fn lemma_in_file_add(
    a: Seq<(PathId, Runnable)>,
    b: Seq<(PathId, Runnable)>,
    path: PathId,
)
    ensures
        in_file(a + b, path) == in_file(a, path) + in_file(b, path),
    decreases b.len(),
{
    if b.len() == 0 {
        assert(a + b =~= a);
        assert(in_file(a, path) =~= in_file(a, path) + in_file(b, path));
    } else {
        lemma_in_file_add(a, b.drop_last(), path);
        assert((a + b).drop_last() =~= a + b.drop_last());
        assert((a + b).last() == b.last());
        assert(in_file(a + b, path) =~= in_file(a, path) + in_file(b, path));
    }
}

/// One runnable is listed in its own file.
proof fn lemma_in_file_one(path: PathId, runnable: Runnable, p: PathId)
    ensures
        in_file(seq![(path, runnable)], p) == (if p == path {
            seq![runnable]
        } else {
            seq![]
        }),
{
    let one = seq![(path, runnable)];
    reveal_with_fuel(in_file, 2);
    assert(one.drop_last() =~= seq![]);
    assert(in_file(one, p) =~= if p == path {
        seq![runnable]
    } else {
        seq![]
    });
}

/// The runnables of the test function `i` are among those of all.
proof fn lemma_test_runnables_contain(
    decls: Seq<TyFunctionDecl>,
    tree_type: TreeType,
    paths: Map<u32, PathId>,
    i: int,
    path: PathId,
)
    requires
        0 <= i < decls.len(),
    ensures
        forall|runnable: Runnable| #[trigger]
            in_file(test_runnable(decls[i], tree_type, paths), path).contains(runnable) ==> in_file(
                test_runnables(decls, tree_type, paths),
                path,
            ).contains(runnable),
    decreases decls.len(),
{
    let rest = decls.drop_last();
    let before = test_runnables(rest, tree_type, paths);
    let last = test_runnable(decls.last(), tree_type, paths);
    lemma_in_file_add(before, last, path);
    let a = in_file(before, path);
    let b = in_file(last, path);
    if i < rest.len() {
        lemma_test_runnables_contain(rest, tree_type, paths, i, path);
    }
    assert forall|runnable: Runnable| #[trigger]
        in_file(test_runnable(decls[i], tree_type, paths), path).contains(runnable) implies (a
        + b).contains(runnable) by {
        if i < rest.len() {
            assert(rest[i] == decls[i]);
            let j = choose|j: int| 0 <= j < a.len() && a[j] == runnable;
            assert((a + b)[j] == runnable);
        } else {
            let j = choose|j: int| 0 <= j < b.len() && b[j] == runnable;
            assert((a + b)[a.len() + j] == runnable);
        }
    }
}

/// A program that is no script gives nothing to run: no file lists anything of it.
pub proof fn law_only_scripts_have_runnables(
    program: TyProgram,
    paths: Map<u32, PathId>,
    path: PathId,
)
    requires
        !(program.kind is Script),
    ensures
        program_runnables(program, paths).len() == 0,
        in_file(program_runnables(program, paths), path).len() == 0,
{
}

/// Every test function of a script that stands in a file is listed there, under its name, with the
/// range of its first attribute or, if it has none, of its name.
pub proof fn law_test_function_is_listed(program: TyProgram, paths: Map<u32, PathId>, i: int)
    requires
        program.kind is Script,
        0 <= i < program.test_fns@.len(),
    ensures
        test_span(program.test_fns@[i]).source_id matches Some(id) ==> in_file(
            program_runnables(program, paths),
            paths[id],
        ).contains(
            Runnable::TestFn(
                RunnableTestFn {
                    range: test_span(program.test_fns@[i]).range,
                    tree_type: program.kind.spec_tree_type(),
                    test_name: Some(program.test_fns@[i].name.name),
                },
            ),
        ),
{
    let decl = program.test_fns@[i];
    let tree_type = program.kind.spec_tree_type();
    if let Some(id) = test_span(decl).source_id {
        let path = paths[id];
        let runnable = Runnable::TestFn(
            RunnableTestFn {
                range: test_span(decl).range,
                tree_type,
                test_name: Some(decl.name.name),
            },
        );
        lemma_in_file_one(path, runnable, path);
        assert(in_file(test_runnable(decl, tree_type, paths), path)[0] == runnable);
        lemma_test_runnables_contain(program.test_fns@, tree_type, paths, i, path);
        assert(in_file(test_runnable(decl, tree_type, paths), path).contains(runnable));
        let tests = test_runnables(program.test_fns@, tree_type, paths);
        let main = main_runnable(program.kind, paths);
        lemma_in_file_add(tests, main, path);
        let a = in_file(tests, path);
        let b = in_file(main, path);
        let j = choose|j: int| 0 <= j < a.len() && a[j] == runnable;
        assert((a + b)[j] == runnable);
    }
}

/// Test functions give no runnable main function.
proof fn lemma_tests_only(
    decls: Seq<TyFunctionDecl>,
    tree_type: TreeType,
    paths: Map<u32, PathId>,
    path: PathId,
)
    ensures
        forall|i: int|
            0 <= i < in_file(test_runnables(decls, tree_type, paths), path).len() ==> #[trigger]
            in_file(test_runnables(decls, tree_type, paths), path)[i] is TestFn,
    decreases decls.len(),
{
    if decls.len() > 0 {
        let before = test_runnables(decls.drop_last(), tree_type, paths);
        let last = test_runnable(decls.last(), tree_type, paths);
        lemma_tests_only(decls.drop_last(), tree_type, paths, path);
        lemma_in_file_add(before, last, path);
        if let Some(id) = test_span(decls.last()).source_id {
            lemma_in_file_one(paths[id], last[0].1, path);
            assert(last =~= seq![(paths[id], last[0].1)]);
        }
    }
}

/// The main function of a script that stands in a file is listed there, after all test functions;
/// in no file is there another main function, nor is there one in a program that is no script.
pub proof fn law_main_function_is_listed_last(
    program: TyProgram,
    paths: Map<u32, PathId>,
    path: PathId,
)
    ensures
        ({
            let listing = in_file(program_runnables(program, paths), path);
            let main_here = program.kind matches TyProgramKind::Script { main_function }
                && main_function.name.span.source_id matches Some(id) && paths[id] == path;
            &&& main_here ==> listing.len() > 0 && listing.last() == Runnable::MainFn(
                RunnableMainFn {
                    range: program.kind->main_function.name.span.range,
                    tree_type: program.kind.spec_tree_type(),
                },
            )
            &&& forall|i: int|
                0 <= i < listing.len() && #[trigger] listing[i] is MainFn ==> main_here && i
                    == listing.len() - 1
        }),
{
    let tree_type = program.kind.spec_tree_type();
    let tests = test_runnables(program.test_fns@, tree_type, paths);
    let main = main_runnable(program.kind, paths);
    lemma_in_file_add(tests, main, path);
    lemma_tests_only(program.test_fns@, tree_type, paths, path);
    if let TyProgramKind::Script { main_function } = program.kind {
        if let Some(id) = main_function.name.span.source_id {
            lemma_in_file_one(paths[id], main[0].1, path);
            assert(main =~= seq![(paths[id], main[0].1)]);
        }
    }
}

/// A script gives one runnable for each test function that stands in a file, and one more if its
/// main function stands in one. Other programs give none.
pub proof fn law_number_of_runnables(program: TyProgram, paths: Map<u32, PathId>)
    ensures
        program_runnables(program, paths).len() == (match program.kind {
            TyProgramKind::Script { main_function } => program.test_fns@.filter(
                |decl: TyFunctionDecl| test_span(decl).source_id is Some,
            ).len() + (if main_function.name.span.source_id is Some {
                1nat
            } else {
                0nat
            }),
            _ => 0nat,
        }),
{
    lemma_number_of_tests(program.test_fns@, program.kind.spec_tree_type(), paths);
}

/// There is one runnable for each test function that stands in a file.
proof fn lemma_number_of_tests(
    decls: Seq<TyFunctionDecl>,
    tree_type: TreeType,
    paths: Map<u32, PathId>,
)
    ensures
        test_runnables(decls, tree_type, paths).len() == decls.filter(
            |decl: TyFunctionDecl| test_span(decl).source_id is Some,
        ).len(),
    decreases decls.len(),
{
    reveal(Seq::filter);
    if decls.len() > 0 {
        lemma_number_of_tests(decls.drop_last(), tree_type, paths);
    }
}

/// What the test functions give in the file at `path` is what those of them give that `here` picks,
/// where `here` picks the functions that stand in that file and `give` says what each gives.
proof fn lemma_tests_in_file(
    decls: Seq<TyFunctionDecl>,
    tree_type: TreeType,
    paths: Map<u32, PathId>,
    path: PathId,
    here: spec_fn(TyFunctionDecl) -> bool,
    give: spec_fn(TyFunctionDecl) -> Runnable,
)
    requires
        forall|decl: TyFunctionDecl| #[trigger]
            here(decl) <==> (test_span(decl).source_id matches Some(id) && paths[id] == path),
        forall|decl: TyFunctionDecl| #[trigger]
            give(decl) == Runnable::TestFn(
                RunnableTestFn {
                    range: test_span(decl).range,
                    tree_type,
                    test_name: Some(decl.name.name),
                },
            ),
    ensures
        in_file(test_runnables(decls, tree_type, paths), path) == decls.filter(here).map_values(
            give,
        ),
    decreases decls.len(),
{
    reveal(Seq::filter);
    if decls.len() == 0 {
        assert(decls.filter(here).map_values(give) =~= seq![]);
    } else {
        let rest = decls.drop_last();
        let last = decls.last();
        let before = test_runnables(rest, tree_type, paths);
        let one = test_runnable(last, tree_type, paths);
        lemma_tests_in_file(rest, tree_type, paths, path, here, give);
        lemma_in_file_add(before, one, path);
        if let Some(id) = test_span(last).source_id {
            lemma_in_file_one(paths[id], give(last), path);
            assert(one =~= seq![(paths[id], give(last))]);
        }
        assert(in_file(before, path) + in_file(one, path) =~= decls.filter(here).map_values(give));
    }
}

/// What a file lists of a script, after what it listed before: each test function that stands in
/// it, in their order, under its name and with the range of its first attribute or, without
/// attributes, of its name; and then the main function, if it stands in it. A file is listed exactly
/// where it was before or has something to list.
pub proof fn law_listing_of_a_script(
    program: TyProgram,
    main_function: TyFunctionDecl,
    paths: Map<u32, PathId>,
    before: Map<PathId, Vec<Runnable>>,
    after: Map<PathId, Vec<Runnable>>,
    path: PathId,
)
    requires
        program.kind == (TyProgramKind::Script { main_function }),
        extended(before, program_runnables(program, paths), after),
    ensures
        ({
            let tests = program.test_fns@.filter(
                |decl: TyFunctionDecl|
                    (if decl.attributes@.len() > 0 {
                        decl.attributes@[0].span
                    } else {
                        decl.name.span
                    }).source_id matches Some(id) && paths[id] == path,
            ).map_values(
                |decl: TyFunctionDecl|
                    Runnable::TestFn(
                        RunnableTestFn {
                            range: (if decl.attributes@.len() > 0 {
                                decl.attributes@[0].span
                            } else {
                                decl.name.span
                            }).range,
                            tree_type: TreeType::Script,
                            test_name: Some(decl.name.name),
                        },
                    ),
            );
            let main = if main_function.name.span.source_id matches Some(id) && paths[id] == path {
                seq![
                    Runnable::MainFn(
                        RunnableMainFn {
                            range: main_function.name.span.range,
                            tree_type: TreeType::Script,
                        },
                    ),
                ]
            } else {
                seq![]
            };
            &&& (if after.contains_key(path) {
                after[path]@
            } else {
                seq![]
            }) == (if before.contains_key(path) {
                before[path]@
            } else {
                seq![]
            }) + tests + main
            &&& after.contains_key(path) <==> before.contains_key(path) || tests.len() + main.len()
                > 0
        }),
{
    let here = |decl: TyFunctionDecl|
        (if decl.attributes@.len() > 0 {
            decl.attributes@[0].span
        } else {
            decl.name.span
        }).source_id matches Some(id) && paths[id] == path;
    let give = |decl: TyFunctionDecl|
        Runnable::TestFn(
            RunnableTestFn {
                range: (if decl.attributes@.len() > 0 {
                    decl.attributes@[0].span
                } else {
                    decl.name.span
                }).range,
                tree_type: TreeType::Script,
                test_name: Some(decl.name.name),
            },
        );
    let all = test_runnables(program.test_fns@, TreeType::Script, paths);
    let one = main_runnable(program.kind, paths);
    lemma_tests_in_file(program.test_fns@, TreeType::Script, paths, path, here, give);
    lemma_in_file_add(all, one, path);
    if let Some(id) = main_function.name.span.source_id {
        lemma_in_file_one(paths[id], one[0].1, path);
        assert(one =~= seq![(paths[id], one[0].1)]);
    }
    assert(listed(after, path) == listed(before, path) + in_file(all + one, path));
    assert(listed(before, path) + (in_file(all, path) + in_file(one, path)) =~= listed(before, path)
        + in_file(all, path) + in_file(one, path));
}

/// Of a program that is no script nothing is listed: each file lists what it listed before.
pub proof fn law_listing_of_another_program(
    program: TyProgram,
    paths: Map<u32, PathId>,
    before: Map<PathId, Vec<Runnable>>,
    after: Map<PathId, Vec<Runnable>>,
    path: PathId,
)
    requires
        !(program.kind is Script),
        extended(before, program_runnables(program, paths), after),
    ensures
        after.contains_key(path) <==> before.contains_key(path),
        before.contains_key(path) ==> after[path]@ == before[path]@,
{
    assert(listed(after, path) == listed(before, path) + in_file(seq![], path));
    assert(listed(before, path) + seq![] =~= listed(before, path));
}

/// A test function of a script that has attributes, the first of which is written in a source file,
/// is listed for the path of that file, under its name and with the range of that attribute.
pub proof fn law_test_with_attributes_is_listed(
    program: TyProgram,
    paths: Map<u32, PathId>,
    before: Map<PathId, Vec<Runnable>>,
    after: Map<PathId, Vec<Runnable>>,
    i: int,
    id: u32,
)
    requires
        program.kind is Script,
        extended(before, program_runnables(program, paths), after),
        0 <= i < program.test_fns@.len(),
        program.test_fns@[i].attributes@.len() > 0,
        program.test_fns@[i].attributes@[0].span.source_id == Some(id),
    ensures
        after.contains_key(paths[id]),
        after[paths[id]]@.contains(
            Runnable::TestFn(
                RunnableTestFn {
                    range: program.test_fns@[i].attributes@[0].span.range,
                    tree_type: TreeType::Script,
                    test_name: Some(program.test_fns@[i].name.name),
                },
            ),
        ),
{
    law_test_function_is_listed(program, paths, i);
    lemma_listed_after(
        before,
        program_runnables(program, paths),
        after,
        paths[id],
        Runnable::TestFn(
            RunnableTestFn {
                range: program.test_fns@[i].attributes@[0].span.range,
                tree_type: TreeType::Script,
                test_name: Some(program.test_fns@[i].name.name),
            },
        ),
    );
}

/// A test function of a script that has no attributes, and whose name is written in a source file,
/// is listed for the path of that file, under its name and with the range of its name.
pub proof fn law_test_without_attributes_is_listed(
    program: TyProgram,
    paths: Map<u32, PathId>,
    before: Map<PathId, Vec<Runnable>>,
    after: Map<PathId, Vec<Runnable>>,
    i: int,
    id: u32,
)
    requires
        program.kind is Script,
        extended(before, program_runnables(program, paths), after),
        0 <= i < program.test_fns@.len(),
        program.test_fns@[i].attributes@.len() == 0,
        program.test_fns@[i].name.span.source_id == Some(id),
    ensures
        after.contains_key(paths[id]),
        after[paths[id]]@.contains(
            Runnable::TestFn(
                RunnableTestFn {
                    range: program.test_fns@[i].name.span.range,
                    tree_type: TreeType::Script,
                    test_name: Some(program.test_fns@[i].name.name),
                },
            ),
        ),
{
    law_test_function_is_listed(program, paths, i);
    lemma_listed_after(
        before,
        program_runnables(program, paths),
        after,
        paths[id],
        Runnable::TestFn(
            RunnableTestFn {
                range: program.test_fns@[i].name.span.range,
                tree_type: TreeType::Script,
                test_name: Some(program.test_fns@[i].name.name),
            },
        ),
    );
}

/// What of the runnables stands in a file is listed for it afterwards.
proof fn lemma_listed_after(
    before: Map<PathId, Vec<Runnable>>,
    runnables: Seq<(PathId, Runnable)>,
    after: Map<PathId, Vec<Runnable>>,
    path: PathId,
    runnable: Runnable,
)
    requires
        extended(before, runnables, after),
        in_file(runnables, path).contains(runnable),
    ensures
        after.contains_key(path),
        after[path]@.contains(runnable),
{
    let a = listed(before, path);
    let b = in_file(runnables, path);
    let i = choose|i: int| 0 <= i < b.len() && b[i] == runnable;
    assert(listed(after, path) == a + b);
    assert((a + b)[a.len() + i] == runnable);
}

/// The kind of a program is told by the word for it.
pub proof fn law_tree_types(kind: TyProgramKind)
    ensures
        kind is Contract <==> kind.spec_tree_type() == TreeType::Contract,
        kind is Library <==> kind.spec_tree_type() == TreeType::Library,
        kind is Predicate <==> kind.spec_tree_type() == TreeType::Predicate,
        kind is Script <==> kind.spec_tree_type() == TreeType::Script,
{
}

/// The sources of a program are known exactly where, if it is a script, the place of each test
/// function and the name of its main function lie in no source file or in one with a path.
pub proof fn law_known_sources(program: TyProgram, engines: Engines)
    ensures
        sources_known(program, engines) <==> (program.kind matches TyProgramKind::Script {
            main_function,
        } ==> (main_function.name.span.source_id matches Some(id)
            ==> engines.source_paths@.contains_key(id)) && forall|i: int|
            0 <= i < program.test_fns@.len() ==> ((if (
            #[trigger] program.test_fns@[i]).attributes@.len() > 0 {
                program.test_fns@[i].attributes@[0].span
            } else {
                program.test_fns@[i].name.span
            }).source_id matches Some(id) ==> engines.source_paths@.contains_key(id))),
{
    if program.kind is Script {
        assert forall|i: int| 0 <= i < program.test_fns@.len() implies (engines.knows(
            test_span(#[trigger] program.test_fns@[i]),
        ) <==> ((if program.test_fns@[i].attributes@.len() > 0 {
            program.test_fns@[i].attributes@[0].span
        } else {
            program.test_fns@[i].name.span
        }).source_id matches Some(id) ==> engines.source_paths@.contains_key(id))) by {}
    }
}

} // verus!
