//! What holds of a session that has taken over an outcome of parsing.
use crate::laws::project::{check_answer, is_parse_answer, plan_answer, ParseOutcomes};
use crate::path::PathId;
use crate::program::TyProgram;
use crate::session::documents::found;
use crate::session::runnables::{
    extended, in_file, listed, program_runnables, takes_over, ParseResult,
};
use crate::session::{root_namespace, CompiledProgram, Session};
use crate::url::Url;
use vstd::prelude::*;

verus! {

/// What has been taken over is read back: the tokens, the names at the root of the typed program,
/// and for each file what of the program can be run in it.
pub proof fn law_parse_result_is_read_back(before: Session, res: ParseResult, after: Session)
    requires
        takes_over(before, res, after),
    ensures
        after.token_map == res.token_map,
        root_namespace(after.compiled_program) == Some(res.typed.root.namespace),
        forall|path: PathId| #[trigger]
            listed(after.runnables@, path) == in_file(
                program_runnables(res.typed, res.engines.source_paths@),
                path,
            ),
{
    let runnables = program_runnables(res.typed, res.engines.source_paths@);
    assert forall|path: PathId| #[trigger]
        listed(after.runnables@, path) == in_file(runnables, path) by {
        assert(listed(after.runnables@, path) == listed(Map::empty(), path) + in_file(
            runnables,
            path,
        ));
        assert(listed(after.runnables@, path) =~= in_file(runnables, path));
    }
}

/// Of two outcomes that are taken over one after the other only the second is left.
pub proof fn law_last_parse_result_counts(
    before: Session,
    first: ParseResult,
    middle: Session,
    second: ParseResult,
    after: Session,
)
    requires
        takes_over(before, first, middle),
        takes_over(middle, second, after),
    ensures
        takes_over(before, second, after),
{
}

/// Taking over an outcome of parsing leaves the documents alone.
pub proof fn law_parsing_keeps_documents(
    before: Session,
    res: ParseResult,
    after: Session,
    url: Url,
)
    requires
        takes_over(before, res, after),
    ensures
        found(after.documents@, url) == found(before.documents@, url),
{
}

/// Once a project has been parsed and the outcome taken over, the session holds the programs of the
/// last package of its build plan, the engines that compiling filled, and the token map of the
/// outcome.
pub proof fn law_session_holds_the_last_package(
    uri: Url,
    outcomes: ParseOutcomes,
    res: ParseResult,
    before: Session,
    after: Session,
)
    requires
        is_parse_answer(uri, outcomes, Ok(res)),
        takes_over(before, res, after),
    ensures
        plan_answer(uri, outcomes.plan) matches Ok(plan) && check_answer(
            outcomes,
            plan,
        ).0 matches Ok(results) && {
            &&& results@.last().value matches Some(programs)
            &&& after.compiled_program.lexed == Some(programs.lexed)
            &&& after.compiled_program.parsed == Some(programs.parsed)
            &&& after.compiled_program.typed matches Some(typed) && programs.typed == Ok::<
                TyProgram,
                (),
            >(typed)
            &&& after.engines == check_answer(outcomes, plan).1
            &&& after.token_map == res.token_map
        },
{
}

/// A session that has taken over an outcome holds its token map, its engines and its three programs;
/// its documents, its directories, its permits and its diagnostics are as before; and nothing is
/// listed but what the outcome gives to run.
pub proof fn law_what_is_taken_over(before: Session, res: ParseResult, after: Session)
    requires
        takes_over(before, res, after),
    ensures
        after == (Session {
            token_map: res.token_map,
            engines: res.engines,
            compiled_program: CompiledProgram {
                lexed: Some(res.lexed),
                parsed: Some(res.parsed),
                typed: Some(res.typed),
            },
            runnables: after.runnables,
            ..before
        }),
        extended(
            Map::empty(),
            program_runnables(res.typed, res.engines.source_paths@),
            after.runnables@,
        ),
        !(res.typed.kind is Script) ==> after.runnables@.dom() == Set::<PathId>::empty(),
{
    if !(res.typed.kind is Script) {
        assert forall|path: PathId| !after.runnables@.contains_key(path) by {
            assert(listed(after.runnables@, path) == listed(Map::empty(), path) + in_file(
                seq![],
                path,
            ));
        }
        assert(after.runnables@.dom() =~= Set::<PathId>::empty());
    }
}

/// The names at the root are those of the root of the typed program, if there is one.
pub proof fn law_root_names(program: CompiledProgram)
    ensures
        program.typed is None <==> root_namespace(program) is None,
        program.typed matches Some(typed) ==> root_namespace(program) == Some(
            typed.root.namespace,
        ),
{
}

} // verus!
