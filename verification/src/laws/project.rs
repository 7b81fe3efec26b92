//! What holds of how a project is parsed.
use crate::error::{DocumentError, LanguageServerError};
use crate::path::PathId;
use crate::program::{
    AstNode, Engines, LexedProgram, ParseProgram, ParseSubmodule, TyAstNode, TyProgram, TySubmodule,
};
use crate::project::{
    any_type_check_failed, first_visits, lemma_flat_map_contains, lemma_flat_map_take, main_visits,
    package_visits, parse_step, plan_action, populated, program_nodes, results_of, traverses,
    ty_program_nodes, type_check_failed, BuildPlan, BuildTarget, CheckResult, IpfsNode, Manifest,
    MemberManifests, ParseAction, ParseEvent, PlanAction, PlanEvent, PlanWork, Programs, Traversal,
    TraversalView, Visit, VisitStep,
};
use crate::session::runnables::ParseResult;
use crate::token::{Token, TokenIdentView, TokenMap};
use crate::url::Url;
use vstd::prelude::*;

verus! {

/// What the work that is asked for on the way to a build plan comes to.
pub struct PlanOutcomes {
    /// The manifest in a directory.
    pub manifest: spec_fn(String) -> Result<Manifest, String>,
    /// The manifests of the members of a manifest.
    pub members: spec_fn(Manifest) -> Result<MemberManifests, String>,
    /// The path of the lock file of a manifest.
    pub lock_path: spec_fn(Manifest) -> Result<PathId, String>,
    /// The plan that is made from a lock file and the manifests of members, locked or not, offline
    /// or not, with the node that packages are fetched from.
    pub plan: spec_fn(PathId, MemberManifests, bool, bool, IpfsNode) -> Result<BuildPlan, String>,
}

/// What happens once `work` has been done.
pub open spec fn plan_reply(outcomes: PlanOutcomes, work: PlanWork) -> PlanEvent {
    match work {
        PlanWork::ReadManifest { dir } => PlanEvent::ManifestRead((outcomes.manifest)(dir)),
        PlanWork::ReadMembers { manifest } => PlanEvent::MembersRead {
            manifest,
            read: (outcomes.members)(manifest),
        },
        PlanWork::FindLockPath { manifest, members } => PlanEvent::LockPathFound {
            members,
            found: (outcomes.lock_path)(manifest),
        },
        PlanWork::MakePlan { lock_path, members, locked, offline, ipfs_node } => {
            PlanEvent::PlanMade(
                (outcomes.plan)(lock_path, members, locked, offline, ipfs_node),
            )
        },
    }
}

/// The answer that comes out when what is asked for is done, step by step, at most `steps` times.
pub open spec fn plan_run(uri: Url, outcomes: PlanOutcomes, event: PlanEvent, steps: nat) -> Option<
    Result<BuildPlan, LanguageServerError>,
>
    decreases steps,
{
    match plan_action(uri, event) {
        PlanAction::Finish(result) => Some(result),
        PlanAction::Do(work) => if steps == 0 {
            None
        } else {
            plan_run(uri, outcomes, plan_reply(outcomes, work), (steps - 1) as nat)
        },
    }
}

/// The answer to the request for a build plan for the project at `uri`: the plan that is made from
/// the lock file and the members of the manifest in its directory, not locked, not offline, and with
/// the local node; or the error of the first step that fails.
pub open spec fn plan_answer(uri: Url, outcomes: PlanOutcomes) -> Result<
    BuildPlan,
    LanguageServerError,
> {
    match (outcomes.manifest)(uri.path) {
        Err(_) => Err(
            LanguageServerError::DocumentError(
                DocumentError::ManifestFileNotFound { dir: uri.path },
            ),
        ),
        Ok(manifest) => match ((outcomes.members)(manifest), (outcomes.lock_path)(manifest)) {
            (Err(_), _) => Err(
                LanguageServerError::DocumentError(
                    DocumentError::MemberManifestsFailed { dir: uri.path },
                ),
            ),
            (Ok(_), Err(_)) => Err(
                LanguageServerError::DocumentError(
                    DocumentError::ManifestsLockPathFailed { dir: uri.path },
                ),
            ),
            (Ok(members), Ok(lock_path)) => match (outcomes.plan)(
                lock_path,
                members,
                false,
                false,
                IpfsNode::Local,
            ) {
                Ok(plan) => Ok(plan),
                Err(reason) => Err(LanguageServerError::BuildPlanFailed(reason)),
            },
        },
    }
}

/// A build plan takes at most four steps. It is the one that is made from the lock file and the
/// members of the manifest of the project; where a step fails, the answer is the error of the first
/// that does.
pub proof fn law_build_plan(uri: Url, outcomes: PlanOutcomes)
    ensures
        plan_run(uri, outcomes, PlanEvent::Begin, 4) == Some(plan_answer(uri, outcomes)),
{
    reveal_with_fuel(plan_run, 5);
}

/// What the work that is asked for on the way to a parsed project comes to.
pub struct ParseOutcomes {
    /// What comes of the steps to a build plan.
    pub plan: PlanOutcomes,
    /// What compiling the packages of a plan gives, and what it makes of the engines that were
    /// handed out.
    pub check: spec_fn(BuildPlan, Map<u32, PathId>, BuildTarget, bool, bool) -> (
        Result<Vec<CheckResult>, String>,
        Engines,
    ),
    /// What the steps of a traversal make of the token map that was handed out.
    pub visit: spec_fn(Map<TokenIdentView, Token>, TraversalView) -> TokenMap,
}

/// What happens once `action` has been done.
pub open spec fn parse_reply(outcomes: ParseOutcomes, action: ParseAction) -> ParseEvent {
    match action {
        ParseAction::Plan(work) => ParseEvent::Plan(plan_reply(outcomes.plan, work)),
        ParseAction::Check { plan, engines, build_target, terse_mode, tests_enabled } => {
            let checked = (outcomes.check)(
                plan,
                engines.source_paths@,
                build_target,
                terse_mode,
                tests_enabled,
            );
            ParseEvent::Checked { outcome: checked.0, engines: checked.1 }
        },
        ParseAction::Traverse { traversal, token_map } => ParseEvent::Traversed {
            traversal,
            token_map: (outcomes.visit)(token_map@, traversal@),
        },
        ParseAction::Finish(_) => ParseEvent::Plan(PlanEvent::Begin),
    }
}

/// `events` and `actions` are what happens, and what is to be done next, from the request to parse
/// the project at `uri` to the answer.
pub open spec fn is_parse_run(
    uri: Url,
    outcomes: ParseOutcomes,
    events: Seq<ParseEvent>,
    actions: Seq<ParseAction>,
) -> bool {
    &&& events.len() == actions.len()
    &&& events.len() > 0
    &&& events[0] == ParseEvent::Plan(PlanEvent::Begin)
    &&& forall|i: int| 0 <= i < events.len() ==> parse_step(uri, events[i], #[trigger] actions[i])
    &&& forall|i: int|
        0 <= i < events.len() - 1 ==> !((#[trigger] actions[i]) is Finish) && events[i + 1]
            == parse_reply(outcomes, actions[i])
    &&& actions.last() is Finish
}

/// What compiling the packages of `plan` comes to: it is given engines that know of nothing.
pub open spec fn check_answer(outcomes: ParseOutcomes, plan: BuildPlan) -> (
    Result<Vec<CheckResult>, String>,
    Engines,
) {
    (outcomes.check)(plan, Map::empty(), BuildTarget::Default, true, true)
}

/// `result` is the answer to the request to parse the project at `uri`: the error of the first step
/// that fails, if one does. Otherwise it holds the diagnostics and the programs of the last package
/// of the build plan, the engines that compiling filled, and what visiting the packages in their
/// order makes of an empty token map.
pub open spec fn is_parse_answer(
    uri: Url,
    outcomes: ParseOutcomes,
    result: Result<ParseResult, LanguageServerError>,
) -> bool {
    match plan_answer(uri, outcomes.plan) {
        Err(error) => result == Err::<ParseResult, _>(error),
        Ok(plan) => match check_answer(outcomes, plan) {
            (Err(reason), _) => result == Err::<ParseResult, _>(
                LanguageServerError::FailedToCompile(reason),
            ),
            (Ok(results), engines) => if any_type_check_failed(results@) {
                result == Err::<ParseResult, _>(LanguageServerError::FailedToParse)
            } else {
                result matches Ok(parsed) && holds_last_package(parsed, results@)
                    && parsed.engines == engines && parsed.token_map == (outcomes.visit)(
                    Map::empty(),
                    TraversalView {
                        diagnostics: parsed.diagnostics,
                        visits: first_visits(results@, results@.len() as int),
                        lexed: parsed.lexed,
                        parsed: parsed.parsed,
                        typed: parsed.typed,
                        engines,
                    },
                )
            },
        },
    }
}

/// `parsed` holds the diagnostics and the programs of the last package.
pub open spec fn holds_last_package(parsed: ParseResult, results: Seq<CheckResult>) -> bool {
    &&& parsed.diagnostics == results.last().diagnostics
    &&& results.last().value matches Some(programs) && parsed.lexed == programs.lexed
        && parsed.parsed == programs.parsed && programs.typed == Ok::<TyProgram, ()>(parsed.typed)
}

/// A project is parsed in at most seven steps, and the answer is that of the first step that fails
/// or, if none does, what its packages come to: the engines and the token map start from nothing,
/// so nothing of an earlier project is left in them.
pub proof fn law_parse_run(
    uri: Url,
    outcomes: ParseOutcomes,
    events: Seq<ParseEvent>,
    actions: Seq<ParseAction>,
)
    requires
        is_parse_run(uri, outcomes, events, actions),
        plan_answer(uri, outcomes.plan) matches Ok(plan) ==> (check_answer(
            outcomes,
            plan,
        ).0 matches Ok(results) ==> populated(results@)),
    ensures
        actions.len() <= 7,
        actions.last() matches ParseAction::Finish(result) && is_parse_answer(
            uri,
            outcomes,
            result,
        ),
{
    let n = actions.len();
    assert(parse_step(uri, events[0], actions[0]));
    assert(n > 1);
    assert(events[1] == parse_reply(outcomes, actions[0]));
    assert(parse_step(uri, events[1], actions[1]));
    if n > 2 {
        assert(events[2] == parse_reply(outcomes, actions[1]));
        assert(parse_step(uri, events[2], actions[2]));
        if n > 3 {
            assert(events[3] == parse_reply(outcomes, actions[2]));
            assert(parse_step(uri, events[3], actions[3]));
            if n > 4 {
                assert(events[4] == parse_reply(outcomes, actions[3]));
                assert(parse_step(uri, events[4], actions[4]));
                if n > 5 {
                    assert(events[5] == parse_reply(outcomes, actions[4]));
                    assert(parse_step(uri, events[5], actions[5]));
                    if n > 6 {
                        assert(events[6] == parse_reply(outcomes, actions[5]));
                        assert(parse_step(uri, events[6], actions[6]));
                        if n > 7 {
                            assert(!(actions[6] is Finish));
                        }
                    }
                }
            }
        }
    }
}

/// Whether a step belongs to a dependency.
pub open spec fn is_dependency_step(step: VisitStep) -> bool {
    step is DependencyNode || step is TypedDependencyNode
}

/// Before the last package only steps of dependencies are made.
proof fn lemma_dependencies_first(results: Seq<CheckResult>, n: int)
    requires
        0 <= n < results.len(),
    ensures
        forall|i: int|
            0 <= i < first_visits(results, n).len() ==> is_dependency_step(
                (#[trigger] first_visits(results, n)[i]).step,
            ),
    decreases n,
{
    if n > 0 {
        lemma_dependencies_first(results, n - 1);
        let before = first_visits(results, n - 1);
        let package = package_visits(results[n - 1], false);
        assert forall|i: int| 0 <= i < package.len() implies is_dependency_step(
            (#[trigger] package[i]).step,
        ) by {}
        assert forall|i: int| 0 <= i < first_visits(results, n).len() implies is_dependency_step(
            (#[trigger] first_visits(results, n)[i]).step,
        ) by {
            if i < before.len() {
                assert(first_visits(results, n)[i] == before[i]);
            } else {
                assert(first_visits(results, n)[i] == package[i - before.len()]);
            }
        }
    }
}

/// The dependencies are visited before the main program, and the main program is the last package.
pub proof fn law_main_program_comes_last(
    results: Seq<CheckResult>,
    engines: Engines,
    traversal: TraversalView,
)
    requires
        results.len() > 0,
        traverses(traversal, results, engines),
    ensures
        ({
            let dependencies = first_visits(results, results.len() - 1);
            &&& traversal.visits == dependencies + main_visits(
                traversal.lexed,
                traversal.parsed,
                traversal.typed,
            )
            &&& forall|i: int|
                0 <= i < dependencies.len() ==> is_dependency_step(
                    (#[trigger] dependencies[i]).step,
                )
        }),
{
    lemma_dependencies_first(results, results.len() - 1);
}

/// The place of a step in the order in which the steps for the main program are made.
pub open spec fn stage(step: VisitStep) -> nat {
    match step {
        VisitStep::Lexed(_) => 0,
        VisitStep::ParsedModuleSpans => 1,
        VisitStep::ParsedNode(_) => 2,
        VisitStep::TypedModuleSpans => 3,
        VisitStep::TypedNode(_) => 4,
        _ => 5,
    }
}

/// For the main program the keywords are collected first, then the modules and the nodes as parsed,
/// and then the modules and the nodes as typed.
pub proof fn law_main_program_order(
    lexed: LexedProgram,
    parsed: ParseProgram,
    typed: TyProgram,
    i: int,
    j: int,
)
    requires
        0 <= i < j < main_visits(lexed, parsed, typed).len(),
    ensures
        stage(main_visits(lexed, parsed, typed)[i].step) <= stage(
            main_visits(lexed, parsed, typed)[j].step,
        ),
        stage(main_visits(lexed, parsed, typed)[j].step) <= 4,
{
}

/// The diagnostics are those of the last package; those of its dependencies are dropped.
pub proof fn law_diagnostics_of_the_last_package(
    dependencies: Seq<CheckResult>,
    main: CheckResult,
    engines: Engines,
    traversal: TraversalView,
)
    requires
        traverses(traversal, dependencies.push(main), engines),
    ensures
        traversal.diagnostics == main.diagnostics,
{
    assert(dependencies.push(main).last() == main);
}

/// A package that could not be read is passed over, wherever it comes before the last one.
pub proof fn law_unread_package_is_passed_over(
    results: Seq<CheckResult>,
    n: int,
)
    requires
        0 <= n < results.len() - 1,
        results[n].value is None,
    ensures
        first_visits(results, n + 1) == first_visits(results, n),
        !type_check_failed(results[n]),
{
    assert(first_visits(results, n + 1) =~= first_visits(results, n));
}

/// Something is in two sequences together exactly where it is in one of them.
proof fn lemma_contains_add<N>(a: Seq<N>, b: Seq<N>, node: N)
    ensures
        (a + b).contains(node) <==> a.contains(node) || b.contains(node),
{
    if a.contains(node) {
        let i = choose|i: int| 0 <= i < a.len() && a[i] == node;
        assert((a + b)[i] == node);
    }
    if b.contains(node) {
        let i = choose|i: int| 0 <= i < b.len() && b[i] == node;
        assert((a + b)[a.len() + i] == node);
    }
}

/// Each node at the root of a program and of the modules directly below it is visited, and no
/// other node.
pub proof fn law_nodes_of_a_program(program: ParseProgram, node: AstNode)
    ensures
        program_nodes(program).contains(node) <==> program.root.tree.root_nodes@.contains(node) || (
        exists|k: int|
            0 <= k < program.root.submodules@.len() && (
            #[trigger] program.root.submodules@[k]).1.module.tree.root_nodes@.contains(node)),
{
    let module_nodes = |submodule: (String, ParseSubmodule)| submodule.1.module.tree.root_nodes@;
    lemma_flat_map_contains(program.root.submodules@, module_nodes, node);
    lemma_contains_add(
        program.root.tree.root_nodes@,
        program.root.submodules@.flat_map(module_nodes),
        node,
    );
}

/// Each node of the root of a typed program and of the modules directly below it is visited, and no
/// other node.
pub proof fn law_nodes_of_a_typed_program(program: TyProgram, node: TyAstNode)
    ensures
        ty_program_nodes(program).contains(node) <==> program.root.all_nodes@.contains(node) || (
        exists|k: int|
            0 <= k < program.root.submodules@.len() && (
            #[trigger] program.root.submodules@[k]).1.module.all_nodes@.contains(node)),
{
    let module_nodes = |submodule: (String, TySubmodule)| submodule.1.module.all_nodes@;
    lemma_flat_map_contains(program.root.submodules@, module_nodes, node);
    lemma_contains_add(
        program.root.all_nodes@,
        program.root.submodules@.flat_map(module_nodes),
        node,
    );
}

/// What is to be done next on each event on the way to a build plan.
pub proof fn law_plan_steps(
    uri: Url,
    manifest: Manifest,
    members: MemberManifests,
    lock_path: PathId,
    plan: BuildPlan,
)
    ensures
        plan_action(uri, PlanEvent::Begin) == PlanAction::Do(
            PlanWork::ReadManifest { dir: uri.path },
        ),
        plan_action(uri, PlanEvent::ManifestRead(Ok(manifest))) == PlanAction::Do(
            PlanWork::ReadMembers { manifest },
        ),
        plan_action(uri, PlanEvent::MembersRead { manifest, read: Ok(members) }) == PlanAction::Do(
            PlanWork::FindLockPath { manifest, members },
        ),
        plan_action(uri, PlanEvent::LockPathFound { members, found: Ok(lock_path) })
            == PlanAction::Do(
            PlanWork::MakePlan {
                lock_path,
                members,
                locked: false,
                offline: false,
                ipfs_node: IpfsNode::Local,
            },
        ),
        plan_action(uri, PlanEvent::PlanMade(Ok(plan))) == PlanAction::Finish(Ok(plan)),
{
}

/// What fails on the way to a build plan ends it with its own error: the first three steps with the
/// directory of the project, the last one with the reason.
pub proof fn law_plan_errors(
    uri: Url,
    manifest: Manifest,
    members: MemberManifests,
    reason: String,
)
    ensures
        plan_action(uri, PlanEvent::ManifestRead(Err(reason))) == PlanAction::Finish(
            Err(
                LanguageServerError::DocumentError(
                    DocumentError::ManifestFileNotFound { dir: uri.path },
                ),
            ),
        ),
        plan_action(uri, PlanEvent::MembersRead { manifest, read: Err(reason) })
            == PlanAction::Finish(
            Err(
                LanguageServerError::DocumentError(
                    DocumentError::MemberManifestsFailed { dir: uri.path },
                ),
            ),
        ),
        plan_action(uri, PlanEvent::LockPathFound { members, found: Err(reason) })
            == PlanAction::Finish(
            Err(
                LanguageServerError::DocumentError(
                    DocumentError::ManifestsLockPathFailed { dir: uri.path },
                ),
            ),
        ),
        plan_action(uri, PlanEvent::PlanMade(Err(reason))) == PlanAction::Finish(
            Err(LanguageServerError::BuildPlanFailed(reason)),
        ),
{
}

/// On the way to a plan, a project is parsed by doing what the plan asks for; an error ends it; and
/// a plan is compiled for the default target, tersely and with its tests, with engines that know of
/// no source file.
pub proof fn law_plan_is_compiled(uri: Url, event: PlanEvent, action: ParseAction)
    requires
        parse_step(uri, ParseEvent::Plan(event), action),
    ensures
        plan_action(uri, event) matches PlanAction::Do(work) ==> action == ParseAction::Plan(work),
        plan_action(uri, event) matches PlanAction::Finish(Err(error)) ==> action
            == ParseAction::Finish(Err(error)),
        plan_action(uri, event) matches PlanAction::Finish(Ok(made)) ==> (
        action matches ParseAction::Check { plan, engines, build_target, terse_mode, tests_enabled }
            && plan == made && engines.source_paths@.dom() == Set::<u32>::empty() && build_target
            == BuildTarget::Default && terse_mode && tests_enabled),
{
}

/// Where packages could not be compiled, the answer is the reason.
pub proof fn law_failed_compilation(
    uri: Url,
    reason: String,
    engines: Engines,
    action: ParseAction,
)
    requires
        parse_step(uri, ParseEvent::Checked { outcome: Err(reason), engines }, action),
    ensures
        action == ParseAction::Finish(Err(LanguageServerError::FailedToCompile(reason))),
{
}

/// Once packages are compiled, the answer is that parsing failed exactly where a package was read
/// but has no typed program. Otherwise a token map is to be filled from nothing, with the engines
/// that compiling filled, for the programs and with the diagnostics of the last package.
pub proof fn law_compiled_packages(
    uri: Url,
    results: Vec<CheckResult>,
    engines: Engines,
    action: ParseAction,
)
    requires
        parse_step(uri, ParseEvent::Checked { outcome: Ok(results), engines }, action),
    ensures
        ({
            let failed = exists|i: int|
                0 <= i < results@.len() && (#[trigger] results@[i]).value is Some
                    && results@[i].value->0.typed is Err;
            &&& failed ==> action == ParseAction::Finish(Err(LanguageServerError::FailedToParse))
            &&& !failed ==> (action matches ParseAction::Traverse { traversal, token_map }
                && token_map@.dom() == Set::<TokenIdentView>::empty() && traversal@.engines
                == engines && traversal@.diagnostics == results@.last().diagnostics && (
            results@.last().value matches Some(programs) && traversal@.lexed == programs.lexed
                && traversal@.parsed == programs.parsed && programs.typed == Ok::<TyProgram, ()>(
                traversal@.typed,
            )) && traverses(traversal@, results@, engines))
        }),
{
    let failed = exists|i: int|
        0 <= i < results@.len() && (#[trigger] results@[i]).value is Some
            && results@[i].value->0.typed is Err;
    if failed {
        let i = choose|i: int|
            0 <= i < results@.len() && (#[trigger] results@[i]).value is Some
                && results@[i].value->0.typed is Err;
        assert(type_check_failed(results@[i]));
    } else {
        assert forall|i: int| 0 <= i < results@.len() implies !type_check_failed(
            #[trigger] results@[i],
        ) by {}
    }
}

/// A traversal that is handed back with a filled token map ends in a result that holds that map and
/// what the traversal holds.
pub proof fn law_traversal_ends(
    uri: Url,
    traversal: Traversal,
    token_map: TokenMap,
    action: ParseAction,
)
    requires
        parse_step(uri, ParseEvent::Traversed { traversal, token_map }, action),
    ensures
        action matches ParseAction::Finish(Ok(result)) && result.token_map == token_map
            && result.engines == traversal@.engines && result.diagnostics
            == traversal@.diagnostics && result.lexed == traversal@.lexed && result.parsed
            == traversal@.parsed && result.typed == traversal@.typed,
{
}

/// From compiled packages to the result, in two steps: handing back the traversal that was handed
/// out ends in a result with the diagnostics and the programs of the last package, the engines that
/// compiling filled, and the token map that was filled.
pub proof fn law_parsed_project(
    uri: Url,
    results: Vec<CheckResult>,
    engines: Engines,
    traversal: Traversal,
    empty: TokenMap,
    filled: TokenMap,
    action: ParseAction,
)
    requires
        parse_step(
            uri,
            ParseEvent::Checked { outcome: Ok(results), engines },
            ParseAction::Traverse { traversal, token_map: empty },
        ),
        parse_step(uri, ParseEvent::Traversed { traversal, token_map: filled }, action),
    ensures
        action matches ParseAction::Finish(Ok(result)) && result.token_map == filled
            && result.engines == engines && result.diagnostics == results@.last().diagnostics && (
        results@.last().value matches Some(programs) && result.lexed == programs.lexed
            && result.parsed == programs.parsed && programs.typed == Ok::<TyProgram, ()>(
            result.typed,
        )),
{
}

/// There is something to be filled, or a reason not to, exactly where some package was read but has
/// no typed program, or there is a last package and it was read.
pub proof fn law_populated(results: Seq<CheckResult>)
    ensures
        populated(results) <==> (exists|i: int|
            0 <= i < results.len() && (#[trigger] results[i]).value is Some
                && results[i].value->0.typed is Err) || (results.len() > 0
            && results.last().value is Some),
{
    if any_type_check_failed(results) {
        let i = choose|i: int| 0 <= i < results.len() && type_check_failed(#[trigger] results[i]);
        assert(results[i].value is Some && results[i].value->0.typed is Err);
    }
    if exists|i: int|
        0 <= i < results.len() && (#[trigger] results[i]).value is Some
            && results[i].value->0.typed is Err {
        let i = choose|i: int|
            0 <= i < results.len() && (#[trigger] results[i]).value is Some
                && results[i].value->0.typed is Err;
        assert(type_check_failed(results[i]));
    }
}

/// There is one result for each node at the root of a parsed program and then for each node of the
/// modules directly below it, module by module, and it is one that `f` gives for that node.
pub proof fn law_one_result_for_each_node<V, F: Fn(&AstNode) -> V>(
    f: F,
    program: ParseProgram,
    results: Seq<V>,
)
    requires
        results_of(f, program_nodes(program), results),
    ensures
        ({
            let nodes = program.root.tree.root_nodes@ + program.root.submodules@.flat_map(
                |submodule: (String, ParseSubmodule)| submodule.1.module.tree.root_nodes@,
            );
            &&& results.len() == nodes.len()
            &&& forall|i: int|
                0 <= i < nodes.len() ==> f.ensures((&nodes[i],), #[trigger] results[i])
        }),
{
}

/// There is one result for each node of the root of a typed program and then for each node of the
/// modules directly below it, module by module, and it is one that `f` gives for that node.
pub proof fn law_one_result_for_each_typed_node<V, F: Fn(&TyAstNode) -> V>(
    f: F,
    program: TyProgram,
    results: Seq<V>,
)
    requires
        results_of(f, ty_program_nodes(program), results),
    ensures
        ({
            let nodes = program.root.all_nodes@ + program.root.submodules@.flat_map(
                |submodule: (String, TySubmodule)| submodule.1.module.all_nodes@,
            );
            &&& results.len() == nodes.len()
            &&& forall|i: int|
                0 <= i < nodes.len() ==> f.ensures((&nodes[i],), #[trigger] results[i])
        }),
{
}

/// Before the last package, the steps are those that `visit` gives for each package, where `visit`
/// says what the steps for a dependency are.
proof fn lemma_first_visits(
    results: Seq<CheckResult>,
    visit: spec_fn(CheckResult) -> Seq<Visit>,
    n: int,
)
    requires
        0 <= n < results.len(),
        forall|result: CheckResult| #[trigger] visit(result) == package_visits(result, false),
    ensures
        first_visits(results, n) == results.take(n).flat_map(visit),
    decreases n,
{
    if n == 0 {
        assert(results.take(0).map_values(visit) =~= seq![]);
    } else {
        lemma_first_visits(results, visit, n - 1);
        lemma_flat_map_take(results, visit, n - 1);
        assert(first_visits(results, n) =~= results.take(n).flat_map(visit));
    }
}

/// The steps of a traversal are these and no others, in this order. For each package but the last
/// that was read and has a typed program: each parsed node and then each typed node of its root and
/// of the modules directly below it, as of a dependency. For the last package: its keywords, its
/// modules as parsed, each parsed node, its modules as typed, and each typed node, of its root and
/// of the modules directly below it. Each step is made with the names at the root of its package.
pub proof fn law_steps_of_a_traversal(
    traversal: TraversalView,
    results: Seq<CheckResult>,
    engines: Engines,
)
    requires
        results.len() > 0,
        traverses(traversal, results, engines),
    ensures
        ({
            let namespace = traversal.typed.root.namespace;
            traversal.visits == results.drop_last().flat_map(
                |result: CheckResult|
                    match result.value {
                        Some(Programs { parsed, typed: Ok(typed), .. }) => (
                        parsed.root.tree.root_nodes@ + parsed.root.submodules@.flat_map(
                            |submodule: (String, ParseSubmodule)|
                                submodule.1.module.tree.root_nodes@,
                        )).map_values(
                            |node: AstNode|
                                Visit {
                                    namespace: typed.root.namespace,
                                    step: VisitStep::DependencyNode(node),
                                },
                        ) + (typed.root.all_nodes@ + typed.root.submodules@.flat_map(
                            |submodule: (String, TySubmodule)| submodule.1.module.all_nodes@,
                        )).map_values(
                            |node: TyAstNode|
                                Visit {
                                    namespace: typed.root.namespace,
                                    step: VisitStep::TypedDependencyNode(node),
                                },
                        ),
                        _ => seq![],
                    },
            ) + seq![
                Visit { namespace, step: VisitStep::Lexed(traversal.lexed) },
                Visit { namespace, step: VisitStep::ParsedModuleSpans },
            ] + (traversal.parsed.root.tree.root_nodes@
                + traversal.parsed.root.submodules@.flat_map(
                |submodule: (String, ParseSubmodule)| submodule.1.module.tree.root_nodes@,
            )).map_values(
                |node: AstNode| Visit { namespace, step: VisitStep::ParsedNode(node) },
            ) + seq![Visit { namespace, step: VisitStep::TypedModuleSpans }] + (
            traversal.typed.root.all_nodes@ + traversal.typed.root.submodules@.flat_map(
                |submodule: (String, TySubmodule)| submodule.1.module.all_nodes@,
            )).map_values(
                |node: TyAstNode| Visit { namespace, step: VisitStep::TypedNode(node) },
            )
        }),
{
    let visit = |result: CheckResult|
        match result.value {
            Some(Programs { parsed, typed: Ok(typed), .. }) => (parsed.root.tree.root_nodes@
                + parsed.root.submodules@.flat_map(
                |submodule: (String, ParseSubmodule)| submodule.1.module.tree.root_nodes@,
            )).map_values(
                |node: AstNode|
                    Visit {
                        namespace: typed.root.namespace,
                        step: VisitStep::DependencyNode(node),
                    },
            ) + (typed.root.all_nodes@ + typed.root.submodules@.flat_map(
                |submodule: (String, TySubmodule)| submodule.1.module.all_nodes@,
            )).map_values(
                |node: TyAstNode|
                    Visit {
                        namespace: typed.root.namespace,
                        step: VisitStep::TypedDependencyNode(node),
                    },
            ),
            _ => seq![],
        };
    assert forall|result: CheckResult| #[trigger] visit(result) == package_visits(
        result,
        false,
    ) by {
        assert(visit(result) =~= package_visits(result, false));
    }
    let n = results.len() - 1;
    lemma_first_visits(results, visit, n);
    assert(results.take(n) =~= results.drop_last());
    assert(traversal.visits == first_visits(results, n) + main_visits(
        traversal.lexed,
        traversal.parsed,
        traversal.typed,
    ));
    let namespace = traversal.typed.root.namespace;
    let head = seq![
        Visit { namespace, step: VisitStep::Lexed(traversal.lexed) },
        Visit { namespace, step: VisitStep::ParsedModuleSpans },
    ];
    let parsed = (traversal.parsed.root.tree.root_nodes@
        + traversal.parsed.root.submodules@.flat_map(
        |submodule: (String, ParseSubmodule)| submodule.1.module.tree.root_nodes@,
    )).map_values(|node: AstNode| Visit { namespace, step: VisitStep::ParsedNode(node) });
    let between = seq![Visit { namespace, step: VisitStep::TypedModuleSpans }];
    let typed = (traversal.typed.root.all_nodes@ + traversal.typed.root.submodules@.flat_map(
        |submodule: (String, TySubmodule)| submodule.1.module.all_nodes@,
    )).map_values(|node: TyAstNode| Visit { namespace, step: VisitStep::TypedNode(node) });
    let dependencies = first_visits(results, n);
    assert(main_visits(traversal.lexed, traversal.parsed, traversal.typed) =~= head + parsed
        + between + typed);
    assert(dependencies + (head + parsed + between + typed) =~= dependencies + head + parsed
        + between + typed);
}

/// Of a sequence whose elements are all picked, or of which none is, all is left, or nothing.
proof fn lemma_filter_whole<N>(s: Seq<N>, pick: spec_fn(N) -> bool)
    ensures
        (forall|i: int| 0 <= i < s.len() ==> pick(#[trigger] s[i])) ==> s.filter(pick) == s,
        (forall|i: int| 0 <= i < s.len() ==> !pick(#[trigger] s[i])) ==> s.filter(pick) == Seq::<
            N,
        >::empty(),
    decreases s.len(),
{
    reveal(Seq::filter);
    if s.len() > 0 {
        lemma_filter_whole(s.drop_last(), pick);
        assert(s.drop_last().push(s.last()) =~= s);
        if forall|i: int| 0 <= i < s.len() ==> pick(#[trigger] s[i]) {
            assert forall|i: int| 0 <= i < s.drop_last().len() implies pick(
                #[trigger] s.drop_last()[i],
            ) by {
                assert(pick(s[i]));
            }
            assert(pick(s[s.len() - 1]));
        }
        if forall|i: int| 0 <= i < s.len() ==> !pick(#[trigger] s[i]) {
            assert forall|i: int| 0 <= i < s.drop_last().len() implies !pick(
                #[trigger] s.drop_last()[i],
            ) by {
                assert(!pick(s[i]));
            }
            assert(!pick(s[s.len() - 1]));
        }
    } else {
        assert(s.filter(pick) =~= s);
    }
}

/// Every typed node of the main program is visited, and no other: the visits of typed nodes are, in
/// order, those of the nodes at the root of the typed program and then of the nodes of each module
/// directly below it.
pub proof fn law_every_typed_node_is_visited(
    traversal: TraversalView,
    results: Seq<CheckResult>,
    engines: Engines,
)
    requires
        results.len() > 0,
        traverses(traversal, results, engines),
    ensures
        traversal.visits.filter(|visit: Visit| visit.step is TypedNode) == (
        traversal.typed.root.all_nodes@ + traversal.typed.root.submodules@.flat_map(
            |submodule: (String, TySubmodule)| submodule.1.module.all_nodes@,
        )).map_values(
            |node: TyAstNode|
                Visit {
                    namespace: traversal.typed.root.namespace,
                    step: VisitStep::TypedNode(node),
                },
        ),
{
    let pick = |visit: Visit| visit.step is TypedNode;
    lemma_picked_visits(traversal, results, engines, pick);
    let namespace = traversal.typed.root.namespace;
    let parsed = program_nodes(traversal.parsed).map_values(
        |node: AstNode| Visit { namespace, step: VisitStep::ParsedNode(node) },
    );
    let typed = ty_program_nodes(traversal.typed).map_values(
        |node: TyAstNode| Visit { namespace, step: VisitStep::TypedNode(node) },
    );
    lemma_filter_whole(parsed, pick);
    lemma_filter_whole(typed, pick);
    assert(parsed.filter(pick) + typed.filter(pick) =~= typed);
    assert(typed =~= (traversal.typed.root.all_nodes@
        + traversal.typed.root.submodules@.flat_map(
        |submodule: (String, TySubmodule)| submodule.1.module.all_nodes@,
    )).map_values(|node: TyAstNode| Visit { namespace, step: VisitStep::TypedNode(node) }));
}

/// Every parsed node of the main program is visited, and no other: the visits of parsed nodes are,
/// in order, those of the nodes at the root of the parsed program and then of the nodes at the root
/// of each module directly below it.
pub proof fn law_every_parsed_node_is_visited(
    traversal: TraversalView,
    results: Seq<CheckResult>,
    engines: Engines,
)
    requires
        results.len() > 0,
        traverses(traversal, results, engines),
    ensures
        traversal.visits.filter(|visit: Visit| visit.step is ParsedNode) == (
        traversal.parsed.root.tree.root_nodes@ + traversal.parsed.root.submodules@.flat_map(
            |submodule: (String, ParseSubmodule)| submodule.1.module.tree.root_nodes@,
        )).map_values(
            |node: AstNode|
                Visit {
                    namespace: traversal.typed.root.namespace,
                    step: VisitStep::ParsedNode(node),
                },
        ),
{
    let pick = |visit: Visit| visit.step is ParsedNode;
    lemma_picked_visits(traversal, results, engines, pick);
    let namespace = traversal.typed.root.namespace;
    let parsed = program_nodes(traversal.parsed).map_values(
        |node: AstNode| Visit { namespace, step: VisitStep::ParsedNode(node) },
    );
    let typed = ty_program_nodes(traversal.typed).map_values(
        |node: TyAstNode| Visit { namespace, step: VisitStep::TypedNode(node) },
    );
    lemma_filter_whole(parsed, pick);
    lemma_filter_whole(typed, pick);
    assert(parsed.filter(pick) + typed.filter(pick) =~= parsed);
    assert(parsed =~= (traversal.parsed.root.tree.root_nodes@
        + traversal.parsed.root.submodules@.flat_map(
        |submodule: (String, ParseSubmodule)| submodule.1.module.tree.root_nodes@,
    )).map_values(|node: AstNode| Visit { namespace, step: VisitStep::ParsedNode(node) }));
}

/// Where only visits of nodes of the main program are picked, they are picked from its parsed nodes
/// and then from its typed nodes.
proof fn lemma_picked_visits(
    traversal: TraversalView,
    results: Seq<CheckResult>,
    engines: Engines,
    pick: spec_fn(Visit) -> bool,
)
    requires
        results.len() > 0,
        traverses(traversal, results, engines),
        forall|visit: Visit| #[trigger]
            pick(visit) ==> visit.step is ParsedNode || visit.step is TypedNode,
    ensures
        ({
            let namespace = traversal.typed.root.namespace;
            traversal.visits.filter(pick) == program_nodes(traversal.parsed).map_values(
                |node: AstNode| Visit { namespace, step: VisitStep::ParsedNode(node) },
            ).filter(pick) + ty_program_nodes(traversal.typed).map_values(
                |node: TyAstNode| Visit { namespace, step: VisitStep::TypedNode(node) },
            ).filter(pick)
        }),
{
    let namespace = traversal.typed.root.namespace;
    let n = results.len() - 1;
    let dependencies = first_visits(results, n);
    let head = seq![
        Visit { namespace, step: VisitStep::Lexed(traversal.lexed) },
        Visit { namespace, step: VisitStep::ParsedModuleSpans },
    ];
    let parsed = program_nodes(traversal.parsed).map_values(
        |node: AstNode| Visit { namespace, step: VisitStep::ParsedNode(node) },
    );
    let between = seq![Visit { namespace, step: VisitStep::TypedModuleSpans }];
    let typed = ty_program_nodes(traversal.typed).map_values(
        |node: TyAstNode| Visit { namespace, step: VisitStep::TypedNode(node) },
    );
    assert(traversal.visits =~= dependencies + (head + parsed + between + typed));
    lemma_dependencies_first(results, n);
    assert forall|i: int| 0 <= i < dependencies.len() implies !pick(#[trigger] dependencies[i]) by {
        assert(is_dependency_step(dependencies[i].step));
    }
    lemma_filter_whole(dependencies, pick);
    lemma_filter_whole(head, pick);
    lemma_filter_whole(between, pick);
    Seq::filter_distributes_over_add(dependencies, head + parsed + between + typed, pick);
    Seq::filter_distributes_over_add(head + parsed + between, typed, pick);
    Seq::filter_distributes_over_add(head + parsed, between, pick);
    Seq::filter_distributes_over_add(head, parsed, pick);
    assert(traversal.visits.filter(pick) =~= parsed.filter(pick) + typed.filter(pick));
}

} // verus!
