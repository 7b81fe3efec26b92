//! How a project is parsed.
//!
//! Manifests are read and programs are compiled outside. What is to be done next, and what becomes
//! of the results, is decided here.
use crate::error::{DocumentError, LanguageServerError};
use crate::path::PathId;
use crate::program::{
    AstNode, Engines, LexedProgram, Namespace, ParseProgram, ParseSubmodule, TyAstNode, TyProgram,
    TySubmodule,
};
use crate::session::runnables::{CompileError, CompileWarning, ParseResult};
use crate::table::Table;
use crate::token::{Token, TokenIdentView, TokenMap};
use crate::url::Url;
use vstd::prelude::*;

verus! {

/// Where packages that are named by their content are fetched from.
#[derive(Clone, Copy, Debug, PartialEq, Eq)]
pub enum IpfsNode {
    Local,
}

/// The manifest of a project, by the number under which the package manager keeps it.
#[derive(Clone, Copy, Debug, PartialEq, Eq)]
pub struct Manifest {
    pub id: u64,
}

/// The manifests of the members of a project, by the number under which the package manager keeps
/// them.
#[derive(Clone, Copy, Debug, PartialEq, Eq)]
pub struct MemberManifests {
    pub id: u64,
}

/// A build plan, by the number under which the package manager keeps it.
#[derive(Clone, Copy, Debug, PartialEq, Eq)]
pub struct BuildPlan {
    pub id: u64,
}

/// What has happened on the way to a build plan.
#[derive(Debug, PartialEq, Eq)]
pub enum PlanEvent {
    /// A build plan is asked for.
    Begin,
    /// The manifest was to be read.
    ManifestRead(Result<Manifest, String>),
    /// The manifests of the members of `manifest` were to be read.
    MembersRead { manifest: Manifest, read: Result<MemberManifests, String> },
    /// The path of the lock file was to be found; `members` are the manifests read before.
    LockPathFound { members: MemberManifests, found: Result<PathId, String> },
    /// The build plan was to be made.
    PlanMade(Result<BuildPlan, String>),
}

/// Work on the way to a build plan.
#[derive(Debug, PartialEq, Eq)]
pub enum PlanWork {
    /// Read the manifest in `dir`.
    ReadManifest { dir: String },
    /// Read the manifests of the members of `manifest`.
    ReadMembers { manifest: Manifest },
    /// Find the path of the lock file of `manifest`, and hand `members` on.
    FindLockPath { manifest: Manifest, members: MemberManifests },
    /// Make the plan from the lock file at `lock_path` and the manifests `members`.
    MakePlan {
        lock_path: PathId,
        members: MemberManifests,
        locked: bool,
        offline: bool,
        ipfs_node: IpfsNode,
    },
}

/// What is to be done next on the way to a build plan.
#[derive(Debug, PartialEq, Eq)]
pub enum PlanAction {
    /// There is something to be done.
    Do(PlanWork),
    /// There is a plan, or there is none.
    Finish(Result<BuildPlan, LanguageServerError>),
}

/// What is to be done next on the way to a build plan for the project at `uri`.
pub open spec fn plan_action(uri: Url, event: PlanEvent) -> PlanAction {
    match event {
        PlanEvent::Begin => PlanAction::Do(PlanWork::ReadManifest { dir: uri.path }),
        PlanEvent::ManifestRead(Ok(manifest)) => PlanAction::Do(
            PlanWork::ReadMembers { manifest },
        ),
        PlanEvent::ManifestRead(Err(_)) => PlanAction::Finish(
            Err(
                LanguageServerError::DocumentError(
                    DocumentError::ManifestFileNotFound { dir: uri.path },
                ),
            ),
        ),
        PlanEvent::MembersRead { manifest, read: Ok(members) } => PlanAction::Do(
            PlanWork::FindLockPath { manifest, members },
        ),
        PlanEvent::MembersRead { read: Err(_), .. } => PlanAction::Finish(
            Err(
                LanguageServerError::DocumentError(
                    DocumentError::MemberManifestsFailed { dir: uri.path },
                ),
            ),
        ),
        PlanEvent::LockPathFound { members, found: Ok(lock_path) } => PlanAction::Do(
            PlanWork::MakePlan {
                lock_path,
                members,
                locked: false,
                offline: false,
                ipfs_node: IpfsNode::Local,
            },
        ),
        PlanEvent::LockPathFound { found: Err(_), .. } => PlanAction::Finish(
            Err(
                LanguageServerError::DocumentError(
                    DocumentError::ManifestsLockPathFailed { dir: uri.path },
                ),
            ),
        ),
        PlanEvent::PlanMade(Ok(plan)) => PlanAction::Finish(Ok(plan)),
        PlanEvent::PlanMade(Err(reason)) => PlanAction::Finish(
            Err(LanguageServerError::BuildPlanFailed(reason)),
        ),
    }
}

/// What is to be done next on the way to a build plan for the project at `uri`: the manifest is
/// read, then those of its members, then its lock file is found, and then the plan is made from the
/// lock file and the members. What fails first ends it.
pub fn build_plan(uri: &Url, event: PlanEvent) -> (action: PlanAction)
    ensures
        action == plan_action(*uri, event),
{
    match event {
        PlanEvent::Begin => PlanAction::Do(PlanWork::ReadManifest { dir: uri.path.clone() }),
        PlanEvent::ManifestRead(Ok(manifest)) => PlanAction::Do(
            PlanWork::ReadMembers { manifest },
        ),
        PlanEvent::ManifestRead(Err(_)) => PlanAction::Finish(
            Err(
                LanguageServerError::DocumentError(
                    DocumentError::ManifestFileNotFound { dir: uri.path.clone() },
                ),
            ),
        ),
        PlanEvent::MembersRead { manifest, read: Ok(members) } => PlanAction::Do(
            PlanWork::FindLockPath { manifest, members },
        ),
        PlanEvent::MembersRead { read: Err(_), .. } => PlanAction::Finish(
            Err(
                LanguageServerError::DocumentError(
                    DocumentError::MemberManifestsFailed { dir: uri.path.clone() },
                ),
            ),
        ),
        PlanEvent::LockPathFound { members, found: Ok(lock_path) } => PlanAction::Do(
            PlanWork::MakePlan {
                lock_path,
                members,
                locked: false,
                offline: false,
                ipfs_node: IpfsNode::Local,
            },
        ),
        PlanEvent::LockPathFound { found: Err(_), .. } => PlanAction::Finish(
            Err(
                LanguageServerError::DocumentError(
                    DocumentError::ManifestsLockPathFailed { dir: uri.path.clone() },
                ),
            ),
        ),
        PlanEvent::PlanMade(Ok(plan)) => PlanAction::Finish(Ok(plan)),
        PlanEvent::PlanMade(Err(reason)) => PlanAction::Finish(
            Err(LanguageServerError::BuildPlanFailed(reason)),
        ),
    }
}

/// The nodes of a parsed program: those at its root, and then those of the modules directly below
/// the root, module by module.
pub open spec fn program_nodes(program: ParseProgram) -> Seq<AstNode> {
    program.root.tree.root_nodes@ + program.root.submodules@.flat_map(
        |submodule: (String, ParseSubmodule)| submodule.1.module.tree.root_nodes@,
    )
}

/// The nodes of a typed program: those of its root, and then those of the modules directly below
/// the root, module by module.
pub open spec fn ty_program_nodes(program: TyProgram) -> Seq<TyAstNode> {
    program.root.all_nodes@ + program.root.submodules@.flat_map(
        |submodule: (String, TySubmodule)| submodule.1.module.all_nodes@,
    )
}

/// `results` are what `f` gives for the nodes, in their order.
pub open spec fn results_of<N, V, F: Fn(&N) -> V>(f: F, nodes: Seq<N>, results: Seq<V>) -> bool {
    &&& results.len() == nodes.len()
    &&& forall|i: int| 0 <= i < nodes.len() ==> f.ensures((&nodes[i],), #[trigger] results[i])
}

/// What is listed for one more item comes after what is listed for those before it.
pub proof fn lemma_flat_map_take<A, B>(items: Seq<A>, list: spec_fn(A) -> Seq<B>, k: int)
    requires
        0 <= k < items.len(),
    ensures
        items.take(k + 1).flat_map(list) == items.take(k).flat_map(list) + list(items[k]),
{
    assert(items.take(k + 1) =~= items.take(k).push(items[k]));
    items.take(k).lemma_flat_map_push(list, items[k]);
}

/// Something is listed for all items together exactly where it is listed for one of them.
pub proof fn lemma_flat_map_contains<A, B>(items: Seq<A>, list: spec_fn(A) -> Seq<B>, element: B)
    ensures
        items.flat_map(list).contains(element) <==> exists|k: int|
            0 <= k < items.len() && list(#[trigger] items[k]).contains(element),
    decreases items.len(),
{
    if items.len() == 0 {
        assert(items.map_values(list) =~= seq![]);
    } else {
        let n = items.len() - 1;
        let rest = items.take(n);
        let before = rest.flat_map(list);
        let last = list(items[n]);
        assert(items.take(n + 1) =~= items);
        lemma_flat_map_take(items, list, n);
        lemma_flat_map_contains(rest, list, element);
        if before.contains(element) {
            let i = choose|i: int| 0 <= i < before.len() && before[i] == element;
            assert((before + last)[i] == element);
            let k = choose|k: int|
                0 <= k < rest.len() && list(#[trigger] rest[k]).contains(element);
            assert(items[k] == rest[k]);
        }
        if last.contains(element) {
            let i = choose|i: int| 0 <= i < last.len() && last[i] == element;
            assert((before + last)[before.len() + i] == element);
        }
        if exists|k: int| 0 <= k < items.len() && list(#[trigger] items[k]).contains(element) {
            let k = choose|k: int|
                0 <= k < items.len() && list(#[trigger] items[k]).contains(element);
            if k < n {
                assert(rest[k] == items[k]);
            }
        }
    }
}

/// Adds what `f` gives for the nodes, in their order.
fn map_nodes<N, V, F: Fn(&N) -> V>(nodes: &Vec<N>, f: &F, results: &mut Vec<V>)
    requires
        forall|i: int| 0 <= i < nodes@.len() ==> f.requires((&#[trigger] nodes@[i],)),
    ensures
        final(results)@.len() == old(results)@.len() + nodes@.len(),
        final(results)@.take(old(results)@.len() as int) == old(results)@,
        results_of(*f, nodes@, final(results)@.skip(old(results)@.len() as int)),
{
    for i in 0..nodes.len()
        invariant
            results@.len() == old(results)@.len() + i,
            results@.take(old(results)@.len() as int) == old(results)@,
            forall|j: int|
                0 <= j < i ==> f.ensures(
                    (&nodes@[j],),
                    #[trigger] results@.skip(old(results)@.len() as int)[j],
                ),
            forall|i: int| 0 <= i < nodes@.len() ==> f.requires((&#[trigger] nodes@[i],)),
    {
        let ghost before = results@;
        let ghost n = old(results)@.len() as int;
        results.push(f(&nodes[i]));
        assert(results@.take(n) =~= before.take(n));
        assert forall|j: int| 0 <= j < i + 1 implies f.ensures(
            (&nodes@[j],),
            #[trigger] results@.skip(n)[j],
        ) by {
            if j < i {
                assert(results@.skip(n)[j] == before.skip(n)[j]);
            }
        }
    }
}

/// The nodes of the lists, list by list.
spec fn list_nodes<N>(lists: Seq<&Vec<N>>) -> Seq<N> {
    lists.flat_map(|list: &Vec<N>| list@)
}

/// The nodes of one more list come after those of the lists before it.
proof fn lemma_list_nodes_push<N>(lists: Seq<&Vec<N>>, list: &Vec<N>)
    ensures
        list_nodes(lists.push(list)) == list_nodes(lists) + list@,
{
    lists.lemma_flat_map_push(|list: &Vec<N>| list@, list);
}

/// What `f` gives for the nodes of the lists, list by list.
fn map_node_lists<N, V, F: Fn(&N) -> V>(lists: &Vec<&Vec<N>>, f: &F) -> (results: Vec<V>)
    requires
        forall|node: N| #[trigger] list_nodes(lists@).contains(node) ==> f.requires((&node,)),
    ensures
        results_of(*f, list_nodes(lists@), results@),
{
    let mut results: Vec<V> = Vec::new();
    assert(lists@.take(0).map_values(|list: &Vec<N>| list@) =~= seq![]);
    for k in 0..lists.len()
        invariant
            forall|node: N| #[trigger] list_nodes(lists@).contains(node) ==> f.requires((&node,)),
            results_of(*f, list_nodes(lists@.take(k as int)), results@),
    {
        let list = lists[k];
        let ghost done = list_nodes(lists@.take(k as int));
        let ghost before = results@;
        proof {
            assert forall|i: int| 0 <= i < list@.len() implies f.requires(
                (&#[trigger] list@[i],),
            ) by {
                lemma_flat_map_contains(lists@, |list: &Vec<N>| list@, list@[i]);
                assert(lists@[k as int]@.contains(list@[i]));
                assert(list_nodes(lists@).contains(list@[i]));
            }
        }
        map_nodes(list, f, &mut results);
        proof {
            assert(lists@.take(k + 1) =~= lists@.take(k as int).push(list));
            lemma_list_nodes_push(lists@.take(k as int), list);
            let all = done + list@;
            assert forall|i: int| 0 <= i < all.len() implies f.ensures(
                (&all[i],),
                #[trigger] results@[i],
            ) by {
                if i < done.len() {
                    assert(results@.take(before.len() as int)[i] == before[i]);
                } else {
                    let j = i - done.len();
                    assert(results@.skip(before.len() as int)[j] == results@[i]);
                }
            }
        }
    }
    assert(lists@.take(lists@.len() as int) =~= lists@);
    results
}

/// What `f` gives for the nodes of a parsed program: for those at its root, and then for those of
/// the modules directly below the root.
pub fn parse_ast_to_tokens<V, F: Fn(&AstNode) -> V>(
    parse_program: &ParseProgram,
    f: F,
) -> (results: Vec<V>)
    requires
        forall|node: AstNode| #[trigger]
            program_nodes(*parse_program).contains(node) ==> f.requires((&node,)),
    ensures
        results_of(f, program_nodes(*parse_program), results@),
{
    let submodules = &parse_program.root.submodules;
    let ghost root_nodes = parse_program.root.tree.root_nodes@;
    let ghost module_nodes = |submodule: (String, ParseSubmodule)|
        submodule.1.module.tree.root_nodes@;
    let mut lists: Vec<&Vec<AstNode>> = Vec::new();
    proof {
        assert(lists@.map_values(|list: &Vec<AstNode>| list@) =~= seq![]);
        lemma_list_nodes_push(lists@, &parse_program.root.tree.root_nodes);
        assert(submodules@.take(0).map_values(module_nodes) =~= seq![]);
    }
    lists.push(&parse_program.root.tree.root_nodes);
    assert(list_nodes(lists@) =~= root_nodes + submodules@.take(0).flat_map(module_nodes));
    for k in 0..submodules.len()
        invariant
            module_nodes == (|submodule: (String, ParseSubmodule)|
                submodule.1.module.tree.root_nodes@),
            list_nodes(lists@) == root_nodes + submodules@.take(k as int).flat_map(
                module_nodes,
            ),
    {
        proof {
            lemma_list_nodes_push(lists@, &submodules@[k as int].1.module.tree.root_nodes);
            lemma_flat_map_take(submodules@, module_nodes, k as int);
        }
        lists.push(&submodules[k].1.module.tree.root_nodes);
    }
    assert(submodules@.take(submodules@.len() as int) =~= submodules@);
    assert(list_nodes(lists@) =~= program_nodes(*parse_program));
    map_node_lists(&lists, &f)
}

/// What `f` gives for the nodes of a typed program: for those of its root, and then for those of
/// the modules directly below the root.
pub fn parse_ast_to_typed_tokens<V, F: Fn(&TyAstNode) -> V>(
    typed_program: &TyProgram,
    f: F,
) -> (results: Vec<V>)
    requires
        forall|node: TyAstNode| #[trigger]
            ty_program_nodes(*typed_program).contains(node) ==> f.requires((&node,)),
    ensures
        results_of(f, ty_program_nodes(*typed_program), results@),
{
    let submodules = &typed_program.root.submodules;
    let ghost root_nodes = typed_program.root.all_nodes@;
    let ghost module_nodes = |submodule: (String, TySubmodule)| submodule.1.module.all_nodes@;
    let mut lists: Vec<&Vec<TyAstNode>> = Vec::new();
    proof {
        assert(lists@.map_values(|list: &Vec<TyAstNode>| list@) =~= seq![]);
        lemma_list_nodes_push(lists@, &typed_program.root.all_nodes);
        assert(submodules@.take(0).map_values(module_nodes) =~= seq![]);
    }
    lists.push(&typed_program.root.all_nodes);
    assert(list_nodes(lists@) =~= root_nodes + submodules@.take(0).flat_map(module_nodes));
    for k in 0..submodules.len()
        invariant
            module_nodes == (|submodule: (String, TySubmodule)| submodule.1.module.all_nodes@),
            list_nodes(lists@) == root_nodes + submodules@.take(k as int).flat_map(
                module_nodes,
            ),
    {
        proof {
            lemma_list_nodes_push(lists@, &submodules@[k as int].1.module.all_nodes);
            lemma_flat_map_take(submodules@, module_nodes, k as int);
        }
        lists.push(&submodules[k].1.module.all_nodes);
    }
    assert(submodules@.take(submodules@.len() as int) =~= submodules@);
    assert(list_nodes(lists@) =~= ty_program_nodes(*typed_program));
    map_node_lists(&lists, &f)
}

/// The programs that compiling a package gives, if its text could be read at all.
///
/// The typed program is missing where type checking failed.
#[derive(Debug, PartialEq, Eq)]
pub struct Programs {
    pub lexed: LexedProgram,
    pub parsed: ParseProgram,
    pub typed: Result<TyProgram, ()>,
}

/// What compiling one package of a build plan gives.
#[derive(Debug, PartialEq, Eq)]
pub struct CheckResult {
    pub value: Option<Programs>,
    pub diagnostics: (Vec<CompileError>, Vec<CompileWarning>),
}

/// One step of filling the token map.
#[derive(Clone, Copy, Debug, PartialEq, Eq)]
pub enum VisitStep {
    /// Collect the keywords of the lexed program.
    Lexed(LexedProgram),
    /// Collect the modules of the main program as parsed.
    ParsedModuleSpans,
    /// Collect the tokens of a parsed node.
    ParsedNode(AstNode),
    /// Collect the modules of the main program as typed.
    TypedModuleSpans,
    /// Collect the tokens of a typed node.
    TypedNode(TyAstNode),
    /// Collect what a parsed node of a dependency declares.
    DependencyNode(AstNode),
    /// Collect what a typed node of a dependency declares.
    TypedDependencyNode(TyAstNode),
}

/// One step of filling the token map, and the names that are known where it is made.
#[derive(Clone, Copy, Debug, PartialEq, Eq)]
pub struct Visit {
    pub namespace: Namespace,
    pub step: VisitStep,
}

/// How the token map of a project is to be filled, and what is known of the project by then.
#[derive(Debug, PartialEq, Eq)]
pub struct Traversal {
    diagnostics: (Vec<CompileError>, Vec<CompileWarning>),
    visits: Vec<Visit>,
    lexed: LexedProgram,
    parsed: ParseProgram,
    typed: TyProgram,
    engines: Engines,
}

/// What a traversal holds: the diagnostics of the project, the steps of filling its token map, its
/// programs, and the engines that compiling it filled.
pub struct TraversalView {
    pub diagnostics: (Vec<CompileError>, Vec<CompileWarning>),
    pub visits: Seq<Visit>,
    pub lexed: LexedProgram,
    pub parsed: ParseProgram,
    pub typed: TyProgram,
    pub engines: Engines,
}

impl View for Traversal {
    type V = TraversalView;

    closed spec fn view(&self) -> TraversalView {
        TraversalView {
            diagnostics: self.diagnostics,
            visits: self.visits@,
            lexed: self.lexed,
            parsed: self.parsed,
            typed: self.typed,
            engines: self.engines,
        }
    }
}

impl Traversal {
    /// The steps of filling the token map, in their order.
    pub fn visits(&self) -> (visits: &Vec<Visit>)
        ensures
            visits@ == self@.visits,
    {
        &self.visits
    }

    /// The main program as parsed: that whose modules are collected by
    /// [`VisitStep::ParsedModuleSpans`].
    pub fn parsed(&self) -> (parsed: &ParseProgram)
        ensures
            *parsed == self@.parsed,
    {
        &self.parsed
    }

    /// The main program as typed: that whose modules are collected by
    /// [`VisitStep::TypedModuleSpans`].
    pub fn typed(&self) -> (typed: &TyProgram)
        ensures
            *typed == self@.typed,
    {
        &self.typed
    }

    /// The engines that compiling the project filled.
    pub fn engines(&self) -> (engines: &Engines)
        ensures
            *engines == self@.engines,
    {
        &self.engines
    }
}

/// The package was read, but its types could not be checked.
pub open spec fn type_check_failed(result: CheckResult) -> bool {
    result.value matches Some(programs) && programs.typed is Err
}

/// The types of some package could not be checked.
pub open spec fn any_type_check_failed(results: Seq<CheckResult>) -> bool {
    exists|i: int| 0 <= i < results.len() && type_check_failed(#[trigger] results[i])
}

/// Either the types of some package could not be checked, or there is a last package and it was
/// read.
pub open spec fn populated(results: Seq<CheckResult>) -> bool {
    any_type_check_failed(results) || (results.len() > 0 && results.last().value is Some)
}

/// The steps for a dependency: what its parsed nodes declare, and then what its typed nodes
/// declare.
pub open spec fn dependency_visits(parsed: ParseProgram, typed: TyProgram) -> Seq<Visit> {
    let namespace = typed.root.namespace;
    program_nodes(parsed).map_values(
        |node: AstNode| Visit { namespace, step: VisitStep::DependencyNode(node) },
    ) + ty_program_nodes(typed).map_values(
        |node: TyAstNode| Visit { namespace, step: VisitStep::TypedDependencyNode(node) },
    )
}

/// The steps for the main program: its keywords, then its modules and nodes as parsed, and then
/// its modules and nodes as typed.
pub open spec fn main_visits(lexed: LexedProgram, parsed: ParseProgram, typed: TyProgram) -> Seq<
    Visit,
> {
    let namespace = typed.root.namespace;
    seq![
        Visit { namespace, step: VisitStep::Lexed(lexed) },
        Visit { namespace, step: VisitStep::ParsedModuleSpans },
    ] + program_nodes(parsed).map_values(
        |node: AstNode| Visit { namespace, step: VisitStep::ParsedNode(node) },
    ) + seq![Visit { namespace, step: VisitStep::TypedModuleSpans }] + ty_program_nodes(
        typed,
    ).map_values(|node: TyAstNode| Visit { namespace, step: VisitStep::TypedNode(node) })
}

/// The steps for one package. A package that could not be read has none.
pub open spec fn package_visits(result: CheckResult, is_main: bool) -> Seq<Visit> {
    match result.value {
        Some(programs) => match programs.typed {
            Ok(typed) => if is_main {
                main_visits(programs.lexed, programs.parsed, typed)
            } else {
                dependency_visits(programs.parsed, typed)
            },
            Err(_) => seq![],
        },
        None => seq![],
    }
}

/// The steps for the first `n` packages, in their order. The last package of all is the main
/// program.
pub open spec fn first_visits(results: Seq<CheckResult>, n: int) -> Seq<Visit>
    decreases n,
{
    if n <= 0 {
        seq![]
    } else {
        first_visits(results, n - 1) + package_visits(results[n - 1], n == results.len())
    }
}

/// `traversal` visits the packages in their order, the last one as the main program, whose
/// programs and diagnostics it holds, together with `engines`.
pub open spec fn traverses(
    traversal: TraversalView,
    results: Seq<CheckResult>,
    engines: Engines,
) -> bool {
    &&& traversal.visits == first_visits(results, results.len() as int)
    &&& traversal.diagnostics == results.last().diagnostics
    &&& traversal.engines == engines
    &&& results.last().value matches Some(programs) && traversal.lexed == programs.lexed
        && traversal.parsed == programs.parsed && programs.typed == Ok::<TyProgram, ()>(
        traversal.typed,
    )
}

/// Results that are given by a function of the node are that function of the nodes.
proof fn lemma_results_map<N, V, F: Fn(&N) -> V>(
    f: F,
    g: spec_fn(N) -> V,
    nodes: Seq<N>,
    results: Seq<V>,
)
    requires
        results_of(f, nodes, results),
        forall|node: N, v: V| #[trigger] f.ensures((&node,), v) ==> v == g(node),
    ensures
        results == nodes.map_values(g),
{
    assert forall|i: int| 0 <= i < nodes.len() implies results[i] == nodes.map_values(g)[i] by {
        assert(f.ensures((&nodes[i],), results[i]));
    }
    assert(results =~= nodes.map_values(g));
}

/// Whether the types of some package could not be checked, or there is a last package and it was
/// read.
pub fn check_populated(results: &Vec<CheckResult>) -> (b: bool)
    ensures
        b == populated(results@),
{
    for i in 0..results.len()
        invariant
            forall|j: int| 0 <= j < i ==> !type_check_failed(#[trigger] results@[j]),
    {
        if let Some(programs) = &results[i].value {
            if programs.typed.is_err() {
                assert(type_check_failed(results@[i as int]));
                return true;
            }
        }
    }
    results.len() > 0 && results[results.len() - 1].value.is_some()
}

/// Adds the steps for a dependency.
fn visit_dependency(visits: &mut Vec<Visit>, parsed: &ParseProgram, typed: &TyProgram)
    ensures
        final(visits)@ == old(visits)@ + dependency_visits(*parsed, *typed),
{
    let namespace: Namespace = typed.root.namespace;
    let collect_parsed = |node: &AstNode| -> (visit: Visit)
        ensures
            visit == (Visit { namespace, step: VisitStep::DependencyNode(*node) }),
        { Visit { namespace, step: VisitStep::DependencyNode(*node) } };
    let mut parsed_visits = parse_ast_to_tokens(parsed, collect_parsed);
    let collect_typed = |node: &TyAstNode| -> (visit: Visit)
        ensures
            visit == (Visit { namespace, step: VisitStep::TypedDependencyNode(*node) }),
        { Visit { namespace, step: VisitStep::TypedDependencyNode(*node) } };
    let mut typed_visits = parse_ast_to_typed_tokens(typed, collect_typed);
    proof {
        lemma_results_map(
            collect_parsed,
            |node: AstNode| Visit { namespace, step: VisitStep::DependencyNode(node) },
            program_nodes(*parsed),
            parsed_visits@,
        );
        lemma_results_map(
            collect_typed,
            |node: TyAstNode| Visit { namespace, step: VisitStep::TypedDependencyNode(node) },
            ty_program_nodes(*typed),
            typed_visits@,
        );
    }
    visits.append(&mut parsed_visits);
    visits.append(&mut typed_visits);
    assert(visits@ =~= old(visits)@ + dependency_visits(*parsed, *typed));
}

/// Adds the steps for the main program.
fn visit_main(
    visits: &mut Vec<Visit>,
    lexed: LexedProgram,
    parsed: &ParseProgram,
    typed: &TyProgram,
)
    ensures
        final(visits)@ == old(visits)@ + main_visits(lexed, *parsed, *typed),
{
    let namespace: Namespace = typed.root.namespace;
    visits.push(Visit { namespace, step: VisitStep::Lexed(lexed) });
    visits.push(Visit { namespace, step: VisitStep::ParsedModuleSpans });
    let traverse_parsed = |node: &AstNode| -> (visit: Visit)
        ensures
            visit == (Visit { namespace, step: VisitStep::ParsedNode(*node) }),
        { Visit { namespace, step: VisitStep::ParsedNode(*node) } };
    let mut parsed_visits = parse_ast_to_tokens(parsed, traverse_parsed);
    let traverse_typed = |node: &TyAstNode| -> (visit: Visit)
        ensures
            visit == (Visit { namespace, step: VisitStep::TypedNode(*node) }),
        { Visit { namespace, step: VisitStep::TypedNode(*node) } };
    let mut typed_visits = parse_ast_to_typed_tokens(typed, traverse_typed);
    proof {
        lemma_results_map(
            traverse_parsed,
            |node: AstNode| Visit { namespace, step: VisitStep::ParsedNode(node) },
            program_nodes(*parsed),
            parsed_visits@,
        );
        lemma_results_map(
            traverse_typed,
            |node: TyAstNode| Visit { namespace, step: VisitStep::TypedNode(node) },
            ty_program_nodes(*typed),
            typed_visits@,
        );
    }
    visits.append(&mut parsed_visits);
    visits.push(Visit { namespace, step: VisitStep::TypedModuleSpans });
    visits.append(&mut typed_visits);
    assert(visits@ =~= old(visits)@ + main_visits(lexed, *parsed, *typed));
}

/// How the token map is to be filled from what compiling the packages of a plan gave: `results`,
/// and `engines` filled.
///
/// The packages come in the order in which they depend on each other; the last one is the main
/// program. Where the types of a package could not be checked there is nothing to be filled.
pub fn plan_traversal(results: Vec<CheckResult>, engines: Engines) -> (traversal: Result<
    Traversal,
    LanguageServerError,
>)
    requires
        populated(results@),
    ensures
        if any_type_check_failed(results@) {
            traversal == Err::<Traversal, _>(LanguageServerError::FailedToParse)
        } else {
            traversal matches Ok(t) && traverses(t@, results@, engines)
        },
{
    let mut visits: Vec<Visit> = Vec::new();
    let results_len: usize = results.len();
    for i in 0..results_len
        invariant
            results_len == results@.len(),
            visits@ == first_visits(results@, i as int),
            forall|j: int| 0 <= j < i ==> !type_check_failed(#[trigger] results@[j]),
    {
        if let Some(programs) = &results[i].value {
            match &programs.typed {
                Ok(typed) => {
                    if i == results_len - 1 {
                        visit_main(&mut visits, programs.lexed, &programs.parsed, typed);
                    } else {
                        visit_dependency(&mut visits, &programs.parsed, typed);
                    }
                },
                Err(_) => {
                    assert(type_check_failed(results@[i as int]));
                    return Err(LanguageServerError::FailedToParse);
                },
            }
        } else {
            assert(visits@ =~= visits@ + seq![]);
        }
    }
    let mut results = results;
    let ghost all = results@;
    match results.pop() {
        Some(CheckResult { value: Some(Programs { lexed, parsed, typed: Ok(typed) }), diagnostics })
            => Ok(Traversal { diagnostics, visits, lexed, parsed, typed, engines }),
        _ => {
            assert(!type_check_failed(all[all.len() - 1]));
            assert(false);
            Err(LanguageServerError::FailedToParse)
        },
    }
}

/// The target that programs are compiled for.
#[derive(Clone, Copy, Debug, PartialEq, Eq)]
pub enum BuildTarget {
    /// The one that the compiler takes where none is named.
    Default,
}

/// What has happened on the way to a parsed project.
#[derive(Debug)]
pub enum ParseEvent {
    /// Something on the way to a build plan.
    Plan(PlanEvent),
    /// The packages of the plan were to be compiled; `engines` are those that were handed out for
    /// that, filled.
    Checked { outcome: Result<Vec<CheckResult>, String>, engines: Engines },
    /// The steps of `traversal` were made; `token_map` is the one that was handed out for that,
    /// filled.
    Traversed { traversal: Traversal, token_map: TokenMap },
}

/// What is to be done next on the way to a parsed project.
#[derive(Debug)]
pub enum ParseAction {
    /// Work on the way to a build plan.
    Plan(PlanWork),
    /// Compile the packages of `plan`, and fill `engines` by that.
    Check {
        plan: BuildPlan,
        engines: Engines,
        build_target: BuildTarget,
        terse_mode: bool,
        tests_enabled: bool,
    },
    /// Make the steps of `traversal`, and fill `token_map` by that.
    Traverse { traversal: Traversal, token_map: TokenMap },
    /// The project is parsed, or it cannot be parsed.
    Finish(Result<ParseResult, LanguageServerError>),
}

/// `action` is what is to be done next on `event`, on the way to a parsed project at `uri`.
///
/// Packages are compiled with engines that know of nothing, and the token map is filled from
/// nothing: what an earlier project left does not count.
pub open spec fn parse_step(uri: Url, event: ParseEvent, action: ParseAction) -> bool {
    match event {
        ParseEvent::Plan(event) => match plan_action(uri, event) {
            PlanAction::Do(work) => action == ParseAction::Plan(work),
            PlanAction::Finish(Ok(made)) => action matches ParseAction::Check {
                plan,
                engines,
                build_target,
                terse_mode,
                tests_enabled,
            } && plan == made && engines.source_paths@ == Map::<u32, PathId>::empty()
                && build_target == BuildTarget::Default && terse_mode && tests_enabled,
            PlanAction::Finish(Err(error)) => action == ParseAction::Finish(Err(error)),
        },
        ParseEvent::Checked { outcome: Err(reason), .. } => action == ParseAction::Finish(
            Err(LanguageServerError::FailedToCompile(reason)),
        ),
        ParseEvent::Checked { outcome: Ok(results), engines } => if any_type_check_failed(
            results@,
        ) {
            action == ParseAction::Finish(Err(LanguageServerError::FailedToParse))
        } else {
            action matches ParseAction::Traverse { traversal, token_map } && traverses(
                traversal@,
                results@,
                engines,
            ) && token_map.wf() && token_map@ == Map::<TokenIdentView, Token>::empty()
        },
        ParseEvent::Traversed { traversal, token_map } => action == ParseAction::Finish(
            Ok(
                ParseResult {
                    diagnostics: traversal@.diagnostics,
                    token_map,
                    engines: traversal@.engines,
                    lexed: traversal@.lexed,
                    parsed: traversal@.parsed,
                    typed: traversal@.typed,
                },
            ),
        ),
    }
}

/// What is to be done next on the way to a parsed project at `uri`: a build plan is made, its
/// packages are compiled with their tests, and the token map is filled. What fails first ends it.
pub fn parse_project(uri: &Url, event: ParseEvent) -> (action: ParseAction)
    requires
        event matches ParseEvent::Checked { outcome: Ok(results), .. } ==> populated(results@),
    ensures
        parse_step(*uri, event, action),
{
    match event {
        ParseEvent::Plan(event) => match build_plan(uri, event) {
            PlanAction::Do(work) => ParseAction::Plan(work),
            PlanAction::Finish(Ok(plan)) => ParseAction::Check {
                plan,
                engines: Engines::new(),
                build_target: BuildTarget::Default,
                terse_mode: true,
                tests_enabled: true,
            },
            PlanAction::Finish(Err(error)) => ParseAction::Finish(Err(error)),
        },
        ParseEvent::Checked { outcome: Err(reason), .. } => ParseAction::Finish(
            Err(LanguageServerError::FailedToCompile(reason)),
        ),
        ParseEvent::Checked { outcome: Ok(results), engines } => match plan_traversal(
            results,
            engines,
        ) {
            Ok(traversal) => ParseAction::Traverse { traversal, token_map: Table::new() },
            Err(error) => ParseAction::Finish(Err(error)),
        },
        ParseEvent::Traversed { traversal, token_map } => ParseAction::Finish(
            Ok(
                ParseResult {
                    diagnostics: traversal.diagnostics,
                    token_map,
                    engines: traversal.engines,
                    lexed: traversal.lexed,
                    parsed: traversal.parsed,
                    typed: traversal.typed,
                },
            ),
        ),
    }
}

} // verus!
