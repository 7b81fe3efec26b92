use sway_lsp::error::{DocumentError, LanguageServerError};
use sway_lsp::lsp::{Position, Range};
use sway_lsp::program::{
    AstNode, Engines, LexedProgram, Namespace, ParseModule, ParseProgram, ParseSubmodule,
    ParseTree, TyAstNode, TyModule, TyProgram, TyProgramKind, TySubmodule,
};
use sway_lsp::project::{
    build_plan, check_populated, parse_ast_to_tokens, parse_ast_to_typed_tokens, parse_project,
    plan_traversal, BuildPlan, BuildTarget, CheckResult, IpfsNode, Manifest, MemberManifests,
    ParseAction, ParseEvent, PlanAction, PlanEvent, PlanWork, Programs, Visit, VisitStep,
};
use sway_lsp::session::runnables::{CompileError, CompileWarning, ParseResult};
use sway_lsp::session::Session;
use sway_lsp::token::{Token, TokenIdent, TokenMap};
use sway_lsp::url::Url;

fn get_absolute_path(rel_path: &str) -> String {
    format!("/workspace/{}", rel_path)
}

fn get_url(absolute_path: &str) -> Url {
    Url::parse(&format!("file://{}", absolute_path)).expect("expected URL")
}

fn no<T>(reason: &str) -> Result<T, String> {
    Err(reason.to_string())
}

fn parse_module(nodes: Vec<u64>, submodules: Vec<ParseModule>) -> ParseModule {
    ParseModule {
        tree: ParseTree { root_nodes: nodes.into_iter().map(|id| AstNode { id }).collect() },
        submodules: submodules
            .into_iter()
            .map(|module| ("sub".to_string(), ParseSubmodule { module }))
            .collect(),
    }
}

fn ty_module(namespace: u64, nodes: Vec<u64>, submodules: Vec<TyModule>) -> TyModule {
    TyModule {
        namespace: Namespace { id: namespace },
        all_nodes: nodes.into_iter().map(|id| TyAstNode { id }).collect(),
        submodules: submodules
            .into_iter()
            .map(|module| ("sub".to_string(), TySubmodule { module }))
            .collect(),
    }
}

fn ty_program(root: TyModule) -> TyProgram {
    TyProgram { kind: TyProgramKind::Library, root, test_fns: vec![] }
}

/// A package whose nodes have numbers that start with `id`.
fn package(id: u64) -> CheckResult {
    CheckResult {
        value: Some(Programs {
            lexed: LexedProgram { id },
            parsed: ParseProgram {
                root: parse_module(vec![id * 10, id * 10 + 1], vec![parse_module(vec![id * 10 + 2], vec![])]),
            },
            typed: Ok(ty_program(ty_module(
                id,
                vec![id * 10 + 5],
                vec![ty_module(id, vec![id * 10 + 6], vec![])],
            ))),
        }),
        diagnostics: diagnostics(id),
    }
}

fn diagnostics(id: u64) -> (Vec<CompileError>, Vec<CompileWarning>) {
    (
        vec![CompileError { message: format!("error {}", id) }],
        vec![CompileWarning { message: format!("warning {}", id) }],
    )
}

fn unread(id: u64) -> CheckResult {
    CheckResult { value: None, diagnostics: diagnostics(id) }
}

fn untyped(id: u64) -> CheckResult {
    let mut result = package(id);
    result.value.as_mut().unwrap().typed = Err(());
    result
}

/// Engines that know of one source file.
fn engines() -> Engines {
    let mut engines = Engines::new();
    engines.source_paths.insert(1, 41);
    engines
}

fn checked(outcome: Result<Vec<CheckResult>, String>) -> ParseEvent {
    ParseEvent::Checked { outcome, engines: engines() }
}

fn visit(namespace: u64, step: VisitStep) -> Visit {
    Visit { namespace: Namespace { id: namespace }, step }
}

fn dependency_visits(id: u64) -> Vec<Visit> {
    vec![
        visit(id, VisitStep::DependencyNode(AstNode { id: id * 10 })),
        visit(id, VisitStep::DependencyNode(AstNode { id: id * 10 + 1 })),
        visit(id, VisitStep::DependencyNode(AstNode { id: id * 10 + 2 })),
        visit(id, VisitStep::TypedDependencyNode(TyAstNode { id: id * 10 + 5 })),
        visit(id, VisitStep::TypedDependencyNode(TyAstNode { id: id * 10 + 6 })),
    ]
}

fn main_visits(id: u64) -> Vec<Visit> {
    vec![
        visit(id, VisitStep::Lexed(LexedProgram { id })),
        visit(id, VisitStep::ParsedModuleSpans),
        visit(id, VisitStep::ParsedNode(AstNode { id: id * 10 })),
        visit(id, VisitStep::ParsedNode(AstNode { id: id * 10 + 1 })),
        visit(id, VisitStep::ParsedNode(AstNode { id: id * 10 + 2 })),
        visit(id, VisitStep::TypedModuleSpans),
        visit(id, VisitStep::TypedNode(TyAstNode { id: id * 10 + 5 })),
        visit(id, VisitStep::TypedNode(TyAstNode { id: id * 10 + 6 })),
    ]
}

#[test]
fn parse_project_returns_manifest_file_not_found() {
    let dir = get_absolute_path("sway-lsp/tests/fixtures");
    let uri = get_url(&dir);
    let action = parse_project(&uri, ParseEvent::Plan(PlanEvent::Begin));
    assert!(matches!(
        action,
        ParseAction::Plan(PlanWork::ReadManifest { dir: test_dir }) if test_dir == dir
    ));
    let action = parse_project(&uri, ParseEvent::Plan(PlanEvent::ManifestRead(no("no manifest"))));
    let result = match action {
        ParseAction::Finish(result) => result.expect_err("expected ManifestFileNotFound"),
        _ => panic!("expected an answer"),
    };
    assert!(matches!(
        result,
        LanguageServerError::DocumentError(
            DocumentError::ManifestFileNotFound { dir: test_dir }
        )
        if test_dir == dir
    ));
}

const MANIFEST: Manifest = Manifest { id: 1 };
const MEMBERS: MemberManifests = MemberManifests { id: 2 };
const PLAN: BuildPlan = BuildPlan { id: 3 };

#[test]
fn a_build_plan_is_made_step_by_step() {
    let uri = get_url("/p");
    assert_eq!(
        build_plan(&uri, PlanEvent::Begin),
        PlanAction::Do(PlanWork::ReadManifest { dir: "/p".to_string() })
    );
    assert_eq!(
        build_plan(&uri, PlanEvent::ManifestRead(Ok(MANIFEST))),
        PlanAction::Do(PlanWork::ReadMembers { manifest: MANIFEST })
    );
    assert_eq!(
        build_plan(&uri, PlanEvent::MembersRead { manifest: MANIFEST, read: Ok(MEMBERS) }),
        PlanAction::Do(PlanWork::FindLockPath { manifest: MANIFEST, members: MEMBERS })
    );
    assert_eq!(
        build_plan(&uri, PlanEvent::LockPathFound { members: MEMBERS, found: Ok(9) }),
        PlanAction::Do(PlanWork::MakePlan {
            lock_path: 9,
            members: MEMBERS,
            locked: false,
            offline: false,
            ipfs_node: IpfsNode::Local
        })
    );
    assert_eq!(build_plan(&uri, PlanEvent::PlanMade(Ok(PLAN))), PlanAction::Finish(Ok(PLAN)));
}

#[test]
fn what_fails_on_the_way_to_a_build_plan_gives_its_error() {
    let uri = get_url("/p");
    let document_error =
        |error: DocumentError| PlanAction::Finish(Err(LanguageServerError::DocumentError(error)));
    assert_eq!(
        build_plan(&uri, PlanEvent::ManifestRead(no("x"))),
        document_error(DocumentError::ManifestFileNotFound { dir: "/p".to_string() })
    );
    assert_eq!(
        build_plan(&uri, PlanEvent::MembersRead { manifest: MANIFEST, read: no("x") }),
        document_error(DocumentError::MemberManifestsFailed { dir: "/p".to_string() })
    );
    assert_eq!(
        build_plan(&uri, PlanEvent::LockPathFound { members: MEMBERS, found: no("x") }),
        document_error(DocumentError::ManifestsLockPathFailed { dir: "/p".to_string() })
    );
    assert_eq!(
        build_plan(&uri, PlanEvent::PlanMade(no("cycle"))),
        PlanAction::Finish(Err(LanguageServerError::BuildPlanFailed("cycle".to_string())))
    );
}

#[test]
fn packages_are_compiled_once_there_is_a_plan() {
    let uri = get_url("/p");
    let action = parse_project(&uri, ParseEvent::Plan(PlanEvent::PlanMade(Ok(PLAN))));
    match action {
        ParseAction::Check { plan, engines, build_target, terse_mode, tests_enabled } => {
            assert_eq!(plan, PLAN);
            assert_eq!(engines, Engines::new());
            assert_eq!(build_target, BuildTarget::Default);
            assert!(terse_mode);
            assert!(tests_enabled);
        }
        _ => panic!("expected to compile"),
    }
}

#[test]
fn packages_that_cannot_be_compiled_give_an_error() {
    let uri = get_url("/p");
    let action = parse_project(&uri, checked(Err("broken".to_string())));
    match action {
        ParseAction::Finish(Err(error)) => {
            assert_eq!(error, LanguageServerError::FailedToCompile("broken".to_string()))
        }
        _ => panic!("expected an error"),
    }
}

#[test]
fn nodes_of_the_root_come_before_nodes_of_its_modules() {
    let nested = parse_module(vec![9], vec![]);
    let program = ParseProgram {
        root: parse_module(
            vec![1, 2],
            vec![parse_module(vec![3], vec![nested]), parse_module(vec![4, 5], vec![])],
        ),
    };
    assert_eq!(parse_ast_to_tokens(&program, |node: &AstNode| node.id), vec![1, 2, 3, 4, 5]);
}

#[test]
fn typed_nodes_of_the_root_come_before_nodes_of_its_modules() {
    let nested = ty_module(0, vec![9], vec![]);
    let program = ty_program(ty_module(
        0,
        vec![1, 2],
        vec![ty_module(0, vec![3], vec![nested]), ty_module(0, vec![4, 5], vec![])],
    ));
    assert_eq!(
        parse_ast_to_typed_tokens(&program, |node: &TyAstNode| node.id),
        vec![1, 2, 3, 4, 5]
    );
}

#[test]
fn dependencies_are_visited_before_the_main_program() {
    let results = vec![package(1), unread(2), package(3), package(4)];
    let traversal = plan_traversal(results, engines()).unwrap();
    let mut visits = dependency_visits(1);
    visits.extend(dependency_visits(3));
    visits.extend(main_visits(4));
    assert_eq!(traversal.visits(), &visits);
    assert_eq!(traversal.engines(), &engines());
    let main = package(4).value.unwrap();
    assert_eq!(traversal.parsed(), &main.parsed);
    assert_eq!(Ok(traversal.typed()), main.typed.as_ref());
}

#[test]
fn a_package_whose_types_cannot_be_checked_ends_it() {
    for results in [
        vec![untyped(1), package(2)],
        vec![package(1), untyped(2)],
        vec![untyped(1), unread(2)],
    ] {
        assert!(check_populated(&results));
        assert_eq!(
            plan_traversal(results, engines()),
            Err(LanguageServerError::FailedToParse)
        );
    }
}

#[test]
fn the_main_program_has_to_be_read() {
    assert!(check_populated(&vec![unread(1), package(2)]));
    assert!(!check_populated(&vec![package(1), unread(2)]));
    assert!(!check_populated(&vec![]));
}

/// A token map that holds one token.
fn fill(mut token_map: TokenMap) -> TokenMap {
    let at = Position { line: 0, character: 0 };
    let ident = TokenIdent {
        name: "x".to_string(),
        range: Range { start: at, end: at },
        path: None,
    };
    token_map.insert(ident, Token { parsed: 20, typed: None });
    token_map
}

/// Parses a project of the packages, each of which was read and checked.
fn parsed(packages: Vec<CheckResult>) -> ParseResult {
    let uri = get_url("/p");
    let (traversal, token_map) = match parse_project(&uri, checked(Ok(packages))) {
        ParseAction::Traverse { traversal, token_map } => (traversal, token_map),
        _ => panic!("expected a traversal"),
    };
    assert_eq!(token_map.entries().len(), 0);
    let event = ParseEvent::Traversed { traversal, token_map: fill(token_map) };
    match parse_project(&uri, event) {
        ParseAction::Finish(Ok(result)) => result,
        _ => panic!("expected a parsed project"),
    }
}

#[test]
fn a_parsed_project_carries_its_tokens_and_programs() {
    let result = parsed(vec![package(1), unread(2), package(3)]);
    assert_eq!(result.diagnostics, diagnostics(3));
    assert_eq!(result.engines, engines());
    assert_eq!(result.token_map.entries().len(), 1);
    assert_eq!(result.token_map.entries()[0].1, Token { parsed: 20, typed: None });
    let main = package(3).value.unwrap();
    assert_eq!(result.lexed, main.lexed);
    assert_eq!(result.parsed, main.parsed);
    assert_eq!(Ok(result.typed), main.typed);
}

#[test]
fn a_project_with_a_package_that_cannot_be_checked_is_not_parsed() {
    let failed = parse_project(&get_url("/p"), checked(Ok(vec![untyped(1)])));
    assert!(matches!(failed, ParseAction::Finish(Err(LanguageServerError::FailedToParse))));
}

#[test]
fn a_session_holds_the_programs_of_the_last_package() {
    let mut session = Session::new();
    session.write_parse_result(parsed(vec![package(1), package(2)]));
    let main = package(2).value.unwrap();
    assert_eq!(session.compiled_program.lexed, Some(main.lexed));
    assert_eq!(session.compiled_program.parsed, Some(main.parsed));
    assert_eq!(session.compiled_program.typed, main.typed.ok());
    assert_eq!(session.namespace(), Some(&Namespace { id: 2 }));
    assert_eq!(session.engines, engines());
    assert_eq!(session.token_map().entries().len(), 1);
}

/// Does what is asked for on the way to a parsed project, with all steps to a plan successful, and
/// counts the steps.
fn run(outcome: Result<Vec<CheckResult>, String>) -> (usize, Result<ParseResult, LanguageServerError>) {
    let uri = get_url("/p");
    let mut outcome = Some(outcome);
    let mut event = ParseEvent::Plan(PlanEvent::Begin);
    for step in 1..8 {
        event = match parse_project(&uri, event) {
            ParseAction::Plan(PlanWork::ReadManifest { .. }) => {
                ParseEvent::Plan(PlanEvent::ManifestRead(Ok(MANIFEST)))
            }
            ParseAction::Plan(PlanWork::ReadMembers { manifest }) => {
                ParseEvent::Plan(PlanEvent::MembersRead { manifest, read: Ok(MEMBERS) })
            }
            ParseAction::Plan(PlanWork::FindLockPath { manifest, members }) => {
                assert_eq!(manifest, MANIFEST);
                ParseEvent::Plan(PlanEvent::LockPathFound { members, found: Ok(9) })
            }
            ParseAction::Plan(PlanWork::MakePlan { lock_path, members, .. }) => {
                assert_eq!((lock_path, members), (9, MEMBERS));
                ParseEvent::Plan(PlanEvent::PlanMade(Ok(PLAN)))
            }
            ParseAction::Check { plan, mut engines, .. } => {
                assert_eq!(plan, PLAN);
                engines.source_paths.insert(7, 47);
                ParseEvent::Checked { outcome: outcome.take().unwrap(), engines }
            }
            ParseAction::Traverse { traversal, token_map } => {
                ParseEvent::Traversed { traversal, token_map: fill(token_map) }
            }
            ParseAction::Finish(result) => return (step, result),
        };
    }
    panic!("expected an answer")
}

#[test]
fn a_run_ends_with_the_answer_of_its_packages() {
    let (steps, result) = run(Ok(vec![package(1), package(2)]));
    let result = result.unwrap();
    assert_eq!(steps, 7);
    assert_eq!(result.lexed, LexedProgram { id: 2 });
    assert_eq!(result.diagnostics, diagnostics(2));
    assert_eq!(result.engines.source_paths.len(), 1);
    assert_eq!(result.engines.get_path(7), 47);
    assert_eq!(result.token_map.entries().len(), 1);
    let (steps, result) = run(Err("broken".to_string()));
    assert_eq!(steps, 6);
    assert!(matches!(result, Err(LanguageServerError::FailedToCompile(reason)) if reason == "broken"));
}
