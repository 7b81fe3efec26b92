use sway_lsp::document::TextDocument;
use sway_lsp::lsp::{Position, Range};
use sway_lsp::path::PathId;
use sway_lsp::program::{
    AstNode, Attribute, Engines, Ident, LexedProgram, Namespace, ParseModule, ParseProgram,
    ParseTree, Span, TreeType, TyFunctionDecl, TyModule, TyProgram, TyProgramKind,
};
use sway_lsp::runnable::{Runnable, RunnableMainFn, RunnableTestFn};
use sway_lsp::session::runnables::{check_sources_known, ParseResult};
use sway_lsp::session::Session;
use sway_lsp::table::Table;
use sway_lsp::token::{Token, TokenIdent, TokenMap};
use sway_lsp::url::Url;

/// The numbers of the paths of two source files.
const MAIN: PathId = 41;
const TESTS: PathId = 42;

fn range(line: u32) -> Range {
    Range { start: Position { line, character: 0 }, end: Position { line, character: 9 } }
}

fn span(source_id: Option<u32>, line: u32) -> Span {
    Span { source_id, range: range(line) }
}

fn function(name: &str, name_span: Span, attributes: Vec<Span>) -> TyFunctionDecl {
    TyFunctionDecl {
        name: Ident { name: name.to_string(), span: name_span },
        attributes: attributes
            .into_iter()
            .map(|span| Attribute { name: "test".to_string(), span })
            .collect(),
    }
}

fn program(kind: TyProgramKind, test_fns: Vec<TyFunctionDecl>) -> TyProgram {
    TyProgram {
        kind,
        root: TyModule { namespace: Namespace { id: 1 }, all_nodes: vec![], submodules: vec![] },
        test_fns,
    }
}

fn script(source_id: Option<u32>, line: u32) -> TyProgramKind {
    TyProgramKind::Script { main_function: function("main", span(source_id, line), vec![]) }
}

fn engines() -> Engines {
    let mut engines = Engines::new();
    engines.source_paths.insert(1, MAIN);
    engines.source_paths.insert(2, TESTS);
    engines
}

fn test_fn(line: u32, tree_type: TreeType, name: &str) -> Runnable {
    Runnable::TestFn(RunnableTestFn {
        range: range(line),
        tree_type,
        test_name: Some(name.to_string()),
    })
}

fn result(typed: TyProgram) -> ParseResult {
    let mut token_map: TokenMap = Table::new();
    let ident = TokenIdent { name: "x".to_string(), range: range(1), path: None };
    token_map.insert(ident, Token { parsed: 5, typed: None });
    ParseResult {
        diagnostics: (vec![], vec![]),
        token_map,
        engines: engines(),
        lexed: LexedProgram { id: 3 },
        parsed: ParseProgram {
            root: ParseModule {
                tree: ParseTree { root_nodes: vec![AstNode { id: 4 }] },
                submodules: vec![],
            },
        },
        typed,
    }
}

fn listed(session: &Session, path: PathId) -> Option<&Vec<Runnable>> {
    session.runnables.get(&path)
}

#[test]
fn tests_come_before_the_main_function() {
    let mut session = Session::new();
    session.engines = engines();
    let typed = program(
        script(Some(1), 20),
        vec![
            function("one", span(Some(1), 11), vec![span(Some(1), 10), span(Some(1), 12)]),
            function("two", span(Some(1), 15), vec![]),
            function("three", span(Some(1), 17), vec![span(Some(2), 16)]),
        ],
    );
    session.create_runnables(&typed);
    assert_eq!(
        listed(&session, MAIN),
        Some(&vec![
            test_fn(10, TreeType::Script, "one"),
            test_fn(15, TreeType::Script, "two"),
            Runnable::MainFn(RunnableMainFn { range: range(20), tree_type: TreeType::Script }),
        ])
    );
    assert_eq!(
        listed(&session, TESTS),
        Some(&vec![test_fn(16, TreeType::Script, "three")])
    );
}

#[test]
fn programs_that_are_no_scripts_have_nothing_to_run() {
    for kind in [TyProgramKind::Contract, TyProgramKind::Library, TyProgramKind::Predicate] {
        let mut session = Session::new();
        session.engines = engines();
        session.runnables.insert(MAIN, vec![]);
        session.create_runnables(&program(kind, vec![function("one", span(Some(1), 3), vec![])]));
        assert_eq!(listed(&session, MAIN), Some(&vec![]));
        assert_eq!(session.runnables.len(), 1);
    }
}

#[test]
fn functions_in_no_file_are_not_listed() {
    let mut session = Session::new();
    session.engines = engines();
    let typed = program(
        script(None, 20),
        vec![
            function("one", span(None, 1), vec![]),
            function("two", span(Some(1), 2), vec![span(None, 3)]),
        ],
    );
    session.create_runnables(&typed);
    assert_eq!(session.runnables.len(), 0);
}

#[test]
fn runnables_are_added_to_those_that_are_listed() {
    let mut session = Session::new();
    session.engines = engines();
    let typed = program(script(None, 1), vec![function("one", span(Some(1), 3), vec![])]);
    session.create_runnables(&typed);
    session.create_runnables(&typed);
    assert_eq!(
        listed(&session, MAIN),
        Some(&vec![test_fn(3, TreeType::Script, "one"), test_fn(3, TreeType::Script, "one")])
    );
}

#[test]
fn source_files_with_one_path_share_one_list() {
    let mut session = Session::new();
    session.engines = engines();
    session.engines.source_paths.insert(3, MAIN);
    let typed = program(
        script(Some(3), 5),
        vec![function("one", span(Some(1), 3), vec![])],
    );
    session.create_runnables(&typed);
    assert_eq!(session.runnables.len(), 1);
    assert_eq!(
        listed(&session, MAIN),
        Some(&vec![
            test_fn(3, TreeType::Script, "one"),
            Runnable::MainFn(RunnableMainFn { range: range(5), tree_type: TreeType::Script }),
        ])
    );
}

#[test]
fn a_parse_result_takes_the_place_of_the_one_before() {
    let mut session = Session::new();
    let old = TokenIdent { name: "old".to_string(), range: range(1), path: None };
    session.token_map.insert(old, Token { parsed: 1, typed: None });
    session.runnables.insert(99, vec![]);
    let tests = || vec![function("one", span(Some(2), 3), vec![])];
    session.write_parse_result(result(program(script(None, 1), tests())));
    session.write_parse_result(result(program(script(None, 1), tests())));
    let entries = session.token_map().entries();
    assert_eq!(entries.len(), 1);
    assert_eq!(entries[0].0.name, "x");
    assert_eq!(entries[0].1, Token { parsed: 5, typed: None });
    assert_eq!(session.runnables.len(), 1);
    assert_eq!(
        listed(&session, TESTS),
        Some(&vec![test_fn(3, TreeType::Script, "one")])
    );
    assert_eq!(session.engines.get_path(1), MAIN);
    assert_eq!(session.compiled_program.lexed, Some(LexedProgram { id: 3 }));
    assert_eq!(
        session.compiled_program.parsed.as_ref().unwrap().root.tree.root_nodes,
        vec![AstNode { id: 4 }]
    );
    assert_eq!(session.compiled_program.typed, Some(program(script(None, 1), tests())));
    assert_eq!(session.namespace(), Some(&Namespace { id: 1 }));
    session.write_parse_result(result(program(TyProgramKind::Contract, tests())));
    assert_eq!(session.runnables.len(), 0);
}

#[test]
fn the_sources_of_a_program_are_known_or_not() {
    let engines = engines();
    let with_test = |kind: TyProgramKind, span: Span| {
        program(kind, vec![function("one", span, vec![])])
    };
    assert!(check_sources_known(&with_test(script(None, 1), span(Some(2), 1)), &engines));
    assert!(check_sources_known(&with_test(script(None, 1), span(None, 1)), &engines));
    assert!(!check_sources_known(&with_test(script(None, 1), span(Some(3), 1)), &engines));
    assert!(check_sources_known(&with_test(TyProgramKind::Library, span(Some(3), 1)), &engines));
    assert!(check_sources_known(&program(script(Some(1), 1), vec![]), &engines));
    assert!(!check_sources_known(&program(script(Some(3), 1), vec![]), &engines));
}

#[test]
fn a_parse_result_leaves_the_documents_alone() {
    let mut session = Session::new();
    let document = || TextDocument::new("/p/main.sw".to_string(), "script;".to_string());
    session.store_document(document()).unwrap();
    session.write_parse_result(result(program(script(Some(1), 1), vec![])));
    let url = Url::parse("file:///p/main.sw").unwrap();
    assert_eq!(session.get_text_document(&url), Ok(&document()));
    assert_eq!(
        listed(&session, MAIN),
        Some(&vec![Runnable::MainFn(RunnableMainFn {
            range: range(1),
            tree_type: TreeType::Script
        })])
    );
}
