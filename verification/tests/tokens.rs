use sway_lsp::lsp::{GotoDefinitionResponse, Location, Position, Range};
use sway_lsp::path::FilePath;
use sway_lsp::program::{
    Attribute, Engines, Ident, Namespace, Span, TyFunctionDecl, TyModule, TyProgram, TyProgramKind,
};
use sway_lsp::ranges::sort_by_line;
use sway_lsp::session::tokens::sorted_token_ranges;
use sway_lsp::session::Session;
use sway_lsp::sync::SyncWorkspace;
use sway_lsp::token::{Token, TokenIdent, TokenMap, TypedAstToken};
use sway_lsp::url::Url;

fn at(line: u32, character: u32) -> Position {
    Position { line, character }
}

fn range(line: u32, from: u32, to: u32) -> Range {
    Range { start: at(line, from), end: at(line, to) }
}

/// The path, with a number of its own.
fn file_path(path: &str) -> FilePath {
    let id = path.bytes().fold(0, |id: u64, byte| id.wrapping_mul(257) + u64::from(byte));
    FilePath { id, text: path.to_string() }
}

fn ident(name: &str, range: Range, path: &str) -> TokenIdent {
    TokenIdent { name: name.to_string(), range, path: Some(file_path(path)) }
}

fn copy_ident(ident: &TokenIdent) -> TokenIdent {
    let path = ident.path.as_ref().map(|path| FilePath { id: path.id, text: path.text.clone() });
    TokenIdent { name: ident.name.clone(), range: ident.range, path }
}

fn function(name: &str) -> TyFunctionDecl {
    TyFunctionDecl {
        name: Ident {
            name: name.to_string(),
            span: Span { source_id: None, range: range(0, 0, 0) },
        },
        attributes: Vec::<Attribute>::new(),
    }
}

fn copy_token(token: &Token) -> Token {
    let typed = match &token.typed {
        Some(TypedAstToken::TypedFunctionDeclaration(decl)) => {
            Some(TypedAstToken::TypedFunctionDeclaration(function(&decl.name.name)))
        }
        Some(TypedAstToken::Other(id)) => Some(TypedAstToken::Other(*id)),
        None => None,
    };
    Token { parsed: token.parsed, typed }
}

fn tokens_for_file(tokens: &TokenMap, url: &Url) -> Vec<(TokenIdent, Token)> {
    tokens
        .entries()
        .iter()
        .filter(|(ident, _)| ident.path.as_ref().is_some_and(|path| path.text == url.path))
        .map(|(ident, token)| (copy_ident(ident), copy_token(token)))
        .collect()
}

fn token_at_position(
    tokens: &TokenMap,
    url: &Url,
    position: Position,
) -> Option<(TokenIdent, Token)> {
    tokens_for_file(tokens, url).into_iter().find(|(ident, _)| {
        ident.range.start.line == position.line
            && ident.range.start.character <= position.character
            && position.character <= ident.range.end.character
    })
}

/// The tokens with the same parsed node.
fn references(
    tokens: Vec<(TokenIdent, Token)>,
    token: &Token,
    _engines: &Engines,
) -> Vec<(TokenIdent, Token)> {
    tokens.into_iter().filter(|(_, other)| other.parsed == token.parsed).collect()
}

fn url(path: &str) -> Url {
    Url::parse(&format!("file://{}", path)).unwrap()
}

fn same_url(_sync: &SyncWorkspace, url: Url) -> Option<Url> {
    Some(url)
}

fn insert(session: &mut Session, ident: TokenIdent, parsed: u64) {
    session.token_map.insert(ident, Token { parsed, typed: None });
}

fn typed_program(namespace: u64) -> TyProgram {
    TyProgram {
        kind: TyProgramKind::Library,
        root: TyModule {
            namespace: Namespace { id: namespace },
            all_nodes: vec![],
            submodules: vec![],
        },
        test_fns: vec![],
    }
}

#[test]
fn ranges_are_sorted_by_line_and_keep_their_order_on_a_line() {
    let ranges = vec![range(3, 4, 5), range(1, 9, 9), range(3, 0, 1), range(0, 2, 3), range(1, 0, 1)];
    assert_eq!(
        sort_by_line(&ranges),
        vec![range(0, 2, 3), range(1, 9, 9), range(1, 0, 1), range(3, 4, 5), range(3, 0, 1)]
    );
}

#[test]
fn no_ranges_are_sorted() {
    assert_eq!(sort_by_line(&vec![]), vec![]);
}

#[test]
fn equal_ranges_are_all_kept() {
    let tokens = vec![
        (ident("b", range(2, 0, 1), "/p/a.sw"), Token { parsed: 1, typed: None }),
        (ident("a", range(1, 0, 1), "/p/a.sw"), Token { parsed: 1, typed: None }),
        (ident("c", range(2, 0, 1), "/p/a.sw"), Token { parsed: 1, typed: None }),
    ];
    assert_eq!(
        sorted_token_ranges(&tokens),
        vec![range(1, 0, 1), range(2, 0, 1), range(2, 0, 1)]
    );
}

#[test]
fn token_ranges_lists_the_references_in_the_file() {
    let mut session = Session::new();
    insert(&mut session, ident("x", range(7, 0, 1), "/p/main.sw"), 1);
    insert(&mut session, ident("x", range(2, 4, 5), "/p/main.sw"), 1);
    insert(&mut session, ident("y", range(4, 0, 1), "/p/main.sw"), 2);
    insert(&mut session, ident("x", range(1, 0, 1), "/p/other.sw"), 1);
    let ranges = session.token_ranges(
        &url("/p/main.sw"),
        at(7, 1),
        token_at_position,
        tokens_for_file,
        references,
    );
    assert_eq!(ranges, Some(vec![range(2, 4, 5), range(7, 0, 1)]));
}

#[test]
fn token_ranges_needs_a_token() {
    let session = Session::new();
    let ranges = session.token_ranges(
        &url("/p/main.sw"),
        at(7, 1),
        token_at_position,
        tokens_for_file,
        references,
    );
    assert_eq!(ranges, None);
}

#[test]
fn identifiers_are_told_apart_by_name_range_and_path() {
    let mut session = Session::new();
    insert(&mut session, ident("x", range(1, 0, 1), "/p/a.sw"), 1);
    insert(&mut session, ident("y", range(1, 0, 1), "/p/a.sw"), 2);
    insert(&mut session, ident("x", range(1, 0, 2), "/p/a.sw"), 3);
    insert(&mut session, ident("x", range(1, 0, 1), "/p/b.sw"), 4);
    assert_eq!(session.token_map().entries().len(), 4);
    insert(&mut session, ident("x", range(1, 0, 1), "/p/a.sw"), 5);
    assert_eq!(session.token_map().entries().len(), 4);
    let found = session.token_map().get(&ident("x", range(1, 0, 1), "/p/a.sw")).unwrap();
    assert_eq!(found.parsed, 5);
}

#[test]
fn identifiers_with_one_path_are_one_however_it_is_written() {
    let mut session = Session::new();
    let written = |text: &str, id: u64| TokenIdent {
        name: "x".to_string(),
        range: range(1, 0, 1),
        path: Some(FilePath { id, text: text.to_string() }),
    };
    insert(&mut session, written("/p/a.sw", 7), 1);
    insert(&mut session, written("/p/./a.sw", 7), 2);
    assert_eq!(session.token_map().entries().len(), 1);
    insert(&mut session, written("/p/b.sw", 8), 3);
    assert_eq!(session.token_map().entries().len(), 2);
}

fn declared(token: &Token, _engines: &Engines) -> Option<TokenIdent> {
    match token.parsed {
        1 => Some(ident("f", range(8, 3, 4), "/tmp/p/my lib.sw")),
        2 => Some(TokenIdent { name: "g".to_string(), range: range(0, 0, 0), path: None }),
        3 => Some(ident("h", range(0, 0, 0), "relative.sw")),
        _ => None,
    }
}

/// Turns URLs below `/tmp/p` into URLs below `/home/p`.
fn to_home(_sync: &SyncWorkspace, url: Url) -> Option<Url> {
    match url.text.strip_prefix("file:///tmp/p/") {
        Some(rest) => Url::parse(&format!("file:///home/p/{}", rest)),
        None => None,
    }
}

#[test]
fn a_definition_is_given_in_the_workspace() {
    let mut session = Session::new();
    insert(&mut session, ident("f", range(1, 0, 1), "/p/main.sw"), 1);
    let response = session.token_definition_response(
        url("/p/main.sw"),
        at(1, 0),
        token_at_position,
        declared,
        to_home,
    );
    assert_eq!(
        response,
        Some(GotoDefinitionResponse::Scalar(Location {
            uri: Url {
                text: "file:///home/p/my%20lib.sw".to_string(),
                path: "/home/p/my%20lib.sw".to_string()
            },
            range: range(8, 3, 4)
        }))
    );
}

#[test]
fn a_definition_has_the_url_of_its_file() {
    let mut session = Session::new();
    insert(&mut session, ident("f", range(1, 0, 1), "/p/main.sw"), 1);
    let response = session.token_definition_response(
        url("/p/main.sw"),
        at(1, 0),
        token_at_position,
        declared,
        same_url,
    );
    assert_eq!(
        response,
        Some(GotoDefinitionResponse::Scalar(Location {
            uri: Url {
                text: "file:///tmp/p/my%20lib.sw".to_string(),
                path: "/tmp/p/my%20lib.sw".to_string()
            },
            range: range(8, 3, 4)
        }))
    );
}

#[test]
fn there_is_no_definition_without_a_token_a_declaration_a_path_or_a_url() {
    let mut session = Session::new();
    insert(&mut session, ident("g", range(2, 0, 1), "/p/main.sw"), 2);
    insert(&mut session, ident("h", range(3, 0, 1), "/p/main.sw"), 3);
    insert(&mut session, ident("i", range(4, 0, 1), "/p/main.sw"), 4);
    for line in [1, 2, 3, 4] {
        let response = session.token_definition_response(
            url("/p/main.sw"),
            at(line, 0),
            token_at_position,
            declared,
            same_url,
        );
        assert_eq!(response, None);
    }
    insert(&mut session, ident("f", range(5, 0, 1), "/p/main.sw"), 1);
    let nowhere = |_: &SyncWorkspace, _: Url| -> Option<Url> { None };
    let response = session.token_definition_response(
        url("/p/main.sw"),
        at(5, 0),
        token_at_position,
        declared,
        nowhere,
    );
    assert_eq!(response, None);
}

#[test]
fn the_location_of_a_declaration_follows_from_the_url_of_its_file() {
    let session = Session::new();
    let declaration = ident("f", range(8, 3, 4), "/tmp/p/lib.sw");
    assert_eq!(session.declaration_location(&declaration, None, same_url), None);
    assert_eq!(
        session.declaration_location(&declaration, Some(url("/tmp/p/lib.sw")), to_home),
        Some(GotoDefinitionResponse::Scalar(Location {
            uri: url("/home/p/lib.sw"),
            range: range(8, 3, 4)
        }))
    );
}

fn functions_at_position(
    tokens: &TokenMap,
    _engines: &Engines,
    url: &Url,
    _position: Position,
    functions_only: Option<bool>,
) -> Vec<(TokenIdent, Token)> {
    assert_eq!(functions_only, Some(true));
    tokens_for_file(tokens, url).into_iter().filter(|(ident, _)| ident.name == "main").collect()
}

fn items(
    namespace: &Namespace,
    _engines: &Engines,
    ident: &TokenIdent,
    function: &TyFunctionDecl,
    position: Position,
) -> Vec<String> {
    vec![format!(
        "{} {} {} {}",
        namespace.id, ident.name, function.name.name, position.character
    )]
}

#[test]
fn completion_looks_before_the_trigger() {
    let mut session = Session::new();
    session.compiled_program.typed = Some(typed_program(11));
    insert(&mut session, ident("x", range(3, 4, 5), "/p/main.sw"), 1);
    let main = Token {
        parsed: 2,
        typed: Some(TypedAstToken::TypedFunctionDeclaration(function("main"))),
    };
    session.token_map.insert(ident("main", range(2, 0, 1), "/p/main.sw"), main);
    let complete = |session: &Session, character: u32, trigger: &str| {
        session.completion_items(
            &url("/p/main.sw"),
            at(3, character),
            trigger,
            token_at_position,
            functions_at_position,
            items,
        )
    };
    assert_eq!(complete(&session, 6, "."), Some(vec!["11 x main 6".to_string()]));
    assert_eq!(complete(&session, 7, "é"), Some(vec!["11 x main 7".to_string()]));
    assert_eq!(complete(&session, 8, "."), None);
    assert_eq!(complete(&session, 5, "."), None);
    session.compiled_program.typed = None;
    assert_eq!(complete(&session, 6, "."), None);
}

#[test]
fn completion_counts_the_bytes_of_the_trigger() {
    let mut session = Session::new();
    session.compiled_program.typed = Some(typed_program(11));
    insert(&mut session, ident("x", range(3, 4, 5), "/p/main.sw"), 1);
    let main = Token {
        parsed: 2,
        typed: Some(TypedAstToken::TypedFunctionDeclaration(function("main"))),
    };
    session.token_map.insert(ident("main", range(2, 0, 1), "/p/main.sw"), main);
    let complete = |trigger: &str| {
        session.completion_items(
            &url("/p/main.sw"),
            at(3, 8),
            trigger,
            token_at_position,
            functions_at_position,
            items,
        )
    };
    assert_eq!(complete("::"), Some(vec!["11 x main 8".to_string()]));
    assert_eq!(complete("é"), complete("::"));
    assert_eq!(complete("x"), None);
}

#[test]
fn completion_needs_a_function() {
    let mut session = Session::new();
    session.compiled_program.typed = Some(typed_program(11));
    insert(&mut session, ident("x", range(3, 4, 5), "/p/main.sw"), 1);
    let complete = |session: &Session| {
        session.completion_items(
            &url("/p/main.sw"),
            at(3, 6),
            ".",
            token_at_position,
            functions_at_position,
            items,
        )
    };
    assert_eq!(complete(&session), None);
    let other = Token { parsed: 2, typed: Some(TypedAstToken::Other(9)) };
    session.token_map.insert(ident("main", range(2, 0, 1), "/p/main.sw"), other);
    assert_eq!(complete(&session), None);
}

#[test]
fn symbols_are_given_for_the_workspace() {
    let mut session = Session::new();
    insert(&mut session, ident("x", range(3, 4, 5), "/tmp/p/main.sw"), 1);
    insert(&mut session, ident("y", range(3, 4, 5), "/tmp/p/other.sw"), 1);
    let symbols = |tokens: Vec<(TokenIdent, Token)>, url: Url| -> Vec<String> {
        tokens.iter().map(|(ident, _)| format!("{} {}", ident.name, url.path)).collect()
    };
    assert_eq!(
        session.symbol_information(&url("/tmp/p/main.sw"), tokens_for_file, to_home, symbols),
        Some(vec!["x /home/p/main.sw".to_string()])
    );
    assert_eq!(
        session.symbol_information(&url("/elsewhere.sw"), tokens_for_file, to_home, symbols),
        None
    );
}

#[test]
fn the_namespace_is_that_of_the_typed_program() {
    let mut session = Session::new();
    assert_eq!(session.namespace(), None);
    session.compiled_program.typed = Some(typed_program(11));
    assert_eq!(session.namespace(), Some(&Namespace { id: 11 }));
}

#[test]
fn a_url_is_parsed_into_its_normal_form() {
    let parsed = Url::parse("FILE:///a/./b c").unwrap();
    assert_eq!(parsed.text, "file:///a/b%20c");
    assert_eq!(parsed.path, "/a/b%20c");
    assert_eq!(Url::parse("a/b"), None);
}

#[test]
fn a_path_becomes_a_url_if_it_is_absolute() {
    let made = Url::from_file_path("/a/b c").unwrap();
    assert_eq!(made.text, "file:///a/b%20c");
    assert_eq!(made.path, "/a/b%20c");
    assert_eq!(Url::from_file_path("a/b"), None);
    assert_eq!(Url::from_file_path(""), None);
}
