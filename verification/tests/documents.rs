use sway_lsp::document::{FileRead, TextDocument};
use sway_lsp::error::{DirectoryError, DocumentError, LanguageServerError};
use sway_lsp::lsp::{Position, Range, TextDocumentContentChangeEvent};
use sway_lsp::session::documents::{FileWrite, WriteOutcome};
use sway_lsp::session::Session;
use sway_lsp::url::Url;

fn absolute_path(rel_path: &str) -> String {
    format!("/workspace/{}", rel_path)
}

fn document(path: &str, text: &str) -> TextDocument {
    TextDocument::new(path.to_string(), text.to_string())
}

fn url(path: &str) -> Url {
    Url::parse(&format!("file://{}", path)).unwrap()
}

fn change(text: &str) -> TextDocumentContentChangeEvent {
    TextDocumentContentChangeEvent { range: None, text: text.to_string() }
}

/// Adds the text of the change at the end.
fn append(document: TextDocument, change: &TextDocumentContentChangeEvent) -> TextDocument {
    TextDocument { uri: document.uri, text: document.text + &change.text }
}

/// Replaces the characters of the range, on a document of one line.
fn replace(document: TextDocument, change: &TextDocumentContentChangeEvent) -> TextDocument {
    let mut text = document.text.clone();
    match change.range {
        Some(range) => text.replace_range(
            range.start.character as usize..range.end.character as usize,
            &change.text,
        ),
        None => text = change.text.clone(),
    }
    TextDocument { uri: document.uri, text }
}

#[test]
fn store_document_returns_empty_tuple() {
    let mut session = Session::new();
    let path = absolute_path("sway-lsp/tests/fixtures/cats.txt");
    let document = document(&path, "cats");
    let result = Session::store_document(&mut session, document);
    assert!(result.is_ok());
}

#[test]
fn store_document_returns_document_already_stored_error() {
    let mut session = Session::new();
    let path = absolute_path("sway-lsp/tests/fixtures/cats.txt");
    let first = document(&path, "cats");
    Session::store_document(&mut session, first).expect("expected successfully stored");
    let second = document(&path, "cats");
    let result = Session::store_document(&mut session, second)
        .expect_err("expected DocumentAlreadyStored");
    assert_eq!(result, DocumentError::DocumentAlreadyStored { path });
}

#[test]
fn a_stored_document_is_found_under_its_path() {
    let mut session = Session::new();
    session.store_document(document("/p/main.sw", "script;")).unwrap();
    session.store_document(document("/p/other.sw", "library;")).unwrap();
    let found = session.get_text_document(&url("/p/main.sw")).unwrap();
    assert_eq!(found.get_uri(), "/p/main.sw");
    assert_eq!(found.get_text(), "script;");
}

#[test]
fn the_path_of_a_url_is_percent_encoded() {
    let mut session = Session::new();
    session.store_document(document("/p/a%20b.sw", "script;")).unwrap();
    let spaced = Url::parse("file:///p/a b.sw").unwrap();
    assert_eq!(session.get_text_document(&spaced).unwrap().get_text(), "script;");
}

#[test]
fn a_document_that_is_not_stored_is_not_found() {
    let session = Session::new();
    assert_eq!(
        session.get_text_document(&url("/p/main.sw")),
        Err(DocumentError::DocumentNotFound { path: "/p/main.sw".to_string() })
    );
}

#[test]
fn a_second_document_takes_the_place_of_the_first() {
    let mut session = Session::new();
    session.store_document(document("/p/main.sw", "first")).unwrap();
    assert!(session.store_document(document("/p/main.sw", "second")).is_err());
    assert_eq!(session.get_text_document(&url("/p/main.sw")).unwrap().get_text(), "second");
}

#[test]
fn a_removed_document_is_handed_out_and_not_found() {
    let mut session = Session::new();
    session.store_document(document("/p/a.sw", "a")).unwrap();
    session.store_document(document("/p/b.sw", "b")).unwrap();
    assert_eq!(session.remove_document(&url("/p/a.sw")), Ok(document("/p/a.sw", "a")));
    assert_eq!(
        session.remove_document(&url("/p/a.sw")),
        Err(DocumentError::DocumentNotFound { path: "/p/a.sw".to_string() })
    );
    assert_eq!(session.get_text_document(&url("/p/b.sw")).unwrap().get_text(), "b");
    session.store_document(document("/p/a.sw", "again")).unwrap();
}

#[test]
fn changes_are_made_in_their_order() {
    let mut session = Session::new();
    session.store_document(document("/p/main.sw", "a")).unwrap();
    session.store_document(document("/p/other.sw", "x")).unwrap();
    let changes = vec![change("b"), change("c")];
    assert_eq!(
        session.update_text_document(&url("/p/main.sw"), changes, append),
        Some("abc".to_string())
    );
    assert_eq!(session.get_text_document(&url("/p/main.sw")).unwrap().get_text(), "abc");
    assert_eq!(session.get_text_document(&url("/p/other.sw")).unwrap().get_text(), "x");
}

#[test]
fn changes_of_two_requests_add_up() {
    let mut session = Session::new();
    session.store_document(document("/p/main.sw", "a")).unwrap();
    session.update_text_document(&url("/p/main.sw"), vec![change("b")], append);
    assert_eq!(
        session.update_text_document(&url("/p/main.sw"), vec![change("c")], append),
        Some("abc".to_string())
    );
}

#[test]
fn a_change_with_a_range_reaches_the_function_that_makes_it() {
    let mut session = Session::new();
    session.store_document(document("/p/main.sw", "let a = 1;")).unwrap();
    let at = |character: u32| Position { line: 0, character };
    let changes = vec![TextDocumentContentChangeEvent {
        range: Some(Range { start: at(4), end: at(5) }),
        text: "bc".to_string(),
    }];
    assert_eq!(
        session.update_text_document(&url("/p/main.sw"), changes, replace),
        Some("let bc = 1;".to_string())
    );
}

#[test]
fn no_changes_leave_a_document_as_it_is() {
    let mut session = Session::new();
    session.store_document(document("/p/main.sw", "a")).unwrap();
    assert_eq!(
        session.update_text_document(&url("/p/main.sw"), vec![], append),
        Some("a".to_string())
    );
}

#[test]
fn a_document_that_is_not_stored_is_not_changed() {
    let mut session = Session::new();
    assert_eq!(session.update_text_document(&url("/p/main.sw"), vec![change("b")], append), None);
    assert!(session.get_text_document(&url("/p/main.sw")).is_err());
}

#[test]
fn changes_are_written_with_a_line_feed() {
    let mut session = Session::new();
    session.store_document(document("/p/main.sw", "a")).unwrap();
    let write = session.write_changes_to_file(&url("/p/main.sw"), vec![change("b")], append);
    assert_eq!(
        write,
        Ok(FileWrite { path: "/p/main.sw".to_string(), contents: "ab\n".to_string() })
    );
    assert_eq!(session.get_text_document(&url("/p/main.sw")).unwrap().get_text(), "ab");
}

#[test]
fn writing_changes_the_documents_as_updating_does() {
    let stored = || {
        let mut session = Session::new();
        session.store_document(document("/p/main.sw", "a")).unwrap();
        session
    };
    for path in ["/p/main.sw", "/p/other.sw"] {
        let (mut written, mut updated) = (stored(), stored());
        let write = written.write_changes_to_file(&url(path), vec![change("b")], append);
        let text = updated.update_text_document(&url(path), vec![change("b")], append);
        assert_eq!(write.is_err(), text.is_none());
        assert_eq!(written.documents.entries(), updated.documents.entries());
    }
}

#[test]
fn changes_at_once_come_to_what_they_come_to_one_by_one() {
    let stored = || {
        let mut session = Session::new();
        session.store_document(document("/p/main.sw", "a")).unwrap();
        session
    };
    let (mut one_by_one, mut at_once) = (stored(), stored());
    let main = url("/p/main.sw");
    one_by_one.update_text_document(&main, vec![change("b"), change("c")], append);
    assert_eq!(
        one_by_one.update_text_document(&main, vec![change("d")], append),
        at_once.update_text_document(&main, vec![change("b"), change("c"), change("d")], append)
    );
    assert_eq!(one_by_one.documents.entries(), at_once.documents.entries());
}

#[test]
fn changes_to_a_document_that_is_not_stored_are_not_written() {
    let mut session = Session::new();
    let write = session.write_changes_to_file(&url("/p/main.sw"), vec![change("b")], append);
    assert_eq!(
        write,
        Err(LanguageServerError::DocumentError(DocumentError::DocumentNotFound {
            path: "/p/main.sw".to_string()
        }))
    );
}

#[test]
fn a_file_that_cannot_be_written_gives_its_error() {
    let write =
        || FileWrite { path: "/p/main.sw".to_string(), contents: "ab\n".to_string() };
    assert_eq!(write().finish(WriteOutcome::Written), Ok(()));
    assert_eq!(
        write().finish(WriteOutcome::NotCreated { err: "denied".to_string() }),
        Err(LanguageServerError::DocumentError(DocumentError::UnableToCreateFile {
            path: "/p/main.sw".to_string(),
            err: "denied".to_string()
        }))
    );
    assert_eq!(
        write().finish(WriteOutcome::NotWritten { err: "full".to_string() }),
        Err(LanguageServerError::DocumentError(DocumentError::UnableToWriteFile {
            path: "/p/main.sw".to_string(),
            err: "full".to_string()
        }))
    );
}

#[test]
fn an_opened_file_is_stored_once() {
    let mut session = Session::new();
    session.handle_open_file(&url("/p/main.sw"), None);
    assert!(session.get_text_document(&url("/p/main.sw")).is_err());
    session.handle_open_file(&url("/p/main.sw"), Some(document("/p/main.sw", "on disk")));
    session.handle_open_file(&url("/p/main.sw"), Some(document("/p/main.sw", "changed")));
    assert_eq!(session.get_text_document(&url("/p/main.sw")).unwrap().get_text(), "on disk");
}

#[test]
fn formatting_gives_one_edit() {
    let mut session = Session::new();
    session.store_document(document("/p/main.sw", "a  b")).unwrap();
    let squeeze = |text: String| -> Result<String, LanguageServerError> {
        Ok(text.replace("  ", " "))
    };
    assert_eq!(session.format_text(&url("/p/main.sw"), squeeze), Ok(vec!["a b".to_string()]));
}

#[test]
fn formatting_hands_on_the_error_of_the_formatter() {
    let mut session = Session::new();
    session.store_document(document("/p/main.sw", "a")).unwrap();
    let refuse = |_: String| -> Result<String, LanguageServerError> {
        Err(LanguageServerError::FormatError("no".to_string()))
    };
    assert_eq!(
        session.format_text(&url("/p/main.sw"), refuse),
        Err(LanguageServerError::FormatError("no".to_string()))
    );
}

#[test]
fn formatting_needs_a_document() {
    let session = Session::new();
    let keep = |text: String| -> Result<String, LanguageServerError> { Ok(text) };
    assert_eq!(
        session.format_text(&url("/p/main.sw"), keep),
        Err(LanguageServerError::DocumentError(DocumentError::DocumentNotFound {
            path: "/p/main.sw".to_string()
        }))
    );
}

fn session_with_temp_dir() -> Session {
    let mut session = Session::new();
    session.sync.temp_dir = Some("/tmp/p".to_string());
    session
}

#[test]
fn files_are_stored_and_found() {
    let mut session = session_with_temp_dir();
    let files = vec![
        FileRead::Document(document("/tmp/p/a.sw", "a")),
        FileRead::NotUnicode,
        FileRead::Document(document("/tmp/p/b.sw", "b")),
    ];
    assert_eq!(session.store_sway_files(files), Ok(()));
    assert_eq!(session.get_text_document(&url("/tmp/p/a.sw")).unwrap().get_text(), "a");
    assert_eq!(session.get_text_document(&url("/tmp/p/b.sw")).unwrap().get_text(), "b");
}

#[test]
fn files_after_one_that_cannot_be_read_are_not_stored() {
    let mut session = session_with_temp_dir();
    let missing = || DocumentError::DocumentNotFound { path: "/tmp/p/b.sw".to_string() };
    let files = vec![
        FileRead::Document(document("/tmp/p/a.sw", "a")),
        FileRead::Failed(missing()),
        FileRead::Document(document("/tmp/p/c.sw", "c")),
    ];
    assert_eq!(
        session.store_sway_files(files),
        Err(LanguageServerError::DocumentError(missing()))
    );
    assert!(session.get_text_document(&url("/tmp/p/a.sw")).is_ok());
    assert!(session.get_text_document(&url("/tmp/p/c.sw")).is_err());
}

#[test]
fn a_file_with_a_path_that_is_taken_stops_storing() {
    let mut session = session_with_temp_dir();
    session.store_document(document("/tmp/p/a.sw", "before")).unwrap();
    let files = vec![
        FileRead::Document(document("/tmp/p/a.sw", "after")),
        FileRead::Document(document("/tmp/p/b.sw", "b")),
    ];
    assert_eq!(
        session.store_sway_files(files),
        Err(LanguageServerError::DocumentError(DocumentError::DocumentAlreadyStored {
            path: "/tmp/p/a.sw".to_string()
        }))
    );
    assert_eq!(session.get_text_document(&url("/tmp/p/a.sw")).unwrap().get_text(), "after");
    assert!(session.get_text_document(&url("/tmp/p/b.sw")).is_err());
}

#[test]
fn files_are_not_stored_without_a_temporary_directory() {
    let mut session = Session::new();
    let files = vec![FileRead::Document(document("/tmp/p/a.sw", "a"))];
    assert_eq!(
        session.store_sway_files(files),
        Err(LanguageServerError::DirectoryError(DirectoryError::TempDirNotFound))
    );
    assert!(session.get_text_document(&url("/tmp/p/a.sw")).is_err());
}
