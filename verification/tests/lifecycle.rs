use sway_lsp::diagnostic::Diagnostic;
use sway_lsp::document::{FileRead, TextDocument};
use sway_lsp::error::{DirectoryError, DocumentError, LanguageServerError};
use sway_lsp::lsp::{Position, Range};
use sway_lsp::session::lifecycle::{InitAction, InitEvent, ShutdownAction, WorkspaceDirs};
use sway_lsp::session::Session;
use sway_lsp::sync::WatcherHandle;
use sway_lsp::url::Url;

fn uri() -> Url {
    Url::parse("file:///home/p").unwrap()
}

fn dirs() -> WorkspaceDirs {
    WorkspaceDirs { manifest_dir: "/home/p".to_string(), temp_dir: "/tmp/p".to_string() }
}

fn refused() -> DirectoryError {
    DirectoryError::Failed { reason: "refused".to_string() }
}

#[test]
fn a_new_session_knows_of_nothing() {
    for session in [Session::new(), Session::default()] {
        assert_eq!(session.token_map().entries().len(), 0);
        assert_eq!(session.documents.entries().len(), 0);
        assert_eq!(session.runnables.len(), 0);
        assert_eq!(session.compiled_program.lexed, None);
        assert_eq!(session.compiled_program.parsed, None);
        assert_eq!(session.compiled_program.typed, None);
        assert_eq!(session.parse_permits, 2);
        assert_eq!(session.wait_for_parsing().files.entries().len(), 0);
        assert_eq!(session.sync.manifest_dir(), Err(DirectoryError::ManifestDirNotFound));
        assert_eq!(session.sync.temp_dir(), Err(DirectoryError::TempDirNotFound));
    }
}

#[test]
fn a_session_gets_ready_step_by_step() {
    let mut session = Session::new();
    let uri = uri();
    assert_eq!(
        session.init(&uri, InitEvent::Begin),
        InitAction::CreateTempDir { manifest_dir: "/home/p".to_string() }
    );
    assert_eq!(session.init(&uri, InitEvent::TempDirCreated(Ok(dirs()))), InitAction::CloneManifest);
    assert_eq!(
        session.init(&uri, InitEvent::ManifestCloned(Ok(()))),
        InitAction::ReadFiles { temp_dir: "/tmp/p".to_string() }
    );
    let main = TextDocument::new("/tmp/p/main.sw".to_string(), "script;".to_string());
    let missing = DocumentError::DocumentNotFound { path: "/tmp/p/b.sw".to_string() };
    let files = vec![FileRead::Document(main), FileRead::Failed(missing)];
    assert_eq!(session.init(&uri, InitEvent::FilesRead(files)), InitAction::StartWatch);
    assert_eq!(
        session.init(&uri, InitEvent::WatchStarted(Some(WatcherHandle { id: 4 }))),
        InitAction::Finish(Ok("/home/p".to_string()))
    );
    let stored = Url::parse("file:///tmp/p/main.sw").unwrap();
    assert_eq!(session.get_text_document(&stored).unwrap().get_text(), "script;");
    assert_eq!(session.sync.notify_join_handle, Some(WatcherHandle { id: 4 }));
}

#[test]
fn a_directory_that_cannot_be_made_or_copied_ends_it() {
    let mut session = Session::new();
    let failed = || InitAction::Finish(Err(LanguageServerError::DirectoryError(refused())));
    assert_eq!(session.init(&uri(), InitEvent::TempDirCreated(Err(refused()))), failed());
    assert_eq!(session.init(&uri(), InitEvent::ManifestCloned(Err(refused()))), failed());
    assert_eq!(session.sync.temp_dir, None);
}

#[test]
fn without_directories_no_files_are_read_and_the_client_is_told() {
    let mut session = Session::new();
    assert_eq!(session.init(&uri(), InitEvent::ManifestCloned(Ok(()))), InitAction::StartWatch);
    assert_eq!(
        session.init(&uri(), InitEvent::WatchStarted(None)),
        InitAction::Finish(Err(LanguageServerError::DirectoryError(
            DirectoryError::ManifestDirNotFound
        )))
    );
}

#[test]
fn a_session_waits_for_its_watcher_once() {
    let mut session = Session::new();
    session.init(&uri(), InitEvent::TempDirCreated(Ok(dirs())));
    session.init(&uri(), InitEvent::WatchStarted(Some(WatcherHandle { id: 4 })));
    assert_eq!(
        session.shutdown(),
        vec![
            ShutdownAction::SignalEnd,
            ShutdownAction::JoinWatcher(WatcherHandle { id: 4 }),
            ShutdownAction::RemoveTempDir
        ]
    );
    assert!(session.sync.should_end);
    assert_eq!(session.sync.notify_join_handle, None);
    assert_eq!(
        session.shutdown(),
        vec![ShutdownAction::SignalEnd, ShutdownAction::RemoveTempDir]
    );
    assert_eq!(session.sync.temp_dir(), Ok(&"/tmp/p".to_string()));
}

#[test]
fn the_diagnostics_at_hand_are_copied() {
    let place = Position { line: 1, character: 2 };
    let diagnostic = |message: &str| Diagnostic {
        range: Range { start: place, end: place },
        message: message.to_string(),
    };
    let mut session = Session::new();
    let files = &mut session.diagnostics.files;
    files.insert("/p/a.sw".to_string(), vec![diagnostic("one"), diagnostic("two")]);
    files.insert("/p/b.sw".to_string(), vec![]);
    let copy = session.wait_for_parsing();
    session.diagnostics.files.clear();
    assert_eq!(copy.files.entries().len(), 2);
    assert_eq!(
        copy.files.get(&"/p/a.sw".to_string()),
        Some(&vec![diagnostic("one"), diagnostic("two")])
    );
    assert_eq!(copy.files.get(&"/p/b.sw".to_string()), Some(&vec![]));
}
