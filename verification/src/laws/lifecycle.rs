//! What holds of how a session starts and ends.
use crate::diagnostic::DiagnosticMap;
use crate::document::FileRead;
use crate::error::{DirectoryError, LanguageServerError};
use crate::session::lifecycle::{
    init_action, init_sync, shut_down, shutdown_actions, InitAction, InitEvent, ShutdownAction,
    WorkspaceDirs,
};
use crate::session::{CompiledProgram, Session};
use crate::sync::{SyncWorkspace, WatcherHandle};
use crate::token::TokenIdentView;
use crate::url::Url;
use vstd::prelude::*;

verus! {

/// Where every step succeeds, a session gets ready by making a temporary directory, copying the
/// manifest to it, reading the files in it and watching the manifest, in that order; and the
/// client is told the directory of the manifest.
pub proof fn law_init_gets_ready(
    sync: SyncWorkspace,
    uri: Url,
    dirs: WorkspaceDirs,
    files: Vec<FileRead>,
    handle: Option<WatcherHandle>,
)
    ensures
        ({
            let made = InitEvent::TempDirCreated(Ok(dirs));
            let cloned = InitEvent::ManifestCloned(Ok(()));
            let read = InitEvent::FilesRead(files);
            let watched = InitEvent::WatchStarted(handle);
            let sync0 = init_sync(sync, InitEvent::Begin);
            let sync1 = init_sync(sync0, made);
            let sync2 = init_sync(sync1, cloned);
            let sync3 = init_sync(sync2, read);
            let sync4 = init_sync(sync3, watched);
            &&& init_action(sync, uri, InitEvent::Begin) == InitAction::CreateTempDir {
                manifest_dir: uri.path,
            }
            &&& init_action(sync0, uri, made) == InitAction::CloneManifest
            &&& init_action(sync1, uri, cloned) == InitAction::ReadFiles {
                temp_dir: dirs.temp_dir,
            }
            &&& init_action(sync2, uri, read) == InitAction::StartWatch
            &&& init_action(sync3, uri, watched) == InitAction::Finish(Ok(dirs.manifest_dir))
            &&& sync4 == (SyncWorkspace {
                manifest_dir: Some(dirs.manifest_dir),
                temp_dir: Some(dirs.temp_dir),
                notify_join_handle: handle,
                should_end: sync.should_end,
            })
        }),
{
}

/// Where a directory cannot be made or copied, the client is told why and nothing else is done.
pub proof fn law_init_stops(sync: SyncWorkspace, uri: Url, error: DirectoryError)
    ensures
        init_action(sync, uri, InitEvent::TempDirCreated(Err(error))) == InitAction::Finish(
            Err(LanguageServerError::DirectoryError(error)),
        ),
        init_action(sync, uri, InitEvent::ManifestCloned(Err(error))) == InitAction::Finish(
            Err(LanguageServerError::DirectoryError(error)),
        ),
        init_sync(sync, InitEvent::TempDirCreated(Err(error))) == sync,
        init_sync(sync, InitEvent::ManifestCloned(Err(error))) == sync,
{
}

/// The watcher that was started last is waited for when the session ends, after it has been told
/// to end and before the temporary directory is deleted.
pub proof fn law_watcher_is_joined(sync: SyncWorkspace, handle: WatcherHandle)
    ensures
        shutdown_actions(init_sync(sync, InitEvent::WatchStarted(Some(handle)))) == seq![
            ShutdownAction::SignalEnd,
            ShutdownAction::JoinWatcher(handle),
            ShutdownAction::RemoveTempDir,
        ],
{
}

/// A session can be ended twice: the second time there is no watcher to wait for, and nothing
/// changes.
pub proof fn law_shutdown_twice(sync: SyncWorkspace)
    ensures
        shutdown_actions(shut_down(sync)) == seq![
            ShutdownAction::SignalEnd,
            ShutdownAction::RemoveTempDir,
        ],
        shut_down(shut_down(sync)) == shut_down(sync),
{
}

/// What is to be done next on each event, in every state of the directories.
pub proof fn law_init_steps(
    sync: SyncWorkspace,
    uri: Url,
    dirs: WorkspaceDirs,
    files: Vec<FileRead>,
    handle: Option<WatcherHandle>,
)
    ensures
        init_action(sync, uri, InitEvent::Begin) == (InitAction::CreateTempDir {
            manifest_dir: uri.path,
        }),
        init_action(sync, uri, InitEvent::TempDirCreated(Ok(dirs))) == InitAction::CloneManifest,
        sync.temp_dir matches Some(temp_dir) ==> init_action(
            sync,
            uri,
            InitEvent::ManifestCloned(Ok(())),
        ) == (InitAction::ReadFiles { temp_dir }),
        sync.temp_dir is None ==> init_action(sync, uri, InitEvent::ManifestCloned(Ok(())))
            == InitAction::StartWatch,
        init_action(sync, uri, InitEvent::FilesRead(files)) == InitAction::StartWatch,
        sync.manifest_dir matches Some(manifest_dir) ==> init_action(
            sync,
            uri,
            InitEvent::WatchStarted(handle),
        ) == InitAction::Finish(Ok(manifest_dir)),
        sync.manifest_dir is None ==> init_action(sync, uri, InitEvent::WatchStarted(handle))
            == InitAction::Finish(
            Err(LanguageServerError::DirectoryError(DirectoryError::ManifestDirNotFound)),
        ),
{
}

/// Of what a session knows of its directories, making them sets the two directories, starting to
/// watch sets the watcher, and nothing else changes anything.
pub proof fn law_init_remembers(
    sync: SyncWorkspace,
    dirs: WorkspaceDirs,
    cloned: Result<(), DirectoryError>,
    files: Vec<FileRead>,
    handle: Option<WatcherHandle>,
)
    ensures
        init_sync(sync, InitEvent::Begin) == sync,
        init_sync(sync, InitEvent::ManifestCloned(cloned)) == sync,
        init_sync(sync, InitEvent::FilesRead(files)) == sync,
        init_sync(sync, InitEvent::TempDirCreated(Ok(dirs))) == (SyncWorkspace {
            manifest_dir: Some(dirs.manifest_dir),
            temp_dir: Some(dirs.temp_dir),
            notify_join_handle: sync.notify_join_handle,
            should_end: sync.should_end,
        }),
        init_sync(sync, InitEvent::WatchStarted(handle)) == (SyncWorkspace {
            manifest_dir: sync.manifest_dir,
            temp_dir: sync.temp_dir,
            notify_join_handle: handle,
            should_end: sync.should_end,
        }),
{
}

/// The end is signalled first and the temporary directory is deleted last. Between them the watcher
/// is waited for exactly where there is one. Afterwards there is none, and the directories are as
/// before.
pub proof fn law_shutdown_in_order(sync: SyncWorkspace)
    ensures
        shutdown_actions(sync).first() == ShutdownAction::SignalEnd,
        shutdown_actions(sync).last() == ShutdownAction::RemoveTempDir,
        sync.notify_join_handle is None ==> shutdown_actions(sync).len() == 2,
        sync.notify_join_handle matches Some(handle) ==> shutdown_actions(sync).len() == 3
            && shutdown_actions(sync)[1] == ShutdownAction::JoinWatcher(handle),
        shut_down(sync).should_end,
        shut_down(sync).notify_join_handle is None,
        shut_down(sync).manifest_dir == sync.manifest_dir,
        shut_down(sync).temp_dir == sync.temp_dir,
{
}

/// A new session has empty tables, no program and no directory, and two threads may parse or wait
/// to parse.
pub proof fn law_new_session(session: Session)
    requires
        session.is_new(),
    ensures
        session.wf(),
        session.token_map@.dom() == Set::<TokenIdentView>::empty(),
        session.documents@.dom() == Set::<Seq<char>>::empty(),
        session.runnables@.dom() == Set::<u64>::empty(),
        session.engines.source_paths@.dom() == Set::<u32>::empty(),
        session.diagnostics.files@.dom() == Set::<Seq<char>>::empty(),
        session.compiled_program == (CompiledProgram { lexed: None, parsed: None, typed: None }),
        session.sync == (SyncWorkspace {
            manifest_dir: None,
            temp_dir: None,
            notify_join_handle: None,
            should_end: false,
        }),
        session.parse_permits == 2,
{
    assert(session.diagnostics@.dom() =~= session.diagnostics.files@.dom());
}

/// A session is well-formed exactly where its tables are.
pub proof fn law_session_is_well_formed(session: Session)
    ensures
        session.wf() <==> session.token_map.wf() && session.documents.wf()
            && session.diagnostics.files.wf(),
{
}

/// An operation on documents changes nothing but them, one on runnables nothing but those, and one
/// on the workspace nothing but the documents and the directories.
pub proof fn law_the_rest_stays(after: Session, before: Session)
    ensures
        after.same_but_documents(&before) ==> after == (Session {
            documents: after.documents,
            ..before
        }),
        after.same_but_runnables(&before) ==> after == (Session {
            runnables: after.runnables,
            ..before
        }),
        after.same_but_workspace(&before) ==> after == (Session {
            documents: after.documents,
            sync: after.sync,
            ..before
        }),
{
}

/// Two maps of diagnostics show the same exactly where they have the same files and for each file
/// the same diagnostics in the same order.
pub proof fn law_diagnostics_by_file(a: DiagnosticMap, b: DiagnosticMap)
    ensures
        a@ == b@ <==> a.files@.dom() == b.files@.dom() && forall|path: Seq<char>| #[trigger]
            a.files@.contains_key(path) ==> a.files@[path]@ == b.files@[path]@,
{
    assert(a@.dom() =~= a.files@.dom());
    assert(b@.dom() =~= b.files@.dom());
    if a@ == b@ {
        assert forall|path: Seq<char>| #[trigger]
            a.files@.contains_key(path) implies a.files@[path]@ == b.files@[path]@ by {
            assert(a@[path] == b@[path]);
        }
    }
    if a.files@.dom() == b.files@.dom() && forall|path: Seq<char>| #[trigger]
        a.files@.contains_key(path) ==> a.files@[path]@ == b.files@[path]@ {
        assert(a@ =~= b@);
    }
}

} // verus!
