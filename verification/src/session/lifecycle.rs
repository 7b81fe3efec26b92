//! How a session starts and ends.
//!
//! The work on directories and threads is done outside. The session says what is to be done next,
//! and is told what came of it.
use crate::document::FileRead;
use crate::error::{DirectoryError, LanguageServerError};
use crate::session::documents::stored_files;
use crate::session::Session;
use crate::sync::{ProjectDirectory, SyncWorkspace, WatcherHandle};
use crate::url::Url;
use vstd::prelude::*;

verus! {

/// The directories of a workspace: that of its manifest and its temporary copy.
#[derive(Debug, PartialEq, Eq)]
pub struct WorkspaceDirs {
    pub manifest_dir: ProjectDirectory,
    pub temp_dir: ProjectDirectory,
}

/// What has happened on the way to a session that is ready.
#[derive(Debug, PartialEq, Eq)]
pub enum InitEvent {
    /// A client asks for a session.
    Begin,
    /// A temporary directory for the workspace was to be made.
    TempDirCreated(Result<WorkspaceDirs, DirectoryError>),
    /// The directory of the manifest was to be copied to the temporary directory.
    ManifestCloned(Result<(), DirectoryError>),
    /// The source files in the temporary directory were read.
    FilesRead(Vec<FileRead>),
    /// The manifest was to be watched; there is a watcher if that is possible.
    WatchStarted(Option<WatcherHandle>),
}

/// What is to be done next on the way to a session that is ready.
#[derive(Debug, PartialEq, Eq)]
pub enum InitAction {
    /// Make a temporary directory for the workspace with the manifest in `manifest_dir`.
    CreateTempDir { manifest_dir: ProjectDirectory },
    /// Copy the directory of the manifest to the temporary directory.
    CloneManifest,
    /// Read the source files in the temporary directory.
    ReadFiles { temp_dir: ProjectDirectory },
    /// Start to watch the manifest.
    StartWatch,
    /// Answer the client.
    Finish(Result<ProjectDirectory, LanguageServerError>),
}

/// What is to be done to end a session, in order.
#[derive(Clone, Copy, Debug, PartialEq, Eq)]
pub enum ShutdownAction {
    /// Tell the watcher of the manifest to end.
    SignalEnd,
    /// Wait for the watcher of the manifest to end.
    JoinWatcher(WatcherHandle),
    /// Delete the temporary directory.
    RemoveTempDir,
}

/// What the session does next on `event`.
pub open spec fn init_action(sync: SyncWorkspace, uri: Url, event: InitEvent) -> InitAction {
    match event {
        InitEvent::Begin => InitAction::CreateTempDir { manifest_dir: uri.path },
        InitEvent::TempDirCreated(Ok(_)) => InitAction::CloneManifest,
        InitEvent::TempDirCreated(Err(error)) => InitAction::Finish(
            Err(LanguageServerError::DirectoryError(error)),
        ),
        InitEvent::ManifestCloned(Ok(_)) => match sync.temp_dir {
            Some(temp_dir) => InitAction::ReadFiles { temp_dir },
            None => InitAction::StartWatch,
        },
        InitEvent::ManifestCloned(Err(error)) => InitAction::Finish(
            Err(LanguageServerError::DirectoryError(error)),
        ),
        InitEvent::FilesRead(_) => InitAction::StartWatch,
        InitEvent::WatchStarted(_) => InitAction::Finish(
            match sync.manifest_dir {
                Some(manifest_dir) => Ok(manifest_dir),
                None => Err(
                    LanguageServerError::DirectoryError(DirectoryError::ManifestDirNotFound),
                ),
            },
        ),
    }
}

/// What the session knows of its directories after `event`.
pub open spec fn init_sync(sync: SyncWorkspace, event: InitEvent) -> SyncWorkspace {
    match event {
        InitEvent::TempDirCreated(Ok(dirs)) => SyncWorkspace {
            manifest_dir: Some(dirs.manifest_dir),
            temp_dir: Some(dirs.temp_dir),
            ..sync
        },
        InitEvent::WatchStarted(handle) => SyncWorkspace { notify_join_handle: handle, ..sync },
        _ => sync,
    }
}

/// What is to be done to end a session, in order.
pub open spec fn shutdown_actions(sync: SyncWorkspace) -> Seq<ShutdownAction> {
    match sync.notify_join_handle {
        Some(handle) => seq![
            ShutdownAction::SignalEnd,
            ShutdownAction::JoinWatcher(handle),
            ShutdownAction::RemoveTempDir,
        ],
        None => seq![ShutdownAction::SignalEnd, ShutdownAction::RemoveTempDir],
    }
}

/// What a session that has ended knows of its directories and of the watcher of its manifest.
pub open spec fn shut_down(sync: SyncWorkspace) -> SyncWorkspace {
    SyncWorkspace { should_end: true, notify_join_handle: None, ..sync }
}

impl Session {
    /// Nothing but the documents and the directories differs between the two sessions.
    pub open spec fn same_but_workspace(&self, other: &Session) -> bool {
        &&& self.token_map == other.token_map
        &&& self.runnables == other.runnables
        &&& self.compiled_program == other.compiled_program
        &&& self.engines == other.engines
        &&& self.parse_permits == other.parse_permits
        &&& self.diagnostics == other.diagnostics
    }

    /// Takes note of what has happened on the way to a session for the project at `uri`, and says
    /// what is to be done next.
    ///
    /// A temporary copy of the workspace is made, its source files are stored, its manifest is
    /// watched, and the client is told the directory of the manifest. Where a directory cannot be
    /// made or copied, the client is told so and nothing more is done. Files that cannot be stored
    /// stop nothing.
    pub fn init(&mut self, uri: &Url, event: InitEvent) -> (action: InitAction)
        requires
            old(self).wf(),
        ensures
            final(self).wf(),
            final(self).same_but_workspace(old(self)),
            action == init_action(old(self).sync, *uri, event),
            final(self).sync == init_sync(old(self).sync, event),
            final(self).documents@ == (match event {
                InitEvent::FilesRead(files) if old(self).sync.temp_dir is Some => stored_files(
                    old(self).documents@,
                    files@,
                ).0,
                _ => old(self).documents@,
            }),
    {
        match event {
            InitEvent::Begin => InitAction::CreateTempDir { manifest_dir: uri.path.clone() },
            InitEvent::TempDirCreated(Ok(dirs)) => {
                self.sync.manifest_dir = Some(dirs.manifest_dir);
                self.sync.temp_dir = Some(dirs.temp_dir);
                InitAction::CloneManifest
            },
            InitEvent::TempDirCreated(Err(error)) => InitAction::Finish(
                Err(LanguageServerError::DirectoryError(error)),
            ),
            InitEvent::ManifestCloned(Ok(_)) => match &self.sync.temp_dir {
                Some(temp_dir) => InitAction::ReadFiles { temp_dir: temp_dir.clone() },
                None => InitAction::StartWatch,
            },
            InitEvent::ManifestCloned(Err(error)) => InitAction::Finish(
                Err(LanguageServerError::DirectoryError(error)),
            ),
            InitEvent::FilesRead(files) => {
                let _ = self.store_sway_files(files);
                InitAction::StartWatch
            },
            InitEvent::WatchStarted(handle) => {
                self.sync.notify_join_handle = handle;
                InitAction::Finish(
                    match self.sync.manifest_dir() {
                        Ok(manifest_dir) => Ok(manifest_dir.clone()),
                        Err(error) => Err(LanguageServerError::DirectoryError(error)),
                    },
                )
            },
        }
    }

    /// Ends the session, and says what is to be done for that, in order: the watcher of the
    /// manifest is told to end and, if there is one, waited for; then the temporary directory is
    /// deleted.
    pub fn shutdown(&mut self) -> (actions: Vec<ShutdownAction>)
        ensures
            final(self).sync == shut_down(old(self).sync),
            final(self).same_but_workspace(old(self)),
            final(self).documents == old(self).documents,
            actions@ == shutdown_actions(old(self).sync),
    {
        let mut actions: Vec<ShutdownAction> = Vec::new();
        self.sync.should_end = true;
        actions.push(ShutdownAction::SignalEnd);
        if let Some(join_handle) = self.sync.notify_join_handle.take() {
            actions.push(ShutdownAction::JoinWatcher(join_handle));
        }
        actions.push(ShutdownAction::RemoveTempDir);
        actions
    }
}

} // verus!
