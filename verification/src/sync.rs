//! The directories that a session keeps in step: the workspace of the user and its temporary copy.
use crate::error::DirectoryError;
use vstd::prelude::*;

verus! {

/// The path of a project directory.
pub type ProjectDirectory = String;

/// A running watcher of the manifest, by the number under which its thread is kept.
#[derive(Clone, Copy, Debug, PartialEq, Eq)]
pub struct WatcherHandle {
    pub id: u64,
}

/// What is known of the directories of a workspace and of the watcher of its manifest.
#[derive(Debug, PartialEq, Eq)]
pub struct SyncWorkspace {
    pub manifest_dir: Option<ProjectDirectory>,
    pub temp_dir: Option<ProjectDirectory>,
    pub notify_join_handle: Option<WatcherHandle>,
    pub should_end: bool,
}

impl SyncWorkspace {
    /// No directory is known and nothing is watched.
    pub fn new() -> (sync: Self)
        ensures
            sync.manifest_dir is None,
            sync.temp_dir is None,
            sync.notify_join_handle is None,
            !sync.should_end,
    {
        SyncWorkspace {
            manifest_dir: None,
            temp_dir: None,
            notify_join_handle: None,
            should_end: false,
        }
    }

    /// The directory of the manifest, or an error if it is not known.
    pub fn manifest_dir(&self) -> (dir: Result<&ProjectDirectory, DirectoryError>)
        ensures
            match self.manifest_dir {
                Some(d) => dir matches Ok(found) && *found == d,
                None => dir == Err::<&ProjectDirectory, _>(DirectoryError::ManifestDirNotFound),
            },
    {
        match &self.manifest_dir {
            Some(dir) => Ok(dir),
            None => Err(DirectoryError::ManifestDirNotFound),
        }
    }

    /// The temporary directory, or an error if it is not known.
    pub fn temp_dir(&self) -> (dir: Result<&ProjectDirectory, DirectoryError>)
        ensures
            match self.temp_dir {
                Some(d) => dir matches Ok(found) && *found == d,
                None => dir == Err::<&ProjectDirectory, _>(DirectoryError::TempDirNotFound),
            },
    {
        match &self.temp_dir {
            Some(dir) => Ok(dir),
            None => Err(DirectoryError::TempDirNotFound),
        }
    }
}

} // verus!
