//! The errors of a session.
use vstd::prelude::*;

verus! {

/// What goes wrong with a document or with the files that describe a project.
#[derive(Debug, PartialEq, Eq)]
pub enum DocumentError {
    DocumentNotFound { path: String },
    DocumentAlreadyStored { path: String },
    UnableToCreateFile { path: String, err: String },
    UnableToWriteFile { path: String, err: String },
    ManifestFileNotFound { dir: String },
    MemberManifestsFailed { dir: String },
    ManifestsLockPathFailed { dir: String },
}

/// What goes wrong with the directories of a workspace.
#[derive(Debug, PartialEq, Eq)]
pub enum DirectoryError {
    ManifestDirNotFound,
    TempDirNotFound,
    Failed { reason: String },
}

/// What goes wrong in the language server.
#[derive(Debug, PartialEq, Eq)]
pub enum LanguageServerError {
    DocumentError(DocumentError),
    DirectoryError(DirectoryError),
    BuildPlanFailed(String),
    FailedToCompile(String),
    FailedToParse,
    FormatError(String),
}

} // verus!
