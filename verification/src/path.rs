//! Paths of files.
use vstd::prelude::*;

verus! {

/// A path, by the number under which it is kept.
///
/// Two paths have one number exactly where they are the same names in the same order, however they
/// are written: `/p/a.sw` and `/p/./a.sw` have one. A path that has a number need not be Unicode.
pub type PathId = u64;

/// A path that is Unicode text: the number that tells it from others, and how it is written.
#[derive(Debug, PartialEq, Eq)]
pub struct FilePath {
    pub id: PathId,
    pub text: String,
}

} // verus!
