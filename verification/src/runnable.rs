//! What a client can run: the main function of a script and the test functions of a program.
use crate::lsp::Range;
use crate::program::TreeType;
use vstd::prelude::*;

verus! {

/// The main function of a script.
#[derive(Debug, PartialEq, Eq)]
pub struct RunnableMainFn {
    pub range: Range,
    pub tree_type: TreeType,
}

/// A test function.
#[derive(Debug, PartialEq, Eq)]
pub struct RunnableTestFn {
    pub range: Range,
    pub tree_type: TreeType,
    pub test_name: Option<String>,
}

/// Something that a client can run.
#[derive(Debug, PartialEq, Eq)]
pub enum Runnable {
    MainFn(RunnableMainFn),
    TestFn(RunnableTestFn),
}

} // verus!
