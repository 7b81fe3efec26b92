pub mod diagnostic;
pub mod document;
pub mod error;
pub mod laws;
pub mod lsp;
pub mod path;
pub mod program;
pub mod project;
pub mod ranges;
pub mod runnable;
pub mod session;
pub mod sync;
pub mod table;
pub mod token;
pub mod url;
