//! What holds of a session across its operations.
pub mod documents;
pub mod lifecycle;
pub mod parsing;
pub mod project;
pub mod runnables;
pub mod tokens;
