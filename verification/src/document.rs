//! Text documents.
use crate::error::DocumentError;
use vstd::prelude::*;

verus! {

/// A text document: the path that it was read from and its text.
#[derive(Debug, PartialEq, Eq)]
pub struct TextDocument {
    pub uri: String,
    pub text: String,
}

impl TextDocument {
    /// The document at the path `uri` with the text `text`.
    pub fn new(uri: String, text: String) -> (document: Self)
        ensures
            document == (TextDocument { uri, text }),
    {
        TextDocument { uri, text }
    }

    /// The path of the document.
    pub fn get_uri(&self) -> (uri: &String)
        ensures
            *uri == self.uri,
    {
        &self.uri
    }

    /// A copy of the text of the document.
    pub fn get_text(&self) -> (text: String)
        ensures
            text == self.text,
    {
        self.text.clone()
    }
}

/// What became of a file that was found in a workspace.
#[derive(Debug, PartialEq, Eq)]
pub enum FileRead {
    /// The path of the file is not Unicode text: the file is passed over.
    NotUnicode,
    /// The file was read.
    Document(TextDocument),
    /// The file could not be read.
    Failed(DocumentError),
}

} // verus!
