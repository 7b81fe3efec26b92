//! The documents of a session.
use crate::document::{FileRead, TextDocument};
use crate::error::{DirectoryError, DocumentError, LanguageServerError};
use crate::lsp::TextDocumentContentChangeEvent;
use crate::session::Session;
use crate::url::Url;
use vstd::prelude::*;

verus! {

/// The documents once `document` is stored under its path.
pub open spec fn stored(
    documents: Map<Seq<char>, TextDocument>,
    document: TextDocument,
) -> Map<Seq<char>, TextDocument> {
    documents.insert(document.uri@, document)
}

/// The answer to the request to store `document`: an error if its path has a document already.
pub open spec fn store_result(
    documents: Map<Seq<char>, TextDocument>,
    document: TextDocument,
) -> Result<(), DocumentError> {
    if documents.contains_key(document.uri@) {
        Err(DocumentError::DocumentAlreadyStored { path: document.uri })
    } else {
        Ok(())
    }
}

/// The document at the path of `url`, or an error that names the path if there is none.
pub open spec fn found(documents: Map<Seq<char>, TextDocument>, url: Url) -> Result<
    TextDocument,
    DocumentError,
> {
    if documents.contains_key(url.path@) {
        Ok(documents[url.path@])
    } else {
        Err(DocumentError::DocumentNotFound { path: url.path })
    }
}

/// The documents once the file at the path of `url` is open and `read` is what was read from it.
pub open spec fn opened(
    documents: Map<Seq<char>, TextDocument>,
    url: Url,
    read: Option<TextDocument>,
) -> Map<Seq<char>, TextDocument> {
    match read {
        Some(document) if !documents.contains_key(url.path@) => stored(documents, document),
        _ => documents,
    }
}

/// `states` are the states that a document goes through when `apply` makes the changes one after
/// the other.
pub open spec fn changed_by<F: Fn(TextDocument, &TextDocumentContentChangeEvent) -> TextDocument>(
    states: Seq<TextDocument>,
    document: TextDocument,
    changes: Seq<TextDocumentContentChangeEvent>,
    apply: F,
) -> bool {
    &&& states.len() == changes.len() + 1
    &&& states[0] == document
    &&& forall|i: int|
        0 <= i < changes.len() ==> apply.ensures(
            (states[i], &#[trigger] changes[i]),
            states[i + 1],
        )
}

/// Making the changes to the document at the path of `url` by `apply` turns the documents `before`
/// into `after`, and gives `text`: the new text of the document, or nothing, with no document
/// changed, if there is none at that path.
pub open spec fn updates<F: Fn(TextDocument, &TextDocumentContentChangeEvent) -> TextDocument>(
    before: Map<Seq<char>, TextDocument>,
    url: Url,
    changes: Seq<TextDocumentContentChangeEvent>,
    apply: F,
    after: Map<Seq<char>, TextDocument>,
    text: Option<String>,
) -> bool {
    if before.contains_key(url.path@) {
        exists|states: Seq<TextDocument>| #[trigger]
            changed_by(states, before[url.path@], changes, apply) && after == before.insert(
                url.path@,
                states.last(),
            ) && text == Some(states.last().text)
    } else {
        text is None && after == before
    }
}

/// Making the changes to the document at the path of `uri` by `apply` turns the documents `before`
/// into `after`, and gives `result`: the new text of the document and a line feed, to be written to
/// its file, or an error that names the path, with no document changed, if there is none.
pub open spec fn writes<F: Fn(TextDocument, &TextDocumentContentChangeEvent) -> TextDocument>(
    before: Map<Seq<char>, TextDocument>,
    uri: Url,
    changes: Seq<TextDocumentContentChangeEvent>,
    apply: F,
    after: Map<Seq<char>, TextDocument>,
    result: Result<FileWrite, LanguageServerError>,
) -> bool {
    if before.contains_key(uri.path@) {
        exists|states: Seq<TextDocument>| #[trigger]
            changed_by(states, before[uri.path@], changes, apply) && after == before.insert(
                uri.path@,
                states.last(),
            ) && (result matches Ok(write) && write.path == uri.path && write.contents@
                == states.last().text@ + "\n"@)
    } else {
        after == before && result == Err::<FileWrite, _>(
            LanguageServerError::DocumentError(
                DocumentError::DocumentNotFound { path: uri.path },
            ),
        )
    }
}

/// What storing the files one after the other makes of the documents, and the error at which it
/// stops, if it stops before the end.
///
/// A file that could not be read stops it, and so does a file whose path has a document already,
/// which is replaced all the same.
pub open spec fn stored_files(
    documents: Map<Seq<char>, TextDocument>,
    files: Seq<FileRead>,
) -> (Map<Seq<char>, TextDocument>, Option<DocumentError>)
    decreases files.len(),
{
    if files.len() == 0 {
        (documents, None)
    } else {
        match files[0] {
            FileRead::NotUnicode => stored_files(documents, files.skip(1)),
            FileRead::Failed(error) => (documents, Some(error)),
            FileRead::Document(document) => match store_result(documents, document) {
                Err(error) => (stored(documents, document), Some(error)),
                Ok(_) => stored_files(stored(documents, document), files.skip(1)),
            },
        }
    }
}

/// A file that is to be created, or emptied, and what is to be written to it.
#[derive(Debug, PartialEq, Eq)]
pub struct FileWrite {
    pub path: String,
    pub contents: String,
}

/// What became of a file that was to be written.
#[derive(Debug, PartialEq, Eq)]
pub enum WriteOutcome {
    NotCreated { err: String },
    NotWritten { err: String },
    Written,
}

impl FileWrite {
    /// The answer to the request that asked for the file to be written.
    pub fn finish(self, outcome: WriteOutcome) -> (result: Result<(), LanguageServerError>)
        ensures
            result == (match outcome {
                WriteOutcome::NotCreated { err } => Err(
                    LanguageServerError::DocumentError(
                        DocumentError::UnableToCreateFile { path: self.path, err },
                    ),
                ),
                WriteOutcome::NotWritten { err } => Err(
                    LanguageServerError::DocumentError(
                        DocumentError::UnableToWriteFile { path: self.path, err },
                    ),
                ),
                WriteOutcome::Written => Ok(()),
            }),
    {
        match outcome {
            WriteOutcome::NotCreated { err } => Err(
                LanguageServerError::DocumentError(
                    DocumentError::UnableToCreateFile { path: self.path, err },
                ),
            ),
            WriteOutcome::NotWritten { err } => Err(
                LanguageServerError::DocumentError(
                    DocumentError::UnableToWriteFile { path: self.path, err },
                ),
            ),
            WriteOutcome::Written => Ok(()),
        }
    }
}

impl Session {
    /// Stores the document under its path.
    ///
    /// Where there is a document of that path already, the new one takes its place, and the error
    /// says so.
    pub fn store_document(&mut self, text_document: TextDocument) -> (result: Result<
        (),
        DocumentError,
    >)
        requires
            old(self).wf(),
        ensures
            final(self).wf(),
            final(self).same_but_documents(old(self)),
            final(self).documents@ == stored(old(self).documents@, text_document),
            result == store_result(old(self).documents@, text_document),
    {
        let uri: String = text_document.get_uri().clone();
        match self.documents.insert(uri.clone(), text_document) {
            None => Ok(()),
            Some(_) => Err(DocumentError::DocumentAlreadyStored { path: uri }),
        }
    }

    /// The document at the path of `url`.
    pub fn get_text_document(&self, url: &Url) -> (result: Result<&TextDocument, DocumentError>)
        requires
            self.wf(),
        ensures
            match result {
                Ok(document) => found(self.documents@, *url) == Ok::<_, DocumentError>(*document),
                Err(error) => found(self.documents@, *url) == Err::<TextDocument, _>(error),
            },
    {
        match self.documents.get(&url.path) {
            Some(document) => Ok(document),
            None => Err(DocumentError::DocumentNotFound { path: url.path.clone() }),
        }
    }

    /// Takes the document at the path of `url` out of the session.
    pub fn remove_document(&mut self, url: &Url) -> (result: Result<TextDocument, DocumentError>)
        requires
            old(self).wf(),
        ensures
            final(self).wf(),
            final(self).same_but_documents(old(self)),
            final(self).documents@ == old(self).documents@.remove(url.path@),
            result == found(old(self).documents@, *url),
    {
        match self.documents.remove(&url.path) {
            Some(document) => Ok(document),
            None => Err(DocumentError::DocumentNotFound { path: url.path.clone() }),
        }
    }

    /// Makes the changes to the document at the path of `url`, one after the other, each by
    /// `apply_change`, and hands back its new text.
    pub fn update_text_document<
        F: Fn(TextDocument, &TextDocumentContentChangeEvent) -> TextDocument,
    >(
        &mut self,
        url: &Url,
        changes: Vec<TextDocumentContentChangeEvent>,
        apply_change: F,
    ) -> (text: Option<String>)
        requires
            old(self).wf(),
            forall|document: TextDocument, i: int|
                0 <= i < changes@.len() ==> #[trigger] apply_change.requires(
                    (document, &changes@[i]),
                ),
        ensures
            final(self).wf(),
            final(self).same_but_documents(old(self)),
            updates(
                old(self).documents@,
                *url,
                changes@,
                apply_change,
                final(self).documents@,
                text,
            ),
    {
        match self.documents.remove(&url.path) {
            None => {
                assert(old(self).documents@.remove(url.path@) =~= old(self).documents@);
                None
            },
            Some(stored) => {
                let ghost first = stored;
                let ghost mut states: Seq<TextDocument> = seq![stored];
                let mut document: TextDocument = stored;
                let mut i: usize = 0;
                while i < changes.len()
                    invariant
                        i <= changes@.len(),
                        states.last() == document,
                        changed_by(states, first, changes@.take(i as int), apply_change),
                        forall|document: TextDocument, i: int|
                            0 <= i < changes@.len() ==> #[trigger] apply_change.requires(
                                (document, &changes@[i]),
                            ),
                    decreases changes@.len() - i,
                {
                    let ghost before = states;
                    let ghost done = changes@.take(i as int);
                    let ghost last = document;
                    document = apply_change(document, &changes[i]);
                    proof {
                        states = before.push(document);
                        let next = changes@.take(i + 1);
                        assert forall|j: int| 0 <= j < next.len() implies apply_change.ensures(
                            (states[j], &#[trigger] next[j]),
                            states[j + 1],
                        ) by {
                            if j < i {
                                assert(next[j] == done[j]);
                            }
                        }
                    }
                    i = i + 1;
                }
                assert(changes@.take(i as int) =~= changes@);
                let text: String = document.get_text();
                self.documents.insert(url.path.clone(), document);
                proof {
                    assert(self.documents@ =~= old(self).documents@.insert(
                        url.path@,
                        states.last(),
                    ));
                }
                Some(text)
            },
        }
    }

    /// Makes the changes to the document at the path of `uri`, and says what is to be written to
    /// its file: the new text and a line feed.
    ///
    /// The document changes whether or not the file can be written; what the client is told of
    /// that is up to [`FileWrite::finish`].
    pub fn write_changes_to_file<
        F: Fn(TextDocument, &TextDocumentContentChangeEvent) -> TextDocument,
    >(
        &mut self,
        uri: &Url,
        changes: Vec<TextDocumentContentChangeEvent>,
        apply_change: F,
    ) -> (result: Result<FileWrite, LanguageServerError>)
        requires
            old(self).wf(),
            forall|document: TextDocument, i: int|
                0 <= i < changes@.len() ==> #[trigger] apply_change.requires(
                    (document, &changes@[i]),
                ),
        ensures
            final(self).wf(),
            final(self).same_but_documents(old(self)),
            writes(
                old(self).documents@,
                *uri,
                changes@,
                apply_change,
                final(self).documents@,
                result,
            ),
    {
        match self.update_text_document(uri, changes, apply_change) {
            Some(src) => {
                let mut contents: String = src;
                contents.append("\n");
                Ok(FileWrite { path: uri.path.clone(), contents })
            },
            None => Err(
                LanguageServerError::DocumentError(
                    DocumentError::DocumentNotFound { path: uri.path.clone() },
                ),
            ),
        }
    }

    /// Takes note that the client has opened the file at the path of `uri`.
    ///
    /// `read` is the document that was read from the file, if it could be read. It is stored
    /// unless there is a document at that path already.
    pub fn handle_open_file(&mut self, uri: &Url, read: Option<TextDocument>)
        requires
            old(self).wf(),
        ensures
            final(self).wf(),
            final(self).same_but_documents(old(self)),
            final(self).documents@ == opened(old(self).documents@, *uri, read),
    {
        if !self.documents.contains_key(&uri.path) {
            if let Some(text_document) = read {
                let _ = self.store_document(text_document);
            }
        }
    }

    /// The edits that format the document at the path of `url`, which `get_page_text_edit` gives.
    pub fn format_text<E, F: Fn(String) -> Result<E, LanguageServerError>>(
        &self,
        url: &Url,
        get_page_text_edit: F,
    ) -> (result: Result<Vec<E>, LanguageServerError>)
        requires
            self.wf(),
            self.documents@.contains_key(url.path@) ==> get_page_text_edit.requires(
                (self.documents@[url.path@].text,),
            ),
        ensures
            if self.documents@.contains_key(url.path@) {
                exists|edit: Result<E, LanguageServerError>| #[trigger]
                    get_page_text_edit.ensures((self.documents@[url.path@].text,), edit)
                        && match edit {
                        Ok(e) => result matches Ok(edits) && edits@ == seq![e],
                        Err(error) => result == Err::<Vec<E>, _>(error),
                    }
            } else {
                result == Err::<Vec<E>, _>(
                    LanguageServerError::DocumentError(
                        DocumentError::DocumentNotFound { path: url.path },
                    ),
                )
            },
    {
        match self.documents.get(&url.path) {
            Some(document) => match get_page_text_edit(document.get_text()) {
                Ok(edit) => {
                    let mut edits: Vec<E> = Vec::new();
                    edits.push(edit);
                    assert(edits@ =~= seq![edit]);
                    Ok(edits)
                },
                Err(error) => Err(error),
            },
            None => Err(
                LanguageServerError::DocumentError(
                    DocumentError::DocumentNotFound { path: url.path.clone() },
                ),
            ),
        }
    }

    /// Stores the files that were found in the temporary directory, one after the other, up to the
    /// first that gives an error.
    pub fn store_sway_files(&mut self, files: Vec<FileRead>) -> (result: Result<
        (),
        LanguageServerError,
    >)
        requires
            old(self).wf(),
        ensures
            final(self).wf(),
            final(self).same_but_documents(old(self)),
            if old(self).sync.temp_dir is None {
                final(self).documents@ == old(self).documents@ && result == Err::<(), _>(
                    LanguageServerError::DirectoryError(DirectoryError::TempDirNotFound),
                )
            } else {
                final(self).documents@ == stored_files(old(self).documents@, files@).0 && result
                    == (match stored_files(old(self).documents@, files@).1 {
                    Some(error) => Err::<(), _>(LanguageServerError::DocumentError(error)),
                    None => Ok(()),
                })
            },
    {
        if let Err(error) = self.sync.temp_dir() {
            return Err(LanguageServerError::DirectoryError(error));
        }
        assert(files@.skip(0) =~= files@);
        for file in it: files
            invariant
                self.wf(),
                self.same_but_documents(old(self)),
                old(self).sync.temp_dir is Some,
                it.seq() == files@,
                stored_files(self.documents@, files@.skip(it.index() as int)) == stored_files(
                    old(self).documents@,
                    files@,
                ),
        {
            assert(files@.skip(it.index() as int)[0] == file);
            assert(files@.skip(it.index() as int).skip(1) =~= files@.skip(it.index() + 1));
            match file {
                FileRead::NotUnicode => {},
                FileRead::Failed(error) => {
                    return Err(LanguageServerError::DocumentError(error));
                },
                FileRead::Document(document) => {
                    if let Err(error) = self.store_document(document) {
                        return Err(LanguageServerError::DocumentError(error));
                    }
                },
            }
        }
        Ok(())
    }
}

} // verus!
