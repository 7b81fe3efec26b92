//! What holds of the documents of a session.
use crate::document::{FileRead, TextDocument};
use crate::error::{DocumentError, LanguageServerError};
use crate::lsp::TextDocumentContentChangeEvent;
use crate::session::documents::{
    changed_by, found, opened, store_result, stored, stored_files, updates, writes, FileWrite,
};
use crate::url::Url;
use vstd::prelude::*;

verus! {

/// A document that has been stored is found under its path, whatever was there before.
pub proof fn law_stored_document_is_found(
    documents: Map<Seq<char>, TextDocument>,
    document: TextDocument,
    url: Url,
)
    requires
        url.path@ == document.uri@,
    ensures
        found(stored(documents, document), url) == Ok::<_, DocumentError>(document),
{
}

/// Storing a document changes nothing at other paths.
pub proof fn law_storing_leaves_other_paths(
    documents: Map<Seq<char>, TextDocument>,
    document: TextDocument,
    url: Url,
)
    requires
        url.path@ != document.uri@,
    ensures
        found(stored(documents, document), url) == found(documents, url),
{
}

/// Of two documents with one path the second is reported as stored already, and takes the place
/// of the first.
pub proof fn law_storing_twice(
    documents: Map<Seq<char>, TextDocument>,
    first: TextDocument,
    second: TextDocument,
)
    requires
        first.uri@ == second.uri@,
    ensures
        store_result(stored(documents, first), second) == Err::<(), _>(
            DocumentError::DocumentAlreadyStored { path: second.uri },
        ),
        stored(stored(documents, first), second) == stored(documents, second),
{
    assert(stored(stored(documents, first), second) =~= stored(documents, second));
}

/// A document is stored without an error exactly where none is found under its path.
pub proof fn law_store_reports_what_is_found(
    documents: Map<Seq<char>, TextDocument>,
    document: TextDocument,
    url: Url,
)
    requires
        url.path@ == document.uri@,
    ensures
        store_result(documents, document) is Ok <==> found(documents, url) is Err,
{
}

/// A document that has been removed is not found any more, and others are found as before.
pub proof fn law_removed_document_is_not_found(
    documents: Map<Seq<char>, TextDocument>,
    removed: Url,
    url: Url,
)
    ensures
        found(documents.remove(removed.path@), url) == (if url.path@ == removed.path@ {
            Err(DocumentError::DocumentNotFound { path: url.path })
        } else {
            found(documents, url)
        }),
{
}

/// Removing a document that was stored without an error leaves the documents as they were.
pub proof fn law_remove_undoes_store(
    documents: Map<Seq<char>, TextDocument>,
    document: TextDocument,
    url: Url,
)
    requires
        url.path@ == document.uri@,
        store_result(documents, document) is Ok,
    ensures
        stored(documents, document).remove(url.path@) == documents,
{
    assert(stored(documents, document).remove(url.path@) =~= documents);
}

/// Opening a file keeps the document that is found under its path.
pub proof fn law_opening_keeps_a_document(
    documents: Map<Seq<char>, TextDocument>,
    url: Url,
    read: Option<TextDocument>,
)
    requires
        found(documents, url) is Ok,
    ensures
        opened(documents, url, read) == documents,
{
}

/// A file that could be read is found once it has been opened, and opening it again changes
/// nothing.
pub proof fn law_opening_twice(
    documents: Map<Seq<char>, TextDocument>,
    url: Url,
    document: TextDocument,
    again: Option<TextDocument>,
)
    requires
        document.uri@ == url.path@,
    ensures
        found(opened(documents, url, Some(document)), url) == (match found(documents, url) {
            Ok(there) => Ok::<_, DocumentError>(there),
            Err(_) => Ok(document),
        }),
        opened(opened(documents, url, Some(document)), url, again) == opened(
            documents,
            url,
            Some(document),
        ),
{
}

/// Without changes a document stays as it is.
pub proof fn law_no_changes<
    F: Fn(TextDocument, &TextDocumentContentChangeEvent) -> TextDocument,
>(states: Seq<TextDocument>, document: TextDocument, apply: F)
    requires
        changed_by(states, document, seq![], apply),
    ensures
        states.last() == document,
{
}

/// Changes that are made in two requests are the same changes made in one.
pub proof fn law_changes_add_up<
    F: Fn(TextDocument, &TextDocumentContentChangeEvent) -> TextDocument,
>(
    first_states: Seq<TextDocument>,
    second_states: Seq<TextDocument>,
    document: TextDocument,
    first: Seq<TextDocumentContentChangeEvent>,
    second: Seq<TextDocumentContentChangeEvent>,
    apply: F,
)
    requires
        changed_by(first_states, document, first, apply),
        changed_by(second_states, first_states.last(), second, apply),
    ensures
        changed_by(first_states + second_states.skip(1), document, first + second, apply),
        (first_states + second_states.skip(1)).last() == second_states.last(),
{
    let states = first_states + second_states.skip(1);
    let changes = first + second;
    assert forall|i: int| 0 <= i < changes.len() implies apply.ensures(
        (states[i], &#[trigger] changes[i]),
        states[i + 1],
    ) by {
        if i < first.len() {
            assert(changes[i] == first[i]);
            assert(states[i + 1] == first_states[i + 1]);
        } else {
            let j = i - first.len();
            assert(changes[i] == second[j]);
            assert(states[i] == second_states[j]);
            assert(states[i + 1] == second_states[j + 1]);
        }
    }
}

/// `apply` gives one result for each document and change.
pub open spec fn applies_one_way<
    F: Fn(TextDocument, &TextDocumentContentChangeEvent) -> TextDocument,
>(apply: F) -> bool {
    forall|
        document: TextDocument,
        change: TextDocumentContentChangeEvent,
        a: TextDocument,
        b: TextDocument,
    |
        #[trigger] apply.ensures((document, &change), a) && #[trigger] apply.ensures(
            (document, &change),
            b,
        ) ==> a == b
}

/// Where each change has one result, so have all of them one after the other.
proof fn lemma_same_states<
    F: Fn(TextDocument, &TextDocumentContentChangeEvent) -> TextDocument,
>(
    a: Seq<TextDocument>,
    b: Seq<TextDocument>,
    document: TextDocument,
    changes: Seq<TextDocumentContentChangeEvent>,
    apply: F,
    n: int,
)
    requires
        applies_one_way(apply),
        changed_by(a, document, changes, apply),
        changed_by(b, document, changes, apply),
        0 <= n <= changes.len(),
    ensures
        a[n] == b[n],
    decreases n,
{
    if n > 0 {
        lemma_same_states(a, b, document, changes, apply, n - 1);
        let change = changes[n - 1];
        assert(apply.ensures((a[n - 1], &change), a[n - 1 + 1]));
        assert(apply.ensures((b[n - 1], &change), b[n - 1 + 1]));
    }
}

/// Two updates of the same documents with the same changes come to the same, where each change has
/// one result.
pub proof fn law_update_is_determined<
    F: Fn(TextDocument, &TextDocumentContentChangeEvent) -> TextDocument,
>(
    before: Map<Seq<char>, TextDocument>,
    url: Url,
    changes: Seq<TextDocumentContentChangeEvent>,
    apply: F,
    first: (Map<Seq<char>, TextDocument>, Option<String>),
    second: (Map<Seq<char>, TextDocument>, Option<String>),
)
    requires
        applies_one_way(apply),
        updates(before, url, changes, apply, first.0, first.1),
        updates(before, url, changes, apply, second.0, second.1),
    ensures
        first == second,
{
    if before.contains_key(url.path@) {
        let document = before[url.path@];
        let a = choose|states: Seq<TextDocument>| #[trigger]
            changed_by(states, document, changes, apply) && first.0 == before.insert(
                url.path@,
                states.last(),
            ) && first.1 == Some(states.last().text);
        let b = choose|states: Seq<TextDocument>| #[trigger]
            changed_by(states, document, changes, apply) && second.0 == before.insert(
                url.path@,
                states.last(),
            ) && second.1 == Some(states.last().text);
        lemma_same_states(a, b, document, changes, apply, changes.len() as int);
    }
}

/// An update without changes changes no document, and gives the text that the document at the path
/// has, if there is one.
pub proof fn law_update_without_changes<
    F: Fn(TextDocument, &TextDocumentContentChangeEvent) -> TextDocument,
>(
    before: Map<Seq<char>, TextDocument>,
    url: Url,
    apply: F,
    after: Map<Seq<char>, TextDocument>,
    text: Option<String>,
)
    requires
        updates(before, url, seq![], apply, after, text),
    ensures
        after == before,
        text == (match found(before, url) {
            Ok(document) => Some(document.text),
            Err(_) => None,
        }),
{
    if before.contains_key(url.path@) {
        assert(before.insert(url.path@, before[url.path@]) =~= before);
    }
}

/// Two updates one after the other are an update with the changes of both.
pub proof fn law_updates_add_up<
    F: Fn(TextDocument, &TextDocumentContentChangeEvent) -> TextDocument,
>(
    before: Map<Seq<char>, TextDocument>,
    url: Url,
    first: Seq<TextDocumentContentChangeEvent>,
    second: Seq<TextDocumentContentChangeEvent>,
    apply: F,
    middle: (Map<Seq<char>, TextDocument>, Option<String>),
    after: (Map<Seq<char>, TextDocument>, Option<String>),
)
    requires
        updates(before, url, first, apply, middle.0, middle.1),
        updates(middle.0, url, second, apply, after.0, after.1),
    ensures
        updates(before, url, first + second, apply, after.0, after.1),
{
    if before.contains_key(url.path@) {
        let document = before[url.path@];
        let a = choose|states: Seq<TextDocument>| #[trigger]
            changed_by(states, document, first, apply) && middle.0 == before.insert(
                url.path@,
                states.last(),
            ) && middle.1 == Some(states.last().text);
        let b = choose|states: Seq<TextDocument>| #[trigger]
            changed_by(states, a.last(), second, apply) && after.0 == middle.0.insert(
                url.path@,
                states.last(),
            ) && after.1 == Some(states.last().text);
        law_changes_add_up(a, b, document, first, second, apply);
        assert(after.0 =~= before.insert(url.path@, b.last()));
    }
}

/// Of two sessions that start with the same documents, one that is updated with `first` and then
/// with `second` ends with the same documents and the same answer as one that is updated with the
/// changes of both at once, where each change has one result.
pub proof fn law_two_updates_are_one<
    F: Fn(TextDocument, &TextDocumentContentChangeEvent) -> TextDocument,
>(
    before: Map<Seq<char>, TextDocument>,
    url: Url,
    first: Seq<TextDocumentContentChangeEvent>,
    second: Seq<TextDocumentContentChangeEvent>,
    apply: F,
    middle: (Map<Seq<char>, TextDocument>, Option<String>),
    after: (Map<Seq<char>, TextDocument>, Option<String>),
    at_once: (Map<Seq<char>, TextDocument>, Option<String>),
)
    requires
        applies_one_way(apply),
        updates(before, url, first, apply, middle.0, middle.1),
        updates(middle.0, url, second, apply, after.0, after.1),
        updates(before, url, first + second, apply, at_once.0, at_once.1),
    ensures
        after == at_once,
{
    law_updates_add_up(before, url, first, second, apply, middle, after);
    law_update_is_determined(before, url, first + second, apply, after, at_once);
}

/// Writing changes the documents as updating does, whatever becomes of the file: it gives an error
/// that names the path exactly where the update gives no text, and what is to be written is that
/// text and a line feed.
pub proof fn law_writing_updates<
    F: Fn(TextDocument, &TextDocumentContentChangeEvent) -> TextDocument,
>(
    before: Map<Seq<char>, TextDocument>,
    uri: Url,
    changes: Seq<TextDocumentContentChangeEvent>,
    apply: F,
    written: (Map<Seq<char>, TextDocument>, Result<FileWrite, LanguageServerError>),
    updated: (Map<Seq<char>, TextDocument>, Option<String>),
)
    requires
        applies_one_way(apply),
        writes(before, uri, changes, apply, written.0, written.1),
        updates(before, uri, changes, apply, updated.0, updated.1),
    ensures
        written.0 == updated.0,
        updated.1 is None <==> written.1 == Err::<FileWrite, _>(
            LanguageServerError::DocumentError(
                DocumentError::DocumentNotFound { path: uri.path },
            ),
        ),
        updated.1 matches Some(text) ==> (written.1 matches Ok(write) && write.path == uri.path
            && write.contents@ == text@ + "\n"@),
{
    if before.contains_key(uri.path@) {
        let document = before[uri.path@];
        let a = choose|states: Seq<TextDocument>| #[trigger]
            changed_by(states, document, changes, apply) && written.0 == before.insert(
                uri.path@,
                states.last(),
            ) && (written.1 matches Ok(write) && write.path == uri.path && write.contents@
                == states.last().text@ + "\n"@);
        let b = choose|states: Seq<TextDocument>| #[trigger]
            changed_by(states, document, changes, apply) && updated.0 == before.insert(
                uri.path@,
                states.last(),
            ) && updated.1 == Some(states.last().text);
        lemma_same_states(a, b, document, changes, apply, changes.len() as int);
    }
}

/// Whether the file was read from `path`.
pub open spec fn has_path(file: FileRead, path: Seq<char>) -> bool {
    file matches FileRead::Document(document) && document.uri@ == path
}

/// Whether one of the files was read from `path`.
pub open spec fn is_among(files: Seq<FileRead>, path: Seq<char>) -> bool {
    exists|i: int| 0 <= i < files.len() && has_path(#[trigger] files[i], path)
}

/// Where storing files gives no error, each of them was read, is found under its path, and had no
/// document there before; nothing changes at other paths.
pub proof fn law_files_are_found(
    documents: Map<Seq<char>, TextDocument>,
    files: Seq<FileRead>,
)
    requires
        stored_files(documents, files).1 is None,
    ensures
        forall|i: int| 0 <= i < files.len() ==> !(#[trigger] files[i] is Failed),
        forall|i: int|
            0 <= i < files.len() ==> (#[trigger] files[i] matches FileRead::Document(document) ==> {
                &&& !documents.contains_key(document.uri@)
                &&& stored_files(documents, files).0.contains_key(document.uri@)
                &&& stored_files(documents, files).0[document.uri@] == document
            }),
        forall|path: Seq<char>|
            !is_among(files, path) ==> {
                &&& #[trigger] stored_files(documents, files).0.contains_key(path)
                    == documents.contains_key(path)
                &&& stored_files(documents, files).0[path] == documents[path]
            },
    decreases files.len(),
{
    if files.len() > 0 {
        let rest = files.skip(1);
        let next = match files[0] {
            FileRead::Document(document) => stored(documents, document),
            _ => documents,
        };
        law_files_are_found(next, rest);
        let after = stored_files(documents, files).0;
        assert(after == stored_files(next, rest).0);
        assert forall|i: int| 0 <= i < files.len() implies !(#[trigger] files[i] is Failed) by {
            if i > 0 {
                assert(files[i] == rest[i - 1]);
            }
        }
        assert forall|i: int| 0 <= i < files.len() implies (
        #[trigger] files[i] matches FileRead::Document(document) ==> {
            &&& !documents.contains_key(document.uri@)
            &&& after.contains_key(document.uri@)
            &&& after[document.uri@] == document
        }) by {
            if i > 0 {
                assert(files[i] == rest[i - 1]);
            } else {
                if let FileRead::Document(document) = files[0] {
                    if is_among(rest, document.uri@) {
                        let j = choose|j: int|
                            0 <= j < rest.len() && has_path(#[trigger] rest[j], document.uri@);
                        assert(!next.contains_key(document.uri@));
                    }
                    assert(after.contains_key(document.uri@) == next.contains_key(document.uri@));
                }
            }
        }
        assert forall|path: Seq<char>| !is_among(files, path) implies {
            &&& #[trigger] after.contains_key(path) == documents.contains_key(path)
            &&& after[path] == documents[path]
        } by {
            if is_among(rest, path) {
                let j = choose|j: int| 0 <= j < rest.len() && has_path(#[trigger] rest[j], path);
                assert(files[j + 1] == rest[j]);
            }
            assert(after.contains_key(path) == next.contains_key(path));
            assert(files[0] == files[0]);
        }
    }
}

/// Files that were all read, with paths that are all new and all different, are stored without an
/// error.
pub proof fn law_new_files_are_stored(
    documents: Map<Seq<char>, TextDocument>,
    files: Seq<FileRead>,
)
    requires
        forall|i: int| 0 <= i < files.len() ==> !(#[trigger] files[i] is Failed),
        forall|i: int|
            0 <= i < files.len() ==> (#[trigger] files[i] matches FileRead::Document(document)
                ==> !documents.contains_key(document.uri@)),
        forall|i: int, j: int|
            0 <= i < j < files.len() ==> (
            #[trigger] files[i] matches FileRead::Document(a) ==> #[trigger] files[j] matches
            FileRead::Document(b) ==> a.uri@ != b.uri@),
    ensures
        stored_files(documents, files).1 is None,
    decreases files.len(),
{
    if files.len() > 0 {
        let rest = files.skip(1);
        let next = match files[0] {
            FileRead::Document(document) => stored(documents, document),
            _ => documents,
        };
        assert forall|i: int| 0 <= i < rest.len() implies !(#[trigger] rest[i] is Failed) by {
            assert(rest[i] == files[i + 1]);
        }
        assert forall|i: int| 0 <= i < rest.len() implies (
        #[trigger] rest[i] matches FileRead::Document(document) ==> !next.contains_key(
            document.uri@,
        )) by {
            assert(rest[i] == files[i + 1]);
            assert(files[0] == files[0]);
        }
        assert forall|i: int, j: int| 0 <= i < j < rest.len() implies (
        #[trigger] rest[i] matches FileRead::Document(a) ==> #[trigger] rest[j] matches
        FileRead::Document(b) ==> a.uri@ != b.uri@) by {
            assert(rest[i] == files[i + 1]);
            assert(rest[j] == files[j + 1]);
        }
        law_new_files_are_stored(next, rest);
        assert(!(files[0] is Failed));
    }
}

/// Once a file has given an error, those after it are not stored.
pub proof fn law_files_after_an_error(
    documents: Map<Seq<char>, TextDocument>,
    files: Seq<FileRead>,
    more: Seq<FileRead>,
)
    requires
        stored_files(documents, files).1 is Some,
    ensures
        stored_files(documents, files + more) == stored_files(documents, files),
    decreases files.len(),
{
    assert((files + more)[0] == files[0]);
    assert((files + more).skip(1) =~= files.skip(1) + more);
    match files[0] {
        FileRead::NotUnicode => {
            law_files_after_an_error(documents, files.skip(1), more);
        },
        FileRead::Failed(_) => {},
        FileRead::Document(document) => {
            if store_result(documents, document) is Ok {
                law_files_after_an_error(stored(documents, document), files.skip(1), more);
            }
        },
    }
}

/// Storing a document puts it at its own path and changes nothing at any other path. It is reported
/// as stored already, with its path, exactly where there was a document at that path.
pub proof fn law_storing_puts_a_document_at_its_path(
    documents: Map<Seq<char>, TextDocument>,
    document: TextDocument,
)
    ensures
        stored(documents, document).contains_key(document.uri@),
        stored(documents, document)[document.uri@] == document,
        forall|path: Seq<char>|
            path != document.uri@ ==> (#[trigger] stored(documents, document).contains_key(path)
                <==> documents.contains_key(path)),
        forall|path: Seq<char>|
            path != document.uri@ && documents.contains_key(path) ==> #[trigger] stored(
                documents,
                document,
            )[path] == documents[path],
        store_result(documents, document) is Ok <==> !documents.contains_key(document.uri@),
        store_result(documents, document) matches Err(error) ==> error
            == (DocumentError::DocumentAlreadyStored { path: document.uri }),
{
}

/// A document is found exactly where there is one at the path of the URL, and it is that one;
/// otherwise the error names the path.
pub proof fn law_finding_goes_by_the_path(documents: Map<Seq<char>, TextDocument>, url: Url)
    ensures
        found(documents, url) is Ok <==> documents.contains_key(url.path@),
        found(documents, url) matches Ok(document) ==> document == documents[url.path@],
        found(documents, url) matches Err(error) ==> error == (DocumentError::DocumentNotFound {
            path: url.path,
        }),
{
}

/// Opening a file stores what was read from it exactly where there is no document at the path of
/// the URL and the file could be read; otherwise nothing changes.
pub proof fn law_opening_stores_what_was_read(
    documents: Map<Seq<char>, TextDocument>,
    url: Url,
    read: Option<TextDocument>,
)
    ensures
        documents.contains_key(url.path@) ==> opened(documents, url, read) == documents,
        read is None ==> opened(documents, url, read) == documents,
        !documents.contains_key(url.path@) ==> (read matches Some(document) ==> opened(
            documents,
            url,
            read,
        ) == documents.insert(document.uri@, document)),
{
}

/// Every change of a request is applied, whatever its range and whatever its place in the list:
/// from the document that was stored, each document after a change is a result of applying that
/// change to the document before it. The last one is stored, and its text is the answer.
pub proof fn law_every_change_is_applied<
    F: Fn(TextDocument, &TextDocumentContentChangeEvent) -> TextDocument,
>(
    before: Map<Seq<char>, TextDocument>,
    url: Url,
    changes: Seq<TextDocumentContentChangeEvent>,
    apply: F,
    after: Map<Seq<char>, TextDocument>,
    text: Option<String>,
)
    requires
        updates(before, url, changes, apply, after, text),
        before.contains_key(url.path@),
    ensures
        exists|states: Seq<TextDocument>|
            states.len() == changes.len() + 1 && states[0] == before[url.path@] && (forall|i: int|
                0 <= i < changes.len() ==> apply.ensures(
                    (states[i], &#[trigger] changes[i]),
                    states[i + 1],
                )) && after == before.insert(url.path@, #[trigger] states.last()) && text == Some(
                states.last().text,
            ),
{
    let states = choose|states: Seq<TextDocument>| #[trigger]
        changed_by(states, before[url.path@], changes, apply) && after == before.insert(
            url.path@,
            states.last(),
        ) && text == Some(states.last().text);
    assert(states[0] == before[url.path@]);
    assert forall|i: int| 0 <= i < changes.len() implies apply.ensures(
        (states[i], &#[trigger] changes[i]),
        states[i + 1],
    ) by {}
    assert(after == before.insert(url.path@, states.last()));
}

/// A request with one change stores a result of applying that change, and answers with its text.
pub proof fn law_one_change_is_applied<
    F: Fn(TextDocument, &TextDocumentContentChangeEvent) -> TextDocument,
>(
    before: Map<Seq<char>, TextDocument>,
    url: Url,
    change: TextDocumentContentChangeEvent,
    apply: F,
    after: Map<Seq<char>, TextDocument>,
    text: Option<String>,
)
    requires
        updates(before, url, seq![change], apply, after, text),
        before.contains_key(url.path@),
    ensures
        exists|document: TextDocument| #[trigger]
            apply.ensures((before[url.path@], &change), document) && after == before.insert(
                url.path@,
                document,
            ) && text == Some(document.text),
{
    let changes = seq![change];
    let states = choose|states: Seq<TextDocument>| #[trigger]
        changed_by(states, before[url.path@], changes, apply) && after == before.insert(
            url.path@,
            states.last(),
        ) && text == Some(states.last().text);
    let first: int = 0;
    assert(apply.ensures((states[first], &changes[first]), states[first + 1]));
    assert(states.last() == states[1]);
}

/// A request for a document that is not stored changes nothing: an update answers with nothing, and
/// a write with an error that names the path.
pub proof fn law_unknown_document_is_not_changed<
    F: Fn(TextDocument, &TextDocumentContentChangeEvent) -> TextDocument,
>(
    before: Map<Seq<char>, TextDocument>,
    url: Url,
    changes: Seq<TextDocumentContentChangeEvent>,
    apply: F,
    after: Map<Seq<char>, TextDocument>,
    text: Option<String>,
    result: Result<FileWrite, LanguageServerError>,
)
    requires
        !before.contains_key(url.path@),
    ensures
        updates(before, url, changes, apply, after, text) ==> after == before && text is None,
        writes(before, url, changes, apply, after, result) ==> after == before && result == Err::<
            FileWrite,
            _,
        >(
            LanguageServerError::DocumentError(
                DocumentError::DocumentNotFound { path: url.path },
            ),
        ),
{
}

/// What is to be written is the text that all changes of the request come to, one after the other,
/// and a line feed, to the path of the document; and the document is stored with that text.
pub proof fn law_what_is_written<
    F: Fn(TextDocument, &TextDocumentContentChangeEvent) -> TextDocument,
>(
    before: Map<Seq<char>, TextDocument>,
    uri: Url,
    changes: Seq<TextDocumentContentChangeEvent>,
    apply: F,
    after: Map<Seq<char>, TextDocument>,
    result: Result<FileWrite, LanguageServerError>,
)
    requires
        writes(before, uri, changes, apply, after, result),
        before.contains_key(uri.path@),
    ensures
        result matches Ok(write) && write.path == uri.path && (exists|states: Seq<TextDocument>|
            states.len() == changes.len() + 1 && states[0] == before[uri.path@] && (forall|i: int|
                0 <= i < changes.len() ==> apply.ensures(
                    (states[i], &#[trigger] changes[i]),
                    states[i + 1],
                )) && after == before.insert(uri.path@, #[trigger] states.last())
                && write.contents@ == states.last().text@ + "\n"@),
{
    let states = choose|states: Seq<TextDocument>| #[trigger]
        changed_by(states, before[uri.path@], changes, apply) && after == before.insert(
            uri.path@,
            states.last(),
        ) && (result matches Ok(write) && write.path == uri.path && write.contents@
            == states.last().text@ + "\n"@);
    assert(states[0] == before[uri.path@]);
    assert forall|i: int| 0 <= i < changes.len() implies apply.ensures(
        (states[i], &#[trigger] changes[i]),
        states[i + 1],
    ) by {}
    assert(after == before.insert(uri.path@, states.last()));
}

/// Storing files is storing the first and then the others: one whose path is not Unicode is passed
/// over, one that could not be read ends it with its error, one whose path has a document replaces
/// it and ends it with an error that names the path, and any other is stored.
pub proof fn law_files_are_stored_one_by_one(
    documents: Map<Seq<char>, TextDocument>,
    files: Seq<FileRead>,
)
    ensures
        files.len() == 0 ==> stored_files(documents, files) == (documents, None::<DocumentError>),
        files.len() > 0 && files[0] is NotUnicode ==> stored_files(documents, files)
            == stored_files(documents, files.skip(1)),
        files.len() > 0 ==> (files[0] matches FileRead::Failed(error) ==> stored_files(
            documents,
            files,
        ) == (documents, Some(error))),
        files.len() > 0 ==> (files[0] matches FileRead::Document(document) ==> stored_files(
            documents,
            files,
        ) == (if documents.contains_key(document.uri@) {
            (
                documents.insert(document.uri@, document),
                Some(DocumentError::DocumentAlreadyStored { path: document.uri }),
            )
        } else {
            stored_files(documents.insert(document.uri@, document), files.skip(1))
        })),
{
}

} // verus!
