//! URLs of documents.
use vstd::prelude::*;

verus! {

/// A URL: its text and its path.
///
/// The path is the part of the text that the session takes for the path of a file.
#[derive(Debug, PartialEq, Eq)]
pub struct Url {
    pub text: String,
    pub path: String,
}

/// What `lsp_types::Url::parse` reads in a text: the text of the URL in its normal form and its
/// path, or nothing where the text is no absolute URL.
pub uninterp spec fn parsed_url(text: Seq<char>) -> Option<(Seq<char>, Seq<char>)>;

/// Calls `lsp_types::Url::parse`, and hands out the text (`as_str`) and the path (`path`) of the
/// URL that it gives.
///
/// The contract claims that whether there is a URL, and its two parts, depend on the text alone.
/// It does not say what they are.
#[verifier::external_body]
fn parse_parts(text: &str) -> (parts: Option<(String, String)>)
    ensures
        match parts {
            Some(p) => parsed_url(text@) == Some((p.0@, p.1@)),
            None => parsed_url(text@) is None,
        },
{
    lsp_types::Url::parse(text).ok().map(|url| (url.as_str().to_string(), url.path().to_string()))
}

/// What `lsp_types::Url::from_file_path` makes of the path of a file, on a platform whose path
/// separator is `separator`, and on which `\` separates names in a path or does not: the text of
/// the URL and its path, or nothing where the path is not absolute there.
pub uninterp spec fn file_url(
    separator: char,
    backslash_separates: bool,
    path: Seq<char>,
) -> Option<(Seq<char>, Seq<char>)>;

/// By the rules of Unix, where `/` alone separates names, the path starts at the root.
pub open spec fn from_unix_root(
    separator: char,
    backslash_separates: bool,
    path: Seq<char>,
) -> bool {
    separator == '/' && !backslash_separates && path.len() > 0 && path[0] == '/'
}

/// The text of a URL is the scheme `file`, at most a host, and the path.
pub open spec fn in_file_scheme(text: Seq<char>, path: Seq<char>) -> bool {
    exists|host: Seq<char>| text == #[trigger] ("file://"@ + host) + path
}

/// Calls `lsp_types::Url::from_file_path`, and hands out the text (`as_str`) and the path (`path`)
/// of the URL that it gives, behind what tells the platforms apart: the path separator
/// (`std::path::MAIN_SEPARATOR`), and whether `\` separates names in a path
/// (`std::path::is_separator`).
///
/// The function goes by the rules of the platform for paths. The contract claims that the separator
/// is `/` or `\`; that whether there is a URL, and its two parts, depend on the separator, on
/// whether `\` separates names, and on the path alone; that there is no URL for the empty path,
/// which is absolute nowhere; that by the rules of Unix there is one for a path that starts at the
/// root; and that the text of a URL is the scheme `file`, at most a host, and the path. It does not
/// say how a path is written in a URL.
#[verifier::external_body]
fn file_path_parts(path: &str) -> (made: (char, bool, Option<(String, String)>))
    ensures
        made.0 == '/' || made.0 == '\\',
        match made.2 {
            Some(p) => file_url(made.0, made.1, path@) == Some((p.0@, p.1@)) && in_file_scheme(
                p.0@,
                p.1@,
            ) && path@.len() > 0,
            None => file_url(made.0, made.1, path@) is None && !from_unix_root(
                made.0,
                made.1,
                path@,
            ),
        },
{
    (
        std::path::MAIN_SEPARATOR,
        std::path::is_separator('\\'),
        lsp_types::Url::from_file_path(path).ok().map(
            |url| (url.as_str().to_string(), url.path().to_string()),
        ),
    )
}

/// The text and the path of a URL, if there is one.
pub open spec fn url_parts(url: Option<Url>) -> Option<(Seq<char>, Seq<char>)> {
    match url {
        Some(u) => Some((u.text@, u.path@)),
        None => None,
    }
}

/// `url` is what some platform takes for the URL of the file at `path`. On Unix there is one for a
/// path that starts at the root; there is none for the empty path. Its scheme is `file`.
pub open spec fn is_url_of_file(path: Seq<char>, url: Option<Url>) -> bool {
    &&& exists|separator: char, backslash_separates: bool|
        (separator == '/' || separator == '\\') && url_parts(url) == #[trigger] file_url(
            separator,
            backslash_separates,
            path,
        ) && (from_unix_root(separator, backslash_separates, path) ==> url is Some)
    &&& path.len() == 0 ==> url is None
    &&& url matches Some(u) ==> in_file_scheme(u.text@, u.path@)
}

impl Url {
    /// The URL that `text` spells, if it is an absolute URL.
    pub fn parse(text: &str) -> (url: Option<Url>)
        ensures
            url_parts(url) == parsed_url(text@),
    {
        match parse_parts(text) {
            Some((text, path)) => Some(Url { text, path }),
            None => None,
        }
    }

    /// The URL of the file at `path`, if the platform takes the path for absolute.
    pub fn from_file_path(path: &str) -> (url: Option<Url>)
        ensures
            is_url_of_file(path@, url),
    {
        let (separator, backslash_separates, parts) = file_path_parts(path);
        let url = match parts {
            Some((text, path)) => Some(Url { text, path }),
            None => None,
        };
        assert(url_parts(url) == file_url(separator, backslash_separates, path@));
        url
    }
}

impl Clone for Url {
    fn clone(&self) -> (url: Self)
        ensures
            url == *self,
    {
        Url { text: self.text.clone(), path: self.path.clone() }
    }
}

} // verus!
