//! What holds of answers about tokens.
use crate::lsp::{Position, Range};
use crate::program::{Engines, Namespace, TyFunctionDecl};
use crate::ranges::{law_sorting_keeps_the_ranges, on_line, sorted_by_line};
use crate::session::tokens::{completes, ident_ranges, shifted_position};
use crate::session::Session;
use crate::token::{Token, TokenIdent, TokenMap, TypedAstToken};
use crate::url::{file_url, is_url_of_file, url_parts, Url};
use vstd::prelude::*;
use vstd::utf8::encode_utf8;

verus! {

/// Triggers of the same length in bytes move a position back to the same place.
pub proof fn law_trigger_counts_by_its_bytes(position: Position, a: Seq<char>, b: Seq<char>)
    requires
        encode_utf8(a).len() == encode_utf8(b).len(),
    ensures
        shifted_position(position, a) == shifted_position(position, b),
{
}

/// What can be completed depends on the trigger only through its length in bytes: its text is
/// never looked at.
pub proof fn law_completion_ignores_the_trigger<
    I,
    A: Fn(&TokenMap, &Url, Position) -> Option<(TokenIdent, Token)>,
    P: Fn(&TokenMap, &Engines, &Url, Position, Option<bool>) -> Vec<(TokenIdent, Token)>,
    C: Fn(&Namespace, &Engines, &TokenIdent, &TyFunctionDecl, Position) -> Vec<I>,
>(
    session: Session,
    uri: Url,
    position: Position,
    a: Seq<char>,
    b: Seq<char>,
    token_at_position: A,
    tokens_at_position: P,
    to_completion_items: C,
    items: Option<Vec<I>>,
)
    requires
        encode_utf8(a).len() == encode_utf8(b).len(),
        completes(
            session,
            uri,
            position,
            a,
            token_at_position,
            tokens_at_position,
            to_completion_items,
            items,
        ),
    ensures
        completes(
            session,
            uri,
            position,
            b,
            token_at_position,
            tokens_at_position,
            to_completion_items,
            items,
        ),
{
}

/// Two requests at one place, with triggers of the same length in bytes, are answered with the same
/// items, where the functions that are handed in have one result each.
pub proof fn law_completion_is_determined<
    I,
    A: Fn(&TokenMap, &Url, Position) -> Option<(TokenIdent, Token)>,
    P: Fn(&TokenMap, &Engines, &Url, Position, Option<bool>) -> Vec<(TokenIdent, Token)>,
    C: Fn(&Namespace, &Engines, &TokenIdent, &TyFunctionDecl, Position) -> Vec<I>,
>(
    session: Session,
    uri: Url,
    position: Position,
    a: Seq<char>,
    b: Seq<char>,
    token_at_position: A,
    tokens_at_position: P,
    to_completion_items: C,
    first: Option<Vec<I>>,
    second: Option<Vec<I>>,
)
    requires
        encode_utf8(a).len() == encode_utf8(b).len(),
        forall|p: Position, x: Option<(TokenIdent, Token)>, y: Option<(TokenIdent, Token)>|
            #[trigger] token_at_position.ensures((&session.token_map, &uri, p), x)
                && #[trigger] token_at_position.ensures((&session.token_map, &uri, p), y) ==> x
                == y,
        forall|p: Position, x: Vec<(TokenIdent, Token)>, y: Vec<(TokenIdent, Token)>|
            #[trigger] tokens_at_position.ensures(
                (&session.token_map, &session.engines, &uri, p, Some(true)),
                x,
            ) && #[trigger] tokens_at_position.ensures(
                (&session.token_map, &session.engines, &uri, p, Some(true)),
                y,
            ) ==> x == y,
        forall|
            namespace: Namespace,
            ident: TokenIdent,
            function: TyFunctionDecl,
            x: Vec<I>,
            y: Vec<I>,
        |
            #[trigger] to_completion_items.ensures(
                (&namespace, &session.engines, &ident, &function, position),
                x,
            ) && #[trigger] to_completion_items.ensures(
                (&namespace, &session.engines, &ident, &function, position),
                y,
            ) ==> x == y,
        completes(
            session,
            uri,
            position,
            a,
            token_at_position,
            tokens_at_position,
            to_completion_items,
            first,
        ),
        completes(
            session,
            uri,
            position,
            b,
            token_at_position,
            tokens_at_position,
            to_completion_items,
            second,
        ),
    ensures
        first == second,
{
}

/// Where the trigger fits before the position, the place that is looked at is on the same line, and
/// the trigger in bytes and one more lie between it and the position.
pub proof fn law_lookup_is_before_the_trigger(position: Position, trigger_char: Seq<char>)
    requires
        encode_utf8(trigger_char).len() + 1 <= position.character,
    ensures
        shifted_position(position, trigger_char).line == position.line,
        shifted_position(position, trigger_char).character + encode_utf8(trigger_char).len() + 1
            == position.character,
{
}

/// The items are those that `to_completion_items` gives for the token and the function that are
/// found before the trigger, with the names at the root of the typed program and the position of
/// the client. There are items wherever there is such a token, such a function and a typed program.
pub proof fn law_items_are_for_the_token_before_the_trigger<
    I,
    A: Fn(&TokenMap, &Url, Position) -> Option<(TokenIdent, Token)>,
    P: Fn(&TokenMap, &Engines, &Url, Position, Option<bool>) -> Vec<(TokenIdent, Token)>,
    C: Fn(&Namespace, &Engines, &TokenIdent, &TyFunctionDecl, Position) -> Vec<I>,
>(
    session: Session,
    uri: Url,
    position: Position,
    before: Position,
    trigger_char: Seq<char>,
    token_at_position: A,
    tokens_at_position: P,
    to_completion_items: C,
    items: Option<Vec<I>>,
)
    requires
        before.line == position.line,
        before.character + encode_utf8(trigger_char).len() + 1 == position.character,
        completes(
            session,
            uri,
            position,
            trigger_char,
            token_at_position,
            tokens_at_position,
            to_completion_items,
            items,
        ),
    ensures
        exists|found: Option<(TokenIdent, Token)>| #[trigger]
            token_at_position.ensures((&session.token_map, &uri, before), found) && (found is None
                ==> items is None) && (found matches Some(token) ==> exists|
                functions: Vec<(TokenIdent, Token)>,
            | #[trigger]
                tokens_at_position.ensures(
                    (&session.token_map, &session.engines, &uri, before, Some(true)),
                    functions,
                ) && (functions@.len() == 0 ==> items is None) && (session.compiled_program.typed
                    is None ==> items is None) && (functions@.len() > 0 ==> match (
                    functions@[0].1.typed
                ) {
                    Some(TypedAstToken::TypedFunctionDeclaration(function)) => {
                        session.compiled_program.typed matches Some(program) ==> (
                        items matches Some(made) && to_completion_items.ensures(
                            (
                                &program.root.namespace,
                                &session.engines,
                                &token.0,
                                &function,
                                position,
                            ),
                            made,
                        ))
                    },
                    _ => items is None,
                })),
{
    assert(shifted_position(position, trigger_char) == before);
}

/// The ranges that are answered are as many as the references, hold the range of each reference as
/// often as it occurs among them, come in ascending order of the lines on which they start, and on
/// each `line` in the order of the references.
pub proof fn law_every_reference_has_its_range(
    references: Seq<(TokenIdent, Token)>,
    sorted: Seq<Range>,
    line: u32,
)
    requires
        sorted_by_line(ident_ranges(references), sorted),
    ensures
        sorted.len() == references.len(),
        sorted.to_multiset() == references.map_values(
            |reference: (TokenIdent, Token)| reference.0.range,
        ).to_multiset(),
        forall|k: int|
            0 <= k < references.len() ==> sorted.contains((#[trigger] references[k]).0.range),
        forall|i: int, j: int|
            0 <= i <= j < sorted.len() ==> (#[trigger] sorted[i]).start.line <= (
            #[trigger] sorted[j]).start.line,
        sorted.filter(|range: Range| range.start.line == line) == references.map_values(
            |reference: (TokenIdent, Token)| reference.0.range,
        ).filter(|range: Range| range.start.line == line),
{
    let ranges = references.map_values(|reference: (TokenIdent, Token)| reference.0.range);
    assert(ident_ranges(references) =~= ranges);
    law_sorting_keeps_the_ranges(ranges, sorted);
    assert forall|k: int| 0 <= k < references.len() implies sorted.contains(
        (#[trigger] references[k]).0.range,
    ) by {
        broadcast use vstd::seq_lib::group_to_multiset_ensures;

        assert(ranges[k] == references[k].0.range);
        assert(ranges.contains(ranges[k]));
        assert(ranges.to_multiset().count(ranges[k]) > 0);
        assert(sorted.to_multiset().count(ranges[k]) > 0);
    }
    assert(on_line(sorted, line) == on_line(ranges, line));
}

/// Two identifiers are one exactly where they have the same name, the same range, and both have no
/// path or paths with the same number.
pub proof fn law_identifiers_are_told_apart(a: TokenIdent, b: TokenIdent)
    ensures
        a@ == b@ <==> a.name@ == b.name@ && a.range == b.range && match (a.path, b.path) {
            (Some(p), Some(q)) => p.id == q.id,
            (None, None) => true,
            _ => false,
        },
{
}

/// What is taken for the URL of a file is what its path is turned into, on a platform that
/// separates names by `/` or by `\`: there is none for the empty path, and by the rules of Unix
/// there is one for a path from the root.
pub proof fn law_url_of_a_file(path: Seq<char>, url: Option<Url>)
    requires
        is_url_of_file(path, url),
    ensures
        exists|separator: char, backslash_separates: bool|
            (separator == '/' || separator == '\\') && (#[trigger] file_url(
                separator,
                backslash_separates,
                path,
            ) == match url {
                Some(u) => Some((u.text@, u.path@)),
                None => None,
            }) && (separator == '/' && !backslash_separates && path.len() > 0 && path[0] == '/'
                ==> url is Some),
        path.len() == 0 ==> url is None,
        url matches Some(u) ==> exists|host: Seq<char>| u.text@ == #[trigger] ("file://"@ + host)
            + u.path@,
{
}

/// The parts of a URL are its text and its path.
pub proof fn law_parts_of_a_url(url: Option<Url>)
    ensures
        url is None <==> url_parts(url) is None,
        url matches Some(u) ==> url_parts(url) == Some((u.text@, u.path@)),
{
}

} // verus!
