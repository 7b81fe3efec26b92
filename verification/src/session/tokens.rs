//! Answers about the tokens of a session.
//!
//! How tokens are looked up in the map, what the compiler knows of one, how a URL of the temporary
//! directory is turned into one of the workspace, and how items are made for the client: that is
//! handed in as functions. What a session makes of their results holds whatever they are.
use crate::lsp::{GotoDefinitionResponse, Location, Position, Range};
use crate::program::{Engines, Namespace, TyFunctionDecl};
use crate::ranges::{sort_by_line, sorted_by_line};
use crate::session::Session;
use crate::sync::SyncWorkspace;
use crate::token::{Token, TokenIdent, TokenMap, TypedAstToken};
use crate::url::{is_url_of_file, Url};
use vstd::prelude::*;
use vstd::utf8::encode_utf8;

verus! {

/// The ranges of the identifiers of `tokens`, in their order.
pub open spec fn ident_ranges(tokens: Seq<(TokenIdent, Token)>) -> Seq<Range> {
    tokens.map_values(|token: (TokenIdent, Token)| token.0.range)
}

/// The ranges of the identifiers of `tokens`, by the lines on which they start; those that start
/// on the same line keep their order.
pub fn sorted_token_ranges(tokens: &Vec<(TokenIdent, Token)>) -> (sorted: Vec<Range>)
    ensures
        sorted_by_line(ident_ranges(tokens@), sorted@),
{
    let mut ranges: Vec<Range> = Vec::new();
    for i in 0..tokens.len()
        invariant
            ranges@ == ident_ranges(tokens@).take(i as int),
    {
        ranges.push(tokens[i].0.range);
        assert(ranges@ =~= ident_ranges(tokens@).take(i + 1));
    }
    assert(ident_ranges(tokens@).take(tokens@.len() as int) =~= ident_ranges(tokens@));
    sort_by_line(&ranges)
}

/// `position` moved back over the bytes of the trigger and by one more.
pub open spec fn shifted_position(position: Position, trigger_char: Seq<char>) -> Position {
    Position {
        line: position.line,
        character: (position.character - encode_utf8(trigger_char).len() - 1) as u32,
    }
}

/// `items` are what the client can complete at `position` in the file at `uri`, where it has typed
/// `trigger_char`: what `to_completion_items` gives for the token before the trigger and the
/// function that it lies in. There are none without such a token, such a function or a typed
/// program.
pub open spec fn completes<
    I,
    A: Fn(&TokenMap, &Url, Position) -> Option<(TokenIdent, Token)>,
    P: Fn(&TokenMap, &Engines, &Url, Position, Option<bool>) -> Vec<(TokenIdent, Token)>,
    C: Fn(&Namespace, &Engines, &TokenIdent, &TyFunctionDecl, Position) -> Vec<I>,
>(
    session: Session,
    uri: Url,
    position: Position,
    trigger_char: Seq<char>,
    token_at_position: A,
    tokens_at_position: P,
    to_completion_items: C,
    items: Option<Vec<I>>,
) -> bool {
    let shifted = shifted_position(position, trigger_char);
    exists|found: Option<(TokenIdent, Token)>| #[trigger]
        token_at_position.ensures((&session.token_map, &uri, shifted), found) && match found {
            None => items is None,
            Some((ident, _)) => exists|functions: Vec<(TokenIdent, Token)>| #[trigger]
                tokens_at_position.ensures(
                    (&session.token_map, &session.engines, &uri, shifted, Some(true)),
                    functions,
                ) && if functions@.len() == 0 {
                    items is None
                } else {
                    match (functions@[0].1.typed, session.compiled_program.typed) {
                        (
                            Some(TypedAstToken::TypedFunctionDeclaration(function)),
                            Some(program),
                        ) => exists|made: Vec<I>| #[trigger]
                            to_completion_items.ensures(
                                (
                                    &program.root.namespace,
                                    &session.engines,
                                    &ident,
                                    &function,
                                    position,
                                ),
                                made,
                            ) && items == Some(made),
                        _ => items is None,
                    }
                },
        }
}

impl Session {
    /// The ranges of all tokens in the file at `url` that refer to what the token at `position`
    /// refers to, by the lines on which they start.
    pub fn token_ranges<
        A: Fn(&TokenMap, &Url, Position) -> Option<(TokenIdent, Token)>,
        T: Fn(&TokenMap, &Url) -> Vec<(TokenIdent, Token)>,
        R: Fn(Vec<(TokenIdent, Token)>, &Token, &Engines) -> Vec<(TokenIdent, Token)>,
    >(
        &self,
        url: &Url,
        position: Position,
        token_at_position: A,
        tokens_for_file: T,
        all_references_of_token: R,
    ) -> (ranges: Option<Vec<Range>>)
        requires
            token_at_position.requires((&self.token_map, url, position)),
            tokens_for_file.requires((&self.token_map, url)),
            forall|tokens: Vec<(TokenIdent, Token)>, token: Token| #[trigger]
                all_references_of_token.requires((tokens, &token, &self.engines)),
        ensures
            exists|found: Option<(TokenIdent, Token)>| #[trigger]
                token_at_position.ensures((&self.token_map, url, position), found) && match found {
                    None => ranges is None,
                    Some((_, token)) => exists|
                        tokens: Vec<(TokenIdent, Token)>,
                        references: Vec<(TokenIdent, Token)>,
                    |
                        tokens_for_file.ensures((&self.token_map, url), tokens) && #[trigger]
                            all_references_of_token.ensures(
                            (tokens, &token, &self.engines),
                            references,
                        ) && (ranges matches Some(sorted) && sorted_by_line(
                            ident_ranges(references@),
                            sorted@,
                        )),
                },
    {
        let found = token_at_position(&self.token_map, url, position);
        match found {
            None => None,
            Some((_, token)) => {
                let tokens = tokens_for_file(&self.token_map, url);
                let references = all_references_of_token(tokens, &token, &self.engines);
                Some(sorted_token_ranges(&references))
            },
        }
    }

    /// Where `declaration` stands, in the workspace of the user, given the URL of its file.
    pub fn declaration_location<W: Fn(&SyncWorkspace, Url) -> Option<Url>>(
        &self,
        declaration: &TokenIdent,
        file_url: Option<Url>,
        to_workspace_url: W,
    ) -> (response: Option<GotoDefinitionResponse>)
        requires
            file_url matches Some(url) ==> to_workspace_url.requires((&self.sync, url)),
        ensures
            match file_url {
                None => response is None,
                Some(url) => exists|workspace_url: Option<Url>| #[trigger]
                    to_workspace_url.ensures((&self.sync, url), workspace_url) && response == (
                    match workspace_url {
                        Some(uri) => Some(
                            GotoDefinitionResponse::Scalar(
                                Location { uri, range: declaration.range },
                            ),
                        ),
                        None => None,
                    }),
            },
    {
        match file_url {
            None => None,
            Some(url) => match to_workspace_url(&self.sync, url) {
                Some(uri) => Some(
                    GotoDefinitionResponse::Scalar(Location { uri, range: declaration.range }),
                ),
                None => None,
            },
        }
    }

    /// Where the token at `position` in the file at `uri` is declared, in the workspace of the
    /// user.
    pub fn token_definition_response<
        A: Fn(&TokenMap, &Url, Position) -> Option<(TokenIdent, Token)>,
        D: Fn(&Token, &Engines) -> Option<TokenIdent>,
        W: Fn(&SyncWorkspace, Url) -> Option<Url>,
    >(
        &self,
        uri: Url,
        position: Position,
        token_at_position: A,
        declared_token_ident: D,
        to_workspace_url: W,
    ) -> (response: Option<GotoDefinitionResponse>)
        requires
            token_at_position.requires((&self.token_map, &uri, position)),
            forall|token: Token| #[trigger]
                declared_token_ident.requires((&token, &self.engines)),
            forall|url: Url| #[trigger] to_workspace_url.requires((&self.sync, url)),
        ensures
            exists|found: Option<(TokenIdent, Token)>| #[trigger]
                token_at_position.ensures((&self.token_map, &uri, position), found) && match found {
                    None => response is None,
                    Some((_, token)) => exists|declared: Option<TokenIdent>| #[trigger]
                        declared_token_ident.ensures((&token, &self.engines), declared)
                            && match declared {
                            None => response is None,
                            Some(declaration) => match declaration.path {
                                None => response is None,
                                Some(path) => exists|file_url: Option<Url>|
                                    #[trigger] is_url_of_file(path.text@, file_url)
                                        && match file_url {
                                        None => response is None,
                                        Some(url) => exists|workspace_url: Option<Url>| #[trigger]
                                            to_workspace_url.ensures(
                                                (&self.sync, url),
                                                workspace_url,
                                            ) && response == (match workspace_url {
                                                Some(uri) => Some(
                                                    GotoDefinitionResponse::Scalar(
                                                        Location { uri, range: declaration.range },
                                                    ),
                                                ),
                                                None => None,
                                            }),
                                    },
                            },
                        },
                },
    {
        let found = token_at_position(&self.token_map, &uri, position);
        match found {
            None => None,
            Some((_, token)) => {
                let declared = declared_token_ident(&token, &self.engines);
                match &declared {
                    None => None,
                    Some(declaration) => match &declaration.path {
                        None => None,
                        Some(path) => {
                            let file_url = Url::from_file_path(path.text.as_str());
                            self.declaration_location(declaration, file_url, to_workspace_url)
                        },
                    },
                }
            },
        }
    }

    /// What the client can complete at `position` in the file at `uri`, where it has typed
    /// `trigger_char`.
    ///
    /// The name to complete is the token before the trigger; there are items only if that token
    /// lies in a function of the typed program.
    pub fn completion_items<
        I,
        A: Fn(&TokenMap, &Url, Position) -> Option<(TokenIdent, Token)>,
        P: Fn(&TokenMap, &Engines, &Url, Position, Option<bool>) -> Vec<(TokenIdent, Token)>,
        C: Fn(&Namespace, &Engines, &TokenIdent, &TyFunctionDecl, Position) -> Vec<I>,
    >(
        &self,
        uri: &Url,
        position: Position,
        trigger_char: &str,
        token_at_position: A,
        tokens_at_position: P,
        to_completion_items: C,
    ) -> (items: Option<Vec<I>>)
        requires
            encode_utf8(trigger_char@).len() + 1 <= position.character,
            token_at_position.requires(
                (&self.token_map, uri, shifted_position(position, trigger_char@)),
            ),
            tokens_at_position.requires(
                (
                    &self.token_map,
                    &self.engines,
                    uri,
                    shifted_position(position, trigger_char@),
                    Some(true),
                ),
            ),
            forall|namespace: Namespace, ident: TokenIdent, function: TyFunctionDecl| #[trigger]
                to_completion_items.requires(
                    (&namespace, &self.engines, &ident, &function, position),
                ),
        ensures
            completes(
                *self,
                *uri,
                position,
                trigger_char@,
                token_at_position,
                tokens_at_position,
                to_completion_items,
                items,
            ),
    {
        let shifted_position = Position {
            line: position.line,
            character: position.character - trigger_char.len() as u32 - 1,
        };
        let found = token_at_position(&self.token_map, uri, shifted_position);
        let (ident_to_complete, _) = match found {
            Some(found) => found,
            None => {
                return None;
            },
        };
        let fn_tokens = tokens_at_position(
            &self.token_map,
            &self.engines,
            uri,
            shifted_position,
            Some(true),
        );
        if fn_tokens.len() == 0 {
            return None;
        }
        match (&fn_tokens[0].1.typed, &self.compiled_program.typed) {
            (Some(TypedAstToken::TypedFunctionDeclaration(fn_decl)), Some(program)) => {
                Some(
                    to_completion_items(
                        &program.root.namespace,
                        &self.engines,
                        &ident_to_complete,
                        fn_decl,
                        position,
                    ),
                )
            },
            _ => None,
        }
    }

    /// The symbols of the file at `url`, for a client that knows the workspace of the user.
    pub fn symbol_information<
        I,
        T: Fn(&TokenMap, &Url) -> Vec<(TokenIdent, Token)>,
        W: Fn(&SyncWorkspace, Url) -> Option<Url>,
        S: Fn(Vec<(TokenIdent, Token)>, Url) -> Vec<I>,
    >(
        &self,
        url: &Url,
        tokens_for_file: T,
        to_workspace_url: W,
        to_symbol_information: S,
    ) -> (symbols: Option<Vec<I>>)
        requires
            tokens_for_file.requires((&self.token_map, url)),
            to_workspace_url.requires((&self.sync, *url)),
            forall|tokens: Vec<(TokenIdent, Token)>, url: Url| #[trigger]
                to_symbol_information.requires((tokens, url)),
        ensures
            exists|tokens: Vec<(TokenIdent, Token)>, workspace_url: Option<Url>|
                #![trigger tokens_for_file.ensures((&self.token_map, url), tokens), to_workspace_url.ensures((&self.sync, *url), workspace_url)]
                tokens_for_file.ensures((&self.token_map, url), tokens)
                    && to_workspace_url.ensures((&self.sync, *url), workspace_url)
                    && match workspace_url {
                    None => symbols is None,
                    Some(workspace_url) => exists|made: Vec<I>| #[trigger]
                        to_symbol_information.ensures((tokens, workspace_url), made) && symbols
                            == Some(made),
                },
    {
        let tokens = tokens_for_file(&self.token_map, url);
        match to_workspace_url(&self.sync, url.clone()) {
            Some(url) => Some(to_symbol_information(tokens, url)),
            None => None,
        }
    }
}

} // verus!
