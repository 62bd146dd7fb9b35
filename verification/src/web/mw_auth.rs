//! Resolving the caller's identity from the auth cookie, gating protected
//! routes on it, and handing it to handlers.
//!
//! The outcome of the resolution is computed once per request by
//! [`mv_ctx_resolver`]. The server stores it with the request; the guard and
//! the handlers read that stored value and never resolve again.

use crate::ctx::Ctx;
use crate::error::{ClientError, Error, HttpStatus};
use crate::web::token::{
    chars_of, lemma_parse_of_shape, lemma_shape_at_gives_shape, locate_fields, parse_token_spec,
    user_id_of_token,
};
use vstd::prelude::*;

verus! {

/// The token carried by a cookie value, as a specification value.
pub open spec fn token_view(auth_token: Option<String>) -> Option<Seq<char>> {
    match auth_token {
        Some(token) => Some(token@),
        None => None,
    }
}

/// The outcome of resolving a request whose auth cookie holds `auth_token`,
/// or that has no auth cookie.
pub open spec fn resolve_ctx_spec(auth_token: Option<Seq<char>>) -> Result<Ctx, Error> {
    match auth_token {
        None => Err(Error::AuthFailNoAuthTokenCookie),
        Some(token) => match parse_token_spec(token) {
            Some(fields) => Ok(Ctx::spec_new(fields.0)),
            None => Err(Error::AuthFailTokenWrongFormat),
        },
    }
}

/// Whether the auth cookie is taken from the client after a resolution that
/// ended in `outcome`: after every failure but that of a missing cookie.
pub open spec fn evicts_auth_cookie(outcome: Result<Ctx, Error>) -> bool {
    outcome matches Err(e) && e != Error::AuthFailNoAuthTokenCookie
}

/// What the guard of a protected route does with a request.
#[derive(Clone, Copy, Debug, PartialEq, Eq, Structural)]
pub enum AuthDecision {
    /// The request goes on to the protected handler.
    Forward,
    /// The handler is not run; the response carries the error.
    ShortCircuit(Error),
}

/// What the guard decides on a request whose stored outcome, as a handler
/// would extract it, is `ctx`.
pub open spec fn require_auth_spec(ctx: Result<Ctx, Error>) -> AuthDecision {
    match ctx {
        Ok(_) => AuthDecision::Forward,
        Err(e) => AuthDecision::ShortCircuit(e),
    }
}

/// What a handler gets when it asks for the caller's identity and the
/// request's stored outcome is `stored` (`None`: nothing was stored).
pub open spec fn extract_spec(stored: Option<Result<Ctx, Error>>) -> Result<Ctx, Error> {
    match stored {
        None => Err(Error::AuthFailCtxNotInRequestExt),
        Some(outcome) => outcome,
    }
}

/// What the resolver stage decides for one request.
#[derive(Clone, Copy, Debug, PartialEq, Eq)]
pub struct CtxResolution {
    /// The outcome to store with the request, once, for the later stages.
    pub outcome: Result<Ctx, Error>,
    /// Whether the auth cookie is to be removed in the response.
    pub remove_auth_cookie: bool,
}

/// Parses a token of the form `user-<user id>.<expiration>.<signature>` into
/// its three segments.
///
/// Fails with [`Error::AuthFailTokenWrongFormat`] where the token does not
/// follow the grammar of [`crate::web::token`] or its user id does not fit
/// 64 bits: so for anything but three segments, for an empty segment, for a
/// line feed, and for anything in front of `user-`. Expiration and
/// signature are returned as they stand; neither is validated.
pub fn parse_token(token: String) -> (r: Result<(u64, String, String), Error>)
    ensures
        match r {
            Ok((user_id, expiration, signature)) => parse_token_spec(token@) == Some(
                (user_id, expiration@, signature@),
            ),
            Err(e) => e == Error::AuthFailTokenWrongFormat && parse_token_spec(token@) is None,
        },
{
    let text = token.as_str();
    let chars = chars_of(text);
    match locate_fields(&chars) {
        None => Err(Error::AuthFailTokenWrongFormat),
        Some((user_id, d, k)) => {
            let end = chars.len();
            proof {
                lemma_shape_at_gives_shape(token@, d as int, k as int);
                lemma_parse_of_shape(
                    token@,
                    token@.subrange(5, d as int),
                    token@.subrange(d + 1, k as int),
                    token@.subrange(k + 1, end as int),
                );
            }
            let expiration = text.substring_char(d + 1, k).to_owned();
            let signature = text.substring_char(k + 1, end).to_owned();
            Ok((user_id, expiration, signature))
        },
    }
}

/// The resolver stage: resolves the caller's identity from the value of the
/// auth cookie, `None` where the request has no such cookie.
///
/// * No cookie: the outcome is [`Error::AuthFailNoAuthTokenCookie`] and the
///   cookie jar is left alone.
/// * A cookie whose value parses: the outcome is the identity of the token's
///   user; nothing is removed. The token's expiration and signature are not
///   validated.
/// * A cookie whose value does not parse: the outcome is
///   [`Error::AuthFailTokenWrongFormat`] and the cookie is to be removed.
///
/// The stage never stops a request: whatever the outcome, the server stores
/// it and runs the next stage.
pub fn mv_ctx_resolver(auth_token: Option<String>) -> (r: CtxResolution)
    ensures
        r.outcome == resolve_ctx_spec(token_view(auth_token)),
        r.remove_auth_cookie == evicts_auth_cookie(r.outcome),
{
    let outcome = match auth_token {
        None => Err(Error::AuthFailNoAuthTokenCookie),
        Some(token) => match parse_token(token) {
            Ok((user_id, _expiration, _signature)) => Ok(Ctx::new(user_id)),
            Err(e) => Err(e),
        },
    };
    let remove_auth_cookie = match outcome {
        Ok(_) => false,
        Err(Error::AuthFailNoAuthTokenCookie) => false,
        Err(_) => true,
    };
    CtxResolution { outcome, remove_auth_cookie }
}

/// The extractor: the identity a handler works with, read from the outcome
/// stored with the request.
///
/// `stored` is `None` where nothing was stored, which means that the
/// resolver stage did not run: that is reported as
/// [`Error::AuthFailCtxNotInRequestExt`]. A stored failure is handed on as
/// it is, a stored identity likewise. Nothing is changed, so asking twice
/// gives the same answer.
pub fn ctx_from_request_parts(stored: Option<&Result<Ctx, Error>>) -> (r: Result<Ctx, Error>)
    ensures
        r == extract_spec(
            match stored {
                Some(outcome) => Some(*outcome),
                None => None,
            },
        ),
{
    match stored {
        None => Err(Error::AuthFailCtxNotInRequestExt),
        Some(outcome) => *outcome,
    }
}

/// The guard of the protected routes: lets a request with a resolved identity
/// pass and stops every other one with the error that its resolution ended
/// in.
pub fn mv_require_auth(ctx: Result<Ctx, Error>) -> (r: AuthDecision)
    ensures
        r == require_auth_spec(ctx),
{
    match ctx {
        Ok(_) => AuthDecision::Forward,
        Err(e) => AuthDecision::ShortCircuit(e),
    }
}

/// What the guard decides on a request to a protected route, by the
/// request's auth cookie: the cookie is resolved, the outcome stored, read
/// back and put before the guard.
pub open spec fn protected_route_decision(auth_token: Option<Seq<char>>) -> AuthDecision {
    require_auth_spec(extract_spec(Some(resolve_ctx_spec(auth_token))))
}

/// Status and category that a client sees after the guard's decision: none
/// where the request went on to its handler.
pub open spec fn refusal_of(decision: AuthDecision) -> Option<(HttpStatus, ClientError)> {
    match decision {
        AuthDecision::Forward => None,
        AuthDecision::ShortCircuit(e) => Some((e.client_status(), e.client_error())),
    }
}

/// The guard lets a request pass if and only if its cookie holds a token
/// that parses; the handler then works with the identity of the token's
/// user.
pub proof fn lemma_guard_passes_parsed_tokens_only(auth_token: Option<Seq<char>>)
    ensures
        protected_route_decision(auth_token) is Forward <==> auth_token is Some
            && parse_token_spec(auth_token->0) is Some,
        protected_route_decision(auth_token) is Forward ==> extract_spec(
            Some(resolve_ctx_spec(auth_token)),
        ) == Ok::<Ctx, Error>(Ctx::spec_new(user_id_of_token(auth_token->0)->0)),
{
}

/// Resolving ends in one of three states and stays there: an identity, the
/// failure of a missing cookie, or the failure of a malformed token. No
/// other error comes out of the resolver.
pub proof fn lemma_resolver_outcomes(auth_token: Option<Seq<char>>)
    ensures
        resolve_ctx_spec(auth_token) is Ok || resolve_ctx_spec(auth_token) == Err::<Ctx, Error>(
            Error::AuthFailNoAuthTokenCookie,
        ) || resolve_ctx_spec(auth_token) == Err::<Ctx, Error>(Error::AuthFailTokenWrongFormat),
        resolve_ctx_spec(auth_token) == Err::<Ctx, Error>(Error::AuthFailNoAuthTokenCookie)
            <==> auth_token is None,
{
}

/// A request without auth cookie is refused at a protected route with
/// status 403 and category `NO_AUTH`, and no cookie is removed.
pub proof fn lemma_no_cookie_is_refused()
    ensures
        protected_route_decision(None) == AuthDecision::ShortCircuit(
            Error::AuthFailNoAuthTokenCookie,
        ),
        refusal_of(protected_route_decision(None)) == Some(
            (HttpStatus::Forbidden, ClientError::NO_AUTH),
        ),
        !evicts_auth_cookie(resolve_ctx_spec(None)),
{
}

/// A request whose auth cookie does not parse is refused at a protected
/// route with status 403 and category `NO_AUTH`, and the cookie is removed.
pub proof fn lemma_malformed_token_is_refused(token: Seq<char>)
    requires
        parse_token_spec(token) is None,
    ensures
        protected_route_decision(Some(token)) == AuthDecision::ShortCircuit(
            Error::AuthFailTokenWrongFormat,
        ),
        refusal_of(protected_route_decision(Some(token))) == Some(
            (HttpStatus::Forbidden, ClientError::NO_AUTH),
        ),
        evicts_auth_cookie(resolve_ctx_spec(Some(token))),
{
}

/// A request whose auth cookie parses passes the guard of a protected route
/// as the token's user, and the cookie stays.
pub proof fn lemma_parsed_token_passes(token: Seq<char>)
    requires
        parse_token_spec(token) is Some,
    ensures
        protected_route_decision(Some(token)) == AuthDecision::Forward,
        resolve_ctx_spec(Some(token)) == Ok::<Ctx, Error>(
            Ctx::spec_new(user_id_of_token(token)->0),
        ),
        !evicts_auth_cookie(resolve_ctx_spec(Some(token))),
{
}

/// Resolving is a function of the cookie alone: two requests that carry the
/// same malformed token are answered alike, with the same status and the
/// same category, and both lose the cookie. Nothing of one request is kept
/// for the next.
pub proof fn lemma_same_token_same_answer(first: Seq<char>, second: Seq<char>)
    requires
        first == second,
        parse_token_spec(first) is None,
    ensures
        resolve_ctx_spec(Some(first)) == resolve_ctx_spec(Some(second)),
        refusal_of(protected_route_decision(Some(first))) == refusal_of(
            protected_route_decision(Some(second)),
        ),
        evicts_auth_cookie(resolve_ctx_spec(Some(first))) == evicts_auth_cookie(
            resolve_ctx_spec(Some(second)),
        ),
{
}

} // verus!
