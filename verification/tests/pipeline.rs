use auth_pipeline::web::mw_auth::{
    ctx_from_request_parts, mv_ctx_resolver, mv_require_auth, CtxResolution, AuthDecision,
};
use auth_pipeline::web::mw_res_map::main_response_mapper;
use auth_pipeline::web::routes_login::api_login;
use auth_pipeline::web::AUTH_TOKEN_KEY;
use auth_pipeline::{ClientError, Ctx, Error, HttpStatus};

/// What a request to a protected route comes to: whether the handler ran
/// (and for whom), the status and category sent on failure, and whether the
/// auth cookie was removed. The handler itself succeeds.
struct Served {
    handled_for: Option<u64>,
    refusal: Option<(u16, ClientError)>,
    cookie_removed: bool,
    logged_error: Option<Error>,
    logged_user: Option<u64>,
}

fn serve_protected(cookie: Option<&str>) -> Served {
    let resolution = mv_ctx_resolver(cookie.map(|c| c.to_string()));
    let stored = Some(resolution.outcome);
    let decision = mv_require_auth(ctx_from_request_parts(stored.as_ref()));
    let (handled_for, attached) = match decision {
        AuthDecision::Forward => {
            let ctx = ctx_from_request_parts(stored.as_ref()).unwrap();
            (Some(ctx.user_id()), None)
        }
        AuthDecision::ShortCircuit(e) => (None, Some(e)),
    };
    let ctx = ctx_from_request_parts(stored.as_ref()).ok();
    let mapping = main_response_mapper(ctx, "/api/tickets".to_string(), "GET".to_string(), attached);
    Served {
        handled_for,
        refusal: mapping.error_response.map(|r| (r.status.code(), r.client_error)),
        cookie_removed: resolution.remove_auth_cookie,
        logged_error: mapping.log_line.internal_error,
        logged_user: mapping.log_line.resolved_user_id,
    }
}

#[test]
fn no_cookie_on_protected_route_is_403_no_auth_and_cookie_untouched() {
    let served = serve_protected(None);
    assert_eq!(served.handled_for, None);
    assert_eq!(served.refusal, Some((403, ClientError::NO_AUTH)));
    assert!(!served.cookie_removed);
    assert_eq!(served.logged_error, Some(Error::AuthFailNoAuthTokenCookie));
    assert_eq!(served.logged_user, None);
}

#[test]
fn garbage_cookie_on_protected_route_is_403_no_auth_and_cookie_removed() {
    let served = serve_protected(Some("garbage"));
    assert_eq!(served.handled_for, None);
    assert_eq!(served.refusal, Some((403, ClientError::NO_AUTH)));
    assert!(served.cookie_removed);
    assert_eq!(served.logged_error, Some(Error::AuthFailTokenWrongFormat));
    assert_eq!(served.logged_user, None);
}

#[test]
fn well_formed_cookie_on_protected_route_runs_handler_as_user_42() {
    let served = serve_protected(Some("user-42.any.any"));
    assert_eq!(served.handled_for, Some(42));
    assert_eq!(served.refusal, None);
    assert!(!served.cookie_removed);
    assert_eq!(served.logged_error, None);
    assert_eq!(served.logged_user, Some(42));
}

#[test]
fn same_malformed_token_twice_is_answered_alike() {
    for token in ["garbage", "user-1", "user-18446744073709551616.e.s", ""] {
        let first = serve_protected(Some(token));
        let second = serve_protected(Some(token));
        assert_eq!(first.refusal, Some((403, ClientError::NO_AUTH)));
        assert_eq!(first.refusal, second.refusal);
        assert_eq!(first.cookie_removed, second.cookie_removed);
        assert_eq!(first.logged_error, second.logged_error);
        assert!(first.cookie_removed);
    }
}

#[test]
fn a_bad_request_leaves_nothing_behind_for_the_next() {
    let bad = serve_protected(Some("garbage"));
    let good = serve_protected(Some("user-42.any.any"));
    let bad_again = serve_protected(Some("garbage"));
    assert_eq!(good.handled_for, Some(42));
    assert_eq!(bad.refusal, bad_again.refusal);
    assert_eq!(bad.cookie_removed, bad_again.cookie_removed);
}

#[test]
fn resolver_outcomes() {
    assert_eq!(
        mv_ctx_resolver(None),
        CtxResolution { outcome: Err(Error::AuthFailNoAuthTokenCookie), remove_auth_cookie: false }
    );
    assert_eq!(
        mv_ctx_resolver(Some("user-1.exp.sign".to_string())),
        CtxResolution { outcome: Ok(Ctx::new(1)), remove_auth_cookie: false }
    );
    assert_eq!(
        mv_ctx_resolver(Some("user-1.exp".to_string())),
        CtxResolution { outcome: Err(Error::AuthFailTokenWrongFormat), remove_auth_cookie: true }
    );
    assert_eq!(
        mv_ctx_resolver(Some(String::new())),
        CtxResolution { outcome: Err(Error::AuthFailTokenWrongFormat), remove_auth_cookie: true }
    );
}

#[test]
fn resolver_does_not_validate_expiration_or_signature() {
    let resolution = mv_ctx_resolver(Some("user-8.1970-01-01.forged".to_string()));
    assert_eq!(resolution.outcome, Ok(Ctx::new(8)));
    assert!(!resolution.remove_auth_cookie);
}

#[test]
fn extractor_reads_the_stored_outcome() {
    assert_eq!(ctx_from_request_parts(None), Err(Error::AuthFailCtxNotInRequestExt));
    assert_eq!(ctx_from_request_parts(Some(&Ok(Ctx::new(5)))), Ok(Ctx::new(5)));
    assert_eq!(
        ctx_from_request_parts(Some(&Err(Error::AuthFailNoAuthTokenCookie))),
        Err(Error::AuthFailNoAuthTokenCookie)
    );
    assert_eq!(
        ctx_from_request_parts(Some(&Err(Error::AuthFailTokenWrongFormat))),
        Err(Error::AuthFailTokenWrongFormat)
    );
}

#[test]
fn extractor_gives_the_same_answer_twice() {
    let stored = Ok(Ctx::new(5));
    assert_eq!(ctx_from_request_parts(Some(&stored)), ctx_from_request_parts(Some(&stored)));
    assert_eq!(stored, Ok(Ctx::new(5)));
}

#[test]
fn guard_forwards_identities_and_stops_failures() {
    assert_eq!(mv_require_auth(Ok(Ctx::new(1))), AuthDecision::Forward);
    for e in [
        Error::AuthFailNoAuthTokenCookie,
        Error::AuthFailTokenWrongFormat,
        Error::AuthFailCtxNotInRequestExt,
    ] {
        assert_eq!(mv_require_auth(Err(e)), AuthDecision::ShortCircuit(e));
    }
}

#[test]
fn missing_resolver_is_403_no_auth() {
    let decision = mv_require_auth(ctx_from_request_parts(None));
    assert_eq!(decision, AuthDecision::ShortCircuit(Error::AuthFailCtxNotInRequestExt));
    assert_eq!(
        Error::AuthFailCtxNotInRequestExt.client_status_and_error(),
        (HttpStatus::Forbidden, ClientError::NO_AUTH)
    );
}

#[test]
fn auth_cookie_name() {
    assert_eq!(AUTH_TOKEN_KEY, "auth-token");
}

#[test]
fn login_follows_the_stand_in_rule() {
    assert_eq!(api_login("demo1", "welcome"), Ok("user-1.exp.sign".to_string()));
    assert_eq!(api_login("demo1", "wrong"), Ok("user-1.exp.sign".to_string()));
    assert_eq!(api_login("someone", "wrong"), Ok("user-1.exp.sign".to_string()));
    assert_eq!(api_login("", ""), Ok("user-1.exp.sign".to_string()));
    assert_eq!(api_login("someone", "welcome"), Err(Error::LoginFail));
    assert_eq!(api_login("", "welcome"), Err(Error::LoginFail));
    assert_eq!(api_login("Demo1", "welcome"), Err(Error::LoginFail));
    assert_eq!(api_login("demo1 ", "welcome"), Err(Error::LoginFail));
}

#[test]
fn login_token_resolves_to_user_1() {
    let token = api_login("demo1", "welcome").unwrap();
    let resolution = mv_ctx_resolver(Some(token));
    assert_eq!(resolution.outcome, Ok(Ctx::new(1)));
    assert!(!resolution.remove_auth_cookie);
}
