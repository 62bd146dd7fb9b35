use auth_pipeline::{ClientError, Ctx, Error, HttpStatus};

#[test]
fn auth_failures_are_forbidden_and_no_auth() {
    for e in [
        Error::AuthFailNoAuthTokenCookie,
        Error::AuthFailTokenWrongFormat,
        Error::AuthFailCtxNotInRequestExt,
    ] {
        assert_eq!(e.client_status_and_error(), (HttpStatus::Forbidden, ClientError::NO_AUTH));
    }
}

#[test]
fn missing_ticket_is_bad_request_and_invalid_params() {
    for id in [0u64, 1, 999, u64::MAX] {
        assert_eq!(
            Error::TicketDeleteFailIdNotFound { id }.client_status_and_error(),
            (HttpStatus::BadRequest, ClientError::INVALID_PARAMS)
        );
    }
}

#[test]
fn login_failure_falls_back_to_service_error() {
    assert_eq!(
        Error::LoginFail.client_status_and_error(),
        (HttpStatus::InternalServerError, ClientError::SERVICE_ERROR)
    );
}

#[test]
fn no_error_is_reported_as_login_fail() {
    for e in [
        Error::LoginFail,
        Error::AuthFailNoAuthTokenCookie,
        Error::AuthFailTokenWrongFormat,
        Error::AuthFailCtxNotInRequestExt,
        Error::TicketDeleteFailIdNotFound { id: 3 },
    ] {
        assert_ne!(e.client_status_and_error().1, ClientError::LOGIN_FAIL);
    }
}

#[test]
fn status_codes() {
    assert_eq!(HttpStatus::BadRequest.code(), 400);
    assert_eq!(HttpStatus::Forbidden.code(), 403);
    assert_eq!(HttpStatus::InternalServerError.code(), 500);
}

#[test]
fn client_error_names() {
    assert_eq!(ClientError::LOGIN_FAIL.as_str(), "LOGIN_FAIL");
    assert_eq!(ClientError::NO_AUTH.as_str(), "NO_AUTH");
    assert_eq!(ClientError::INVALID_PARAMS.as_str(), "INVALID_PARAMS");
    assert_eq!(ClientError::SERVICE_ERROR.as_str(), "SERVICE_ERROR");
}

#[test]
fn error_names() {
    assert_eq!(Error::LoginFail.as_str(), "LoginFail");
    assert_eq!(Error::AuthFailNoAuthTokenCookie.as_str(), "AuthFailNoAuthTokenCookie");
    assert_eq!(Error::AuthFailTokenWrongFormat.as_str(), "AuthFailTokenWrongFormat");
    assert_eq!(Error::AuthFailCtxNotInRequestExt.as_str(), "AuthFailCtxNotInRequestExt");
    assert_eq!(Error::TicketDeleteFailIdNotFound { id: 9 }.as_str(), "TicketDeleteFailIdNotFound");
}

#[test]
fn error_names_are_the_debug_names() {
    for e in [
        Error::LoginFail,
        Error::AuthFailNoAuthTokenCookie,
        Error::AuthFailTokenWrongFormat,
        Error::AuthFailCtxNotInRequestExt,
    ] {
        assert_eq!(e.as_str(), format!("{:?}", e));
    }
    for c in [
        ClientError::LOGIN_FAIL,
        ClientError::NO_AUTH,
        ClientError::INVALID_PARAMS,
        ClientError::SERVICE_ERROR,
    ] {
        assert_eq!(c.as_str(), format!("{:?}", c));
    }
}

#[test]
fn ctx_keeps_its_user_id() {
    assert_eq!(Ctx::new(0).user_id(), 0);
    assert_eq!(Ctx::new(42).user_id(), 42);
    assert_eq!(Ctx::new(u64::MAX).user_id(), u64::MAX);
    assert_eq!(Ctx::new(7), Ctx::new(7));
    assert_ne!(Ctx::new(7), Ctx::new(8));
}
