//! Internal failures, the coarse categories shown to clients, and the fixed
//! table that maps the former to the latter.

use vstd::prelude::*;

verus! {

/// Every way a request can fail inside the service.
///
/// The full value is recorded in the server log only; clients see the
/// [`ClientError`] derived from it.
#[derive(Clone, Copy, Debug, PartialEq, Eq, Structural)]
pub enum Error {
    /// The login handler rejected the credentials.
    LoginFail,
    /// The request carried no auth cookie.
    AuthFailNoAuthTokenCookie,
    /// The auth cookie's value is not a well-formed token.
    AuthFailTokenWrongFormat,
    /// No resolution outcome was stored for the request: the resolver stage
    /// did not run before the outcome was read.
    AuthFailCtxNotInRequestExt,
    /// A ticket that does not exist was to be deleted.
    TicketDeleteFailIdNotFound { id: u64 },
}

/// The error category a client is told.
#[allow(non_camel_case_types)]
#[derive(Clone, Copy, Debug, PartialEq, Eq, Structural)]
pub enum ClientError {
    LOGIN_FAIL,
    NO_AUTH,
    INVALID_PARAMS,
    SERVICE_ERROR,
}

/// The HTTP statuses that an error response can carry.
#[derive(Clone, Copy, Debug, PartialEq, Eq, Structural)]
pub enum HttpStatus {
    BadRequest,
    Forbidden,
    InternalServerError,
}

impl ClientError {
    /// The category's name, the text a client reads as the error's type.
    pub open spec fn spec_name(&self) -> Seq<char> {
        match self {
            ClientError::LOGIN_FAIL => "LOGIN_FAIL"@,
            ClientError::NO_AUTH => "NO_AUTH"@,
            ClientError::INVALID_PARAMS => "INVALID_PARAMS"@,
            ClientError::SERVICE_ERROR => "SERVICE_ERROR"@,
        }
    }

    /// The category's name: the variant as it is written.
    pub fn as_str(&self) -> (name: &'static str)
        ensures
            name@ == self.spec_name(),
    {
        match self {
            ClientError::LOGIN_FAIL => "LOGIN_FAIL",
            ClientError::NO_AUTH => "NO_AUTH",
            ClientError::INVALID_PARAMS => "INVALID_PARAMS",
            ClientError::SERVICE_ERROR => "SERVICE_ERROR",
        }
    }
}

impl HttpStatus {
    /// The numeric status code.
    pub open spec fn spec_code(&self) -> u16 {
        match self {
            HttpStatus::BadRequest => 400,
            HttpStatus::Forbidden => 403,
            HttpStatus::InternalServerError => 500,
        }
    }

    /// The numeric status code.
    #[verifier::when_used_as_spec(spec_code)]
    pub fn code(&self) -> (code: u16)
        ensures
            code == self.spec_code(),
    {
        match self {
            HttpStatus::BadRequest => 400,
            HttpStatus::Forbidden => 403,
            HttpStatus::InternalServerError => 500,
        }
    }
}

impl Error {
    /// The error's name: its variant, without what the variant carries.
    pub open spec fn spec_name(&self) -> Seq<char> {
        match self {
            Error::LoginFail => "LoginFail"@,
            Error::AuthFailNoAuthTokenCookie => "AuthFailNoAuthTokenCookie"@,
            Error::AuthFailTokenWrongFormat => "AuthFailTokenWrongFormat"@,
            Error::AuthFailCtxNotInRequestExt => "AuthFailCtxNotInRequestExt"@,
            Error::TicketDeleteFailIdNotFound { .. } => "TicketDeleteFailIdNotFound"@,
        }
    }

    /// The error's name: its variant as it is written, for the server log.
    pub fn as_str(&self) -> (name: &'static str)
        ensures
            name@ == self.spec_name(),
    {
        match self {
            Error::LoginFail => "LoginFail",
            Error::AuthFailNoAuthTokenCookie => "AuthFailNoAuthTokenCookie",
            Error::AuthFailTokenWrongFormat => "AuthFailTokenWrongFormat",
            Error::AuthFailCtxNotInRequestExt => "AuthFailCtxNotInRequestExt",
            Error::TicketDeleteFailIdNotFound { .. } => "TicketDeleteFailIdNotFound",
        }
    }

    /// Whether the error says that the caller's identity is not established.
    pub open spec fn is_auth_failure(&self) -> bool {
        ||| *self is AuthFailNoAuthTokenCookie
        ||| *self is AuthFailTokenWrongFormat
        ||| *self is AuthFailCtxNotInRequestExt
    }

    /// The status of the response that reports this error.
    pub open spec fn client_status(&self) -> HttpStatus {
        if self.is_auth_failure() {
            HttpStatus::Forbidden
        } else if *self is TicketDeleteFailIdNotFound {
            HttpStatus::BadRequest
        } else {
            HttpStatus::InternalServerError
        }
    }

    /// The category under which this error is reported to the client.
    pub open spec fn client_error(&self) -> ClientError {
        if self.is_auth_failure() {
            ClientError::NO_AUTH
        } else if *self is TicketDeleteFailIdNotFound {
            ClientError::INVALID_PARAMS
        } else {
            ClientError::SERVICE_ERROR
        }
    }

    /// Status and client category of this error, by the fixed table:
    /// the three auth failures give 403 and `NO_AUTH`, a missing ticket gives
    /// 400 and `INVALID_PARAMS`, everything else 500 and `SERVICE_ERROR`.
    pub fn client_status_and_error(&self) -> (r: (HttpStatus, ClientError))
        ensures
            r.0 == self.client_status(),
            r.1 == self.client_error(),
    {
        match self {
            Error::AuthFailCtxNotInRequestExt
            | Error::AuthFailNoAuthTokenCookie
            | Error::AuthFailTokenWrongFormat => (HttpStatus::Forbidden, ClientError::NO_AUTH),
            Error::TicketDeleteFailIdNotFound { .. } => (
                HttpStatus::BadRequest,
                ClientError::INVALID_PARAMS,
            ),
            _ => (HttpStatus::InternalServerError, ClientError::SERVICE_ERROR),
        }
    }
}

} // verus!
