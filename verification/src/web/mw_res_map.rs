//! The outermost stage: what the client is sent, and what the server logs.
//!
//! An internal [`Error`] never reaches the client. Where the inner stages
//! attached one to their response, that response is dropped and replaced by
//! a status and a JSON body that name only the error's [`ClientError`]
//! category and the request's correlation id. The full error goes into the
//! request's log line, which is made for every request, failed or not.
//!
//! The stage cannot fail: it is a total function.

use crate::ctx::Ctx;
use crate::error::{ClientError, Error, HttpStatus};
use vstd::prelude::*;
use vstd::string::*;

verus! {

/// The response that stands in for one that carried an internal error.
#[derive(Clone, Debug, PartialEq, Eq)]
pub struct ClientErrorResponse {
    /// The status of the response.
    pub status: HttpStatus,
    /// The category that the body names.
    pub client_error: ClientError,
    /// The correlation id that the body names.
    pub req_uuid: String,
    /// The body: a JSON document, see [`client_error_body`].
    pub body: String,
}

/// What the server records of one request.
#[derive(Clone, Debug, PartialEq, Eq)]
pub struct RequestLogLine {
    /// The id that ties this line to the body sent to the client.
    pub correlation_id: String,
    /// The request's method.
    pub method: String,
    /// The request's URI.
    pub uri: String,
    /// The caller's user id, where the request resolved to an identity.
    pub resolved_user_id: Option<u64>,
    /// The internal error attached to the response, in full.
    pub internal_error: Option<Error>,
    /// The category the client was told, where there was an error.
    pub client_error_category: Option<ClientError>,
}

/// What the response mapper decides for one request.
#[derive(Clone, Debug, PartialEq, Eq)]
pub struct ResponseMapping {
    /// The response to send in place of the inner one; `None` where the
    /// inner response is sent as it is.
    pub error_response: Option<ClientErrorResponse>,
    /// The request's log line.
    pub log_line: RequestLogLine,
}

/// The text of the JSON string that stands for `s`, quotes included, as
/// `serde_json` prints it.
pub uninterp spec fn json_string_text(s: Seq<char>) -> Seq<char>;

/// The body of a client error response:
/// `{"error":{"req_uuid":<id>,"type":<category>}}`, both values as JSON
/// strings and without white space.
pub open spec fn client_error_body(client_error: ClientError, req_uuid: Seq<char>) -> Seq<char> {
    "{\"error\":{\"req_uuid\":"@ + json_string_text(req_uuid) + ",\"type\":"@ + json_string_text(
        client_error.spec_name(),
    ) + "}}"@
}

/// Whether `c` stands for itself inside a JSON string: every character but
/// the quote, the backslash and the control characters below the space.
pub open spec fn is_json_plain(c: char) -> bool {
    c != '"' && c != '\\' && ' ' <= c
}

/// Whether every character of `s` stands for itself inside a JSON string.
pub open spec fn json_plain(s: Seq<char>) -> bool {
    forall|i: int| 0 <= i < s.len() ==> is_json_plain(#[trigger] s[i])
}

/// The text `s` between two quotes.
pub open spec fn quoted(s: Seq<char>) -> Seq<char> {
    seq!['"'] + s + seq!['"']
}

/// The body of a client error response, character for character, for a
/// correlation id that needs no escaping:
/// `{"error":{"req_uuid":"<id>","type":"<category>"}}`.
pub open spec fn plain_client_error_body(client_error: ClientError, req_uuid: Seq<char>) -> Seq<
    char,
> {
    "{\"error\":{\"req_uuid\":"@ + quoted(req_uuid) + ",\"type\":"@ + quoted(
        client_error.spec_name(),
    ) + "}}"@
}

/// Whether `c` is a hexadecimal digit in lower case.
pub open spec fn is_lower_hex(c: char) -> bool {
    ('0' <= c && c <= '9') || ('a' <= c && c <= 'f')
}

/// Whether `s` has the form of a correlation id: a version 4 UUID in its
/// hyphenated form, 36 characters in lower case.
pub open spec fn is_correlation_id(s: Seq<char>) -> bool {
    &&& s.len() == 36
    &&& forall|i: int|
        0 <= i < 36 ==> if i == 8 || i == 13 || i == 18 || i == 23 {
            #[trigger] s[i] == '-'
        } else {
            is_lower_hex(s[i])
        }
    &&& s[14] == '4'
    &&& s[19] == '8' || s[19] == '9' || s[19] == 'a' || s[19] == 'b'
}

/// The caller's user id, where there is a caller.
pub open spec fn user_id_of(ctx: Option<Ctx>) -> Option<u64> {
    match ctx {
        Some(ctx) => Some(ctx.spec_user_id()),
        None => None,
    }
}

/// The category a client is told for the error attached to a response.
pub open spec fn client_error_of(error: Option<Error>) -> Option<ClientError> {
    match error {
        Some(e) => Some(e.client_error()),
        None => None,
    }
}

/// Whether `line` records the request with the given correlation id,
/// identity, URI, method and attached error.
pub open spec fn log_line_records(
    line: RequestLogLine,
    req_uuid: Seq<char>,
    ctx: Option<Ctx>,
    uri: Seq<char>,
    req_method: Seq<char>,
    error: Option<Error>,
) -> bool {
    &&& line.correlation_id@ == req_uuid
    &&& line.method@ == req_method
    &&& line.uri@ == uri
    &&& line.resolved_user_id == user_id_of(ctx)
    &&& line.internal_error == error
    &&& line.client_error_category == client_error_of(error)
}

/// Whether `response` is the response sent for the attached `error` under
/// the correlation id `req_uuid`: none for no error, else status and
/// category by the table of [`Error::client_status_and_error`] and the body
/// of [`client_error_body`].
pub open spec fn error_response_for(
    response: Option<ClientErrorResponse>,
    req_uuid: Seq<char>,
    error: Option<Error>,
) -> bool {
    match error {
        None => response is None,
        Some(e) => {
            &&& response matches Some(sent)
            &&& sent.status == e.client_status()
            &&& sent.client_error == e.client_error()
            &&& sent.req_uuid@ == req_uuid
            &&& sent.body@ == client_error_body(e.client_error(), req_uuid)
            &&& json_plain(req_uuid) ==> sent.body@ == plain_client_error_body(
                e.client_error(),
                req_uuid,
            )
        },
    }
}

/// A category's name needs no escaping in JSON.
pub proof fn lemma_category_name_is_json_plain(client_error: ClientError)
    ensures
        json_plain(client_error.spec_name()),
{
    reveal_strlit("LOGIN_FAIL");
    reveal_strlit("NO_AUTH");
    reveal_strlit("INVALID_PARAMS");
    reveal_strlit("SERVICE_ERROR");
}

/// A correlation id needs no escaping in JSON.
pub proof fn lemma_correlation_id_is_json_plain(s: Seq<char>)
    requires
        is_correlation_id(s),
    ensures
        json_plain(s),
{
    assert forall|i: int| 0 <= i < s.len() implies is_json_plain(#[trigger] s[i]) by {
        if i == 8 || i == 13 || i == 18 || i == 23 {
            assert(s[i] == '-');
        } else {
            assert(is_lower_hex(s[i]));
        }
    }
}

/// Makes a fresh correlation id with `uuid::Uuid::new_v4` and prints it with
/// the identifier's `Display`.
///
/// The identifier is random, so the contract states only the form of the
/// text, which holds of every identifier: 32 hexadecimal digits in lower
/// case in groups of 8, 4, 4, 4 and 12 with a hyphen between them, the
/// third group starting with the version digit 4 and the fourth with the
/// variant digit 8, 9, a or b. Nothing is claimed about two ids being
/// different. The call fails only where the operating system cannot supply
/// random bytes.
#[verifier::external_body]
fn new_correlation_id() -> (id: String)
    ensures
        is_correlation_id(id@),
{
    uuid::Uuid::new_v4().to_string()
}

/// Prints `s` as a JSON string with `serde_json`: the `Display` of
/// `serde_json::Value::String`.
///
/// The contract gives the text a name. It says what the text is only where
/// `s` needs no escaping: the library escapes the quote, the backslash and
/// the characters below the space and writes every other character as it
/// is, so such an `s` is printed as itself between two quotes.
#[verifier::external_body]
fn json_string(s: &str) -> (text: String)
    ensures
        text@ == json_string_text(s@),
        json_plain(s@) ==> text@ == quoted(s@),
{
    serde_json::Value::String(s.to_owned()).to_string()
}

/// The body of the response that tells a client the category
/// `client_error` and the correlation id `req_uuid`.
pub fn render_client_error_body(client_error: ClientError, req_uuid: &str) -> (body: String)
    ensures
        body@ == client_error_body(client_error, req_uuid@),
        json_plain(req_uuid@) ==> body@ == plain_client_error_body(client_error, req_uuid@),
{
    let id_text = json_string(req_uuid);
    proof {
        lemma_category_name_is_json_plain(client_error);
    }
    let type_text = json_string(client_error.as_str());
    let mut body = String::from_str("{\"error\":{\"req_uuid\":");
    body.append(id_text.as_str());
    body.append(",\"type\":");
    body.append(type_text.as_str());
    body.append("}}");
    body
}

/// Maps the outcome of a request under a given correlation id.
///
/// `ctx` is the caller's identity where the request resolved to one, `uri`
/// and `req_method` are those of the request, and `error` is the internal
/// error attached to the inner response, if any.
///
/// * With an error, the inner response is replaced: status and category
///   come from [`Error::client_status_and_error`], and the body names the
///   category and `req_uuid` and nothing else. Where `req_uuid` needs no
///   escaping the body is fixed character for character.
/// * Without one, the inner response is sent unchanged.
/// * Either way there is one log line. Its error fields are filled if and
///   only if an error was attached, and the internal error is recorded as
///   it is.
pub fn map_response(
    req_uuid: String,
    ctx: Option<Ctx>,
    uri: String,
    req_method: String,
    error: Option<Error>,
) -> (r: ResponseMapping)
    ensures
        error_response_for(r.error_response, req_uuid@, error),
        log_line_records(r.log_line, req_uuid@, ctx, uri@, req_method@, error),
        r.error_response is Some <==> error is Some,
        r.log_line.internal_error is Some <==> error is Some,
        r.log_line.client_error_category is Some <==> error is Some,
{
    let (error_response, client_error_category) = match error {
        None => (None, None),
        Some(e) => {
            let (status, client_error) = e.client_status_and_error();
            let body = render_client_error_body(client_error, req_uuid.as_str());
            let sent = ClientErrorResponse {
                status,
                client_error,
                req_uuid: req_uuid.clone(),
                body,
            };
            (Some(sent), Some(client_error))
        },
    };
    let resolved_user_id = match ctx {
        Some(ctx) => Some(ctx.user_id()),
        None => None,
    };
    let log_line = RequestLogLine {
        correlation_id: req_uuid,
        method: req_method,
        uri,
        resolved_user_id,
        internal_error: error,
        client_error_category,
    };
    ResponseMapping { error_response, log_line }
}

/// The response mapper: maps the outcome of a request under a fresh
/// correlation id.
///
/// Does what [`map_response`] does, with a correlation id made for this
/// request. The id has the form of [`is_correlation_id`]; it is the one in
/// the log line, and the one in the body where there is a body. Such an id
/// needs no escaping, so the body is fixed character for character.
pub fn main_response_mapper(
    ctx: Option<Ctx>,
    uri: String,
    req_method: String,
    error: Option<Error>,
) -> (r: ResponseMapping)
    ensures
        is_correlation_id(r.log_line.correlation_id@),
        error_response_for(r.error_response, r.log_line.correlation_id@, error),
        r.error_response matches Some(sent) ==> sent.body@ == plain_client_error_body(
            sent.client_error,
            r.log_line.correlation_id@,
        ),
        log_line_records(
            r.log_line,
            r.log_line.correlation_id@,
            ctx,
            uri@,
            req_method@,
            error,
        ),
        r.error_response is Some <==> error is Some,
        r.log_line.internal_error is Some <==> error is Some,
        r.log_line.client_error_category is Some <==> error is Some,
{
    let req_uuid = new_correlation_id();
    proof {
        lemma_correlation_id_is_json_plain(req_uuid@);
    }
    map_response(req_uuid, ctx, uri, req_method, error)
}

} // verus!
