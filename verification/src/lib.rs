//! Per-request authentication pipeline for a cookie-authenticated web service.
//!
//! A request passes through four stages, each a total function with a proved
//! contract:
//!
//! 1. [`web::mw_auth::mv_ctx_resolver`] turns the auth cookie (if any) into a
//!    resolution outcome and decides whether the cookie is evicted;
//! 2. [`web::mw_auth::mv_require_auth`] guards protected routes by that outcome;
//! 3. [`web::mw_auth::ctx_from_request_parts`] hands the resolved identity to a
//!    handler;
//! 4. [`web::mw_res_map::main_response_mapper`] turns an internal error into a
//!    sanitized client response and produces the request's log line.
//!
//! The crate performs no I/O: cookie access, routing and logging sinks belong
//! to the embedding server.

pub mod ctx;
pub mod error;

pub use ctx::Ctx;
pub use error::{ClientError, Error, HttpStatus};
pub mod web;
