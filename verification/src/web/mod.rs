//! The stages of the request pipeline.

use vstd::prelude::*;

pub mod mw_auth;
pub mod mw_res_map;
pub mod routes_login;
pub mod token;

verus! {

/// Name of the cookie that carries the auth token.
pub const AUTH_TOKEN_KEY: &'static str = "auth-token";

} // verus!
