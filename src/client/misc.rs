use vstd::prelude::*;

use crate::text::str_eq;

verus! {

/// The grant type of a code exchange: `authorization_code`.
#[derive(Debug, Clone, Copy, PartialEq, Eq, Structural, Hash)]
pub struct AuthorizationCode;

impl AuthorizationCode {
    pub const STR: &'static str = "authorization_code";

    pub fn new() -> (r: AuthorizationCode) {
        AuthorizationCode
    }

    pub fn as_str(&self) -> (r: &'static str)
        ensures
            r@ == "authorization_code"@,
    {
        "authorization_code"
    }

    /// The marker, if `s` is its string.
    pub fn parse(s: &str) -> (r: Option<AuthorizationCode>)
        ensures
            r is Some <==> s@ == "authorization_code"@,
    {
        if str_eq(s, "authorization_code") {
            Some(AuthorizationCode::new())
        } else {
            None
        }
    }
}

/// The grant type of a token refresh: `refresh_token`.
#[derive(Debug, Clone, Copy, PartialEq, Eq, Structural, Hash)]
pub struct RefreshToken;

impl RefreshToken {
    pub const STR: &'static str = "refresh_token";

    pub fn new() -> (r: RefreshToken) {
        RefreshToken
    }

    pub fn as_str(&self) -> (r: &'static str)
        ensures
            r@ == "refresh_token"@,
    {
        "refresh_token"
    }

    /// The marker, if `s` is its string.
    pub fn parse(s: &str) -> (r: Option<RefreshToken>)
        ensures
            r is Some <==> s@ == "refresh_token"@,
    {
        if str_eq(s, "refresh_token") {
            Some(RefreshToken::new())
        } else {
            None
        }
    }
}

/// The one token type this client accepts: `Bearer`.
#[derive(Debug, Clone, Copy, PartialEq, Eq, Structural, Hash)]
pub struct Bearer;

impl Bearer {
    pub const STR: &'static str = "Bearer";

    pub fn new() -> (r: Bearer) {
        Bearer
    }

    pub fn as_str(&self) -> (r: &'static str)
        ensures
            r@ == "Bearer"@,
    {
        "Bearer"
    }

    /// The marker, if `s` is its string.
    pub fn parse(s: &str) -> (r: Option<Bearer>)
        ensures
            r is Some <==> s@ == "Bearer"@,
    {
        if str_eq(s, "Bearer") {
            Some(Bearer::new())
        } else {
            None
        }
    }
}

} // verus!
