//! The account endpoints: how a session is carried in cookies.
//!
//! A session travels in two cookies, one for each token. Both are hidden
//! from scripts, sent over secure channels only, never sent across sites,
//! valid for the whole site, and kept for as many minutes as the token's
//! lifetime counts. Logging out sends both again, empty and expired.

use vstd::prelude::*;
use vstd::string::StringExecFns;
use crate::models::auth_model::{Auth, AuthResponseWithoutTokens};
use crate::models::response_model::ApiResponse;
use crate::models::user_model::SafeUser;

verus! {

/// When a cookie is sent with requests from other sites.
#[derive(Clone, Copy, Debug, PartialEq, Eq, Structural)]
pub enum SameSite {
    /// Never.
    Strict,
    /// As the browser sees fit.
    Unset,
}

/// A cookie to set.
#[derive(Clone, Debug, PartialEq, Eq)]
pub struct CookieSpec {
    pub name: String,
    pub value: String,
    pub http_only: bool,
    pub secure: bool,
    pub path: String,
    pub same_site: SameSite,
    pub max_age_minutes: i64,
}

/// A [`CookieSpec`] as plain values.
pub struct CookieView {
    pub name: Seq<char>,
    pub value: Seq<char>,
    pub http_only: bool,
    pub secure: bool,
    pub path: Seq<char>,
    pub same_site: SameSite,
    pub max_age_minutes: i64,
}

impl View for CookieSpec {
    type V = CookieView;

    open spec fn view(&self) -> CookieView {
        CookieView {
            name: self.name@,
            value: self.value@,
            http_only: self.http_only,
            secure: self.secure,
            path: self.path@,
            same_site: self.same_site,
            max_age_minutes: self.max_age_minutes,
        }
    }
}

/// The cookie that carries a token for `minutes` minutes.
pub open spec fn session_cookie(name: Seq<char>, token: Seq<char>, minutes: i64) -> CookieView {
    CookieView {
        name,
        value: token,
        http_only: true,
        secure: true,
        path: "/"@,
        same_site: SameSite::Strict,
        max_age_minutes: minutes,
    }
}

/// The cookie that clears the one called `name`.
pub open spec fn cleared_cookie(name: Seq<char>) -> CookieView {
    CookieView {
        name,
        value: Seq::empty(),
        http_only: true,
        secure: false,
        path: "/"@,
        same_site: SameSite::Unset,
        max_age_minutes: 0,
    }
}

/// A refresh token sent in a request body.
#[derive(Clone, Debug, PartialEq, Eq)]
pub struct RefreshTokenRequest {
    pub refresh_token: String,
}

/// The account endpoints.
pub struct AuthHandler;

impl AuthHandler {
    /// The cookie that carries `token` under `name` for `minutes` minutes.
    fn cookie(name: &str, token: &str, minutes: i64) -> (cookie: CookieSpec)
        ensures
            cookie@ == session_cookie(name@, token@, minutes),
    {
        CookieSpec {
            name: name.to_owned(),
            value: token.to_owned(),
            http_only: true,
            secure: true,
            path: String::from_str("/"),
            same_site: SameSite::Strict,
            max_age_minutes: minutes,
        }
    }

    /// The cookie that clears the one called `name`.
    fn expired(name: &str) -> (cookie: CookieSpec)
        ensures
            cookie@ == cleared_cookie(name@),
    {
        CookieSpec {
            name: name.to_owned(),
            value: String::new(),
            http_only: true,
            secure: false,
            path: String::from_str("/"),
            same_site: SameSite::Unset,
            max_age_minutes: 0,
        }
    }

    /// The two cookies that carry the tokens of `auth`: the access token
    /// first, then the refresh token, each kept for its lifetime.
    pub fn session_cookies(auth: &Auth, access_expires_in: i64, refresh_expires_in: i64) -> (cookies:
        (CookieSpec, CookieSpec))
        ensures
            cookies.0@ == session_cookie("access_token"@, auth.access_token@, access_expires_in),
            cookies.1@ == session_cookie(
                "refresh_token"@,
                auth.refresh_token@,
                refresh_expires_in,
            ),
    {
        (
            Self::cookie("access_token", auth.access_token.as_str(), access_expires_in),
            Self::cookie("refresh_token", auth.refresh_token.as_str(), refresh_expires_in),
        )
    }

    /// The two cookies that end a session.
    pub fn logout_cookies() -> (cookies: (CookieSpec, CookieSpec))
        ensures
            cookies.0@ == cleared_cookie("access_token"@),
            cookies.1@ == cleared_cookie("refresh_token"@),
    {
        (Self::expired("access_token"), Self::expired("refresh_token"))
    }

    /// The answer to a registration: created, with the account and without
    /// the tokens, which travel in the cookies.
    pub fn register(auth: Auth) -> (answer: (u16, AuthResponseWithoutTokens))
        ensures
            answer.0 == 201,
            answer.1.status@ == "success"@,
            answer.1.data.user == auth.user,
    {
        (201, AuthResponseWithoutTokens::success(auth.user))
    }

    /// The answer to a login: the account, without the tokens.
    pub fn login(auth: Auth) -> (answer: AuthResponseWithoutTokens)
        ensures
            answer.status@ == "success"@,
            answer.data.user == auth.user,
    {
        AuthResponseWithoutTokens::success(auth.user)
    }

    /// The answer to a renewal: the account, without the tokens.
    pub fn refresh_token(auth: Auth) -> (answer: AuthResponseWithoutTokens)
        ensures
            answer.status@ == "success"@,
            answer.data.user == auth.user,
    {
        AuthResponseWithoutTokens::success(auth.user)
    }

    /// The answer to a request for the caller's own account.
    pub fn me(user: SafeUser) -> (answer: ApiResponse<SafeUser>)
        ensures
            answer.message is None,
            answer.data == Some(user),
    {
        ApiResponse::success(user)
    }

    /// The answer to a logout.
    pub fn logout() -> (answer: ApiResponse<String>)
        ensures
            answer.message is None,
            answer.data is Some,
            answer.data->0@ == "Logged out successfully"@,
    {
        ApiResponse::success(String::from_str("Logged out successfully"))
    }
}

} // verus!
