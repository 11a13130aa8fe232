//! Login and registration payloads and what answers them.

use vstd::prelude::*;
use vstd::string::StringExecFns;
use crate::models::user_model::SafeUser;

verus! {

#[derive(Clone, Debug, PartialEq, Eq)]
pub struct LoginDto {
    pub email: String,
    pub password: String,
}

#[derive(Clone, Debug, PartialEq, Eq)]
pub struct RegisterDto {
    pub username: String,
    pub email: String,
    pub password: String,
}

/// An account with the token pair minted for it.
#[derive(Clone, Debug, PartialEq, Eq)]
pub struct Auth {
    pub user: SafeUser,
    pub access_token: String,
    pub refresh_token: String,
}

#[derive(Clone, Debug, PartialEq, Eq)]
pub struct AuthData {
    pub user: SafeUser,
}

#[derive(Debug, PartialEq, Eq)]
pub struct AuthResponse {
    pub status: String,
    pub data: Auth,
}

/// The answer to a login: the tokens travel in cookies, not in the body.
#[derive(Debug, PartialEq, Eq)]
pub struct AuthResponseWithoutTokens {
    pub status: String,
    pub data: AuthData,
}

impl Auth {
    pub fn new(user: SafeUser, access_token: String, refresh_token: String) -> (auth: Auth)
        ensures
            auth.user == user,
            auth.access_token == access_token,
            auth.refresh_token == refresh_token,
    {
        Auth { user, access_token, refresh_token }
    }
}

impl AuthResponse {
    pub fn success(auth: Auth) -> (response: AuthResponse)
        ensures
            response.status@ == "success"@,
            response.data == auth,
    {
        AuthResponse { status: String::from_str("success"), data: auth }
    }
}

impl AuthResponseWithoutTokens {
    pub fn success(user: SafeUser) -> (response: AuthResponseWithoutTokens)
        ensures
            response.status@ == "success"@,
            response.data.user == user,
    {
        AuthResponseWithoutTokens { status: String::from_str("success"), data: AuthData { user } }
    }
}

} // verus!
