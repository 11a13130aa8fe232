//! The authorization guard: from a request's credentials to an identity,
//! and from an identity to a verdict on a required role.
//!
//! A request passes through four stages: without credentials, with a token
//! in hand, with verified claims, with an identity. A cookie's token is
//! preferred over one in the authorization header; a request with neither
//! is refused, never served anonymously.

use vstd::prelude::*;
use crate::errors::{AppError, AppErrorView, AppResult, TokenError};
use crate::models::user_model::Role;
use crate::text::{opt_text, starts_with, tail_from};
use crate::utils::clock::clock_reads;
use crate::utils::jwt::{
    claims_outcome,
    is_open_refusal,
    kind_read,
    verified_at,
    Claims,
    JwtService,
    TokenType,
};

verus! {

/// The authenticated subject of a request, as the signed claims name it.
#[derive(Clone, Debug, PartialEq, Eq)]
pub struct AuthUser {
    pub id: String,
    pub email: String,
    pub role: Role,
}

/// The token in an authorization header: what follows `Bearer ` and a
/// single space, if the header begins so.
pub open spec fn bearer_token(header: Seq<char>) -> Option<Seq<char>> {
    if "Bearer "@.is_prefix_of(header) {
        Some(header.subrange(7, header.len() as int))
    } else {
        None
    }
}

/// The token that a request presents: the cookie's if there is a cookie,
/// else the header's.
pub open spec fn presented_token(cookie: Option<Seq<char>>, header: Option<Seq<char>>) -> Option<
    Seq<char>,
> {
    match cookie {
        Some(token) => Some(token),
        None => match header {
            Some(value) => bearer_token(value),
            None => None,
        },
    }
}

/// What the role check gives for an identity with `role`.
pub open spec fn role_checked(role: Role, required: Role) -> Result<(), AppErrorView> {
    if role == required {
        Ok(())
    } else {
        Err(AppErrorView::Forbidden)
    }
}

impl AuthUser {
    /// The identity that verified claims name. The claims are trusted as
    /// signed; storage is not asked again.
    pub fn from_claims(claims: Claims) -> (user: Result<AuthUser, AppError>)
        ensures
            user is Ok,
            user->Ok_0.id == claims.sub,
            user->Ok_0.email == claims.email,
            user->Ok_0.role == claims.role,
    {
        Ok(AuthUser { id: claims.sub, email: claims.email, role: claims.role })
    }
}

/// The token in the access cookie, if the request has that cookie.
pub fn extract_token_from_cookie(cookie: Option<&str>) -> (token: Result<String, AppError>)
    ensures
        match cookie {
            Some(value) => token is Ok && token->Ok_0@ == value@,
            None => token is Err && token->Err_0@ == AppErrorView::Unauthorized,
        },
{
    match cookie {
        Some(value) => Ok(value.to_owned()),
        None => Err(AppError::Unauthorized),
    }
}

/// The token in the authorization header, if the request has that header
/// and it is a bearer credential.
pub fn extract_token_from_header(header: Option<&str>) -> (token: Result<String, AppError>)
    ensures
        match header {
            Some(value) => match bearer_token(value@) {
                Some(text) => token is Ok && token->Ok_0@ == text,
                None => token is Err && token->Err_0@ == AppErrorView::Unauthorized,
            },
            None => token is Err && token->Err_0@ == AppErrorView::Unauthorized,
        },
{
    match header {
        Some(value) => {
            if !starts_with(value, "Bearer ") {
                return Err(AppError::Unauthorized);
            }
            proof {
                reveal_strlit("Bearer ");
            }
            Ok(tail_from(value, 7))
        },
        None => Err(AppError::Unauthorized),
    }
}

/// The token that the request presents, from the cookie or else from the
/// header.
pub fn extract_token(cookie: Option<&str>, header: Option<&str>) -> (token: Result<
    String,
    AppError,
>)
    ensures
        match presented_token(opt_text(cookie), opt_text(header)) {
            Some(text) => token is Ok && token->Ok_0@ == text,
            None => token is Err && token->Err_0@ == AppErrorView::Unauthorized,
        },
{
    match extract_token_from_cookie(cookie) {
        Ok(token) => Ok(token),
        Err(_) => extract_token_from_header(header),
    }
}

/// The identity behind the outcome of verifying an access token: the one
/// that the claims name, or the refusal unchanged.
pub fn identify(verified: AppResult<Claims>) -> (user: AppResult<AuthUser>)
    ensures
        match verified {
            Ok(claims) => user is Ok && user->Ok_0.id == claims.sub && user->Ok_0.email
                == claims.email && user->Ok_0.role == claims.role,
            Err(why) => user is Err && user->Err_0 == why,
        },
{
    match verified {
        Ok(claims) => AuthUser::from_claims(claims),
        Err(why) => Err(why),
    }
}

/// The identity of a request, from its access cookie and its authorization
/// header.
///
/// A request without a token is unauthorized, and nothing is verified. Else
/// the presented token, the cookie's before the header's, is verified as an
/// access token with the service's secret at the time that the clock reads:
/// the identity is the subject, email and role of the claims that its
/// payload carries, and a token that does not verify is refused as a token
/// error.
pub fn authenticate(jwt: &JwtService, cookie: Option<&str>, header: Option<&str>) -> (user:
    AppResult<AuthUser>)
    ensures
        presented_token(opt_text(cookie), opt_text(header)) is None ==> user is Err
            && user->Err_0@ == AppErrorView::Unauthorized,
        presented_token(opt_text(cookie), opt_text(header)) is Some && user is Err
            ==> user->Err_0@ is Jwt,
        presented_token(opt_text(cookie), opt_text(header)) is Some ==> exists|
            now: int,
            refusal: TokenError,
        |
            clock_reads(now) && is_open_refusal(refusal) && match kind_read(
                #[trigger] verified_at(
                    presented_token(opt_text(cookie), opt_text(header))->0,
                    jwt.secret(),
                    now,
                    refusal,
                ),
                TokenType::Access,
            ) {
                Ok(carried) => user is Ok && user->Ok_0.id@ == carried.sub
                    && user->Ok_0.email@ == carried.email && user->Ok_0.role == carried.role,
                Err(why) => user is Err && user->Err_0@ == why,
            },
{
    let token = match extract_token(cookie, header) {
        Ok(token) => token,
        Err(why) => {
            return Err(why);
        },
    };
    let verified = jwt.verify_access_token(token.as_str());
    let ghost (now, refusal) = choose|now: int, refusal: TokenError|
        clock_reads(now) && is_open_refusal(refusal) && claims_outcome(verified) == kind_read(
            #[trigger] verified_at(token@, jwt.secret(), now, refusal),
            TokenType::Access,
        );
    let user = identify(verified);
    assert(clock_reads(now) && is_open_refusal(refusal) && match kind_read(
        verified_at(token@, jwt.secret(), now, refusal),
        TokenType::Access,
    ) {
        Ok(carried) => user is Ok && user->Ok_0.id@ == carried.sub && user->Ok_0.email@
            == carried.email && user->Ok_0.role == carried.role,
        Err(why) => user is Err && user->Err_0@ == why,
    });
    user
}

/// Lets an identity pass that carries exactly the required role.
pub fn require_role(auth_user: &AuthUser, required_role: Role) -> (checked: Result<(), AppError>)
    ensures
        crate::errors::outcome(checked) == role_checked(auth_user.role, required_role),
{
    if auth_user.role != required_role {
        return Err(AppError::Forbidden);
    }
    Ok(())
}

} // verus!
