use std::collections::BTreeMap;

use novel_api::errors::{AppError, TokenError};
use novel_api::handlers::auth_handler::{AuthHandler, CookieSpec, SameSite};
use novel_api::models::auth_model::{Auth, AuthResponse, LoginDto, RegisterDto};
use novel_api::models::user_model::{Role, SafeUser, User, UserDto};
use novel_api::query::SqlValue;
use novel_api::services::auth_service::{
    AccountEffect, AccountReply, AuthService, Registration, Supplies,
};
use novel_api::services::repository::{Effect, Reply, StoreFault};
use novel_api::utils::jwt::{JwtService, TokenType};
use novel_api::utils::password::PasswordService;

fn jwt() -> JwtService {
    JwtService::new("account-secret", 900, 604800)
}

fn request(username: &str, email: &str) -> RegisterDto {
    RegisterDto { username: username.to_string(), email: email.to_string(), password: "pass-word".to_string() }
}

/// Accounts in memory, with the store's own uniqueness constraint.
struct Accounts {
    rows: BTreeMap<String, User>,
    enforce_precheck: bool,
}

impl Accounts {
    fn new() -> Self {
        Accounts { rows: BTreeMap::new(), enforce_precheck: true }
    }

    fn email_taken(&self, email: &str) -> bool {
        self.rows.values().any(|u| u.email == email)
    }

    fn username_taken(&self, username: &str) -> bool {
        self.rows.values().any(|u| u.username == username)
    }

    fn register(&mut self, request: RegisterDto) -> Result<Auth, AppError> {
        let jwt = jwt();
        let (mut registration, mut effect): (Registration, AccountEffect) = AuthService::register(request);
        for _ in 0..6 {
            let reply = match effect {
                AccountEffect::EmailTaken { email, statement } => {
                    assert_eq!(statement.sql, "SELECT EXISTS(SELECT 1 FROM \"User\" WHERE email = $1)");
                    assert_eq!(statement.binds, vec![SqlValue::Text(email.clone())]);
                    AccountReply::Exists(self.enforce_precheck && self.email_taken(&email))
                }
                AccountEffect::UsernameTaken { username, statement } => {
                    assert_eq!(statement.sql, "SELECT EXISTS(SELECT 1 FROM \"User\" WHERE username = $1)");
                    assert_eq!(statement.binds, vec![SqlValue::Text(username.clone())]);
                    AccountReply::Exists(self.enforce_precheck && self.username_taken(&username))
                }
                AccountEffect::Insert { user, statement } => {
                    assert_eq!(
                        statement.sql,
                        "INSERT INTO \"User\" (id, username, email, password, created_at, updated_at, role) VALUES ($1, $2, $3, $4, $5, $6, $7) RETURNING id, username, email, bio, profile_pic, role"
                    );
                    assert_eq!(statement.binds.len(), 7);
                    assert_eq!(statement.binds[6], SqlValue::Role(Role::User));
                    if self.rows.contains_key(&user.id) || self.email_taken(&user.email) || self.username_taken(&user.username) {
                        AccountReply::Fault(StoreFault::UniqueViolation("User_email_key".to_string()))
                    } else {
                        self.rows.insert(user.id.clone(), user.clone());
                        AccountReply::Inserted(SafeUser::from(user))
                    }
                }
                AccountEffect::Finish(result) => {
                    assert!(registration.is_finished());
                    return result;
                }
            };
            let next = registration.step(reply, &jwt);
            registration = next.0;
            effect = next.1;
        }
        panic!("the registration did not end");
    }
}

#[test]
fn registration_stores_a_hashed_password_and_grants_tokens() {
    let mut accounts = Accounts::new();
    let auth = accounts.register(request("reader", "reader@example.com")).unwrap();
    assert_eq!(auth.user.username, "reader");
    assert_eq!(auth.user.email, "reader@example.com");
    assert_eq!(auth.user.role, Role::User);
    assert_eq!(accounts.rows.len(), 1);
    let stored = accounts.rows.values().next().unwrap();
    assert_eq!(stored.id, auth.user.id);
    assert_ne!(stored.password, "pass-word");
    assert_eq!(PasswordService::verify_password("pass-word", &stored.password), Ok(true));
    let claims = jwt().verify_access_token(&auth.access_token).unwrap();
    assert_eq!((claims.sub.as_str(), claims.email.as_str(), claims.role), (auth.user.id.as_str(), "reader@example.com", Role::User));
    assert!(jwt().verify_refresh_token(&auth.refresh_token).is_ok());
    assert_eq!(jwt().verify_refresh_token(&auth.access_token), Err(AppError::Jwt(TokenError::WrongTokenType)));
}

#[test]
fn second_registration_with_the_same_email_is_refused() {
    let mut accounts = Accounts::new();
    accounts.register(request("first", "same@example.com")).unwrap();
    let before = accounts.rows.clone();
    let second = accounts.register(request("second", "same@example.com"));
    assert_eq!(second, Err(AppError::BadRequest("Email already exists".to_string())));
    assert_eq!(second.unwrap_err().status_code(), 400);
    assert_eq!(accounts.rows, before);
    assert_eq!(accounts.rows.len(), 1);
}

#[test]
fn second_registration_with_the_same_username_is_refused() {
    let mut accounts = Accounts::new();
    accounts.register(request("same", "one@example.com")).unwrap();
    assert_eq!(
        accounts.register(request("same", "two@example.com")),
        Err(AppError::BadRequest("Username already exists".to_string()))
    );
    assert_eq!(accounts.rows.len(), 1);
    assert!(accounts.register(request("other", "two@example.com")).is_ok());
    assert_eq!(accounts.rows.len(), 2);
}

#[test]
fn racing_registration_ends_as_a_conflict_without_a_second_row() {
    let mut accounts = Accounts::new();
    accounts.register(request("first", "same@example.com")).unwrap();
    accounts.enforce_precheck = false;
    let raced = accounts.register(request("second", "same@example.com"));
    assert_eq!(raced, Err(AppError::Conflict("User_email_key".to_string())));
    assert_eq!(raced.unwrap_err().status_code(), 409);
    assert_eq!(accounts.rows.len(), 1);
}

#[test]
fn registration_with_supplies_is_exact() {
    let jwt = jwt();
    let supplies = |hashed: Result<String, AppError>| Supplies { id: "u-fixed".to_string(), now: 4_000_000_000_123_456, hashed };
    let (registration, effect) = AuthService::register(request("reader", "reader@example.com"));
    assert!(matches!(effect, AccountEffect::EmailTaken { ref email, .. } if email == "reader@example.com"));
    let (registration, effect) = registration.step_with(AccountReply::Exists(false), &jwt, supplies(Err(AppError::InternalServer)));
    assert!(matches!(effect, AccountEffect::UsernameTaken { ref username, .. } if username == "reader"));
    let (registration, effect) = registration.step_with(AccountReply::Exists(false), &jwt, supplies(Ok("$hash".to_string())));
    match effect {
        AccountEffect::Insert { user, statement } => {
            assert_eq!(
                user,
                User {
                    id: "u-fixed".to_string(),
                    profile_pic: None,
                    bio: None,
                    username: "reader".to_string(),
                    role: Role::User,
                    email: "reader@example.com".to_string(),
                    password: "$hash".to_string(),
                }
            );
            assert_eq!(
                statement.binds,
                vec![
                    SqlValue::Text("u-fixed".to_string()),
                    SqlValue::Text("reader".to_string()),
                    SqlValue::Text("reader@example.com".to_string()),
                    SqlValue::Text("$hash".to_string()),
                    SqlValue::Timestamp(4_000_000_000_123_456),
                    SqlValue::Timestamp(4_000_000_000_123_456),
                    SqlValue::Role(Role::User),
                ]
            );
        }
        other => panic!("unexpected {:?}", other),
    }
    let stored = SafeUser {
        id: "u-fixed".to_string(),
        username: "reader".to_string(),
        profile_pic: None,
        bio: None,
        role: Role::User,
        email: "reader@example.com".to_string(),
    };
    let (registration, effect) =
        registration.step_with(AccountReply::Inserted(stored.clone()), &jwt, supplies(Err(AppError::InternalServer)));
    assert!(registration.is_finished());
    let expected = Auth::new(
        stored.clone(),
        jwt.issue_at(TokenType::Access, "u-fixed", "reader@example.com", Role::User, 4_000_000_000).unwrap(),
        jwt.issue_at(TokenType::Refresh, "u-fixed", "reader@example.com", Role::User, 4_000_000_000).unwrap(),
    );
    assert_eq!(effect, AccountEffect::Finish(Ok(expected.clone())));
    assert_eq!(AuthService::grant_at(&jwt, stored, 4_000_000_000), Ok(expected));
}

#[test]
fn registration_failures() {
    let jwt = jwt();
    let supplies = |hashed: Result<String, AppError>| Supplies { id: "u".to_string(), now: 1, hashed };
    let start = || AuthService::register(request("reader", "reader@example.com")).0;
    let fault = || AccountReply::Fault(StoreFault::Other("down".to_string()));
    let down = AccountEffect::Finish(Err(AppError::Database("down".to_string())));

    assert_eq!(start().step(fault(), &jwt).1, down);
    let (registration, _) = start().step(AccountReply::Exists(false), &jwt);
    assert_eq!(registration.step(fault(), &jwt).1, down);
    let (registration, _) = start().step(AccountReply::Exists(false), &jwt);
    let (registration, effect) = registration.step_with(
        AccountReply::Exists(false),
        &jwt,
        supplies(Err(AppError::PasswordHash("out of memory".to_string()))),
    );
    assert!(registration.is_finished());
    assert_eq!(effect, AccountEffect::Finish(Err(AppError::PasswordHash("out of memory".to_string()))));

    let (registration, _) = start().step(AccountReply::Exists(false), &jwt);
    let (registration, _) = registration.step(AccountReply::Exists(false), &jwt);
    assert_eq!(registration.step(fault(), &jwt).1, down);

    let user = SafeUser { id: "u".to_string(), username: "r".to_string(), profile_pic: None, bio: None, role: Role::User, email: "e".to_string() };
    assert_eq!(start().step(AccountReply::Inserted(user.clone()), &jwt).1, AccountEffect::Finish(Err(AppError::InternalServer)));
    let (done, _) = start().step(AccountReply::Exists(true), &jwt);
    assert!(done.is_finished());
    assert_eq!(done.step(AccountReply::Exists(false), &jwt).1, AccountEffect::Finish(Err(AppError::InternalServer)));

    let stuck = JwtService::new("s", i64::MAX, 1);
    let (registration, _) = start().step(AccountReply::Exists(false), &stuck);
    let (registration, _) = registration.step(AccountReply::Exists(false), &stuck);
    assert_eq!(registration.step(AccountReply::Inserted(user), &stuck).1, AccountEffect::Finish(Err(AppError::InternalServer)));
}

fn account(password: &str) -> User {
    User {
        id: "u1".to_string(),
        profile_pic: Some("p.png".to_string()),
        bio: None,
        username: "reader".to_string(),
        role: Role::Admin,
        email: "reader@example.com".to_string(),
        password: PasswordService::hash_password(password).unwrap(),
    }
}

#[test]
fn login_with_the_right_password_grants_tokens() {
    let jwt = jwt();
    let user = account("pass-word");
    let request = LoginDto { email: "reader@example.com".to_string(), password: "pass-word".to_string() };
    let auth = AuthService::login(&jwt, &request, Some(user.clone())).unwrap();
    assert_eq!(auth.user, SafeUser::from(user.clone()));
    let claims = jwt.verify_access_token(&auth.access_token).unwrap();
    assert_eq!((claims.sub.as_str(), claims.role), ("u1", Role::Admin));
    assert!(jwt.verify_refresh_token(&auth.refresh_token).is_ok());
    let at = AuthService::login_at(&jwt, &request, Some(user.clone()), 4_000_000_000).unwrap();
    assert_eq!(at, AuthService::grant_at(&jwt, SafeUser::from(user), 4_000_000_000).unwrap());
    assert_eq!(jwt.verify_token(&at.access_token).unwrap().exp, 4_000_000_900);
    assert_eq!(jwt.verify_token(&at.refresh_token).unwrap().exp, 4_000_604_800);
}

#[test]
fn login_is_refused_alike_for_every_reason() {
    let jwt = jwt();
    let request = LoginDto { email: "reader@example.com".to_string(), password: "wrong".to_string() };
    assert_eq!(AuthService::login(&jwt, &request, Some(account("pass-word"))), Err(AppError::Unauthorized));
    assert_eq!(AuthService::login(&jwt, &request, None), Err(AppError::Unauthorized));
    let mut broken = account("wrong");
    broken.password = "not a hash".to_string();
    assert_eq!(AuthService::login(&jwt, &request, Some(broken)), Err(AppError::Unauthorized));
    assert_eq!(AppError::Unauthorized.status_code(), 401);
    assert_eq!(
        AuthService::get_user_by_email("reader@example.com").sql,
        "SELECT id, username, email, password, role, bio, profile_pic FROM \"User\" WHERE email = $1"
    );
    assert_eq!(
        AuthService::get_user_by_email("reader@example.com").binds,
        vec![SqlValue::Text("reader@example.com".to_string())]
    );
}

#[test]
fn renewal_needs_a_refresh_token_and_reads_the_account() {
    let jwt = jwt();
    let user = SafeUser::from(account("pass-word"));
    let auth = AuthService::grant(&jwt, user.clone()).unwrap();
    assert_eq!(
        AuthService::refresh_token(&jwt, &auth.access_token).unwrap_err(),
        AppError::Jwt(TokenError::WrongTokenType)
    );
    assert_eq!(AuthService::refresh_token(&jwt, "junk").unwrap_err(), AppError::Jwt(TokenError::Malformed));
    let (session, effect) = AuthService::refresh_token(&jwt, &auth.refresh_token).unwrap();
    assert_eq!(effect, Effect::CacheGet { key: "user:u1".to_string() });
    let (session, effect) = session.step(Reply::Cached(None));
    assert!(matches!(effect, Effect::Select { ref id, .. } if id == "u1"));
    let (_, effect) = session.step(Reply::Row(Some(user.clone())));
    assert_eq!(effect, Effect::Finish { result: Ok(user.clone()), fill: Some(("user:u1".to_string(), 600)) });
    let renewed = AuthService::grant(&jwt, user.clone()).unwrap();
    assert_eq!(renewed.user, user);
    assert!(jwt.verify_access_token(&renewed.access_token).is_ok());

    let (session, _) = AuthService::get_user_by_id("ghost");
    let (session, _) = session.step(Reply::Cached(None));
    assert_eq!(
        session.step(Reply::Row(None)).1,
        Effect::Finish { result: Err(AppError::NotFound("User not found".to_string())), fill: None }
    );
}

#[test]
fn session_cookies_carry_the_tokens() {
    let user = SafeUser::from(account("pass-word"));
    let auth = Auth::new(user, "access.token.value".to_string(), "refresh.token.value".to_string());
    let (access, refresh) = AuthHandler::session_cookies(&auth, 15, 10080);
    assert_eq!(
        access,
        CookieSpec {
            name: "access_token".to_string(),
            value: "access.token.value".to_string(),
            http_only: true,
            secure: true,
            path: "/".to_string(),
            same_site: SameSite::Strict,
            max_age_minutes: 15,
        }
    );
    assert_eq!(
        refresh,
        CookieSpec {
            name: "refresh_token".to_string(),
            value: "refresh.token.value".to_string(),
            http_only: true,
            secure: true,
            path: "/".to_string(),
            same_site: SameSite::Strict,
            max_age_minutes: 10080,
        }
    );
}

#[test]
fn logout_cookies_are_empty_and_expired() {
    let (access, refresh) = AuthHandler::logout_cookies();
    for (cookie, name) in [(access, "access_token"), (refresh, "refresh_token")] {
        assert_eq!(cookie.name, name);
        assert_eq!(cookie.value, "");
        assert_eq!(cookie.max_age_minutes, 0);
        assert!(cookie.http_only);
        assert_eq!(cookie.path, "/");
    }
    assert_eq!(AuthHandler::logout().data, Some("Logged out successfully".to_string()));
    assert_eq!(AuthHandler::logout().message, None);
}

#[test]
fn account_answers_leave_the_tokens_out() {
    let user = SafeUser::from(account("pass-word"));
    let auth = Auth::new(user.clone(), "a".to_string(), "r".to_string());
    let (status, body) = AuthHandler::register(auth.clone());
    assert_eq!(status, 201);
    assert_eq!(body.status, "success");
    assert_eq!(body.data.user, user);
    assert_eq!(AuthHandler::login(auth.clone()).data.user, user);
    assert_eq!(AuthHandler::refresh_token(auth.clone()).status, "success");
    assert_eq!(AuthHandler::me(user.clone()).data, Some(user.clone()));
    let full = AuthResponse::success(auth.clone());
    assert_eq!(full.status, "success");
    assert_eq!(full.data, auth);
    let dto = UserDto::from(account("x"));
    assert_eq!((dto.id.as_str(), dto.username.as_str(), dto.role), ("u1", "reader", Role::Admin));
}

#[test]
fn renewal_reads_the_subject_of_the_claims() {
    let claims = novel_api::utils::jwt::Claims {
        sub: "u42".to_string(),
        email: "e@x".to_string(),
        role: Role::User,
        exp: 2,
        iat: 1,
        token_type: TokenType::Refresh,
    };
    let (_, effect) = AuthService::begin_renewal(Ok(claims)).unwrap();
    assert_eq!(effect, Effect::CacheGet { key: "user:u42".to_string() });
    assert_eq!(
        AuthService::begin_renewal(Err(AppError::Jwt(TokenError::Expired))).unwrap_err(),
        AppError::Jwt(TokenError::Expired)
    );
    let jwt = jwt();
    let token = jwt.generate_refresh_token("u43", "e@x", Role::User).unwrap();
    let (_, effect) = AuthService::refresh_token(&jwt, &token).unwrap();
    assert_eq!(effect, Effect::CacheGet { key: "user:u43".to_string() });
}

#[test]
fn a_failed_lookup_is_no_account() {
    let user = account("pass-word");
    assert_eq!(AuthService::found_account(Ok(Some(user.clone()))), Some(user));
    assert_eq!(AuthService::found_account(Ok(None)), None);
    assert_eq!(AuthService::found_account(Err(StoreFault::Other("down".to_string()))), None);
}
