//! Signed, typed, expiring tokens.
//!
//! A token carries six claims in a JSON object: `sub`, `email`, `role`,
//! `token_type` as text and `exp`, `iat` as integers. Signing a payload and
//! opening a token against the secret are the work of the `jsonwebtoken`
//! crate. Which claims go in, which come out, whether the expiry has passed
//! and whether the kind fits is decided here.

use vstd::prelude::*;
use crate::errors::{AppError, AppErrorView, AppResult, TokenError};
use crate::models::user_model::{role_name, Role};
use crate::utils::clock::{clock_reads, now_micros, seconds_of};

verus! {

/// `serde_json::Map`, the JSON object that carries the claims. Nothing is
/// known of a value of it but what the functions below state.
#[verifier::external_type_specification]
#[verifier::external_body]
#[verifier::reject_recursive_types(K)]
#[verifier::reject_recursive_types(V)]
pub struct ExJsonObject<K, V>(serde_json::Map<K, V>);

/// `serde_json::Value`, what a JSON object holds under a key.
#[verifier::external_type_specification]
#[verifier::external_body]
pub struct ExJsonValue(serde_json::Value);

/// `jsonwebtoken::errors::Error`, why a token could not be made or opened.
#[verifier::external_type_specification]
#[verifier::external_body]
pub struct ExTokenFault(jsonwebtoken::errors::Error);

/// The entries of a JSON object whose value is a string.
pub uninterp spec fn text_claims(object: serde_json::Map<String, serde_json::Value>) -> Map<
    Seq<char>,
    Seq<char>,
>;

/// The entries of a JSON object whose value is an integer between
/// `i64::MIN` and `i64::MAX`.
pub uninterp spec fn integer_claims(object: serde_json::Map<String, serde_json::Value>) -> Map<
    Seq<char>,
    i64,
>;

/// The keys of a JSON object whose value is neither a string nor such an
/// integer.
pub uninterp spec fn other_claims(object: serde_json::Map<String, serde_json::Value>) -> Set<
    Seq<char>,
>;

/// The token that `jsonwebtoken::encode` makes, with its default header and
/// the key that `EncodingKey::from_secret` derives from `secret`, of a JSON
/// object that holds exactly the entries `texts` and `integers`; `None`
/// where it reports an error.
pub uninterp spec fn signed_token(
    texts: Map<Seq<char>, Seq<char>>,
    integers: Map<Seq<char>, i64>,
    secret: Seq<char>,
) -> Option<Seq<char>>;

/// `serde_json::Map::new`: an object without entries.
#[verifier::external_body]
fn empty_object() -> (fresh: serde_json::Map<String, serde_json::Value>)
    ensures
        text_claims(fresh).dom() == Set::<Seq<char>>::empty(),
        integer_claims(fresh).dom() == Set::<Seq<char>>::empty(),
        other_claims(fresh) == Set::<Seq<char>>::empty(),
{
    serde_json::Map::new()
}

/// `serde_json::Map::insert` with a string value: the entry under `key`
/// becomes the text `value`, whatever it was; other entries stay.
#[verifier::external_body]
fn put_text(object: &mut serde_json::Map<String, serde_json::Value>, key: &str, value: &str)
    ensures
        text_claims(*final(object)) == text_claims(*old(object)).insert(key@, value@),
        integer_claims(*final(object)) == integer_claims(*old(object)).remove(key@),
        other_claims(*final(object)) == other_claims(*old(object)).remove(key@),
{
    object.insert(key.to_string(), serde_json::Value::String(value.to_string()));
}

/// `serde_json::Map::insert` with an integer value: the entry under `key`
/// becomes the integer `value`, whatever it was; other entries stay.
#[verifier::external_body]
fn put_integer(object: &mut serde_json::Map<String, serde_json::Value>, key: &str, value: i64)
    ensures
        text_claims(*final(object)) == text_claims(*old(object)).remove(key@),
        integer_claims(*final(object)) == integer_claims(*old(object)).insert(key@, value),
        other_claims(*final(object)) == other_claims(*old(object)).remove(key@),
{
    object.insert(key.to_string(), serde_json::Value::from(value));
}

/// `serde_json::Map::get`: the text under `key`, if the object holds a
/// string there.
#[verifier::external_body]
fn get_text(object: &serde_json::Map<String, serde_json::Value>, key: &str) -> (value: Option<
    String,
>)
    ensures
        value is Some <==> text_claims(*object).contains_key(key@),
        value is Some ==> value->0@ == text_claims(*object)[key@],
{
    match object.get(key) {
        Some(serde_json::Value::String(text)) => Some(text.clone()),
        _ => None,
    }
}

/// `serde_json::Map::get` and `Value::as_i64`: the integer under `key`, if
/// the object holds one there that fits `i64`.
#[verifier::external_body]
fn get_integer(object: &serde_json::Map<String, serde_json::Value>, key: &str) -> (value: Option<
    i64,
>)
    ensures
        value is Some <==> integer_claims(*object).contains_key(key@),
        value is Some ==> value->0 == integer_claims(*object)[key@],
{
    match object.get(key) {
        Some(value) => value.as_i64(),
        None => None,
    }
}

/// `jsonwebtoken::encode` with `Header::default()` and
/// `EncodingKey::from_secret`: the token named by [`signed_token`] for the
/// object's entries, or the crate's error where that is `None`.
#[verifier::external_body]
fn sign_object(object: &serde_json::Map<String, serde_json::Value>, secret: &str) -> (token:
    Result<String, jsonwebtoken::errors::Error>)
    requires
        other_claims(*object) == Set::<Seq<char>>::empty(),
    ensures
        token is Ok <==> signed_token(text_claims(*object), integer_claims(*object), secret@)
            is Some,
        token is Ok ==> Some(token->Ok_0@) == signed_token(
            text_claims(*object),
            integer_claims(*object),
            secret@,
        ),
{
    jsonwebtoken::encode(
        &jsonwebtoken::Header::default(),
        object,
        &jsonwebtoken::EncodingKey::from_secret(secret.as_bytes()),
    )
}

/// The text entries and the integer entries of the payload that
/// `jsonwebtoken::decode` yields for `token`, with the key that
/// `DecodingKey::from_secret` derives from `secret` and with
/// `Validation::default()` whose check of the expiry against the clock is
/// switched off; `None` where it reports an error. The signature must
/// match, and the payload must hold an expiry.
pub uninterp spec fn opened_claims(token: Seq<char>, secret: Seq<char>) -> Option<
    (Map<Seq<char>, Seq<char>>, Map<Seq<char>, i64>),
>;

/// `jsonwebtoken::decode` with `DecodingKey::from_secret` and
/// `Validation::default()` whose `validate_exp` is switched off, so that no
/// clock is read: the payload named by [`opened_claims`], or the crate's
/// error where that is `None`. Whether the expiry has passed is decided by
/// [`JwtService::require_unexpired`].
#[verifier::external_body]
fn open_token(token: &str, secret: &str) -> (payload: Result<
    serde_json::Map<String, serde_json::Value>,
    jsonwebtoken::errors::Error,
>)
    ensures
        payload is Ok <==> opened_claims(token@, secret@) is Some,
        payload is Ok ==> opened_claims(token@, secret@) == Some(
            (text_claims(payload->Ok_0), integer_claims(payload->Ok_0)),
        ),
{
    let mut validation = jsonwebtoken::Validation::default();
    validation.validate_exp = false;
    jsonwebtoken::decode::<serde_json::Map<String, serde_json::Value>>(
        token,
        &jsonwebtoken::DecodingKey::from_secret(secret.as_bytes()),
        &validation,
    ).map(|data| data.claims)
}

/// `jsonwebtoken::errors::Error::kind`, sorted into the two ways a token
/// can fail to open: a signature that does not match, and everything else.
/// Which of the two comes out is not stated.
#[verifier::external_body]
fn refusal_of(fault: &jsonwebtoken::errors::Error) -> (refusal: TokenError)
    ensures
        refusal == TokenError::InvalidSignature || refusal == TokenError::Malformed,
{
    match fault.kind() {
        jsonwebtoken::errors::ErrorKind::InvalidSignature => TokenError::InvalidSignature,
        _ => TokenError::Malformed,
    }
}

/// The two kinds of token.
#[derive(Clone, Copy, Debug, PartialEq, Eq, Structural)]
pub enum TokenType {
    /// Short-lived; authorizes regular requests.
    Access,
    /// Longer-lived; only mints new token pairs.
    Refresh,
}

/// The text that stands for a token kind in the `token_type` claim.
pub open spec fn token_type_name(kind: TokenType) -> Seq<char> {
    match kind {
        TokenType::Access => "Access"@,
        TokenType::Refresh => "Refresh"@,
    }
}

/// Distinct kinds have distinct names.
pub proof fn token_type_names_differ()
    ensures
        token_type_name(TokenType::Access) != token_type_name(TokenType::Refresh),
{
    reveal_strlit("Access");
    reveal_strlit("Refresh");
    assert("Access"@.len() != "Refresh"@.len());
}

impl TokenType {
    /// The text that stands for this kind.
    pub fn name(&self) -> (text: &'static str)
        ensures
            text@ == token_type_name(*self),
    {
        match self {
            TokenType::Access => "Access",
            TokenType::Refresh => "Refresh",
        }
    }

    /// The kind that `text` stands for, if any.
    pub fn parse(text: &str) -> (kind: Option<TokenType>)
        ensures
            match kind {
                Some(k) => text@ == token_type_name(k),
                None => forall|k: TokenType| text@ != token_type_name(k),
            },
    {
        proof {
            token_type_names_differ();
        }
        if crate::text::same_text(text, "Access") {
            Some(TokenType::Access)
        } else if crate::text::same_text(text, "Refresh") {
            Some(TokenType::Refresh)
        } else {
            None
        }
    }
}

/// What a token says: whom it names, with which role, from when until when,
/// and of which kind it is. Times are seconds since the Unix epoch.
#[derive(Clone, Debug, PartialEq, Eq)]
pub struct Claims {
    pub sub: String,
    pub email: String,
    pub role: Role,
    pub exp: i64,
    pub iat: i64,
    pub token_type: TokenType,
}

/// [`Claims`] as plain values.
pub struct ClaimsView {
    pub sub: Seq<char>,
    pub email: Seq<char>,
    pub role: Role,
    pub exp: i64,
    pub iat: i64,
    pub token_type: TokenType,
}

impl View for Claims {
    type V = ClaimsView;

    open spec fn view(&self) -> ClaimsView {
        ClaimsView {
            sub: self.sub@,
            email: self.email@,
            role: self.role,
            exp: self.exp,
            iat: self.iat,
            token_type: self.token_type,
        }
    }
}

/// The text entries of the JSON object that carries `claims`.
pub open spec fn claim_texts(claims: ClaimsView) -> Map<Seq<char>, Seq<char>> {
    Map::<Seq<char>, Seq<char>>::empty().insert("sub"@, claims.sub).insert(
        "email"@,
        claims.email,
    ).insert("role"@, role_name(claims.role)).insert(
        "token_type"@,
        token_type_name(claims.token_type),
    )
}

/// The integer entries of the JSON object that carries `claims`.
pub open spec fn claim_integers(claims: ClaimsView) -> Map<Seq<char>, i64> {
    Map::<Seq<char>, i64>::empty().insert("exp"@, claims.exp).insert("iat"@, claims.iat)
}

/// The claims that a JSON object with the entries `texts` and `integers`
/// carries: all six must be there, each of its type, and the role and the
/// kind must be known names.
pub open spec fn claims_in(texts: Map<Seq<char>, Seq<char>>, integers: Map<Seq<char>, i64>)
    -> Option<ClaimsView> {
    if texts.contains_key("sub"@) && texts.contains_key("email"@) && texts.contains_key("role"@)
        && texts.contains_key("token_type"@) && integers.contains_key("exp"@)
        && integers.contains_key("iat"@) && (exists|r: Role| texts["role"@] == role_name(r)) && (
    exists|k: TokenType| texts["token_type"@] == token_type_name(k)) {
        Some(
            ClaimsView {
                sub: texts["sub"@],
                email: texts["email"@],
                role: choose|r: Role| texts["role"@] == role_name(r),
                exp: integers["exp"@],
                iat: integers["iat"@],
                token_type: choose|k: TokenType| texts["token_type"@] == token_type_name(k),
            },
        )
    } else {
        None
    }
}

/// The claims of a token of `kind` for the named account, issued at
/// `issued_at` and good for `ttl` seconds.
pub open spec fn claims_for(
    kind: TokenType,
    user_id: Seq<char>,
    email: Seq<char>,
    role: Role,
    issued_at: int,
    ttl: int,
) -> ClaimsView
    recommends
        i64::MIN <= issued_at <= i64::MAX,
        i64::MIN <= issued_at + ttl <= i64::MAX,
{
    ClaimsView {
        sub: user_id,
        email,
        role,
        exp: (issued_at + ttl) as i64,
        iat: issued_at as i64,
        token_type: kind,
    }
}

/// What checking the kind of verified claims gives: the claims where the
/// kind is the expected one, a refusal where it is not.
pub open spec fn kind_checked(claims: Claims, expected: TokenType) -> Result<
    Claims,
    AppErrorView,
> {
    if claims.token_type == expected {
        Ok(claims)
    } else {
        Err(AppErrorView::Jwt(TokenError::WrongTokenType))
    }
}

/// Claims or a refusal, as plain values.
pub open spec fn claims_outcome(claims: AppResult<Claims>) -> Result<ClaimsView, AppErrorView> {
    match claims {
        Ok(carried) => Ok(carried@),
        Err(why) => Err(why@),
    }
}

/// What the outcome of opening a token comes to: a payload that carries all
/// six claims gives them, any other payload is malformed, and a refusal
/// stays what it is.
pub open spec fn payload_read(
    opened: Result<serde_json::Map<String, serde_json::Value>, TokenError>,
) -> Result<ClaimsView, AppErrorView> {
    match opened {
        Ok(payload) => match claims_in(text_claims(payload), integer_claims(payload)) {
            Some(carried) => Ok(carried),
            None => Err(AppErrorView::Jwt(TokenError::Malformed)),
        },
        Err(refusal) => Err(AppErrorView::Jwt(refusal)),
    }
}

/// What the kind check makes of verified claims or of a refusal: claims of
/// the expected kind pass, claims of the other kind are refused for their
/// kind, and a refusal stays what it is.
pub open spec fn kind_read(verified: Result<ClaimsView, AppErrorView>, expected: TokenType)
    -> Result<ClaimsView, AppErrorView> {
    match verified {
        Ok(carried) => if carried.token_type == expected {
            Ok(carried)
        } else {
            Err(AppErrorView::Jwt(TokenError::WrongTokenType))
        },
        Err(why) => Err(why),
    }
}

/// Whether a token that does not open can be refused so: for its
/// signature, or as malformed.
pub open spec fn is_open_refusal(refusal: TokenError) -> bool {
    refusal == TokenError::InvalidSignature || refusal == TokenError::Malformed
}

/// What the expiry check at `now`, a time in seconds since the Unix epoch,
/// makes of claims or of a refusal: claims whose expiry lies before `now`
/// are refused as expired, all other claims pass, and a refusal stays what
/// it is.
pub open spec fn expiry_read(verified: Result<ClaimsView, AppErrorView>, now: int) -> Result<
    ClaimsView,
    AppErrorView,
> {
    match verified {
        Ok(carried) => if carried.exp < now {
            Err(AppErrorView::Jwt(TokenError::Expired))
        } else {
            Ok(carried)
        },
        Err(why) => Err(why),
    }
}

/// What verifying `token` under `secret` at `now` comes to. A token that
/// opens gives the claims that its payload carries, if it carries all six
/// and their expiry does not lie before `now`; it is malformed if it lacks
/// one, and expired if the expiry has passed. A token that does not open is
/// refused with `refusal`.
pub open spec fn verified_at(token: Seq<char>, secret: Seq<char>, now: int, refusal: TokenError)
    -> Result<ClaimsView, AppErrorView> {
    expiry_read(
        match opened_claims(token, secret) {
            Some(entries) => match claims_in(entries.0, entries.1) {
                Some(carried) => Ok(carried),
                None => Err(AppErrorView::Jwt(TokenError::Malformed)),
            },
            None => Err(AppErrorView::Jwt(refusal)),
        },
        now,
    )
}

/// A token or a refusal, as plain text.
pub open spec fn token_outcome(token: AppResult<String>) -> Result<Seq<char>, AppErrorView> {
    match token {
        Ok(text) => Ok(text@),
        Err(why) => Err(why@),
    }
}

/// The JSON object that carries `claims`.
pub fn object_of(claims: &Claims) -> (object: serde_json::Map<String, serde_json::Value>)
    ensures
        text_claims(object) == claim_texts(claims@),
        integer_claims(object) == claim_integers(claims@),
        other_claims(object) == Set::<Seq<char>>::empty(),
{
    let mut object = empty_object();
    put_text(&mut object, "sub", claims.sub.as_str());
    put_text(&mut object, "email", claims.email.as_str());
    put_text(&mut object, "role", claims.role.name());
    put_text(&mut object, "token_type", claims.token_type.name());
    put_integer(&mut object, "exp", claims.exp);
    put_integer(&mut object, "iat", claims.iat);
    proof {
        claim_keys_differ();
        assert(text_claims(object) =~= claim_texts(claims@));
        assert(integer_claims(object) =~= claim_integers(claims@));
        assert(other_claims(object) =~= Set::<Seq<char>>::empty());
    }
    object
}

/// The six claim names are pairwise distinct.
pub proof fn claim_keys_differ()
    ensures
        "sub"@ != "email"@,
        "sub"@ != "role"@,
        "sub"@ != "token_type"@,
        "sub"@ != "exp"@,
        "sub"@ != "iat"@,
        "email"@ != "role"@,
        "email"@ != "token_type"@,
        "email"@ != "exp"@,
        "email"@ != "iat"@,
        "role"@ != "token_type"@,
        "role"@ != "exp"@,
        "role"@ != "iat"@,
        "token_type"@ != "exp"@,
        "token_type"@ != "iat"@,
        "exp"@ != "iat"@,
{
    reveal_strlit("sub");
    reveal_strlit("email");
    reveal_strlit("role");
    reveal_strlit("token_type");
    reveal_strlit("exp");
    reveal_strlit("iat");
    assert("sub"@[0] == 's');
    assert("email"@[0] == 'e');
    assert("role"@[0] == 'r');
    assert("token_type"@[0] == 't');
    assert("exp"@[0] == 'e');
    assert("iat"@[0] == 'i');
    assert("email"@.len() == 5);
    assert("exp"@.len() == 3);
}

/// The claims that a decoded payload carries, if it carries all six.
pub fn claims_of(object: &serde_json::Map<String, serde_json::Value>) -> (claims: Option<Claims>)
    ensures
        claims is Some <==> claims_in(text_claims(*object), integer_claims(*object)) is Some,
        claims is Some ==> Some(claims->0@) == claims_in(
            text_claims(*object),
            integer_claims(*object),
        ),
{
    proof {
        crate::models::user_model::role_names_differ();
        token_type_names_differ();
    }
    let sub = match get_text(object, "sub") {
        Some(v) => v,
        None => { return None; },
    };
    let email = match get_text(object, "email") {
        Some(v) => v,
        None => { return None; },
    };
    let role = match get_text(object, "role") {
        Some(v) => match Role::parse(v.as_str()) {
            Some(r) => r,
            None => { return None; },
        },
        None => { return None; },
    };
    let token_type = match get_text(object, "token_type") {
        Some(v) => match TokenType::parse(v.as_str()) {
            Some(k) => k,
            None => { return None; },
        },
        None => { return None; },
    };
    let exp = match get_integer(object, "exp") {
        Some(v) => v,
        None => { return None; },
    };
    let iat = match get_integer(object, "iat") {
        Some(v) => v,
        None => { return None; },
    };
    proof {
        let texts = text_claims(*object);
        assert(texts["role"@] == role_name(role));
        assert(texts["token_type"@] == token_type_name(token_type));
        let r2 = choose|r: Role| texts["role"@] == role_name(r);
        let k2 = choose|k: TokenType| texts["token_type"@] == token_type_name(k);
        assert(r2 == role);
        assert(k2 == token_type);
    }
    Some(Claims { sub, email, role, exp, iat, token_type })
}

/// Mints and verifies tokens with one shared secret.
pub struct JwtService {
    secret: String,
    access_expires_in: i64,
    refresh_expires_in: i64,
}

impl JwtService {
    /// The shared secret.
    pub closed spec fn secret(&self) -> Seq<char> {
        self.secret@
    }

    /// Seconds for which an access token is good.
    pub closed spec fn access_ttl(&self) -> int {
        self.access_expires_in as int
    }

    /// Seconds for which a refresh token is good.
    pub closed spec fn refresh_ttl(&self) -> int {
        self.refresh_expires_in as int
    }

    /// Seconds for which a token of `kind` is good.
    pub open spec fn ttl(&self, kind: TokenType) -> int {
        match kind {
            TokenType::Access => self.access_ttl(),
            TokenType::Refresh => self.refresh_ttl(),
        }
    }

    /// A service that signs with `secret` and gives access and refresh
    /// tokens the stated lifetimes, in seconds.
    pub fn new(secret: &str, access_expires_in: i64, refresh_expires_in: i64) -> (service:
        JwtService)
        ensures
            service.secret() == secret@,
            service.access_ttl() == access_expires_in,
            service.refresh_ttl() == refresh_expires_in,
    {
        JwtService { secret: secret.to_owned(), access_expires_in, refresh_expires_in }
    }

    /// Seconds for which an access token is good.
    pub fn access_expires_in(&self) -> (ttl: i64)
        ensures
            ttl == self.access_ttl(),
    {
        self.access_expires_in
    }

    /// Seconds for which a refresh token is good.
    pub fn refresh_expires_in(&self) -> (ttl: i64)
        ensures
            ttl == self.refresh_ttl(),
    {
        self.refresh_expires_in
    }

    /// The token that carries `claims`, signed with this service's secret.
    /// A failure of the signing primitive is an internal error.
    pub fn sign(&self, claims: &Claims) -> (token: AppResult<String>)
        ensures
            match signed_token(claim_texts(claims@), claim_integers(claims@), self.secret()) {
                Some(text) => token is Ok && token->Ok_0@ == text,
                None => token is Err && token->Err_0@ == AppErrorView::InternalServer,
            },
    {
        let object = object_of(claims);
        match sign_object(&object, self.secret.as_str()) {
            Ok(text) => Ok(text),
            Err(_) => Err(AppError::InternalServer),
        }
    }

    /// The token of `kind` that this service issues to the named account at
    /// `now`, a time in seconds since the Unix epoch: issued at `now`, good
    /// for this kind's lifetime. No token is made where the expiry is no
    /// `i64`, or where the signing primitive fails.
    pub open spec fn issued(
        &self,
        kind: TokenType,
        user_id: Seq<char>,
        email: Seq<char>,
        role: Role,
        now: int,
    ) -> Result<Seq<char>, AppErrorView> {
        let claims = claims_for(kind, user_id, email, role, now, self.ttl(kind));
        if i64::MIN <= now + self.ttl(kind) <= i64::MAX {
            match signed_token(claim_texts(claims), claim_integers(claims), self.secret()) {
                Some(text) => Ok(text),
                None => Err(AppErrorView::InternalServer),
            }
        } else {
            Err(AppErrorView::InternalServer)
        }
    }

    /// A token of `kind` for the named account as of `now`, a time in
    /// seconds since the Unix epoch.
    pub fn issue_at(&self, kind: TokenType, user_id: &str, email: &str, role: Role, now: i64) -> (token:
        AppResult<String>)
        ensures
            token_outcome(token) == self.issued(kind, user_id@, email@, role, now as int),
    {
        let ttl = match kind {
            TokenType::Access => self.access_expires_in,
            TokenType::Refresh => self.refresh_expires_in,
        };
        match now.checked_add(ttl) {
            Some(exp) => {
                let claims = Claims {
                    sub: user_id.to_owned(),
                    email: email.to_owned(),
                    role,
                    exp,
                    iat: now,
                    token_type: kind,
                };
                assert(claims@ == claims_for(
                    kind,
                    user_id@,
                    email@,
                    role,
                    now as int,
                    self.ttl(kind),
                ));
                self.sign(&claims)
            },
            None => Err(AppError::InternalServer),
        }
    }

    /// An access token for the named account, issued now.
    pub fn generate_access_token(&self, user_id: &str, email: &str, role: Role) -> (token:
        AppResult<String>)
        ensures
            exists|now: int|
                clock_reads(now) && token_outcome(token) == #[trigger] self.issued(
                    TokenType::Access,
                    user_id@,
                    email@,
                    role,
                    now,
                ),
    {
        let now = seconds_of(now_micros());
        self.issue_at(TokenType::Access, user_id, email, role, now)
    }

    /// A refresh token for the named account, issued now.
    pub fn generate_refresh_token(&self, user_id: &str, email: &str, role: Role) -> (token:
        AppResult<String>)
        ensures
            exists|now: int|
                clock_reads(now) && token_outcome(token) == #[trigger] self.issued(
                    TokenType::Refresh,
                    user_id@,
                    email@,
                    role,
                    now,
                ),
    {
        let now = seconds_of(now_micros());
        self.issue_at(TokenType::Refresh, user_id, email, role, now)
    }

    /// What the outcome of opening a token comes to: a payload that carries
    /// all six claims gives them, any other payload is malformed, and a
    /// refusal stays what it is.
    pub fn read_payload(
        opened: Result<serde_json::Map<String, serde_json::Value>, TokenError>,
    ) -> (claims: AppResult<Claims>)
        ensures
            claims_outcome(claims) == payload_read(opened),
    {
        match opened {
            Ok(payload) => match claims_of(&payload) {
                Some(claims) => Ok(claims),
                None => Err(AppError::Jwt(TokenError::Malformed)),
            },
            Err(refusal) => Err(AppError::Jwt(refusal)),
        }
    }

    /// Claims that have not expired at `now`, a time in seconds since the
    /// Unix epoch.
    pub fn require_unexpired(verified: AppResult<Claims>, now: i64) -> (checked: AppResult<
        Claims,
    >)
        ensures
            claims_outcome(checked) == expiry_read(claims_outcome(verified), now as int),
    {
        match verified {
            Ok(claims) => if claims.exp < now {
                Err(AppError::Jwt(TokenError::Expired))
            } else {
                Ok(claims)
            },
            Err(why) => Err(why),
        }
    }

    /// The claims of `token` as of `now`, a time in seconds since the Unix
    /// epoch: what [`verified_at`] says. The token is opened with this
    /// service's secret; how a token that does not open is refused is for
    /// the signing primitive to say.
    pub fn verify_token_at(&self, token: &str, now: i64) -> (claims: AppResult<Claims>)
        ensures
            exists|refusal: TokenError|
                is_open_refusal(refusal) && claims_outcome(claims) == #[trigger] verified_at(
                    token@,
                    self.secret(),
                    now as int,
                    refusal,
                ),
    {
        let opened = match open_token(token, self.secret.as_str()) {
            Ok(payload) => Ok(payload),
            Err(fault) => Err(refusal_of(&fault)),
        };
        let ghost refusal = match opened {
            Ok(_) => TokenError::Malformed,
            Err(why) => why,
        };
        let claims = Self::require_unexpired(Self::read_payload(opened), now);
        assert(is_open_refusal(refusal) && claims_outcome(claims) == verified_at(
            token@,
            self.secret(),
            now as int,
            refusal,
        ));
        claims
    }

    /// The claims of `token`, if its signature matches this service's secret,
    /// its payload carries all six claims and its expiry has not passed:
    /// what [`verified_at`] says for the time that the clock reads. Every
    /// refusal is a token error, never one about the kind.
    pub fn verify_token(&self, token: &str) -> (claims: AppResult<Claims>)
        ensures
            exists|now: int, refusal: TokenError|
                clock_reads(now) && is_open_refusal(refusal) && claims_outcome(claims)
                    == #[trigger] verified_at(token@, self.secret(), now, refusal),
            claims is Err ==> (claims->Err_0@ matches AppErrorView::Jwt(why) && why
                != TokenError::WrongTokenType),
    {
        let now = seconds_of(now_micros());
        let claims = self.verify_token_at(token, now);
        let ghost refusal = choose|refusal: TokenError|
            is_open_refusal(refusal) && claims_outcome(claims) == #[trigger] verified_at(
                token@,
                self.secret(),
                now as int,
                refusal,
            );
        assert(clock_reads(now as int) && is_open_refusal(refusal) && claims_outcome(claims)
            == verified_at(token@, self.secret(), now as int, refusal));
        claims
    }

    /// Verified claims, if they are of the `expected` kind.
    pub fn require_kind(claims: Claims, expected: TokenType) -> (checked: AppResult<Claims>)
        ensures
            crate::errors::outcome(checked) == kind_checked(claims, expected),
    {
        match (claims.token_type, expected) {
            (TokenType::Access, TokenType::Access) => Ok(claims),
            (TokenType::Refresh, TokenType::Refresh) => Ok(claims),
            _ => Err(AppError::Jwt(TokenError::WrongTokenType)),
        }
    }

    /// What [`JwtService::verify_access_token`] makes of verified claims or
    /// of a refusal.
    pub fn require_kind_of(verified: AppResult<Claims>, expected: TokenType) -> (checked:
        AppResult<Claims>)
        ensures
            match verified {
                Ok(claims) => crate::errors::outcome(checked) == kind_checked(claims, expected),
                Err(why) => checked == Err::<Claims, AppError>(why),
            },
            claims_outcome(checked) == kind_read(claims_outcome(verified), expected),
    {
        match verified {
            Ok(claims) => Self::require_kind(claims, expected),
            Err(why) => Err(why),
        }
    }

    /// The claims of `token`, if it verifies and is of the `expected` kind:
    /// what [`kind_read`] makes of what [`JwtService::verify_token`] gives.
    fn verify_kind(&self, token: &str, expected: TokenType) -> (claims: AppResult<Claims>)
        ensures
            exists|now: int, refusal: TokenError|
                clock_reads(now) && is_open_refusal(refusal) && claims_outcome(claims)
                    == kind_read(
                    #[trigger] verified_at(token@, self.secret(), now, refusal),
                    expected,
                ),
            claims is Ok ==> claims->Ok_0.token_type == expected,
            claims is Err ==> claims->Err_0@ is Jwt,
    {
        let verified = self.verify_token(token);
        let ghost (now, refusal) = choose|now: int, refusal: TokenError|
            clock_reads(now) && is_open_refusal(refusal) && claims_outcome(verified)
                == #[trigger] verified_at(token@, self.secret(), now, refusal);
        let claims = Self::require_kind_of(verified, expected);
        assert(clock_reads(now) && is_open_refusal(refusal) && claims_outcome(claims)
            == kind_read(verified_at(token@, self.secret(), now, refusal), expected));
        claims
    }

    /// The claims of `token`, if it verifies and is an access token.
    ///
    /// The token is opened with this service's secret and judged at the
    /// time that the clock reads. What is returned is the claims that its
    /// payload carries, if they have not expired and say that this is an
    /// access token; a refusal for the kind, if they say that it is a
    /// refresh token; else the refusal of the token.
    pub fn verify_access_token(&self, token: &str) -> (claims: AppResult<Claims>)
        ensures
            exists|now: int, refusal: TokenError|
                clock_reads(now) && is_open_refusal(refusal) && claims_outcome(claims)
                    == kind_read(
                    #[trigger] verified_at(token@, self.secret(), now, refusal),
                    TokenType::Access,
                ),
            claims is Ok ==> claims->Ok_0.token_type == TokenType::Access,
            claims is Err ==> claims->Err_0@ is Jwt,
    {
        self.verify_kind(token, TokenType::Access)
    }

    /// The claims of `token`, if it verifies and is a refresh token.
    ///
    /// The token is opened with this service's secret and judged at the
    /// time that the clock reads. What is returned is the claims that its
    /// payload carries, if they have not expired and say that this is a
    /// refresh token; a refusal for the kind, if they say that it is an
    /// access token; else the refusal of the token.
    pub fn verify_refresh_token(&self, token: &str) -> (claims: AppResult<Claims>)
        ensures
            exists|now: int, refusal: TokenError|
                clock_reads(now) && is_open_refusal(refusal) && claims_outcome(claims)
                    == kind_read(
                    #[trigger] verified_at(token@, self.secret(), now, refusal),
                    TokenType::Refresh,
                ),
            claims is Ok ==> claims->Ok_0.token_type == TokenType::Refresh,
            claims is Err ==> claims->Err_0@ is Jwt,
    {
        self.verify_kind(token, TokenType::Refresh)
    }
}

/// Claims whose expiry has passed fail every check: the plain one, and the
/// check for either kind, whatever their own kind is.
pub proof fn expired_claims_fail_every_check(claims: ClaimsView, now: int, expected: TokenType)
    requires
        claims.exp < now,
    ensures
        expiry_read(Ok(claims), now) == Err::<ClaimsView, AppErrorView>(
            AppErrorView::Jwt(TokenError::Expired),
        ),
        kind_read(expiry_read(Ok(claims), now), expected) == Err::<ClaimsView, AppErrorView>(
            AppErrorView::Jwt(TokenError::Expired),
        ),
{
}

/// Claims of one kind that have not expired pass the check for their kind
/// and fail the check for the other.
pub proof fn live_claims_pass_for_their_kind_only(claims: ClaimsView, now: int)
    requires
        claims.exp >= now,
    ensures
        kind_read(expiry_read(Ok(claims), now), claims.token_type) == Ok::<
            ClaimsView,
            AppErrorView,
        >(claims),
        forall|other: TokenType|
            other != claims.token_type ==> #[trigger] kind_read(
                expiry_read(Ok(claims), now),
                other,
            ) == Err::<ClaimsView, AppErrorView>(AppErrorView::Jwt(TokenError::WrongTokenType)),
{
}

/// Claims that are written into a JSON object are read back as they were.
pub proof fn claims_survive_the_object(claims: ClaimsView)
    ensures
        claims_in(claim_texts(claims), claim_integers(claims)) == Some(claims),
{
    claim_keys_differ();
    crate::models::user_model::role_names_differ();
    token_type_names_differ();
    let texts = claim_texts(claims);
    let integers = claim_integers(claims);
    assert(texts["role"@] == role_name(claims.role));
    assert(texts["token_type"@] == token_type_name(claims.token_type));
    let role = choose|r: Role| texts["role"@] == role_name(r);
    let kind = choose|k: TokenType| texts["token_type"@] == token_type_name(k);
    assert(role == claims.role);
    assert(kind == claims.token_type);
    assert(texts["sub"@] == claims.sub);
    assert(texts["email"@] == claims.email);
    assert(integers["exp"@] == claims.exp);
    assert(integers["iat"@] == claims.iat);
}

/// Claims issued as one kind never pass the check for the other kind.
pub proof fn kinds_do_not_cross(claims: Claims, expected: TokenType)
    requires
        claims.token_type != expected,
    ensures
        kind_checked(claims, expected) == Err::<Claims, AppErrorView>(
            AppErrorView::Jwt(TokenError::WrongTokenType),
        ),
{
}

} // verus!
