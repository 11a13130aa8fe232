//! The account service: registration, login, and the renewal of tokens.
//!
//! Email and username are unique among accounts. A registration asks the
//! store whether either is taken before it inserts; the store's own
//! constraint has the last word, and its refusal is a conflict, no fault.

use vstd::prelude::*;
use vstd::std_specs::convert::FromSpec;
use vstd::string::StringExecFns;
use crate::cache::keys::EntityKind;
use crate::errors::{AppError, AppErrorView, AppResult, TokenError};
use crate::models::auth_model::{Auth, LoginDto, RegisterDto};
use crate::models::user_model::{Role, SafeUser, User};
use crate::query::{
    insert_row,
    insert_statement,
    value_views,
    ChangeSet,
    SqlValue,
    SqlValueView,
    Statement,
    StatementView,
};
use crate::services::repository::{
    begin_read,
    fault_error,
    Effect,
    Intent,
    Record,
    Session,
    StoreFault,
    StoreFaultView,
};
use crate::text::texts;
use crate::utils::clock::{clock_reads, now_micros, seconds_of};
use crate::utils::ident::fresh_id;
use crate::utils::jwt::{
    claims_outcome,
    is_open_refusal,
    kind_read,
    verified_at,
    Claims,
    JwtService,
    TokenType,
};
use crate::utils::password::{argon2_accepts, phc_fault, PasswordService};

verus! {

impl Record for SafeUser {
    open spec fn key(&self) -> Seq<char> {
        self.id@
    }

    open spec fn parent(&self) -> Option<Seq<char>> {
        None
    }

    fn id(&self) -> (id: String) {
        self.id.clone()
    }

    fn parent_id(&self) -> (parent: Option<String>) {
        None
    }
}

/// An account with its tokens, or a refusal, as plain values.
pub open spec fn auth_outcome(auth: AppResult<Auth>) -> Result<
    (SafeUser, Seq<char>, Seq<char>),
    AppErrorView,
> {
    match auth {
        Ok(auth) => Ok((auth.user, auth.access_token@, auth.refresh_token@)),
        Err(why) => Err(why@),
    }
}

/// The token pair that `jwt` issues to `user` at `now`, a time in seconds
/// since the Unix epoch: an access token and a refresh token, or the first
/// refusal.
pub open spec fn granted(jwt: JwtService, user: SafeUser, now: int) -> Result<
    (SafeUser, Seq<char>, Seq<char>),
    AppErrorView,
> {
    match jwt.issued(TokenType::Access, user.id@, user.email@, user.role, now) {
        Ok(access) => match jwt.issued(
            TokenType::Refresh,
            user.id@,
            user.email@,
            user.role,
            now,
        ) {
            Ok(refresh) => Ok((user, access, refresh)),
            Err(why) => Err(why),
        },
        Err(why) => Err(why),
    }
}

/// What a login attempt comes to, given the account that the store holds
/// under the email: no account, a hash that cannot be read, or a password
/// that does not match are all the same refusal; a match is granted tokens.
pub open spec fn login_checked(
    jwt: JwtService,
    password: Seq<char>,
    account: Option<User>,
    now: int,
) -> Result<(SafeUser, Seq<char>, Seq<char>), AppErrorView> {
    match account {
        Some(user) => if phc_fault(user.password@) is None && argon2_accepts(
            password,
            user.password@,
        ) {
            granted(jwt, SafeUser::from_spec(user), now)
        } else {
            Err(AppErrorView::Unauthorized)
        },
        None => Err(AppErrorView::Unauthorized),
    }
}

/// The statement that asks whether a value is taken in a column of the
/// accounts.
pub open spec fn taken_statement(column: Seq<char>, value: Seq<char>) -> StatementView {
    StatementView {
        sql: "SELECT EXISTS(SELECT 1 FROM \"User\" WHERE "@ + column + " = $1)"@,
        binds: seq![SqlValueView::Text(value)],
    }
}

/// The statement that reads the account under an email, password hash
/// included.
pub open spec fn by_email_statement(email: Seq<char>) -> StatementView {
    StatementView {
        sql: "SELECT id, username, email, password, role, bio, profile_pic FROM \"User\" WHERE email = $1"@,
        binds: seq![SqlValueView::Text(email)],
    }
}

/// The columns that a new account fills.
pub open spec fn account_columns() -> Seq<Seq<char>> {
    seq!["id"@, "username"@, "email"@, "password"@, "created_at"@, "updated_at"@, "role"@]
}

/// A new account as plain values.
pub struct AccountView {
    pub id: Seq<char>,
    pub username: Seq<char>,
    pub email: Seq<char>,
    pub password: Seq<char>,
    pub role: Role,
}

/// The values of a new account created at `now`, column by column.
pub open spec fn account_values(account: AccountView, now: i64) -> Seq<SqlValueView> {
    seq![
        SqlValueView::Text(account.id),
        SqlValueView::Text(account.username),
        SqlValueView::Text(account.email),
        SqlValueView::Text(account.password),
        SqlValueView::Timestamp(now),
        SqlValueView::Timestamp(now),
        SqlValueView::Role(account.role),
    ]
}

/// The statement that stores a new account.
pub open spec fn account_insert(account: AccountView, now: i64) -> StatementView {
    insert_statement(EntityKind::User, account_columns(), account_values(account, now))
}

/// The plain values of an account row.
pub open spec fn account_view(user: User) -> AccountView {
    AccountView {
        id: user.id@,
        username: user.username@,
        email: user.email@,
        password: user.password@,
        role: user.role,
    }
}

/// What a registration waits for.
#[derive(Clone, Copy, Debug, PartialEq, Eq, Structural)]
pub enum RegistrationPhase {
    /// Whether the email is taken.
    AwaitEmail,
    /// Whether the username is taken.
    AwaitUsername,
    /// The account as the store has written it.
    AwaitInsert,
    /// Nothing: the registration is over.
    Finished,
}

/// One registration in progress.
#[derive(Debug, PartialEq, Eq)]
pub struct Registration {
    request: RegisterDto,
    phase: RegistrationPhase,
}

/// A [`Registration`] as plain values.
pub struct RegistrationView {
    pub username: Seq<char>,
    pub email: Seq<char>,
    pub password: Seq<char>,
    pub phase: RegistrationPhase,
}

impl View for Registration {
    type V = RegistrationView;

    closed spec fn view(&self) -> RegistrationView {
        RegistrationView {
            username: self.request.username@,
            email: self.request.email@,
            password: self.request.password@,
            phase: self.phase,
        }
    }
}

/// What is to be done next for a registration.
#[derive(Debug, PartialEq, Eq)]
pub enum AccountEffect {
    /// Ask with `statement` whether `email` is taken.
    EmailTaken { email: String, statement: Statement },
    /// Ask with `statement` whether `username` is taken.
    UsernameTaken { username: String, statement: Statement },
    /// Store `user` with `statement`.
    Insert { user: User, statement: Statement },
    /// Hand the result to the caller.
    Finish(AppResult<Auth>),
}

/// An [`AccountEffect`] as plain values.
pub enum AccountEffectView {
    EmailTaken { email: Seq<char>, statement: StatementView },
    UsernameTaken { username: Seq<char>, statement: StatementView },
    Insert { user: AccountView, statement: StatementView },
    Finish(Result<(SafeUser, Seq<char>, Seq<char>), AppErrorView>),
}

impl View for AccountEffect {
    type V = AccountEffectView;

    open spec fn view(&self) -> AccountEffectView {
        match self {
            AccountEffect::EmailTaken { email, statement } => AccountEffectView::EmailTaken {
                email: email@,
                statement: statement@,
            },
            AccountEffect::UsernameTaken { username, statement } =>
                AccountEffectView::UsernameTaken { username: username@, statement: statement@ },
            AccountEffect::Insert { user, statement } => AccountEffectView::Insert {
                user: account_view(*user),
                statement: statement@,
            },
            AccountEffect::Finish(result) => AccountEffectView::Finish(auth_outcome(*result)),
        }
    }
}

/// What came of the last effect of a registration.
#[derive(Debug, PartialEq, Eq)]
pub enum AccountReply {
    /// Whether the value is taken.
    Exists(bool),
    /// The account as the store has written it.
    Inserted(SafeUser),
    /// The store failed.
    Fault(StoreFault),
}

/// An [`AccountReply`] as plain values.
pub enum AccountReplyView {
    Exists(bool),
    Inserted(SafeUser),
    Fault(StoreFaultView),
}

impl View for AccountReply {
    type V = AccountReplyView;

    open spec fn view(&self) -> AccountReplyView {
        match self {
            AccountReply::Exists(taken) => AccountReplyView::Exists(*taken),
            AccountReply::Inserted(user) => AccountReplyView::Inserted(*user),
            AccountReply::Fault(fault) => AccountReplyView::Fault(fault@),
        }
    }
}

/// What a registration takes from outside the store: an identifier, the
/// time in microseconds since the Unix epoch, and the hash of the password.
#[derive(Debug, PartialEq, Eq)]
pub struct Supplies {
    pub id: String,
    pub now: i64,
    pub hashed: AppResult<String>,
}

/// [`Supplies`] as plain values.
pub struct SuppliesView {
    pub id: Seq<char>,
    pub now: i64,
    pub hashed: Result<Seq<char>, AppErrorView>,
}

impl View for Supplies {
    type V = SuppliesView;

    open spec fn view(&self) -> SuppliesView {
        SuppliesView {
            id: self.id@,
            now: self.now,
            hashed: crate::utils::jwt::token_outcome(self.hashed),
        }
    }
}

/// A registration in another phase.
pub open spec fn registration_at(registration: RegistrationView, phase: RegistrationPhase)
    -> RegistrationView {
    RegistrationView {
        username: registration.username,
        email: registration.email,
        password: registration.password,
        phase,
    }
}

/// A registration that is over, with its result.
pub open spec fn registration_finished(
    registration: RegistrationView,
    result: Result<(SafeUser, Seq<char>, Seq<char>), AppErrorView>,
) -> (RegistrationView, AccountEffectView) {
    (
        registration_at(registration, RegistrationPhase::Finished),
        AccountEffectView::Finish(result),
    )
}

/// How a registration begins: by asking whether the email is taken.
pub open spec fn begin_registration(username: Seq<char>, email: Seq<char>, password: Seq<char>)
    -> (RegistrationView, AccountEffectView) {
    (
        RegistrationView { username, email, password, phase: RegistrationPhase::AwaitEmail },
        AccountEffectView::EmailTaken { email, statement: taken_statement("email"@, email) },
    )
}

/// The registration's answer to a reply.
///
/// A taken email or username ends it as a bad request. Else the account is
/// stored under the supplied identifier with the supplied hash, as an
/// ordinary user, and the stored account is granted tokens. A failure of
/// the hash or of the store ends it with that failure.
pub open spec fn registration_advance(
    registration: RegistrationView,
    reply: AccountReplyView,
    jwt: JwtService,
    supplies: SuppliesView,
) -> (RegistrationView, AccountEffectView) {
    let confused = registration_finished(registration, Err(AppErrorView::InternalServer));
    match registration.phase {
        RegistrationPhase::AwaitEmail => match reply {
            AccountReplyView::Exists(true) => registration_finished(
                registration,
                Err(AppErrorView::BadRequest("Email already exists"@)),
            ),
            AccountReplyView::Exists(false) => (
                registration_at(registration, RegistrationPhase::AwaitUsername),
                AccountEffectView::UsernameTaken {
                    username: registration.username,
                    statement: taken_statement("username"@, registration.username),
                },
            ),
            AccountReplyView::Fault(fault) => registration_finished(
                registration,
                Err(fault_error(fault)),
            ),
            _ => confused,
        },
        RegistrationPhase::AwaitUsername => match reply {
            AccountReplyView::Exists(true) => registration_finished(
                registration,
                Err(AppErrorView::BadRequest("Username already exists"@)),
            ),
            AccountReplyView::Exists(false) => match supplies.hashed {
                Ok(hash) => {
                    let account = AccountView {
                        id: supplies.id,
                        username: registration.username,
                        email: registration.email,
                        password: hash,
                        role: Role::User,
                    };
                    (
                        registration_at(registration, RegistrationPhase::AwaitInsert),
                        AccountEffectView::Insert {
                            user: account,
                            statement: account_insert(account, supplies.now),
                        },
                    )
                },
                Err(why) => registration_finished(registration, Err(why)),
            },
            AccountReplyView::Fault(fault) => registration_finished(
                registration,
                Err(fault_error(fault)),
            ),
            _ => confused,
        },
        RegistrationPhase::AwaitInsert => match reply {
            AccountReplyView::Inserted(user) => if supplies.now >= 0 {
                registration_finished(
                    registration,
                    granted(jwt, user, supplies.now as int / 1_000_000),
                )
            } else {
                confused
            },
            AccountReplyView::Fault(fault) => registration_finished(
                registration,
                Err(fault_error(fault)),
            ),
            _ => confused,
        },
        RegistrationPhase::Finished => confused,
    }
}

/// Registers, logs in, and renews.
pub struct AuthService;

impl AuthService {
    pub fn new() -> (service: AuthService) {
        AuthService
    }

    /// An access token and a refresh token for `user`, issued at `now`, a
    /// time in seconds since the Unix epoch.
    pub fn grant_at(jwt: &JwtService, user: SafeUser, now: i64) -> (auth: AppResult<Auth>)
        ensures
            auth_outcome(auth) == granted(*jwt, user, now as int),
    {
        let access = jwt.issue_at(
            TokenType::Access,
            user.id.as_str(),
            user.email.as_str(),
            user.role,
            now,
        );
        match access {
            Ok(access_token) => {
                let refresh = jwt.issue_at(
                    TokenType::Refresh,
                    user.id.as_str(),
                    user.email.as_str(),
                    user.role,
                    now,
                );
                match refresh {
                    Ok(refresh_token) => Ok(Auth::new(user, access_token, refresh_token)),
                    Err(why) => Err(why),
                }
            },
            Err(why) => Err(why),
        }
    }

    /// An access token and a refresh token for `user`, issued now.
    pub fn grant(jwt: &JwtService, user: SafeUser) -> (auth: AppResult<Auth>)
        ensures
            exists|now: int|
                clock_reads(now) && auth_outcome(auth) == #[trigger] granted(*jwt, user, now),
    {
        let now = seconds_of(now_micros());
        Self::grant_at(jwt, user, now)
    }

    /// The statement that asks whether `value` is taken in `column`.
    fn taken(column: &str, value: &str) -> (statement: Statement)
        ensures
            statement@ == taken_statement(column@, value@),
    {
        let sql = String::from_str("SELECT EXISTS(SELECT 1 FROM \"User\" WHERE ").concat(
            column,
        ).concat(" = $1)");
        let mut binds: Vec<SqlValue> = Vec::new();
        binds.push(SqlValue::Text(value.to_owned()));
        assert(value_views(binds@) =~= seq![SqlValueView::Text(value@)]);
        Statement { sql, binds }
    }

    /// The statement that reads the account under `email`.
    pub fn get_user_by_email(email: &str) -> (statement: Statement)
        ensures
            statement@ == by_email_statement(email@),
    {
        let sql = String::from_str(
            "SELECT id, username, email, password, role, bio, profile_pic FROM \"User\" WHERE email = $1",
        );
        let mut binds: Vec<SqlValue> = Vec::new();
        binds.push(SqlValue::Text(email.to_owned()));
        assert(value_views(binds@) =~= seq![SqlValueView::Text(email@)]);
        Statement { sql, binds }
    }

    /// Begins a read of the account `id`, without its password hash.
    pub fn get_user_by_id(id: &str) -> (begun: (Session<SafeUser>, Effect<SafeUser>))
        ensures
            (begun.0@, begun.1@) == begin_read::<SafeUser>(EntityKind::User, id@, Intent::Read),
    {
        Session::read(EntityKind::User, id)
    }

    /// What a login attempt comes to at `now`, a time in seconds since the
    /// Unix epoch, given the account that the store holds under the
    /// request's email.
    pub fn login_at(jwt: &JwtService, request: &LoginDto, account: Option<User>, now: i64) -> (auth:
        AppResult<Auth>)
        ensures
            auth_outcome(auth) == login_checked(*jwt, request.password@, account, now as int),
    {
        match account {
            Some(user) => {
                match PasswordService::verify_password(
                    request.password.as_str(),
                    user.password.as_str(),
                ) {
                    Ok(true) => Self::grant_at(jwt, SafeUser::from(user), now),
                    _ => Err(AppError::Unauthorized),
                }
            },
            None => Err(AppError::Unauthorized),
        }
    }

    /// What a login attempt comes to now, given the account that the store
    /// holds under the request's email.
    pub fn login(jwt: &JwtService, request: &LoginDto, account: Option<User>) -> (auth: AppResult<
        Auth,
    >)
        ensures
            exists|now: int|
                clock_reads(now) && auth_outcome(auth) == #[trigger] login_checked(
                    *jwt,
                    request.password@,
                    account,
                    now,
                ),
    {
        let now = seconds_of(now_micros());
        Self::login_at(jwt, request, account, now)
    }

    /// The account that the store holds under an email, for a login: a
    /// lookup that fails is an account that is not there.
    pub fn found_account(lookup: Result<Option<User>, StoreFault>) -> (account: Option<User>)
        ensures
            account == match lookup {
                Ok(found) => found,
                Err(_) => None::<User>,
            },
    {
        match lookup {
            Ok(found) => found,
            Err(_) => None,
        }
    }

    /// What the outcome of verifying a refresh token begins: verified claims
    /// begin a read of the account that they name as their subject, and a
    /// refusal stays what it is.
    pub fn begin_renewal(verified: AppResult<Claims>) -> (begun: AppResult<
        (Session<SafeUser>, Effect<SafeUser>),
    >)
        ensures
            match verified {
                Ok(claims) => begun is Ok && (begun->Ok_0.0@, begun->Ok_0.1@) == begin_read::<
                    SafeUser,
                >(EntityKind::User, claims.sub@, Intent::Read),
                Err(why) => begun is Err && begun->Err_0 == why,
            },
    {
        match verified {
            Ok(claims) => Ok(Self::get_user_by_id(claims.sub.as_str())),
            Err(why) => Err(why),
        }
    }

    /// Begins the renewal of a token pair: the refresh token is verified
    /// with the service's secret at the time that the clock reads, and the
    /// account that it names is read. The account that the read returns is
    /// then granted new tokens.
    ///
    /// What is begun is the read of the subject of the claims that the
    /// token's payload carries, if they have not expired and say that this
    /// is a refresh token; any other outcome is refused as a token error.
    pub fn refresh_token(jwt: &JwtService, refresh_token: &str) -> (begun: AppResult<
        (Session<SafeUser>, Effect<SafeUser>),
    >)
        ensures
            begun is Err ==> begun->Err_0@ is Jwt,
            exists|now: int, refusal: TokenError|
                clock_reads(now) && is_open_refusal(refusal) && match kind_read(
                    #[trigger] verified_at(refresh_token@, jwt.secret(), now, refusal),
                    TokenType::Refresh,
                ) {
                    Ok(carried) => begun is Ok && (begun->Ok_0.0@, begun->Ok_0.1@)
                        == begin_read::<SafeUser>(EntityKind::User, carried.sub, Intent::Read),
                    Err(why) => begun is Err && begun->Err_0@ == why,
                },
    {
        let verified = jwt.verify_refresh_token(refresh_token);
        let ghost (now, refusal) = choose|now: int, refusal: TokenError|
            clock_reads(now) && is_open_refusal(refusal) && claims_outcome(verified)
                == kind_read(
                #[trigger] verified_at(refresh_token@, jwt.secret(), now, refusal),
                TokenType::Refresh,
            );
        let begun = Self::begin_renewal(verified);
        assert(clock_reads(now) && is_open_refusal(refusal) && match kind_read(
            verified_at(refresh_token@, jwt.secret(), now, refusal),
            TokenType::Refresh,
        ) {
            Ok(carried) => begun is Ok && (begun->Ok_0.0@, begun->Ok_0.1@) == begin_read::<
                SafeUser,
            >(EntityKind::User, carried.sub, Intent::Read),
            Err(why) => begun is Err && begun->Err_0@ == why,
        });
        begun
    }

    /// Begins a registration.
    pub fn register(request: RegisterDto) -> (begun: (Registration, AccountEffect))
        ensures
            (begun.0@, begun.1@) == begin_registration(
                request.username@,
                request.email@,
                request.password@,
            ),
    {
        let statement = Self::taken("email", request.email.as_str());
        let email = request.email.clone();
        (
            Registration { request, phase: RegistrationPhase::AwaitEmail },
            AccountEffect::EmailTaken { email, statement },
        )
    }
}

impl Registration {
    /// Whether the registration is over.
    pub fn is_finished(&self) -> (over: bool)
        ensures
            over == (self@.phase == RegistrationPhase::Finished),
    {
        self.phase == RegistrationPhase::Finished
    }

    /// Ends the registration with `result`.
    fn finish(self, result: AppResult<Auth>) -> (end: (Registration, AccountEffect))
        ensures
            (end.0@, end.1@) == registration_finished(self@, auth_outcome(result)),
    {
        (
            Registration { request: self.request, phase: RegistrationPhase::Finished },
            AccountEffect::Finish(result),
        )
    }

    /// The statement that stores `user`, created at `now`.
    fn insert(user: &User, now: i64) -> (statement: Statement)
        ensures
            statement@ == account_insert(account_view(*user), now),
    {
        let mut row = ChangeSet::new();
        row.set("id", SqlValue::Text(user.id.clone()));
        row.set("username", SqlValue::Text(user.username.clone()));
        row.set("email", SqlValue::Text(user.email.clone()));
        row.set("password", SqlValue::Text(user.password.clone()));
        row.set("created_at", SqlValue::Timestamp(now));
        row.set("updated_at", SqlValue::Timestamp(now));
        row.set("role", SqlValue::Role(user.role));
        assert(texts(row.columns@) =~= account_columns());
        assert(value_views(row.values@) =~= account_values(account_view(*user), now));
        let ChangeSet { columns, values } = row;
        insert_row(EntityKind::User, &columns, values)
    }

    /// Takes in what came of the last effect and says what to do next, with
    /// what the registration needs from outside the store handed in.
    pub fn step_with(self, reply: AccountReply, jwt: &JwtService, supplies: Supplies) -> (next: (
        Registration,
        AccountEffect,
    ))
        ensures
            (next.0@, next.1@) == registration_advance(self@, reply@, *jwt, supplies@),
    {
        match self.phase {
            RegistrationPhase::AwaitEmail => match reply {
                AccountReply::Exists(true) => self.finish(
                    Err(AppError::BadRequest(String::from_str("Email already exists"))),
                ),
                AccountReply::Exists(false) => {
                    let statement = AuthService::taken("username", self.request.username.as_str());
                    let username = self.request.username.clone();
                    (
                        Registration {
                            request: self.request,
                            phase: RegistrationPhase::AwaitUsername,
                        },
                        AccountEffect::UsernameTaken { username, statement },
                    )
                },
                AccountReply::Fault(fault) => self.finish(Err(fault.into_error())),
                _ => self.finish(Err(AppError::InternalServer)),
            },
            RegistrationPhase::AwaitUsername => match reply {
                AccountReply::Exists(true) => self.finish(
                    Err(AppError::BadRequest(String::from_str("Username already exists"))),
                ),
                AccountReply::Exists(false) => match supplies.hashed {
                    Ok(hash) => {
                        let user = User {
                            id: supplies.id,
                            profile_pic: None,
                            bio: None,
                            username: self.request.username.clone(),
                            role: Role::User,
                            email: self.request.email.clone(),
                            password: hash,
                        };
                        let statement = Self::insert(&user, supplies.now);
                        (
                            Registration {
                                request: self.request,
                                phase: RegistrationPhase::AwaitInsert,
                            },
                            AccountEffect::Insert { user, statement },
                        )
                    },
                    Err(why) => self.finish(Err(why)),
                },
                AccountReply::Fault(fault) => self.finish(Err(fault.into_error())),
                _ => self.finish(Err(AppError::InternalServer)),
            },
            RegistrationPhase::AwaitInsert => match reply {
                AccountReply::Inserted(user) => {
                    if supplies.now >= 0 {
                        let granted = AuthService::grant_at(jwt, user, seconds_of(supplies.now));
                        self.finish(granted)
                    } else {
                        self.finish(Err(AppError::InternalServer))
                    }
                },
                AccountReply::Fault(fault) => self.finish(Err(fault.into_error())),
                _ => self.finish(Err(AppError::InternalServer)),
            },
            RegistrationPhase::Finished => self.finish(Err(AppError::InternalServer)),
        }
    }

    /// Takes in what came of the last effect and says what to do next. The
    /// identifier is fresh and not empty, the time is now, and the password
    /// is hashed when, and only when, the account is about to be stored.
    pub fn step(self, reply: AccountReply, jwt: &JwtService) -> (next: (
        Registration,
        AccountEffect,
    ))
        ensures
            exists|supplies: SuppliesView|
                supplies.id.len() >= 1 && supplies.now >= 0 && (supplies.hashed is Ok ==> phc_fault(supplies.hashed->Ok_0)
                    is None && argon2_accepts(self@.password, supplies.hashed->Ok_0)) && (
                    next.0@,
                    next.1@,
                ) == #[trigger] registration_advance(self@, reply@, *jwt, supplies),
    {
        let hashed = match (self.phase, &reply) {
            (RegistrationPhase::AwaitUsername, AccountReply::Exists(false)) =>
                PasswordService::hash_password(self.request.password.as_str()),
            _ => Err(AppError::InternalServer),
        };
        let supplies = Supplies { id: fresh_id(), now: now_micros(), hashed };
        let ghost given = supplies@;
        let next = self.step_with(reply, jwt, supplies);
        assert((next.0@, next.1@) == registration_advance(self@, reply@, *jwt, given));
        next
    }
}

/// The accounts that the store holds, by identifier.
pub struct Accounts {
    pub rows: Map<Seq<char>, AccountView>,
}

/// Whether an account has this email.
pub open spec fn email_taken(accounts: Accounts, email: Seq<char>) -> bool {
    exists|id: Seq<char>| #[trigger] accounts.rows.contains_key(id) && accounts.rows[id].email == email
}

/// Whether an account has this username.
pub open spec fn username_taken(accounts: Accounts, username: Seq<char>) -> bool {
    exists|id: Seq<char>| #[trigger]
        accounts.rows.contains_key(id) && accounts.rows[id].username == username
}

/// What a faithful store makes of an effect, and what it answers. The store
/// refuses an account whose identifier, email or username is taken.
/// `written` is the account as the store returns it after an insert.
pub open spec fn accounts_respond(accounts: Accounts, effect: AccountEffectView, written: SafeUser)
    -> (Accounts, AccountReplyView) {
    match effect {
        AccountEffectView::EmailTaken { email, statement } => (
            accounts,
            AccountReplyView::Exists(email_taken(accounts, email)),
        ),
        AccountEffectView::UsernameTaken { username, statement } => (
            accounts,
            AccountReplyView::Exists(username_taken(accounts, username)),
        ),
        AccountEffectView::Insert { user, statement } => if accounts.rows.contains_key(user.id)
            || email_taken(accounts, user.email) || username_taken(accounts, user.username) {
            (accounts, AccountReplyView::Fault(StoreFaultView::UniqueViolation(user.email)))
        } else {
            (
                Accounts { rows: accounts.rows.insert(user.id, user) },
                AccountReplyView::Inserted(written),
            )
        },
        AccountEffectView::Finish(result) => (accounts, AccountReplyView::Exists(false)),
    }
}

/// A registration run to its end against a faithful store, for at most
/// `steps` effects: the accounts it leaves and its result.
pub open spec fn registration_run(
    accounts: Accounts,
    registration: RegistrationView,
    effect: AccountEffectView,
    jwt: JwtService,
    supplies: SuppliesView,
    written: SafeUser,
    steps: nat,
) -> (Accounts, Result<(SafeUser, Seq<char>, Seq<char>), AppErrorView>)
    decreases steps,
{
    match effect {
        AccountEffectView::Finish(result) => (accounts, result),
        _ => if steps == 0 {
            (accounts, Err(AppErrorView::InternalServer))
        } else {
            let (after, reply) = accounts_respond(accounts, effect, written);
            let (next, then) = registration_advance(registration, reply, jwt, supplies);
            registration_run(after, next, then, jwt, supplies, written, (steps - 1) as nat)
        },
    }
}

/// Registering an account with the given username, email and password.
pub open spec fn registered(
    accounts: Accounts,
    username: Seq<char>,
    email: Seq<char>,
    password: Seq<char>,
    jwt: JwtService,
    supplies: SuppliesView,
    written: SafeUser,
) -> (Accounts, Result<(SafeUser, Seq<char>, Seq<char>), AppErrorView>) {
    let begun = begin_registration(username, email, password);
    registration_run(accounts, begun.0, begun.1, jwt, supplies, written, 4)
}

/// A registration under an email that is taken is refused, and no account
/// is added.
pub proof fn taken_email_is_refused(
    accounts: Accounts,
    username: Seq<char>,
    email: Seq<char>,
    password: Seq<char>,
    jwt: JwtService,
    supplies: SuppliesView,
    written: SafeUser,
)
    requires
        email_taken(accounts, email),
    ensures
        registered(accounts, username, email, password, jwt, supplies, written) == (
            accounts,
            Err::<(SafeUser, Seq<char>, Seq<char>), AppErrorView>(
                AppErrorView::BadRequest("Email already exists"@),
            ),
        ),
{
    reveal_with_fuel(registration_run, 3);
}

/// A registration that succeeds leaves an account with its email behind,
/// and adds exactly that one account.
pub proof fn registration_stores_the_email(
    accounts: Accounts,
    username: Seq<char>,
    email: Seq<char>,
    password: Seq<char>,
    jwt: JwtService,
    supplies: SuppliesView,
    written: SafeUser,
)
    requires
        registered(accounts, username, email, password, jwt, supplies, written).1 is Ok,
    ensures
        !email_taken(accounts, email),
        !username_taken(accounts, username),
        email_taken(
            registered(accounts, username, email, password, jwt, supplies, written).0,
            email,
        ),
        registered(accounts, username, email, password, jwt, supplies, written).0.rows
            == accounts.rows.insert(
            supplies.id,
            AccountView {
                id: supplies.id,
                username,
                email,
                password: supplies.hashed->Ok_0,
                role: Role::User,
            },
        ),
{
    reveal_with_fuel(registration_run, 5);
    let after = registered(accounts, username, email, password, jwt, supplies, written).0;
    assert(after.rows.contains_key(supplies.id) && after.rows[supplies.id].email == email);
}

/// Of two registrations under one email, the second is refused and adds no
/// account, whoever registers and whatever else the second one says.
pub proof fn second_registration_is_refused(
    accounts: Accounts,
    first_username: Seq<char>,
    second_username: Seq<char>,
    email: Seq<char>,
    first_password: Seq<char>,
    second_password: Seq<char>,
    jwt: JwtService,
    first_supplies: SuppliesView,
    second_supplies: SuppliesView,
    first_written: SafeUser,
    second_written: SafeUser,
)
    requires
        registered(
            accounts,
            first_username,
            email,
            first_password,
            jwt,
            first_supplies,
            first_written,
        ).1 is Ok,
    ensures
        ({
            let after = registered(
                accounts,
                first_username,
                email,
                first_password,
                jwt,
                first_supplies,
                first_written,
            ).0;
            registered(
                after,
                second_username,
                email,
                second_password,
                jwt,
                second_supplies,
                second_written,
            ) == (
                after,
                Err::<(SafeUser, Seq<char>, Seq<char>), AppErrorView>(
                    AppErrorView::BadRequest("Email already exists"@),
                ),
            )
        }),
{
    registration_stores_the_email(
        accounts,
        first_username,
        email,
        first_password,
        jwt,
        first_supplies,
        first_written,
    );
    let after = registered(
        accounts,
        first_username,
        email,
        first_password,
        jwt,
        first_supplies,
        first_written,
    ).0;
    taken_email_is_refused(
        after,
        second_username,
        email,
        second_password,
        jwt,
        second_supplies,
        second_written,
    );
}

/// Where two registrations under one email both pass the check before
/// either is stored, the store refuses the later insert: it ends as a
/// conflict, and no account is added.
pub proof fn racing_registration_is_a_conflict(
    accounts: Accounts,
    registration: RegistrationView,
    user: AccountView,
    statement: StatementView,
    jwt: JwtService,
    supplies: SuppliesView,
    written: SafeUser,
)
    requires
        registration.phase == RegistrationPhase::AwaitInsert,
        email_taken(accounts, user.email),
    ensures
        registration_run(
            accounts,
            registration,
            AccountEffectView::Insert { user, statement },
            jwt,
            supplies,
            written,
            2,
        ) == (
            accounts,
            Err::<(SafeUser, Seq<char>, Seq<char>), AppErrorView>(
                AppErrorView::Conflict(user.email),
            ),
        ),
{
    reveal_with_fuel(registration_run, 3);
}

} // verus!
