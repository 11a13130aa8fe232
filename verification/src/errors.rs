//! The failure taxonomy and what a caller is told about each failure.

use vstd::prelude::*;
use vstd::string::StringExecFns;
use crate::text::texts;

verus! {

/// Why a token was refused.
#[derive(Clone, Copy, Debug, PartialEq, Eq, Structural)]
pub enum TokenError {
    /// The signature does not match the token's content.
    InvalidSignature,
    /// The expiry lies in the past.
    Expired,
    /// The text is no well-formed token carrying the expected claims.
    Malformed,
    /// The token is genuine but of the other kind.
    WrongTokenType,
}

/// One field-level validation complaint.
#[derive(Clone, Debug, PartialEq, Eq)]
pub struct FieldError {
    pub field: String,
    pub message: Option<String>,
}

/// A [`FieldError`] as plain text.
pub struct FieldErrorView {
    pub field: Seq<char>,
    pub message: Option<Seq<char>>,
}

impl View for FieldError {
    type V = FieldErrorView;

    open spec fn view(&self) -> FieldErrorView {
        FieldErrorView {
            field: self.field@,
            message: match self.message {
                Some(m) => Some(m@),
                None => None,
            },
        }
    }
}

/// Everything that can go wrong while serving a request.
#[derive(Clone, Debug, PartialEq, Eq)]
pub enum AppError {
    /// The storage layer failed; the text is for the server's log only.
    Database(String),
    /// A token was refused.
    Jwt(TokenError),
    /// The password hashing primitive failed.
    PasswordHash(String),
    /// The payload broke field-level rules.
    ValidationError(Vec<FieldError>),
    /// The request body was no valid JSON for the expected shape.
    JsonRejection(String),
    /// The payload broke a rule that concerns no single field.
    Validation(String),
    /// No credential, or one that cannot be trusted.
    Unauthorized,
    /// A trusted credential whose role does not suffice.
    Forbidden,
    /// The entity does not exist.
    NotFound(String),
    /// The write collides with a uniqueness rule.
    Conflict(String),
    /// The request is malformed.
    BadRequest(String),
    /// Anything else; never explained to the caller.
    InternalServer,
}

/// An [`AppError`] as plain text.
pub enum AppErrorView {
    Database(Seq<char>),
    Jwt(TokenError),
    PasswordHash(Seq<char>),
    ValidationError(Seq<FieldErrorView>),
    JsonRejection(Seq<char>),
    Validation(Seq<char>),
    Unauthorized,
    Forbidden,
    NotFound(Seq<char>),
    Conflict(Seq<char>),
    BadRequest(Seq<char>),
    InternalServer,
}

impl View for AppError {
    type V = AppErrorView;

    open spec fn view(&self) -> AppErrorView {
        match self {
            AppError::Database(m) => AppErrorView::Database(m@),
            AppError::Jwt(e) => AppErrorView::Jwt(*e),
            AppError::PasswordHash(m) => AppErrorView::PasswordHash(m@),
            AppError::ValidationError(fields) => AppErrorView::ValidationError(
                fields@.map_values(|f: FieldError| f@),
            ),
            AppError::JsonRejection(m) => AppErrorView::JsonRejection(m@),
            AppError::Validation(m) => AppErrorView::Validation(m@),
            AppError::Unauthorized => AppErrorView::Unauthorized,
            AppError::Forbidden => AppErrorView::Forbidden,
            AppError::NotFound(m) => AppErrorView::NotFound(m@),
            AppError::Conflict(m) => AppErrorView::Conflict(m@),
            AppError::BadRequest(m) => AppErrorView::BadRequest(m@),
            AppError::InternalServer => AppErrorView::InternalServer,
        }
    }
}

pub type AppResult<T> = Result<T, AppError>;

/// A result with its error, if any, as plain text.
pub open spec fn outcome<T>(r: Result<T, AppError>) -> Result<T, AppErrorView> {
    match r {
        Ok(v) => Ok(v),
        Err(e) => Err(e@),
    }
}

/// The uniform error envelope: a short message, a status code, and at most
/// one kind of structured detail.
#[derive(Clone, Debug, PartialEq, Eq)]
pub struct ErrorBody {
    pub status: u16,
    pub error: String,
    /// Field-level messages of a failed validation.
    pub messages: Option<Vec<String>>,
    /// Why the JSON body was refused.
    pub details: Option<String>,
}

/// The status code that answers `e`.
pub open spec fn status_of(e: AppErrorView) -> int {
    match e {
        AppErrorView::Database(_) => 500,
        AppErrorView::Jwt(_) => 401,
        AppErrorView::PasswordHash(_) => 500,
        AppErrorView::ValidationError(_) => 400,
        AppErrorView::JsonRejection(_) => 400,
        AppErrorView::Validation(_) => 400,
        AppErrorView::Unauthorized => 401,
        AppErrorView::Forbidden => 403,
        AppErrorView::NotFound(_) => 404,
        AppErrorView::Conflict(_) => 409,
        AppErrorView::BadRequest(_) => 400,
        AppErrorView::InternalServer => 500,
    }
}

/// The message that the caller reads for `e`. Storage, hashing and internal
/// failures all read the same: their cause stays on the server.
pub open spec fn message_of(e: AppErrorView) -> Seq<char> {
    match e {
        AppErrorView::Database(_) => "Internal server error"@,
        AppErrorView::Jwt(_) => "Invalid token"@,
        AppErrorView::PasswordHash(_) => "Internal server error"@,
        AppErrorView::ValidationError(_) => "Validation failed"@,
        AppErrorView::JsonRejection(_) => "Invalid JSON format"@,
        AppErrorView::Validation(m) => m,
        AppErrorView::Unauthorized => "Unauthorized"@,
        AppErrorView::Forbidden => "Forbidden"@,
        AppErrorView::NotFound(m) => m,
        AppErrorView::Conflict(m) => m,
        AppErrorView::BadRequest(m) => m,
        AppErrorView::InternalServer => "Internal server error"@,
    }
}

/// The line that reports one field complaint: the field, a colon, and the
/// complaint or a stock phrase.
pub open spec fn field_line(f: FieldErrorView) -> Seq<char> {
    f.field + ": "@ + match f.message {
        Some(m) => m,
        None => "Invalid value"@,
    }
}

/// The field-level lines that accompany `e`, if it is a failed validation.
pub open spec fn messages_of(e: AppErrorView) -> Option<Seq<Seq<char>>> {
    match e {
        AppErrorView::ValidationError(fields) => Some(
            fields.map_values(|f: FieldErrorView| field_line(f)),
        ),
        _ => None,
    }
}

/// The reason that accompanies `e`, if it is a refused JSON body.
pub open spec fn details_of(e: AppErrorView) -> Option<Seq<char>> {
    match e {
        AppErrorView::JsonRejection(m) => Some(m),
        _ => None,
    }
}

/// The log line for `e`: its class, and its cause where it carries one.
pub open spec fn description_of(e: AppErrorView) -> Seq<char> {
    match e {
        AppErrorView::Database(m) => "Database error: "@ + m,
        AppErrorView::Jwt(_) => "JWT error"@,
        AppErrorView::PasswordHash(m) => "Password hashing error: "@ + m,
        AppErrorView::ValidationError(_) => "Validation error"@,
        AppErrorView::JsonRejection(m) => "JSON parsing error: "@ + m,
        AppErrorView::Validation(m) => "Validation error: "@ + m,
        AppErrorView::Unauthorized => "Unauthorized"@,
        AppErrorView::Forbidden => "Forbidden"@,
        AppErrorView::NotFound(m) => "Not found: "@ + m,
        AppErrorView::Conflict(m) => "Conflict: "@ + m,
        AppErrorView::BadRequest(m) => "Bad request: "@ + m,
        AppErrorView::InternalServer => "Internal server error"@,
    }
}

impl FieldError {
    /// The line that reports this complaint.
    pub fn line(&self) -> (out: String)
        ensures
            out@ == field_line(self@),
    {
        let mut out = self.field.clone();
        out.append(": ");
        match &self.message {
            Some(m) => out.append(m.as_str()),
            None => out.append("Invalid value"),
        }
        out
    }
}

impl AppError {
    /// The status code that answers this error.
    pub fn status_code(&self) -> (code: u16)
        ensures
            code == status_of(self@),
    {
        match self {
            AppError::Database(_) => 500,
            AppError::Jwt(_) => 401,
            AppError::PasswordHash(_) => 500,
            AppError::ValidationError(_) => 400,
            AppError::JsonRejection(_) => 400,
            AppError::Validation(_) => 400,
            AppError::Unauthorized => 401,
            AppError::Forbidden => 403,
            AppError::NotFound(_) => 404,
            AppError::Conflict(_) => 409,
            AppError::BadRequest(_) => 400,
            AppError::InternalServer => 500,
        }
    }

    /// The message that the caller reads.
    pub fn message(&self) -> (text: String)
        ensures
            text@ == message_of(self@),
    {
        match self {
            AppError::Database(_) => String::from_str("Internal server error"),
            AppError::Jwt(_) => String::from_str("Invalid token"),
            AppError::PasswordHash(_) => String::from_str("Internal server error"),
            AppError::ValidationError(_) => String::from_str("Validation failed"),
            AppError::JsonRejection(_) => String::from_str("Invalid JSON format"),
            AppError::Validation(m) => m.clone(),
            AppError::Unauthorized => String::from_str("Unauthorized"),
            AppError::Forbidden => String::from_str("Forbidden"),
            AppError::NotFound(m) => m.clone(),
            AppError::Conflict(m) => m.clone(),
            AppError::BadRequest(m) => m.clone(),
            AppError::InternalServer => String::from_str("Internal server error"),
        }
    }

    /// The whole envelope for this error: status, message, and the
    /// structured detail that its class allows.
    pub fn into_response(&self) -> (body: ErrorBody)
        ensures
            body.status == status_of(self@),
            body.error@ == message_of(self@),
            match messages_of(self@) {
                Some(lines) => body.messages is Some && texts(body.messages->0@) == lines,
                None => body.messages is None,
            },
            match details_of(self@) {
                Some(reason) => body.details is Some && body.details->0@ == reason,
                None => body.details is None,
            },
    {
        let status = self.status_code();
        let error = self.message();
        match self {
            AppError::ValidationError(fields) => {
                let mut lines: Vec<String> = Vec::new();
                let mut i: usize = 0;
                while i < fields.len()
                    invariant
                        i <= fields.len(),
                        lines.len() == i,
                        forall|k: int| 0 <= k < i ==> lines@[k]@ == field_line(#[trigger] fields@[k]@),
                    decreases fields.len() - i,
                {
                    let line = fields[i].line();
                    lines.push(line);
                    i += 1;
                }
                assert(texts(lines@) =~= messages_of(self@)->0);
                ErrorBody { status, error, messages: Some(lines), details: None }
            },
            AppError::JsonRejection(reason) => ErrorBody {
                status,
                error,
                messages: None,
                details: Some(reason.clone()),
            },
            _ => ErrorBody { status, error, messages: None, details: None },
        }
    }

    /// The log line for this error.
    pub fn describe(&self) -> (text: String)
        ensures
            text@ == description_of(self@),
    {
        match self {
            AppError::Database(m) => String::from_str("Database error: ").concat(m.as_str()),
            AppError::Jwt(_) => String::from_str("JWT error"),
            AppError::PasswordHash(m) => String::from_str("Password hashing error: ").concat(
                m.as_str(),
            ),
            AppError::ValidationError(_) => String::from_str("Validation error"),
            AppError::JsonRejection(m) => String::from_str("JSON parsing error: ").concat(
                m.as_str(),
            ),
            AppError::Validation(m) => String::from_str("Validation error: ").concat(m.as_str()),
            AppError::Unauthorized => String::from_str("Unauthorized"),
            AppError::Forbidden => String::from_str("Forbidden"),
            AppError::NotFound(m) => String::from_str("Not found: ").concat(m.as_str()),
            AppError::Conflict(m) => String::from_str("Conflict: ").concat(m.as_str()),
            AppError::BadRequest(m) => String::from_str("Bad request: ").concat(m.as_str()),
            AppError::InternalServer => String::from_str("Internal server error"),
        }
    }
}

/// A failure that reaches the caller as a server error says nothing of its
/// cause: the message is the stock phrase and no detail is attached.
pub proof fn internal_causes_stay_hidden(e: AppErrorView)
    requires
        status_of(e) == 500,
    ensures
        message_of(e) == "Internal server error"@,
        messages_of(e) is None,
        details_of(e) is None,
{
}

/// Why the configuration could not be read.
#[derive(Clone, Debug, PartialEq, Eq)]
pub enum ConfigError {
    /// The named setting is absent.
    MissingVar(String),
    /// The named setting holds no integer; the second text says why.
    ParseError(String, String),
}

/// The message for a configuration failure.
pub open spec fn config_error_text(e: ConfigError) -> Seq<char> {
    match e {
        ConfigError::MissingVar(name) => "Environment variable "@ + name@ + " not configured"@,
        ConfigError::ParseError(name, why) => "Failed to parse "@ + name@ + ": "@ + why@,
    }
}

impl ConfigError {
    /// The message for this failure.
    pub fn describe(&self) -> (text: String)
        ensures
            text@ == config_error_text(*self),
    {
        match self {
            ConfigError::MissingVar(name) => String::from_str("Environment variable ").concat(
                name.as_str(),
            ).concat(" not configured"),
            ConfigError::ParseError(name, why) => String::from_str("Failed to parse ").concat(
                name.as_str(),
            ).concat(": ").concat(why.as_str()),
        }
    }
}

} // verus!
