use novel_api::errors::{AppError, ConfigError, ErrorBody, FieldError, TokenError};

fn plain(status: u16, error: &str) -> ErrorBody {
    ErrorBody { status, error: error.to_string(), messages: None, details: None }
}

#[test]
fn each_error_has_its_status_and_message() {
    assert_eq!(AppError::Database("connection reset".to_string()).into_response(), plain(500, "Internal server error"));
    assert_eq!(AppError::Jwt(TokenError::Expired).into_response(), plain(401, "Invalid token"));
    assert_eq!(AppError::Jwt(TokenError::WrongTokenType).into_response(), plain(401, "Invalid token"));
    assert_eq!(AppError::PasswordHash("bad salt".to_string()).into_response(), plain(500, "Internal server error"));
    assert_eq!(AppError::Validation("title too long".to_string()).into_response(), plain(400, "title too long"));
    assert_eq!(AppError::Unauthorized.into_response(), plain(401, "Unauthorized"));
    assert_eq!(AppError::Forbidden.into_response(), plain(403, "Forbidden"));
    assert_eq!(AppError::NotFound("Book not found".to_string()).into_response(), plain(404, "Book not found"));
    assert_eq!(AppError::Conflict("email".to_string()).into_response(), plain(409, "email"));
    assert_eq!(AppError::BadRequest("Email already exists".to_string()).into_response(), plain(400, "Email already exists"));
    assert_eq!(AppError::InternalServer.into_response(), plain(500, "Internal server error"));
}

#[test]
fn internal_causes_are_not_echoed() {
    let secret = "password=hunter2 host=db.internal";
    for e in [AppError::Database(secret.to_string()), AppError::PasswordHash(secret.to_string())] {
        let body = e.into_response();
        assert_eq!(body.status, 500);
        assert!(!body.error.contains("hunter2"));
        assert_eq!(body.messages, None);
        assert_eq!(body.details, None);
        assert_eq!(e.message(), "Internal server error");
        assert_eq!(e.status_code(), 500);
    }
}

#[test]
fn validation_errors_list_their_fields() {
    let e = AppError::ValidationError(vec![
        FieldError { field: "email".to_string(), message: Some("must be an email".to_string()) },
        FieldError { field: "username".to_string(), message: None },
    ]);
    let body = e.into_response();
    assert_eq!(body.status, 400);
    assert_eq!(body.error, "Validation failed");
    assert_eq!(
        body.messages,
        Some(vec!["email: must be an email".to_string(), "username: Invalid value".to_string()])
    );
    assert_eq!(body.details, None);
    let none = AppError::ValidationError(vec![]).into_response();
    assert_eq!(none.messages, Some(vec![]));
}

#[test]
fn json_rejection_carries_details() {
    let body = AppError::JsonRejection("expected `,` at line 1".to_string()).into_response();
    assert_eq!(body.status, 400);
    assert_eq!(body.error, "Invalid JSON format");
    assert_eq!(body.details, Some("expected `,` at line 1".to_string()));
    assert_eq!(body.messages, None);
}

#[test]
fn field_error_line() {
    let with = FieldError { field: "a".to_string(), message: Some("b".to_string()) };
    let without = FieldError { field: "a".to_string(), message: None };
    assert_eq!(with.line(), "a: b");
    assert_eq!(without.line(), "a: Invalid value");
}

#[test]
fn descriptions_name_the_class_and_the_cause() {
    assert_eq!(AppError::Database("x".to_string()).describe(), "Database error: x");
    assert_eq!(AppError::Jwt(TokenError::Malformed).describe(), "JWT error");
    assert_eq!(AppError::PasswordHash("x".to_string()).describe(), "Password hashing error: x");
    assert_eq!(AppError::ValidationError(vec![]).describe(), "Validation error");
    assert_eq!(AppError::JsonRejection("x".to_string()).describe(), "JSON parsing error: x");
    assert_eq!(AppError::Validation("x".to_string()).describe(), "Validation error: x");
    assert_eq!(AppError::Unauthorized.describe(), "Unauthorized");
    assert_eq!(AppError::Forbidden.describe(), "Forbidden");
    assert_eq!(AppError::NotFound("x".to_string()).describe(), "Not found: x");
    assert_eq!(AppError::Conflict("x".to_string()).describe(), "Conflict: x");
    assert_eq!(AppError::BadRequest("x".to_string()).describe(), "Bad request: x");
    assert_eq!(AppError::InternalServer.describe(), "Internal server error");
}

#[test]
fn config_errors_describe_themselves() {
    assert_eq!(
        ConfigError::MissingVar("PORT".to_string()).describe(),
        "Environment variable PORT not configured"
    );
    assert_eq!(
        ConfigError::ParseError("JWT_ACCESS_EXPIRES_IN".to_string(), "invalid digit found in string".to_string())
            .describe(),
        "Failed to parse JWT_ACCESS_EXPIRES_IN: invalid digit found in string"
    );
}
