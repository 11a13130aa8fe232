//! How the answer to an operation on an entity is framed.

use vstd::prelude::*;
use vstd::string::StringExecFns;
use crate::cache::keys::EntityKind;
use crate::errors::AppError;
use crate::middleware::auth::{require_role, role_checked, AuthUser};
use crate::models::response_model::ApiResponse;
use crate::models::user_model::Role;

verus! {

/// What was done to an entity.
#[derive(Clone, Copy, Debug, PartialEq, Eq, Structural)]
pub enum Deed {
    Fetched,
    Created,
    Updated,
    Deleted,
}

/// The status code that reports a deed.
pub open spec fn deed_status(deed: Deed) -> u16 {
    match deed {
        Deed::Fetched => 200,
        Deed::Created => 201,
        Deed::Updated => 200,
        Deed::Deleted => 204,
    }
}

/// How an entity type is called in messages.
pub open spec fn label_text(kind: EntityKind) -> Seq<char> {
    match kind {
        EntityKind::Book => "Book"@,
        EntityKind::Chapter => "Chapter"@,
        EntityKind::Genre => "Genre"@,
        EntityKind::User => "User"@,
    }
}

/// The message that reports a deed; a fetch needs none.
pub open spec fn deed_message(kind: EntityKind, deed: Deed) -> Option<Seq<char>> {
    match deed {
        Deed::Fetched => None,
        Deed::Created => Some(label_text(kind) + " created successfully"@),
        Deed::Updated => Some(label_text(kind) + " updated successfully"@),
        Deed::Deleted => Some(label_text(kind) + " deleted successfully"@),
    }
}

/// How an entity type is called in messages.
pub fn label(kind: EntityKind) -> (text: &'static str)
    ensures
        text@ == label_text(kind),
{
    match kind {
        EntityKind::Book => "Book",
        EntityKind::Chapter => "Chapter",
        EntityKind::Genre => "Genre",
        EntityKind::User => "User",
    }
}

/// The status code and the envelope that report `deed` on an entity of
/// `kind`, with `data` as the payload.
pub fn reply<T>(kind: EntityKind, deed: Deed, data: T) -> (answer: (u16, ApiResponse<T>))
    ensures
        answer.0 == deed_status(deed),
        answer.1.data == Some(data),
        crate::text::opt_view(answer.1.message) == deed_message(kind, deed),
{
    match deed {
        Deed::Fetched => (200, ApiResponse::success(data)),
        Deed::Created => (
            201,
            ApiResponse::with_message(
                String::from_str(label(kind)).concat(" created successfully"),
                data,
            ),
        ),
        Deed::Updated => (
            200,
            ApiResponse::with_message(
                String::from_str(label(kind)).concat(" updated successfully"),
                data,
            ),
        ),
        Deed::Deleted => (
            204,
            ApiResponse::with_message(
                String::from_str(label(kind)).concat(" deleted successfully"),
                data,
            ),
        ),
    }
}

/// Lets an administrator pass: every write to the catalogue is theirs
/// alone.
pub fn require_admin(auth_user: &AuthUser) -> (checked: Result<(), AppError>)
    ensures
        crate::errors::outcome(checked) == role_checked(auth_user.role, Role::Admin),
{
    require_role(auth_user, Role::Admin)
}

} // verus!
