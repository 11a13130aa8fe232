//! Accounts and the forms in which they leave the service.

use vstd::prelude::*;
use vstd::std_specs::convert::FromSpecImpl;

verus! {

/// What an account may do.
#[derive(Clone, Copy, Debug, PartialEq, Eq, Structural)]
pub enum Role {
    User,
    Admin,
}

/// The text that stands for a role in storage and in tokens.
pub open spec fn role_name(role: Role) -> Seq<char> {
    match role {
        Role::User => "User"@,
        Role::Admin => "Admin"@,
    }
}

impl Role {
    /// The text that stands for this role.
    pub fn name(&self) -> (text: &'static str)
        ensures
            text@ == role_name(*self),
    {
        match self {
            Role::User => "User",
            Role::Admin => "Admin",
        }
    }

    /// The role that `text` stands for, if any.
    pub fn parse(text: &str) -> (role: Option<Role>)
        ensures
            match role {
                Some(r) => text@ == role_name(r),
                None => forall|r: Role| text@ != role_name(r),
            },
    {
        proof {
            role_names_differ();
        }
        if crate::text::same_text(text, "User") {
            Some(Role::User)
        } else if crate::text::same_text(text, "Admin") {
            Some(Role::Admin)
        } else {
            None
        }
    }
}

/// Distinct roles have distinct names.
pub proof fn role_names_differ()
    ensures
        role_name(Role::User) != role_name(Role::Admin),
{
    reveal_strlit("User");
    reveal_strlit("Admin");
    assert("User"@.len() != "Admin"@.len());
}

/// An account as stored, password hash included.
#[derive(Clone, Debug, PartialEq, Eq)]
pub struct User {
    pub id: String,
    pub profile_pic: Option<String>,
    pub bio: Option<String>,
    pub username: String,
    pub role: Role,
    pub email: String,
    pub password: String,
}

/// An account without its password hash.
#[derive(Clone, Debug, PartialEq, Eq)]
pub struct SafeUser {
    pub id: String,
    pub username: String,
    pub profile_pic: Option<String>,
    pub bio: Option<String>,
    pub role: Role,
    pub email: String,
}

impl From<User> for SafeUser {
    fn from(user: User) -> (safe: SafeUser) {
        SafeUser {
            id: user.id,
            profile_pic: user.profile_pic,
            bio: user.bio,
            username: user.username,
            role: user.role,
            email: user.email,
        }
    }
}

impl FromSpecImpl<User> for SafeUser {
    open spec fn obeys_from_spec() -> bool {
        true
    }

    open spec fn from_spec(user: User) -> SafeUser {
        SafeUser {
            id: user.id,
            profile_pic: user.profile_pic,
            bio: user.bio,
            username: user.username,
            role: user.role,
            email: user.email,
        }
    }
}

/// The short public form of an account.
#[derive(Clone, Debug, PartialEq, Eq)]
pub struct UserDto {
    pub id: String,
    pub username: String,
    pub role: Role,
    pub email: String,
}

impl From<User> for UserDto {
    fn from(user: User) -> (dto: UserDto) {
        UserDto { id: user.id, username: user.username, email: user.email, role: user.role }
    }
}

impl FromSpecImpl<User> for UserDto {
    open spec fn obeys_from_spec() -> bool {
        true
    }

    open spec fn from_spec(user: User) -> UserDto {
        UserDto { id: user.id, username: user.username, email: user.email, role: user.role }
    }
}

} // verus!
