//! The credential store adapter: password hashes are made and checked by
//! the `argon2` crate, in the PHC string format.

use vstd::prelude::*;
use crate::errors::{AppError, AppErrorView, AppResult};

verus! {

/// What `PasswordHash::new` objects to in `hash`: `None` where the text is a
/// PHC string, the error's message where it is not.
pub uninterp spec fn phc_fault(hash: Seq<char>) -> Option<Seq<char>>;

/// Whether `Argon2::default().verify_password` accepts `password` for the
/// PHC string `hash`.
pub uninterp spec fn argon2_accepts(password: Seq<char>, hash: Seq<char>) -> bool;

/// `PasswordHash::new`: whether `hash` parses as a PHC string, and the
/// error's message where it does not.
#[verifier::external_body]
fn check_phc(hash: &str) -> (fault: Option<String>)
    ensures
        fault is Some <==> phc_fault(hash@) is Some,
        fault is Some ==> Some(fault->0@) == phc_fault(hash@),
{
    argon2::PasswordHash::new(hash).err().map(|e| e.to_string())
}

/// `PasswordVerifier::verify_password` of `Argon2::default()` on a PHC
/// string that parses: whether the password matches the hash.
#[verifier::external_body]
fn argon2_verify(password: &str, hash: &str) -> (accepted: bool)
    requires
        phc_fault(hash@) is None,
    ensures
        accepted == argon2_accepts(password@, hash@),
{
    match argon2::PasswordHash::new(hash) {
        Ok(parsed) => argon2::PasswordVerifier::verify_password(
            &argon2::Argon2::default(),
            password.as_bytes(),
            &parsed,
        ).is_ok(),
        Err(_) => false,
    }
}

/// `PasswordHasher::hash_password` of `Argon2::default()` with a salt from
/// `SaltString::generate`: a PHC string for the password, or the error's
/// message. The salt is random, so only this is stated: what comes out
/// parses, and the password that went in matches it.
#[verifier::external_body]
fn argon2_hash(password: &str) -> (hash: Result<String, String>)
    ensures
        hash is Ok ==> phc_fault(hash->Ok_0@) is None && argon2_accepts(password@, hash->Ok_0@),
{
    let salt = argon2::password_hash::SaltString::generate(
        &mut argon2::password_hash::rand_core::OsRng,
    );
    argon2::PasswordHasher::hash_password(&argon2::Argon2::default(), password.as_bytes(), &salt)
        .map(|h| h.to_string()).map_err(|e| e.to_string())
}

/// Makes and checks password hashes.
pub struct PasswordService;

impl PasswordService {
    /// A salted hash of `password`. A hash that comes out is well-formed and
    /// matches `password`; a failure of the primitive is reported with its
    /// message.
    pub fn hash_password(password: &str) -> (hash: AppResult<String>)
        ensures
            hash is Ok ==> phc_fault(hash->Ok_0@) is None && argon2_accepts(
                password@,
                hash->Ok_0@,
            ),
            hash is Err ==> hash->Err_0@ is PasswordHash,
    {
        match argon2_hash(password) {
            Ok(text) => Ok(text),
            Err(why) => Err(AppError::PasswordHash(why)),
        }
    }

    /// Whether `password` matches `password_hash`. A hash that is no PHC
    /// string is an error, with the parser's message; a well-formed hash
    /// gives the verdict, never an error.
    pub fn verify_password(password: &str, password_hash: &str) -> (verdict: AppResult<bool>)
        ensures
            match phc_fault(password_hash@) {
                Some(why) => verdict is Err && verdict->Err_0@ == AppErrorView::PasswordHash(why),
                None => verdict == Ok::<bool, AppError>(
                    argon2_accepts(password@, password_hash@),
                ),
            },
    {
        match check_phc(password_hash) {
            Some(why) => Err(AppError::PasswordHash(why)),
            None => Ok(argon2_verify(password, password_hash)),
        }
    }
}

} // verus!
