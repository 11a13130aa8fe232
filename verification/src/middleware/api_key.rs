//! The static key that guards the public read endpoints.

use vstd::prelude::*;
use crate::errors::{AppError, AppErrorView};
use crate::text::same_text;

verus! {

/// What checking a presented key against the configured one gives: it
/// passes only if a key was presented and is the configured key, character
/// for character.
pub open spec fn api_key_checked(presented: Option<Seq<char>>, configured: Seq<char>) -> Result<
    (),
    AppErrorView,
> {
    match presented {
        Some(key) => if key == configured {
            Ok(())
        } else {
            Err(AppErrorView::Unauthorized)
        },
        None => Err(AppErrorView::Unauthorized),
    }
}

/// The key that the request presents in its key header, if it has one.
pub fn extract_api_key_from_header(header: Option<&str>) -> (key: Result<String, AppError>)
    ensures
        match header {
            Some(value) => key is Ok && key->Ok_0@ == value@,
            None => key is Err && key->Err_0@ == AppErrorView::Unauthorized,
        },
{
    match header {
        Some(value) => Ok(value.to_owned()),
        None => Err(AppError::Unauthorized),
    }
}

/// Lets a request pass that presents the configured key.
pub fn check_api_key(header: Option<&str>, configured: &str) -> (checked: Result<(), AppError>)
    ensures
        crate::errors::outcome(checked) == api_key_checked(
            match header {
                Some(value) => Some(value@),
                None => None,
            },
            configured@,
        ),
{
    let key = extract_api_key_from_header(header)?;
    if same_text(key.as_str(), configured) {
        Ok(())
    } else {
        Err(AppError::Unauthorized)
    }
}

} // verus!
