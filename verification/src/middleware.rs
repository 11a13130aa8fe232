//! What stands between a request and a protected operation.

pub mod api_key;
pub mod auth;
