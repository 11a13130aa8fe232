//! Primitives that the services stand on: the clock, identifiers, tokens
//! and password hashes.

pub mod clock;
pub mod ident;
pub mod jwt;
pub mod password;
