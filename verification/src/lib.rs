//! The core of a content-catalog service: books, chapters, genres and the
//! accounts that read and maintain them.
//!
//! Two concerns are worked out here, and proved:
//!
//! * the cache-coherent read/write path: reads are served from a cache where
//!   they can be, writes clear what they can have made stale, and list
//!   requests become a count and a page fetch over one predicate
//!   ([`services`], [`cache`], [`query`]);
//! * token authentication and authorization: access and refresh tokens are
//!   minted and verified, a request's identity is derived from its token,
//!   and a role is required of it ([`utils::jwt`], [`middleware`]).
//!
//! The library holds no connection. Each operation is a small machine that
//! says what to do next and takes in what came of it; a program that owns
//! the store and the cache drives it.

pub mod cache;
pub mod config;
pub mod errors;
pub mod handlers;
pub mod middleware;
pub mod models;
pub mod query;
pub mod services;
pub mod text;
pub mod utils;
