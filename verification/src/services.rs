//! The entity repositories and the account service.
//!
//! A repository neither reads the cache nor writes the store itself. It
//! decides: given what has happened so far, it says what is to be done next.
//! Whoever holds the connections does it and reports back.

pub mod auth_service;
pub mod book_service;
pub mod chapter_service;
pub mod genre_service;
pub mod listing;
pub mod repository;
pub mod shelf;
pub mod world;
