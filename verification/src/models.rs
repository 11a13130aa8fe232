//! Row-shaped records and request/response payloads.

pub mod auth_model;
pub mod book_model;
pub mod chapter_model;
pub mod genre_model;
pub mod paging_model;
pub mod response_model;
pub mod user_model;
