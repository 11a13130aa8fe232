//! What each endpoint decides before and after its operation runs: who may
//! call it, which cookies it sets, and how its answer is framed.

pub mod auth_handler;
pub mod book_handler;
pub mod chapter_handler;
pub mod genre_handler;
pub mod reply;
