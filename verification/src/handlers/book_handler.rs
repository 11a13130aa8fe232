//! The book endpoints.

use vstd::prelude::*;
use vstd::std_specs::convert::FromSpec;
use crate::cache::keys::{book_list_key_text, EntityKind};
use crate::errors::{AppError, AppErrorView};
use crate::handlers::reply::require_admin;
use crate::middleware::auth::AuthUser;
use crate::models::book_model::{new_book, BookDto, CreateBookDto, UpdateBookDto};
use crate::models::paging_model::PaginationParams;
use crate::models::user_model::Role;
use crate::services::book_service::{book_change, book_conditions, book_insert, BookService};
use crate::services::listing::{list_begin, ListEffect, Listing};
use crate::services::repository::{
    begin_create,
    begin_read,
    begin_update,
    Effect,
    Intent,
    Session,
};

verus! {

/// The book endpoints: reads are open to every caller that got this far,
/// writes to administrators only.
pub struct BookHandler;

impl BookHandler {
    /// Begins the listing of one page of books.
    pub fn get_books(params: &PaginationParams) -> (begun: (Listing, ListEffect<BookDto>))
        ensures
            (begun.0@, begun.1@) == list_begin::<BookDto>(
                EntityKind::Book,
                book_list_key_text(*params),
                book_conditions(*params),
                params.page,
                params.page_size,
            ),
    {
        BookService::get_books(params)
    }

    /// Begins a read of the book `id`.
    pub fn get_book(id: &str) -> (begun: (Session<BookDto>, Effect<BookDto>))
        ensures
            (begun.0@, begun.1@) == begin_read::<BookDto>(EntityKind::Book, id@, Intent::Read),
    {
        BookService::get_book(id)
    }

    /// Begins the creation of a book, for an administrator.
    pub fn create_book(auth_user: &AuthUser, request: CreateBookDto) -> (begun: Result<
        (Session<BookDto>, Effect<BookDto>),
        AppError,
    >)
        ensures
            begun is Ok <==> auth_user.role == Role::Admin,
            begun is Err ==> begun->Err_0@ == AppErrorView::Forbidden,
            begun is Ok ==> exists|id: String, now: i64|
                id@.len() >= 1 && now >= 0 && (begun->Ok_0.0@, begun->Ok_0.1@) == begin_create(
                    EntityKind::Book,
                    BookDto::from_spec(#[trigger] new_book(id, request, now)),
                    book_insert(new_book(id, request, now)),
                ),
    {
        require_admin(auth_user)?;
        Ok(BookService::create_book(request))
    }

    /// Begins an update of the book `id`, for an administrator.
    pub fn update_book(auth_user: &AuthUser, id: &str, request: &UpdateBookDto) -> (begun: Result<
        (Session<BookDto>, Effect<BookDto>),
        AppError,
    >)
        ensures
            begun is Ok <==> auth_user.role == Role::Admin,
            begun is Err ==> begun->Err_0@ == AppErrorView::Forbidden,
            begun is Ok ==> exists|now: i64|
                now >= 0 && (begun->Ok_0.0@, begun->Ok_0.1@) == begin_update::<BookDto>(
                    EntityKind::Book,
                    id@,
                    #[trigger] book_change(id@, *request, now),
                ),
    {
        require_admin(auth_user)?;
        Ok(BookService::update_book(id, request))
    }

    /// Begins the removal of the book `id`, for an administrator.
    pub fn delete_book(auth_user: &AuthUser, id: &str) -> (begun: Result<
        (Session<BookDto>, Effect<BookDto>),
        AppError,
    >)
        ensures
            begun is Ok <==> auth_user.role == Role::Admin,
            begun is Err ==> begun->Err_0@ == AppErrorView::Forbidden,
            begun is Ok ==> (begun->Ok_0.0@, begun->Ok_0.1@) == begin_read::<BookDto>(
                EntityKind::Book,
                id@,
                Intent::Delete,
            ),
    {
        require_admin(auth_user)?;
        Ok(BookService::delete_book(id))
    }
}

} // verus!
