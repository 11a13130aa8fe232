//! The chapter endpoints.

use vstd::prelude::*;
use vstd::std_specs::convert::FromSpec;
use crate::cache::keys::{book_chapters_key_text, chapter_list_key_text, EntityKind};
use crate::errors::{AppError, AppErrorView};
use crate::handlers::reply::require_admin;
use crate::middleware::auth::AuthUser;
use crate::models::chapter_model::{new_chapter, ChapterDto, CreateChapterDto, UpdateChapterDto};
use crate::models::paging_model::PaginationParams;
use crate::models::user_model::Role;
use crate::query::ConditionView;
use crate::services::chapter_service::{
    chapter_change,
    chapter_conditions,
    chapter_insert,
    ChapterService,
};
use crate::services::listing::{list_begin, ListEffect, Listing};
use crate::services::repository::{
    begin_create,
    begin_read,
    begin_update,
    Effect,
    Intent,
    Session,
};

verus! {

/// The chapter endpoints: reads are open to every caller that got this far,
/// writes to administrators only.
pub struct ChapterHandler;

impl ChapterHandler {
    /// Begins the listing of one page of chapters.
    pub fn get_chapters(params: &PaginationParams) -> (begun: (Listing, ListEffect<ChapterDto>))
        ensures
            (begun.0@, begun.1@) == list_begin::<ChapterDto>(
                EntityKind::Chapter,
                chapter_list_key_text(*params),
                chapter_conditions(*params),
                params.page,
                params.page_size,
            ),
    {
        ChapterService::get_chapters(params)
    }

    /// Begins the listing of one page of the chapters of the book `book_id`.
    pub fn get_chapters_by_book(book_id: &str, params: &PaginationParams) -> (begun: (
        Listing,
        ListEffect<ChapterDto>,
    ))
        ensures
            (begun.0@, begun.1@) == list_begin::<ChapterDto>(
                EntityKind::Chapter,
                book_chapters_key_text(book_id@, *params),
                seq![ConditionView::OfBook(book_id@)],
                params.page,
                params.page_size,
            ),
    {
        ChapterService::get_chapters_by_book(book_id, params)
    }

    /// Begins a read of the chapter `id`.
    pub fn get_chapter(id: &str) -> (begun: (Session<ChapterDto>, Effect<ChapterDto>))
        ensures
            (begun.0@, begun.1@) == begin_read::<ChapterDto>(
                EntityKind::Chapter,
                id@,
                Intent::Read,
            ),
    {
        ChapterService::get_chapter(id)
    }

    /// Begins the creation of a chapter, for an administrator.
    pub fn create_chapter(auth_user: &AuthUser, request: CreateChapterDto) -> (begun: Result<
        (Session<ChapterDto>, Effect<ChapterDto>),
        AppError,
    >)
        ensures
            begun is Ok <==> auth_user.role == Role::Admin,
            begun is Err ==> begun->Err_0@ == AppErrorView::Forbidden,
            begun is Ok ==> exists|id: String, now: i64|
                id@.len() >= 1 && now >= 0 && (begun->Ok_0.0@, begun->Ok_0.1@) == begin_create(
                    EntityKind::Chapter,
                    ChapterDto::from_spec(#[trigger] new_chapter(id, request, now)),
                    chapter_insert(new_chapter(id, request, now)),
                ),
    {
        require_admin(auth_user)?;
        Ok(ChapterService::create_chapter(request))
    }

    /// Begins an update of the chapter `id`, for an administrator.
    pub fn update_chapter(auth_user: &AuthUser, id: &str, request: &UpdateChapterDto) -> (begun:
        Result<(Session<ChapterDto>, Effect<ChapterDto>), AppError>)
        ensures
            begun is Ok <==> auth_user.role == Role::Admin,
            begun is Err ==> begun->Err_0@ == AppErrorView::Forbidden,
            begun is Ok ==> exists|now: i64|
                now >= 0 && (begun->Ok_0.0@, begun->Ok_0.1@) == begin_update::<ChapterDto>(
                    EntityKind::Chapter,
                    id@,
                    #[trigger] chapter_change(id@, *request, now),
                ),
    {
        require_admin(auth_user)?;
        Ok(ChapterService::update_chapter(id, request))
    }

    /// Begins the removal of the chapter `id`, for an administrator.
    pub fn delete_chapter(auth_user: &AuthUser, id: &str) -> (begun: Result<
        (Session<ChapterDto>, Effect<ChapterDto>),
        AppError,
    >)
        ensures
            begun is Ok <==> auth_user.role == Role::Admin,
            begun is Err ==> begun->Err_0@ == AppErrorView::Forbidden,
            begun is Ok ==> (begun->Ok_0.0@, begun->Ok_0.1@) == begin_read::<ChapterDto>(
                EntityKind::Chapter,
                id@,
                Intent::Delete,
            ),
    {
        require_admin(auth_user)?;
        Ok(ChapterService::delete_chapter(id))
    }
}

} // verus!
