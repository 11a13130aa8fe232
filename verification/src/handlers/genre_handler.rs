//! The genre endpoints.

use vstd::prelude::*;
use vstd::std_specs::convert::FromSpec;
use crate::cache::keys::{genre_list_key_text, EntityKind};
use crate::errors::{AppError, AppErrorView};
use crate::handlers::reply::require_admin;
use crate::middleware::auth::AuthUser;
use crate::models::genre_model::{new_genre, CreateGenreDto, GenreDto, UpdateGenreDto};
use crate::models::user_model::Role;
use crate::services::genre_service::{genre_change, genre_insert, GenreService};
use crate::services::listing::{
    Catalogue,
    CatalogueEffect,
    CatalogueEffectView,
    CataloguePhase,
    CatalogueView,
};
use crate::services::repository::{
    begin_create,
    begin_read,
    begin_update,
    Effect,
    Intent,
    Session,
};

verus! {

/// The genre endpoints: reads are open to every caller that got this far,
/// writes to administrators only.
pub struct GenreHandler;

impl GenreHandler {
    /// Begins the listing of all genres.
    pub fn get_genres() -> (begun: (Catalogue, CatalogueEffect<GenreDto>))
        ensures
            begun.0@ == (CatalogueView {
                kind: EntityKind::Genre,
                key: genre_list_key_text(),
                phase: CataloguePhase::AwaitCache,
            }),
            begun.1@ == (CatalogueEffectView::<GenreDto>::CacheGet { key: genre_list_key_text() }),
    {
        GenreService::get_genres()
    }

    /// Begins a read of the genre `id`.
    pub fn get_genre(id: &str) -> (begun: (Session<GenreDto>, Effect<GenreDto>))
        ensures
            (begun.0@, begun.1@) == begin_read::<GenreDto>(EntityKind::Genre, id@, Intent::Read),
    {
        GenreService::get_genre(id)
    }

    /// Begins the creation of a genre, for an administrator. The role is
    /// checked before the payload is.
    pub fn create_genre(auth_user: &AuthUser, request: CreateGenreDto) -> (begun: Result<
        (Session<GenreDto>, Effect<GenreDto>),
        AppError,
    >)
        ensures
            begun is Ok <==> auth_user.role == Role::Admin && request.title is Some
                && request.description is Some,
            auth_user.role != Role::Admin ==> begun is Err && begun->Err_0@
                == AppErrorView::Forbidden,
            auth_user.role == Role::Admin && begun is Err ==> begun->Err_0@
                == AppErrorView::Validation("title and description are required"@),
            begun is Ok ==> exists|id: String, now: i64|
                id@.len() >= 1 && now >= 0 && (#[trigger] new_genre(id, request, now)) is Some && (
                    begun->Ok_0.0@,
                    begun->Ok_0.1@,
                ) == begin_create(
                    EntityKind::Genre,
                    GenreDto::from_spec(new_genre(id, request, now)->0),
                    genre_insert(new_genre(id, request, now)->0),
                ),
    {
        require_admin(auth_user)?;
        GenreService::create_genre(request)
    }

    /// Begins an update of the genre `id`, for an administrator.
    pub fn update_genre(auth_user: &AuthUser, id: &str, request: &UpdateGenreDto) -> (begun: Result<
        (Session<GenreDto>, Effect<GenreDto>),
        AppError,
    >)
        ensures
            begun is Ok <==> auth_user.role == Role::Admin,
            begun is Err ==> begun->Err_0@ == AppErrorView::Forbidden,
            begun is Ok ==> exists|now: i64|
                now >= 0 && (begun->Ok_0.0@, begun->Ok_0.1@) == begin_update::<GenreDto>(
                    EntityKind::Genre,
                    id@,
                    #[trigger] genre_change(id@, *request, now),
                ),
    {
        require_admin(auth_user)?;
        Ok(GenreService::update_genre(id, request))
    }

    /// Begins the removal of the genre `id`, for an administrator.
    pub fn delete_genre(auth_user: &AuthUser, id: &str) -> (begun: Result<
        (Session<GenreDto>, Effect<GenreDto>),
        AppError,
    >)
        ensures
            begun is Ok <==> auth_user.role == Role::Admin,
            begun is Err ==> begun->Err_0@ == AppErrorView::Forbidden,
            begun is Ok ==> (begun->Ok_0.0@, begun->Ok_0.1@) == begin_read::<GenreDto>(
                EntityKind::Genre,
                id@,
                Intent::Delete,
            ),
    {
        require_admin(auth_user)?;
        Ok(GenreService::delete_genre(id))
    }
}

} // verus!
