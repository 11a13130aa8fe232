//! Genres and the payloads that create and change them.
//!
//! Timestamps are microseconds since the Unix epoch.

use vstd::prelude::*;
use vstd::std_specs::convert::FromSpecImpl;

verus! {

/// A genre as stored.
#[derive(Clone, Debug, PartialEq, Eq)]
pub struct Genre {
    pub id: String,
    pub title: String,
    pub description: String,
    pub created_at: i64,
    pub updated_at: i64,
}

/// A genre as it leaves the service and as it is cached.
#[derive(Clone, Debug, PartialEq, Eq)]
pub struct GenreDto {
    pub id: String,
    pub title: String,
    pub description: String,
    pub created_at: i64,
    pub updated_at: i64,
}

/// What a caller supplies to create a genre.
#[derive(Clone, Debug, PartialEq, Eq)]
pub struct CreateGenreDto {
    pub title: Option<String>,
    pub description: Option<String>,
}

/// The fields of a genre that a caller wants changed; absent fields stay.
#[derive(Clone, Debug, PartialEq, Eq)]
pub struct UpdateGenreDto {
    pub title: Option<String>,
    pub description: Option<String>,
}

impl From<Genre> for GenreDto {
    fn from(genre: Genre) -> (dto: GenreDto) {
        GenreDto {
            id: genre.id,
            title: genre.title,
            description: genre.description,
            created_at: genre.created_at,
            updated_at: genre.updated_at,
        }
    }
}

impl FromSpecImpl<Genre> for GenreDto {
    open spec fn obeys_from_spec() -> bool {
        true
    }

    open spec fn from_spec(genre: Genre) -> GenreDto {
        GenreDto {
            id: genre.id,
            title: genre.title,
            description: genre.description,
            created_at: genre.created_at,
            updated_at: genre.updated_at,
        }
    }
}

/// The row for a new genre, if the payload names a title and a description:
/// those two under a fresh identifier, created and last changed at `now`.
pub open spec fn new_genre(id: String, request: CreateGenreDto, now: i64) -> Option<Genre> {
    match (request.title, request.description) {
        (Some(title), Some(description)) => Some(
            Genre { id, title, description, created_at: now, updated_at: now },
        ),
        _ => None,
    }
}

impl Genre {
    /// The row for a new genre. A payload without a title or without a
    /// description gives none.
    pub fn new(id: String, request: CreateGenreDto, now: i64) -> (genre: Option<Genre>)
        ensures
            genre == new_genre(id, request, now),
            genre is Some ==> genre->0.created_at <= genre->0.updated_at,
    {
        match (request.title, request.description) {
            (Some(title), Some(description)) => Some(
                Genre { id, title, description, created_at: now, updated_at: now },
            ),
            _ => None,
        }
    }
}

impl UpdateGenreDto {
    /// Whether the payload names no field at all.
    pub open spec fn spec_is_empty(&self) -> bool {
        &&& self.title is None
        &&& self.description is None
    }

    /// Whether the payload names no field at all.
    #[verifier::when_used_as_spec(spec_is_empty)]
    pub fn is_empty(&self) -> (empty: bool)
        ensures
            empty == self.spec_is_empty(),
    {
        self.title.is_none() && self.description.is_none()
    }
}

} // verus!
