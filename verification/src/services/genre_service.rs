//! The genre repository.

use vstd::prelude::*;
use vstd::std_specs::convert::FromSpec;
use vstd::string::StringExecFns;
use crate::cache::keys::{genre_list_key, genre_list_key_text, EntityKind};
use crate::errors::{AppError, AppErrorView};
use crate::models::genre_model::{new_genre, CreateGenreDto, Genre, GenreDto, UpdateGenreDto};
use crate::query::{
    insert_row,
    insert_statement,
    named,
    text_given,
    text_value,
    update_by_id,
    update_statement,
    value_views,
    ChangeSet,
    SqlValue,
    SqlValueView,
    Statement,
    StatementView,
};
use crate::services::listing::{
    Catalogue,
    CatalogueEffect,
    CatalogueEffectView,
    CataloguePhase,
    CatalogueView,
};
use crate::services::repository::{
    begin_create,
    begin_read,
    begin_update,
    Effect,
    Intent,
    Record,
    Session,
};
use crate::text::texts;
use crate::utils::clock::now_micros;
use crate::utils::ident::fresh_id;

verus! {

impl Record for GenreDto {
    open spec fn key(&self) -> Seq<char> {
        self.id@
    }

    open spec fn parent(&self) -> Option<Seq<char>> {
        None
    }

    fn id(&self) -> (id: String) {
        self.id.clone()
    }

    fn parent_id(&self) -> (parent: Option<String>) {
        None
    }
}

/// The columns that a new genre fills.
pub open spec fn genre_columns() -> Seq<Seq<char>> {
    seq!["id"@, "title"@, "description"@, "created_at"@, "updated_at"@]
}

/// The values of a new genre, column by column.
pub open spec fn genre_values(genre: Genre) -> Seq<SqlValueView> {
    seq![
        SqlValueView::Text(genre.id@),
        SqlValueView::Text(genre.title@),
        SqlValueView::Text(genre.description@),
        SqlValueView::Timestamp(genre.created_at),
        SqlValueView::Timestamp(genre.updated_at),
    ]
}

/// The statement that stores a new genre.
pub open spec fn genre_insert(genre: Genre) -> StatementView {
    insert_statement(EntityKind::Genre, genre_columns(), genre_values(genre))
}

/// The columns that an update payload names, in the order of the payload.
pub open spec fn genre_change_columns(request: UpdateGenreDto) -> Seq<Seq<char>> {
    named(request.title is Some, "title"@) + named(request.description is Some, "description"@)
}

/// The values that an update payload gives, in the order of the payload.
pub open spec fn genre_change_values(request: UpdateGenreDto) -> Seq<SqlValueView> {
    text_given(request.title) + text_given(request.description)
}

/// The statement for an update payload, as of `now`; none for a payload
/// without fields.
pub open spec fn genre_change(id: Seq<char>, request: UpdateGenreDto, now: i64) -> Option<
    StatementView,
> {
    if request.spec_is_empty() {
        None
    } else {
        Some(
            update_statement(
                EntityKind::Genre,
                genre_change_columns(request),
                genre_change_values(request),
                now,
                id,
            ),
        )
    }
}

/// The genre repository: every operation begins a session or a catalogue.
pub struct GenreService;

impl GenreService {
    pub fn new() -> (service: GenreService) {
        GenreService
    }

    /// The statement that stores `genre`.
    pub fn insert(genre: &Genre) -> (statement: Statement)
        ensures
            statement@ == genre_insert(*genre),
    {
        let mut row = ChangeSet::new();
        row.set("id", SqlValue::Text(genre.id.clone()));
        row.set("title", SqlValue::Text(genre.title.clone()));
        row.set("description", SqlValue::Text(genre.description.clone()));
        row.set("created_at", SqlValue::Timestamp(genre.created_at));
        row.set("updated_at", SqlValue::Timestamp(genre.updated_at));
        assert(texts(row.columns@) =~= genre_columns());
        assert(value_views(row.values@) =~= genre_values(*genre));
        let ChangeSet { columns, values } = row;
        insert_row(EntityKind::Genre, &columns, values)
    }

    /// Begins the listing of all genres.
    pub fn get_genres() -> (begun: (Catalogue, CatalogueEffect<GenreDto>))
        ensures
            begun.0@ == (CatalogueView {
                kind: EntityKind::Genre,
                key: genre_list_key_text(),
                phase: CataloguePhase::AwaitCache,
            }),
            begun.1@ == (CatalogueEffectView::<GenreDto>::CacheGet { key: genre_list_key_text() }),
    {
        Catalogue::start(EntityKind::Genre, genre_list_key())
    }

    /// Begins a read of the genre `id`.
    pub fn get_genre(id: &str) -> (begun: (Session<GenreDto>, Effect<GenreDto>))
        ensures
            (begun.0@, begun.1@) == begin_read::<GenreDto>(EntityKind::Genre, id@, Intent::Read),
    {
        Session::read(EntityKind::Genre, id)
    }

    /// Begins the creation of a genre from `request`, under the identifier
    /// `id`, as of `now`. A payload without a title or without a description
    /// is refused.
    pub fn create_genre_with(id: String, request: CreateGenreDto, now: i64) -> (begun: Result<
        (Session<GenreDto>, Effect<GenreDto>),
        AppError,
    >)
        ensures
            match new_genre(id, request, now) {
                Some(genre) => begun is Ok && (begun->Ok_0.0@, begun->Ok_0.1@) == begin_create(
                    EntityKind::Genre,
                    GenreDto::from_spec(genre),
                    genre_insert(genre),
                ),
                None => begun is Err && begun->Err_0@ == AppErrorView::Validation(
                    "title and description are required"@,
                ),
            },
    {
        match Genre::new(id, request, now) {
            Some(genre) => {
                let statement = Self::insert(&genre);
                Ok(Session::create(EntityKind::Genre, GenreDto::from(genre), statement))
            },
            None => Err(
                AppError::Validation(String::from_str("title and description are required")),
            ),
        }
    }

    /// Begins the creation of a genre from `request`, under a fresh
    /// identifier, as of now.
    pub fn create_genre(request: CreateGenreDto) -> (begun: Result<
        (Session<GenreDto>, Effect<GenreDto>),
        AppError,
    >)
        ensures
            begun is Ok <==> request.title is Some && request.description is Some,
            begun is Err ==> begun->Err_0@ == AppErrorView::Validation(
                "title and description are required"@,
            ),
            begun is Ok ==> exists|id: String, now: i64|
                id@.len() >= 1 && now >= 0 && (#[trigger] new_genre(id, request, now)) is Some && (
                    begun->Ok_0.0@,
                    begun->Ok_0.1@,
                ) == begin_create(
                    EntityKind::Genre,
                    GenreDto::from_spec(new_genre(id, request, now)->0),
                    genre_insert(new_genre(id, request, now)->0),
                ),
    {
        let id = fresh_id();
        let now = now_micros();
        Self::create_genre_with(id, request, now)
    }

    /// The columns and values that an update payload names.
    pub fn changes(request: &UpdateGenreDto) -> (changes: ChangeSet)
        ensures
            texts(changes.columns@) == genre_change_columns(*request),
            value_views(changes.values@) == genre_change_values(*request),
    {
        let mut changes = ChangeSet::new();
        changes.set_if("title", text_value(&request.title));
        changes.set_if("description", text_value(&request.description));
        assert(texts(changes.columns@) =~= genre_change_columns(*request));
        assert(value_views(changes.values@) =~= genre_change_values(*request));
        changes
    }

    /// Begins an update of the genre `id` with `request`, as of `now`. A
    /// payload without fields begins a read.
    pub fn update_genre_at(id: &str, request: &UpdateGenreDto, now: i64) -> (begun: (
        Session<GenreDto>,
        Effect<GenreDto>,
    ))
        ensures
            (begun.0@, begun.1@) == begin_update::<GenreDto>(
                EntityKind::Genre,
                id@,
                genre_change(id@, *request, now),
            ),
    {
        if request.is_empty() {
            Session::update(EntityKind::Genre, id, None)
        } else {
            let ChangeSet { columns, values } = Self::changes(request);
            let statement = update_by_id(EntityKind::Genre, columns, values, now, id);
            Session::update(EntityKind::Genre, id, Some(statement))
        }
    }

    /// Begins an update of the genre `id` with `request`, as of now. A
    /// payload without fields begins a read.
    pub fn update_genre(id: &str, request: &UpdateGenreDto) -> (begun: (
        Session<GenreDto>,
        Effect<GenreDto>,
    ))
        ensures
            exists|now: i64|
                now >= 0 && (begun.0@, begun.1@) == begin_update::<GenreDto>(
                    EntityKind::Genre,
                    id@,
                    #[trigger] genre_change(id@, *request, now),
                ),
    {
        let now = now_micros();
        Self::update_genre_at(id, request, now)
    }

    /// Begins the removal of the genre `id`.
    pub fn delete_genre(id: &str) -> (begun: (Session<GenreDto>, Effect<GenreDto>))
        ensures
            (begun.0@, begun.1@) == begin_read::<GenreDto>(
                EntityKind::Genre,
                id@,
                Intent::Delete,
            ),
    {
        Session::delete(EntityKind::Genre, id)
    }
}

} // verus!
