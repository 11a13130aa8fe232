//! The book repository.

use vstd::prelude::*;
use vstd::std_specs::convert::FromSpec;
use crate::cache::keys::{book_list_key, book_list_key_text, EntityKind};
use crate::models::book_model::{new_book, Book, BookDto, CreateBookDto, UpdateBookDto};
use crate::models::paging_model::PaginationParams;
use crate::query::{
    condition_views,
    genre_terms,
    genre_terms_text,
    given,
    insert_row,
    insert_statement,
    named,
    named_leaves_out,
    text_given,
    text_or_null,
    text_value,
    update_by_id,
    update_statement,
    value_views,
    ChangeSet,
    Condition,
    ConditionView,
    SqlValue,
    SqlValueView,
    Statement,
    StatementView,
};
use crate::services::listing::{list_begin, ListEffect, Listing};
use crate::services::repository::{
    begin_create,
    begin_read,
    begin_update,
    Effect,
    Intent,
    Record,
    Session,
};
use crate::text::texts;
use crate::utils::clock::now_micros;
use crate::utils::ident::fresh_id;

verus! {

impl Record for BookDto {
    open spec fn key(&self) -> Seq<char> {
        self.id@
    }

    open spec fn parent(&self) -> Option<Seq<char>> {
        None
    }

    fn id(&self) -> (id: String) {
        self.id.clone()
    }

    fn parent_id(&self) -> (parent: Option<String>) {
        None
    }
}

/// The columns that a new book fills.
pub open spec fn book_columns() -> Seq<Seq<char>> {
    seq![
        "id"@,
        "title"@,
        "author"@,
        "cover"@,
        "description"@,
        "asset"@,
        "status"@,
        "language"@,
        "release_date"@,
        "popular"@,
        "created_at"@,
        "updated_at"@,
    ]
}

/// The values of a new book, column by column.
pub open spec fn book_values(book: Book) -> Seq<SqlValueView> {
    seq![
        SqlValueView::Text(book.id@),
        SqlValueView::Text(book.title@),
        SqlValueView::Text(book.author@),
        SqlValueView::Text(book.cover@),
        SqlValueView::Text(book.description@),
        match book.asset {
            Some(asset) => SqlValueView::Text(asset@),
            None => SqlValueView::Null,
        },
        SqlValueView::Status(book.status),
        SqlValueView::Language(book.language),
        match book.release_date {
            Some(year) => SqlValueView::Small(year),
            None => SqlValueView::Null,
        },
        SqlValueView::Boolean(book.popular),
        SqlValueView::Timestamp(book.created_at),
        SqlValueView::Timestamp(book.updated_at),
    ]
}

/// The statement that stores a new book.
pub open spec fn book_insert(book: Book) -> StatementView {
    insert_statement(EntityKind::Book, book_columns(), book_values(book))
}

/// The columns that an update payload names, in the order of the payload.
pub open spec fn book_change_columns(request: UpdateBookDto) -> Seq<Seq<char>> {
    named(request.title is Some, "title"@) + named(request.author is Some, "author"@) + named(
        request.cover is Some,
        "cover"@,
    ) + named(request.description is Some, "description"@) + named(
        request.asset is Some,
        "asset"@,
    ) + named(request.status is Some, "status"@) + named(request.language is Some, "language"@)
        + named(request.release_date is Some, "release_date"@) + named(
        request.popular is Some,
        "popular"@,
    )
}

/// The values that an update payload gives, in the order of the payload.
pub open spec fn book_change_values(request: UpdateBookDto) -> Seq<SqlValueView> {
    text_given(request.title) + text_given(request.author) + text_given(request.cover)
        + text_given(request.description) + text_given(request.asset) + given(
        match request.status {
            Some(status) => Some(SqlValueView::Status(status)),
            None => None,
        },
    ) + given(
        match request.language {
            Some(language) => Some(SqlValueView::Language(language)),
            None => None,
        },
    ) + given(
        match request.release_date {
            Some(year) => Some(SqlValueView::Small(year)),
            None => None,
        },
    ) + given(
        match request.popular {
            Some(popular) => Some(SqlValueView::Boolean(popular)),
            None => None,
        },
    )
}

/// An update never names the identifier: once assigned, it stays.
pub proof fn book_changes_keep_the_identifier(request: UpdateBookDto)
    ensures
        !book_change_columns(request).contains("id"@),
{
    reveal_strlit("id");
    reveal_strlit("title");
    reveal_strlit("author");
    reveal_strlit("cover");
    reveal_strlit("description");
    reveal_strlit("asset");
    reveal_strlit("status");
    reveal_strlit("language");
    reveal_strlit("release_date");
    reveal_strlit("popular");
    let id = "id"@;
    assert(id.len() == 2);
    let c1 = Seq::<Seq<char>>::empty() + named(request.title is Some, "title"@);
    named_leaves_out(Seq::empty(), request.title is Some, "title"@, id);
    let c2 = c1 + named(request.author is Some, "author"@);
    named_leaves_out(c1, request.author is Some, "author"@, id);
    let c3 = c2 + named(request.cover is Some, "cover"@);
    named_leaves_out(c2, request.cover is Some, "cover"@, id);
    let c4 = c3 + named(request.description is Some, "description"@);
    named_leaves_out(c3, request.description is Some, "description"@, id);
    let c5 = c4 + named(request.asset is Some, "asset"@);
    named_leaves_out(c4, request.asset is Some, "asset"@, id);
    let c6 = c5 + named(request.status is Some, "status"@);
    named_leaves_out(c5, request.status is Some, "status"@, id);
    let c7 = c6 + named(request.language is Some, "language"@);
    named_leaves_out(c6, request.language is Some, "language"@, id);
    let c8 = c7 + named(request.release_date is Some, "release_date"@);
    named_leaves_out(c7, request.release_date is Some, "release_date"@, id);
    let c9 = c8 + named(request.popular is Some, "popular"@);
    named_leaves_out(c8, request.popular is Some, "popular"@, id);
    assert(c1 =~= named(request.title is Some, "title"@));
    assert(c9 == book_change_columns(request));
}

/// The statement for an update payload, as of `now`; none for a payload
/// without fields.
pub open spec fn book_change(id: Seq<char>, request: UpdateBookDto, now: i64) -> Option<
    StatementView,
> {
    if request.spec_is_empty() {
        None
    } else {
        Some(
            update_statement(
                EntityKind::Book,
                book_change_columns(request),
                book_change_values(request),
                now,
                id,
            ),
        )
    }
}

/// The conditions that a list request puts on books: the search text, if
/// any, must occur in the title; of the genres named, if any, the book must
/// have one.
pub open spec fn book_conditions(params: PaginationParams) -> Seq<ConditionView> {
    (match params.search {
        Some(text) => seq![ConditionView::TitleContains(text@)],
        None => Seq::empty(),
    }) + (match params.genres {
        Some(filter) => if genre_terms_text(filter@).len() > 0 {
            seq![ConditionView::GenreAmong(genre_terms_text(filter@))]
        } else {
            Seq::empty()
        },
        None => Seq::empty(),
    })
}

/// The book repository: every operation begins a session or a listing.
pub struct BookService;

impl BookService {
    pub fn new() -> (service: BookService) {
        BookService
    }

    /// The statement that stores `book`.
    pub fn insert(book: &Book) -> (statement: Statement)
        ensures
            statement@ == book_insert(*book),
    {
        let mut row = ChangeSet::new();
        row.set("id", SqlValue::Text(book.id.clone()));
        row.set("title", SqlValue::Text(book.title.clone()));
        row.set("author", SqlValue::Text(book.author.clone()));
        row.set("cover", SqlValue::Text(book.cover.clone()));
        row.set("description", SqlValue::Text(book.description.clone()));
        row.set("asset", text_or_null(&book.asset));
        row.set("status", SqlValue::Status(book.status));
        row.set("language", SqlValue::Language(book.language));
        row.set(
            "release_date",
            match book.release_date {
                Some(year) => SqlValue::Small(year),
                None => SqlValue::Null,
            },
        );
        row.set("popular", SqlValue::Boolean(book.popular));
        row.set("created_at", SqlValue::Timestamp(book.created_at));
        row.set("updated_at", SqlValue::Timestamp(book.updated_at));
        assert(texts(row.columns@) =~= book_columns());
        assert(value_views(row.values@) =~= book_values(*book));
        let ChangeSet { columns, values } = row;
        insert_row(EntityKind::Book, &columns, values)
    }

    /// Begins the creation of a book from `request`, under the identifier
    /// `id`, as of `now`.
    pub fn create_book_with(id: String, request: CreateBookDto, now: i64) -> (begun: (
        Session<BookDto>,
        Effect<BookDto>,
    ))
        ensures
            (begun.0@, begun.1@) == begin_create(
                EntityKind::Book,
                BookDto::from_spec(new_book(id, request, now)),
                book_insert(new_book(id, request, now)),
            ),
    {
        let book = Book::new(id, request, now);
        let statement = Self::insert(&book);
        Session::create(EntityKind::Book, BookDto::from(book), statement)
    }

    /// Begins the creation of a book from `request`, under a fresh
    /// identifier, as of now.
    pub fn create_book(request: CreateBookDto) -> (begun: (Session<BookDto>, Effect<BookDto>))
        ensures
            exists|id: String, now: i64|
                id@.len() >= 1 && now >= 0 && (begun.0@, begun.1@) == begin_create(
                    EntityKind::Book,
                    BookDto::from_spec(#[trigger] new_book(id, request, now)),
                    book_insert(new_book(id, request, now)),
                ),
    {
        let id = fresh_id();
        let now = now_micros();
        Self::create_book_with(id, request, now)
    }

    /// Begins a read of the book `id`.
    pub fn get_book(id: &str) -> (begun: (Session<BookDto>, Effect<BookDto>))
        ensures
            (begun.0@, begun.1@) == begin_read::<BookDto>(EntityKind::Book, id@, Intent::Read),
    {
        Session::read(EntityKind::Book, id)
    }

    /// The columns and values that an update payload names.
    pub fn changes(request: &UpdateBookDto) -> (changes: ChangeSet)
        ensures
            texts(changes.columns@) == book_change_columns(*request),
            value_views(changes.values@) == book_change_values(*request),
    {
        let mut changes = ChangeSet::new();
        changes.set_if("title", text_value(&request.title));
        changes.set_if("author", text_value(&request.author));
        changes.set_if("cover", text_value(&request.cover));
        changes.set_if("description", text_value(&request.description));
        changes.set_if("asset", text_value(&request.asset));
        changes.set_if(
            "status",
            match request.status {
                Some(status) => Some(SqlValue::Status(status)),
                None => None,
            },
        );
        changes.set_if(
            "language",
            match request.language {
                Some(language) => Some(SqlValue::Language(language)),
                None => None,
            },
        );
        changes.set_if(
            "release_date",
            match request.release_date {
                Some(year) => Some(SqlValue::Small(year)),
                None => None,
            },
        );
        changes.set_if(
            "popular",
            match request.popular {
                Some(popular) => Some(SqlValue::Boolean(popular)),
                None => None,
            },
        );
        assert(texts(changes.columns@) =~= book_change_columns(*request));
        assert(value_views(changes.values@) =~= book_change_values(*request));
        changes
    }

    /// Begins an update of the book `id` with `request`, as of `now`. A
    /// payload without fields begins a read.
    pub fn update_book_at(id: &str, request: &UpdateBookDto, now: i64) -> (begun: (
        Session<BookDto>,
        Effect<BookDto>,
    ))
        ensures
            (begun.0@, begun.1@) == begin_update::<BookDto>(
                EntityKind::Book,
                id@,
                book_change(id@, *request, now),
            ),
    {
        if request.is_empty() {
            Session::update(EntityKind::Book, id, None)
        } else {
            let ChangeSet { columns, values } = Self::changes(request);
            let statement = update_by_id(EntityKind::Book, columns, values, now, id);
            Session::update(EntityKind::Book, id, Some(statement))
        }
    }

    /// Begins an update of the book `id` with `request`, as of now. A
    /// payload without fields begins a read.
    pub fn update_book(id: &str, request: &UpdateBookDto) -> (begun: (
        Session<BookDto>,
        Effect<BookDto>,
    ))
        ensures
            exists|now: i64|
                now >= 0 && (begun.0@, begun.1@) == begin_update::<BookDto>(
                    EntityKind::Book,
                    id@,
                    #[trigger] book_change(id@, *request, now),
                ),
    {
        let now = now_micros();
        Self::update_book_at(id, request, now)
    }

    /// Begins the removal of the book `id`.
    pub fn delete_book(id: &str) -> (begun: (Session<BookDto>, Effect<BookDto>))
        ensures
            (begun.0@, begun.1@) == begin_read::<BookDto>(EntityKind::Book, id@, Intent::Delete),
    {
        Session::delete(EntityKind::Book, id)
    }

    /// The conditions that a list request puts on books.
    pub fn conditions(params: &PaginationParams) -> (conditions: Vec<Condition>)
        ensures
            condition_views(conditions@) == book_conditions(*params),
    {
        let mut conditions: Vec<Condition> = Vec::new();
        match &params.search {
            Some(text) => {
                conditions.push(Condition::TitleContains(text.clone()));
            },
            None => {},
        }
        match &params.genres {
            Some(filter) => {
                let terms = genre_terms(filter.as_str());
                assert(texts(terms@).len() == terms@.len());
                if terms.len() > 0 {
                    conditions.push(Condition::GenreAmong(terms));
                }
            },
            None => {},
        }
        assert(condition_views(conditions@) =~= book_conditions(*params));
        conditions
    }

    /// Begins the listing of one page of books.
    pub fn get_books(params: &PaginationParams) -> (begun: (Listing, ListEffect<BookDto>))
        ensures
            (begun.0@, begun.1@) == list_begin::<BookDto>(
                EntityKind::Book,
                book_list_key_text(*params),
                book_conditions(*params),
                params.page,
                params.page_size,
            ),
    {
        Listing::start(EntityKind::Book, book_list_key(params), Self::conditions(params), params)
    }
}

} // verus!
