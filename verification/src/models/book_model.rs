//! Books, bookmarks, and the payloads that create and change books.
//!
//! Timestamps are microseconds since the Unix epoch.

use vstd::prelude::*;
use vstd::std_specs::convert::FromSpecImpl;

verus! {

/// The language a book is written in.
#[derive(Clone, Copy, Debug, PartialEq, Eq, Structural)]
pub enum Language {
    English,
    Japanese,
    Korean,
}

impl Default for Language {
    fn default() -> (language: Language)
        ensures
            language == Language::Korean,
    {
        Language::Korean
    }
}

/// The text that stands for a language in storage.
pub open spec fn language_name(language: Language) -> Seq<char> {
    match language {
        Language::English => "English"@,
        Language::Japanese => "Japanese"@,
        Language::Korean => "Korean"@,
    }
}

impl Language {
    /// The text that stands for this language.
    pub fn name(&self) -> (text: &'static str)
        ensures
            text@ == language_name(*self),
    {
        match self {
            Language::English => "English",
            Language::Japanese => "Japanese",
            Language::Korean => "Korean",
        }
    }
}

/// How far a book has come.
#[derive(Clone, Copy, Debug, PartialEq, Eq, Structural)]
pub enum Status {
    Ongoing,
    Completed,
    Drop,
}

impl Default for Status {
    fn default() -> (status: Status)
        ensures
            status == Status::Ongoing,
    {
        Status::Ongoing
    }
}

/// The text that stands for a status in storage.
pub open spec fn status_name(status: Status) -> Seq<char> {
    match status {
        Status::Ongoing => "Ongoing"@,
        Status::Completed => "Completed"@,
        Status::Drop => "Drop"@,
    }
}

impl Status {
    /// The text that stands for this status.
    pub fn name(&self) -> (text: &'static str)
        ensures
            text@ == status_name(*self),
    {
        match self {
            Status::Ongoing => "Ongoing",
            Status::Completed => "Completed",
            Status::Drop => "Drop",
        }
    }
}

/// A book as stored.
#[derive(Clone, Debug, PartialEq, Eq)]
pub struct Book {
    pub id: String,
    pub title: String,
    pub author: String,
    pub cover: String,
    pub description: String,
    pub asset: Option<String>,
    pub status: Status,
    pub language: Language,
    pub release_date: Option<i32>,
    pub popular: bool,
    pub created_at: i64,
    pub updated_at: i64,
}

/// A book as it leaves the service and as it is cached.
#[derive(Clone, Debug, PartialEq, Eq)]
pub struct BookDto {
    pub id: String,
    pub title: String,
    pub author: String,
    pub cover: String,
    pub description: String,
    pub asset: Option<String>,
    pub status: Status,
    pub language: Language,
    pub release_date: Option<i32>,
    pub popular: bool,
    pub created_at: i64,
    pub updated_at: i64,
}

impl From<Book> for BookDto {
    fn from(book: Book) -> (dto: BookDto) {
        BookDto {
            id: book.id,
            title: book.title,
            author: book.author,
            cover: book.cover,
            description: book.description,
            asset: book.asset,
            status: book.status,
            language: book.language,
            release_date: book.release_date,
            popular: book.popular,
            created_at: book.created_at,
            updated_at: book.updated_at,
        }
    }
}

impl FromSpecImpl<Book> for BookDto {
    open spec fn obeys_from_spec() -> bool {
        true
    }

    open spec fn from_spec(book: Book) -> BookDto {
        BookDto {
            id: book.id,
            title: book.title,
            author: book.author,
            cover: book.cover,
            description: book.description,
            asset: book.asset,
            status: book.status,
            language: book.language,
            release_date: book.release_date,
            popular: book.popular,
            created_at: book.created_at,
            updated_at: book.updated_at,
        }
    }
}

/// What a caller supplies to create a book.
#[derive(Clone, Debug, PartialEq, Eq)]
pub struct CreateBookDto {
    pub title: String,
    pub author: String,
    pub cover: String,
    pub description: String,
    pub asset: Option<String>,
    pub status: Status,
    pub language: Language,
    pub release_date: Option<i32>,
    pub popular: bool,
}

/// The fields of a book that a caller wants changed; absent fields stay.
#[derive(Clone, Debug, PartialEq, Eq)]
pub struct UpdateBookDto {
    pub title: Option<String>,
    pub author: Option<String>,
    pub cover: Option<String>,
    pub description: Option<String>,
    pub asset: Option<String>,
    pub status: Option<Status>,
    pub language: Option<Language>,
    pub release_date: Option<i32>,
    pub popular: Option<bool>,
}

/// The row for a new book: the payload's fields under a fresh identifier,
/// created and last changed at `now`.
pub open spec fn new_book(id: String, request: CreateBookDto, now: i64) -> Book {
    Book {
        id,
        title: request.title,
        author: request.author,
        cover: request.cover,
        description: request.description,
        asset: request.asset,
        status: request.status,
        language: request.language,
        release_date: request.release_date,
        popular: request.popular,
        created_at: now,
        updated_at: now,
    }
}

impl Book {
    /// The row for a new book: the payload's fields under a fresh identifier,
    /// created and last changed at `now`.
    pub fn new(id: String, request: CreateBookDto, now: i64) -> (book: Book)
        ensures
            book == new_book(id, request, now),
            book.created_at <= book.updated_at,
    {
        Book {
            id,
            title: request.title,
            author: request.author,
            cover: request.cover,
            description: request.description,
            asset: request.asset,
            status: request.status,
            language: request.language,
            release_date: request.release_date,
            popular: request.popular,
            created_at: now,
            updated_at: now,
        }
    }
}

impl UpdateBookDto {
    /// Whether the payload names no field at all.
    pub open spec fn spec_is_empty(&self) -> bool {
        &&& self.title is None
        &&& self.author is None
        &&& self.cover is None
        &&& self.description is None
        &&& self.asset is None
        &&& self.status is None
        &&& self.language is None
        &&& self.release_date is None
        &&& self.popular is None
    }

    /// Whether the payload names no field at all.
    #[verifier::when_used_as_spec(spec_is_empty)]
    pub fn is_empty(&self) -> (empty: bool)
        ensures
            empty == self.spec_is_empty(),
    {
        self.title.is_none() && self.author.is_none() && self.cover.is_none()
            && self.description.is_none() && self.asset.is_none() && self.status.is_none()
            && self.language.is_none() && self.release_date.is_none() && self.popular.is_none()
    }
}

/// A reader's mark on a book, as stored.
#[derive(Clone, Debug, PartialEq, Eq)]
pub struct Bookmark {
    pub id: String,
    pub user_id: String,
    pub book_id: String,
    pub created_at: i64,
    pub updated_at: i64,
}

/// A reader's mark on a book, as it leaves the service.
#[derive(Clone, Debug, PartialEq, Eq)]
pub struct BookmarkDto {
    pub id: String,
    pub user_id: String,
    pub book_id: String,
    pub created_at: i64,
}

impl From<Bookmark> for BookmarkDto {
    fn from(bookmark: Bookmark) -> (dto: BookmarkDto) {
        BookmarkDto {
            id: bookmark.id,
            user_id: bookmark.user_id,
            book_id: bookmark.book_id,
            created_at: bookmark.created_at,
        }
    }
}

impl FromSpecImpl<Bookmark> for BookmarkDto {
    open spec fn obeys_from_spec() -> bool {
        true
    }

    open spec fn from_spec(bookmark: Bookmark) -> BookmarkDto {
        BookmarkDto {
            id: bookmark.id,
            user_id: bookmark.user_id,
            book_id: bookmark.book_id,
            created_at: bookmark.created_at,
        }
    }
}

} // verus!
