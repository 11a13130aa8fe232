//! Chapters and the payloads that create and change them.
//!
//! Timestamps are microseconds since the Unix epoch.

use vstd::prelude::*;
use vstd::std_specs::convert::FromSpecImpl;

verus! {

/// A chapter as stored. `book_id` names the book it belongs to.
#[derive(Clone, Debug, PartialEq, Eq)]
pub struct Chapter {
    pub id: String,
    pub title: String,
    pub book_id: String,
    pub description: String,
    pub created_at: i64,
    pub updated_at: i64,
    pub content: String,
    pub chapter_num: i32,
}

/// A chapter as it leaves the service and as it is cached.
#[derive(Clone, Debug, PartialEq, Eq)]
pub struct ChapterDto {
    pub id: String,
    pub title: String,
    pub book_id: String,
    pub description: String,
    pub created_at: i64,
    pub updated_at: i64,
    pub content: String,
    pub chapter_num: i32,
}

impl From<Chapter> for ChapterDto {
    fn from(chapter: Chapter) -> (dto: ChapterDto) {
        ChapterDto {
            id: chapter.id,
            title: chapter.title,
            book_id: chapter.book_id,
            description: chapter.description,
            created_at: chapter.created_at,
            updated_at: chapter.updated_at,
            content: chapter.content,
            chapter_num: chapter.chapter_num,
        }
    }
}

impl FromSpecImpl<Chapter> for ChapterDto {
    open spec fn obeys_from_spec() -> bool {
        true
    }

    open spec fn from_spec(chapter: Chapter) -> ChapterDto {
        ChapterDto {
            id: chapter.id,
            title: chapter.title,
            book_id: chapter.book_id,
            description: chapter.description,
            created_at: chapter.created_at,
            updated_at: chapter.updated_at,
            content: chapter.content,
            chapter_num: chapter.chapter_num,
        }
    }
}

/// What a caller supplies to create a chapter.
#[derive(Clone, Debug, PartialEq, Eq)]
pub struct CreateChapterDto {
    pub title: String,
    pub book_id: String,
    pub description: String,
    pub content: String,
    pub chapter_num: i32,
}

/// The fields of a chapter that a caller wants changed; absent fields stay.
#[derive(Clone, Debug, PartialEq, Eq)]
pub struct UpdateChapterDto {
    pub title: Option<String>,
    pub description: Option<String>,
    pub content: Option<String>,
    pub chapter_num: Option<i32>,
}

/// The row for a new chapter: the payload's fields under a fresh
/// identifier, created and last changed at `now`.
pub open spec fn new_chapter(id: String, request: CreateChapterDto, now: i64) -> Chapter {
    Chapter {
        id,
        title: request.title,
        book_id: request.book_id,
        description: request.description,
        created_at: now,
        updated_at: now,
        content: request.content,
        chapter_num: request.chapter_num,
    }
}

impl Chapter {
    /// The row for a new chapter: the payload's fields under a fresh
    /// identifier, created and last changed at `now`.
    pub fn new(id: String, request: CreateChapterDto, now: i64) -> (chapter: Chapter)
        ensures
            chapter == new_chapter(id, request, now),
            chapter.created_at <= chapter.updated_at,
    {
        Chapter {
            id,
            title: request.title,
            book_id: request.book_id,
            description: request.description,
            created_at: now,
            updated_at: now,
            content: request.content,
            chapter_num: request.chapter_num,
        }
    }
}

impl UpdateChapterDto {
    /// Whether the payload names no field at all.
    pub open spec fn spec_is_empty(&self) -> bool {
        &&& self.title is None
        &&& self.description is None
        &&& self.content is None
        &&& self.chapter_num is None
    }

    /// Whether the payload names no field at all.
    #[verifier::when_used_as_spec(spec_is_empty)]
    pub fn is_empty(&self) -> (empty: bool)
        ensures
            empty == self.spec_is_empty(),
    {
        self.title.is_none() && self.description.is_none() && self.content.is_none()
            && self.chapter_num.is_none()
    }
}

} // verus!
