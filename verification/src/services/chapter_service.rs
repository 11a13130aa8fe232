//! The chapter repository.

use vstd::prelude::*;
use vstd::std_specs::convert::FromSpec;
use crate::cache::keys::{
    book_chapters_key,
    book_chapters_key_text,
    chapter_list_key,
    chapter_list_key_text,
    EntityKind,
};
use crate::models::chapter_model::{
    new_chapter,
    Chapter,
    ChapterDto,
    CreateChapterDto,
    UpdateChapterDto,
};
use crate::models::paging_model::PaginationParams;
use crate::query::{
    condition_views,
    given,
    insert_row,
    insert_statement,
    named,
    named_leaves_out,
    text_given,
    text_value,
    update_by_id,
    update_statement,
    value_views,
    ChangeSet,
    Condition,
    ConditionView,
    SqlValue,
    SqlValueView,
    Statement,
    StatementView,
};
use crate::services::listing::{list_begin, ListEffect, Listing};
use crate::services::repository::{
    begin_create,
    begin_read,
    begin_update,
    Effect,
    Intent,
    Record,
    Session,
};
use crate::text::texts;
use crate::utils::clock::now_micros;
use crate::utils::ident::fresh_id;

verus! {

impl Record for ChapterDto {
    open spec fn key(&self) -> Seq<char> {
        self.id@
    }

    open spec fn parent(&self) -> Option<Seq<char>> {
        Some(self.book_id@)
    }

    fn id(&self) -> (id: String) {
        self.id.clone()
    }

    fn parent_id(&self) -> (parent: Option<String>) {
        Some(self.book_id.clone())
    }
}

/// The columns that a new chapter fills.
pub open spec fn chapter_columns() -> Seq<Seq<char>> {
    seq![
        "id"@,
        "title"@,
        "book_id"@,
        "description"@,
        "content"@,
        "chapter_num"@,
        "created_at"@,
        "updated_at"@,
    ]
}

/// The values of a new chapter, column by column.
pub open spec fn chapter_values(chapter: Chapter) -> Seq<SqlValueView> {
    seq![
        SqlValueView::Text(chapter.id@),
        SqlValueView::Text(chapter.title@),
        SqlValueView::Text(chapter.book_id@),
        SqlValueView::Text(chapter.description@),
        SqlValueView::Text(chapter.content@),
        SqlValueView::Small(chapter.chapter_num),
        SqlValueView::Timestamp(chapter.created_at),
        SqlValueView::Timestamp(chapter.updated_at),
    ]
}

/// The statement that stores a new chapter.
pub open spec fn chapter_insert(chapter: Chapter) -> StatementView {
    insert_statement(EntityKind::Chapter, chapter_columns(), chapter_values(chapter))
}

/// The columns that an update payload names, in the order of the payload.
pub open spec fn chapter_change_columns(request: UpdateChapterDto) -> Seq<Seq<char>> {
    named(request.title is Some, "title"@) + named(request.description is Some, "description"@)
        + named(request.content is Some, "content"@) + named(
        request.chapter_num is Some,
        "chapter_num"@,
    )
}

/// The values that an update payload gives, in the order of the payload.
pub open spec fn chapter_change_values(request: UpdateChapterDto) -> Seq<SqlValueView> {
    text_given(request.title) + text_given(request.description) + text_given(request.content)
        + given(
        match request.chapter_num {
            Some(number) => Some(SqlValueView::Small(number)),
            None => None,
        },
    )
}

/// An update names neither the identifier nor the book: a chapter stays
/// what it is and where it is.
pub proof fn chapter_changes_keep_identifier_and_book(request: UpdateChapterDto)
    ensures
        !chapter_change_columns(request).contains("id"@),
        !chapter_change_columns(request).contains("book_id"@),
{
    reveal_strlit("id");
    reveal_strlit("book_id");
    reveal_strlit("title");
    reveal_strlit("description");
    reveal_strlit("content");
    reveal_strlit("chapter_num");
    let id = "id"@;
    let book = "book_id"@;
    assert(id.len() == 2);
    assert(book.len() == 7);
    assert(book[1] == 'o');
    assert("content"@[1] == 'o');
    assert(book[0] == 'b');
    assert("content"@[0] == 'c');
    let c1 = Seq::<Seq<char>>::empty() + named(request.title is Some, "title"@);
    named_leaves_out(Seq::empty(), request.title is Some, "title"@, id);
    named_leaves_out(Seq::empty(), request.title is Some, "title"@, book);
    let c2 = c1 + named(request.description is Some, "description"@);
    named_leaves_out(c1, request.description is Some, "description"@, id);
    named_leaves_out(c1, request.description is Some, "description"@, book);
    let c3 = c2 + named(request.content is Some, "content"@);
    named_leaves_out(c2, request.content is Some, "content"@, id);
    named_leaves_out(c2, request.content is Some, "content"@, book);
    let c4 = c3 + named(request.chapter_num is Some, "chapter_num"@);
    named_leaves_out(c3, request.chapter_num is Some, "chapter_num"@, id);
    named_leaves_out(c3, request.chapter_num is Some, "chapter_num"@, book);
    assert(c1 =~= named(request.title is Some, "title"@));
    assert(c4 == chapter_change_columns(request));
}

/// The statement for an update payload, as of `now`; none for a payload
/// without fields.
pub open spec fn chapter_change(id: Seq<char>, request: UpdateChapterDto, now: i64) -> Option<
    StatementView,
> {
    if request.spec_is_empty() {
        None
    } else {
        Some(
            update_statement(
                EntityKind::Chapter,
                chapter_change_columns(request),
                chapter_change_values(request),
                now,
                id,
            ),
        )
    }
}

/// The conditions that a list request puts on chapters: the search text, if
/// any, must occur in the title.
pub open spec fn chapter_conditions(params: PaginationParams) -> Seq<ConditionView> {
    match params.search {
        Some(text) => seq![ConditionView::TitleContains(text@)],
        None => Seq::empty(),
    }
}

/// The chapter repository: every operation begins a session or a listing.
pub struct ChapterService;

impl ChapterService {
    pub fn new() -> (service: ChapterService) {
        ChapterService
    }

    /// The statement that stores `chapter`.
    pub fn insert(chapter: &Chapter) -> (statement: Statement)
        ensures
            statement@ == chapter_insert(*chapter),
    {
        let mut row = ChangeSet::new();
        row.set("id", SqlValue::Text(chapter.id.clone()));
        row.set("title", SqlValue::Text(chapter.title.clone()));
        row.set("book_id", SqlValue::Text(chapter.book_id.clone()));
        row.set("description", SqlValue::Text(chapter.description.clone()));
        row.set("content", SqlValue::Text(chapter.content.clone()));
        row.set("chapter_num", SqlValue::Small(chapter.chapter_num));
        row.set("created_at", SqlValue::Timestamp(chapter.created_at));
        row.set("updated_at", SqlValue::Timestamp(chapter.updated_at));
        assert(texts(row.columns@) =~= chapter_columns());
        assert(value_views(row.values@) =~= chapter_values(*chapter));
        let ChangeSet { columns, values } = row;
        insert_row(EntityKind::Chapter, &columns, values)
    }

    /// Begins the creation of a chapter from `request`, under the identifier
    /// `id`, as of `now`.
    pub fn create_chapter_with(id: String, request: CreateChapterDto, now: i64) -> (begun: (
        Session<ChapterDto>,
        Effect<ChapterDto>,
    ))
        ensures
            (begun.0@, begun.1@) == begin_create(
                EntityKind::Chapter,
                ChapterDto::from_spec(new_chapter(id, request, now)),
                chapter_insert(new_chapter(id, request, now)),
            ),
    {
        let chapter = Chapter::new(id, request, now);
        let statement = Self::insert(&chapter);
        Session::create(EntityKind::Chapter, ChapterDto::from(chapter), statement)
    }

    /// Begins the creation of a chapter from `request`, under a fresh
    /// identifier, as of now.
    pub fn create_chapter(request: CreateChapterDto) -> (begun: (
        Session<ChapterDto>,
        Effect<ChapterDto>,
    ))
        ensures
            exists|id: String, now: i64|
                id@.len() >= 1 && now >= 0 && (begun.0@, begun.1@) == begin_create(
                    EntityKind::Chapter,
                    ChapterDto::from_spec(#[trigger] new_chapter(id, request, now)),
                    chapter_insert(new_chapter(id, request, now)),
                ),
    {
        let id = fresh_id();
        let now = now_micros();
        Self::create_chapter_with(id, request, now)
    }

    /// Begins a read of the chapter `id`.
    pub fn get_chapter(id: &str) -> (begun: (Session<ChapterDto>, Effect<ChapterDto>))
        ensures
            (begun.0@, begun.1@) == begin_read::<ChapterDto>(
                EntityKind::Chapter,
                id@,
                Intent::Read,
            ),
    {
        Session::read(EntityKind::Chapter, id)
    }

    /// The columns and values that an update payload names.
    pub fn changes(request: &UpdateChapterDto) -> (changes: ChangeSet)
        ensures
            texts(changes.columns@) == chapter_change_columns(*request),
            value_views(changes.values@) == chapter_change_values(*request),
    {
        let mut changes = ChangeSet::new();
        changes.set_if("title", text_value(&request.title));
        changes.set_if("description", text_value(&request.description));
        changes.set_if("content", text_value(&request.content));
        changes.set_if(
            "chapter_num",
            match request.chapter_num {
                Some(number) => Some(SqlValue::Small(number)),
                None => None,
            },
        );
        assert(texts(changes.columns@) =~= chapter_change_columns(*request));
        assert(value_views(changes.values@) =~= chapter_change_values(*request));
        changes
    }

    /// Begins an update of the chapter `id` with `request`, as of `now`. A
    /// payload without fields begins a read.
    pub fn update_chapter_at(id: &str, request: &UpdateChapterDto, now: i64) -> (begun: (
        Session<ChapterDto>,
        Effect<ChapterDto>,
    ))
        ensures
            (begun.0@, begun.1@) == begin_update::<ChapterDto>(
                EntityKind::Chapter,
                id@,
                chapter_change(id@, *request, now),
            ),
    {
        if request.is_empty() {
            Session::update(EntityKind::Chapter, id, None)
        } else {
            let ChangeSet { columns, values } = Self::changes(request);
            let statement = update_by_id(EntityKind::Chapter, columns, values, now, id);
            Session::update(EntityKind::Chapter, id, Some(statement))
        }
    }

    /// Begins an update of the chapter `id` with `request`, as of now. A
    /// payload without fields begins a read.
    pub fn update_chapter(id: &str, request: &UpdateChapterDto) -> (begun: (
        Session<ChapterDto>,
        Effect<ChapterDto>,
    ))
        ensures
            exists|now: i64|
                now >= 0 && (begun.0@, begun.1@) == begin_update::<ChapterDto>(
                    EntityKind::Chapter,
                    id@,
                    #[trigger] chapter_change(id@, *request, now),
                ),
    {
        let now = now_micros();
        Self::update_chapter_at(id, request, now)
    }

    /// Begins the removal of the chapter `id`.
    pub fn delete_chapter(id: &str) -> (begun: (Session<ChapterDto>, Effect<ChapterDto>))
        ensures
            (begun.0@, begun.1@) == begin_read::<ChapterDto>(
                EntityKind::Chapter,
                id@,
                Intent::Delete,
            ),
    {
        Session::delete(EntityKind::Chapter, id)
    }

    /// The conditions that a list request puts on chapters.
    pub fn conditions(params: &PaginationParams) -> (conditions: Vec<Condition>)
        ensures
            condition_views(conditions@) == chapter_conditions(*params),
    {
        let mut conditions: Vec<Condition> = Vec::new();
        match &params.search {
            Some(text) => {
                conditions.push(Condition::TitleContains(text.clone()));
            },
            None => {},
        }
        assert(condition_views(conditions@) =~= chapter_conditions(*params));
        conditions
    }

    /// Begins the listing of one page of chapters.
    pub fn get_chapters(params: &PaginationParams) -> (begun: (Listing, ListEffect<ChapterDto>))
        ensures
            (begun.0@, begun.1@) == list_begin::<ChapterDto>(
                EntityKind::Chapter,
                chapter_list_key_text(*params),
                chapter_conditions(*params),
                params.page,
                params.page_size,
            ),
    {
        Listing::start(
            EntityKind::Chapter,
            chapter_list_key(params),
            Self::conditions(params),
            params,
        )
    }

    /// Begins the listing of one page of the chapters of the book `book_id`.
    pub fn get_chapters_by_book(book_id: &str, params: &PaginationParams) -> (begun: (
        Listing,
        ListEffect<ChapterDto>,
    ))
        ensures
            (begun.0@, begun.1@) == list_begin::<ChapterDto>(
                EntityKind::Chapter,
                book_chapters_key_text(book_id@, *params),
                seq![ConditionView::OfBook(book_id@)],
                params.page,
                params.page_size,
            ),
    {
        let mut conditions: Vec<Condition> = Vec::new();
        conditions.push(Condition::OfBook(book_id.to_owned()));
        assert(condition_views(conditions@) =~= seq![ConditionView::OfBook(book_id@)]);
        Listing::start(
            EntityKind::Chapter,
            book_chapters_key(book_id, params),
            conditions,
            params,
        )
    }
}

} // verus!
