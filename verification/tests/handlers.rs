use novel_api::cache::keys::EntityKind;
use novel_api::errors::AppError;
use novel_api::handlers::book_handler::BookHandler;
use novel_api::handlers::chapter_handler::ChapterHandler;
use novel_api::handlers::genre_handler::GenreHandler;
use novel_api::handlers::reply::{label, reply, Deed};
use novel_api::middleware::auth::AuthUser;
use novel_api::models::book_model::{Bookmark, BookmarkDto, CreateBookDto, Language, Status, UpdateBookDto};
use novel_api::models::chapter_model::{CreateChapterDto, UpdateChapterDto};
use novel_api::models::genre_model::{CreateGenreDto, UpdateGenreDto};
use novel_api::models::paging_model::PaginationParams;
use novel_api::models::response_model::ApiResponse;
use novel_api::models::user_model::Role;
use novel_api::services::listing::{CatalogueEffect, ListEffect};
use novel_api::services::repository::Effect;

fn admin() -> AuthUser {
    AuthUser { id: "a".to_string(), email: "a@example.com".to_string(), role: Role::Admin }
}

fn reader() -> AuthUser {
    AuthUser { id: "r".to_string(), email: "r@example.com".to_string(), role: Role::User }
}

fn book() -> CreateBookDto {
    CreateBookDto {
        title: "T".to_string(), author: "A".to_string(), cover: "C".to_string(), description: "D".to_string(),
        asset: None, status: Status::Ongoing, language: Language::Korean, release_date: None, popular: false,
    }
}

fn book_change() -> UpdateBookDto {
    UpdateBookDto {
        title: Some("N".to_string()), author: None, cover: None, description: None, asset: None,
        status: None, language: None, release_date: None, popular: None,
    }
}

fn chapter() -> CreateChapterDto {
    CreateChapterDto {
        title: "T".to_string(), book_id: "b1".to_string(), description: "D".to_string(),
        content: "C".to_string(), chapter_num: 1,
    }
}

#[test]
fn answers_are_framed_by_deed() {
    assert_eq!(reply(EntityKind::Book, Deed::Fetched, 1), (200, ApiResponse { message: None, data: Some(1) }));
    assert_eq!(
        reply(EntityKind::Book, Deed::Created, 1),
        (201, ApiResponse { message: Some("Book created successfully".to_string()), data: Some(1) })
    );
    assert_eq!(
        reply(EntityKind::Chapter, Deed::Updated, "x"),
        (200, ApiResponse { message: Some("Chapter updated successfully".to_string()), data: Some("x") })
    );
    assert_eq!(
        reply(EntityKind::Genre, Deed::Deleted, ()),
        (204, ApiResponse { message: Some("Genre deleted successfully".to_string()), data: Some(()) })
    );
    assert_eq!(label(EntityKind::User), "User");
    assert_eq!(ApiResponse::success(5), ApiResponse { message: None, data: Some(5) });
    assert_eq!(
        ApiResponse::with_message("m".to_string(), 5),
        ApiResponse { message: Some("m".to_string()), data: Some(5) }
    );
}

#[test]
fn book_writes_are_for_administrators() {
    assert_eq!(BookHandler::create_book(&reader(), book()).unwrap_err(), AppError::Forbidden);
    assert_eq!(BookHandler::update_book(&reader(), "b1", &book_change()).unwrap_err(), AppError::Forbidden);
    assert_eq!(BookHandler::delete_book(&reader(), "b1").unwrap_err(), AppError::Forbidden);
    assert!(matches!(BookHandler::create_book(&admin(), book()).unwrap().1, Effect::Insert { .. }));
    assert!(matches!(BookHandler::update_book(&admin(), "b1", &book_change()).unwrap().1, Effect::Update { .. }));
    assert!(matches!(BookHandler::delete_book(&admin(), "b1").unwrap().1, Effect::CacheGet { .. }));
}

#[test]
fn chapter_writes_are_for_administrators() {
    let change = UpdateChapterDto { title: Some("N".to_string()), description: None, content: None, chapter_num: None };
    assert_eq!(ChapterHandler::create_chapter(&reader(), chapter()).unwrap_err(), AppError::Forbidden);
    assert_eq!(ChapterHandler::update_chapter(&reader(), "c1", &change).unwrap_err(), AppError::Forbidden);
    assert_eq!(ChapterHandler::delete_chapter(&reader(), "c1").unwrap_err(), AppError::Forbidden);
    assert!(matches!(ChapterHandler::create_chapter(&admin(), chapter()).unwrap().1, Effect::Insert { .. }));
    assert!(matches!(ChapterHandler::update_chapter(&admin(), "c1", &change).unwrap().1, Effect::Update { .. }));
    assert!(matches!(ChapterHandler::delete_chapter(&admin(), "c1").unwrap().1, Effect::CacheGet { .. }));
}

#[test]
fn genre_writes_are_for_administrators() {
    let create = CreateGenreDto { title: Some("t".to_string()), description: Some("d".to_string()) };
    let bad = CreateGenreDto { title: None, description: None };
    let change = UpdateGenreDto { title: Some("N".to_string()), description: None };
    assert_eq!(GenreHandler::create_genre(&reader(), create.clone()).unwrap_err(), AppError::Forbidden);
    assert_eq!(GenreHandler::create_genre(&reader(), bad.clone()).unwrap_err(), AppError::Forbidden);
    assert_eq!(
        GenreHandler::create_genre(&admin(), bad).unwrap_err(),
        AppError::Validation("title and description are required".to_string())
    );
    assert_eq!(GenreHandler::update_genre(&reader(), "g1", &change).unwrap_err(), AppError::Forbidden);
    assert_eq!(GenreHandler::delete_genre(&reader(), "g1").unwrap_err(), AppError::Forbidden);
    assert!(matches!(GenreHandler::create_genre(&admin(), create).unwrap().1, Effect::Insert { .. }));
    assert!(matches!(GenreHandler::update_genre(&admin(), "g1", &change).unwrap().1, Effect::Update { .. }));
    assert!(matches!(GenreHandler::delete_genre(&admin(), "g1").unwrap().1, Effect::CacheGet { .. }));
}

#[test]
fn reads_begin_with_the_cache() {
    let params = PaginationParams::new(None, None, None, None);
    assert_eq!(BookHandler::get_book("b1").1, Effect::CacheGet { key: "book:b1".to_string() });
    assert_eq!(ChapterHandler::get_chapter("c1").1, Effect::CacheGet { key: "chapter:c1".to_string() });
    assert_eq!(GenreHandler::get_genre("g1").1, Effect::CacheGet { key: "genre:g1".to_string() });
    assert_eq!(
        BookHandler::get_books(&params).1,
        ListEffect::CacheGet { key: "books:list:page:1:size:10:search::genres:".to_string() }
    );
    assert_eq!(
        ChapterHandler::get_chapters(&params).1,
        ListEffect::CacheGet { key: "chapters:list:page:1:size:10:search:".to_string() }
    );
    assert_eq!(
        ChapterHandler::get_chapters_by_book("b1", &params).1,
        ListEffect::CacheGet { key: "chapters:book:b1:page:1:size:10".to_string() }
    );
    assert_eq!(GenreHandler::get_genres().1, CatalogueEffect::CacheGet { key: "genre:list".to_string() });
}

#[test]
fn bookmark_leaves_without_its_change_time() {
    let bookmark = Bookmark {
        id: "m1".to_string(), user_id: "u1".to_string(), book_id: "b1".to_string(), created_at: 3, updated_at: 4,
    };
    assert_eq!(
        BookmarkDto::from(bookmark),
        BookmarkDto { id: "m1".to_string(), user_id: "u1".to_string(), book_id: "b1".to_string(), created_at: 3 }
    );
}
