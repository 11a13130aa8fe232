use std::collections::BTreeMap;

use novel_api::cache::keys::{item_key, EntityKind};
use novel_api::cache::policy::CacheTarget;
use novel_api::errors::AppError;
use novel_api::models::book_model::{BookDto, CreateBookDto, Language, Status, UpdateBookDto};
use novel_api::models::chapter_model::{ChapterDto, CreateChapterDto, UpdateChapterDto};
use novel_api::query::{select_by_id, delete_by_id, SqlValue};
use novel_api::services::book_service::BookService;
use novel_api::services::chapter_service::ChapterService;
use novel_api::services::repository::{not_found, Effect, Record, Reply, Session, StoreFault};

/// A store and a cache in memory. An update replaces the row by `changed`.
struct Memory<T> {
    rows: BTreeMap<String, T>,
    cache: BTreeMap<String, T>,
    cache_up: bool,
    store_up: bool,
    cleared: Vec<CacheTarget>,
    statements: Vec<String>,
    lookups: usize,
}

impl<T: Record + Clone> Memory<T> {
    fn new() -> Self {
        Memory {
            rows: BTreeMap::new(),
            cache: BTreeMap::new(),
            cache_up: true,
            store_up: true,
            cleared: vec![],
            statements: vec![],
            lookups: 0,
        }
    }

    fn clear(&mut self, targets: &[CacheTarget]) {
        for target in targets {
            match target {
                CacheTarget::Key(key) => {
                    self.cache.remove(key);
                }
                CacheTarget::Prefix(prefix) => {
                    self.cache.retain(|key, _| !key.starts_with(prefix.as_str()));
                }
            }
        }
    }

    fn answer(&mut self, effect: Effect<T>, changed: &Option<T>) -> Result<Reply<T>, Result<T, AppError>> {
        let down = || Reply::Fault(StoreFault::Other("connection refused".to_string()));
        Ok(match effect {
            Effect::CacheGet { key } => {
                self.lookups += 1;
                Reply::Cached(if self.cache_up { self.cache.get(&key).cloned() } else { None })
            }
            Effect::Select { id, statement } => {
                self.statements.push(statement.sql);
                if self.store_up { Reply::Row(self.rows.get(&id).cloned()) } else { down() }
            }
            Effect::Insert { row, statement } => {
                self.statements.push(statement.sql);
                if !self.store_up {
                    down()
                } else if self.rows.contains_key(&row.id()) {
                    Reply::Fault(StoreFault::UniqueViolation("duplicate key".to_string()))
                } else {
                    self.rows.insert(row.id(), row.clone());
                    Reply::Row(Some(row))
                }
            }
            Effect::Update { id, statement } => {
                self.statements.push(statement.sql);
                if !self.store_up {
                    down()
                } else if self.rows.contains_key(&id) {
                    let row = changed.clone().unwrap();
                    self.rows.insert(id, row.clone());
                    Reply::Row(Some(row))
                } else {
                    Reply::Row(None)
                }
            }
            Effect::Remove { id, statement } => {
                self.statements.push(statement.sql);
                if self.store_up {
                    self.rows.remove(&id);
                    Reply::Removed
                } else {
                    down()
                }
            }
            Effect::Clear { targets } => {
                if self.cache_up {
                    self.clear(&targets);
                }
                self.cleared.extend(targets);
                Reply::Cleared
            }
            Effect::Finish { result, fill } => {
                if let (Ok(entity), Some((key, ttl))) = (&result, &fill) {
                    assert_eq!(*ttl, 600);
                    if self.cache_up {
                        self.cache.insert(key.clone(), entity.clone());
                    }
                }
                return Err(result);
            }
        })
    }

    fn drive(&mut self, begun: (Session<T>, Effect<T>), changed: Option<T>) -> Result<T, AppError> {
        let (mut session, mut effect) = begun;
        for _ in 0..10 {
            match self.answer(effect, &changed) {
                Ok(reply) => {
                    assert!(!session.is_finished());
                    let next = session.step(reply);
                    session = next.0;
                    effect = next.1;
                }
                Err(result) => {
                    assert!(session.is_finished());
                    return result;
                }
            }
        }
        panic!("the session did not end");
    }
}

fn payload(title: &str) -> CreateBookDto {
    CreateBookDto {
        title: title.to_string(),
        author: "An Author".to_string(),
        cover: "cover.png".to_string(),
        description: "About.".to_string(),
        asset: None,
        status: Status::Ongoing,
        language: Language::English,
        release_date: Some(2020),
        popular: false,
    }
}

fn no_fields() -> UpdateBookDto {
    UpdateBookDto {
        title: None, author: None, cover: None, description: None, asset: None,
        status: None, language: None, release_date: None, popular: None,
    }
}

fn retitled(book: &BookDto, title: &str, at: i64) -> BookDto {
    let mut changed = book.clone();
    changed.title = title.to_string();
    changed.updated_at = at;
    changed
}

fn chapter(id: &str, book_id: &str) -> ChapterDto {
    ChapterDto {
        id: id.to_string(),
        title: "One".to_string(),
        book_id: book_id.to_string(),
        description: "d".to_string(),
        created_at: 1,
        updated_at: 1,
        content: "text".to_string(),
        chapter_num: 1,
    }
}

fn prefix(s: &str) -> CacheTarget {
    CacheTarget::Prefix(s.to_string())
}

fn key(s: &str) -> CacheTarget {
    CacheTarget::Key(s.to_string())
}

#[test]
fn created_book_reads_back_equal() {
    let mut memory: Memory<BookDto> = Memory::new();
    let created = memory.drive(BookService::create_book_with("b1".to_string(), payload("Dune"), 100), None).unwrap();
    assert_eq!(created.id, "b1");
    assert_eq!(created.title, "Dune");
    assert_eq!((created.created_at, created.updated_at), (100, 100));
    assert_eq!(memory.cleared, vec![prefix("books:list:")]);
    assert!(memory.cache.is_empty());
    let read = memory.drive(BookService::get_book("b1"), None).unwrap();
    assert_eq!(read, created);
    assert_eq!(memory.cache.get("book:b1"), Some(&created));
    let again = memory.drive(BookService::get_book("b1"), None).unwrap();
    assert_eq!(again, created);
}

#[test]
fn created_book_gets_a_fresh_identifier_and_the_time() {
    let mut memory: Memory<BookDto> = Memory::new();
    let first = memory.drive(BookService::create_book(payload("A")), None).unwrap();
    let second = memory.drive(BookService::create_book(payload("B")), None).unwrap();
    assert_ne!(first.id, second.id);
    assert!(!first.id.is_empty());
    assert_eq!(first.created_at, first.updated_at);
    assert!(first.created_at > 1_600_000_000_000_000);
    assert!(second.created_at >= first.created_at);
    assert_eq!(memory.drive(BookService::get_book(&first.id), None), Ok(first));
    assert_eq!(memory.drive(BookService::get_book(&second.id), None), Ok(second));
}

#[test]
fn read_goes_to_the_cache_first_and_fills_it_on_a_miss() {
    let mut memory: Memory<BookDto> = Memory::new();
    let book = memory.drive(BookService::create_book_with("b1".to_string(), payload("Dune"), 1), None).unwrap();
    memory.statements.clear();
    assert_eq!(memory.drive(BookService::get_book("b1"), None), Ok(book.clone()));
    assert_eq!(memory.statements, vec![select_by_id(EntityKind::Book, "b1").sql]);
    memory.statements.clear();
    assert_eq!(memory.drive(BookService::get_book("b1"), None), Ok(book.clone()));
    assert!(memory.statements.is_empty());
    memory.rows.clear();
    assert_eq!(memory.drive(BookService::get_book("b1"), None), Ok(book));
}

#[test]
fn read_of_nothing_is_not_found_and_caches_nothing() {
    let mut memory: Memory<BookDto> = Memory::new();
    assert_eq!(
        memory.drive(BookService::get_book("nope"), None),
        Err(AppError::NotFound("Book not found".to_string()))
    );
    assert!(memory.cache.is_empty());
    assert_eq!(not_found(EntityKind::Chapter), AppError::NotFound("Chapter not found".to_string()));
    assert_eq!(not_found(EntityKind::Genre).status_code(), 404);
}

#[test]
fn update_without_fields_is_a_read() {
    let mut memory: Memory<BookDto> = Memory::new();
    let book = memory.drive(BookService::create_book_with("b1".to_string(), payload("Dune"), 1), None).unwrap();
    memory.cache.insert("books:list:page:1:size:10:search::genres:".to_string(), book.clone());
    let rows_before = memory.rows.clone();
    memory.cleared.clear();
    memory.statements.clear();
    let result = memory.drive(BookService::update_book_at("b1", &no_fields(), 999), None);
    assert_eq!(result, Ok(book.clone()));
    assert_eq!(memory.rows, rows_before);
    assert_eq!(memory.rows["b1"].updated_at, 1);
    assert!(memory.cleared.is_empty());
    assert!(memory.cache.contains_key("books:list:page:1:size:10:search::genres:"));
    assert_eq!(memory.statements, vec![select_by_id(EntityKind::Book, "b1").sql]);
    assert_eq!(memory.drive(BookService::update_book("b1", &no_fields()), None), Ok(book));
    assert_eq!(
        memory.drive(BookService::update_book_at("missing", &no_fields(), 5), None),
        Err(AppError::NotFound("Book not found".to_string()))
    );
}

#[test]
fn update_is_read_back_even_if_the_old_state_was_cached() {
    let mut memory: Memory<BookDto> = Memory::new();
    let book = memory.drive(BookService::create_book_with("b1".to_string(), payload("Dune"), 1), None).unwrap();
    assert_eq!(memory.drive(BookService::get_book("b1"), None), Ok(book.clone()));
    assert_eq!(memory.cache.get("book:b1"), Some(&book));
    memory.cache.insert("books:list:page:1:size:10:search::genres:".to_string(), book.clone());
    memory.cache.insert("book:b2".to_string(), book.clone());
    memory.cleared.clear();

    let mut request = no_fields();
    request.title = Some("Dune Messiah".to_string());
    let changed = retitled(&book, "Dune Messiah", 50);
    let result = memory.drive(BookService::update_book_at("b1", &request, 50), Some(changed.clone()));
    assert_eq!(result, Ok(changed.clone()));
    assert_eq!(memory.cleared, vec![key("book:b1"), prefix("books:list:")]);
    assert!(!memory.cache.contains_key("book:b1"));
    assert!(!memory.cache.contains_key("books:list:page:1:size:10:search::genres:"));
    assert!(memory.cache.contains_key("book:b2"));
    assert_eq!(
        memory.statements.last().unwrap(),
        "UPDATE \"Book\" SET title = $1, updated_at = $2 WHERE id = $3 RETURNING *"
    );
    assert_eq!(memory.drive(BookService::get_book("b1"), None), Ok(changed.clone()));
    assert!(changed.updated_at >= changed.created_at);
}

#[test]
fn update_binds_the_values_the_time_and_the_identifier() {
    let mut request = no_fields();
    request.title = Some("T".to_string());
    request.popular = Some(true);
    let (_, effect) = BookService::update_book_at("b1", &request, 77);
    match effect {
        Effect::Update { id, statement } => {
            assert_eq!(id, "b1");
            assert_eq!(statement.sql, "UPDATE \"Book\" SET title = $1, popular = $2, updated_at = $3 WHERE id = $4 RETURNING *");
            assert_eq!(
                statement.binds,
                vec![
                    SqlValue::Text("T".to_string()),
                    SqlValue::Boolean(true),
                    SqlValue::Timestamp(77),
                    SqlValue::Text("b1".to_string()),
                ]
            );
        }
        other => panic!("unexpected {:?}", other),
    }
}

#[test]
fn update_of_nothing_is_not_found_and_clears_nothing() {
    let mut memory: Memory<BookDto> = Memory::new();
    let mut request = no_fields();
    request.author = Some("X".to_string());
    assert_eq!(
        memory.drive(BookService::update_book_at("ghost", &request, 5), None),
        Err(AppError::NotFound("Book not found".to_string()))
    );
    assert!(memory.cleared.is_empty());
}

#[test]
fn delete_returns_the_entity_and_leaves_nothing_to_read() {
    let mut memory: Memory<BookDto> = Memory::new();
    let book = memory.drive(BookService::create_book_with("b1".to_string(), payload("Dune"), 1), None).unwrap();
    assert_eq!(memory.drive(BookService::get_book("b1"), None), Ok(book.clone()));
    assert!(memory.cache.contains_key("book:b1"));
    memory.cleared.clear();
    assert_eq!(memory.drive(BookService::delete_book("b1"), None), Ok(book));
    assert!(memory.rows.is_empty());
    assert!(!memory.cache.contains_key("book:b1"));
    assert_eq!(memory.cleared, vec![key("book:b1"), prefix("books:list:")]);
    assert_eq!(memory.statements.last().unwrap(), &delete_by_id(EntityKind::Book, "b1").sql);
    assert_eq!(
        memory.drive(BookService::get_book("b1"), None),
        Err(AppError::NotFound("Book not found".to_string()))
    );
    assert_eq!(
        memory.drive(BookService::delete_book("b1"), None),
        Err(AppError::NotFound("Book not found".to_string()))
    );
}

#[test]
fn reads_during_a_cache_outage_fall_back_to_the_store() {
    let mut memory: Memory<BookDto> = Memory::new();
    let book = memory.drive(BookService::create_book_with("b1".to_string(), payload("Dune"), 1), None).unwrap();
    memory.cache_up = false;
    let mut results = vec![];
    for _ in 0..8 {
        results.push(memory.drive(BookService::get_book("b1"), None));
    }
    for result in &results {
        assert_eq!(result, &Ok(book.clone()));
    }
    assert!(memory.cache.is_empty());
    assert_eq!(memory.lookups, 8);

    let mut request = no_fields();
    request.title = Some("Changed".to_string());
    let changed = retitled(&book, "Changed", 9);
    assert_eq!(
        memory.drive(BookService::update_book_at("b1", &request, 9), Some(changed.clone())),
        Ok(changed.clone())
    );
    assert_eq!(memory.drive(BookService::get_book("b1"), None), Ok(changed.clone()));
    assert_eq!(memory.drive(BookService::delete_book("b1"), None), Ok(changed));
}

#[test]
fn store_failures_are_reported_and_conflicts_told_apart() {
    let mut memory: Memory<BookDto> = Memory::new();
    memory.drive(BookService::create_book_with("b1".to_string(), payload("Dune"), 1), None).unwrap();
    assert_eq!(
        memory.drive(BookService::create_book_with("b1".to_string(), payload("Again"), 2), None),
        Err(AppError::Conflict("duplicate key".to_string()))
    );
    assert_eq!(memory.rows.len(), 1);
    assert_eq!(memory.rows["b1"].title, "Dune");

    memory.store_up = false;
    let down = Err(AppError::Database("connection refused".to_string()));
    assert_eq!(memory.drive(BookService::get_book("b1"), None), down);
    assert_eq!(memory.drive(BookService::create_book_with("b2".to_string(), payload("X"), 3), None), down);
    let mut request = no_fields();
    request.title = Some("T".to_string());
    assert_eq!(memory.drive(BookService::update_book_at("b1", &request, 3), None), down);
    assert_eq!(memory.drive(BookService::delete_book("b1"), None), down);
    assert_eq!(down.clone().unwrap_err().status_code(), 500);
    assert_eq!(down.unwrap_err().message(), "Internal server error");
    assert_eq!(StoreFault::Other("x".to_string()).into_error(), AppError::Database("x".to_string()));
    assert_eq!(StoreFault::UniqueViolation("x".to_string()).into_error(), AppError::Conflict("x".to_string()));
}

#[test]
fn unexpected_replies_end_the_session_with_an_internal_error() {
    let (session, _) = BookService::get_book("b1");
    let (session, effect) = session.step(Reply::Removed);
    assert!(session.is_finished());
    assert_eq!(effect, Effect::Finish { result: Err(AppError::InternalServer), fill: None });
    let (session, effect) = session.step(Reply::Cached(None));
    assert!(session.is_finished());
    assert_eq!(effect, Effect::Finish { result: Err(AppError::InternalServer), fill: None });

    let (session, _) = BookService::create_book_with("b1".to_string(), payload("Dune"), 1);
    let (_, effect) = session.step(Reply::Row(None));
    assert_eq!(effect, Effect::Finish { result: Err(AppError::InternalServer), fill: None });
}

#[test]
fn session_effects_step_by_step() {
    let (session, effect) = Session::<BookDto>::read(EntityKind::Book, "b1");
    assert_eq!(effect, Effect::CacheGet { key: item_key(EntityKind::Book, "b1") });
    let (session, effect) = session.step(Reply::Cached(None));
    assert_eq!(effect, Effect::Select { id: "b1".to_string(), statement: select_by_id(EntityKind::Book, "b1") });
    let mut memory: Memory<BookDto> = Memory::new();
    let book = memory.drive(BookService::create_book_with("b1".to_string(), payload("Dune"), 1), None).unwrap();
    let (session, effect) = session.step(Reply::Row(Some(book.clone())));
    assert_eq!(effect, Effect::Finish { result: Ok(book.clone()), fill: Some(("book:b1".to_string(), 600)) });
    assert!(session.is_finished());

    let (session, _) = Session::<BookDto>::delete(EntityKind::Book, "b1");
    let (session, effect) = session.step(Reply::Cached(Some(book.clone())));
    assert_eq!(effect, Effect::Remove { id: "b1".to_string(), statement: delete_by_id(EntityKind::Book, "b1") });
    let (session, effect) = session.step(Reply::Removed);
    assert_eq!(effect, Effect::Clear { targets: vec![key("book:b1"), prefix("books:list:")] });
    let (_, effect) = session.step(Reply::Cleared);
    assert_eq!(effect, Effect::Finish { result: Ok(book), fill: None });
}

#[test]
fn chapter_writes_sweep_the_listings_of_their_book() {
    let mut memory: Memory<ChapterDto> = Memory::new();
    let request = CreateChapterDto {
        title: "One".to_string(),
        book_id: "b1".to_string(),
        description: "d".to_string(),
        content: "text".to_string(),
        chapter_num: 1,
    };
    let created = memory.drive(ChapterService::create_chapter_with("c1".to_string(), request, 5), None).unwrap();
    assert_eq!(created.book_id, "b1");
    assert_eq!(created.parent_id(), Some("b1".to_string()));
    assert_eq!(memory.cleared, vec![prefix("chapters:list:"), prefix("chapters:book:b1:")]);

    memory.cache.insert("chapters:book:b1:page:1:size:10".to_string(), chapter("x", "b1"));
    memory.cache.insert("chapters:book:b12:page:1:size:10".to_string(), chapter("y", "b12"));
    memory.cache.insert("chapters:list:page:1:size:10:search:".to_string(), chapter("z", "b1"));
    memory.cache.insert("chapter:c2".to_string(), chapter("c2", "b1"));
    memory.cleared.clear();
    let request = UpdateChapterDto { title: None, description: None, content: Some("more".to_string()), chapter_num: None };
    let mut changed = created.clone();
    changed.content = "more".to_string();
    changed.updated_at = 6;
    assert_eq!(
        memory.drive(ChapterService::update_chapter_at("c1", &request, 6), Some(changed.clone())),
        Ok(changed.clone())
    );
    assert_eq!(memory.cleared, vec![key("chapter:c1"), prefix("chapters:list:"), prefix("chapters:book:b1:")]);
    assert!(!memory.cache.contains_key("chapters:book:b1:page:1:size:10"));
    assert!(!memory.cache.contains_key("chapters:list:page:1:size:10:search:"));
    assert!(memory.cache.contains_key("chapters:book:b12:page:1:size:10"));
    assert!(memory.cache.contains_key("chapter:c2"));
    assert_eq!(memory.drive(ChapterService::get_chapter("c1"), None), Ok(changed.clone()));

    memory.cleared.clear();
    assert_eq!(memory.drive(ChapterService::delete_chapter("c1"), None), Ok(changed));
    assert_eq!(memory.cleared, vec![key("chapter:c1"), prefix("chapters:list:"), prefix("chapters:book:b1:")]);
    assert_eq!(
        memory.drive(ChapterService::get_chapter("c1"), None),
        Err(AppError::NotFound("Chapter not found".to_string()))
    );
}
