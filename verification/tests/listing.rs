use std::collections::BTreeMap;

use novel_api::cache::policy::CacheTarget;
use novel_api::errors::AppError;
use novel_api::models::book_model::{BookDto, CreateBookDto, Language, Status};
use novel_api::models::chapter_model::ChapterDto;
use novel_api::models::genre_model::{CreateGenreDto, GenreDto, UpdateGenreDto};
use novel_api::models::paging_model::{PaginatedResponse, PaginationParams};
use novel_api::query::{Condition, SqlValue};
use novel_api::services::book_service::BookService;
use novel_api::services::chapter_service::ChapterService;
use novel_api::services::genre_service::GenreService;
use novel_api::services::listing::{
    Catalogue, CatalogueEffect, CatalogueReply, ListEffect, ListReply, Listing,
};
use novel_api::services::repository::{Effect, Reply, Session, StoreFault};

/// A catalogue in memory: books, genres, the join between them, and one
/// cache for entities, pages and the genre list.
struct Library {
    books: Vec<BookDto>,
    genres: BTreeMap<String, GenreDto>,
    book_genres: Vec<(String, String)>,
    pages: BTreeMap<String, PaginatedResponse<BookDto>>,
    genre_list: BTreeMap<String, Vec<GenreDto>>,
    genre_cache: BTreeMap<String, GenreDto>,
    counts: usize,
    fetches: usize,
}

impl Library {
    fn new() -> Self {
        Library {
            books: vec![],
            genres: BTreeMap::new(),
            book_genres: vec![],
            pages: BTreeMap::new(),
            genre_list: BTreeMap::new(),
            genre_cache: BTreeMap::new(),
            counts: 0,
            fetches: 0,
        }
    }

    fn admits(&self, book: &BookDto, conditions: &[Condition]) -> bool {
        conditions.iter().all(|condition| match condition {
            Condition::TitleContains(needle) => book.title.to_lowercase().contains(&needle.to_lowercase()),
            Condition::GenreAmong(terms) => self.book_genres.iter().any(|(book_id, genre_id)| {
                book_id == &book.id
                    && self.genres.get(genre_id).map_or(false, |g| terms.contains(&g.title.to_lowercase()))
            }),
            Condition::OfBook(_) => false,
        })
    }

    fn matching(&self, params: &PaginationParams) -> Vec<BookDto> {
        let conditions = BookService::conditions(params);
        let mut found: Vec<BookDto> =
            self.books.iter().filter(|b| self.admits(b, &conditions)).cloned().collect();
        found.sort_by(|a, b| b.created_at.cmp(&a.created_at));
        found
    }

    fn list(&mut self, params: &PaginationParams) -> Result<PaginatedResponse<BookDto>, AppError> {
        let (mut listing, mut effect) = BookService::get_books(params);
        for _ in 0..6 {
            let reply = match effect {
                ListEffect::CacheGet { key } => ListReply::Cached(self.pages.get(&key).cloned()),
                ListEffect::Count { statement } => {
                    self.counts += 1;
                    assert!(statement.sql.starts_with("SELECT COUNT(*) FROM \"Book\" "));
                    ListReply::Total(self.matching(params).len() as i64)
                }
                ListEffect::Fetch { statement } => {
                    self.fetches += 1;
                    let n = statement.binds.len();
                    let (limit, offset) = match (&statement.binds[n - 2], &statement.binds[n - 1]) {
                        (SqlValue::Integer(limit), SqlValue::Integer(offset)) => (*limit as usize, *offset as usize),
                        other => panic!("unexpected {:?}", other),
                    };
                    ListReply::Rows(self.matching(params).into_iter().skip(offset).take(limit).collect())
                }
                ListEffect::Finish { result, fill } => {
                    assert!(listing.is_finished());
                    if let (Ok(page), Some((key, ttl))) = (&result, &fill) {
                        assert_eq!(*ttl, 600);
                        self.pages.insert(key.clone(), page.clone());
                    }
                    return result;
                }
            };
            let next = listing.step(reply);
            listing = next.0;
            effect = next.1;
        }
        panic!("the listing did not end");
    }

    fn clear(&mut self, targets: &[CacheTarget]) {
        for target in targets {
            match target {
                CacheTarget::Key(key) => {
                    self.pages.remove(key);
                    self.genre_list.remove(key);
                    self.genre_cache.remove(key);
                }
                CacheTarget::Prefix(prefix) => {
                    self.pages.retain(|key, _| !key.starts_with(prefix.as_str()));
                    self.genre_list.retain(|key, _| !key.starts_with(prefix.as_str()));
                    self.genre_cache.retain(|key, _| !key.starts_with(prefix.as_str()));
                }
            }
        }
    }

    fn add_book(&mut self, id: &str, title: &str, at: i64, genre_ids: &[&str]) -> BookDto {
        let request = CreateBookDto {
            title: title.to_string(),
            author: "A".to_string(),
            cover: "c".to_string(),
            description: "d".to_string(),
            asset: None,
            status: Status::Ongoing,
            language: Language::English,
            release_date: None,
            popular: false,
        };
        let (mut session, mut effect) = BookService::create_book_with(id.to_string(), request, at);
        loop {
            let reply = match effect {
                Effect::Insert { row, .. } => {
                    self.books.push(row.clone());
                    for genre_id in genre_ids {
                        self.book_genres.push((row.id.clone(), genre_id.to_string()));
                    }
                    Reply::Row(Some(row))
                }
                Effect::Clear { targets } => {
                    self.clear(&targets);
                    Reply::Cleared
                }
                Effect::Finish { result, .. } => return result.unwrap(),
                other => panic!("unexpected {:?}", other),
            };
            let next = session.step(reply);
            session = next.0;
            effect = next.1;
        }
    }

    fn run_genre(&mut self, begun: (Session<GenreDto>, Effect<GenreDto>), changed: Option<GenreDto>) -> Result<GenreDto, AppError> {
        let (mut session, mut effect) = begun;
        loop {
            let reply = match effect {
                Effect::CacheGet { key } => Reply::Cached(self.genre_cache.get(&key).cloned()),
                Effect::Select { id, .. } => Reply::Row(self.genres.get(&id).cloned()),
                Effect::Insert { row, .. } => {
                    self.genres.insert(row.id.clone(), row.clone());
                    Reply::Row(Some(row))
                }
                Effect::Update { id, .. } => {
                    if self.genres.contains_key(&id) {
                        let row = changed.clone().unwrap();
                        self.genres.insert(id, row.clone());
                        Reply::Row(Some(row))
                    } else {
                        Reply::Row(None)
                    }
                }
                Effect::Remove { id, .. } => {
                    self.genres.remove(&id);
                    self.book_genres.retain(|(_, genre_id)| genre_id != &id);
                    Reply::Removed
                }
                Effect::Clear { targets } => {
                    self.clear(&targets);
                    Reply::Cleared
                }
                Effect::Finish { result, fill } => {
                    if let (Ok(genre), Some((key, _))) = (&result, &fill) {
                        self.genre_cache.insert(key.clone(), genre.clone());
                    }
                    return result;
                }
            };
            let next = session.step(reply);
            session = next.0;
            effect = next.1;
        }
    }

    fn add_genre(&mut self, id: &str, title: &str) -> GenreDto {
        let request = CreateGenreDto { title: Some(title.to_string()), description: Some("d".to_string()) };
        let begun = GenreService::create_genre_with(id.to_string(), request, 1).unwrap();
        self.run_genre(begun, None).unwrap()
    }

    fn all_genres(&mut self) -> Result<Vec<GenreDto>, AppError> {
        let (mut catalogue, mut effect): (Catalogue, CatalogueEffect<GenreDto>) = GenreService::get_genres();
        loop {
            let reply = match effect {
                CatalogueEffect::CacheGet { key } => CatalogueReply::Cached(self.genre_list.get(&key).cloned()),
                CatalogueEffect::Fetch { statement } => {
                    assert_eq!(
                        statement.sql,
                        "SELECT id, title, description, created_at, updated_at FROM \"Genre\" ORDER BY created_at DESC"
                    );
                    CatalogueReply::Rows(self.genres.values().cloned().collect())
                }
                CatalogueEffect::Finish { result, fill } => {
                    assert!(catalogue.is_finished());
                    if let (Ok(list), Some((key, ttl))) = (&result, &fill) {
                        assert_eq!(*ttl, 600);
                        self.genre_list.insert(key.clone(), list.clone());
                    }
                    return result;
                }
            };
            let next = catalogue.step(reply);
            catalogue = next.0;
            effect = next.1;
        }
    }
}

fn request(page: i64, size: i64, search: Option<&str>, genres: Option<&str>) -> PaginationParams {
    PaginationParams {
        page,
        page_size: size,
        search: search.map(|s| s.to_string()),
        genres: genres.map(|s| s.to_string()),
    }
}

fn ids(page: &PaginatedResponse<BookDto>) -> Vec<String> {
    page.data.iter().map(|b| b.id.clone()).collect()
}

#[test]
fn genre_filter_is_case_folded_and_follows_the_join() {
    let mut library = Library::new();
    let fantasy = library.add_genre("g1", "Fantasy");
    library.add_genre("g2", "Horror");
    let b = library.add_book("b", "The Hobbit", 10, &["g1"]);
    library.add_book("c", "It", 20, &["g2"]);

    let page = library.list(&request(1, 10, None, Some("fantasy"))).unwrap();
    assert_eq!(page.data, vec![b.clone()]);
    assert_eq!((page.total_items, page.total_pages), (1, 1));
    assert_eq!(ids(&library.list(&request(1, 10, None, Some(" FANTASY , unknown"))).unwrap()), vec!["b"]);
    assert_eq!(ids(&library.list(&request(1, 10, None, Some("horror,fantasy"))).unwrap()), vec!["c", "b"]);
    assert_eq!(ids(&library.list(&request(1, 10, None, Some("romance"))).unwrap()), Vec::<String>::new());
    assert!(library.pages.contains_key("books:list:page:1:size:10:search::genres:fantasy"));

    assert_eq!(library.run_genre(GenreService::delete_genre("g1"), None), Ok(fantasy));
    assert!(library.books.iter().any(|book| book.id == "b"));
    assert!(library.pages.is_empty());
    let page = library.list(&request(1, 10, None, Some("fantasy"))).unwrap();
    assert_eq!(page.data, vec![]);
    assert_eq!((page.total_items, page.total_pages), (0, 0));
    assert_eq!(ids(&library.list(&request(1, 10, None, None)).unwrap()), vec!["c", "b"]);
}

#[test]
fn pages_are_cached_under_the_request_and_swept_by_writes() {
    let mut library = Library::new();
    for n in 0..25 {
        library.add_book(&format!("b{}", n), &format!("Book {}", n), n, &[]);
    }
    let first = library.list(&request(1, 10, None, None)).unwrap();
    assert_eq!(first.data.len(), 10);
    assert_eq!(first.data[0].id, "b24");
    assert_eq!((first.page, first.page_size, first.total_items, first.total_pages), (1, 10, 25, 3));
    assert_eq!((library.counts, library.fetches), (1, 1));
    assert_eq!(library.list(&request(1, 10, None, None)), Ok(first.clone()));
    assert_eq!((library.counts, library.fetches), (1, 1));

    let third = library.list(&request(3, 10, None, None)).unwrap();
    assert_eq!(ids(&third), vec!["b4", "b3", "b2", "b1", "b0"]);
    assert_eq!(third.total_pages, 3);
    let beyond = library.list(&request(4, 10, None, None)).unwrap();
    assert_eq!(beyond.data, vec![]);
    assert_eq!((beyond.total_items, beyond.total_pages), (25, 3));
    assert_eq!(library.list(&request(1, 20, None, None)).unwrap().total_pages, 2);
    assert_eq!(library.pages.len(), 4);

    library.add_book("new", "Newest", 100, &[]);
    assert!(library.pages.is_empty());
    let fresh = library.list(&request(1, 10, None, None)).unwrap();
    assert_eq!(fresh.data[0].id, "new");
    assert_eq!((fresh.total_items, fresh.total_pages), (26, 3));
}

#[test]
fn search_matches_a_substring_of_the_title_in_any_case() {
    let mut library = Library::new();
    library.add_book("a", "The Dragon Reborn", 1, &[]);
    library.add_book("b", "Dragonflight", 2, &[]);
    library.add_book("c", "Emma", 3, &[]);
    assert_eq!(ids(&library.list(&request(1, 10, Some("dragon"), None)).unwrap()), vec!["b", "a"]);
    assert_eq!(ids(&library.list(&request(1, 10, Some("DRAGON R"), None)).unwrap()), vec!["a"]);
    assert_eq!(ids(&library.list(&request(1, 10, Some(""), None)).unwrap()), vec!["c", "b", "a"]);
    assert_eq!(library.list(&request(1, 10, Some("zzz"), None)).unwrap().total_pages, 0);
    match BookService::get_books(&request(1, 10, Some("50%_"), None)).0.step::<BookDto>(ListReply::Cached(None)).1 {
        ListEffect::Count { statement } => {
            assert_eq!(statement.sql, "SELECT COUNT(*) FROM \"Book\" WHERE title ILIKE $1");
            assert_eq!(statement.binds, vec![SqlValue::Text("%50\\%\\_%".to_string())]);
        }
        other => panic!("unexpected {:?}", other),
    }
}

#[test]
fn requests_that_cannot_be_served_are_refused_before_any_work() {
    let refused = Err(AppError::BadRequest("Invalid pagination parameters".to_string()));
    for (page, size) in [(0, 10), (1, 0), (-3, 10), (1, -1), (1, 101), (i64::MAX, 100)] {
        let (listing, effect) = BookService::get_books(&request(page, size, None, None));
        assert!(listing.is_finished());
        assert_eq!(effect, ListEffect::Finish { result: refused.clone(), fill: None });
        let (listing, effect) = ChapterService::get_chapters(&request(page, size, None, None));
        assert!(listing.is_finished());
        assert_eq!(effect, ListEffect::Finish { result: refused.clone().map(|_: PaginatedResponse<BookDto>| unreachable!()), fill: None });
    }
    let mut library = Library::new();
    assert_eq!(library.list(&request(0, 10, None, None)), refused);
    assert_eq!((library.counts, library.fetches), (0, 0));
}

#[test]
fn chapter_listings_step_by_step() {
    let params = request(2, 5, Some("one"), Some("ignored"));
    let (listing, effect) = ChapterService::get_chapters(&params);
    assert_eq!(effect, ListEffect::CacheGet { key: "chapters:list:page:2:size:5:search:one".to_string() });
    let (listing, effect) = listing.step::<ChapterDto>(ListReply::Cached(None));
    match effect {
        ListEffect::Count { statement } => {
            assert_eq!(statement.sql, "SELECT COUNT(*) FROM \"Chapter\" WHERE title ILIKE $1");
            assert_eq!(statement.binds, vec![SqlValue::Text("%one%".to_string())]);
        }
        other => panic!("unexpected {:?}", other),
    }
    let (listing, effect) = listing.step::<ChapterDto>(ListReply::Total(12));
    match effect {
        ListEffect::Fetch { statement } => {
            assert_eq!(
                statement.sql,
                "SELECT id, title, book_id, description, created_at, updated_at, content, chapter_num FROM \"Chapter\" WHERE title ILIKE $1 ORDER BY chapter_num ASC LIMIT $2 OFFSET $3"
            );
            assert_eq!(
                statement.binds,
                vec![SqlValue::Text("%one%".to_string()), SqlValue::Integer(5), SqlValue::Integer(5)]
            );
        }
        other => panic!("unexpected {:?}", other),
    }
    let (listing, effect) = listing.step::<ChapterDto>(ListReply::Rows(vec![]));
    assert!(listing.is_finished());
    assert_eq!(
        effect,
        ListEffect::Finish {
            result: Ok(PaginatedResponse { data: vec![], page: 2, page_size: 5, total_items: 12, total_pages: 3 }),
            fill: Some(("chapters:list:page:2:size:5:search:one".to_string(), 600)),
        }
    );
}

#[test]
fn chapters_of_a_book_are_listed_under_the_book() {
    let (listing, effect): (Listing, ListEffect<ChapterDto>) =
        ChapterService::get_chapters_by_book("b1", &request(1, 10, Some("ignored"), None));
    assert_eq!(effect, ListEffect::CacheGet { key: "chapters:book:b1:page:1:size:10".to_string() });
    let (listing, effect) = listing.step::<ChapterDto>(ListReply::Cached(None));
    match effect {
        ListEffect::Count { statement } => {
            assert_eq!(statement.sql, "SELECT COUNT(*) FROM \"Chapter\" WHERE book_id = $1");
            assert_eq!(statement.binds, vec![SqlValue::Text("b1".to_string())]);
        }
        other => panic!("unexpected {:?}", other),
    }
    let (_, effect) = listing.step::<ChapterDto>(ListReply::Total(0));
    match effect {
        ListEffect::Fetch { statement } => {
            assert!(statement.sql.ends_with("WHERE book_id = $1 ORDER BY chapter_num ASC LIMIT $2 OFFSET $3"));
            assert_eq!(
                statement.binds,
                vec![SqlValue::Text("b1".to_string()), SqlValue::Integer(10), SqlValue::Integer(0)]
            );
        }
        other => panic!("unexpected {:?}", other),
    }
}

#[test]
fn listing_failures_and_confusion() {
    let params = request(1, 10, None, None);
    let start = || BookService::get_books(&params).0;
    let failed = |effect: ListEffect<BookDto>, error: AppError| {
        assert_eq!(effect, ListEffect::Finish { result: Err(error), fill: None });
    };
    let (listing, _) = start().step::<BookDto>(ListReply::Cached(None));
    failed(
        listing.step(ListReply::Fault(StoreFault::Other("down".to_string()))).1,
        AppError::Database("down".to_string()),
    );
    let (listing, _) = start().step::<BookDto>(ListReply::Cached(None));
    failed(listing.step(ListReply::Total(-1)).1, AppError::InternalServer);
    let (listing, _) = start().step::<BookDto>(ListReply::Cached(None));
    let (listing, _) = listing.step::<BookDto>(ListReply::Total(3));
    failed(
        listing.step(ListReply::Fault(StoreFault::Other("down".to_string()))).1,
        AppError::Database("down".to_string()),
    );
    failed(start().step(ListReply::Total(3)).1, AppError::InternalServer);
    failed(start().step(ListReply::Rows(vec![])).1, AppError::InternalServer);
    let (done, _) = start().step::<BookDto>(ListReply::Rows(vec![]));
    assert!(done.is_finished());
    failed(done.step(ListReply::Cached(None)).1, AppError::InternalServer);
}

#[test]
fn genre_list_is_cached_whole_and_swept_by_genre_writes() {
    let mut library = Library::new();
    let fantasy = library.add_genre("g1", "Fantasy");
    assert_eq!(library.all_genres(), Ok(vec![fantasy.clone()]));
    assert_eq!(library.genre_list.get("genre:list"), Some(&vec![fantasy.clone()]));
    library.genres.clear();
    assert_eq!(library.all_genres(), Ok(vec![fantasy.clone()]));
    library.genres.insert("g1".to_string(), fantasy.clone());

    let horror = library.add_genre("g2", "Horror");
    assert!(library.genre_list.is_empty());
    assert_eq!(library.all_genres(), Ok(vec![fantasy.clone(), horror.clone()]));

    assert_eq!(library.run_genre(GenreService::get_genre("g1"), None), Ok(fantasy.clone()));
    assert!(library.genre_cache.contains_key("genre:g1"));
    let mut renamed = fantasy.clone();
    renamed.title = "High Fantasy".to_string();
    renamed.updated_at = 8;
    let change = UpdateGenreDto { title: Some("High Fantasy".to_string()), description: None };
    assert_eq!(
        library.run_genre(GenreService::update_genre_at("g1", &change, 8), Some(renamed.clone())),
        Ok(renamed.clone())
    );
    assert!(library.genre_list.is_empty());
    assert!(!library.genre_cache.contains_key("genre:g1"));
    assert_eq!(library.run_genre(GenreService::get_genre("g1"), None), Ok(renamed.clone()));
    assert_eq!(library.all_genres(), Ok(vec![renamed, horror]));
    let nothing = UpdateGenreDto { title: None, description: None };
    assert!(library.run_genre(GenreService::update_genre("g2", &nothing), None).is_ok());
    assert!(library.genre_list.contains_key("genre:list"));
}

#[test]
fn genre_without_title_or_description_is_refused() {
    let refused = AppError::Validation("title and description are required".to_string());
    let request = CreateGenreDto { title: None, description: Some("d".to_string()) };
    assert_eq!(GenreService::create_genre_with("g".to_string(), request.clone(), 1).unwrap_err(), refused);
    assert_eq!(GenreService::create_genre(request).unwrap_err(), refused);
    let request = CreateGenreDto { title: Some("t".to_string()), description: None };
    assert_eq!(GenreService::create_genre(request).unwrap_err(), refused);
    assert_eq!(refused.status_code(), 400);
    let request = CreateGenreDto { title: Some("t".to_string()), description: Some("d".to_string()) };
    let (_, effect) = GenreService::create_genre(request).unwrap();
    match effect {
        Effect::Insert { row, statement } => {
            assert_eq!(row.title, "t");
            assert_eq!(row.created_at, row.updated_at);
            assert!(!row.id.is_empty());
            assert_eq!(statement.binds[0], SqlValue::Text(row.id.clone()));
        }
        other => panic!("unexpected {:?}", other),
    }
}

#[test]
fn catalogue_failures() {
    let (catalogue, _): (Catalogue, CatalogueEffect<GenreDto>) = GenreService::get_genres();
    let (catalogue, _) = catalogue.step::<GenreDto>(CatalogueReply::Cached(None));
    let (catalogue, effect) = catalogue.step::<GenreDto>(CatalogueReply::Fault(StoreFault::Other("down".to_string())));
    assert!(catalogue.is_finished());
    assert_eq!(effect, CatalogueEffect::Finish { result: Err(AppError::Database("down".to_string())), fill: None });
    let (catalogue, _): (Catalogue, CatalogueEffect<GenreDto>) = GenreService::get_genres();
    let (_, effect) = catalogue.step::<GenreDto>(CatalogueReply::Rows(vec![]));
    assert_eq!(effect, CatalogueEffect::Finish { result: Err(AppError::InternalServer), fill: None });
}
