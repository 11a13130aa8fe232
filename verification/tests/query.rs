use novel_api::cache::keys::EntityKind;
use novel_api::models::book_model::{Book, CreateBookDto, Language, Status, UpdateBookDto};
use novel_api::models::chapter_model::{Chapter, CreateChapterDto, UpdateChapterDto};
use novel_api::models::genre_model::{CreateGenreDto, Genre, UpdateGenreDto};
use novel_api::models::paging_model::{PaginationParams, Window};
use novel_api::query::{
    bind_predicate, count_rows, delete_by_id, fetch_page, genre_terms, insert_row, like_pattern,
    list_query, placeholder, select_all, select_by_id, update_by_id, where_clause, ChangeSet,
    Condition, SqlValue, Statement,
};
use novel_api::services::book_service::BookService;
use novel_api::services::chapter_service::ChapterService;
use novel_api::services::genre_service::GenreService;

const GENRE_CLAUSE_HEAD: &str = "EXISTS (SELECT 1 FROM \"BookGenre\" bg INNER JOIN \"Genre\" g ON bg.genre_id = g.id WHERE bg.book_id = \"Book\".id AND LOWER(g.title) IN (";
const BOOK_COLUMNS: &str = "id, title, author, cover, description, asset, status, language, release_date, popular, created_at, updated_at";
const CHAPTER_COLUMNS: &str = "id, title, book_id, description, created_at, updated_at, content, chapter_num";

fn text(s: &str) -> SqlValue {
    SqlValue::Text(s.to_string())
}

fn strings(v: &[&str]) -> Vec<String> {
    v.iter().map(|s| s.to_string()).collect()
}

fn params(search: Option<&str>, genres: Option<&str>) -> PaginationParams {
    PaginationParams {
        page: 2,
        page_size: 10,
        search: search.map(|s| s.to_string()),
        genres: genres.map(|s| s.to_string()),
    }
}

#[test]
fn placeholders_are_numbered() {
    assert_eq!(placeholder(1), "$1");
    assert_eq!(placeholder(12), "$12");
    assert_eq!(placeholder(0), "$0");
    assert_eq!(placeholder(u128::MAX), format!("${}", u128::MAX));
}

#[test]
fn like_pattern_takes_the_needle_literally() {
    assert_eq!(like_pattern("dragon"), "%dragon%");
    assert_eq!(like_pattern(""), "%%");
    assert_eq!(like_pattern("100%"), "%100\\%%");
    assert_eq!(like_pattern("a_b"), "%a\\_b%");
    assert_eq!(like_pattern("back\\slash"), "%back\\\\slash%");
    assert_eq!(like_pattern("Ünï"), "%Ünï%");
}

#[test]
fn genre_terms_are_trimmed_folded_and_never_empty() {
    assert_eq!(genre_terms("Fantasy"), strings(&["fantasy"]));
    assert_eq!(genre_terms("Fantasy, Sci-Fi ,HORROR"), strings(&["fantasy", "sci-fi", "horror"]));
    assert_eq!(genre_terms(""), strings(&[]));
    assert_eq!(genre_terms(",, ,"), strings(&[]));
    assert_eq!(genre_terms(" a ,,b,"), strings(&["a", "b"]));
    assert_eq!(genre_terms("fantasy,Fantasy"), strings(&["fantasy", "fantasy"]));
    assert_eq!(genre_terms("  Épée\t"), strings(&["épée"]));
    assert_eq!(genre_terms("a b"), strings(&["a b"]));
}

#[test]
fn no_condition_no_where() {
    let none: Vec<Condition> = vec![];
    assert_eq!(where_clause(&none), "");
    assert_eq!(bind_predicate(&none), vec![]);
    assert_eq!(
        count_rows(EntityKind::Book, &none),
        Statement { sql: "SELECT COUNT(*) FROM \"Book\" ".to_string(), binds: vec![] }
    );
    assert_eq!(
        fetch_page(EntityKind::Book, &none, Window { limit: 10, offset: 20 }),
        Statement {
            sql: format!("SELECT {} FROM \"Book\"  ORDER BY created_at DESC LIMIT $1 OFFSET $2", BOOK_COLUMNS),
            binds: vec![SqlValue::Integer(10), SqlValue::Integer(20)],
        }
    );
}

#[test]
fn conditions_are_joined_by_and_and_numbered_in_order() {
    let conditions = vec![
        Condition::TitleContains("dragon".to_string()),
        Condition::GenreAmong(strings(&["fantasy", "sci-fi"])),
    ];
    let clause = format!("WHERE title ILIKE $1 AND {}$2, $3))", GENRE_CLAUSE_HEAD);
    assert_eq!(where_clause(&conditions), clause);
    assert_eq!(bind_predicate(&conditions), vec![text("%dragon%"), text("fantasy"), text("sci-fi")]);
    let query = list_query(EntityKind::Book, &conditions, Window { limit: 10, offset: 10 });
    assert_eq!(query.count.sql, format!("SELECT COUNT(*) FROM \"Book\" {}", clause));
    assert_eq!(query.count.binds, vec![text("%dragon%"), text("fantasy"), text("sci-fi")]);
    assert_eq!(
        query.fetch.sql,
        format!("SELECT {} FROM \"Book\" {} ORDER BY created_at DESC LIMIT $4 OFFSET $5", BOOK_COLUMNS, clause)
    );
    assert_eq!(
        query.fetch.binds,
        vec![text("%dragon%"), text("fantasy"), text("sci-fi"), SqlValue::Integer(10), SqlValue::Integer(10)]
    );
    assert_eq!(query.count, count_rows(EntityKind::Book, &conditions));
}

#[test]
fn genre_condition_alone_starts_at_one() {
    let conditions = vec![Condition::GenreAmong(strings(&["fantasy"]))];
    assert_eq!(where_clause(&conditions), format!("WHERE {}$1))", GENRE_CLAUSE_HEAD));
    let swapped = vec![
        Condition::GenreAmong(strings(&["a", "b", "c"])),
        Condition::TitleContains("t".to_string()),
    ];
    assert_eq!(where_clause(&swapped), format!("WHERE {}$1, $2, $3)) AND title ILIKE $4", GENRE_CLAUSE_HEAD));
}

#[test]
fn count_and_fetch_share_the_leading_binds() {
    let conditions = vec![
        Condition::TitleContains("x".to_string()),
        Condition::GenreAmong(strings(&["a", "b"])),
        Condition::OfBook("b1".to_string()),
    ];
    let query = list_query(EntityKind::Chapter, &conditions, Window { limit: 5, offset: 0 });
    let n = query.count.binds.len();
    assert_eq!(n, 4);
    assert_eq!(query.fetch.binds[..n], query.count.binds[..]);
    assert_eq!(query.fetch.binds.len(), n + 2);
    assert!(query.fetch.sql.ends_with("ORDER BY chapter_num ASC LIMIT $5 OFFSET $6"));
    assert!(query.count.sql.contains("book_id = $4"));
    assert!(query.fetch.sql.contains("book_id = $4"));
}

#[test]
fn book_conditions_come_from_the_filters() {
    assert_eq!(BookService::conditions(&params(None, None)), vec![]);
    assert_eq!(
        BookService::conditions(&params(Some("dragon"), None)),
        vec![Condition::TitleContains("dragon".to_string())]
    );
    assert_eq!(
        BookService::conditions(&params(None, Some("Fantasy, Horror"))),
        vec![Condition::GenreAmong(strings(&["fantasy", "horror"]))]
    );
    assert_eq!(
        BookService::conditions(&params(Some(""), Some(" , "))),
        vec![Condition::TitleContains("".to_string())]
    );
    assert_eq!(
        ChapterService::conditions(&params(Some("one"), Some("Fantasy"))),
        vec![Condition::TitleContains("one".to_string())]
    );
    assert_eq!(ChapterService::conditions(&params(None, Some("Fantasy"))), vec![]);
}

#[test]
fn statements_by_identifier() {
    assert_eq!(
        select_by_id(EntityKind::Book, "b1"),
        Statement { sql: format!("SELECT {} FROM \"Book\" WHERE id = $1", BOOK_COLUMNS), binds: vec![text("b1")] }
    );
    assert_eq!(
        select_by_id(EntityKind::Chapter, "c1"),
        Statement { sql: format!("SELECT {} FROM \"Chapter\" WHERE id = $1", CHAPTER_COLUMNS), binds: vec![text("c1")] }
    );
    assert_eq!(
        select_by_id(EntityKind::User, "u1").sql,
        "SELECT id, username, email, bio, profile_pic, role FROM \"User\" WHERE id = $1"
    );
    assert_eq!(
        delete_by_id(EntityKind::Genre, "g1"),
        Statement { sql: "DELETE FROM \"Genre\" WHERE id = $1".to_string(), binds: vec![text("g1")] }
    );
    assert_eq!(
        select_all(EntityKind::Genre),
        Statement {
            sql: "SELECT id, title, description, created_at, updated_at FROM \"Genre\" ORDER BY created_at DESC".to_string(),
            binds: vec![],
        }
    );
    assert_eq!(EntityKind::Chapter.ordering(), "chapter_num ASC");
    assert_eq!(EntityKind::Book.table(), "\"Book\"");
}

#[test]
fn update_touches_named_columns_and_the_change_time() {
    let statement = update_by_id(
        EntityKind::Book,
        strings(&["title", "popular"]),
        vec![text("New"), SqlValue::Boolean(true)],
        1700000000000000,
        "b1",
    );
    assert_eq!(
        statement.sql,
        "UPDATE \"Book\" SET title = $1, popular = $2, updated_at = $3 WHERE id = $4 RETURNING *"
    );
    assert_eq!(
        statement.binds,
        vec![text("New"), SqlValue::Boolean(true), SqlValue::Timestamp(1700000000000000), text("b1")]
    );
    let bare = update_by_id(EntityKind::Genre, vec![], vec![], 5, "g1");
    assert_eq!(bare.sql, "UPDATE \"Genre\" SET updated_at = $1 WHERE id = $2 RETURNING *");
    assert_eq!(bare.binds, vec![SqlValue::Timestamp(5), text("g1")]);
}

#[test]
fn book_changes_name_only_supplied_fields() {
    let none = UpdateBookDto {
        title: None, author: None, cover: None, description: None, asset: None,
        status: None, language: None, release_date: None, popular: None,
    };
    assert!(none.is_empty());
    let empty = BookService::changes(&none);
    assert_eq!(empty, ChangeSet { columns: vec![], values: vec![] });

    let some = UpdateBookDto {
        title: Some("T".to_string()), author: None, cover: None, description: None,
        asset: Some("a.epub".to_string()), status: Some(Status::Completed), language: None,
        release_date: Some(1999), popular: Some(false),
    };
    assert!(!some.is_empty());
    let changes = BookService::changes(&some);
    assert_eq!(changes.columns, strings(&["title", "asset", "status", "release_date", "popular"]));
    assert_eq!(
        changes.values,
        vec![text("T"), text("a.epub"), SqlValue::Status(Status::Completed), SqlValue::Small(1999), SqlValue::Boolean(false)]
    );

    let all = UpdateBookDto {
        title: Some("T".to_string()), author: Some("A".to_string()), cover: Some("C".to_string()),
        description: Some("D".to_string()), asset: Some("S".to_string()), status: Some(Status::Drop),
        language: Some(Language::Japanese), release_date: Some(-5), popular: Some(true),
    };
    assert_eq!(
        BookService::changes(&all).columns,
        strings(&["title", "author", "cover", "description", "asset", "status", "language", "release_date", "popular"])
    );
}

#[test]
fn chapter_and_genre_changes() {
    let c = UpdateChapterDto { title: None, description: Some("d".to_string()), content: None, chapter_num: Some(7) };
    let changes = ChapterService::changes(&c);
    assert_eq!(changes.columns, strings(&["description", "chapter_num"]));
    assert_eq!(changes.values, vec![text("d"), SqlValue::Small(7)]);
    assert!(UpdateChapterDto { title: None, description: None, content: None, chapter_num: None }.is_empty());
    assert!(!c.is_empty());

    let g = UpdateGenreDto { title: Some("Fantasy".to_string()), description: None };
    let changes = GenreService::changes(&g);
    assert_eq!(changes.columns, strings(&["title"]));
    assert_eq!(changes.values, vec![text("Fantasy")]);
    assert!(UpdateGenreDto { title: None, description: None }.is_empty());
}

#[test]
fn insert_names_columns_and_returns_the_row() {
    let statement = insert_row(EntityKind::Genre, &strings(&["id", "title"]), vec![text("g1"), text("Fantasy")]);
    assert_eq!(
        statement.sql,
        "INSERT INTO \"Genre\" (id, title) VALUES ($1, $2) RETURNING id, title, description, created_at, updated_at"
    );
    assert_eq!(statement.binds, vec![text("g1"), text("Fantasy")]);
}

#[test]
fn new_book_row_and_its_insert() {
    let request = CreateBookDto {
        title: "T".to_string(), author: "A".to_string(), cover: "C".to_string(),
        description: "D".to_string(), asset: None, status: Status::default(),
        language: Language::default(), release_date: Some(2001), popular: true,
    };
    let book = Book::new("b1".to_string(), request, 42);
    assert_eq!(book.id, "b1");
    assert_eq!(book.status, Status::Ongoing);
    assert_eq!(book.language, Language::Korean);
    assert_eq!(book.created_at, 42);
    assert_eq!(book.updated_at, 42);
    let statement = BookService::insert(&book);
    assert_eq!(
        statement.sql,
        format!(
            "INSERT INTO \"Book\" ({}) VALUES ($1, $2, $3, $4, $5, $6, $7, $8, $9, $10, $11, $12) RETURNING {}",
            BOOK_COLUMNS, BOOK_COLUMNS
        )
    );
    assert_eq!(
        statement.binds,
        vec![
            text("b1"), text("T"), text("A"), text("C"), text("D"), SqlValue::Null,
            SqlValue::Status(Status::Ongoing), SqlValue::Language(Language::Korean),
            SqlValue::Small(2001), SqlValue::Boolean(true), SqlValue::Timestamp(42), SqlValue::Timestamp(42),
        ]
    );
}

#[test]
fn new_chapter_and_genre_rows() {
    let chapter = Chapter::new(
        "c1".to_string(),
        CreateChapterDto {
            title: "One".to_string(), book_id: "b1".to_string(), description: "d".to_string(),
            content: "text".to_string(), chapter_num: 1,
        },
        7,
    );
    assert_eq!(chapter.book_id, "b1");
    assert_eq!((chapter.created_at, chapter.updated_at), (7, 7));
    let statement = ChapterService::insert(&chapter);
    assert_eq!(
        statement.sql,
        format!(
            "INSERT INTO \"Chapter\" (id, title, book_id, description, content, chapter_num, created_at, updated_at) VALUES ($1, $2, $3, $4, $5, $6, $7, $8) RETURNING {}",
            CHAPTER_COLUMNS
        )
    );
    assert_eq!(
        statement.binds,
        vec![text("c1"), text("One"), text("b1"), text("d"), text("text"), SqlValue::Small(1), SqlValue::Timestamp(7), SqlValue::Timestamp(7)]
    );

    let genre = Genre::new(
        "g1".to_string(),
        CreateGenreDto { title: Some("Fantasy".to_string()), description: Some("d".to_string()) },
        9,
    );
    assert_eq!(
        genre,
        Some(Genre { id: "g1".to_string(), title: "Fantasy".to_string(), description: "d".to_string(), created_at: 9, updated_at: 9 })
    );
    assert_eq!(Genre::new("g".to_string(), CreateGenreDto { title: None, description: Some("d".to_string()) }, 9), None);
    assert_eq!(Genre::new("g".to_string(), CreateGenreDto { title: Some("t".to_string()), description: None }, 9), None);
    assert_eq!(
        GenreService::insert(&genre.unwrap()).binds,
        vec![text("g1"), text("Fantasy"), text("d"), SqlValue::Timestamp(9), SqlValue::Timestamp(9)]
    );
}
