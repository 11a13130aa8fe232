use novel_api::errors::AppError;
use novel_api::models::paging_model::{
    default_page, default_page_size, total_pages, PaginatedResponse, PaginationParams, Window,
    MAX_PAGE_SIZE,
};

fn params(page: i64, page_size: i64) -> PaginationParams {
    PaginationParams { page, page_size, search: None, genres: None }
}

#[test]
fn total_pages_rounds_up() {
    assert_eq!(total_pages(25, 10), 3);
    assert_eq!(total_pages(20, 10), 2);
    assert_eq!(total_pages(0, 10), 0);
    assert_eq!(total_pages(1, 10), 1);
    assert_eq!(total_pages(9, 10), 1);
    assert_eq!(total_pages(10, 10), 1);
    assert_eq!(total_pages(11, 10), 2);
}

#[test]
fn total_pages_at_the_integer_limits() {
    assert_eq!(total_pages(i64::MAX, 1), i64::MAX);
    assert_eq!(total_pages(i64::MAX, i64::MAX), 1);
    assert_eq!(total_pages(i64::MAX - 1, i64::MAX), 1);
    assert_eq!(total_pages(i64::MAX, 2), i64::MAX / 2 + 1);
}

#[test]
fn total_pages_is_the_least_cover() {
    for items in 0..200i64 {
        for size in 1..25i64 {
            let pages = total_pages(items, size);
            assert!(pages * size >= items);
            assert!(items == 0 || (pages - 1) * size < items);
        }
    }
}

#[test]
fn defaults_are_one_and_ten() {
    assert_eq!(default_page(), 1);
    assert_eq!(default_page_size(), 10);
    let p = PaginationParams::new(None, None, None, None);
    assert_eq!(p.page, 1);
    assert_eq!(p.page_size, 10);
    assert_eq!(p.search, None);
    assert_eq!(p.genres, None);
    let q = PaginationParams::new(Some(3), Some(25), Some("x".to_string()), Some("a,b".to_string()));
    assert_eq!(q.page, 3);
    assert_eq!(q.page_size, 25);
    assert_eq!(q.search, Some("x".to_string()));
    assert_eq!(q.genres, Some("a,b".to_string()));
}

#[test]
fn window_is_limit_and_offset() {
    assert_eq!(params(1, 10).window(), Ok(Window { limit: 10, offset: 0 }));
    assert_eq!(params(3, 10).window(), Ok(Window { limit: 10, offset: 20 }));
    assert_eq!(params(7, 1).window(), Ok(Window { limit: 1, offset: 6 }));
    assert_eq!(
        params(2, MAX_PAGE_SIZE).window(),
        Ok(Window { limit: MAX_PAGE_SIZE, offset: MAX_PAGE_SIZE })
    );
}

#[test]
fn window_refuses_what_cannot_be_served() {
    let refused = Err(AppError::BadRequest("Invalid pagination parameters".to_string()));
    assert_eq!(params(0, 10).window(), refused);
    assert_eq!(params(-1, 10).window(), refused);
    assert_eq!(params(1, 0).window(), refused);
    assert_eq!(params(1, -5).window(), refused);
    assert_eq!(params(1, MAX_PAGE_SIZE + 1).window(), refused);
    assert_eq!(params(i64::MAX, 100).window(), refused);
    assert_eq!(params(i64::MIN, 10).window(), refused);
}

#[test]
fn window_at_the_largest_page_that_fits() {
    let page = i64::MAX / 100 + 1;
    assert_eq!(params(page, 100).window(), Ok(Window { limit: 100, offset: (page - 1) * 100 }));
    assert!(params(page + 1, 100).window().is_err());
}

#[test]
fn page_envelope_counts_pages() {
    let page = PaginatedResponse::new(vec![1, 2, 3], 2, 10, 25);
    assert_eq!(page.data, vec![1, 2, 3]);
    assert_eq!(page.page, 2);
    assert_eq!(page.page_size, 10);
    assert_eq!(page.total_items, 25);
    assert_eq!(page.total_pages, 3);
    let empty: PaginatedResponse<i32> = PaginatedResponse::new(vec![], 1, 10, 0);
    assert_eq!(empty.total_pages, 0);
}
