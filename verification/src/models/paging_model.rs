//! Pagination parameters, the page envelope, and the arithmetic between them.

use vstd::prelude::*;
use vstd::string::StringExecFns;
use crate::errors::{AppError, AppErrorView};

verus! {

/// The largest page that a caller may ask for.
pub const MAX_PAGE_SIZE: i64 = 100;

/// Page number used when a request names none.
pub fn default_page() -> (page: i64)
    ensures
        page == 1,
{
    1
}

/// Page size used when a request names none.
pub fn default_page_size() -> (size: i64)
    ensures
        size == 10,
{
    10
}

/// What a list request asks for: which page, how large, and the optional
/// filters.
#[derive(Clone, Debug, PartialEq, Eq)]
pub struct PaginationParams {
    pub page: i64,
    pub page_size: i64,
    pub search: Option<String>,
    pub genres: Option<String>,
}

/// One page of a listing, with the size of the whole listing.
#[derive(Clone, Debug, PartialEq, Eq)]
pub struct PaginatedResponse<T> {
    pub data: Vec<T>,
    pub page: i64,
    pub page_size: i64,
    pub total_items: i64,
    pub total_pages: i64,
}

/// The rows to skip and the rows to take for one page.
#[derive(Clone, Copy, Debug, PartialEq, Eq, Structural)]
pub struct Window {
    pub limit: i64,
    pub offset: i64,
}

/// The number of pages of `size` rows that hold `items` rows: the quotient,
/// rounded up.
pub open spec fn pages_needed(items: int, size: int) -> int
    recommends
        items >= 0,
        size > 0,
{
    (items + size - 1) / size
}

/// Whether a request's page and page size can be served.
pub open spec fn window_allowed(page: int, page_size: int) -> bool {
    &&& page >= 1
    &&& 1 <= page_size <= MAX_PAGE_SIZE
    &&& (page - 1) * page_size <= i64::MAX
}

/// `pages_needed` is the ceiling of the quotient: that many pages hold all
/// rows, one page fewer does not, and no rows need no page.
pub proof fn pages_needed_is_ceiling(items: int, size: int)
    requires
        items >= 0,
        size > 0,
    ensures
        pages_needed(items, size) >= 0,
        pages_needed(items, size) * size >= items,
        (pages_needed(items, size) - 1) * size < items || items == 0,
        items == 0 <==> pages_needed(items, size) == 0,
        items % size == 0 ==> pages_needed(items, size) * size == items,
        pages_needed(items, size) == items / size + (if items % size == 0 {
            0int
        } else {
            1int
        }),
        pages_needed(items, size) <= items,
{
    let q = items / size;
    let r = items % size;
    assert(items == q * size + r) by {
        vstd::arithmetic::div_mod::lemma_fundamental_div_mod(items, size);
        assert(size * q == q * size) by (nonlinear_arith);
    }
    assert(0 <= r < size) by {
        vstd::arithmetic::div_mod::lemma_mod_bound(items, size);
    }
    assert(q >= 0) by {
        vstd::arithmetic::div_mod::lemma_div_pos_is_pos(items, size);
    }
    if r == 0 {
        assert(pages_needed(items, size) == q) by {
            vstd::arithmetic::div_mod::lemma_fundamental_div_mod_converse(
                items + size - 1,
                size,
                q,
                size - 1,
            );
        }
        if q == 0 {
            assert(items == 0) by (nonlinear_arith)
                requires
                    items == q * size + r,
                    q == 0,
                    r == 0,
            ;
        } else {
            assert((q - 1) * size < q * size) by (nonlinear_arith)
                requires
                    size > 0,
            ;
            assert(q * size > 0) by (nonlinear_arith)
                requires
                    size > 0,
                    q > 0,
            ;
        }
    } else {
        assert(pages_needed(items, size) == q + 1) by {
            assert(items + size - 1 == (q + 1) * size + (r - 1)) by (nonlinear_arith)
                requires
                    items == q * size + r,
            ;
            vstd::arithmetic::div_mod::lemma_fundamental_div_mod_converse(
                items + size - 1,
                size,
                q + 1,
                r - 1,
            );
        }
        assert((q + 1) * size == q * size + size) by (nonlinear_arith);
        assert((q + 1 - 1) * size == q * size);
    }
    assert(q + (if r == 0 { 0int } else { 1int }) <= items) by (nonlinear_arith)
        requires
            items == q * size + r,
            r >= 0,
            q >= 0,
            size >= 1,
    ;
}

/// The number of pages for `total_items` rows at `page_size` rows a page.
pub fn total_pages(total_items: i64, page_size: i64) -> (pages: i64)
    requires
        total_items >= 0,
        page_size > 0,
    ensures
        pages == pages_needed(total_items as int, page_size as int),
        pages >= 0,
        pages * page_size >= total_items,
        (pages - 1) * page_size < total_items || total_items == 0,
        total_items == 0 <==> pages == 0,
{
    proof {
        pages_needed_is_ceiling(total_items as int, page_size as int);
    }
    let whole = total_items / page_size;
    if total_items % page_size == 0 {
        whole
    } else {
        whole + 1
    }
}

impl PaginationParams {
    /// The parameters of a request, with the defaults for what it leaves out.
    pub fn new(
        page: Option<i64>,
        page_size: Option<i64>,
        search: Option<String>,
        genres: Option<String>,
    ) -> (params: PaginationParams)
        ensures
            params.page == (if page is Some { page->0 } else { 1 }),
            params.page_size == (if page_size is Some { page_size->0 } else { 10 }),
            params.search == search,
            params.genres == genres,
    {
        PaginationParams {
            page: match page {
                Some(p) => p,
                None => default_page(),
            },
            page_size: match page_size {
                Some(s) => s,
                None => default_page_size(),
            },
            search,
            genres,
        }
    }

    /// The window of rows for this request. A page below one, a page size
    /// outside `1..=MAX_PAGE_SIZE`, or an offset beyond the integer range is
    /// refused as a bad request.
    pub fn window(&self) -> (r: Result<Window, AppError>)
        ensures
            window_allowed(self.page as int, self.page_size as int) ==> r == Ok::<Window, AppError>(
                Window { limit: self.page_size, offset: ((self.page - 1) * self.page_size) as i64 },
            ),
            !window_allowed(self.page as int, self.page_size as int) ==> r is Err && r->Err_0@
                == AppErrorView::BadRequest("Invalid pagination parameters"@),
    {
        if self.page < 1 || self.page_size < 1 || self.page_size > MAX_PAGE_SIZE {
            return Err(AppError::BadRequest(String::from_str("Invalid pagination parameters")));
        }
        match (self.page - 1).checked_mul(self.page_size) {
            Some(offset) => Ok(Window { limit: self.page_size, offset }),
            None => {
                assert((self.page - 1) * self.page_size >= 0) by (nonlinear_arith)
                    requires
                        self.page >= 1,
                        self.page_size >= 1,
                ;
                Err(AppError::BadRequest(String::from_str("Invalid pagination parameters")))
            },
        }
    }
}

impl<T> PaginatedResponse<T> {
    /// The envelope for one page of rows out of `total_items`.
    pub fn new(data: Vec<T>, page: i64, page_size: i64, total_items: i64) -> (response:
        PaginatedResponse<T>)
        requires
            total_items >= 0,
            page_size > 0,
        ensures
            response.data == data,
            response.page == page,
            response.page_size == page_size,
            response.total_items == total_items,
            response.total_pages == pages_needed(total_items as int, page_size as int),
    {
        PaginatedResponse {
            data,
            page,
            page_size,
            total_items,
            total_pages: total_pages(total_items, page_size),
        }
    }
}

} // verus!
