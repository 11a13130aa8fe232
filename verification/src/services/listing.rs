//! The read path of listings.
//!
//! A [`Listing`] serves one page of a filtered list: the cache is asked
//! first; on a miss the store counts the rows under the predicate, then
//! fetches the page, and the page is cached under the key of the request.
//! A [`Catalogue`] does the same for a list that is served whole.

use vstd::prelude::*;
use crate::cache::keys::{EntityKind, CACHE_TTL};
use crate::errors::{outcome, AppError, AppErrorView};
use crate::models::paging_model::{
    pages_needed,
    window_allowed,
    PaginatedResponse,
    PaginationParams,
    Window,
};
use crate::query::{
    condition_views,
    count_rows,
    count_statement,
    fetch_page,
    fetch_statement,
    select_all,
    select_all_statement,
    Condition,
    ConditionView,
    Statement,
    StatementView,
};
use crate::services::repository::{fault_error, StoreFault, StoreFaultView};

verus! {

/// What a listing waits for.
#[derive(Clone, Copy, Debug, PartialEq, Eq, Structural)]
pub enum ListPhase {
    /// The cache's answer to a lookup.
    AwaitCache,
    /// The number of rows under the predicate.
    AwaitCount,
    /// The rows of the page.
    AwaitRows,
    /// Nothing: the listing is over.
    Finished,
}

/// One list request in progress.
#[derive(Debug, PartialEq, Eq)]
pub struct Listing {
    kind: EntityKind,
    key: String,
    conditions: Vec<Condition>,
    page: i64,
    window: Window,
    total: i64,
    phase: ListPhase,
}

/// A [`Listing`] as plain values.
pub struct ListingView {
    pub kind: EntityKind,
    pub key: Seq<char>,
    pub conditions: Seq<ConditionView>,
    pub page: i64,
    /// The rows to take, which is the page size, and the rows to skip.
    pub window: Window,
    /// The number of rows under the predicate, once the store has told it.
    pub total: i64,
    pub phase: ListPhase,
}

impl View for Listing {
    type V = ListingView;

    closed spec fn view(&self) -> ListingView {
        ListingView {
            kind: self.kind,
            key: self.key@,
            conditions: condition_views(self.conditions@),
            page: self.page,
            window: self.window,
            total: self.total,
            phase: self.phase,
        }
    }
}

/// What is to be done next for a listing.
#[derive(Debug, PartialEq, Eq)]
pub enum ListEffect<T> {
    /// Look `key` up in the cache.
    CacheGet { key: String },
    /// Count the rows with `statement`.
    Count { statement: Statement },
    /// Fetch the rows of the page with `statement`.
    Fetch { statement: Statement },
    /// Hand `result` to the caller; before that, where `fill` names a key
    /// and a lifetime in seconds, cache the result under it.
    Finish { result: Result<PaginatedResponse<T>, AppError>, fill: Option<(String, i64)> },
}

/// A [`ListEffect`] as plain values.
pub enum ListEffectView<T> {
    CacheGet { key: Seq<char> },
    Count { statement: StatementView },
    Fetch { statement: StatementView },
    Finish { result: Result<PaginatedResponse<T>, AppErrorView>, fill: Option<(Seq<char>, i64)> },
}

impl<T> View for ListEffect<T> {
    type V = ListEffectView<T>;

    open spec fn view(&self) -> ListEffectView<T> {
        match self {
            ListEffect::CacheGet { key } => ListEffectView::CacheGet { key: key@ },
            ListEffect::Count { statement } => ListEffectView::Count { statement: statement@ },
            ListEffect::Fetch { statement } => ListEffectView::Fetch { statement: statement@ },
            ListEffect::Finish { result, fill } => ListEffectView::Finish {
                result: outcome(*result),
                fill: match fill {
                    Some((key, ttl)) => Some((key@, *ttl)),
                    None => None,
                },
            },
        }
    }
}

/// What came of the last effect of a listing.
#[derive(Debug, PartialEq, Eq)]
pub enum ListReply<T> {
    /// The cache's answer: the page, or none. A cache that cannot be
    /// reached, or an entry that cannot be read, is none.
    Cached(Option<PaginatedResponse<T>>),
    /// The number of rows under the predicate.
    Total(i64),
    /// The rows of the page.
    Rows(Vec<T>),
    /// The store failed.
    Fault(StoreFault),
}

/// A [`ListReply`] as plain values.
pub enum ListReplyView<T> {
    Cached(Option<PaginatedResponse<T>>),
    Total(i64),
    Rows(Vec<T>),
    Fault(StoreFaultView),
}

impl<T> View for ListReply<T> {
    type V = ListReplyView<T>;

    open spec fn view(&self) -> ListReplyView<T> {
        match self {
            ListReply::Cached(page) => ListReplyView::Cached(*page),
            ListReply::Total(total) => ListReplyView::Total(*total),
            ListReply::Rows(rows) => ListReplyView::Rows(*rows),
            ListReply::Fault(fault) => ListReplyView::Fault(fault@),
        }
    }
}

/// The window for `page` at `page_size` rows a page: nothing is skipped
/// where the two cannot be served.
pub open spec fn window_for(page: i64, page_size: i64) -> Window {
    Window {
        limit: page_size,
        offset: if window_allowed(page as int, page_size as int) {
            ((page - 1) * page_size) as i64
        } else {
            0
        },
    }
}

/// The page that a listing hands out for `rows`.
pub open spec fn page_of<T>(listing: ListingView, rows: Vec<T>) -> PaginatedResponse<T> {
    PaginatedResponse {
        data: rows,
        page: listing.page,
        page_size: listing.window.limit,
        total_items: listing.total,
        total_pages: pages_needed(listing.total as int, listing.window.limit as int) as i64,
    }
}

/// A listing in another phase.
pub open spec fn at_phase(listing: ListingView, phase: ListPhase, total: i64) -> ListingView {
    ListingView {
        kind: listing.kind,
        key: listing.key,
        conditions: listing.conditions,
        page: listing.page,
        window: listing.window,
        total,
        phase,
    }
}

/// A listing that is over, with its last effect.
pub open spec fn list_finished<T>(
    listing: ListingView,
    result: Result<PaginatedResponse<T>, AppErrorView>,
    fill: Option<(Seq<char>, i64)>,
) -> (ListingView, ListEffectView<T>) {
    (
        at_phase(listing, ListPhase::Finished, listing.total),
        ListEffectView::Finish { result, fill },
    )
}

/// How a listing begins: a request whose window cannot be served is refused
/// at once; any other begins with a look into the cache.
pub open spec fn list_begin<T>(
    kind: EntityKind,
    key: Seq<char>,
    conditions: Seq<ConditionView>,
    page: i64,
    page_size: i64,
) -> (ListingView, ListEffectView<T>) {
    let listing = ListingView {
        kind,
        key,
        conditions,
        page,
        window: window_for(page, page_size),
        total: 0,
        phase: ListPhase::AwaitCache,
    };
    if window_allowed(page as int, page_size as int) {
        (listing, ListEffectView::CacheGet { key })
    } else {
        list_finished(
            listing,
            Err(AppErrorView::BadRequest("Invalid pagination parameters"@)),
            None,
        )
    }
}

/// The listing's answer to a reply.
///
/// A cached page is served as it is. On a miss the rows are counted, then
/// fetched, with statements over the same conditions. A count below zero,
/// or a reply that the listing was not waiting for, ends it with an
/// internal error.
pub open spec fn list_advance<T>(listing: ListingView, reply: ListReplyView<T>) -> (
    ListingView,
    ListEffectView<T>,
) {
    let confused = list_finished(listing, Err(AppErrorView::InternalServer), None);
    match listing.phase {
        ListPhase::AwaitCache => match reply {
            ListReplyView::Cached(Some(page)) => list_finished(listing, Ok(page), None),
            ListReplyView::Cached(None) => (
                at_phase(listing, ListPhase::AwaitCount, listing.total),
                ListEffectView::Count {
                    statement: count_statement(listing.kind, listing.conditions),
                },
            ),
            _ => confused,
        },
        ListPhase::AwaitCount => match reply {
            ListReplyView::Total(total) => if total >= 0 {
                (
                    at_phase(listing, ListPhase::AwaitRows, total),
                    ListEffectView::Fetch {
                        statement: fetch_statement(
                            listing.kind,
                            listing.conditions,
                            listing.window,
                        ),
                    },
                )
            } else {
                confused
            },
            ListReplyView::Fault(fault) => list_finished(listing, Err(fault_error(fault)), None),
            _ => confused,
        },
        ListPhase::AwaitRows => match reply {
            ListReplyView::Rows(rows) => if listing.total >= 0 && listing.window.limit > 0 {
                list_finished(
                    listing,
                    Ok(page_of(listing, rows)),
                    Some((listing.key, CACHE_TTL)),
                )
            } else {
                confused
            },
            ListReplyView::Fault(fault) => list_finished(listing, Err(fault_error(fault)), None),
            _ => confused,
        },
        ListPhase::Finished => confused,
    }
}

impl Listing {
    /// Begins the listing of the entities of `kind` under `conditions`, for
    /// the page that `params` names, to be cached under `key`.
    pub fn start<T>(
        kind: EntityKind,
        key: String,
        conditions: Vec<Condition>,
        params: &PaginationParams,
    ) -> (begun: (Listing, ListEffect<T>))
        ensures
            (begun.0@, begun.1@) == list_begin::<T>(
                kind,
                key@,
                condition_views(conditions@),
                params.page,
                params.page_size,
            ),
    {
        match params.window() {
            Ok(window) => {
                let lookup = key.clone();
                (
                    Listing {
                        kind,
                        key,
                        conditions,
                        page: params.page,
                        window,
                        total: 0,
                        phase: ListPhase::AwaitCache,
                    },
                    ListEffect::CacheGet { key: lookup },
                )
            },
            Err(why) => {
                let listing = Listing {
                    kind,
                    key,
                    conditions,
                    page: params.page,
                    window: Window { limit: params.page_size, offset: 0 },
                    total: 0,
                    phase: ListPhase::AwaitCache,
                };
                listing.finish(Err(why), None)
            },
        }
    }

    /// Whether the listing is over.
    pub fn is_finished(&self) -> (over: bool)
        ensures
            over == (self@.phase == ListPhase::Finished),
    {
        self.phase == ListPhase::Finished
    }

    /// Ends the listing with `result`.
    fn finish<T>(self, result: Result<PaginatedResponse<T>, AppError>, fill: Option<(String, i64)>)
        -> (end: (Listing, ListEffect<T>))
        ensures
            (end.0@, end.1@) == list_finished(
                self@,
                outcome(result),
                match fill {
                    Some((key, ttl)) => Some((key@, ttl)),
                    None => None,
                },
            ),
    {
        (
            Listing {
                kind: self.kind,
                key: self.key,
                conditions: self.conditions,
                page: self.page,
                window: self.window,
                total: self.total,
                phase: ListPhase::Finished,
            },
            ListEffect::Finish { result, fill },
        )
    }

    /// Moves to `phase`.
    fn at(self, phase: ListPhase, total: i64) -> (moved: Listing)
        ensures
            moved@ == at_phase(self@, phase, total),
    {
        Listing {
            kind: self.kind,
            key: self.key,
            conditions: self.conditions,
            page: self.page,
            window: self.window,
            total,
            phase,
        }
    }

    /// Takes in what came of the last effect and says what to do next.
    pub fn step<T>(self, reply: ListReply<T>) -> (next: (Listing, ListEffect<T>))
        ensures
            (next.0@, next.1@) == list_advance(self@, reply@),
    {
        match self.phase {
            ListPhase::AwaitCache => match reply {
                ListReply::Cached(Some(page)) => self.finish(Ok(page), None),
                ListReply::Cached(None) => {
                    let statement = count_rows(self.kind, &self.conditions);
                    let total = self.total;
                    (self.at(ListPhase::AwaitCount, total), ListEffect::Count { statement })
                },
                _ => self.finish(Err(AppError::InternalServer), None),
            },
            ListPhase::AwaitCount => match reply {
                ListReply::Total(total) => {
                    if total >= 0 {
                        let statement = fetch_page(self.kind, &self.conditions, self.window);
                        (self.at(ListPhase::AwaitRows, total), ListEffect::Fetch { statement })
                    } else {
                        self.finish(Err(AppError::InternalServer), None)
                    }
                },
                ListReply::Fault(fault) => self.finish(Err(fault.into_error()), None),
                _ => self.finish(Err(AppError::InternalServer), None),
            },
            ListPhase::AwaitRows => match reply {
                ListReply::Rows(rows) => {
                    if self.total >= 0 && self.window.limit > 0 {
                        let page = PaginatedResponse::new(
                            rows,
                            self.page,
                            self.window.limit,
                            self.total,
                        );
                        let fill = Some((self.key.clone(), CACHE_TTL));
                        self.finish(Ok(page), fill)
                    } else {
                        self.finish(Err(AppError::InternalServer), None)
                    }
                },
                ListReply::Fault(fault) => self.finish(Err(fault.into_error()), None),
                _ => self.finish(Err(AppError::InternalServer), None),
            },
            ListPhase::Finished => self.finish(Err(AppError::InternalServer), None),
        }
    }
}

/// What a catalogue waits for.
#[derive(Clone, Copy, Debug, PartialEq, Eq, Structural)]
pub enum CataloguePhase {
    /// The cache's answer to a lookup.
    AwaitCache,
    /// The rows.
    AwaitRows,
    /// Nothing: the catalogue is over.
    Finished,
}

/// One request for a whole list in progress.
#[derive(Debug, PartialEq, Eq)]
pub struct Catalogue {
    kind: EntityKind,
    key: String,
    phase: CataloguePhase,
}

/// A [`Catalogue`] as plain values.
pub struct CatalogueView {
    pub kind: EntityKind,
    pub key: Seq<char>,
    pub phase: CataloguePhase,
}

impl View for Catalogue {
    type V = CatalogueView;

    closed spec fn view(&self) -> CatalogueView {
        CatalogueView { kind: self.kind, key: self.key@, phase: self.phase }
    }
}

/// What is to be done next for a catalogue.
#[derive(Debug, PartialEq, Eq)]
pub enum CatalogueEffect<T> {
    /// Look `key` up in the cache.
    CacheGet { key: String },
    /// Fetch all rows with `statement`.
    Fetch { statement: Statement },
    /// Hand `result` to the caller; before that, where `fill` names a key
    /// and a lifetime in seconds, cache the result under it.
    Finish { result: Result<Vec<T>, AppError>, fill: Option<(String, i64)> },
}

/// A [`CatalogueEffect`] as plain values.
pub enum CatalogueEffectView<T> {
    CacheGet { key: Seq<char> },
    Fetch { statement: StatementView },
    Finish { result: Result<Vec<T>, AppErrorView>, fill: Option<(Seq<char>, i64)> },
}

impl<T> View for CatalogueEffect<T> {
    type V = CatalogueEffectView<T>;

    open spec fn view(&self) -> CatalogueEffectView<T> {
        match self {
            CatalogueEffect::CacheGet { key } => CatalogueEffectView::CacheGet { key: key@ },
            CatalogueEffect::Fetch { statement } => CatalogueEffectView::Fetch {
                statement: statement@,
            },
            CatalogueEffect::Finish { result, fill } => CatalogueEffectView::Finish {
                result: outcome(*result),
                fill: match fill {
                    Some((key, ttl)) => Some((key@, *ttl)),
                    None => None,
                },
            },
        }
    }
}

/// What came of the last effect of a catalogue.
#[derive(Debug, PartialEq, Eq)]
pub enum CatalogueReply<T> {
    /// The cache's answer: the list, or none.
    Cached(Option<Vec<T>>),
    /// All rows.
    Rows(Vec<T>),
    /// The store failed.
    Fault(StoreFault),
}

/// A [`CatalogueReply`] as plain values.
pub enum CatalogueReplyView<T> {
    Cached(Option<Vec<T>>),
    Rows(Vec<T>),
    Fault(StoreFaultView),
}

impl<T> View for CatalogueReply<T> {
    type V = CatalogueReplyView<T>;

    open spec fn view(&self) -> CatalogueReplyView<T> {
        match self {
            CatalogueReply::Cached(list) => CatalogueReplyView::Cached(*list),
            CatalogueReply::Rows(rows) => CatalogueReplyView::Rows(*rows),
            CatalogueReply::Fault(fault) => CatalogueReplyView::Fault(fault@),
        }
    }
}

/// A catalogue that is over, with its last effect.
pub open spec fn catalogue_finished<T>(
    catalogue: CatalogueView,
    result: Result<Vec<T>, AppErrorView>,
    fill: Option<(Seq<char>, i64)>,
) -> (CatalogueView, CatalogueEffectView<T>) {
    (
        CatalogueView {
            kind: catalogue.kind,
            key: catalogue.key,
            phase: CataloguePhase::Finished,
        },
        CatalogueEffectView::Finish { result, fill },
    )
}

/// The catalogue's answer to a reply: a cached list is served as it is; on
/// a miss all rows are fetched, served, and cached.
pub open spec fn catalogue_advance<T>(catalogue: CatalogueView, reply: CatalogueReplyView<T>) -> (
    CatalogueView,
    CatalogueEffectView<T>,
) {
    let confused = catalogue_finished(catalogue, Err(AppErrorView::InternalServer), None);
    match catalogue.phase {
        CataloguePhase::AwaitCache => match reply {
            CatalogueReplyView::Cached(Some(list)) => catalogue_finished(
                catalogue,
                Ok(list),
                None,
            ),
            CatalogueReplyView::Cached(None) => (
                CatalogueView {
                    kind: catalogue.kind,
                    key: catalogue.key,
                    phase: CataloguePhase::AwaitRows,
                },
                CatalogueEffectView::Fetch { statement: select_all_statement(catalogue.kind) },
            ),
            _ => confused,
        },
        CataloguePhase::AwaitRows => match reply {
            CatalogueReplyView::Rows(rows) => catalogue_finished(
                catalogue,
                Ok(rows),
                Some((catalogue.key, CACHE_TTL)),
            ),
            CatalogueReplyView::Fault(fault) => catalogue_finished(
                catalogue,
                Err(fault_error(fault)),
                None,
            ),
            _ => confused,
        },
        CataloguePhase::Finished => confused,
    }
}

impl Catalogue {
    /// Begins the listing of all entities of `kind`, to be cached under
    /// `key`: with a look into the cache.
    pub fn start<T>(kind: EntityKind, key: String) -> (begun: (Catalogue, CatalogueEffect<T>))
        ensures
            begun.0@ == (CatalogueView { kind, key: key@, phase: CataloguePhase::AwaitCache }),
            begun.1@ == (CatalogueEffectView::<T>::CacheGet { key: key@ }),
    {
        let lookup = key.clone();
        (
            Catalogue { kind, key, phase: CataloguePhase::AwaitCache },
            CatalogueEffect::CacheGet { key: lookup },
        )
    }

    /// Whether the catalogue is over.
    pub fn is_finished(&self) -> (over: bool)
        ensures
            over == (self@.phase == CataloguePhase::Finished),
    {
        self.phase == CataloguePhase::Finished
    }

    /// Ends the catalogue with `result`.
    fn finish<T>(self, result: Result<Vec<T>, AppError>, fill: Option<(String, i64)>) -> (end: (
        Catalogue,
        CatalogueEffect<T>,
    ))
        ensures
            (end.0@, end.1@) == catalogue_finished(
                self@,
                outcome(result),
                match fill {
                    Some((key, ttl)) => Some((key@, ttl)),
                    None => None,
                },
            ),
    {
        (
            Catalogue { kind: self.kind, key: self.key, phase: CataloguePhase::Finished },
            CatalogueEffect::Finish { result, fill },
        )
    }

    /// Takes in what came of the last effect and says what to do next.
    pub fn step<T>(self, reply: CatalogueReply<T>) -> (next: (Catalogue, CatalogueEffect<T>))
        ensures
            (next.0@, next.1@) == catalogue_advance(self@, reply@),
    {
        match self.phase {
            CataloguePhase::AwaitCache => match reply {
                CatalogueReply::Cached(Some(list)) => self.finish(Ok(list), None),
                CatalogueReply::Cached(None) => {
                    let statement = select_all(self.kind);
                    (
                        Catalogue {
                            kind: self.kind,
                            key: self.key,
                            phase: CataloguePhase::AwaitRows,
                        },
                        CatalogueEffect::Fetch { statement },
                    )
                },
                _ => self.finish(Err(AppError::InternalServer), None),
            },
            CataloguePhase::AwaitRows => match reply {
                CatalogueReply::Rows(rows) => {
                    let fill = Some((self.key.clone(), CACHE_TTL));
                    self.finish(Ok(rows), fill)
                },
                CatalogueReply::Fault(fault) => self.finish(Err(fault.into_error()), None),
                _ => self.finish(Err(AppError::InternalServer), None),
            },
            CataloguePhase::Finished => self.finish(Err(AppError::InternalServer), None),
        }
    }
}

/// The page that a listing hands out says how many pages there are: the
/// number of rows over the page size, rounded up.
pub proof fn listing_reports_the_ceiling<T>(listing: ListingView, rows: Vec<T>)
    requires
        listing.phase == ListPhase::AwaitRows,
        listing.total >= 0,
        listing.window.limit > 0,
    ensures
        list_advance(listing, ListReplyView::Rows(rows)).1 matches ListEffectView::Finish {
            result: Ok(page),
            ..
        } && page.data == rows && page.total_items == listing.total && page.total_pages
            == pages_needed(listing.total as int, listing.window.limit as int),
{
    let size = listing.window.limit as int;
    crate::models::paging_model::pages_needed_is_ceiling(listing.total as int, size);
    let n = pages_needed(listing.total as int, size);
    if listing.total > 0 {
        assert(n - 1 <= (n - 1) * size) by (nonlinear_arith)
            requires
                n - 1 >= 0,
                size >= 1,
        ;
    }
}

} // verus!
