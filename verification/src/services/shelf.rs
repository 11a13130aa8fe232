//! A model of a store that answers list requests faithfully, and the laws
//! that hold of listings run against it.
//!
//! The store holds entries in the order in which their kind is listed. Of
//! each entry the model knows what the conditions of a list request look
//! at: its title, the titles of the genres joined to it, and the book it
//! belongs to. A count is answered with the number of entries that all
//! conditions admit, a fetch with the window of their rows.

use vstd::prelude::*;
use crate::cache::keys::EntityKind;
use crate::cache::policy::{genre_write_clears_book_listings, targets_for, Mutation};
use crate::errors::AppErrorView;
use crate::models::paging_model::{
    pages_needed,
    pages_needed_is_ceiling,
    window_allowed,
    PaginatedResponse,
    PaginationParams,
    Window,
};
use crate::query::{genre_term, genre_terms_text, terms_of, ConditionView};
use crate::services::book_service::book_conditions;
use crate::services::listing::{
    list_advance,
    list_begin,
    page_of,
    window_for,
    ListEffectView,
    ListPhase,
    ListReplyView,
    ListingView,
};
use crate::services::world::cleared;
use crate::text::{free_of, lowercased, split_on};

verus! {

/// An entry of the store, with what list conditions look at.
pub struct Shelved<T> {
    pub row: T,
    pub title: Seq<char>,
    /// The titles of the genres joined to the entry.
    pub genres: Seq<Seq<char>>,
    /// The book that the entry belongs to, for a chapter.
    pub book: Seq<char>,
}

/// Whether `needle` occurs in `hay`.
pub open spec fn occurs_in(needle: Seq<char>, hay: Seq<char>) -> bool {
    exists|i: int|
        0 <= i && i + needle.len() <= hay.len() && #[trigger] hay.subrange(
            i,
            i + needle.len(),
        ) == needle
}

/// Whether a genre with a title that folds into one of `terms` is joined to
/// the entry.
pub open spec fn joined_to_one_of<T>(terms: Seq<Seq<char>>, entry: Shelved<T>) -> bool {
    exists|i: int|
        0 <= i < entry.genres.len() && terms.contains(lowercased(#[trigger] entry.genres[i]))
}

/// What a condition means: the search text occurs in the title, case
/// folded on both sides; a genre among the named ones is joined; the entry
/// belongs to the book.
pub open spec fn admits<T>(condition: ConditionView, entry: Shelved<T>) -> bool {
    match condition {
        ConditionView::TitleContains(needle) => occurs_in(
            lowercased(needle),
            lowercased(entry.title),
        ),
        ConditionView::GenreAmong(terms) => joined_to_one_of(terms, entry),
        ConditionView::OfBook(id) => entry.book == id,
    }
}

/// Whether all conditions admit the entry.
pub open spec fn admits_all<T>(conditions: Seq<ConditionView>, entry: Shelved<T>) -> bool {
    forall|i: int| 0 <= i < conditions.len() ==> admits(#[trigger] conditions[i], entry)
}

/// The entries that all conditions admit, in order.
pub open spec fn admitted<T>(entries: Seq<Shelved<T>>, conditions: Seq<ConditionView>) -> Seq<
    Shelved<T>,
> {
    entries.filter(|entry: Shelved<T>| admits_all(conditions, entry))
}

/// The rows of some entries.
pub open spec fn rows_of<T>(entries: Seq<Shelved<T>>) -> Seq<T> {
    Seq::new(entries.len(), |i: int| entries[i].row)
}

/// Where a window begins in a list of `len` rows.
pub open spec fn window_start(window: Window, len: nat) -> int {
    if window.offset < 0 {
        0
    } else if window.offset > len {
        len as int
    } else {
        window.offset as int
    }
}

/// Where a window ends in a list of `len` rows.
pub open spec fn window_end(window: Window, len: nat) -> int {
    let start = window_start(window, len);
    if window.limit < 0 {
        start
    } else if start + window.limit > len {
        len as int
    } else {
        start + window.limit
    }
}

/// The rows that a window takes of a list: `limit` rows after the first
/// `offset`, or as many as there are.
pub open spec fn window_of<T>(rows: Seq<T>, window: Window) -> Seq<T> {
    rows.subrange(window_start(window, rows.len()), window_end(window, rows.len()))
}

/// The entries of one kind and the cached pages of them.
pub struct Catalog<T> {
    pub entries: Seq<Shelved<T>>,
    pub pages: Map<Seq<char>, PaginatedResponse<T>>,
}

/// Whether `fetched` is what a faithful store hands out for a listing: the
/// window of the rows that the listing's conditions admit.
pub open spec fn faithful<T>(catalog: Catalog<T>, listing: ListingView, fetched: Vec<T>) -> bool {
    fetched@ == window_of(rows_of(admitted(catalog.entries, listing.conditions)), listing.window)
}

/// What the catalog answers to an effect of a listing. `fetched` are the
/// rows that the store hands out.
pub open spec fn answer<T>(
    catalog: Catalog<T>,
    listing: ListingView,
    effect: ListEffectView<T>,
    fetched: Vec<T>,
) -> ListReplyView<T> {
    match effect {
        ListEffectView::CacheGet { key } => ListReplyView::Cached(
            if catalog.pages.contains_key(key) {
                Some(catalog.pages[key])
            } else {
                None
            },
        ),
        ListEffectView::Count { statement } => ListReplyView::Total(
            admitted(catalog.entries, listing.conditions).len() as i64,
        ),
        ListEffectView::Fetch { statement } => ListReplyView::Rows(fetched),
        ListEffectView::Finish { result, fill } => ListReplyView::Cached(None),
    }
}

/// The catalog after the last effect of a listing: the page is cached where
/// the listing says so.
pub open spec fn shelved<T>(
    catalog: Catalog<T>,
    result: Result<PaginatedResponse<T>, AppErrorView>,
    fill: Option<(Seq<char>, i64)>,
) -> Catalog<T> {
    match (result, fill) {
        (Ok(page), Some((key, ttl))) => Catalog {
            entries: catalog.entries,
            pages: catalog.pages.insert(key, page),
        },
        _ => catalog,
    }
}

/// A listing run to its end, for at most `steps` effects: the catalog it
/// leaves and the result it hands to the caller.
pub open spec fn list_run<T>(
    catalog: Catalog<T>,
    listing: ListingView,
    effect: ListEffectView<T>,
    fetched: Vec<T>,
    steps: nat,
) -> (Catalog<T>, Result<PaginatedResponse<T>, AppErrorView>)
    decreases steps,
{
    match effect {
        ListEffectView::Finish { result, fill } => (shelved(catalog, result, fill), result),
        _ => if steps == 0 {
            (catalog, Err(AppErrorView::InternalServer))
        } else {
            let (next, then) = list_advance(listing, answer(catalog, listing, effect, fetched));
            list_run(catalog, next, then, fetched, (steps - 1) as nat)
        },
    }
}

/// Listing one page of the entries under `conditions`.
pub open spec fn listed<T>(
    catalog: Catalog<T>,
    kind: EntityKind,
    key: Seq<char>,
    conditions: Seq<ConditionView>,
    page: i64,
    page_size: i64,
    fetched: Vec<T>,
) -> (Catalog<T>, Result<PaginatedResponse<T>, AppErrorView>) {
    let begun = list_begin::<T>(kind, key, conditions, page, page_size);
    list_run(catalog, begun.0, begun.1, fetched, 4)
}

/// A request that can be served and is not cached is answered from the
/// store: the page holds the rows that the store hands out, reports the
/// number of entries that the conditions admit, and counts the pages as
/// that number over the page size, rounded up. The page is cached under the
/// key of the request.
pub proof fn listing_counts_rows_and_pages<T>(
    catalog: Catalog<T>,
    kind: EntityKind,
    key: Seq<char>,
    conditions: Seq<ConditionView>,
    page: i64,
    page_size: i64,
    fetched: Vec<T>,
)
    requires
        window_allowed(page as int, page_size as int),
        !catalog.pages.contains_key(key),
        admitted(catalog.entries, conditions).len() <= i64::MAX,
    ensures
        ({
            let n = admitted(catalog.entries, conditions).len() as int;
            let after = listed(catalog, kind, key, conditions, page, page_size, fetched);
            &&& after.1 matches Ok(found) && found.data == fetched && found.page == page
                && found.page_size == page_size && found.total_items == n && found.total_pages
                == pages_needed(n, page_size as int) && (found.total_pages == 0 <==> n == 0) && (n
                > 0 ==> (found.total_pages - 1) * page_size < n <= found.total_pages * page_size)
                && after.0.pages == catalog.pages.insert(key, found)
            &&& after.0.entries == catalog.entries
        }),
{
    reveal_with_fuel(list_run, 5);
    let n = admitted(catalog.entries, conditions).len() as int;
    pages_needed_is_ceiling(n, page_size as int);
    let begun = list_begin::<T>(kind, key, conditions, page, page_size);
    assert(begun.0.window == window_for(page, page_size));
    let first = list_advance(begun.0, answer(catalog, begun.0, begun.1, fetched));
    assert(first.0.phase == ListPhase::AwaitCount);
    let second = list_advance(first.0, answer(catalog, first.0, first.1, fetched));
    assert(second.0.phase == ListPhase::AwaitRows);
    assert(second.0.total == n);
    let third = list_advance(second.0, answer(catalog, second.0, second.1, fetched));
    assert(third.1 == ListEffectView::Finish {
        result: Ok(page_of(second.0, fetched)),
        fill: Some((key, crate::cache::keys::CACHE_TTL)),
    });
}

/// A page that is cached under the key of a request is served as it is, and
/// the store is not asked.
pub proof fn cached_page_is_served<T>(
    catalog: Catalog<T>,
    kind: EntityKind,
    key: Seq<char>,
    conditions: Seq<ConditionView>,
    page: i64,
    page_size: i64,
    fetched: Vec<T>,
)
    requires
        window_allowed(page as int, page_size as int),
        catalog.pages.contains_key(key),
    ensures
        listed(catalog, kind, key, conditions, page, page_size, fetched) == (
            catalog,
            Ok::<PaginatedResponse<T>, AppErrorView>(catalog.pages[key]),
        ),
{
    reveal_with_fuel(list_run, 3);
}

/// A request for a page below one, or of a size outside the allowed range,
/// is refused, and nothing is read or cached.
pub proof fn unservable_request_is_refused<T>(
    catalog: Catalog<T>,
    kind: EntityKind,
    key: Seq<char>,
    conditions: Seq<ConditionView>,
    page: i64,
    page_size: i64,
    fetched: Vec<T>,
)
    requires
        !window_allowed(page as int, page_size as int),
    ensures
        listed(catalog, kind, key, conditions, page, page_size, fetched) == (
            catalog,
            Err::<PaginatedResponse<T>, AppErrorView>(
                AppErrorView::BadRequest("Invalid pagination parameters"@),
            ),
        ),
{
    reveal_with_fuel(list_run, 2);
}

/// Of a faithful store, a page holds only rows of entries that all
/// conditions admit, and the admitted entries at the places of the window
/// are all on it, in order.
pub proof fn listed_rows_are_the_admitted<T>(
    catalog: Catalog<T>,
    kind: EntityKind,
    key: Seq<char>,
    conditions: Seq<ConditionView>,
    page: i64,
    page_size: i64,
    fetched: Vec<T>,
)
    requires
        window_allowed(page as int, page_size as int),
        !catalog.pages.contains_key(key),
        admitted(catalog.entries, conditions).len() <= i64::MAX,
        faithful(catalog, list_begin::<T>(kind, key, conditions, page, page_size).0, fetched),
    ensures
        ({
            let found = listed(catalog, kind, key, conditions, page, page_size, fetched).1->Ok_0;
            let among = admitted(catalog.entries, conditions);
            let skip = (page - 1) * page_size;
            &&& listed(catalog, kind, key, conditions, page, page_size, fetched).1 is Ok
            &&& found.data@.len() <= page_size
            &&& forall|i: int|
                0 <= i < found.data@.len() ==> skip + i < among.len() && #[trigger] found.data@[i]
                    == among[skip + i].row && admits_all(conditions, among[skip + i])
                    && catalog.entries.contains(among[skip + i])
            &&& forall|j: int|
                skip <= j < among.len() && j < skip + page_size ==> j - skip < found.data@.len()
                    && found.data@[j - skip] == (#[trigger] among[j]).row
        }),
{
    listing_counts_rows_and_pages(catalog, kind, key, conditions, page, page_size, fetched);
    let among = admitted(catalog.entries, conditions);
    let window = window_for(page, page_size);
    let keep = |entry: Shelved<T>| admits_all(conditions, entry);
    assert(fetched@ == window_of(rows_of(among), window));
    assert(rows_of(among).len() == among.len());
    assert forall|k: int| 0 <= k < among.len() implies admits_all(conditions, #[trigger] among[k])
        && catalog.entries.contains(among[k]) by {
        catalog.entries.lemma_filter_pred(keep, k);
        assert(among.contains(among[k]));
        catalog.entries.lemma_filter_contains_rev(keep, among[k]);
    }
}

/// The terms of a genre filter are the folded, non-empty pieces of it.
pub proof fn terms_are_the_folded_pieces(pieces: Seq<Seq<char>>, term: Seq<char>)
    ensures
        terms_of(pieces).contains(term) <==> term.len() > 0 && exists|i: int|
            0 <= i < pieces.len() && genre_term(#[trigger] pieces[i]) == term,
    decreases pieces.len(),
{
    if pieces.len() > 0 {
        let front = pieces.drop_last();
        terms_are_the_folded_pieces(front, term);
        let last = genre_term(pieces.last());
        if terms_of(pieces).contains(term) {
            if last.len() > 0 && !terms_of(front).contains(term) {
                let at = choose|k: int| 0 <= k < terms_of(pieces).len() && terms_of(pieces)[k] == term;
                assert(terms_of(pieces) == terms_of(front).push(last));
                if at < terms_of(front).len() {
                    assert(terms_of(front)[at] == term);
                }
                assert(genre_term(pieces[pieces.len() - 1]) == term);
            } else {
                let i = choose|i: int| 0 <= i < front.len() && genre_term(#[trigger] front[i]) == term;
                assert(pieces[i] == front[i]);
            }
        }
        if term.len() > 0 && exists|i: int|
            0 <= i < pieces.len() && genre_term(#[trigger] pieces[i]) == term {
            let i = choose|i: int| 0 <= i < pieces.len() && genre_term(#[trigger] pieces[i]) == term;
            if i < front.len() {
                assert(front[i] == pieces[i]);
                assert(terms_of(front).contains(term));
                let at = choose|k: int| 0 <= k < terms_of(front).len() && terms_of(front)[k] == term;
                if last.len() > 0 {
                    assert(terms_of(pieces)[at] == term);
                }
            } else {
                assert(terms_of(pieces) == terms_of(front).push(term));
                assert(terms_of(pieces)[terms_of(front).len() as int] == term);
            }
        }
    }
}

/// A book listing under a genre filter follows the join, case folded: a
/// book is admitted exactly if the search text, if any, occurs in its
/// title, and a genre is joined to it whose folded title is the term of a
/// piece of the filter. A book to which no such genre is joined, or none
/// any more, is not listed.
pub proof fn genre_filter_follows_the_join<T>(params: PaginationParams, entry: Shelved<T>)
    requires
        params.genres is Some,
        genre_terms_text(params.genres->0@).len() > 0,
    ensures
        admits_all(book_conditions(params), entry) <==> (params.search is Some ==> occurs_in(
            lowercased(params.search->0@),
            lowercased(entry.title),
        )) && exists|i: int, j: int|
            0 <= i < entry.genres.len() && 0 <= j < split_on(params.genres->0@, ',').len()
                && genre_term(#[trigger] split_on(params.genres->0@, ',')[j]).len() > 0
                && lowercased(#[trigger] entry.genres[i]) == genre_term(
                split_on(params.genres->0@, ',')[j],
            ),
{
    let conditions = book_conditions(params);
    let pieces = split_on(params.genres->0@, ',');
    let terms = genre_terms_text(params.genres->0@);
    let last = conditions.len() - 1;
    assert(conditions[last] == ConditionView::GenreAmong(terms));
    if params.search is Some {
        assert(conditions[0] == ConditionView::TitleContains(params.search->0@));
    }
    if admits_all(conditions, entry) {
        assert(admits(conditions[last], entry));
        let i = choose|i: int|
            0 <= i < entry.genres.len() && terms.contains(lowercased(#[trigger] entry.genres[i]));
        terms_are_the_folded_pieces(pieces, lowercased(entry.genres[i]));
        let j = choose|j: int|
            0 <= j < pieces.len() && genre_term(#[trigger] pieces[j]) == lowercased(
                entry.genres[i],
            );
        assert(genre_term(pieces[j]).len() > 0 && lowercased(entry.genres[i]) == genre_term(
            pieces[j],
        ));
        if params.search is Some {
            assert(admits(conditions[0], entry));
        }
    }
    if (params.search is Some ==> occurs_in(
        lowercased(params.search->0@),
        lowercased(entry.title),
    )) && exists|i: int, j: int|
        0 <= i < entry.genres.len() && 0 <= j < pieces.len() && genre_term(
            #[trigger] pieces[j],
        ).len() > 0 && lowercased(#[trigger] entry.genres[i]) == genre_term(pieces[j]) {
        let (i, j) = choose|i: int, j: int|
            0 <= i < entry.genres.len() && 0 <= j < pieces.len() && genre_term(
                #[trigger] pieces[j],
            ).len() > 0 && lowercased(#[trigger] entry.genres[i]) == genre_term(pieces[j]);
        terms_are_the_folded_pieces(pieces, lowercased(entry.genres[i]));
        assert(terms.contains(lowercased(entry.genres[i])));
        assert(joined_to_one_of(terms, entry));
        assert forall|k: int| 0 <= k < conditions.len() implies admits(
            #[trigger] conditions[k],
            entry,
        ) by {
            if k == last {
            } else {
                assert(k == 0 && params.search is Some);
            }
        }
    }
}

/// A text without commas is one piece.
pub proof fn unsplit_text_is_one_piece(text: Seq<char>)
    requires
        free_of(text, ','),
    ensures
        split_on(text, ',') == seq![text],
    decreases text.len(),
{
    if text.len() == 0 {
        assert(text =~= Seq::<char>::empty());
    } else {
        let front = text.drop_last();
        unsplit_text_is_one_piece(front);
        assert(text.last() != ',');
        assert(front.push(text.last()) =~= text);
        assert(seq![front].drop_last().push(seq![front].last().push(text.last())) =~= seq![text]);
    }
}

/// A book of a named genre is listed under that genre, whatever the case of
/// either name: where the filter names one genre, and the folded title of a
/// genre joined to the book is the filter's term, the first page of a
/// faithful store that holds no more entries than a page takes has the book
/// on it, has only books on it to which a genre with that folded title is
/// joined, and counts exactly the books that it lists.
pub proof fn book_of_a_named_genre_is_listed<T>(
    catalog: Catalog<T>,
    params: PaginationParams,
    book: Shelved<T>,
    genre: int,
    fetched: Vec<T>,
)
    requires
        params.page == 1,
        window_allowed(params.page as int, params.page_size as int),
        params.search is None,
        params.genres is Some,
        free_of(params.genres->0@, ','),
        genre_term(params.genres->0@).len() > 0,
        catalog.entries.contains(book),
        catalog.entries.len() <= params.page_size,
        0 <= genre < book.genres.len(),
        lowercased(book.genres[genre]) == genre_term(params.genres->0@),
        !catalog.pages.contains_key(crate::cache::keys::book_list_key_text(params)),
        faithful(
            catalog,
            list_begin::<T>(
                EntityKind::Book,
                crate::cache::keys::book_list_key_text(params),
                book_conditions(params),
                params.page,
                params.page_size,
            ).0,
            fetched,
        ),
    ensures
        ({
            let after = listed(
                catalog,
                EntityKind::Book,
                crate::cache::keys::book_list_key_text(params),
                book_conditions(params),
                params.page,
                params.page_size,
                fetched,
            );
            &&& after.1 matches Ok(found) && found.data@.contains(book.row) && found.total_items
                == found.data@.len() && forall|i: int|
                0 <= i < found.data@.len() ==> exists|entry: Shelved<T>, g: int|
                    catalog.entries.contains(entry) && entry.row == #[trigger] found.data@[i] && 0
                        <= g < entry.genres.len() && lowercased(#[trigger] entry.genres[g])
                        == genre_term(params.genres->0@)
        }),
{
    let key = crate::cache::keys::book_list_key_text(params);
    let conditions = book_conditions(params);
    let filter = params.genres->0@;
    let term = genre_term(filter);
    unsplit_text_is_one_piece(filter);
    let pieces = split_on(filter, ',');
    assert(pieces.drop_last() =~= Seq::<Seq<char>>::empty());
    assert(terms_of(pieces.drop_last()) =~= Seq::<Seq<char>>::empty());
    assert(genre_terms_text(filter) =~= seq![term]);
    assert(conditions =~= seq![ConditionView::GenreAmong(seq![term])]);
    let among = admitted(catalog.entries, conditions);
    let keep = |entry: Shelved<T>| admits_all(conditions, entry);
    assert(seq![term].contains(lowercased(book.genres[genre]))) by {
        assert(seq![term][0] == term);
    }
    assert(joined_to_one_of(seq![term], book));
    assert(admits_all(conditions, book));
    let at = choose|at: int| 0 <= at < catalog.entries.len() && catalog.entries[at] == book;
    catalog.entries.lemma_filter_contains(keep, at);
    let j = choose|j: int| 0 <= j < among.len() && among[j] == book;
    catalog.entries.lemma_filter_len(keep);
    listing_counts_rows_and_pages(
        catalog,
        EntityKind::Book,
        key,
        conditions,
        params.page,
        params.page_size,
        fetched,
    );
    listed_rows_are_the_admitted(
        catalog,
        EntityKind::Book,
        key,
        conditions,
        params.page,
        params.page_size,
        fetched,
    );
    let found = listed(
        catalog,
        EntityKind::Book,
        key,
        conditions,
        params.page,
        params.page_size,
        fetched,
    ).1->Ok_0;
    assert(found.data@[j] == among[j].row);
    assert(found.data@.len() == among.len()) by {
        if among.len() > 0 {
            let last = among.len() - 1;
            assert(found.data@[last] == among[last].row);
        }
    }
    assert forall|i: int| 0 <= i < found.data@.len() implies exists|entry: Shelved<T>, g: int|
        catalog.entries.contains(entry) && entry.row == #[trigger] found.data@[i] && 0 <= g
            < entry.genres.len() && lowercased(#[trigger] entry.genres[g]) == term by {
        let entry = among[i];
        assert(admits(conditions[0], entry));
        let g = choose|g: int|
            0 <= g < entry.genres.len() && seq![term].contains(
                lowercased(#[trigger] entry.genres[g]),
            );
        assert(lowercased(entry.genres[g]) == term);
        assert(catalog.entries.contains(entry) && entry.row == found.data@[i]);
    }
}

/// After a genre is removed, no page of books that was cached before is
/// served again: the next listing counts and fetches anew, and a book that
/// the removal left without a joined genre among the named ones is not on
/// its page.
pub proof fn genre_removal_reaches_book_listings<T>(
    catalog: Catalog<T>,
    genre_id: Seq<char>,
    params: PaginationParams,
    fetched: Vec<T>,
)
    requires
        window_allowed(params.page as int, params.page_size as int),
        admitted(catalog.entries, book_conditions(params)).len() <= i64::MAX,
    ensures
        ({
            let key = crate::cache::keys::book_list_key_text(params);
            let swept = Catalog {
                entries: catalog.entries,
                pages: cleared(
                    catalog.pages,
                    targets_for(EntityKind::Genre, Mutation::Delete, genre_id, None),
                ),
            };
            let after = listed(
                swept,
                EntityKind::Book,
                key,
                book_conditions(params),
                params.page,
                params.page_size,
                fetched,
            );
            &&& !swept.pages.contains_key(key)
            &&& after.1 matches Ok(found) && found.data == fetched && found.total_items
                == admitted(catalog.entries, book_conditions(params)).len()
        }),
{
    let key = crate::cache::keys::book_list_key_text(params);
    genre_write_clears_book_listings(Mutation::Delete, genre_id, None, params);
    let swept = Catalog {
        entries: catalog.entries,
        pages: cleared(
            catalog.pages,
            targets_for(EntityKind::Genre, Mutation::Delete, genre_id, None),
        ),
    };
    assert(!swept.pages.contains_key(key));
    listing_counts_rows_and_pages(
        swept,
        EntityKind::Book,
        key,
        book_conditions(params),
        params.page,
        params.page_size,
        fetched,
    );
}

} // verus!
