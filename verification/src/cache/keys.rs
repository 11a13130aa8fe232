//! Names of cache entries.
//!
//! A single entity lives under `<entity>:<id>`. A cached page lives under a
//! key that spells out the request; all such keys of one entity type share a
//! prefix, and the chapter listings of one book share a narrower one.

use vstd::prelude::*;
use vstd::string::StringExecFns;
use crate::models::paging_model::PaginationParams;
use crate::text::{
    chars_of,
    decimal_text,
    decimal_text_is_free_of,
    decimal_text_is_injective,
    escaped,
    escaped_ends_where_it_ends,
    push_decimal,
    split_at_first,
    split_at_last,
};

verus! {

/// Seconds for which a cache entry is kept.
pub const CACHE_TTL: i64 = 600;

/// The entity types that the repositories serve.
#[derive(Clone, Copy, Debug, PartialEq, Eq, Structural)]
pub enum EntityKind {
    Book,
    Chapter,
    Genre,
    User,
}

/// What the key of a single entity begins with.
pub open spec fn item_prefix(kind: EntityKind) -> Seq<char> {
    match kind {
        EntityKind::Book => "book:"@,
        EntityKind::Chapter => "chapter:"@,
        EntityKind::Genre => "genre:"@,
        EntityKind::User => "user:"@,
    }
}

/// The key of the entity `id` of `kind`.
pub open spec fn item_key_text(kind: EntityKind, id: Seq<char>) -> Seq<char> {
    item_prefix(kind) + id
}

/// What the keys of all cached listings of `kind` begin with. Accounts are
/// never listed.
pub open spec fn list_prefix_text(kind: EntityKind) -> Option<Seq<char>> {
    match kind {
        EntityKind::Book => Some("books:list:"@),
        EntityKind::Chapter => Some("chapters:list:"@),
        EntityKind::Genre => Some("genre:list"@),
        EntityKind::User => None,
    }
}

/// What the keys of the cached chapter listings of one book begin with.
pub open spec fn book_chapters_prefix_text(book_id: Seq<char>) -> Seq<char> {
    "chapters:book:"@ + book_id + ":"@
}

/// The text of an optional filter: empty where there is none.
pub open spec fn filter_text(filter: Option<String>) -> Seq<char> {
    match filter {
        Some(text) => text@,
        None => Seq::<char>::empty(),
    }
}

/// Whether `c` has a meaning of its own in a key: the colon parts the
/// components, and the backslash escapes.
pub open spec fn key_special(c: char) -> bool {
    c == ':' || c == '\\'
}

/// The key of one page of books. The search text is followed by another
/// component, so it is escaped: the key then tells where it ends.
pub open spec fn book_list_key_text(params: PaginationParams) -> Seq<char> {
    "books:list:"@ + "page:"@ + decimal_text(params.page as int) + ":size:"@ + decimal_text(
        params.page_size as int,
    ) + ":search:"@ + escaped(filter_text(params.search), |c: char| key_special(c)) + ":genres:"@
        + filter_text(params.genres)
}

/// The key of one page of chapters.
pub open spec fn chapter_list_key_text(params: PaginationParams) -> Seq<char> {
    "chapters:list:"@ + "page:"@ + decimal_text(params.page as int) + ":size:"@ + decimal_text(
        params.page_size as int,
    ) + ":search:"@ + filter_text(params.search)
}

/// The key of one page of the chapters of one book.
pub open spec fn book_chapters_key_text(book_id: Seq<char>, params: PaginationParams) -> Seq<
    char,
> {
    book_chapters_prefix_text(book_id) + "page:"@ + decimal_text(params.page as int) + ":size:"@
        + decimal_text(params.page_size as int)
}

/// The key of the listing of all genres.
pub open spec fn genre_list_key_text() -> Seq<char> {
    "genre:list"@
}

impl EntityKind {
    /// What the key of a single entity of this kind begins with.
    pub fn item_prefix(&self) -> (prefix: &'static str)
        ensures
            prefix@ == item_prefix(*self),
    {
        match self {
            EntityKind::Book => "book:",
            EntityKind::Chapter => "chapter:",
            EntityKind::Genre => "genre:",
            EntityKind::User => "user:",
        }
    }

    /// What the keys of all cached listings of this kind begin with.
    pub fn list_prefix(&self) -> (prefix: Option<&'static str>)
        ensures
            crate::text::opt_text(prefix) == list_prefix_text(*self),
    {
        match self {
            EntityKind::Book => Some("books:list:"),
            EntityKind::Chapter => Some("chapters:list:"),
            EntityKind::Genre => Some("genre:list"),
            EntityKind::User => None,
        }
    }
}

/// The key of the entity `id` of `kind`.
pub fn item_key(kind: EntityKind, id: &str) -> (key: String)
    ensures
        key@ == item_key_text(kind, id@),
{
    String::from_str(kind.item_prefix()).concat(id)
}

/// What the keys of the cached chapter listings of `book_id` begin with.
pub fn book_chapters_prefix(book_id: &str) -> (prefix: String)
    ensures
        prefix@ == book_chapters_prefix_text(book_id@),
{
    String::from_str("chapters:book:").concat(book_id).concat(":")
}

/// Appends the page and the page size of `params` to a key.
fn push_window(key: &mut String, params: &PaginationParams)
    ensures
        final(key)@ == old(key)@ + "page:"@ + decimal_text(params.page as int) + ":size:"@
            + decimal_text(params.page_size as int),
{
    key.append("page:");
    push_decimal(key, params.page);
    key.append(":size:");
    push_decimal(key, params.page_size);
}

/// Appends an optional filter to a key.
fn push_filter(key: &mut String, filter: &Option<String>)
    ensures
        final(key)@ == old(key)@ + filter_text(*filter),
{
    match filter {
        Some(text) => key.append(text.as_str()),
        None => {
            assert(old(key)@ + Seq::<char>::empty() =~= old(key)@);
        },
    }
}

/// Appends an optional filter to a key, escaped.
fn push_escaped_filter(key: &mut String, filter: &Option<String>)
    ensures
        final(key)@ == old(key)@ + escaped(filter_text(*filter), |c: char| key_special(c)),
{
    match filter {
        Some(text) => {
            let chars = chars_of(text.as_str());
            let mut i: usize = 0;
            assert(text@.take(0) =~= Seq::<char>::empty());
            assert(old(key)@ + Seq::<char>::empty() =~= old(key)@);
            while i < chars.len()
                invariant
                    i <= chars.len(),
                    chars@ == text@,
                    key@ == old(key)@ + escaped(text@.take(i as int), |c: char| key_special(c)),
                decreases chars.len() - i,
            {
                let c = chars[i];
                let ghost so_far = escaped(text@.take(i as int), |c: char| key_special(c));
                if c == ':' || c == '\\' {
                    key.push('\\');
                }
                key.push(c);
                proof {
                    let before = text@.take(i as int);
                    let after = text@.take(i + 1);
                    assert(after.drop_last() =~= before);
                    assert(after.last() == c);
                    let grown = escaped(after, |c: char| key_special(c));
                    if key_special(c) {
                        assert(grown == so_far.push('\\').push(c));
                        assert(key@ =~= old(key)@ + grown);
                    } else {
                        assert(grown == so_far.push(c));
                        assert(key@ =~= old(key)@ + grown);
                    }
                }
                i += 1;
            }
            assert(text@.take(chars.len() as int) =~= text@);
        },
        None => {
            assert(old(key)@ + Seq::<char>::empty() =~= old(key)@);
        },
    }
}

/// The key of one page of books.
pub fn book_list_key(params: &PaginationParams) -> (key: String)
    ensures
        key@ == book_list_key_text(*params),
{
    let mut key = String::from_str("books:list:");
    push_window(&mut key, params);
    key.append(":search:");
    push_escaped_filter(&mut key, &params.search);
    key.append(":genres:");
    push_filter(&mut key, &params.genres);
    key
}

/// The key of one page of chapters.
pub fn chapter_list_key(params: &PaginationParams) -> (key: String)
    ensures
        key@ == chapter_list_key_text(*params),
{
    let mut key = String::from_str("chapters:list:");
    push_window(&mut key, params);
    key.append(":search:");
    push_filter(&mut key, &params.search);
    key
}

/// The key of one page of the chapters of `book_id`.
pub fn book_chapters_key(book_id: &str, params: &PaginationParams) -> (key: String)
    ensures
        key@ == book_chapters_key_text(book_id@, *params),
{
    let mut key = book_chapters_prefix(book_id);
    push_window(&mut key, params);
    key
}

/// The key of the listing of all genres.
pub fn genre_list_key() -> (key: String)
    ensures
        key@ == genre_list_key_text(),
{
    String::from_str("genre:list")
}

/// Two entities of one kind share a key only if they share the identifier.
pub proof fn item_keys_are_distinct(kind: EntityKind, a: Seq<char>, b: Seq<char>)
    requires
        item_key_text(kind, a) == item_key_text(kind, b),
    ensures
        a == b,
{
    let p = item_prefix(kind);
    assert(a =~= item_key_text(kind, a).subrange(p.len() as int, (p.len() + a.len()) as int));
    assert(item_key_text(kind, a).len() == p.len() + a.len());
    assert(item_key_text(kind, b).len() == p.len() + b.len());
    assert(b =~= item_key_text(kind, b).subrange(p.len() as int, (p.len() + b.len()) as int));
}

/// Texts that are equal after one and the same lead are equal.
proof fn same_lead(lead: Seq<char>, a: Seq<char>, b: Seq<char>)
    requires
        lead + a == lead + b,
    ensures
        a == b,
{
    assert(a =~= (lead + a).subrange(lead.len() as int, (lead + a).len() as int));
    assert(b =~= (lead + b).subrange(lead.len() as int, (lead + b).len() as int));
}

/// Texts that are equal before one and the same tail are equal.
proof fn same_tail(a: Seq<char>, b: Seq<char>, tail: Seq<char>)
    requires
        a + tail == b + tail,
    ensures
        a == b,
{
    assert((a + tail).len() == a.len() + tail.len());
    assert((b + tail).len() == b.len() + tail.len());
    assert(a =~= (a + tail).subrange(0, a.len() as int));
    assert(b =~= (b + tail).subrange(0, b.len() as int));
}

/// Two list requests share a key for a page of books only if they ask for
/// the same page, of the same size, under the same filters. A filter that
/// is absent and one that is empty count as the same.
pub proof fn book_list_keys_are_distinct(a: PaginationParams, b: PaginationParams)
    requires
        book_list_key_text(a) == book_list_key_text(b),
    ensures
        a.page == b.page,
        a.page_size == b.page_size,
        filter_text(a.search) == filter_text(b.search),
        filter_text(a.genres) == filter_text(b.genres),
{
    reveal_strlit(":size:");
    reveal_strlit(":search:");
    reveal_strlit(":genres:");
    let special = |c: char| key_special(c);
    let lead = "books:list:"@ + "page:"@;
    let tail_a = ":genres:"@ + filter_text(a.genres);
    let tail_b = ":genres:"@ + filter_text(b.genres);
    let search_a = ":search:"@ + (escaped(filter_text(a.search), special) + tail_a);
    let search_b = ":search:"@ + (escaped(filter_text(b.search), special) + tail_b);
    let size_a = ":size:"@ + (decimal_text(a.page_size as int) + search_a);
    let size_b = ":size:"@ + (decimal_text(b.page_size as int) + search_b);
    assert(book_list_key_text(a) =~= lead + (decimal_text(a.page as int) + size_a));
    assert(book_list_key_text(b) =~= lead + (decimal_text(b.page as int) + size_b));
    same_lead(lead, decimal_text(a.page as int) + size_a, decimal_text(b.page as int) + size_b);
    decimal_text_is_free_of(a.page as int, ':');
    decimal_text_is_free_of(b.page as int, ':');
    decimal_text_is_free_of(a.page_size as int, ':');
    decimal_text_is_free_of(b.page_size as int, ':');
    assert(size_a[0] == ':' && size_b[0] == ':');
    split_at_first(
        decimal_text(a.page as int),
        decimal_text(b.page as int),
        size_a,
        size_b,
        ':',
    );
    decimal_text_is_injective(a.page as int, b.page as int);
    same_lead(
        ":size:"@,
        decimal_text(a.page_size as int) + search_a,
        decimal_text(b.page_size as int) + search_b,
    );
    assert(search_a[0] == ':' && search_b[0] == ':');
    split_at_first(
        decimal_text(a.page_size as int),
        decimal_text(b.page_size as int),
        search_a,
        search_b,
        ':',
    );
    decimal_text_is_injective(a.page_size as int, b.page_size as int);
    same_lead(
        ":search:"@,
        escaped(filter_text(a.search), special) + tail_a,
        escaped(filter_text(b.search), special) + tail_b,
    );
    assert(tail_a[0] == ':' && tail_b[0] == ':');
    escaped_ends_where_it_ends(
        filter_text(a.search),
        filter_text(b.search),
        tail_a,
        tail_b,
        special,
    );
    same_lead(":genres:"@, filter_text(a.genres), filter_text(b.genres));
}

/// Two list requests share a key for a page of chapters only if they ask
/// for the same page, of the same size, under the same search.
pub proof fn chapter_list_keys_are_distinct(a: PaginationParams, b: PaginationParams)
    requires
        chapter_list_key_text(a) == chapter_list_key_text(b),
    ensures
        a.page == b.page,
        a.page_size == b.page_size,
        filter_text(a.search) == filter_text(b.search),
{
    reveal_strlit(":size:");
    reveal_strlit(":search:");
    let lead = "chapters:list:"@ + "page:"@;
    let search_a = ":search:"@ + filter_text(a.search);
    let search_b = ":search:"@ + filter_text(b.search);
    let size_a = ":size:"@ + (decimal_text(a.page_size as int) + search_a);
    let size_b = ":size:"@ + (decimal_text(b.page_size as int) + search_b);
    assert(chapter_list_key_text(a) =~= lead + (decimal_text(a.page as int) + size_a));
    assert(chapter_list_key_text(b) =~= lead + (decimal_text(b.page as int) + size_b));
    same_lead(lead, decimal_text(a.page as int) + size_a, decimal_text(b.page as int) + size_b);
    decimal_text_is_free_of(a.page as int, ':');
    decimal_text_is_free_of(b.page as int, ':');
    decimal_text_is_free_of(a.page_size as int, ':');
    decimal_text_is_free_of(b.page_size as int, ':');
    assert(size_a[0] == ':' && size_b[0] == ':');
    split_at_first(
        decimal_text(a.page as int),
        decimal_text(b.page as int),
        size_a,
        size_b,
        ':',
    );
    decimal_text_is_injective(a.page as int, b.page as int);
    same_lead(
        ":size:"@,
        decimal_text(a.page_size as int) + search_a,
        decimal_text(b.page_size as int) + search_b,
    );
    assert(search_a[0] == ':' && search_b[0] == ':');
    split_at_first(
        decimal_text(a.page_size as int),
        decimal_text(b.page_size as int),
        search_a,
        search_b,
        ':',
    );
    decimal_text_is_injective(a.page_size as int, b.page_size as int);
    same_lead(":search:"@, filter_text(a.search), filter_text(b.search));
}

/// Two requests share a key for a page of a book's chapters only if they
/// ask for the same book, the same page, and the same size.
pub proof fn book_chapter_keys_are_distinct(
    book_a: Seq<char>,
    a: PaginationParams,
    book_b: Seq<char>,
    b: PaginationParams,
)
    requires
        book_chapters_key_text(book_a, a) == book_chapters_key_text(book_b, b),
    ensures
        book_a == book_b,
        a.page == b.page,
        a.page_size == b.page_size,
{
    reveal_strlit(":size:");
    reveal_strlit("page:");
    reveal_strlit(":");
    let page_lead_a = "chapters:book:"@ + book_a + ":"@ + "page:"@;
    let page_lead_b = "chapters:book:"@ + book_b + ":"@ + "page:"@;
    let size_lead_a = page_lead_a + decimal_text(a.page as int) + ":size:"@;
    let size_lead_b = page_lead_b + decimal_text(b.page as int) + ":size:"@;
    assert(book_chapters_key_text(book_a, a) =~= size_lead_a + decimal_text(a.page_size as int));
    assert(book_chapters_key_text(book_b, b) =~= size_lead_b + decimal_text(b.page_size as int));
    decimal_text_is_free_of(a.page as int, ':');
    decimal_text_is_free_of(b.page as int, ':');
    decimal_text_is_free_of(a.page_size as int, ':');
    decimal_text_is_free_of(b.page_size as int, ':');
    assert(size_lead_a.last() == ':' && size_lead_b.last() == ':');
    split_at_last(
        size_lead_a,
        size_lead_b,
        decimal_text(a.page_size as int),
        decimal_text(b.page_size as int),
        ':',
    );
    decimal_text_is_injective(a.page_size as int, b.page_size as int);
    same_tail(
        page_lead_a + decimal_text(a.page as int),
        page_lead_b + decimal_text(b.page as int),
        ":size:"@,
    );
    assert(page_lead_a.last() == ':' && page_lead_b.last() == ':');
    split_at_last(
        page_lead_a,
        page_lead_b,
        decimal_text(a.page as int),
        decimal_text(b.page as int),
        ':',
    );
    decimal_text_is_injective(a.page as int, b.page as int);
    assert(page_lead_a =~= "chapters:book:"@ + (book_a + (":"@ + "page:"@)));
    assert(page_lead_b =~= "chapters:book:"@ + (book_b + (":"@ + "page:"@)));
    same_lead("chapters:book:"@, book_a + (":"@ + "page:"@), book_b + (":"@ + "page:"@));
    same_tail(book_a, book_b, ":"@ + "page:"@);
}

/// Every key of a cached page of books or chapters, and the key of the genre
/// listing, begins with the listing prefix of its entity type.
pub proof fn list_keys_share_the_prefix(params: PaginationParams)
    ensures
        list_prefix_text(EntityKind::Book)->0.is_prefix_of(book_list_key_text(params)),
        list_prefix_text(EntityKind::Chapter)->0.is_prefix_of(chapter_list_key_text(params)),
        list_prefix_text(EntityKind::Genre)->0.is_prefix_of(genre_list_key_text()),
{
    let b = "books:list:"@;
    let c = "chapters:list:"@;
    assert(book_list_key_text(params).subrange(0, b.len() as int) =~= b);
    assert(chapter_list_key_text(params).subrange(0, c.len() as int) =~= c);
    assert(genre_list_key_text().subrange(0, "genre:list"@.len() as int) =~= "genre:list"@);
}

/// Every key of a cached page of the chapters of a book begins with that
/// book's prefix.
pub proof fn book_chapter_keys_share_the_prefix(book_id: Seq<char>, params: PaginationParams)
    ensures
        book_chapters_prefix_text(book_id).is_prefix_of(book_chapters_key_text(book_id, params)),
{
    let p = book_chapters_prefix_text(book_id);
    assert(book_chapters_key_text(book_id, params).subrange(0, p.len() as int) =~= p);
}

/// The key of a single book or chapter begins with no listing prefix, so a
/// sweep of listings leaves the entities themselves cached.
pub proof fn item_keys_escape_list_sweeps(id: Seq<char>, book_id: Seq<char>)
    ensures
        !"books:list:"@.is_prefix_of(item_key_text(EntityKind::Book, id)),
        !"chapters:list:"@.is_prefix_of(item_key_text(EntityKind::Chapter, id)),
        !book_chapters_prefix_text(book_id).is_prefix_of(item_key_text(EntityKind::Chapter, id)),
{
    reveal_strlit("books:list:");
    reveal_strlit("book:");
    reveal_strlit("chapters:list:");
    reveal_strlit("chapters:book:");
    reveal_strlit("chapter:");
    let bk = item_key_text(EntityKind::Book, id);
    let ck = item_key_text(EntityKind::Chapter, id);
    if "books:list:"@.is_prefix_of(bk) {
        assert(bk[4] == "books:list:"@[4]);
        assert(bk[4] == "book:"@[4]);
    }
    if "chapters:list:"@.is_prefix_of(ck) {
        assert(ck[7] == "chapters:list:"@[7]);
        assert(ck[7] == "chapter:"@[7]);
    }
    let p = book_chapters_prefix_text(book_id);
    if p.is_prefix_of(ck) {
        assert(p[7] == "chapters:book:"@[7]);
        assert(ck[7] == p[7]);
        assert(ck[7] == "chapter:"@[7]);
    }
}

} // verus!
