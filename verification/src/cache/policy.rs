//! Which cache entries a write must clear.
//!
//! The key of the written entity is cleared by name. Cached pages cannot be
//! named one by one, so all of them go: every key under the listing prefix
//! of the entity type, and for a chapter every key under the prefix of its
//! book's chapter listings as well.

use vstd::prelude::*;
use crate::cache::keys::{
    book_chapters_key_text,
    book_chapters_prefix,
    book_chapters_prefix_text,
    book_list_key_text,
    chapter_list_key_text,
    genre_list_key_text,
    item_key,
    item_key_text,
    list_prefix_text,
    EntityKind,
};
use crate::models::paging_model::PaginationParams;

verus! {

/// One thing to clear: a single key, or every key that begins with a prefix.
#[derive(Clone, Debug, PartialEq, Eq)]
pub enum CacheTarget {
    Key(String),
    Prefix(String),
}

/// A [`CacheTarget`] as plain text.
pub enum CacheTargetView {
    Key(Seq<char>),
    Prefix(Seq<char>),
}

impl View for CacheTarget {
    type V = CacheTargetView;

    open spec fn view(&self) -> CacheTargetView {
        match self {
            CacheTarget::Key(key) => CacheTargetView::Key(key@),
            CacheTarget::Prefix(prefix) => CacheTargetView::Prefix(prefix@),
        }
    }
}

/// The views of a list of targets.
pub open spec fn target_views(targets: Seq<CacheTarget>) -> Seq<CacheTargetView> {
    Seq::new(targets.len(), |i: int| targets[i]@)
}

/// The three ways to write an entity.
#[derive(Clone, Copy, Debug, PartialEq, Eq, Structural)]
pub enum Mutation {
    Create,
    Update,
    Delete,
}

/// Whether clearing `target` removes the entry under `key`.
pub open spec fn clears(target: CacheTargetView, key: Seq<char>) -> bool {
    match target {
        CacheTargetView::Key(name) => name == key,
        CacheTargetView::Prefix(prefix) => prefix.is_prefix_of(key),
    }
}

/// Whether clearing all of `targets` removes the entry under `key`.
pub open spec fn cleared_by(targets: Seq<CacheTargetView>, key: Seq<char>) -> bool {
    exists|i: int| 0 <= i < targets.len() && clears(#[trigger] targets[i], key)
}

/// The entity's own key, unless the entity is new: a new identifier cannot
/// have been cached yet.
pub open spec fn item_targets(kind: EntityKind, mutation: Mutation, id: Seq<char>) -> Seq<
    CacheTargetView,
> {
    if mutation == Mutation::Create {
        Seq::empty()
    } else {
        seq![CacheTargetView::Key(item_key_text(kind, id))]
    }
}

/// The listing prefix of the entity type, if the type is listed at all.
pub open spec fn list_targets(kind: EntityKind) -> Seq<CacheTargetView> {
    match list_prefix_text(kind) {
        Some(prefix) => seq![CacheTargetView::Prefix(prefix)],
        None => Seq::empty(),
    }
}

/// For a chapter with a known book, the prefix of that book's chapter
/// listings.
pub open spec fn parent_targets(kind: EntityKind, parent: Option<Seq<char>>) -> Seq<
    CacheTargetView,
> {
    match parent {
        Some(book_id) => if kind == EntityKind::Chapter {
            seq![CacheTargetView::Prefix(book_chapters_prefix_text(book_id))]
        } else {
            Seq::empty()
        },
        None => Seq::empty(),
    }
}

/// What a write clears beyond its own entity type: book listings can be
/// filtered by genre, so a change to a genre, or its removal, clears them.
/// A new genre is in no book listing yet.
pub open spec fn dependent_targets(kind: EntityKind, mutation: Mutation) -> Seq<CacheTargetView> {
    if kind == EntityKind::Genre && mutation != Mutation::Create {
        seq![CacheTargetView::Prefix(list_prefix_text(EntityKind::Book)->0)]
    } else {
        Seq::empty()
    }
}

/// Everything that a write of `mutation` to the entity `id` of `kind` must
/// clear. `parent` is the book of a chapter.
pub open spec fn targets_for(
    kind: EntityKind,
    mutation: Mutation,
    id: Seq<char>,
    parent: Option<Seq<char>>,
) -> Seq<CacheTargetView> {
    item_targets(kind, mutation, id) + list_targets(kind) + parent_targets(kind, parent)
        + dependent_targets(kind, mutation)
}

/// Everything that a write of `mutation` to the entity `id` of `kind` must
/// clear. `parent` is the book of a chapter.
pub fn invalidation_targets(kind: EntityKind, mutation: Mutation, id: &str, parent: Option<&str>)
    -> (targets: Vec<CacheTarget>)
    ensures
        target_views(targets@) == targets_for(
            kind,
            mutation,
            id@,
            crate::text::opt_text(parent),
        ),
{
    let mut targets: Vec<CacheTarget> = Vec::new();
    match mutation {
        Mutation::Create => {},
        _ => {
            targets.push(CacheTarget::Key(item_key(kind, id)));
        },
    }
    assert(target_views(targets@) =~= item_targets(kind, mutation, id@));
    match kind.list_prefix() {
        Some(prefix) => {
            targets.push(CacheTarget::Prefix(prefix.to_owned()));
        },
        None => {},
    }
    assert(target_views(targets@) =~= item_targets(kind, mutation, id@) + list_targets(kind));
    match (kind, parent) {
        (EntityKind::Chapter, Some(book_id)) => {
            targets.push(CacheTarget::Prefix(book_chapters_prefix(book_id)));
        },
        _ => {},
    }
    assert(target_views(targets@) =~= item_targets(kind, mutation, id@) + list_targets(kind)
        + parent_targets(kind, crate::text::opt_text(parent)));
    match (kind, mutation) {
        (EntityKind::Genre, Mutation::Create) => {},
        (EntityKind::Genre, _) => {
            match EntityKind::Book.list_prefix() {
                Some(prefix) => {
                    targets.push(CacheTarget::Prefix(prefix.to_owned()));
                },
                None => {},
            }
        },
        _ => {},
    }
    assert(target_views(targets@) =~= targets_for(
        kind,
        mutation,
        id@,
        crate::text::opt_text(parent),
    ));
    targets
}

/// A change to an entity, or its removal, clears the entity's own key.
pub proof fn write_clears_the_entity(
    kind: EntityKind,
    mutation: Mutation,
    id: Seq<char>,
    parent: Option<Seq<char>>,
)
    requires
        mutation != Mutation::Create,
    ensures
        cleared_by(targets_for(kind, mutation, id, parent), item_key_text(kind, id)),
{
    let targets = targets_for(kind, mutation, id, parent);
    assert(clears(targets[0], item_key_text(kind, id)));
}

/// Every write to a book clears every cached page of books; likewise for
/// chapters, and for the listing of genres.
pub proof fn write_clears_every_listing(
    mutation: Mutation,
    id: Seq<char>,
    parent: Option<Seq<char>>,
    params: PaginationParams,
)
    ensures
        cleared_by(
            targets_for(EntityKind::Book, mutation, id, parent),
            book_list_key_text(params),
        ),
        cleared_by(
            targets_for(EntityKind::Chapter, mutation, id, parent),
            chapter_list_key_text(params),
        ),
        cleared_by(targets_for(EntityKind::Genre, mutation, id, parent), genre_list_key_text()),
{
    crate::cache::keys::list_keys_share_the_prefix(params);
    let at: int = if mutation == Mutation::Create {
        0
    } else {
        1
    };
    let books = targets_for(EntityKind::Book, mutation, id, parent);
    assert(clears(books[at], book_list_key_text(params)));
    let chapters = targets_for(EntityKind::Chapter, mutation, id, parent);
    assert(clears(chapters[at], chapter_list_key_text(params)));
    let genres = targets_for(EntityKind::Genre, mutation, id, parent);
    assert(clears(genres[at], genre_list_key_text()));
}

/// Every write to a chapter clears every cached page of the chapters of its
/// book.
pub proof fn chapter_write_clears_its_book(
    mutation: Mutation,
    id: Seq<char>,
    book_id: Seq<char>,
    params: PaginationParams,
)
    ensures
        cleared_by(
            targets_for(EntityKind::Chapter, mutation, id, Some(book_id)),
            book_chapters_key_text(book_id, params),
        ),
{
    crate::cache::keys::book_chapter_keys_share_the_prefix(book_id, params);
    let targets = targets_for(EntityKind::Chapter, mutation, id, Some(book_id));
    let at: int = if mutation == Mutation::Create {
        1
    } else {
        2
    };
    assert(clears(targets[at], book_chapters_key_text(book_id, params)));
}

/// A change to a genre, or its removal, clears every cached page of books.
pub proof fn genre_write_clears_book_listings(
    mutation: Mutation,
    id: Seq<char>,
    parent: Option<Seq<char>>,
    params: PaginationParams,
)
    requires
        mutation != Mutation::Create,
    ensures
        cleared_by(
            targets_for(EntityKind::Genre, mutation, id, parent),
            book_list_key_text(params),
        ),
{
    crate::cache::keys::list_keys_share_the_prefix(params);
    let targets = targets_for(EntityKind::Genre, mutation, id, parent);
    assert(clears(targets[2], book_list_key_text(params)));
}

/// A write to a book or a chapter leaves every other entity of its kind
/// cached: it clears no key of a single entity but its own.
pub proof fn write_spares_other_entities(
    kind: EntityKind,
    mutation: Mutation,
    id: Seq<char>,
    parent: Option<Seq<char>>,
    other: Seq<char>,
)
    requires
        kind == EntityKind::Book || kind == EntityKind::Chapter,
        other != id,
    ensures
        !cleared_by(targets_for(kind, mutation, id, parent), item_key_text(kind, other)),
{
    let targets = targets_for(kind, mutation, id, parent);
    let key = item_key_text(kind, other);
    let book_id = match parent {
        Some(b) => b,
        None => Seq::<char>::empty(),
    };
    crate::cache::keys::item_keys_escape_list_sweeps(other, book_id);
    if item_key_text(kind, id) == key {
        crate::cache::keys::item_keys_are_distinct(kind, id, other);
    }
    assert forall|i: int| 0 <= i < targets.len() implies !clears(#[trigger] targets[i], key) by {
    }
}

} // verus!
