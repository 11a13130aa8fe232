//! A model of a store and a cache that answer faithfully, and the laws that
//! hold of repository sessions run against it.
//!
//! The store maps identifiers to rows; the cache maps keys to entries. The
//! store refuses a second row under one identifier. An update replaces the
//! row by whatever the statement makes of it, which the model takes as
//! given. Clearing removes exactly the entries that the targets name.

use vstd::prelude::*;
use crate::cache::keys::{item_key_text, list_prefix_text, EntityKind};
use crate::cache::policy::{cleared_by, targets_for, CacheTargetView, Mutation};
use crate::errors::AppErrorView;
use crate::query::StatementView;
use crate::services::repository::{
    advance,
    begin_create,
    begin_read,
    begin_update,
    not_found_text,
    EffectView,
    Intent,
    Record,
    ReplyView,
    SessionView,
    StoreFaultView,
};

verus! {

/// The rows of one entity type and the cache entries for them.
pub struct World<T> {
    pub store: Map<Seq<char>, T>,
    pub cache: Map<Seq<char>, T>,
}

/// The cache without the entries that `targets` name.
pub open spec fn cleared<T>(cache: Map<Seq<char>, T>, targets: Seq<CacheTargetView>) -> Map<
    Seq<char>,
    T,
> {
    Map::new(
        |key: Seq<char>| cache.contains_key(key) && !cleared_by(targets, key),
        |key: Seq<char>| cache[key],
    )
}

/// What the world makes of an effect, and what it answers. `changed` is the
/// row that an update leaves behind.
pub open spec fn respond<T: Record>(world: World<T>, effect: EffectView<T>, changed: T) -> (
    World<T>,
    ReplyView<T>,
) {
    match effect {
        EffectView::CacheGet { key } => (
            world,
            ReplyView::Cached(
                if world.cache.contains_key(key) {
                    Some(world.cache[key])
                } else {
                    None
                },
            ),
        ),
        EffectView::Select { id, statement } => (
            world,
            ReplyView::Row(
                if world.store.contains_key(id) {
                    Some(world.store[id])
                } else {
                    None
                },
            ),
        ),
        EffectView::Insert { row, statement } => if world.store.contains_key(row.key()) {
            (world, ReplyView::Fault(StoreFaultView::UniqueViolation(row.key())))
        } else {
            (
                World { store: world.store.insert(row.key(), row), cache: world.cache },
                ReplyView::Row(Some(row)),
            )
        },
        EffectView::Update { id, statement } => if world.store.contains_key(id) {
            (
                World { store: world.store.insert(id, changed), cache: world.cache },
                ReplyView::Row(Some(changed)),
            )
        } else {
            (world, ReplyView::Row(None))
        },
        EffectView::Remove { id, statement } => (
            World { store: world.store.remove(id), cache: world.cache },
            ReplyView::Removed,
        ),
        EffectView::Clear { targets } => (
            World { store: world.store, cache: cleared(world.cache, targets) },
            ReplyView::Cleared,
        ),
        EffectView::Finish { result, fill } => (world, ReplyView::Cleared),
    }
}

/// The world after the last effect of a session: the result is cached where
/// the session says so.
pub open spec fn settled<T>(
    world: World<T>,
    result: Result<T, AppErrorView>,
    fill: Option<(Seq<char>, i64)>,
) -> World<T> {
    match (result, fill) {
        (Ok(entity), Some((key, ttl))) => World {
            store: world.store,
            cache: world.cache.insert(key, entity),
        },
        _ => world,
    }
}

/// A session run to its end, for at most `steps` effects: the world it
/// leaves and the result it hands to the caller.
pub open spec fn run<T: Record>(
    world: World<T>,
    session: SessionView<T>,
    effect: EffectView<T>,
    changed: T,
    steps: nat,
) -> (World<T>, Result<T, AppErrorView>)
    decreases steps,
{
    match effect {
        EffectView::Finish { result, fill } => (settled(world, result, fill), result),
        _ => if steps == 0 {
            (world, Err(AppErrorView::InternalServer))
        } else {
            let (after, reply) = respond(world, effect, changed);
            let (next, then) = advance(session, reply);
            run(after, next, then, changed, (steps - 1) as nat)
        },
    }
}

/// No session takes more effects than this.
pub open spec fn enough() -> nat {
    6
}

/// Reading the entity `id`.
pub open spec fn get<T: Record>(world: World<T>, kind: EntityKind, id: Seq<char>) -> (
    World<T>,
    Result<T, AppErrorView>,
) {
    let begun = begin_read::<T>(kind, id, Intent::Read);
    run(world, begun.0, begun.1, arbitrary(), enough())
}

/// Creating `row`.
pub open spec fn create<T: Record>(
    world: World<T>,
    kind: EntityKind,
    row: T,
    statement: StatementView,
) -> (World<T>, Result<T, AppErrorView>) {
    let begun = begin_create(kind, row, statement);
    run(world, begun.0, begun.1, row, enough())
}

/// Updating the entity `id` with `change`, which leaves `changed` behind.
pub open spec fn update<T: Record>(
    world: World<T>,
    kind: EntityKind,
    id: Seq<char>,
    change: Option<StatementView>,
    changed: T,
) -> (World<T>, Result<T, AppErrorView>) {
    let begun = begin_update::<T>(kind, id, change);
    run(world, begun.0, begun.1, changed, enough())
}

/// Removing the entity `id`.
pub open spec fn delete<T: Record>(world: World<T>, kind: EntityKind, id: Seq<char>) -> (
    World<T>,
    Result<T, AppErrorView>,
) {
    let begun = begin_read::<T>(kind, id, Intent::Delete);
    run(world, begun.0, begun.1, arbitrary(), enough())
}

/// Whether the cache tells no lie about an entity of `kind`: what is cached
/// under an entity's key is the row that the store holds.
pub open spec fn coherent<T>(world: World<T>, kind: EntityKind) -> bool {
    forall|id: Seq<char>| #[trigger]
        world.cache.contains_key(item_key_text(kind, id)) ==> world.store.contains_key(id)
            && world.cache[item_key_text(kind, id)] == world.store[id]
}

/// What the store holds under `id`, as a read reports it.
pub open spec fn stored<T>(world: World<T>, kind: EntityKind, id: Seq<char>) -> Result<
    T,
    AppErrorView,
> {
    if world.store.contains_key(id) {
        Ok(world.store[id])
    } else {
        Err(AppErrorView::NotFound(not_found_text(kind)))
    }
}

/// A read serves the cache entry where there is one, and the store where
/// there is none; it never changes the store, and a row that it took from
/// the store is cached afterwards.
pub proof fn read_serves_cache_then_store<T: Record>(
    world: World<T>,
    kind: EntityKind,
    id: Seq<char>,
)
    ensures
        get(world, kind, id).0.store == world.store,
        world.cache.contains_key(item_key_text(kind, id)) ==> get(world, kind, id) == (
            world,
            Ok::<T, AppErrorView>(world.cache[item_key_text(kind, id)]),
        ),
        !world.cache.contains_key(item_key_text(kind, id)) ==> get(world, kind, id).1 == stored(
            world,
            kind,
            id,
        ),
        !world.cache.contains_key(item_key_text(kind, id)) && world.store.contains_key(id)
            ==> get(world, kind, id).0.cache == world.cache.insert(
            item_key_text(kind, id),
            world.store[id],
        ),
        !world.store.contains_key(id) && !world.cache.contains_key(item_key_text(kind, id))
            ==> get(world, kind, id).0 == world,
{
    reveal_with_fuel(run, 4);
}

/// While the cache cannot be reached, every read is served from the store,
/// and all such reads of one entity give the same.
pub proof fn read_survives_cache_outage<T: Record>(
    world: World<T>,
    kind: EntityKind,
    id: Seq<char>,
)
    requires
        world.cache == Map::<Seq<char>, T>::empty(),
    ensures
        get(world, kind, id).1 == stored(world, kind, id),
{
    read_serves_cache_then_store(world, kind, id);
}

/// An entity that was created is read back as it was created.
pub proof fn created_entity_reads_back<T: Record>(
    world: World<T>,
    kind: EntityKind,
    row: T,
    statement: StatementView,
)
    requires
        !world.store.contains_key(row.key()),
        !world.cache.contains_key(item_key_text(kind, row.key())),
    ensures
        create(world, kind, row, statement).1 == Ok::<T, AppErrorView>(row),
        get(create(world, kind, row, statement).0, kind, row.key()).1 == Ok::<T, AppErrorView>(
            row,
        ),
{
    reveal_with_fuel(run, 4);
    let after = create(world, kind, row, statement).0;
    assert(after.store == world.store.insert(row.key(), row));
    assert(!after.cache.contains_key(item_key_text(kind, row.key())));
    read_serves_cache_then_store(after, kind, row.key());
}

/// A second row under an identifier that is taken is refused as a conflict,
/// and the store stays as it was.
pub proof fn taken_identifier_is_refused<T: Record>(
    world: World<T>,
    kind: EntityKind,
    row: T,
    statement: StatementView,
)
    requires
        world.store.contains_key(row.key()),
    ensures
        create(world, kind, row, statement) == (
            world,
            Err::<T, AppErrorView>(AppErrorView::Conflict(row.key())),
        ),
{
    reveal_with_fuel(run, 4);
}

/// An update that names no field is a read: the same result, the same
/// world. The store is as before, and no cache entry is gone or changed.
pub proof fn empty_update_is_a_read<T: Record>(
    world: World<T>,
    kind: EntityKind,
    id: Seq<char>,
    changed: T,
)
    ensures
        update(world, kind, id, None, changed) == get(world, kind, id),
        update(world, kind, id, None, changed).0.store == world.store,
        world.cache.submap_of(update(world, kind, id, None, changed).0.cache),
{
    reveal_with_fuel(run, 4);
    read_serves_cache_then_store(world, kind, id);
}

/// After an update, a read gives the changed entity, whatever was cached
/// before.
pub proof fn updated_entity_reads_back<T: Record>(
    world: World<T>,
    kind: EntityKind,
    id: Seq<char>,
    statement: StatementView,
    changed: T,
)
    requires
        world.store.contains_key(id),
    ensures
        update(world, kind, id, Some(statement), changed).1 == Ok::<T, AppErrorView>(changed),
        get(update(world, kind, id, Some(statement), changed).0, kind, id).1 == Ok::<
            T,
            AppErrorView,
        >(changed),
{
    reveal_with_fuel(run, 4);
    let after = update(world, kind, id, Some(statement), changed).0;
    let targets = targets_for(kind, Mutation::Update, id, changed.parent());
    crate::cache::policy::write_clears_the_entity(kind, Mutation::Update, id, changed.parent());
    assert(after.store == world.store.insert(id, changed));
    assert(after.cache == cleared(world.cache, targets));
    assert(!after.cache.contains_key(item_key_text(kind, id)));
    read_serves_cache_then_store(after, kind, id);
}

/// An update of an entity that does not exist is refused and changes
/// nothing.
pub proof fn update_of_nothing_is_refused<T: Record>(
    world: World<T>,
    kind: EntityKind,
    id: Seq<char>,
    statement: StatementView,
    changed: T,
)
    requires
        !world.store.contains_key(id),
    ensures
        update(world, kind, id, Some(statement), changed) == (
            world,
            Err::<T, AppErrorView>(AppErrorView::NotFound(not_found_text(kind))),
        ),
{
    reveal_with_fuel(run, 4);
}

/// After a removal, a read finds nothing, whatever was cached before.
pub proof fn deleted_entity_is_gone<T: Record>(world: World<T>, kind: EntityKind, id: Seq<char>)
    requires
        delete(world, kind, id).1 is Ok,
    ensures
        !delete(world, kind, id).0.store.contains_key(id),
        get(delete(world, kind, id).0, kind, id).1 == Err::<T, AppErrorView>(
            AppErrorView::NotFound(not_found_text(kind)),
        ),
{
    reveal_with_fuel(run, 6);
    let after = delete(world, kind, id).0;
    let key = item_key_text(kind, id);
    let entity = delete(world, kind, id).1->Ok_0;
    crate::cache::policy::write_clears_the_entity(kind, Mutation::Delete, id, entity.parent());
    assert(!after.store.contains_key(id));
    assert(!after.cache.contains_key(key));
    read_serves_cache_then_store(after, kind, id);
}

/// A removal returns the entity as it was read: from the cache where it is
/// cached, else from the store; what does not exist cannot be removed.
pub proof fn delete_returns_what_it_read<T: Record>(
    world: World<T>,
    kind: EntityKind,
    id: Seq<char>,
)
    ensures
        delete(world, kind, id).1 == get(world, kind, id).1,
{
    reveal_with_fuel(run, 6);
}

/// After a write to an entity, nothing is cached under the listing prefix of
/// its type: every page that the write can have made stale is gone.
pub proof fn write_leaves_no_listing_cached<T: Record>(
    world: World<T>,
    kind: EntityKind,
    id: Seq<char>,
    row: T,
    statement: StatementView,
    changed: T,
    key: Seq<char>,
)
    requires
        list_prefix_text(kind) is Some,
        list_prefix_text(kind)->0.is_prefix_of(key),
    ensures
        create(world, kind, row, statement).1 is Ok ==> !create(
            world,
            kind,
            row,
            statement,
        ).0.cache.contains_key(key),
        update(world, kind, id, Some(statement), changed).1 is Ok ==> !update(
            world,
            kind,
            id,
            Some(statement),
            changed,
        ).0.cache.contains_key(key),
        delete(world, kind, id).1 is Ok ==> !delete(world, kind, id).0.cache.contains_key(key),
{
    reveal_with_fuel(run, 6);
    let sweep = CacheTargetView::Prefix(list_prefix_text(kind)->0);
    if create(world, kind, row, statement).1 is Ok {
        let targets = targets_for(kind, Mutation::Create, row.key(), row.parent());
        assert(targets[0] == sweep);
        assert(cleared_by(targets, key));
    }
    if update(world, kind, id, Some(statement), changed).1 is Ok {
        let targets = targets_for(kind, Mutation::Update, id, changed.parent());
        assert(targets[1] == sweep);
        assert(cleared_by(targets, key));
    }
    if delete(world, kind, id).1 is Ok {
        let entity = delete(world, kind, id).1->Ok_0;
        let targets = targets_for(kind, Mutation::Delete, id, entity.parent());
        assert(targets[1] == sweep);
        assert(cleared_by(targets, key));
    }
}

/// Every operation keeps the cache coherent: if no cached entity differed
/// from its row before, none does after.
pub proof fn operations_keep_coherence<T: Record>(
    world: World<T>,
    kind: EntityKind,
    id: Seq<char>,
    row: T,
    statement: StatementView,
    change: Option<StatementView>,
    changed: T,
)
    requires
        coherent(world, kind),
    ensures
        coherent(get(world, kind, id).0, kind),
        coherent(create(world, kind, row, statement).0, kind),
        coherent(update(world, kind, id, change, changed).0, kind),
        coherent(delete(world, kind, id).0, kind),
{
    reveal_with_fuel(run, 6);
    let key = item_key_text(kind, id);
    let read = get(world, kind, id).0;
    assert forall|other: Seq<char>| #[trigger]
        read.cache.contains_key(item_key_text(kind, other)) implies read.store.contains_key(other)
        && read.cache[item_key_text(kind, other)] == read.store[other] by {
        read_serves_cache_then_store(world, kind, id);
        if item_key_text(kind, other) == key {
            crate::cache::keys::item_keys_are_distinct(kind, other, id);
        }
    }
    let made = create(world, kind, row, statement).0;
    assert forall|other: Seq<char>| #[trigger]
        made.cache.contains_key(item_key_text(kind, other)) implies made.store.contains_key(other)
        && made.cache[item_key_text(kind, other)] == made.store[other] by {
        assert(world.cache.contains_key(item_key_text(kind, other)));
    }
    empty_update_is_a_read(world, kind, id, changed);
    let renewed = update(world, kind, id, change, changed).0;
    assert forall|other: Seq<char>| #[trigger]
        renewed.cache.contains_key(item_key_text(kind, other)) implies renewed.store.contains_key(
        other,
    ) && renewed.cache[item_key_text(kind, other)] == renewed.store[other] by {
        if change is Some && world.store.contains_key(id) {
            crate::cache::policy::write_clears_the_entity(
                kind,
                Mutation::Update,
                id,
                changed.parent(),
            );
            assert(world.cache.contains_key(item_key_text(kind, other)));
        }
    }
    let removed = delete(world, kind, id).0;
    assert forall|other: Seq<char>| #[trigger]
        removed.cache.contains_key(item_key_text(kind, other)) implies removed.store.contains_key(
        other,
    ) && removed.cache[item_key_text(kind, other)] == removed.store[other] by {
        delete_returns_what_it_read(world, kind, id);
        read_serves_cache_then_store(world, kind, id);
        if delete(world, kind, id).1 is Ok {
            let entity = delete(world, kind, id).1->Ok_0;
            crate::cache::policy::write_clears_the_entity(
                kind,
                Mutation::Delete,
                id,
                entity.parent(),
            );
            assert(world.cache.contains_key(item_key_text(kind, other)));
        }
    }
}

} // verus!
