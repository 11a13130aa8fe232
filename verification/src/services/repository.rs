//! The read/write path that all repositories share.
//!
//! A [`Session`] serves one operation on one entity. It starts with an
//! [`Effect`] to perform, takes the [`Reply`] to it, and answers with the
//! next effect, until the effect is [`Effect::Finish`].
//!
//! Reads go to the cache first and to the store on a miss; what the store
//! gave is then cached. Writes go to the store and then clear the cache
//! entries they can have made stale. A cache that fails is a cache that
//! misses: no cache trouble ever fails an operation.
//!
//! [`World`] is a model of a store and a cache that answer faithfully. The
//! laws at the end of this file are proved of sessions run against it.

use vstd::prelude::*;
use vstd::string::StringExecFns;
use crate::cache::keys::{item_key, item_key_text, EntityKind, CACHE_TTL};
use crate::cache::policy::{
    invalidation_targets,
    target_views,
    targets_for,
    CacheTarget,
    CacheTargetView,
    Mutation,
};
use crate::errors::{outcome, AppError, AppErrorView};
use crate::query::{
    delete_by_id,
    delete_statement,
    select_by_id,
    select_statement,
    Statement,
    StatementView,
};
use crate::text::opt_view;

verus! {

/// What a repository needs to know of an entity: its identifier and, for an
/// entity that belongs to another, the identifier of that one.
pub trait Record: Sized {
    /// The identifier.
    spec fn key(&self) -> Seq<char>;

    /// The identifier of the entity that this one belongs to, if any.
    spec fn parent(&self) -> Option<Seq<char>>;

    /// The identifier.
    fn id(&self) -> (id: String)
        ensures
            id@ == self.key(),
    ;

    /// The identifier of the entity that this one belongs to, if any.
    fn parent_id(&self) -> (parent: Option<String>)
        ensures
            opt_view(parent) == self.parent(),
    ;
}

/// How the store can fail.
#[derive(Clone, Debug, PartialEq, Eq)]
pub enum StoreFault {
    /// The write collides with a uniqueness constraint.
    UniqueViolation(String),
    /// Anything else.
    Other(String),
}

/// A [`StoreFault`] as plain text.
pub enum StoreFaultView {
    UniqueViolation(Seq<char>),
    Other(Seq<char>),
}

impl View for StoreFault {
    type V = StoreFaultView;

    open spec fn view(&self) -> StoreFaultView {
        match self {
            StoreFault::UniqueViolation(what) => StoreFaultView::UniqueViolation(what@),
            StoreFault::Other(what) => StoreFaultView::Other(what@),
        }
    }
}

/// The error that reports a store failure: a conflict for a uniqueness
/// violation, a storage error for the rest.
pub open spec fn fault_error(fault: StoreFaultView) -> AppErrorView {
    match fault {
        StoreFaultView::UniqueViolation(what) => AppErrorView::Conflict(what),
        StoreFaultView::Other(what) => AppErrorView::Database(what),
    }
}

impl StoreFault {
    /// The error that reports this failure.
    pub fn into_error(self) -> (error: AppError)
        ensures
            error@ == fault_error(self@),
    {
        match self {
            StoreFault::UniqueViolation(what) => AppError::Conflict(what),
            StoreFault::Other(what) => AppError::Database(what),
        }
    }
}

/// What says that no entity of `kind` has the identifier asked for.
pub open spec fn not_found_text(kind: EntityKind) -> Seq<char> {
    match kind {
        EntityKind::Book => "Book not found"@,
        EntityKind::Chapter => "Chapter not found"@,
        EntityKind::Genre => "Genre not found"@,
        EntityKind::User => "User not found"@,
    }
}

/// The error for an entity of `kind` that does not exist.
pub fn not_found(kind: EntityKind) -> (error: AppError)
    ensures
        error@ == AppErrorView::NotFound(not_found_text(kind)),
{
    match kind {
        EntityKind::Book => AppError::NotFound(String::from_str("Book not found")),
        EntityKind::Chapter => AppError::NotFound(String::from_str("Chapter not found")),
        EntityKind::Genre => AppError::NotFound(String::from_str("Genre not found")),
        EntityKind::User => AppError::NotFound(String::from_str("User not found")),
    }
}

/// What an operation is after.
#[derive(Clone, Copy, Debug, PartialEq, Eq, Structural)]
pub enum Intent {
    Read,
    Create,
    Update,
    Delete,
}

/// What a session waits for.
#[derive(Clone, Copy, Debug, PartialEq, Eq, Structural)]
pub enum Phase {
    /// The cache's answer to a lookup.
    AwaitCache,
    /// The row that the store holds.
    AwaitFetch,
    /// The row that the store has written.
    AwaitWrite,
    /// The word that the store has removed the row.
    AwaitRemoval,
    /// The word that the stale cache entries are gone.
    AwaitClear,
    /// Nothing: the operation is over.
    Finished,
}

/// The write that an intent makes, for the invalidation policy.
pub open spec fn mutation_of(intent: Intent) -> Mutation {
    match intent {
        Intent::Create => Mutation::Create,
        Intent::Delete => Mutation::Delete,
        _ => Mutation::Update,
    }
}

/// One operation on one entity, in progress.
#[derive(Debug, PartialEq, Eq)]
pub struct Session<T> {
    kind: EntityKind,
    id: String,
    intent: Intent,
    phase: Phase,
    held: Option<T>,
}

/// A [`Session`] as plain values.
pub struct SessionView<T> {
    pub kind: EntityKind,
    pub id: Seq<char>,
    pub intent: Intent,
    pub phase: Phase,
    /// The entity that the operation will return once its work is done.
    pub held: Option<T>,
}

impl<T> View for Session<T> {
    type V = SessionView<T>;

    closed spec fn view(&self) -> SessionView<T> {
        SessionView {
            kind: self.kind,
            id: self.id@,
            intent: self.intent,
            phase: self.phase,
            held: self.held,
        }
    }
}

/// What is to be done next.
#[derive(Debug, PartialEq, Eq)]
pub enum Effect<T> {
    /// Look `key` up in the cache.
    CacheGet { key: String },
    /// Read the row `id` with `statement`.
    Select { id: String, statement: Statement },
    /// Store `row` with `statement`.
    Insert { row: T, statement: Statement },
    /// Change the row `id` with `statement`.
    Update { id: String, statement: Statement },
    /// Remove the row `id` with `statement`.
    Remove { id: String, statement: Statement },
    /// Clear these cache entries.
    Clear { targets: Vec<CacheTarget> },
    /// Hand `result` to the caller; before that, where `fill` names a key
    /// and a lifetime in seconds, cache the result under it.
    Finish { result: Result<T, AppError>, fill: Option<(String, i64)> },
}

/// An [`Effect`] as plain values.
pub enum EffectView<T> {
    CacheGet { key: Seq<char> },
    Select { id: Seq<char>, statement: StatementView },
    Insert { row: T, statement: StatementView },
    Update { id: Seq<char>, statement: StatementView },
    Remove { id: Seq<char>, statement: StatementView },
    Clear { targets: Seq<CacheTargetView> },
    Finish { result: Result<T, AppErrorView>, fill: Option<(Seq<char>, i64)> },
}

impl<T> View for Effect<T> {
    type V = EffectView<T>;

    open spec fn view(&self) -> EffectView<T> {
        match self {
            Effect::CacheGet { key } => EffectView::CacheGet { key: key@ },
            Effect::Select { id, statement } => EffectView::Select {
                id: id@,
                statement: statement@,
            },
            Effect::Insert { row, statement } => EffectView::Insert {
                row: *row,
                statement: statement@,
            },
            Effect::Update { id, statement } => EffectView::Update {
                id: id@,
                statement: statement@,
            },
            Effect::Remove { id, statement } => EffectView::Remove {
                id: id@,
                statement: statement@,
            },
            Effect::Clear { targets } => EffectView::Clear { targets: target_views(targets@) },
            Effect::Finish { result, fill } => EffectView::Finish {
                result: outcome(*result),
                fill: match fill {
                    Some((key, ttl)) => Some((key@, *ttl)),
                    None => None,
                },
            },
        }
    }
}

/// What came of the last effect.
#[derive(Debug, PartialEq, Eq)]
pub enum Reply<T> {
    /// The cache's answer: the entry, or none. A cache that cannot be
    /// reached, or an entry that cannot be read, is none.
    Cached(Option<T>),
    /// The store's answer to a read or a write: the row, or none where no
    /// row has the identifier.
    Row(Option<T>),
    /// The store has run the removal.
    Removed,
    /// The cache entries were cleared, or the attempt was made.
    Cleared,
    /// The store failed.
    Fault(StoreFault),
}

/// A [`Reply`] as plain values.
pub enum ReplyView<T> {
    Cached(Option<T>),
    Row(Option<T>),
    Removed,
    Cleared,
    Fault(StoreFaultView),
}

impl<T> View for Reply<T> {
    type V = ReplyView<T>;

    open spec fn view(&self) -> ReplyView<T> {
        match self {
            Reply::Cached(entry) => ReplyView::Cached(*entry),
            Reply::Row(row) => ReplyView::Row(*row),
            Reply::Removed => ReplyView::Removed,
            Reply::Cleared => ReplyView::Cleared,
            Reply::Fault(fault) => ReplyView::Fault(fault@),
        }
    }
}

/// A session that is over, with its last effect.
pub open spec fn finished<T>(session: SessionView<T>, result: Result<T, AppErrorView>, fill: Option<
    (Seq<char>, i64),
>) -> (SessionView<T>, EffectView<T>) {
    (
        SessionView {
            kind: session.kind,
            id: session.id,
            intent: session.intent,
            phase: Phase::Finished,
            held: None,
        },
        EffectView::Finish { result, fill },
    )
}

/// A session that moves to `phase` holding `held`, with the effect that
/// takes it there.
pub open spec fn moved<T>(
    session: SessionView<T>,
    phase: Phase,
    held: Option<T>,
    effect: EffectView<T>,
) -> (SessionView<T>, EffectView<T>) {
    (
        SessionView { kind: session.kind, id: session.id, intent: session.intent, phase, held },
        effect,
    )
}

/// What a session does with an entity that it has read: a read returns it,
/// and caches it where it came from the store; a removal goes on to remove
/// the row.
pub open spec fn found<T>(session: SessionView<T>, entity: T, from_store: bool) -> (
    SessionView<T>,
    EffectView<T>,
) {
    if session.intent == Intent::Delete {
        moved(
            session,
            Phase::AwaitRemoval,
            Some(entity),
            EffectView::Remove {
                id: session.id,
                statement: delete_statement(session.kind, session.id),
            },
        )
    } else {
        finished(
            session,
            Ok(entity),
            if from_store {
                Some((item_key_text(session.kind, session.id), CACHE_TTL))
            } else {
                None
            },
        )
    }
}

/// The effect that clears what a write to `entity` has made stale.
pub open spec fn clearing<T: Record>(session: SessionView<T>, entity: T) -> (
    SessionView<T>,
    EffectView<T>,
) {
    moved(
        session,
        Phase::AwaitClear,
        Some(entity),
        EffectView::Clear {
            targets: targets_for(
                session.kind,
                mutation_of(session.intent),
                session.id,
                entity.parent(),
            ),
        },
    )
}

/// The session's answer to a reply.
///
/// A reply that the session was not waiting for ends it with an internal
/// error, as does any reply to a session that is over.
pub open spec fn advance<T: Record>(session: SessionView<T>, reply: ReplyView<T>) -> (
    SessionView<T>,
    EffectView<T>,
) {
    let confused = finished(session, Err(AppErrorView::InternalServer), None);
    let absent = finished(session, Err(AppErrorView::NotFound(not_found_text(session.kind))), None);
    match session.phase {
        Phase::AwaitCache => match reply {
            ReplyView::Cached(Some(entity)) => found(session, entity, false),
            ReplyView::Cached(None) => moved(
                session,
                Phase::AwaitFetch,
                None,
                EffectView::Select {
                    id: session.id,
                    statement: select_statement(session.kind, session.id),
                },
            ),
            _ => confused,
        },
        Phase::AwaitFetch => match reply {
            ReplyView::Row(Some(entity)) => found(session, entity, true),
            ReplyView::Row(None) => absent,
            ReplyView::Fault(fault) => finished(session, Err(fault_error(fault)), None),
            _ => confused,
        },
        Phase::AwaitWrite => match reply {
            ReplyView::Row(Some(entity)) => clearing(session, entity),
            ReplyView::Row(None) => if session.intent == Intent::Update {
                absent
            } else {
                confused
            },
            ReplyView::Fault(fault) => finished(session, Err(fault_error(fault)), None),
            _ => confused,
        },
        Phase::AwaitRemoval => match (reply, session.held) {
            (ReplyView::Removed, Some(entity)) => clearing(session, entity),
            (ReplyView::Fault(fault), _) => finished(session, Err(fault_error(fault)), None),
            _ => confused,
        },
        Phase::AwaitClear => match (reply, session.held) {
            (ReplyView::Cleared, Some(entity)) => finished(session, Ok(entity), None),
            _ => confused,
        },
        Phase::Finished => confused,
    }
}

/// How a read of the entity `id` of `kind` begins: with a look into the
/// cache.
pub open spec fn begin_read<T>(kind: EntityKind, id: Seq<char>, intent: Intent) -> (
    SessionView<T>,
    EffectView<T>,
) {
    (
        SessionView { kind, id, intent, phase: Phase::AwaitCache, held: None },
        EffectView::CacheGet { key: item_key_text(kind, id) },
    )
}

/// How the creation of `row` begins: with the insert.
pub open spec fn begin_create<T: Record>(kind: EntityKind, row: T, statement: StatementView) -> (
    SessionView<T>,
    EffectView<T>,
) {
    (
        SessionView {
            kind,
            id: row.key(),
            intent: Intent::Create,
            phase: Phase::AwaitWrite,
            held: None,
        },
        EffectView::Insert { row, statement },
    )
}

/// How an update of the entity `id` of `kind` begins. A payload without
/// fields gives no statement, and the update is a read; any other goes to
/// the store at once.
pub open spec fn begin_update<T>(kind: EntityKind, id: Seq<char>, change: Option<StatementView>)
    -> (SessionView<T>, EffectView<T>) {
    match change {
        Some(statement) => (
            SessionView {
                kind,
                id,
                intent: Intent::Update,
                phase: Phase::AwaitWrite,
                held: None,
            },
            EffectView::Update { id, statement },
        ),
        None => begin_read(kind, id, Intent::Read),
    }
}

impl<T: Record> Session<T> {
    /// Begins a read of the entity `id` of `kind`.
    pub fn read(kind: EntityKind, id: &str) -> (begun: (Session<T>, Effect<T>))
        ensures
            (begun.0@, begun.1@) == begin_read::<T>(kind, id@, Intent::Read),
    {
        (
            Session {
                kind,
                id: id.to_owned(),
                intent: Intent::Read,
                phase: Phase::AwaitCache,
                held: None,
            },
            Effect::CacheGet { key: item_key(kind, id) },
        )
    }

    /// Begins the creation of `row`, which `statement` stores.
    pub fn create(kind: EntityKind, row: T, statement: Statement) -> (begun: (
        Session<T>,
        Effect<T>,
    ))
        ensures
            (begun.0@, begun.1@) == begin_create(kind, row, statement@),
    {
        (
            Session {
                kind,
                id: row.id(),
                intent: Intent::Create,
                phase: Phase::AwaitWrite,
                held: None,
            },
            Effect::Insert { row, statement },
        )
    }

    /// Begins an update of the entity `id` of `kind`. `change` is the
    /// statement for the fields that the payload names, or nothing for a
    /// payload that names none.
    pub fn update(kind: EntityKind, id: &str, change: Option<Statement>) -> (begun: (
        Session<T>,
        Effect<T>,
    ))
        ensures
            (begun.0@, begun.1@) == begin_update::<T>(
                kind,
                id@,
                match change {
                    Some(statement) => Some(statement@),
                    None => None,
                },
            ),
    {
        match change {
            Some(statement) => (
                Session {
                    kind,
                    id: id.to_owned(),
                    intent: Intent::Update,
                    phase: Phase::AwaitWrite,
                    held: None,
                },
                Effect::Update { id: id.to_owned(), statement },
            ),
            None => Self::read(kind, id),
        }
    }

    /// Begins the removal of the entity `id` of `kind`: the entity is read
    /// first, as any read is.
    pub fn delete(kind: EntityKind, id: &str) -> (begun: (Session<T>, Effect<T>))
        ensures
            (begun.0@, begun.1@) == begin_read::<T>(kind, id@, Intent::Delete),
    {
        (
            Session {
                kind,
                id: id.to_owned(),
                intent: Intent::Delete,
                phase: Phase::AwaitCache,
                held: None,
            },
            Effect::CacheGet { key: item_key(kind, id) },
        )
    }

    /// Whether the operation is over.
    pub fn is_finished(&self) -> (over: bool)
        ensures
            over == (self@.phase == Phase::Finished),
    {
        self.phase == Phase::Finished
    }

    /// Ends the session with `result`.
    fn finish(self, result: Result<T, AppError>, fill: Option<(String, i64)>) -> (end: (
        Session<T>,
        Effect<T>,
    ))
        ensures
            (end.0@, end.1@) == finished(
                self@,
                outcome(result),
                match fill {
                    Some((key, ttl)) => Some((key@, ttl)),
                    None => None,
                },
            ),
    {
        (
            Session {
                kind: self.kind,
                id: self.id,
                intent: self.intent,
                phase: Phase::Finished,
                held: None,
            },
            Effect::Finish { result, fill },
        )
    }

    /// Goes on with an entity that was read.
    fn found(self, entity: T, from_store: bool) -> (next: (Session<T>, Effect<T>))
        ensures
            (next.0@, next.1@) == found(self@, entity, from_store),
    {
        if self.intent == Intent::Delete {
            let statement = delete_by_id(self.kind, self.id.as_str());
            let id = self.id.clone();
            (
                Session {
                    kind: self.kind,
                    id: self.id,
                    intent: self.intent,
                    phase: Phase::AwaitRemoval,
                    held: Some(entity),
                },
                Effect::Remove { id, statement },
            )
        } else {
            let fill = if from_store {
                Some((item_key(self.kind, self.id.as_str()), CACHE_TTL))
            } else {
                None
            };
            self.finish(Ok(entity), fill)
        }
    }

    /// Goes on to clear what a write to `entity` has made stale.
    fn clearing(self, entity: T) -> (next: (Session<T>, Effect<T>))
        ensures
            (next.0@, next.1@) == clearing(self@, entity),
    {
        let mutation = match self.intent {
            Intent::Create => Mutation::Create,
            Intent::Delete => Mutation::Delete,
            _ => Mutation::Update,
        };
        let parent = entity.parent_id();
        let targets = match &parent {
            Some(book_id) => invalidation_targets(
                self.kind,
                mutation,
                self.id.as_str(),
                Some(book_id.as_str()),
            ),
            None => invalidation_targets(self.kind, mutation, self.id.as_str(), None),
        };
        (
            Session {
                kind: self.kind,
                id: self.id,
                intent: self.intent,
                phase: Phase::AwaitClear,
                held: Some(entity),
            },
            Effect::Clear { targets },
        )
    }

    /// Takes in what came of the last effect and says what to do next.
    pub fn step(self, reply: Reply<T>) -> (next: (Session<T>, Effect<T>))
        ensures
            (next.0@, next.1@) == advance(self@, reply@),
    {
        let kind = self.kind;
        match self.phase {
            Phase::AwaitCache => match reply {
                Reply::Cached(Some(entity)) => self.found(entity, false),
                Reply::Cached(None) => {
                    let statement = select_by_id(self.kind, self.id.as_str());
                    let id = self.id.clone();
                    (
                        Session {
                            kind: self.kind,
                            id: self.id,
                            intent: self.intent,
                            phase: Phase::AwaitFetch,
                            held: None,
                        },
                        Effect::Select { id, statement },
                    )
                },
                _ => self.finish(Err(AppError::InternalServer), None),
            },
            Phase::AwaitFetch => match reply {
                Reply::Row(Some(entity)) => self.found(entity, true),
                Reply::Row(None) => self.finish(Err(not_found(kind)), None),
                Reply::Fault(fault) => self.finish(Err(fault.into_error()), None),
                _ => self.finish(Err(AppError::InternalServer), None),
            },
            Phase::AwaitWrite => match reply {
                Reply::Row(Some(entity)) => self.clearing(entity),
                Reply::Row(None) => if self.intent == Intent::Update {
                    self.finish(Err(not_found(kind)), None)
                } else {
                    self.finish(Err(AppError::InternalServer), None)
                },
                Reply::Fault(fault) => self.finish(Err(fault.into_error()), None),
                _ => self.finish(Err(AppError::InternalServer), None),
            },
            Phase::AwaitRemoval => {
                let Session { kind, id, intent, phase, held } = self;
                let rest = Session { kind, id, intent, phase, held: None };
                match (reply, held) {
                    (Reply::Removed, Some(entity)) => {
                        assert(clearing(rest@, entity) == clearing(self@, entity));
                        rest.clearing(entity)
                    },
                    (Reply::Fault(fault), _) => rest.finish(Err(fault.into_error()), None),
                    _ => rest.finish(Err(AppError::InternalServer), None),
                }
            },
            Phase::AwaitClear => {
                let Session { kind, id, intent, phase, held } = self;
                let rest = Session { kind, id, intent, phase, held: None };
                match (reply, held) {
                    (Reply::Cleared, Some(entity)) => rest.finish(Ok(entity), None),
                    _ => rest.finish(Err(AppError::InternalServer), None),
                }
            },
            Phase::Finished => self.finish(Err(AppError::InternalServer), None),
        }
    }
}

} // verus!
