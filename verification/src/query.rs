//! SQL statements as text with numbered placeholders and the values bound
//! to them.
//!
//! A list request becomes two statements over one predicate: a count and a
//! fetch of one page. The predicate is the conjunction of the conditions
//! that the request's filters give; no filter, no `WHERE`.

use vstd::prelude::*;
use vstd::string::StringExecFns;
use crate::cache::keys::EntityKind;
use crate::models::book_model::{Language, Status};
use crate::models::paging_model::Window;
use crate::models::user_model::Role;
use crate::text::{
    chars_of,
    escaped,
    joined,
    lowercased,
    natural_text,
    push_natural,
    split_on,
    texts,
    trimmed,
};

verus! {

/// A value bound to a placeholder.
#[derive(Clone, Debug, PartialEq, Eq)]
pub enum SqlValue {
    Text(String),
    Integer(i64),
    /// A value for a 32-bit column.
    Small(i32),
    Boolean(bool),
    /// Microseconds since the Unix epoch.
    Timestamp(i64),
    Status(Status),
    Language(Language),
    Role(Role),
    Null,
}

/// A [`SqlValue`] as a plain value.
pub enum SqlValueView {
    Text(Seq<char>),
    Integer(i64),
    Small(i32),
    Boolean(bool),
    Timestamp(i64),
    Status(Status),
    Language(Language),
    Role(Role),
    Null,
}

impl View for SqlValue {
    type V = SqlValueView;

    open spec fn view(&self) -> SqlValueView {
        match self {
            SqlValue::Text(text) => SqlValueView::Text(text@),
            SqlValue::Integer(n) => SqlValueView::Integer(*n),
            SqlValue::Small(n) => SqlValueView::Small(*n),
            SqlValue::Boolean(b) => SqlValueView::Boolean(*b),
            SqlValue::Timestamp(t) => SqlValueView::Timestamp(*t),
            SqlValue::Status(s) => SqlValueView::Status(*s),
            SqlValue::Language(l) => SqlValueView::Language(*l),
            SqlValue::Role(r) => SqlValueView::Role(*r),
            SqlValue::Null => SqlValueView::Null,
        }
    }
}

/// The views of a list of values.
pub open spec fn value_views(values: Seq<SqlValue>) -> Seq<SqlValueView> {
    Seq::new(values.len(), |i: int| values[i]@)
}

/// A statement: its text, and the values for `$1`, `$2`, and so on.
#[derive(Clone, Debug, PartialEq, Eq)]
pub struct Statement {
    pub sql: String,
    pub binds: Vec<SqlValue>,
}

/// A [`Statement`] as plain values.
pub struct StatementView {
    pub sql: Seq<char>,
    pub binds: Seq<SqlValueView>,
}

impl View for Statement {
    type V = StatementView;

    open spec fn view(&self) -> StatementView {
        StatementView { sql: self.sql@, binds: value_views(self.binds@) }
    }
}

/// One condition of a list predicate.
#[derive(Clone, Debug, PartialEq, Eq)]
pub enum Condition {
    /// The title contains this text, whatever the case of either.
    TitleContains(String),
    /// The book has a genre whose lower-cased title is one of these.
    GenreAmong(Vec<String>),
    /// The chapter belongs to this book.
    OfBook(String),
}

/// A [`Condition`] as plain values.
pub enum ConditionView {
    TitleContains(Seq<char>),
    GenreAmong(Seq<Seq<char>>),
    OfBook(Seq<char>),
}

impl View for Condition {
    type V = ConditionView;

    open spec fn view(&self) -> ConditionView {
        match self {
            Condition::TitleContains(text) => ConditionView::TitleContains(text@),
            Condition::GenreAmong(terms) => ConditionView::GenreAmong(texts(terms@)),
            Condition::OfBook(id) => ConditionView::OfBook(id@),
        }
    }
}

/// The views of a list of conditions.
pub open spec fn condition_views(conditions: Seq<Condition>) -> Seq<ConditionView> {
    Seq::new(conditions.len(), |i: int| conditions[i]@)
}

/// The count and the page fetch of one list request.
#[derive(Clone, Debug, PartialEq, Eq)]
pub struct ListQuery {
    pub count: Statement,
    pub fetch: Statement,
}

/// The table that holds the entities of `kind`.
pub open spec fn table_text(kind: EntityKind) -> Seq<char> {
    match kind {
        EntityKind::Book => "\"Book\""@,
        EntityKind::Chapter => "\"Chapter\""@,
        EntityKind::Genre => "\"Genre\""@,
        EntityKind::User => "\"User\""@,
    }
}

/// The columns read of an entity of `kind`.
pub open spec fn columns_text(kind: EntityKind) -> Seq<char> {
    match kind {
        EntityKind::Book =>
            "id, title, author, cover, description, asset, status, language, release_date, popular, created_at, updated_at"@,
        EntityKind::Chapter =>
            "id, title, book_id, description, created_at, updated_at, content, chapter_num"@,
        EntityKind::Genre => "id, title, description, created_at, updated_at"@,
        EntityKind::User => "id, username, email, bio, profile_pic, role"@,
    }
}

/// The order in which entities of `kind` are listed: chapters by their
/// number, everything else newest first.
pub open spec fn ordering_text(kind: EntityKind) -> Seq<char> {
    match kind {
        EntityKind::Chapter => "chapter_num ASC"@,
        _ => "created_at DESC"@,
    }
}

/// The placeholder for the `n`th bound value.
pub open spec fn placeholder_text(n: nat) -> Seq<char> {
    seq!['$'] + natural_text(n)
}

/// `count` placeholders, the first of them for the `first`th bound value.
pub open spec fn placeholders(first: nat, count: nat) -> Seq<Seq<char>> {
    Seq::new(count, |i: int| placeholder_text((first + i) as nat))
}

/// Whether `c` has a meaning of its own in a `LIKE` pattern.
pub open spec fn like_special(c: char) -> bool {
    c == '%' || c == '_' || c == '\\'
}

/// The `LIKE` pattern that matches every text containing `needle`: the
/// needle taken literally, between two wildcards.
pub open spec fn like_pattern_text(needle: Seq<char>) -> Seq<char> {
    seq!['%'] + escaped(needle, |c: char| like_special(c)) + seq!['%']
}

/// A genre name as it is compared: trimmed, then lower-cased.
pub open spec fn genre_term(piece: Seq<char>) -> Seq<char> {
    lowercased(trimmed(piece))
}

/// The non-empty terms among `pieces`, in order.
pub open spec fn terms_of(pieces: Seq<Seq<char>>) -> Seq<Seq<char>>
    decreases pieces.len(),
{
    if pieces.len() == 0 {
        Seq::empty()
    } else if genre_term(pieces.last()).len() == 0 {
        terms_of(pieces.drop_last())
    } else {
        terms_of(pieces.drop_last()).push(genre_term(pieces.last()))
    }
}

/// The genre names in a comma-separated filter: each piece trimmed and
/// lower-cased, empty pieces dropped.
pub open spec fn genre_terms_text(filter: Seq<char>) -> Seq<Seq<char>> {
    terms_of(split_on(filter, ','))
}

/// How many values a condition binds.
pub open spec fn arity(condition: ConditionView) -> nat {
    match condition {
        ConditionView::TitleContains(_) => 1,
        ConditionView::GenreAmong(terms) => terms.len(),
        ConditionView::OfBook(_) => 1,
    }
}

/// How many values a list of conditions binds.
pub open spec fn total_arity(conditions: Seq<ConditionView>) -> nat
    decreases conditions.len(),
{
    if conditions.len() == 0 {
        0
    } else {
        total_arity(conditions.drop_last()) + arity(conditions.last())
    }
}

/// The text of one condition whose first bound value is the `first`th.
pub open spec fn condition_text(condition: ConditionView, first: nat) -> Seq<char> {
    match condition {
        ConditionView::TitleContains(_) => "title ILIKE "@ + placeholder_text(first),
        ConditionView::GenreAmong(terms) =>
            "EXISTS (SELECT 1 FROM \"BookGenre\" bg INNER JOIN \"Genre\" g ON bg.genre_id = g.id WHERE bg.book_id = \"Book\".id AND LOWER(g.title) IN ("@
                + joined(placeholders(first, terms.len()), ", "@) + "))"@,
        ConditionView::OfBook(_) => "book_id = "@ + placeholder_text(first),
    }
}

/// The values that one condition binds.
pub open spec fn condition_binds(condition: ConditionView) -> Seq<SqlValueView> {
    match condition {
        ConditionView::TitleContains(needle) => seq![
            SqlValueView::Text(like_pattern_text(needle)),
        ],
        ConditionView::GenreAmong(terms) => Seq::new(
            terms.len(),
            |i: int| SqlValueView::Text(terms[i]),
        ),
        ConditionView::OfBook(id) => seq![SqlValueView::Text(id)],
    }
}

/// The texts of a list of conditions, numbered from `$1` on.
pub open spec fn condition_texts(conditions: Seq<ConditionView>) -> Seq<Seq<char>>
    decreases conditions.len(),
{
    if conditions.len() == 0 {
        Seq::empty()
    } else {
        condition_texts(conditions.drop_last()).push(
            condition_text(conditions.last(), total_arity(conditions.drop_last()) + 1),
        )
    }
}

/// The values that a list of conditions binds, in order.
pub open spec fn predicate_binds(conditions: Seq<ConditionView>) -> Seq<SqlValueView>
    decreases conditions.len(),
{
    if conditions.len() == 0 {
        Seq::empty()
    } else {
        predicate_binds(conditions.drop_last()) + condition_binds(conditions.last())
    }
}

/// The `WHERE` clause for a list of conditions: empty for none, else their
/// conjunction.
pub open spec fn where_text(conditions: Seq<ConditionView>) -> Seq<char> {
    if conditions.len() == 0 {
        Seq::empty()
    } else {
        "WHERE "@ + joined(condition_texts(conditions), " AND "@)
    }
}

/// The statement that counts the entities of `kind` under a predicate.
pub open spec fn count_statement(kind: EntityKind, conditions: Seq<ConditionView>)
    -> StatementView {
    StatementView {
        sql: "SELECT COUNT(*) FROM "@ + table_text(kind) + " "@ + where_text(conditions),
        binds: predicate_binds(conditions),
    }
}

/// The statement that fetches one window of the entities of `kind` under a
/// predicate, in the kind's order.
pub open spec fn fetch_statement(
    kind: EntityKind,
    conditions: Seq<ConditionView>,
    window: Window,
) -> StatementView {
    StatementView {
        sql: "SELECT "@ + columns_text(kind) + " FROM "@ + table_text(kind) + " "@ + where_text(
            conditions,
        ) + " ORDER BY "@ + ordering_text(kind) + " LIMIT "@ + placeholder_text(
            total_arity(conditions) + 1,
        ) + " OFFSET "@ + placeholder_text(total_arity(conditions) + 2),
        binds: predicate_binds(conditions) + seq![
            SqlValueView::Integer(window.limit),
            SqlValueView::Integer(window.offset),
        ],
    }
}

/// The statement that reads the entity `id` of `kind`.
pub open spec fn select_statement(kind: EntityKind, id: Seq<char>) -> StatementView {
    StatementView {
        sql: "SELECT "@ + columns_text(kind) + " FROM "@ + table_text(kind) + " WHERE id = $1"@,
        binds: seq![SqlValueView::Text(id)],
    }
}

/// The statement that reads every entity of `kind`, in the kind's order.
pub open spec fn select_all_statement(kind: EntityKind) -> StatementView {
    StatementView {
        sql: "SELECT "@ + columns_text(kind) + " FROM "@ + table_text(kind) + " ORDER BY "@
            + ordering_text(kind),
        binds: Seq::empty(),
    }
}

/// The statement that removes the entity `id` of `kind`.
pub open spec fn delete_statement(kind: EntityKind, id: Seq<char>) -> StatementView {
    StatementView {
        sql: "DELETE FROM "@ + table_text(kind) + " WHERE id = $1"@,
        binds: seq![SqlValueView::Text(id)],
    }
}

/// The texts `column = $n` for the columns of an update, numbered from
/// `$1` on.
pub open spec fn assignment_texts(columns: Seq<Seq<char>>) -> Seq<Seq<char>> {
    Seq::new(columns.len(), |i: int| columns[i] + " = "@ + placeholder_text((i + 1) as nat))
}

/// The statement that sets `columns` of the entity `id` of `kind` to
/// `values`, stamps the change with `now`, and returns the changed row.
pub open spec fn update_statement(
    kind: EntityKind,
    columns: Seq<Seq<char>>,
    values: Seq<SqlValueView>,
    now: i64,
    id: Seq<char>,
) -> StatementView {
    StatementView {
        sql: "UPDATE "@ + table_text(kind) + " SET "@ + joined(
            assignment_texts(columns.push("updated_at"@)),
            ", "@,
        ) + " WHERE id = "@ + placeholder_text(columns.len() + 2) + " RETURNING *"@,
        binds: values.push(SqlValueView::Timestamp(now)).push(SqlValueView::Text(id)),
    }
}

/// The statement that stores a new row of `kind` with `values` in
/// `columns`, and returns the stored row.
pub open spec fn insert_statement(
    kind: EntityKind,
    columns: Seq<Seq<char>>,
    values: Seq<SqlValueView>,
) -> StatementView {
    StatementView {
        sql: "INSERT INTO "@ + table_text(kind) + " ("@ + joined(columns, ", "@) + ") VALUES ("@
            + joined(placeholders(1, columns.len()), ", "@) + ") RETURNING "@ + columns_text(
            kind,
        ),
        binds: values,
    }
}

impl EntityKind {
    /// The table that holds the entities of this kind.
    pub fn table(&self) -> (name: &'static str)
        ensures
            name@ == table_text(*self),
    {
        match self {
            EntityKind::Book => "\"Book\"",
            EntityKind::Chapter => "\"Chapter\"",
            EntityKind::Genre => "\"Genre\"",
            EntityKind::User => "\"User\"",
        }
    }

    /// The columns read of an entity of this kind.
    pub fn columns(&self) -> (list: &'static str)
        ensures
            list@ == columns_text(*self),
    {
        match self {
            EntityKind::Book =>
                "id, title, author, cover, description, asset, status, language, release_date, popular, created_at, updated_at",
            EntityKind::Chapter =>
                "id, title, book_id, description, created_at, updated_at, content, chapter_num",
            EntityKind::Genre => "id, title, description, created_at, updated_at",
            EntityKind::User => "id, username, email, bio, profile_pic, role",
        }
    }

    /// The order in which entities of this kind are listed.
    pub fn ordering(&self) -> (order: &'static str)
        ensures
            order@ == ordering_text(*self),
    {
        match self {
            EntityKind::Chapter => "chapter_num ASC",
            _ => "created_at DESC",
        }
    }
}

/// The placeholder for the `n`th bound value.
pub fn placeholder(n: u128) -> (text: String)
    ensures
        text@ == placeholder_text(n as nat),
{
    let mut text = String::new();
    text.push('$');
    push_natural(&mut text, n);
    text
}

/// `count` placeholders from the `first`th on, separated by commas.
fn placeholder_list(first: u128, count: usize) -> (text: String)
    requires
        first + count <= u128::MAX,
    ensures
        text@ == joined(placeholders(first as nat, count as nat), ", "@),
{
    let mut text = String::new();
    let mut i: usize = 0;
    while i < count
        invariant
            i <= count,
            first + count <= u128::MAX,
            text@ == joined(placeholders(first as nat, i as nat), ", "@),
        decreases count - i,
    {
        let ghost before = placeholders(first as nat, i as nat);
        let ghost after = placeholders(first as nat, (i + 1) as nat);
        if i > 0 {
            text.append(", ");
        }
        let one = placeholder(first + i as u128);
        text.append(one.as_str());
        proof {
            assert(after.drop_last() =~= before);
            assert(after.last() == placeholder_text((first + i) as nat));
            if i > 0 {
                assert(text@ =~= joined(before, ", "@) + ", "@ + after.last());
            } else {
                assert(text@ =~= after.last());
                assert(after[0] == after.last());
            }
        }
        i += 1;
    }
    text
}

/// The `LIKE` pattern that matches every text containing `needle`.
pub fn like_pattern(needle: &str) -> (pattern: String)
    ensures
        pattern@ == like_pattern_text(needle@),
{
    let text = chars_of(needle);
    let mut pattern = String::new();
    let mut i: usize = 0;
    while i < text.len()
        invariant
            i <= text.len(),
            text@ == needle@,
            pattern@ == escaped(needle@.take(i as int), |c: char| like_special(c)),
        decreases text.len() - i,
    {
        let c = text[i];
        if c == '%' || c == '_' || c == '\\' {
            pattern.push('\\');
        }
        pattern.push(c);
        proof {
            let before = needle@.take(i as int);
            let after = needle@.take(i + 1);
            assert(after.drop_last() =~= before);
            assert(after.last() == c);
        }
        i += 1;
    }
    assert(needle@.take(text.len() as int) =~= needle@);
    let mut whole = String::new();
    whole.push('%');
    whole.append(pattern.as_str());
    whole.push('%');
    assert(whole@ =~= like_pattern_text(needle@));
    whole
}

/// Adds the term of `piece` to `terms` unless it is empty.
fn push_term(terms: &mut Vec<String>, piece: &String)
    ensures
        texts(final(terms)@) == (if genre_term(piece@).len() == 0 {
            texts(old(terms)@)
        } else {
            texts(old(terms)@).push(genre_term(piece@))
        }),
{
    let term = piece.as_str().trim().to_lowercase();
    if term.as_str().unicode_len() > 0 {
        terms.push(term);
        assert(texts(terms@) =~= texts(old(terms)@).push(genre_term(piece@)));
    }
}

/// The genre names in a comma-separated filter: each piece trimmed and
/// lower-cased, empty pieces dropped.
pub fn genre_terms(filter: &str) -> (terms: Vec<String>)
    ensures
        texts(terms@) == genre_terms_text(filter@),
{
    let text = chars_of(filter);
    let mut terms: Vec<String> = Vec::new();
    let mut piece = String::new();
    let mut i: usize = 0;
    assert(split_on(filter@.take(0), ',').drop_last() =~= Seq::<Seq<char>>::empty());
    assert(texts(terms@) =~= terms_of(split_on(filter@.take(0), ',').drop_last()));
    while i < text.len()
        invariant
            i <= text.len(),
            text@ == filter@,
            split_on(filter@.take(i as int), ',').len() > 0,
            piece@ == split_on(filter@.take(i as int), ',').last(),
            texts(terms@) == terms_of(split_on(filter@.take(i as int), ',').drop_last()),
        decreases text.len() - i,
    {
        let c = text[i];
        proof {
            let before = filter@.take(i as int);
            let after = filter@.take(i + 1);
            assert(after.drop_last() =~= before);
            assert(after.last() == c);
            let cut = split_on(before, ',');
            if c == ',' {
                assert(split_on(after, ',') == cut.push(Seq::<char>::empty()));
                assert(split_on(after, ',').drop_last() =~= cut);
                assert(cut.drop_last().push(cut.last()) =~= cut);
            } else {
                assert(split_on(after, ',') == cut.drop_last().push(cut.last().push(c)));
                assert(split_on(after, ',').drop_last() =~= cut.drop_last());
            }
        }
        if c == ',' {
            push_term(&mut terms, &piece);
            piece = String::new();
        } else {
            piece.push(c);
        }
        i += 1;
    }
    assert(filter@.take(text.len() as int) =~= filter@);
    push_term(&mut terms, &piece);
    terms
}

/// The text of one condition whose first bound value is the `first`th.
fn condition_sql(condition: &Condition, first: u128) -> (text: String)
    requires
        first + arity(condition@) <= u128::MAX,
    ensures
        text@ == condition_text(condition@, first as nat),
{
    match condition {
        Condition::TitleContains(_) => String::from_str("title ILIKE ").concat(
            placeholder(first).as_str(),
        ),
        Condition::GenreAmong(terms) => {
            assert(texts(terms@).len() == terms@.len());
            String::from_str(
                "EXISTS (SELECT 1 FROM \"BookGenre\" bg INNER JOIN \"Genre\" g ON bg.genre_id = g.id WHERE bg.book_id = \"Book\".id AND LOWER(g.title) IN (",
            ).concat(placeholder_list(first, terms.len()).as_str()).concat("))")
        },
        Condition::OfBook(_) => String::from_str("book_id = ").concat(placeholder(first).as_str()),
    }
}

/// Appends the values that `condition` binds.
fn push_condition_binds(binds: &mut Vec<SqlValue>, condition: &Condition)
    ensures
        value_views(final(binds)@) == value_views(old(binds)@) + condition_binds(condition@),
        final(binds)@.len() == old(binds)@.len() + arity(condition@),
{
    match condition {
        Condition::TitleContains(needle) => {
            binds.push(SqlValue::Text(like_pattern(needle.as_str())));
            assert(value_views(binds@) =~= value_views(old(binds)@) + condition_binds(
                condition@,
            ));
        },
        Condition::GenreAmong(terms) => {
            let mut i: usize = 0;
            assert(texts(terms@).len() == terms@.len());
            while i < terms.len()
                invariant
                    i <= terms.len(),
                    condition@ == ConditionView::GenreAmong(texts(terms@)),
                    binds@.len() == old(binds)@.len() + i,
                    value_views(binds@) == value_views(old(binds)@) + condition_binds(
                        condition@,
                    ).take(i as int),
                decreases terms.len() - i,
            {
                let ghost so_far = value_views(binds@);
                binds.push(SqlValue::Text(terms[i].clone()));
                proof {
                    let all = condition_binds(condition@);
                    assert(texts(terms@)[i as int] == terms@[i as int]@);
                    assert(all[i as int] == SqlValueView::Text(terms@[i as int]@));
                    assert(value_views(binds@) =~= so_far.push(all[i as int]));
                    assert(all.take(i + 1) =~= all.take(i as int).push(all[i as int]));
                    assert(so_far.push(all[i as int]) =~= value_views(old(binds)@) + all.take(
                        i + 1,
                    ));
                }
                i += 1;
            }
            assert(condition_binds(condition@).take(terms.len() as int) =~= condition_binds(
                condition@,
            ));
        },
        Condition::OfBook(id) => {
            binds.push(SqlValue::Text(id.clone()));
            assert(value_views(binds@) =~= value_views(old(binds)@) + condition_binds(
                condition@,
            ));
        },
    }
}

/// The values that `conditions` bind, in order.
pub fn bind_predicate(conditions: &Vec<Condition>) -> (binds: Vec<SqlValue>)
    ensures
        value_views(binds@) == predicate_binds(condition_views(conditions@)),
        binds@.len() == total_arity(condition_views(conditions@)),
{
    let ghost all = condition_views(conditions@);
    let mut binds: Vec<SqlValue> = Vec::new();
    let mut i: usize = 0;
    assert(value_views(binds@) =~= predicate_binds(all.take(0)));
    while i < conditions.len()
        invariant
            i <= conditions.len(),
            all == condition_views(conditions@),
            value_views(binds@) == predicate_binds(all.take(i as int)),
            binds@.len() == total_arity(all.take(i as int)),
        decreases conditions.len() - i,
    {
        proof {
            assert(all.take(i + 1).drop_last() =~= all.take(i as int));
            assert(all.take(i + 1).last() == conditions@[i as int]@);
        }
        push_condition_binds(&mut binds, &conditions[i]);
        i += 1;
    }
    assert(all.take(conditions.len() as int) =~= all);
    binds
}

/// The `WHERE` clause for `conditions`.
pub fn where_clause(conditions: &Vec<Condition>) -> (clause: String)
    ensures
        clause@ == where_text(condition_views(conditions@)),
{
    let ghost all = condition_views(conditions@);
    let mut parts: Vec<String> = Vec::new();
    let mut bound: u128 = 0;
    let mut i: usize = 0;
    assert(texts(parts@) =~= condition_texts(all.take(0)));
    while i < conditions.len()
        invariant
            i <= conditions.len(),
            all == condition_views(conditions@),
            texts(parts@) == condition_texts(all.take(i as int)),
            bound == total_arity(all.take(i as int)),
            bound <= i * usize::MAX,
        decreases conditions.len() - i,
    {
        proof {
            assert(all.take(i + 1).drop_last() =~= all.take(i as int));
            assert(all.take(i + 1).last() == conditions@[i as int]@);
            assert(i * usize::MAX <= usize::MAX * usize::MAX) by (nonlinear_arith)
                requires
                    i <= usize::MAX,
            ;
            assert((i + 1) * usize::MAX == i * usize::MAX + usize::MAX) by (nonlinear_arith);
        }
        let width: usize = match &conditions[i] {
            Condition::GenreAmong(terms) => {
                assert(texts(terms@).len() == terms@.len());
                terms.len()
            },
            _ => 1,
        };
        let part = condition_sql(&conditions[i], bound + 1);
        parts.push(part);
        bound = bound + width as u128;
        i += 1;
        assert(texts(parts@) =~= condition_texts(all.take(i as int)));
    }
    assert(all.take(conditions.len() as int) =~= all);
    if parts.len() == 0 {
        String::new()
    } else {
        String::from_str("WHERE ").concat(crate::text::join(&parts, " AND ").as_str())
    }
}

/// The statement that counts the entities of `kind` under `conditions`.
pub fn count_rows(kind: EntityKind, conditions: &Vec<Condition>) -> (statement: Statement)
    ensures
        statement@ == count_statement(kind, condition_views(conditions@)),
{
    let clause = where_clause(conditions);
    let binds = bind_predicate(conditions);
    let sql = String::from_str("SELECT COUNT(*) FROM ").concat(kind.table()).concat(" ").concat(
        clause.as_str(),
    );
    Statement { sql, binds }
}

/// The statement that fetches one window of the entities of `kind` under
/// `conditions`.
pub fn fetch_page(kind: EntityKind, conditions: &Vec<Condition>, window: Window) -> (statement:
    Statement)
    ensures
        statement@ == fetch_statement(kind, condition_views(conditions@), window),
{
    let clause = where_clause(conditions);
    let mut binds = bind_predicate(conditions);
    let bound = binds.len() as u128;
    binds.push(SqlValue::Integer(window.limit));
    binds.push(SqlValue::Integer(window.offset));
    let sql = String::from_str("SELECT ").concat(kind.columns()).concat(" FROM ").concat(
        kind.table(),
    ).concat(" ").concat(clause.as_str()).concat(" ORDER BY ").concat(kind.ordering()).concat(
        " LIMIT ",
    ).concat(placeholder(bound + 1).as_str()).concat(" OFFSET ").concat(
        placeholder(bound + 2).as_str(),
    );
    assert(value_views(binds@) =~= predicate_binds(condition_views(conditions@)) + seq![
        SqlValueView::Integer(window.limit),
        SqlValueView::Integer(window.offset),
    ]);
    Statement { sql, binds }
}

/// The count and the page fetch for the entities of `kind` under
/// `conditions`.
pub fn list_query(kind: EntityKind, conditions: &Vec<Condition>, window: Window) -> (query:
    ListQuery)
    ensures
        query.count@ == count_statement(kind, condition_views(conditions@)),
        query.fetch@ == fetch_statement(kind, condition_views(conditions@), window),
{
    ListQuery { count: count_rows(kind, conditions), fetch: fetch_page(kind, conditions, window) }
}

/// The statement that reads the entity `id` of `kind`.
pub fn select_by_id(kind: EntityKind, id: &str) -> (statement: Statement)
    ensures
        statement@ == select_statement(kind, id@),
{
    let sql = String::from_str("SELECT ").concat(kind.columns()).concat(" FROM ").concat(
        kind.table(),
    ).concat(" WHERE id = $1");
    let mut binds: Vec<SqlValue> = Vec::new();
    binds.push(SqlValue::Text(id.to_owned()));
    assert(value_views(binds@) =~= seq![SqlValueView::Text(id@)]);
    Statement { sql, binds }
}

/// The statement that reads every entity of `kind`, in the kind's order.
pub fn select_all(kind: EntityKind) -> (statement: Statement)
    ensures
        statement@ == select_all_statement(kind),
{
    let sql = String::from_str("SELECT ").concat(kind.columns()).concat(" FROM ").concat(
        kind.table(),
    ).concat(" ORDER BY ").concat(kind.ordering());
    let binds: Vec<SqlValue> = Vec::new();
    assert(value_views(binds@) =~= Seq::<SqlValueView>::empty());
    Statement { sql, binds }
}

/// The statement that removes the entity `id` of `kind`.
pub fn delete_by_id(kind: EntityKind, id: &str) -> (statement: Statement)
    ensures
        statement@ == delete_statement(kind, id@),
{
    let sql = String::from_str("DELETE FROM ").concat(kind.table()).concat(" WHERE id = $1");
    let mut binds: Vec<SqlValue> = Vec::new();
    binds.push(SqlValue::Text(id.to_owned()));
    assert(value_views(binds@) =~= seq![SqlValueView::Text(id@)]);
    Statement { sql, binds }
}

/// The texts `column = $n` for `columns`, numbered from `$1` on.
fn assignments(columns: &Vec<String>) -> (parts: Vec<String>)
    ensures
        texts(parts@) == assignment_texts(texts(columns@)),
{
    let mut parts: Vec<String> = Vec::new();
    let mut i: usize = 0;
    while i < columns.len()
        invariant
            i <= columns.len(),
            parts@.len() == i,
            forall|k: int|
                0 <= k < i ==> (#[trigger] parts@[k])@ == columns@[k]@ + " = "@
                    + placeholder_text((k + 1) as nat),
        decreases columns.len() - i,
    {
        let part = columns[i].clone().concat(" = ").concat(placeholder(i as u128 + 1).as_str());
        parts.push(part);
        i += 1;
    }
    assert(texts(parts@) =~= assignment_texts(texts(columns@)));
    parts
}

/// The statement that sets `columns` of the entity `id` of `kind` to
/// `values`, stamps the change with `now`, and returns the changed row.
pub fn update_by_id(
    kind: EntityKind,
    columns: Vec<String>,
    values: Vec<SqlValue>,
    now: i64,
    id: &str,
) -> (statement: Statement)
    ensures
        statement@ == update_statement(kind, texts(columns@), value_views(values@), now, id@),
{
    let ghost named = texts(columns@);
    let count = columns.len() as u128;
    let mut columns = columns;
    columns.push(String::from_str("updated_at"));
    assert(texts(columns@) =~= named.push("updated_at"@));
    let sets = crate::text::join(&assignments(&columns), ", ");
    let sql = String::from_str("UPDATE ").concat(kind.table()).concat(" SET ").concat(
        sets.as_str(),
    ).concat(" WHERE id = ").concat(placeholder(count + 2).as_str()).concat(" RETURNING *");
    let ghost given = value_views(values@);
    let mut binds = values;
    binds.push(SqlValue::Timestamp(now));
    binds.push(SqlValue::Text(id.to_owned()));
    assert(value_views(binds@) =~= given.push(SqlValueView::Timestamp(now)).push(
        SqlValueView::Text(id@),
    ));
    Statement { sql, binds }
}

/// The statement that stores a new row of `kind` with `values` in `columns`,
/// and returns the stored row.
pub fn insert_row(kind: EntityKind, columns: &Vec<String>, values: Vec<SqlValue>) -> (statement:
    Statement)
    ensures
        statement@ == insert_statement(kind, texts(columns@), value_views(values@)),
{
    assert(texts(columns@).len() == columns@.len());
    let sql = String::from_str("INSERT INTO ").concat(kind.table()).concat(" (").concat(
        crate::text::join(columns, ", ").as_str(),
    ).concat(") VALUES (").concat(placeholder_list(1, columns.len()).as_str()).concat(
        ") RETURNING ",
    ).concat(kind.columns());
    Statement { sql, binds: values }
}

/// The columns of a write and the values for them, side by side.
#[derive(Debug, PartialEq, Eq)]
pub struct ChangeSet {
    pub columns: Vec<String>,
    pub values: Vec<SqlValue>,
}

/// The column, if a value is present for it.
pub open spec fn named(present: bool, column: Seq<char>) -> Seq<Seq<char>> {
    if present {
        seq![column]
    } else {
        Seq::empty()
    }
}

/// The value, if one is present.
pub open spec fn given(value: Option<SqlValueView>) -> Seq<SqlValueView> {
    match value {
        Some(v) => seq![v],
        None => Seq::empty(),
    }
}

/// A column list that is extended by a column other than `column`, or by
/// none, still lacks `column` if it lacked it before.
pub proof fn named_leaves_out(
    before: Seq<Seq<char>>,
    present: bool,
    other: Seq<char>,
    column: Seq<char>,
)
    requires
        !before.contains(column),
        other != column,
    ensures
        !(before + named(present, other)).contains(column),
{
    let after = before + named(present, other);
    if after.contains(column) {
        let i = choose|i: int| 0 <= i < after.len() && after[i] == column;
        if i < before.len() {
            assert(before[i] == column);
        } else {
            assert(named(present, other)[i - before.len()] == column);
        }
    }
}

/// The text to bind for an optional text field.
pub open spec fn text_given(field: Option<String>) -> Seq<SqlValueView> {
    given(
        match field {
            Some(text) => Some(SqlValueView::Text(text@)),
            None => None,
        },
    )
}

/// The view of an optional value.
pub open spec fn opt_value(value: Option<SqlValue>) -> Option<SqlValueView> {
    match value {
        Some(v) => Some(v@),
        None => None,
    }
}

impl ChangeSet {
    /// No columns, no values.
    pub fn new() -> (changes: ChangeSet)
        ensures
            texts(changes.columns@) == Seq::<Seq<char>>::empty(),
            value_views(changes.values@) == Seq::<SqlValueView>::empty(),
    {
        let changes = ChangeSet { columns: Vec::new(), values: Vec::new() };
        assert(texts(changes.columns@) =~= Seq::<Seq<char>>::empty());
        assert(value_views(changes.values@) =~= Seq::<SqlValueView>::empty());
        changes
    }

    /// Adds `column` with `value`.
    pub fn set(&mut self, column: &str, value: SqlValue)
        ensures
            texts(final(self).columns@) == texts(old(self).columns@).push(column@),
            value_views(final(self).values@) == value_views(old(self).values@).push(value@),
    {
        self.columns.push(column.to_owned());
        self.values.push(value);
        assert(texts(self.columns@) =~= texts(old(self).columns@).push(column@));
        assert(value_views(self.values@) =~= value_views(old(self).values@).push(value@));
    }

    /// Adds `column` with `value` where there is a value.
    pub fn set_if(&mut self, column: &str, value: Option<SqlValue>)
        ensures
            texts(final(self).columns@) == texts(old(self).columns@) + named(
                value is Some,
                column@,
            ),
            value_views(final(self).values@) == value_views(old(self).values@) + given(
                opt_value(value),
            ),
    {
        match value {
            Some(v) => {
                self.set(column, v);
                assert(texts(self.columns@) =~= texts(old(self).columns@) + seq![column@]);
                assert(value_views(self.values@) =~= value_views(old(self).values@) + seq![v@]);
            },
            None => {
                assert(texts(self.columns@) =~= texts(old(self).columns@) + Seq::<
                    Seq<char>,
                >::empty());
                assert(value_views(self.values@) =~= value_views(old(self).values@) + Seq::<
                    SqlValueView,
                >::empty());
            },
        }
    }
}

/// A text to bind, if there is one.
pub fn text_value(text: &Option<String>) -> (value: Option<SqlValue>)
    ensures
        opt_value(value) == match *text {
            Some(t) => Some(SqlValueView::Text(t@)),
            None => None,
        },
{
    match text {
        Some(t) => Some(SqlValue::Text(t.clone())),
        None => None,
    }
}

/// A text to bind where there is one, the null value where there is none.
pub fn text_or_null(text: &Option<String>) -> (value: SqlValue)
    ensures
        value@ == match *text {
            Some(t) => SqlValueView::Text(t@),
            None => SqlValueView::Null,
        },
{
    match text {
        Some(t) => SqlValue::Text(t.clone()),
        None => SqlValue::Null,
    }
}

/// The count and the fetch of a list request share one predicate: the same
/// `WHERE` clause, and the same values bound in the same places.
pub proof fn count_and_fetch_share_the_predicate(
    kind: EntityKind,
    conditions: Seq<ConditionView>,
    window: Window,
)
    ensures
        count_statement(kind, conditions).binds == fetch_statement(
            kind,
            conditions,
            window,
        ).binds.take(count_statement(kind, conditions).binds.len() as int),
        count_statement(kind, conditions).sql == "SELECT COUNT(*) FROM "@ + table_text(kind) + " "@
            + where_text(conditions),
        fetch_statement(kind, conditions, window).sql == "SELECT "@ + columns_text(kind)
            + " FROM "@ + table_text(kind) + " "@ + where_text(conditions) + " ORDER BY "@
            + ordering_text(kind) + " LIMIT "@ + placeholder_text(total_arity(conditions) + 1)
            + " OFFSET "@ + placeholder_text(total_arity(conditions) + 2),
{
    let shared = predicate_binds(conditions);
    assert((shared + seq![
        SqlValueView::Integer(window.limit),
        SqlValueView::Integer(window.offset),
    ]).take(shared.len() as int) =~= shared);
}

} // verus!
