//! The prefix sweep: clearing every cache key that begins with a prefix.
//!
//! The cache is scanned in batches. Each scan names a cursor, a glob pattern
//! and a batch size, and answers with the next cursor and some keys; a next
//! cursor of zero ends the scan. Whoever drives the sweep performs each
//! [`SweepAction`] and reports what came back until the sweep is done.

use vstd::prelude::*;
use crate::text::{chars_of, escaped, starts_with};

verus! {

/// Keys asked for in one scan.
pub const SCAN_COUNT: u64 = 100;

/// Whether `c` has a meaning of its own in a glob pattern.
pub open spec fn glob_special(c: char) -> bool {
    c == '*' || c == '?' || c == '[' || c == ']' || c == '\\'
}

/// The glob pattern that matches exactly the keys beginning with `prefix`:
/// the prefix with its special characters escaped, then a star.
pub open spec fn pattern_text(prefix: Seq<char>) -> Seq<char> {
    escaped(prefix, |c: char| glob_special(c)).push('*')
}

/// Those of `keys` that begin with `prefix`, in order.
pub open spec fn under_prefix(keys: Seq<Seq<char>>, prefix: Seq<char>) -> Seq<Seq<char>> {
    keys.filter(|key: Seq<char>| prefix.is_prefix_of(key))
}

/// What the sweep waits for.
#[derive(Clone, Copy, Debug, PartialEq, Eq, Structural)]
pub enum SweepPhase {
    /// The answer to a scan.
    Scanning,
    /// The word that a batch of keys is deleted.
    Deleting,
    /// Nothing: the sweep is over.
    Finished,
}

/// A sweep in progress.
#[derive(Debug, PartialEq, Eq)]
pub struct Sweep {
    prefix: String,
    cursor: u64,
    phase: SweepPhase,
}

/// What the driver does next.
#[derive(Debug, PartialEq, Eq)]
pub enum SweepAction {
    /// Scan from `cursor` for keys that match `pattern`, `count` at a time.
    Scan { cursor: u64, pattern: String, count: u64 },
    /// Delete these keys.
    Delete { keys: Vec<String> },
    /// Stop.
    Done,
}

/// A [`SweepAction`] as plain values.
pub enum SweepActionView {
    Scan { cursor: u64, pattern: Seq<char>, count: u64 },
    Delete { keys: Seq<Seq<char>> },
    Done,
}

impl View for SweepAction {
    type V = SweepActionView;

    open spec fn view(&self) -> SweepActionView {
        match self {
            SweepAction::Scan { cursor, pattern, count } => SweepActionView::Scan {
                cursor: *cursor,
                pattern: pattern@,
                count: *count,
            },
            SweepAction::Delete { keys } => SweepActionView::Delete {
                keys: crate::text::texts(keys@),
            },
            SweepAction::Done => SweepActionView::Done,
        }
    }
}

/// What the driver reports.
#[derive(Debug, PartialEq, Eq)]
pub enum SweepEvent {
    /// A scan answered with the next cursor and a batch of keys.
    Scanned { cursor: u64, keys: Vec<String> },
    /// A batch was deleted.
    Deleted,
    /// The cache did not answer, or answered with an error.
    Failed,
}

/// A [`SweepEvent`] as plain values.
pub enum SweepEventView {
    Scanned { cursor: u64, keys: Seq<Seq<char>> },
    Deleted,
    Failed,
}

impl View for SweepEvent {
    type V = SweepEventView;

    open spec fn view(&self) -> SweepEventView {
        match self {
            SweepEvent::Scanned { cursor, keys } => SweepEventView::Scanned {
                cursor: *cursor,
                keys: crate::text::texts(keys@),
            },
            SweepEvent::Deleted => SweepEventView::Deleted,
            SweepEvent::Failed => SweepEventView::Failed,
        }
    }
}

/// A [`Sweep`] as plain values.
pub struct SweepView {
    pub prefix: Seq<char>,
    pub cursor: u64,
    pub phase: SweepPhase,
}

/// The scan that continues a sweep of `prefix` at `cursor`, or the end of
/// the sweep where the cursor has come back to zero.
pub open spec fn resume(prefix: Seq<char>, cursor: u64) -> (SweepView, SweepActionView) {
    if cursor == 0 {
        (SweepView { prefix, cursor, phase: SweepPhase::Finished }, SweepActionView::Done)
    } else {
        (
            SweepView { prefix, cursor, phase: SweepPhase::Scanning },
            SweepActionView::Scan { cursor, pattern: pattern_text(prefix), count: SCAN_COUNT },
        )
    }
}

/// The sweep's answer to an event.
///
/// A batch of keys is deleted before the scan goes on, and only keys that
/// really begin with the prefix are deleted. A failure ends the sweep, as
/// does an event that the sweep was not waiting for.
pub open spec fn next(sweep: SweepView, event: SweepEventView) -> (SweepView, SweepActionView) {
    let stop = (
        SweepView { prefix: sweep.prefix, cursor: sweep.cursor, phase: SweepPhase::Finished },
        SweepActionView::Done,
    );
    match (sweep.phase, event) {
        (SweepPhase::Scanning, SweepEventView::Scanned { cursor, keys }) => {
            let doomed = under_prefix(keys, sweep.prefix);
            if doomed.len() > 0 {
                (
                    SweepView { prefix: sweep.prefix, cursor, phase: SweepPhase::Deleting },
                    SweepActionView::Delete { keys: doomed },
                )
            } else {
                resume(sweep.prefix, cursor)
            }
        },
        (SweepPhase::Deleting, SweepEventView::Deleted) => resume(sweep.prefix, sweep.cursor),
        _ => stop,
    }
}

impl View for Sweep {
    type V = SweepView;

    closed spec fn view(&self) -> SweepView {
        SweepView { prefix: self.prefix@, cursor: self.cursor, phase: self.phase }
    }
}

/// The glob pattern that matches exactly the keys beginning with `prefix`.
pub fn prefix_pattern(prefix: &str) -> (pattern: String)
    ensures
        pattern@ == pattern_text(prefix@),
{
    let text = chars_of(prefix);
    let mut pattern = String::new();
    let mut i: usize = 0;
    while i < text.len()
        invariant
            i <= text.len(),
            text@ == prefix@,
            pattern@ == escaped(prefix@.take(i as int), |c: char| glob_special(c)),
        decreases text.len() - i,
    {
        let c = text[i];
        if c == '*' || c == '?' || c == '[' || c == ']' || c == '\\' {
            pattern.push('\\');
        }
        pattern.push(c);
        proof {
            let before = prefix@.take(i as int);
            let after = prefix@.take(i + 1);
            assert(after.drop_last() =~= before);
            assert(after.last() == c);
        }
        i += 1;
    }
    assert(prefix@.take(text.len() as int) =~= prefix@);
    pattern.push('*');
    pattern
}

/// Those of `keys` that begin with `prefix`, in order.
pub fn keys_under(keys: &Vec<String>, prefix: &str) -> (kept: Vec<String>)
    ensures
        crate::text::texts(kept@) == under_prefix(crate::text::texts(keys@), prefix@),
{
    let mut kept: Vec<String> = Vec::new();
    let ghost all = crate::text::texts(keys@);
    let ghost keep = |key: Seq<char>| prefix@.is_prefix_of(key);
    let mut i: usize = 0;
    while i < keys.len()
        invariant
            i <= keys.len(),
            all == crate::text::texts(keys@),
            keep == (|key: Seq<char>| prefix@.is_prefix_of(key)),
            crate::text::texts(kept@) == all.take(i as int).filter(keep),
        decreases keys.len() - i,
    {
        let ghost before = all.take(i as int);
        let ghost after = all.take(i + 1);
        proof {
            assert(after.drop_last() =~= before);
            assert(after.last() == keys@[i as int]@);
            reveal(Seq::filter);
        }
        if starts_with(keys[i].as_str(), prefix) {
            kept.push(keys[i].clone());
            assert(crate::text::texts(kept@) =~= before.filter(keep).push(keys@[i as int]@));
        }
        i += 1;
    }
    assert(all.take(keys.len() as int) =~= all);
    kept
}

impl Sweep {
    /// Begins a sweep of every key that starts with `prefix`: the first
    /// action is a scan from cursor zero.
    pub fn start(prefix: &str) -> (begun: (Sweep, SweepAction))
        ensures
            begun.0@ == (SweepView { prefix: prefix@, cursor: 0, phase: SweepPhase::Scanning }),
            begun.1@ == (SweepActionView::Scan {
                cursor: 0,
                pattern: pattern_text(prefix@),
                count: SCAN_COUNT,
            }),
    {
        (
            Sweep { prefix: prefix.to_owned(), cursor: 0, phase: SweepPhase::Scanning },
            SweepAction::Scan { cursor: 0, pattern: prefix_pattern(prefix), count: SCAN_COUNT },
        )
    }

    /// Whether the sweep is over.
    pub fn is_finished(&self) -> (finished: bool)
        ensures
            finished == (self@.phase == SweepPhase::Finished),
    {
        self.phase == SweepPhase::Finished
    }

    /// Takes in what the driver reports and says what to do next.
    pub fn step(self, event: SweepEvent) -> (moved: (Sweep, SweepAction))
        ensures
            (moved.0@, moved.1@) == next(self@, event@),
    {
        let Sweep { prefix, cursor: held, phase } = self;
        match (phase, event) {
            (SweepPhase::Scanning, SweepEvent::Scanned { cursor, keys }) => {
                let doomed = keys_under(&keys, prefix.as_str());
                if doomed.len() > 0 {
                    (
                        Sweep { prefix, cursor, phase: SweepPhase::Deleting },
                        SweepAction::Delete { keys: doomed },
                    )
                } else {
                    Self::resume(prefix, cursor)
                }
            },
            (SweepPhase::Deleting, SweepEvent::Deleted) => Self::resume(prefix, held),
            _ => (Sweep { prefix, cursor: held, phase: SweepPhase::Finished }, SweepAction::Done),
        }
    }

    /// Continues at `cursor`, or ends where the cursor is back at zero.
    fn resume(prefix: String, cursor: u64) -> (moved: (Sweep, SweepAction))
        ensures
            (moved.0@, moved.1@) == resume(prefix@, cursor),
    {
        if cursor == 0 {
            (Sweep { prefix, cursor, phase: SweepPhase::Finished }, SweepAction::Done)
        } else {
            let pattern = prefix_pattern(prefix.as_str());
            (
                Sweep { prefix, cursor, phase: SweepPhase::Scanning },
                SweepAction::Scan { cursor, pattern, count: SCAN_COUNT },
            )
        }
    }
}

/// A sweep deletes nothing but keys that begin with its prefix.
pub proof fn sweep_deletes_only_under_prefix(sweep: SweepView, event: SweepEventView, i: int)
    requires
        next(sweep, event).1 is Delete,
        0 <= i < next(sweep, event).1->Delete_keys.len(),
    ensures
        sweep.prefix.is_prefix_of(next(sweep, event).1->Delete_keys[i]),
{
    let keys = event->Scanned_keys;
    let keep = |key: Seq<char>| sweep.prefix.is_prefix_of(key);
    let doomed = keys.filter(keep);
    keys.lemma_filter_pred(keep, i);
}

/// Of a scanned batch, a sweep deletes every key that begins with its
/// prefix.
pub proof fn sweep_deletes_all_under_prefix(sweep: SweepView, cursor: u64, keys: Seq<Seq<char>>, i: int)
    requires
        sweep.phase == SweepPhase::Scanning,
        0 <= i < keys.len(),
        sweep.prefix.is_prefix_of(keys[i]),
    ensures
        next(sweep, SweepEventView::Scanned { cursor, keys }).1 is Delete,
        next(sweep, SweepEventView::Scanned { cursor, keys }).1->Delete_keys.contains(keys[i]),
{
    let keep = |key: Seq<char>| sweep.prefix.is_prefix_of(key);
    keys.lemma_filter_contains(keep, i);
}

} // verus!
