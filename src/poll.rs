//! Field-ordered polling: the resume position, the idle backoff and the laws
//! that make consecutive polls neither skip nor repeat documents.

use vstd::prelude::*;
use crate::key::{after_bound, key_lt, lemma_pos_lt_order, pos_lt, FieldPosition, Key, KeyValue, SourceDoc};
use crate::mapping::text_equals;
use crate::sync::start_position;

verus! {

/// Delay before the first poll that follows an empty one, in milliseconds.
pub const IDLE_FLOOR_MS: u64 = 10_000;

/// Largest delay between two empty polls, in milliseconds.
pub const IDLE_CEILING_MS: u64 = 60_000;

pub open spec fn pow2(n: nat) -> nat
    decreases n,
{
    if n == 0 {
        1
    } else {
        2 * pow2((n - 1) as nat)
    }
}

pub open spec fn min_int(a: int, b: int) -> int {
    if a <= b {
        a
    } else {
        b
    }
}

/// The delay after `n` consecutive empty polls: `min(floor * 2^n, ceiling)`.
pub open spec fn backoff_delay(floor: int, ceiling: int, n: nat) -> int {
    min_int(floor * pow2(n), ceiling)
}

/// One step of the idle backoff: the delay doubles up to the ceiling.
pub open spec fn idle_step(delay: int, ceiling: int) -> int {
    min_int(2 * delay, ceiling)
}

/// The idle backoff starts at its floor, and each empty poll doubles it up to
/// the ceiling, so that after `n` empty polls it is `min(floor * 2^n, ceiling)`.
pub proof fn lemma_idle_backoff(floor: int, ceiling: int, n: nat)
    requires
        0 <= floor <= ceiling,
    ensures
        backoff_delay(floor, ceiling, 0) == floor,
        idle_step(backoff_delay(floor, ceiling, n), ceiling) == backoff_delay(floor, ceiling, n + 1),
{
    assert(pow2(0) == 1);
    assert(floor * pow2(0) == floor);
    assert(pow2(n + 1) == 2 * pow2(n));
    assert(floor * pow2(n + 1) == 2 * (floor * pow2(n))) by (nonlinear_arith)
        requires
            pow2(n + 1) == 2 * pow2(n),
    ;
}

/// Doubles an idle delay, up to `ceiling`.
pub fn next_delay(delay: u64, ceiling: u64) -> (r: u64)
    requires
        delay <= ceiling,
    ensures
        r == idle_step(delay as int, ceiling as int),
{
    if ceiling - delay <= delay {
        ceiling
    } else {
        delay * 2
    }
}

/// What the polling loop does after a poll.
pub enum PollAction {
    /// Nothing new: sleep for this many milliseconds, then poll again.
    Sleep(u64),
    /// Write the page to the target, then poll again at once.
    Flush,
}

/// The bound that a stored position sets.
pub open spec fn bound_of(position: Option<FieldPosition>) -> Option<(Key, Key)> {
    match position {
        Some(p) => Some(p@),
        None => None,
    }
}

/// The lower bound of a poll, in the shape the query states it.
pub enum PollFilter {
    /// No bound: every document.
    All,
    /// Documents whose field value is greater than this one.
    ValueAfter(KeyValue),
    /// Documents after this position: a greater field value, or an equal
    /// one and a greater identity.
    PositionAfter(FieldPosition),
}

/// Whether a filter admits a document with the given field value and
/// identity.
pub open spec fn filter_admits(f: PollFilter, value: Key, id: Key) -> bool {
    match f {
        PollFilter::All => true,
        PollFilter::ValueAfter(v) => key_lt(v@, value),
        PollFilter::PositionAfter(p) => after_bound(p@, value, id, false),
    }
}

/// State of field-ordered polling between two polls.
pub struct PollLoop {
    /// Whether the polling field is the identity field itself.
    pub by_id: bool,
    /// Exclusive lower bound of the next poll; `None` polls from the start.
    pub position: Option<FieldPosition>,
    pub delay: u64,
    pub floor: u64,
    pub ceiling: u64,
    /// Number of consecutive empty polls.
    pub idle: Ghost<nat>,
}

impl PollLoop {
    pub open spec fn wf(&self) -> bool {
        &&& self.floor <= self.ceiling
        &&& self.delay == backoff_delay(self.floor as int, self.ceiling as int, self.idle@)
        &&& self.by_id ==> match self.position {
            Some(p) => p.value@ == p.id@,
            None => true,
        }
    }

    /// A polling loop resumed at `position`, or from the start.
    pub fn new(by_id: bool, position: Option<FieldPosition>, floor: u64, ceiling: u64) -> (r: PollLoop)
        requires
            floor <= ceiling,
            by_id ==> match position {
                Some(p) => p.value@ == p.id@,
                None => true,
            },
        ensures
            r.wf(),
            r.by_id == by_id,
            r.position == position,
            r.delay == floor,
            r.idle@ == 0,
            r.floor == floor,
            r.ceiling == ceiling,
    {
        proof {
            lemma_idle_backoff(floor as int, ceiling as int, 0);
        }
        PollLoop { by_id, position, delay: floor, floor, ceiling, idle: Ghost(0) }
    }

    /// Polling on `field`, resumed at a stored checkpoint or from the start,
    /// with the default idle backoff. Polling on `_id` compares identities
    /// alone, and resumes at the stored value.
    pub fn for_field(field: &str, checkpoint: Option<FieldPosition>) -> (r: PollLoop)
        ensures
            r.wf(),
            r.by_id == (field@ == "_id"@),
            r.delay == IDLE_FLOOR_MS,
            r.floor == IDLE_FLOOR_MS,
            r.ceiling == IDLE_CEILING_MS,
            r.idle@ == 0,
            match checkpoint {
                None => r.position is None,
                Some(c) => r.position is Some && (if r.by_id {
                    r.position->0.value@ == c.value@ && r.position->0.id@ == c.value@
                } else {
                    r.position->0@ == c@
                }),
            },
    {
        let by_id = text_equals(field, "_id");
        let position = start_position(checkpoint, by_id);
        PollLoop::new(by_id, position, IDLE_FLOOR_MS, IDLE_CEILING_MS)
    }

    /// The filter of the next poll: it admits exactly the documents after
    /// the current position.
    pub fn filter(&self) -> (r: PollFilter)
        requires
            self.wf(),
        ensures
            forall|value: Key, id: Key|
                self.by_id ==> value == id ==> (filter_admits(r, value, id) == admitted(
                    bound_of(self.position),
                    (value, id),
                    true,
                )),
            forall|value: Key, id: Key|
                !self.by_id ==> (filter_admits(r, value, id) == admitted(
                    bound_of(self.position),
                    (value, id),
                    false,
                )),
    {
        match &self.position {
            None => PollFilter::All,
            Some(p) => {
                if self.by_id {
                    PollFilter::ValueAfter(p.value.duplicate())
                } else {
                    PollFilter::PositionAfter(p.duplicate())
                }
            },
        }
    }

    /// Decides what follows a poll that returned `page_len` documents: an
    /// empty poll sleeps for the current delay and doubles it up to the
    /// ceiling; a non-empty one is flushed and resets the delay to its floor.
    pub fn on_page(&mut self, page_len: usize) -> (r: PollAction)
        requires
            old(self).wf(),
        ensures
            final(self).wf(),
            final(self).position == old(self).position,
            final(self).by_id == old(self).by_id,
            final(self).floor == old(self).floor,
            final(self).ceiling == old(self).ceiling,
            page_len == 0 ==> r == PollAction::Sleep(old(self).delay)
                && final(self).delay == idle_step(old(self).delay as int, old(self).ceiling as int)
                && final(self).idle@ == old(self).idle@ + 1,
            page_len > 0 ==> r == PollAction::Flush && final(self).delay == old(self).floor
                && final(self).idle@ == 0,
    {
        if page_len == 0 {
            let slept = self.delay;
            proof {
                lemma_idle_backoff(self.floor as int, self.ceiling as int, self.idle@);
                assert(self.delay <= self.ceiling);
            }
            self.delay = next_delay(self.delay, self.ceiling);
            self.idle = Ghost(self.idle@ + 1);
            PollAction::Sleep(slept)
        } else {
            proof {
                lemma_idle_backoff(self.floor as int, self.ceiling as int, 0);
            }
            self.delay = self.floor;
            self.idle = Ghost(0);
            PollAction::Flush
        }
    }

    /// Records the outcome of a flush: the position moves to `last` only when
    /// the write allows the checkpoint to advance.
    pub fn on_flushed(&mut self, last: Option<FieldPosition>, advanced: bool)
        requires
            old(self).wf(),
            old(self).by_id ==> match last {
                Some(p) => p.value@ == p.id@,
                None => true,
            },
        ensures
            final(self).wf(),
            final(self).position == (if advanced && last.is_some() {
                last
            } else {
                old(self).position
            }),
            final(self).by_id == old(self).by_id,
            final(self).delay == old(self).delay,
            final(self).idle == old(self).idle,
            final(self).floor == old(self).floor,
            final(self).ceiling == old(self).ceiling,
    {
        if advanced && last.is_some() {
            self.position = last;
        }
    }
}

/// The position of a document in field-ordered polling, if it has what the
/// order needs.
pub open spec fn doc_position<D>(d: SourceDoc<D>, by_id: bool) -> Option<(Key, Key)> {
    if by_id {
        match d.id {
            Some(i) => Some((i@, i@)),
            None => None,
        }
    } else {
        match (d.value, d.id) {
            (Some(v), Some(i)) => Some((v@, i@)),
            _ => None,
        }
    }
}

/// The checkpoint that a flushed page leaves: the position of its last
/// document.
pub fn page_position<D>(page: &Vec<SourceDoc<D>>, by_id: bool) -> (r: Option<FieldPosition>)
    ensures
        page@.len() == 0 ==> r.is_none(),
        page@.len() > 0 ==> match r {
            Some(p) => doc_position(page@.last(), by_id) == Some(p@),
            None => doc_position(page@.last(), by_id).is_none(),
        },
        by_id ==> match r {
            Some(p) => p.value@ == p.id@,
            None => true,
        },
{
    if page.len() == 0 {
        return None;
    }
    let last = &page[page.len() - 1];
    match &last.id {
        None => None,
        Some(id) => {
            if by_id {
                Some(FieldPosition { value: id.duplicate(), id: id.duplicate() })
            } else {
                match &last.value {
                    Some(v) => Some(FieldPosition { value: v.duplicate(), id: id.duplicate() }),
                    None => None,
                }
            }
        },
    }
}

/// A poll resumed at a checkpointed position never yields a document at or
/// before that position.
pub proof fn lemma_resume_never_rewinds(p: (Key, Key), value: Key, id: Key, by_id: bool)
    requires
        by_id ==> p.0 == p.1 && value == id,
    ensures
        after_bound(p, value, id, by_id) ==> pos_lt(p, (value, id)) && !pos_lt((value, id), p)
            && (value, id) != p,
{
    lemma_pos_lt_order(p, (value, id), p);
}

/// The bound of a poll: every document when there is no position yet.
pub open spec fn admitted(bound: Option<(Key, Key)>, d: (Key, Key), by_id: bool) -> bool {
    match bound {
        Some(p) => after_bound(p, d.0, d.1, by_id),
        None => true,
    }
}

/// A page is sorted by field value and then by identity.
pub open spec fn ascending(page: Seq<(Key, Key)>) -> bool {
    forall|i: int, j: int| 0 <= i < j < page.len() ==> pos_lt(#[trigger] page[i], #[trigger] page[j])
}

/// Two consecutive polls with the checkpoint persisted between them: when the
/// first page is sorted and holds the first admitted documents of the source,
/// then among equal field values the smaller identity comes first, nothing
/// of the first page is admitted again, and every admitted document that it
/// did not hold is admitted by the next poll.
pub proof fn lemma_consecutive_polls(
    source: Set<(Key, Key)>,
    bound: Option<(Key, Key)>,
    page: Seq<(Key, Key)>,
    by_id: bool,
)
    requires
        page.len() > 0,
        ascending(page),
        forall|i: int| 0 <= i < page.len() ==> source.contains(#[trigger] page[i]) && admitted(bound, page[i], by_id),
        forall|d: (Key, Key)| source.contains(d) && admitted(bound, d, by_id) && !page.contains(d)
            ==> pos_lt(page.last(), d),
        by_id ==> forall|d: (Key, Key)| source.contains(d) ==> d.0 == d.1,
    ensures
        forall|i: int, j: int| 0 <= i < j < page.len() && page[i].0 == page[j].0
            ==> key_lt(#[trigger] page[i].1, #[trigger] page[j].1),
        forall|i: int| 0 <= i < page.len() ==> !admitted(Some(page.last()), #[trigger] page[i], by_id),
        forall|d: (Key, Key)| source.contains(d) && admitted(bound, d, by_id) && !page.contains(d)
            ==> #[trigger] admitted(Some(page.last()), d, by_id),
{
    let c = page.last();
    assert forall|i: int| 0 <= i < page.len() implies !admitted(Some(c), #[trigger] page[i], by_id) by {
        lemma_pos_lt_order(page[i], c, page[i]);
        if i < page.len() - 1 {
            assert(pos_lt(page[i], page[page.len() - 1]));
        }
        lemma_pos_lt_order(c, page[i], c);
    }
    assert forall|d: (Key, Key)| source.contains(d) && admitted(bound, d, by_id) && !page.contains(d)
        implies #[trigger] admitted(Some(c), d, by_id) by {
        assert(pos_lt(c, d));
    }
    assert forall|i: int, j: int| 0 <= i < j < page.len() && page[i].0 == page[j].0
        implies key_lt(#[trigger] page[i].1, #[trigger] page[j].1) by {
        assert(pos_lt(page[i], page[j]));
        lemma_pos_lt_order(page[i], page[j], page[i]);
    }
}

} // verus!
