//! The write side: which strategy the target gets, the upserts a batch turns
//! into, the model of their effect on the target, and when a flush lets the
//! checkpoint advance.

use vstd::prelude::*;
use crate::key::{Key, KeyValue, SourceDoc};

verus! {

/// Default number of concurrent writes of the per-document strategy.
pub const DEFAULT_CONCURRENCY: usize = 10;

/// How a batch reaches the target.
#[derive(PartialEq, Eq, Structural, Clone, Copy, Debug)]
pub enum WriteStrategy {
    /// One all-or-nothing bulk request of upsert-replace operations.
    Atomic,
    /// One upsert-replace per document, at most this many at a time.
    Fallback(usize),
}

/// An upsert-replace of one document, keyed by its identity.
pub struct Upsert<D> {
    pub id: KeyValue,
    pub doc: D,
}

pub open spec fn upsert_view<D>(u: Upsert<D>) -> (Key, D) {
    (u.id@, u.doc)
}

/// The upserts that a batch turns into, in batch order: documents without an
/// identity are dropped.
pub open spec fn planned<D>(batch: Seq<SourceDoc<D>>) -> Seq<(Key, D)>
    decreases batch.len(),
{
    if batch.len() == 0 {
        Seq::empty()
    } else {
        let rest = planned(batch.drop_last());
        match batch.last().id {
            Some(i) => rest.push((i@, batch.last().doc)),
            None => rest,
        }
    }
}

/// Turns a batch into upserts, dropping the documents that have no identity.
pub fn plan_upserts<D>(batch: Vec<SourceDoc<D>>) -> (r: Vec<Upsert<D>>)
    ensures
        r@.map_values(|u: Upsert<D>| upsert_view(u)) == planned(batch@),
{
    let ghost orig = batch@;
    let mut rest = batch;
    let mut out: Vec<Upsert<D>> = Vec::new();
    let mut k: usize = 0;
    let total: usize = rest.len();
    assert(orig.take(0) =~= Seq::<SourceDoc<D>>::empty());
    while rest.len() > 0
        invariant
            k <= orig.len(),
            rest@.len() + k == orig.len(),
            orig.len() == total,
            rest@ == orig.skip(k as int),
            out@.map_values(|u: Upsert<D>| upsert_view(u)) == planned(orig.take(k as int)),
        decreases rest.len(),
    {
        let d = rest.remove(0);
        let ghost before = out@;
        assert(orig.take(k + 1).drop_last() =~= orig.take(k as int));
        assert(orig.take(k + 1).last() == d);
        match d.id {
            Some(id) => {
                out.push(Upsert { id, doc: d.doc });
                assert(out@.map_values(|u: Upsert<D>| upsert_view(u)) =~= before.map_values(
                    |u: Upsert<D>| upsert_view(u),
                ).push(upsert_view(out@.last())));
            },
            None => {},
        }
        k = k + 1;
        assert(rest@ =~= orig.skip(k as int));
    }
    assert(orig.take(k as int) =~= orig);
    out
}

/// The target after a sequence of upsert-replace operations: each one sets
/// the document stored under its identity.
pub open spec fn upsert_all<D>(target: Map<Key, D>, ops: Seq<(Key, D)>) -> Map<Key, D>
    decreases ops.len(),
{
    if ops.len() == 0 {
        target
    } else {
        upsert_all(target, ops.drop_last()).insert(ops.last().0, ops.last().1)
    }
}

proof fn lemma_upsert_all_overlays<D>(target: Map<Key, D>, ops: Seq<(Key, D)>)
    ensures
        upsert_all(target, ops) == target.union_prefer_right(upsert_all(Map::empty(), ops)),
    decreases ops.len(),
{
    if ops.len() == 0 {
        assert(target.union_prefer_right(Map::empty()) =~= target);
    } else {
        lemma_upsert_all_overlays(target, ops.drop_last());
        lemma_upsert_all_overlays(Map::<Key, D>::empty(), ops.drop_last());
        assert(upsert_all(target, ops) =~= target.union_prefer_right(upsert_all(Map::empty(), ops)));
    }
}

/// Writing the same batch twice, as a retry after a crash does, leaves the
/// target as writing it once.
pub proof fn lemma_apply_twice<D>(target: Map<Key, D>, batch: Seq<SourceDoc<D>>)
    ensures
        upsert_all(upsert_all(target, planned(batch)), planned(batch)) == upsert_all(
            target,
            planned(batch),
        ),
{
    let ops = planned(batch);
    let once = upsert_all(target, ops);
    lemma_upsert_all_overlays(target, ops);
    lemma_upsert_all_overlays(once, ops);
    assert(once.union_prefer_right(upsert_all(Map::empty(), ops)) =~= once);
}

/// What the target reported of a flush.
pub enum WriteReport {
    /// The bulk request of the atomic strategy succeeded or failed.
    Bulk(bool),
    /// The outcome of each write of the per-document strategy.
    PerDocument(Vec<bool>),
}

/// A flush lets the checkpoint advance when its bulk request succeeded; with
/// per-document writes it always does, failed documents included.
pub open spec fn advances(report: WriteReport) -> bool {
    match report {
        WriteReport::Bulk(ok) => ok,
        WriteReport::PerDocument(_) => true,
    }
}

/// Whether the checkpoint may move past a flushed batch.
pub fn checkpoint_advances(report: &WriteReport) -> (r: bool)
    ensures
        r == advances(*report),
{
    match report {
        WriteReport::Bulk(ok) => *ok,
        WriteReport::PerDocument(_) => true,
    }
}

/// Number of failures among the outcomes.
pub open spec fn count_failed(results: Seq<bool>) -> nat
    decreases results.len(),
{
    if results.len() == 0 {
        0
    } else {
        count_failed(results.drop_last()) + if results.last() {
            0nat
        } else {
            1nat
        }
    }
}

/// Counts the failed writes of a per-document flush.
pub fn failed_writes(results: &Vec<bool>) -> (r: usize)
    ensures
        r == count_failed(results@),
{
    let mut n: usize = 0;
    let mut i: usize = 0;
    while i < results.len()
        invariant
            i <= results.len(),
            n == count_failed(results@.take(i as int)),
            n <= i,
        decreases results.len() - i,
    {
        assert(results@.take(i + 1).drop_last() =~= results@.take(i as int));
        if !results[i] {
            n = n + 1;
        }
        i = i + 1;
    }
    assert(results@.take(i as int) =~= results@);
    n
}

} // verus!
