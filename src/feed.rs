//! Live change-feed consumption: which events are propagated, and the batch
//! that accumulates them between flushes.

use vstd::prelude::*;

verus! {

/// The kind of a change event.
#[derive(PartialEq, Eq, Structural, Clone, Copy, Debug)]
pub enum OpKind {
    Insert,
    Update,
    Replace,
    Delete,
    Other,
}

/// A change event: its kind, the opaque feed token of its place in the feed,
/// and the full document after the change, where the feed supplied one.
pub struct ChangeEvent<D> {
    pub kind: OpKind,
    pub token: String,
    pub full_document: Option<D>,
}

/// Inserts, updates and replacements are propagated with their full
/// document; deletions and other events are not.
pub open spec fn propagates(kind: OpKind) -> bool {
    kind == OpKind::Insert || kind == OpKind::Update || kind == OpKind::Replace
}

/// The document that an event contributes to the batch, if any.
pub open spec fn contribution<D>(change: ChangeEvent<D>) -> Option<D> {
    if propagates(change.kind) {
        change.full_document
    } else {
        None
    }
}

/// The document to write for a change event: its full document for an
/// insert, update or replace, nothing for any other event.
pub fn process_change_event<D>(change: ChangeEvent<D>) -> (r: Option<D>)
    ensures
        r == contribution(change),
{
    match change.kind {
        OpKind::Insert | OpKind::Update | OpKind::Replace => change.full_document,
        _ => None,
    }
}

/// A batch to write, and the feed token to checkpoint once it is written.
pub struct Flush<D> {
    pub docs: Vec<D>,
    pub token: String,
}

/// Documents accumulated from the feed since the last flush.
pub struct FeedBatcher<D> {
    pub batch: Vec<D>,
    pub limit: usize,
    /// Token of the last event taken since the last flush.
    pub last_token: Option<String>,
}

/// The batch after an event is added to `batch`.
pub open spec fn with_event<D>(batch: Seq<D>, change: ChangeEvent<D>) -> Seq<D> {
    match contribution(change) {
        Some(d) => batch.push(d),
        None => batch,
    }
}

impl<D> FeedBatcher<D> {
    pub open spec fn wf(&self) -> bool {
        &&& 0 < self.limit
        &&& self.batch@.len() < self.limit
        &&& self.batch@.len() > 0 ==> self.last_token is Some
    }

    /// An empty batch that is flushed whenever it reaches `limit` documents.
    pub fn new(limit: usize) -> (r: FeedBatcher<D>)
        requires
            limit > 0,
        ensures
            r.wf(),
            r.limit == limit,
            r.batch@.len() == 0,
            r.last_token is None,
    {
        FeedBatcher { batch: Vec::new(), limit, last_token: None }
    }

    /// Adds an event's document to the batch. When the batch reaches its
    /// limit it is handed out with the event's token, and a new one starts.
    pub fn push_event(&mut self, change: ChangeEvent<D>) -> (r: Option<Flush<D>>)
        requires
            old(self).wf(),
        ensures
            final(self).wf(),
            final(self).limit == old(self).limit,
            ({
                let grown = with_event(old(self).batch@, change);
                if grown.len() >= old(self).limit {
                    &&& r is Some
                    &&& r->0.docs@ == grown
                    &&& r->0.token == change.token
                    &&& final(self).batch@.len() == 0
                    &&& final(self).last_token is None
                } else {
                    &&& r is None
                    &&& final(self).batch@ == grown
                    &&& final(self).last_token == Some(change.token)
                }
            }),
    {
        let token = change.token;
        let contributed = process_change_event(ChangeEvent {
            kind: change.kind,
            token: String::new(),
            full_document: change.full_document,
        });
        match contributed {
            Some(d) => {
                self.batch.push(d);
            },
            None => {},
        }
        if self.batch.len() >= self.limit {
            let mut docs = Vec::new();
            std::mem::swap(&mut docs, &mut self.batch);
            self.last_token = None;
            Some(Flush { docs, token })
        } else {
            self.last_token = Some(token);
            None
        }
    }

    /// Hands out what is left in the batch when the feed ends, if anything,
    /// with the token of the last event taken.
    pub fn finish(&mut self) -> (r: Option<Flush<D>>)
        requires
            old(self).wf(),
        ensures
            final(self).wf(),
            final(self).limit == old(self).limit,
            final(self).batch@.len() == 0,
            final(self).last_token is None,
            old(self).batch@.len() == 0 ==> r is None,
            old(self).batch@.len() > 0 ==> r is Some && r->0.docs@ == old(self).batch@ && Some(r->0.token)
                == old(self).last_token,
    {
        let token = self.last_token.take();
        if self.batch.len() == 0 {
            None
        } else {
            let mut docs = Vec::new();
            std::mem::swap(&mut docs, &mut self.batch);
            match token {
                Some(token) => Some(Flush { docs, token }),
                None => None,
            }
        }
    }
}

} // verus!
