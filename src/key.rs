//! Sortable values, resume positions in field-ordered polling, and the
//! lower-bound predicate that a poll applies to them.

use vstd::prelude::*;

verus! {

/// A value that a polling field or an identity field can hold, as far as
/// ordering is concerned.
pub enum KeyValue {
    Int(i64),
    Text(Vec<u8>),
    ObjectId(Vec<u8>),
    Date(i64),
    /// A value of another kind, by the bytes of its canonical encoding.
    Other(Vec<u8>),
}

/// Mathematical form of a `KeyValue`.
pub enum Key {
    Int(int),
    Text(Seq<u8>),
    ObjectId(Seq<u8>),
    Date(int),
    Other(Seq<u8>),
}

impl View for KeyValue {
    type V = Key;

    open spec fn view(&self) -> Key {
        match self {
            KeyValue::Int(i) => Key::Int(*i as int),
            KeyValue::Text(b) => Key::Text(b@),
            KeyValue::ObjectId(b) => Key::ObjectId(b@),
            KeyValue::Date(d) => Key::Date(*d as int),
            KeyValue::Other(b) => Key::Other(b@),
        }
    }
}

/// Rank of each kind of value: numbers sort before text, text before object
/// identifiers, identifiers before dates, and dates before values of any
/// other kind.
pub open spec fn kind_rank(k: Key) -> int {
    match k {
        Key::Int(_) => 0,
        Key::Text(_) => 1,
        Key::ObjectId(_) => 2,
        Key::Date(_) => 3,
        Key::Other(_) => 4,
    }
}

/// Lexicographic order on byte strings; a proper prefix sorts first.
pub open spec fn bytes_lt(a: Seq<u8>, b: Seq<u8>) -> bool
    decreases a.len(),
{
    if a.len() == 0 {
        b.len() > 0
    } else if b.len() == 0 {
        false
    } else if a[0] != b[0] {
        a[0] < b[0]
    } else {
        bytes_lt(a.drop_first(), b.drop_first())
    }
}

/// Strict total order on keys.
pub open spec fn key_lt(a: Key, b: Key) -> bool {
    if kind_rank(a) != kind_rank(b) {
        kind_rank(a) < kind_rank(b)
    } else {
        match (a, b) {
            (Key::Int(x), Key::Int(y)) => x < y,
            (Key::Date(x), Key::Date(y)) => x < y,
            (Key::Text(x), Key::Text(y)) => bytes_lt(x, y),
            (Key::ObjectId(x), Key::ObjectId(y)) => bytes_lt(x, y),
            (Key::Other(x), Key::Other(y)) => bytes_lt(x, y),
            _ => false,
        }
    }
}

/// Order of documents in a field-ordered poll: by field value, then by
/// identity.
pub open spec fn pos_lt(a: (Key, Key), b: (Key, Key)) -> bool {
    key_lt(a.0, b.0) || (a.0 == b.0 && key_lt(a.1, b.1))
}

pub proof fn lemma_bytes_lt_irreflexive(a: Seq<u8>)
    ensures
        !bytes_lt(a, a),
    decreases a.len(),
{
    if a.len() > 0 {
        lemma_bytes_lt_irreflexive(a.drop_first());
    }
}

pub proof fn lemma_bytes_lt_asymmetric(a: Seq<u8>, b: Seq<u8>)
    ensures
        bytes_lt(a, b) ==> !bytes_lt(b, a),
    decreases a.len(),
{
    if a.len() > 0 && b.len() > 0 && a[0] == b[0] {
        lemma_bytes_lt_asymmetric(a.drop_first(), b.drop_first());
    }
}

pub proof fn lemma_bytes_lt_transitive(a: Seq<u8>, b: Seq<u8>, c: Seq<u8>)
    ensures
        bytes_lt(a, b) && bytes_lt(b, c) ==> bytes_lt(a, c),
    decreases a.len(),
{
    if a.len() > 0 && b.len() > 0 && c.len() > 0 {
        lemma_bytes_lt_transitive(a.drop_first(), b.drop_first(), c.drop_first());
    }
}

pub proof fn lemma_bytes_lt_total(a: Seq<u8>, b: Seq<u8>)
    ensures
        bytes_lt(a, b) || bytes_lt(b, a) || a == b,
    decreases a.len(),
{
    if a.len() > 0 && b.len() > 0 {
        lemma_bytes_lt_total(a.drop_first(), b.drop_first());
        if a[0] == b[0] && a.drop_first() == b.drop_first() {
            assert(a =~= seq![a[0]] + a.drop_first());
            assert(b =~= seq![b[0]] + b.drop_first());
        }
    } else if a.len() == 0 && b.len() == 0 {
        assert(a =~= b);
    }
}

/// `key_lt` is a strict total order.
pub proof fn lemma_key_lt_order(a: Key, b: Key, c: Key)
    ensures
        !key_lt(a, a),
        key_lt(a, b) ==> !key_lt(b, a),
        key_lt(a, b) && key_lt(b, c) ==> key_lt(a, c),
        key_lt(a, b) || key_lt(b, a) || a == b,
{
    match (a, b, c) {
        (Key::Text(x), Key::Text(y), Key::Text(z)) => {
            lemma_bytes_lt_irreflexive(x);
            lemma_bytes_lt_asymmetric(x, y);
            lemma_bytes_lt_transitive(x, y, z);
            lemma_bytes_lt_total(x, y);
        },
        (Key::ObjectId(x), Key::ObjectId(y), Key::ObjectId(z)) => {
            lemma_bytes_lt_irreflexive(x);
            lemma_bytes_lt_asymmetric(x, y);
            lemma_bytes_lt_transitive(x, y, z);
            lemma_bytes_lt_total(x, y);
        },
        (Key::Other(x), Key::Other(y), Key::Other(z)) => {
            lemma_bytes_lt_irreflexive(x);
            lemma_bytes_lt_asymmetric(x, y);
            lemma_bytes_lt_transitive(x, y, z);
            lemma_bytes_lt_total(x, y);
        },
        _ => {
            match a {
                Key::Text(x) => lemma_bytes_lt_irreflexive(x),
                Key::ObjectId(x) => lemma_bytes_lt_irreflexive(x),
                Key::Other(x) => lemma_bytes_lt_irreflexive(x),
                _ => {},
            }
            match (a, b) {
                (Key::Text(x), Key::Text(y)) => {
                    lemma_bytes_lt_asymmetric(x, y);
                    lemma_bytes_lt_total(x, y);
                },
                (Key::ObjectId(x), Key::ObjectId(y)) => {
                    lemma_bytes_lt_asymmetric(x, y);
                    lemma_bytes_lt_total(x, y);
                },
                (Key::Other(x), Key::Other(y)) => {
                    lemma_bytes_lt_asymmetric(x, y);
                    lemma_bytes_lt_total(x, y);
                },
                _ => {},
            }
        },
    }
}

/// `pos_lt` is a strict total order.
pub proof fn lemma_pos_lt_order(a: (Key, Key), b: (Key, Key), c: (Key, Key))
    ensures
        !pos_lt(a, a),
        pos_lt(a, b) ==> !pos_lt(b, a),
        pos_lt(a, b) && pos_lt(b, c) ==> pos_lt(a, c),
        pos_lt(a, b) || pos_lt(b, a) || a == b,
{
    lemma_key_lt_order(a.0, b.0, c.0);
    lemma_key_lt_order(a.1, b.1, c.1);
    lemma_key_lt_order(a.0, a.0, a.0);
    lemma_key_lt_order(a.1, a.1, a.1);
}

fn kind_rank_of(k: &KeyValue) -> (r: u8)
    ensures
        r as int == kind_rank(k@),
{
    match k {
        KeyValue::Int(_) => 0,
        KeyValue::Text(_) => 1,
        KeyValue::ObjectId(_) => 2,
        KeyValue::Date(_) => 3,
        KeyValue::Other(_) => 4,
    }
}

fn bytes_less(a: &Vec<u8>, b: &Vec<u8>) -> (r: bool)
    ensures
        r == bytes_lt(a@, b@),
{
    let mut i: usize = 0;
    assert(a@.skip(0) =~= a@);
    assert(b@.skip(0) =~= b@);
    while i < a.len() && i < b.len() && a[i] == b[i]
        invariant
            i <= a.len(),
            i <= b.len(),
            bytes_lt(a@, b@) == bytes_lt(a@.skip(i as int), b@.skip(i as int)),
        decreases a.len() - i,
    {
        assert(a@.skip(i as int).drop_first() =~= a@.skip(i + 1));
        assert(b@.skip(i as int).drop_first() =~= b@.skip(i + 1));
        i = i + 1;
    }
    if i < a.len() && i < b.len() {
        a[i] < b[i]
    } else {
        i == a.len() && i < b.len()
    }
}

impl KeyValue {
    /// Whether `self` sorts strictly before `other`.
    pub fn less_than(&self, other: &KeyValue) -> (r: bool)
        ensures
            r == key_lt(self@, other@),
    {
        let ra = kind_rank_of(self);
        let rb = kind_rank_of(other);
        if ra != rb {
            return ra < rb;
        }
        match (self, other) {
            (KeyValue::Int(x), KeyValue::Int(y)) => *x < *y,
            (KeyValue::Date(x), KeyValue::Date(y)) => *x < *y,
            (KeyValue::Text(x), KeyValue::Text(y)) => bytes_less(x, y),
            (KeyValue::ObjectId(x), KeyValue::ObjectId(y)) => bytes_less(x, y),
            (KeyValue::Other(x), KeyValue::Other(y)) => bytes_less(x, y),
            _ => false,
        }
    }

    /// Whether the two values are the same.
    pub fn same_as(&self, other: &KeyValue) -> (r: bool)
        ensures
            r == (self@ == other@),
    {
        proof {
            lemma_key_lt_order(self@, other@, other@);
        }
        !self.less_than(other) && !other.less_than(self)
    }

    /// A copy of the value.
    pub fn duplicate(&self) -> (r: KeyValue)
        ensures
            r@ == self@,
    {
        match self {
            KeyValue::Int(i) => KeyValue::Int(*i),
            KeyValue::Text(b) => KeyValue::Text(b.clone()),
            KeyValue::ObjectId(b) => KeyValue::ObjectId(b.clone()),
            KeyValue::Date(d) => KeyValue::Date(*d),
            KeyValue::Other(b) => KeyValue::Other(b.clone()),
        }
    }
}

/// A resume point of field-ordered polling: the field value and identity of
/// the last document applied.  It is an exclusive lower bound.
pub struct FieldPosition {
    pub value: KeyValue,
    pub id: KeyValue,
}

impl View for FieldPosition {
    type V = (Key, Key);

    open spec fn view(&self) -> (Key, Key) {
        (self.value@, self.id@)
    }
}

/// The lower-bound predicate of a poll resumed at `p`.  When the polling
/// field is the identity field itself it is a plain comparison on the value.
pub open spec fn after_bound(p: (Key, Key), value: Key, id: Key, by_id: bool) -> bool {
    if by_id {
        key_lt(p.0, value)
    } else {
        key_lt(p.0, value) || (value == p.0 && key_lt(p.1, id))
    }
}

impl FieldPosition {
    /// Whether a document with the given field value and identity lies
    /// strictly after this position.
    pub fn admits(&self, value: &KeyValue, id: &KeyValue, by_id: bool) -> (r: bool)
        ensures
            r == after_bound(self@, value@, id@, by_id),
    {
        if self.value.less_than(value) {
            true
        } else if by_id {
            false
        } else {
            value.same_as(&self.value) && self.id.less_than(id)
        }
    }

    pub fn duplicate(&self) -> (r: FieldPosition)
        ensures
            r@ == self@,
    {
        FieldPosition { value: self.value.duplicate(), id: self.id.duplicate() }
    }
}

/// A document as read from the source, with what the engine reads of it:
/// its identity and, in field-ordered polling, the value of the polling field.
pub struct SourceDoc<D> {
    pub doc: D,
    pub id: Option<KeyValue>,
    pub value: Option<KeyValue>,
}

} // verus!
