//! How a CSV column's text is read: the kind its declared type names, and the
//! reading of booleans.

use vstd::prelude::*;
use crate::mapping::text_equals;

verus! {

/// What a column's text is read as.
#[derive(PartialEq, Eq, Structural, Clone, Copy, Debug)]
pub enum ColumnKind {
    Text,
    Int,
    Long,
    Double,
    Decimal,
    Bool,
    ObjectId,
    Date,
    Timestamp,
    Regex,
}

/// The kind that a type name declares; an unknown name reads as text.
pub open spec fn kind_named(t: Seq<char>) -> ColumnKind {
    if t == "int"@ {
        ColumnKind::Int
    } else if t == "long"@ {
        ColumnKind::Long
    } else if t == "double"@ {
        ColumnKind::Double
    } else if t == "decimal"@ {
        ColumnKind::Decimal
    } else if t == "bool"@ {
        ColumnKind::Bool
    } else if t == "objectId"@ {
        ColumnKind::ObjectId
    } else if t == "date"@ {
        ColumnKind::Date
    } else if t == "timestamp"@ {
        ColumnKind::Timestamp
    } else if t == "regex"@ {
        ColumnKind::Regex
    } else {
        ColumnKind::Text
    }
}

/// The kind that a column's declared type names.
pub fn column_kind(declared: &str) -> (r: ColumnKind)
    ensures
        r == kind_named(declared@),
{
    if text_equals(declared, "int") {
        ColumnKind::Int
    } else if text_equals(declared, "long") {
        ColumnKind::Long
    } else if text_equals(declared, "double") {
        ColumnKind::Double
    } else if text_equals(declared, "decimal") {
        ColumnKind::Decimal
    } else if text_equals(declared, "bool") {
        ColumnKind::Bool
    } else if text_equals(declared, "objectId") {
        ColumnKind::ObjectId
    } else if text_equals(declared, "date") {
        ColumnKind::Date
    } else if text_equals(declared, "timestamp") {
        ColumnKind::Timestamp
    } else if text_equals(declared, "regex") {
        ColumnKind::Regex
    } else {
        ColumnKind::Text
    }
}

/// Two characters that are equal once ASCII capitals are made small.
pub open spec fn ascii_fold_eq(x: char, y: char) -> bool {
    x == y || ('A' <= x && x <= 'Z' && x as u32 + 32 == y as u32) || ('A' <= y && y <= 'Z' && y as u32
        + 32 == x as u32)
}

/// Two strings that match when ASCII case is ignored.
pub open spec fn ascii_case_eq(a: Seq<char>, b: Seq<char>) -> bool {
    a.len() == b.len() && forall|i: int| 0 <= i < a.len() ==> ascii_fold_eq(#[trigger] a[i], b[i])
}

fn fold_eq(x: char, y: char) -> (r: bool)
    ensures
        r == ascii_fold_eq(x, y),
{
    let (xs, ys) = (x as u32, y as u32);
    xs == ys || ('A' <= x && x <= 'Z' && xs + 32 == ys) || ('A' <= y && y <= 'Z' && ys + 32 == xs)
}

/// Whether two strings match when ASCII case is ignored.
pub fn eq_ignore_ascii_case(a: &str, b: &str) -> (r: bool)
    ensures
        r == ascii_case_eq(a@, b@),
{
    let n = a.unicode_len();
    if n != b.unicode_len() {
        return false;
    }
    let mut i: usize = 0;
    while i < n
        invariant
            n == a@.len(),
            n == b@.len(),
            i <= n,
            forall|j: int| 0 <= j < i ==> ascii_fold_eq(#[trigger] a@[j], b@[j]),
        decreases n - i,
    {
        if !fold_eq(a.get_char(i), b.get_char(i)) {
            return false;
        }
        i = i + 1;
    }
    true
}

/// What `str::to_lowercase` gives for a string.
pub uninterp spec fn lower_of(s: Seq<char>) -> Seq<char>;

/// Relies on `str::to_lowercase`: the lowercase form of a string, which
/// depends on its characters alone.
#[verifier::external_body]
fn lowercase(s: &str) -> (r: String)
    ensures
        r@ == lower_of(s@),
{
    s.to_lowercase()
}

/// Lowercase texts read as `true` when a column lists none of its own.
pub open spec fn default_true(lowered: Seq<char>) -> bool {
    lowered == "true"@ || lowered == "t"@ || lowered == "yes"@ || lowered == "1"@ || lowered == "y"@
}

/// Lowercase texts read as `false` when a column lists none of its own.
pub open spec fn default_false(lowered: Seq<char>) -> bool {
    lowered == "false"@ || lowered == "f"@ || lowered == "no"@ || lowered == "0"@ || lowered == "n"@
}

/// Whether a text is among those listed (ASCII case ignored), or, with no
/// list, among the defaults.
pub open spec fn listed(value: Seq<char>, lowered: Seq<char>, list: Option<Vec<String>>, dflt: bool) -> bool {
    match list {
        Some(l) => exists|i: int| 0 <= i < l@.len() && ascii_case_eq(#[trigger] l@[i]@, value),
        None => dflt,
    }
}

/// The boolean a text reads as, given its lowercase form: `true` when it is
/// among the true texts, else `false` when among the false ones, else none.
pub open spec fn bool_reading(
    value: Seq<char>,
    lowered: Seq<char>,
    truthy: Option<Vec<String>>,
    falsy: Option<Vec<String>>,
) -> Option<bool> {
    if listed(value, lowered, truthy, default_true(lowered)) {
        Some(true)
    } else if listed(value, lowered, falsy, default_false(lowered)) {
        Some(false)
    } else {
        None
    }
}

fn in_list(value: &str, list: &Vec<String>) -> (r: bool)
    ensures
        r == exists|i: int| 0 <= i < list@.len() && ascii_case_eq(#[trigger] list@[i]@, value@),
{
    let mut i: usize = 0;
    while i < list.len()
        invariant
            i <= list@.len(),
            forall|j: int| 0 <= j < i ==> !ascii_case_eq(#[trigger] list@[j]@, value@),
        decreases list@.len() - i,
    {
        if eq_ignore_ascii_case(list[i].as_str(), value) {
            return true;
        }
        i = i + 1;
    }
    false
}

fn is_default_true(l: &str) -> (r: bool)
    ensures
        r == default_true(l@),
{
    text_equals(l, "true") || text_equals(l, "t") || text_equals(l, "yes") || text_equals(l, "1")
        || text_equals(l, "y")
}

fn is_default_false(l: &str) -> (r: bool)
    ensures
        r == default_false(l@),
{
    text_equals(l, "false") || text_equals(l, "f") || text_equals(l, "no") || text_equals(l, "0")
        || text_equals(l, "n")
}

/// Reads a boolean column's text, given its lowercase form.
pub fn read_bool_lowered(
    value: &str,
    lowered: &str,
    truthy: &Option<Vec<String>>,
    falsy: &Option<Vec<String>>,
) -> (r: Option<bool>)
    ensures
        r == bool_reading(value@, lowered@, *truthy, *falsy),
{
    let is_true = match truthy {
        Some(l) => in_list(value, l),
        None => is_default_true(lowered),
    };
    if is_true {
        return Some(true);
    }
    let is_false = match falsy {
        Some(l) => in_list(value, l),
        None => is_default_false(lowered),
    };
    if is_false {
        Some(false)
    } else {
        None
    }
}

/// Reads a boolean column's text: a listed text in any ASCII case, or with
/// no list one of `true`, `t`, `yes`, `1`, `y` (resp. `false`, `f`, `no`,
/// `0`, `n`) in any case; `None` for anything else.
pub fn read_bool(value: &str, truthy: &Option<Vec<String>>, falsy: &Option<Vec<String>>) -> (r: Option<bool>)
    ensures
        r == bool_reading(value@, lower_of(value@), *truthy, *falsy),
{
    let lowered = lowercase(value);
    read_bool_lowered(value, lowered.as_str(), truthy, falsy)
}

} // verus!
