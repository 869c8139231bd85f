//! Field mappings of the CSV import: the declared type of each column and
//! whether it must be present.

use vstd::prelude::*;

verus! {

/// How one column is read.
pub struct FieldDef {
    /// Name of the type the column's text is read as.
    pub field_type: String,
    pub required: bool,
    /// Texts read as `true`, in place of the usual ones.
    pub truthy: Option<Vec<String>>,
    /// Texts read as `false`, in place of the usual ones.
    pub falsy: Option<Vec<String>>,
    /// Date formats tried in turn.
    pub formats: Option<Vec<String>>,
}

/// Column name and definition of each mapped column.
pub struct FieldMapping(pub Vec<(String, FieldDef)>);

/// A record: the value of each column that it has, by column name.
pub type Record = Vec<(String, String)>;

/// Whether two strings hold the same characters.
pub fn text_equals(a: &str, b: &str) -> (r: bool)
    ensures
        r == (a@ == b@),
{
    let n = a.unicode_len();
    if n != b.unicode_len() {
        return false;
    }
    let mut i: usize = 0;
    while i < n
        invariant
            n == a@.len(),
            n == b@.len(),
            i <= n,
            forall|j: int| 0 <= j < i ==> a@[j] == b@[j],
        decreases n - i,
    {
        if a.get_char(i) != b.get_char(i) {
            return false;
        }
        i = i + 1;
    }
    assert(a@ =~= b@);
    true
}

/// Types that only extended JSON can carry.
pub open spec fn is_extended_type(t: Seq<char>) -> bool {
    t == "objectId"@ || t == "date"@ || t == "decimal"@ || t == "regex"@ || t == "timestamp"@
        || t == "binary"@
}

fn extended_type(t: &str) -> (r: bool)
    ensures
        r == is_extended_type(t@),
{
    text_equals(t, "objectId") || text_equals(t, "date") || text_equals(t, "decimal")
        || text_equals(t, "regex") || text_equals(t, "timestamp") || text_equals(t, "binary")
}

/// Whether some column of the mapping has a type that plain JSON cannot
/// carry (object identifier, date, decimal, regular expression, timestamp,
/// binary).
pub fn requires_extended_json(mapping: &FieldMapping) -> (r: bool)
    ensures
        r == exists|i: int| 0 <= i < mapping.0@.len() && is_extended_type(#[trigger] mapping.0@[i].1.field_type@),
{
    let mut i: usize = 0;
    while i < mapping.0.len()
        invariant
            i <= mapping.0@.len(),
            forall|j: int| 0 <= j < i ==> !is_extended_type(#[trigger] mapping.0@[j].1.field_type@),
        decreases mapping.0@.len() - i,
    {
        if extended_type(mapping.0[i].1.field_type.as_str()) {
            return true;
        }
        i = i + 1;
    }
    false
}

/// A required column that a record lacks.
pub struct MissingField {
    pub field: String,
}

impl MissingField {
    /// `Missing required field: ` followed by the column's name.
    pub fn message(&self) -> (r: String)
        ensures
            r@ == "Missing required field: "@ + self.field@,
    {
        broadcast use vstd::string::to_string_from_display_ensures_for_str;

        let mut m = "Missing required field: ".to_string();
        m.append(self.field.as_str());
        m
    }
}

pub open spec fn has_column(record: Seq<(String, String)>, name: Seq<char>) -> bool {
    exists|i: int| 0 <= i < record.len() && (#[trigger] record[i]).0@ == name
}

/// Column `j` of the mapping is required and the record lacks it.
pub open spec fn lacks(record: Seq<(String, String)>, mapping: Seq<(String, FieldDef)>, j: int) -> bool {
    mapping[j].1.required && !has_column(record, mapping[j].0@)
}

fn record_has(record: &Record, name: &str) -> (r: bool)
    ensures
        r == has_column(record@, name@),
{
    let mut i: usize = 0;
    while i < record.len()
        invariant
            i <= record@.len(),
            forall|j: int| 0 <= j < i ==> (#[trigger] record@[j]).0@ != name@,
        decreases record@.len() - i,
    {
        if text_equals(record[i].0.as_str(), name) {
            return true;
        }
        i = i + 1;
    }
    false
}

/// Checks that the record has every required column. The error names the
/// first required column, in mapping order, that it lacks.
pub fn validate_required_fields(record: &Record, mapping: &FieldMapping) -> (r: Result<(), MissingField>)
    ensures
        r is Ok <==> forall|j: int| 0 <= j < mapping.0@.len() ==> !#[trigger] lacks(record@, mapping.0@, j),
        r matches Err(e) ==> exists|j: int|
            0 <= j < mapping.0@.len() && lacks(record@, mapping.0@, j) && e.field@ == mapping.0@[j].0@
                && forall|k: int| 0 <= k < j ==> !lacks(record@, mapping.0@, k),
{
    let mut i: usize = 0;
    while i < mapping.0.len()
        invariant
            i <= mapping.0@.len(),
            forall|k: int| 0 <= k < i ==> !#[trigger] lacks(record@, mapping.0@, k),
        decreases mapping.0@.len() - i,
    {
        let (name, def) = &mapping.0[i];
        if def.required && !record_has(record, name.as_str()) {
            assert(lacks(record@, mapping.0@, i as int));
            return Err(MissingField { field: name.clone() });
        }
        i = i + 1;
    }
    Ok(())
}

} // verus!
