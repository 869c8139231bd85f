//! Reading a CSV column's text as the value its declared type names.

use vstd::prelude::*;
use chrono::TimeZone;
use crate::column::{bool_reading, kind_named, lower_of, read_bool, ColumnKind};
use crate::mapping::FieldDef;
use crate::version::{digits_value, is_digit, parse_u32, parsed_u32};

verus! {

#[verifier::external_type_specification]
#[verifier::external_body]
pub struct ExDecimal128(bson::Decimal128);

#[verifier::external_type_specification]
#[verifier::external_body]
pub struct ExObjectId(bson::oid::ObjectId);

#[verifier::external_type_specification]
#[verifier::external_body]
pub struct ExDateTime(bson::DateTime);

/// The value of a decimal integer text: an optional sign, then one or more
/// digits.
pub open spec fn signed_value(s: Seq<char>) -> Option<int> {
    let neg = s.len() > 0 && s[0] == '-';
    let body = if s.len() > 0 && (s[0] == '-' || s[0] == '+') {
        s.drop_first()
    } else {
        s
    };
    if body.len() > 0 && (forall|i: int| 0 <= i < body.len() ==> is_digit(#[trigger] body[i])) {
        Some(
            if neg {
                -digits_value(body)
            } else {
                digits_value(body)
            },
        )
    } else {
        None
    }
}

/// The value of a decimal integer text, when it lies in `[lo, hi]`.
pub open spec fn int_in(s: Seq<char>, lo: int, hi: int) -> Option<int> {
    match signed_value(s) {
        Some(v) => if lo <= v && v <= hi {
            Some(v)
        } else {
            None
        },
        None => None,
    }
}

/// Relies on `i32::from_str` (through `str::parse`): an optional sign and
/// ASCII decimal digits, failing on anything else or out of range.
#[verifier::external_body]
fn parse_i32(s: &str) -> (r: Option<i32>)
    ensures
        r == (match int_in(s@, i32::MIN as int, i32::MAX as int) {
            Some(v) => Some(v as i32),
            None => None,
        }),
{
    s.parse::<i32>().ok()
}

/// Relies on `i64::from_str` (through `str::parse`): an optional sign and
/// ASCII decimal digits, failing on anything else or out of range.
#[verifier::external_body]
fn parse_i64(s: &str) -> (r: Option<i64>)
    ensures
        r == (match int_in(s@, i64::MIN as int, i64::MAX as int) {
            Some(v) => Some(v as i64),
            None => None,
        }),
{
    s.parse::<i64>().ok()
}

/// Whether `bson::Decimal128`'s `FromStr` reads a text.
pub uninterp spec fn decimal_parses(s: Seq<char>) -> bool;

/// Relies on `bson::Decimal128`'s `FromStr`; whether it succeeds depends on
/// the text alone.
#[verifier::external_body]
fn parse_decimal(s: &str) -> (r: Option<bson::Decimal128>)
    ensures
        r.is_some() == decimal_parses(s@),
{
    s.parse::<bson::Decimal128>().ok()
}

pub open spec fn is_hex_digit(c: char) -> bool {
    ('0' <= c && c <= '9') || ('a' <= c && c <= 'f') || ('A' <= c && c <= 'F')
}

/// The text of an object identifier: 24 hexadecimal digits of either case.
pub open spec fn is_object_id_text(s: Seq<char>) -> bool {
    s.len() == 24 && forall|i: int| 0 <= i < s.len() ==> is_hex_digit(#[trigger] s[i])
}

/// Relies on `bson::oid::ObjectId::parse_str`, which hex-decodes the text
/// (digits of either case) and accepts exactly 12 bytes.
#[verifier::external_body]
fn parse_object_id(s: &str) -> (r: Option<bson::oid::ObjectId>)
    ensures
        r.is_some() == is_object_id_text(s@),
{
    bson::oid::ObjectId::parse_str(s).ok()
}

/// Whether `bson::DateTime::parse_rfc3339_str` reads a text.
pub uninterp spec fn rfc3339_parses(s: Seq<char>) -> bool;

/// Relies on `bson::DateTime::parse_rfc3339_str`; whether it succeeds
/// depends on the text alone.
#[verifier::external_body]
fn parse_rfc3339(s: &str) -> (r: Option<bson::DateTime>)
    ensures
        r.is_some() == rfc3339_parses(s@),
{
    bson::DateTime::parse_rfc3339_str(s).ok()
}

/// Whether `chrono::NaiveDateTime::parse_from_str` reads a text with a format.
pub uninterp spec fn format_parses(s: Seq<char>, fmt: Seq<char>) -> bool;

/// Relies on `chrono::NaiveDateTime::parse_from_str`, whose success depends
/// on the text and the format alone; the time read is taken as UTC.
#[verifier::external_body]
fn parse_with_format(s: &str, fmt: &str) -> (r: Option<bson::DateTime>)
    ensures
        r.is_some() == format_parses(s@, fmt@),
{
    chrono::NaiveDateTime::parse_from_str(s, fmt).ok().map(
        |t| bson::DateTime::from_chrono(chrono::Utc.from_utc_datetime(&t)),
    )
}

/// Whether one of the formats reads a text.
pub open spec fn some_format_parses(s: Seq<char>, formats: Seq<String>) -> bool {
    exists|i: int| 0 <= i < formats.len() && format_parses(s, #[trigger] formats[i]@)
}

/// Whether a date column reads a text: with one of its formats, or, with no
/// formats, as RFC 3339.
pub open spec fn date_readable(s: Seq<char>, formats: Option<Vec<String>>) -> bool {
    match formats {
        Some(f) => some_format_parses(s, f@),
        None => rfc3339_parses(s),
    }
}

/// Reads a date with the first of the formats that reads it, or as RFC 3339
/// when there are none.
pub fn read_date(value: &str, formats: &Option<Vec<String>>) -> (r: Option<bson::DateTime>)
    ensures
        r.is_some() == date_readable(value@, *formats),
{
    match formats {
        None => parse_rfc3339(value),
        Some(f) => {
            let mut i: usize = 0;
            while i < f.len()
                invariant
                    i <= f@.len(),
                    *formats == Some(*f),
                    forall|j: int| 0 <= j < i ==> !format_parses(value@, #[trigger] f@[j]@),
                decreases f@.len() - i,
            {
                match parse_with_format(value, f[i].as_str()) {
                    Some(d) => {
                        assert(format_parses(value@, f@[i as int]@));
                        return Some(d);
                    },
                    None => {},
                }
                i = i + 1;
            }
            None
        },
    }
}

/// A column's value, read as its declared type.
pub enum ColumnValue {
    Text(String),
    Int32(i32),
    Int64(i64),
    Decimal(bson::Decimal128),
    Bool(bool),
    ObjectId(bson::oid::ObjectId),
    DateTime(bson::DateTime),
    /// Seconds of a timestamp whose increment is 1.
    Timestamp(u32),
    Regex(String),
}

/// What reading `value` as a column defined by `def` gives; `None` when the
/// text does not read as the declared type.
pub open spec fn reads_as(value: Seq<char>, def: FieldDef, r: Option<ColumnValue>) -> bool {
    match kind_named(def.field_type@) {
        ColumnKind::Text => r matches Some(ColumnValue::Text(t)) && t@ == value,
        ColumnKind::Int => match int_in(value, i32::MIN as int, i32::MAX as int) {
            Some(v) => r == Some(ColumnValue::Int32(v as i32)),
            None => r is None,
        },
        ColumnKind::Long => match int_in(value, i64::MIN as int, i64::MAX as int) {
            Some(v) => r == Some(ColumnValue::Int64(v as i64)),
            None => r is None,
        },
        ColumnKind::Double => true,
        ColumnKind::Decimal => (r is Some <==> decimal_parses(value)) && (r is Some ==> r->0 is Decimal),
        ColumnKind::Bool => match bool_reading(value, lower_of(value), def.truthy, def.falsy) {
            Some(b) => r == Some(ColumnValue::Bool(b)),
            None => r is None,
        },
        ColumnKind::ObjectId => (r is Some <==> is_object_id_text(value)) && (r is Some ==> r->0 is ObjectId),
        ColumnKind::Date => (r is Some <==> date_readable(value, def.formats)) && (r is Some ==> r->0 is DateTime),
        ColumnKind::Timestamp => match parsed_u32(value) {
            Some(t) => r == Some(ColumnValue::Timestamp(t)),
            None => r is None,
        },
        ColumnKind::Regex => r matches Some(ColumnValue::Regex(p)) && p@ == value,
    }
}

/// Reads a column's text as its declared type. Doubles are read by the
/// caller.
pub fn read_column(value: &str, def: &FieldDef) -> (r: Option<ColumnValue>)
    requires
        kind_named(def.field_type@) != ColumnKind::Double,
    ensures
        reads_as(value@, *def, r),
{
    match crate::column::column_kind(def.field_type.as_str()) {
        ColumnKind::Text => Some(ColumnValue::Text(value.to_string())),
        ColumnKind::Int => match parse_i32(value) {
            Some(v) => Some(ColumnValue::Int32(v)),
            None => None,
        },
        ColumnKind::Long => match parse_i64(value) {
            Some(v) => Some(ColumnValue::Int64(v)),
            None => None,
        },
        ColumnKind::Double => None,
        ColumnKind::Decimal => match parse_decimal(value) {
            Some(d) => Some(ColumnValue::Decimal(d)),
            None => None,
        },
        ColumnKind::Bool => match read_bool(value, &def.truthy, &def.falsy) {
            Some(b) => Some(ColumnValue::Bool(b)),
            None => None,
        },
        ColumnKind::ObjectId => match parse_object_id(value) {
            Some(o) => Some(ColumnValue::ObjectId(o)),
            None => None,
        },
        ColumnKind::Date => match read_date(value, &def.formats) {
            Some(d) => Some(ColumnValue::DateTime(d)),
            None => None,
        },
        ColumnKind::Timestamp => match parse_u32(value) {
            Some(t) => Some(ColumnValue::Timestamp(t)),
            None => None,
        },
        ColumnKind::Regex => Some(ColumnValue::Regex(value.to_string())),
    }
}

} // verus!
