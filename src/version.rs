//! Server version strings: the major version decides the write strategy.

use vstd::prelude::*;

verus! {

pub open spec fn is_digit(c: char) -> bool {
    '0' <= c && c <= '9'
}

/// Value of a string of decimal digits.
pub open spec fn digits_value(s: Seq<char>) -> int
    decreases s.len(),
{
    if s.len() == 0 {
        0
    } else {
        digits_value(s.drop_last()) * 10 + (s.last() as u32 - '0' as u32)
    }
}

/// A `u32` written in decimal: an optional `+`, then one or more digits whose
/// value fits.
pub open spec fn parsed_u32(s: Seq<char>) -> Option<u32> {
    let body = if s.len() > 0 && s[0] == '+' {
        s.drop_first()
    } else {
        s
    };
    if body.len() > 0 && (forall|i: int| 0 <= i < body.len() ==> is_digit(#[trigger] body[i]))
        && digits_value(body) <= u32::MAX {
        Some(digits_value(body) as u32)
    } else {
        None
    }
}

/// Relies on `u32::from_str` (through `str::parse`), which accepts an
/// optional `+` and then ASCII decimal digits, and fails on anything else or
/// on a value over `u32::MAX`.
#[verifier::external_body]
pub(crate) fn parse_u32(s: &str) -> (r: Option<u32>)
    ensures
        r == parsed_u32(s@),
{
    s.parse::<u32>().ok()
}

/// The first of the dot-separated parts of `s`, with `cur` the part already
/// begun, that reads as a `u32`.
pub open spec fn first_number_from(s: Seq<char>, cur: Seq<char>) -> Option<u32>
    decreases s.len(),
{
    if s.len() == 0 {
        parsed_u32(cur)
    } else if s[0] == '.' {
        match parsed_u32(cur) {
            Some(v) => Some(v),
            None => first_number_from(s.drop_first(), Seq::empty()),
        }
    } else {
        first_number_from(s.drop_first(), cur.push(s[0]))
    }
}

/// The major version of a version string: its first dot-separated part that
/// reads as a number; parts that do not are passed over.
pub open spec fn major_version(s: Seq<char>) -> Option<u32> {
    first_number_from(s, Seq::empty())
}

/// Whether a server version string names version 8 or later.
pub fn is_version_8_or_higher(version_str: &str) -> (r: bool)
    ensures
        r == match major_version(version_str@) {
            Some(v) => v >= 8,
            None => false,
        },
{
    let ghost s = version_str@;
    let n = version_str.unicode_len();
    let mut start: usize = 0;
    let mut i: usize = 0;
    assert(s.skip(0) =~= s);
    assert(s.subrange(0, 0) =~= Seq::<char>::empty());
    while i < n
        invariant
            n == s.len(),
            start <= i <= n,
            s == version_str@,
            major_version(s) == first_number_from(s.skip(i as int), s.subrange(start as int, i as int)),
        decreases n - i,
    {
        let c = version_str.get_char(i);
        assert(s.skip(i as int).drop_first() =~= s.skip(i + 1));
        assert(s.skip(i as int)[0] == c);
        if c == '.' {
            let part = version_str.substring_char(start, i);
            match parse_u32(part) {
                Some(v) => {
                    return v >= 8;
                },
                None => {},
            }
            start = i + 1;
            assert(s.subrange(start as int, i + 1) =~= Seq::<char>::empty());
        } else {
            assert(s.subrange(start as int, i as int).push(c) =~= s.subrange(start as int, i + 1));
        }
        i = i + 1;
    }
    let part = version_str.substring_char(start, n);
    match parse_u32(part) {
        Some(v) => v >= 8,
        None => false,
    }
}

} // verus!
