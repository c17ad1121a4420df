//! Meeting times and explicit due dates: RFC 3339 instants and calendar dates come
//! from chrono; the rules on them (ordering, accepted date spellings) are checked here.

use chrono::Datelike;
use vstd::prelude::*;

use super::error::{schema_violation, semantic_violation, MinutesError};
use crate::text::{chars_of, string_from_chars, trim, trim_str};

verus! {

/// The instant an RFC 3339 date-time names, as whole seconds since the Unix epoch and
/// the nanosecond part, or nothing when chrono's RFC 3339 parser rejects the text.
pub uninterp spec fn rfc3339_instant(s: Seq<char>) -> Option<(i64, u32)>;

/// The calendar date that chrono reads from a text in the `%Y-%m-%d` format, as year,
/// month and day, or nothing when the text is not such a date.
pub uninterp spec fn iso_calendar_date(s: Seq<char>) -> Option<(i32, u32, u32)>;

/// Whether chrono accepts a year, month and day as a date of the proleptic Gregorian
/// calendar within its supported range.
pub uninterp spec fn calendar_date_exists(y: i32, m: u32, d: u32) -> bool;

/// The `%Y-%m-%d` text that chrono writes for an existing date.
pub uninterp spec fn iso_date_text(y: i32, m: u32, d: u32) -> Seq<char>;

/// Parses an RFC 3339 date-time with chrono's `DateTime::parse_from_rfc3339` and
/// returns its instant (`timestamp`, `timestamp_subsec_nanos`); the result is the
/// named instant of the text.
#[verifier::external_body]
fn parse_rfc3339(s: &str) -> (r: Option<(i64, u32)>)
    ensures
        r == rfc3339_instant(s@),
{
    match chrono::DateTime::parse_from_rfc3339(s) {
        Ok(d) => Some((d.timestamp(), d.timestamp_subsec_nanos())),
        Err(_) => None,
    }
}

/// Parses a `%Y-%m-%d` date with chrono's `NaiveDate::parse_from_str`; the result is
/// the named date of the text, and a parsed date always exists in chrono's calendar.
#[verifier::external_body]
pub(crate) fn parse_iso_date(s: &str) -> (r: Option<(i32, u32, u32)>)
    ensures
        r == iso_calendar_date(s@),
        r matches Some(t) ==> calendar_date_exists(t.0, t.1, t.2),
{
    match chrono::NaiveDate::parse_from_str(s, "%Y-%m-%d") {
        Ok(d) => Some((d.year(), d.month(), d.day())),
        Err(_) => None,
    }
}

/// Whether chrono's `NaiveDate::from_ymd_opt` accepts the year, month and day.
#[verifier::external_body]
pub(crate) fn date_exists(y: i32, m: u32, d: u32) -> (r: bool)
    ensures
        r == calendar_date_exists(y, m, d),
{
    chrono::NaiveDate::from_ymd_opt(y, m, d).is_some()
}

/// Formats an existing date with chrono's `format("%Y-%m-%d")`.
#[verifier::external_body]
pub(crate) fn format_iso_date(y: i32, m: u32, d: u32) -> (r: String)
    requires
        calendar_date_exists(y, m, d),
    ensures
        r@ == iso_date_text(y, m, d),
{
    match chrono::NaiveDate::from_ymd_opt(y, m, d) {
        Some(date) => date.format("%Y-%m-%d").to_string(),
        None => String::new(),
    }
}

/// Whether instant `a` lies strictly before instant `b`.
pub open spec fn instant_before(a: (i64, u32), b: (i64, u32)) -> bool {
    a.0 < b.0 || (a.0 == b.0 && a.1 < b.1)
}

/// The error of a meeting time range, if any: each present bound must be an RFC 3339
/// date-time, and the end may not lie before the start.
pub open spec fn meeting_time_error(
    start_at: Option<Seq<char>>,
    end_at: Option<Seq<char>>,
    path: &'static str,
) -> Option<MinutesError> {
    if start_at is Some && rfc3339_instant(start_at.unwrap()) is None {
        Some(schema_violation("invalid_date_time", path))
    } else if end_at is Some && rfc3339_instant(end_at.unwrap()) is None {
        Some(schema_violation("invalid_date_time", path))
    } else if start_at is Some && end_at is Some && instant_before(
        rfc3339_instant(end_at.unwrap()).unwrap(),
        rfc3339_instant(start_at.unwrap()).unwrap(),
    ) {
        Some(semantic_violation("invalid_time_range", path))
    } else {
        None
    }
}

/// Checks an RFC 3339 meeting time range and its order.
pub fn validate_meeting_time(
    start_at: &Option<String>,
    end_at: &Option<String>,
    path: &'static str,
) -> (r: Result<(), MinutesError>)
    ensures
        r is Err <==> meeting_time_error(
            super::model::opt_view(*start_at),
            super::model::opt_view(*end_at),
            path,
        ) is Some,
        r matches Err(e) ==> meeting_time_error(
            super::model::opt_view(*start_at),
            super::model::opt_view(*end_at),
            path,
        ) == Some(e),
{
    let start = match start_at {
        Some(s) => match parse_rfc3339(s.as_str()) {
            Some(t) => Some(t),
            None => {
                return Err(MinutesError::SchemaViolation { code: "invalid_date_time", path });
            },
        },
        None => None,
    };
    let end = match end_at {
        Some(s) => match parse_rfc3339(s.as_str()) {
            Some(t) => Some(t),
            None => {
                return Err(MinutesError::SchemaViolation { code: "invalid_date_time", path });
            },
        },
        None => None,
    };
    match (start, end) {
        (Some(a), Some(b)) => {
            if b.0 < a.0 || (b.0 == a.0 && b.1 < a.1) {
                return Err(MinutesError::SemanticViolation { code: "invalid_time_range", path });
            }
        },
        _ => {},
    }
    Ok(())
}

/// Whether a character is an ASCII digit.
pub open spec fn is_digit(c: char) -> bool {
    '0' <= c && c <= '9'
}

/// Whether every character is an ASCII digit.
pub open spec fn all_digits(s: Seq<char>) -> bool {
    forall|i: int| 0 <= i < s.len() ==> is_digit(#[trigger] s[i])
}

/// The decimal value of a digit string.
pub open spec fn digits_value(s: Seq<char>) -> nat
    decreases s.len(),
{
    if s.len() == 0 {
        0
    } else {
        digits_value(s.drop_last()) * 10 + ((s.last() as int) - 48) as nat
    }
}

/// What `str::parse::<u32>` gives for a digit string: its value when it is not empty
/// and fits.
pub open spec fn parse_u32_digits(s: Seq<char>) -> Option<u32> {
    if s.len() > 0 && digits_value(s) <= u32::MAX {
        Some(digits_value(s) as u32)
    } else {
        None
    }
}

/// The position of the first `c` at or after `i`.
pub open spec fn first_index_from(s: Seq<char>, c: char, i: int) -> Option<int>
    decreases s.len() - i,
{
    if i < 0 || i >= s.len() {
        None
    } else if s[i] == c {
        Some(i)
    } else {
        first_index_from(s, c, i + 1)
    }
}

/// A fully explicit Chinese calendar date `YYYY年M月D日`, read without filling in anything.
pub open spec fn chinese_date(v: Seq<char>) -> Option<(i32, u32, u32)> {
    if v.len() == 0 || v.last() != '日' {
        None
    } else {
        let w = v.drop_last();
        match first_index_from(w, '年', 0) {
            None => None,
            Some(a) => {
                let year = w.take(a);
                let rest = w.skip(a + 1);
                match first_index_from(rest, '月', 0) {
                    None => None,
                    Some(b) => {
                        let month = rest.take(b);
                        let day = rest.skip(b + 1);
                        if year.len() != 4 || !all_digits(year) || !all_digits(month) || !all_digits(
                            day,
                        ) {
                            None
                        } else {
                            match (parse_u32_digits(month), parse_u32_digits(day)) {
                                (Some(m), Some(d)) => {
                                    let y = digits_value(year) as i32;
                                    if calendar_date_exists(y, m, d) {
                                        Some((y, m, d))
                                    } else {
                                        None
                                    }
                                },
                                _ => None,
                            }
                        }
                    },
                }
            },
        }
    }
}

/// The normalized due date of a due-date text: only a complete `YYYY-MM-DD` or
/// `YYYY年M月D日` calendar date counts, written back as `YYYY-MM-DD`.
pub open spec fn explicit_due_date(v: Seq<char>) -> Option<Seq<char>> {
    let t = trim(v);
    match iso_calendar_date(t) {
        Some(d) => Some(iso_date_text(d.0, d.1, d.2)),
        None => match chinese_date(t) {
            Some(d) => Some(iso_date_text(d.0, d.1, d.2)),
            None => None,
        },
    }
}

/// Larger digit strings never have a smaller value than their prefixes.
proof fn lemma_digits_value_monotone(s: Seq<char>, i: int)
    requires
        0 <= i <= s.len(),
    ensures
        digits_value(s.take(i)) <= digits_value(s),
    decreases s.len() - i,
{
    if i < s.len() {
        lemma_digits_value_monotone(s, i + 1);
        assert(s.take(i + 1).drop_last() =~= s.take(i));
    } else {
        assert(s.take(i) =~= s);
    }
}

/// Four digits stay below ten thousand.
proof fn lemma_four_digits_bound(s: Seq<char>)
    requires
        s.len() == 4,
        all_digits(s),
    ensures
        digits_value(s) < 10000,
{
    assert(is_digit(s[0]) && is_digit(s[1]) && is_digit(s[2]) && is_digit(s[3]));
    let s3 = s.drop_last();
    let s2 = s3.drop_last();
    let s1 = s2.drop_last();
    let s0 = s1.drop_last();
    assert(s0.len() == 0);
    assert(digits_value(s0) == 0);
    assert(digits_value(s1) < 10);
    assert(digits_value(s2) < 100);
    assert(digits_value(s3) < 1000);
}

/// Parses a digit string as `u32`, failing when it is empty or too large.
fn parse_digits_u32(v: &[char]) -> (r: Option<u32>)
    requires
        all_digits(v@),
    ensures
        r == parse_u32_digits(v@),
{
    if v.len() == 0 {
        return None;
    }
    let mut acc: u64 = 0;
    let mut i: usize = 0;
    while i < v.len()
        invariant
            0 <= i <= v@.len(),
            all_digits(v@),
            acc as nat == digits_value(v@.take(i as int)),
            acc <= u32::MAX,
        decreases v@.len() - i,
    {
        let d: u64 = (v[i] as u32 - 48) as u64;
        proof {
            let tk = v@.take(i + 1);
            assert(tk.drop_last() =~= v@.take(i as int));
            assert(is_digit(v@[i as int]));
        }
        acc = acc * 10 + d;
        if acc > 0xffff_ffff {
            proof {
                lemma_digits_value_monotone(v@, i + 1);
            }
            return None;
        }
        i = i + 1;
    }
    proof {
        assert(v@.take(v@.len() as int) =~= v@);
    }
    Some(acc as u32)
}

/// The position of the first `c` at or after `start`.
fn find_char(v: &[char], c: char, start: usize) -> (r: Option<usize>)
    requires
        start <= v@.len(),
    ensures
        r is None <==> first_index_from(v@, c, start as int) is None,
        r matches Some(k) ==> first_index_from(v@, c, start as int) == Some(k as int) && start <= k
            < v@.len(),
{
    let mut i: usize = start;
    while i < v.len()
        invariant
            start <= i <= v@.len(),
            first_index_from(v@, c, start as int) == first_index_from(v@, c, i as int),
        decreases v@.len() - i,
    {
        if v[i] == c {
            return Some(i);
        }
        i = i + 1;
    }
    None
}

/// Whether every character of a slice is an ASCII digit.
fn digits_only(v: &[char]) -> (r: bool)
    ensures
        r == all_digits(v@),
{
    let mut i: usize = 0;
    while i < v.len()
        invariant
            0 <= i <= v@.len(),
            forall|k: int| 0 <= k < i ==> is_digit(#[trigger] v@[k]),
        decreases v@.len() - i,
    {
        if !('0' <= v[i] && v[i] <= '9') {
            return false;
        }
        i = i + 1;
    }
    true
}

/// The characters `v[lo..hi]`.
fn slice_chars(v: &[char], lo: usize, hi: usize) -> (r: Vec<char>)
    requires
        lo <= hi <= v@.len(),
    ensures
        r@ == v@.subrange(lo as int, hi as int),
{
    let mut r: Vec<char> = Vec::new();
    let mut i: usize = lo;
    while i < hi
        invariant
            lo <= i <= hi,
            hi <= v@.len(),
            r@ == v@.subrange(lo as int, i as int),
        decreases hi - i,
    {
        r.push(v[i]);
        i = i + 1;
        proof {
            assert(v@.subrange(lo as int, i as int) =~= v@.subrange(lo as int, (i - 1) as int).push(
                v@[i - 1],
            ));
        }
    }
    r
}

/// Reads a fully explicit `YYYY年M月D日` date.
fn parse_chinese_date(v: &[char]) -> (r: Option<(i32, u32, u32)>)
    ensures
        r == chinese_date(v@),
{
    if v.len() == 0 || v[v.len() - 1] != '日' {
        return None;
    }
    let w = slice_chars(v, 0, v.len() - 1);
    proof {
        assert(w@ =~= v@.drop_last());
    }
    let a = match find_char(w.as_slice(), '年', 0) {
        None => {
            return None;
        },
        Some(a) => a,
    };
    let year = slice_chars(w.as_slice(), 0, a);
    let rest = slice_chars(w.as_slice(), a + 1, w.len());
    proof {
        assert(year@ =~= w@.take(a as int));
        assert(rest@ =~= w@.skip(a + 1));
    }
    proof {
        assert(first_index_from(v@.drop_last(), '年', 0) == Some(a as int));
        assert(v@.drop_last().take(a as int) == year@);
        assert(v@.drop_last().skip(a + 1) == rest@);
    }
    let b = match find_char(rest.as_slice(), '月', 0) {
        None => {
            return None;
        },
        Some(b) => b,
    };
    let month = slice_chars(rest.as_slice(), 0, b);
    let day = slice_chars(rest.as_slice(), b + 1, rest.len());
    proof {
        assert(month@ =~= rest@.take(b as int));
        assert(day@ =~= rest@.skip(b + 1));
        assert(first_index_from(rest@, '月', 0) == Some(b as int));
    }
    if year.len() != 4 || !digits_only(year.as_slice()) || !digits_only(month.as_slice())
        || !digits_only(day.as_slice()) {
        return None;
    }
    proof {
        lemma_four_digits_bound(year@);
    }
    let y = match parse_digits_u32(year.as_slice()) {
        Some(y) => y,
        None => {
            return None;
        },
    };
    let m = match parse_digits_u32(month.as_slice()) {
        Some(m) => m,
        None => {
            return None;
        },
    };
    let d = match parse_digits_u32(day.as_slice()) {
        Some(d) => d,
        None => {
            return None;
        },
    };
    let yi: i32 = y as i32;
    if date_exists(yi, m, d) {
        Some((yi, m, d))
    } else {
        None
    }
}

/// Returns `YYYY-MM-DD` only when the trimmed due-date text itself is a complete
/// calendar date (`YYYY-MM-DD` or `YYYY年M月D日`); nothing is filled in or guessed.
pub fn normalize_explicit_due_date(value: &str) -> (r: Option<String>)
    ensures
        match explicit_due_date(value@) {
            Some(t) => r is Some && r->Some_0@ == t,
            None => r is None,
        },
{
    let t = trim_str(value);
    match parse_iso_date(t.as_str()) {
        Some(date) => {
            return Some(format_iso_date(date.0, date.1, date.2));
        },
        None => {},
    }
    let v = chars_of(t.as_str());
    match parse_chinese_date(v.as_slice()) {
        Some(date) => Some(format_iso_date(date.0, date.1, date.2)),
        None => None,
    }
}

} // verus!
