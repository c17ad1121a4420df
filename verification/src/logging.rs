//! Application log rules: daily file names, the retention of managed log files, and the
//! redaction of credentials, local paths and line breaks from log messages.

use chrono::Datelike;
use vstd::prelude::*;

use crate::minutes::dates::{
    calendar_date_exists, date_exists, format_iso_date, iso_calendar_date, iso_date_text,
    parse_iso_date,
};
use crate::text::{chars_of, copy_str, ends_with, ends_with_chars, push_str, starts_with, starts_with_chars, string_from_chars};

verus! {

/// Days of logs kept: today and the fourteen days before.
pub const LOG_RETENTION_DAYS: i64 = 15;

/// How far before today the oldest retained log lies.
pub const RETAINED_DAYS_BEFORE_TODAY: i64 = 14;

/// The prefix of managed log file names.
pub const LOG_FILE_PREFIX: &'static str = "MeetingDesk-";

/// The suffix of managed log file names.
pub const LOG_FILE_SUFFIX: &'static str = ".log";

/// Redacted credentials in a message are replaced by this text.
pub const REDACTED_VALUE: &'static str = "[REDACTED]";

/// Redacted local paths in a message are replaced by this text.
pub const REDACTED_PATH: &'static str = "[PATH]";

/// Whole `Cookie` and `Authorization` header values.
pub const SENSITIVE_HEADER_PATTERN: &'static str = r"(?i)\b(authorization|cookie)\b(\s*[:=]\s*).*$";

/// Bearer credentials.
pub const BEARER_PATTERN: &'static str = r"(?i)\bbearer\s+[A-Za-z0-9._~+/=-]+";

/// Values of credential-like keys.
pub const SENSITIVE_VALUE_PATTERN: &'static str = r#"(?i)\b(api[_-]?key|access[_-]?token|refresh[_-]?token|token|authorization|cookie|secret|password)\b(\s*[:=]\s*)(?:\"[^\"]*\"|'[^']*'|[^\s,;]+)"#;

/// Double-quoted Windows absolute paths.
pub const DOUBLE_QUOTED_PATH_PATTERN: &'static str = r#"(?i)\"(?:\\\\\?\\|[a-z]:\\|\\\\)[^\"\r\n]*\""#;

/// Single-quoted Windows absolute paths.
pub const SINGLE_QUOTED_PATH_PATTERN: &'static str = r#"(?i)'(?:\\\\\?\\|[a-z]:\\|\\\\)[^'\r\n]*'"#;

/// Unquoted Windows absolute paths.
pub const UNQUOTED_PATH_PATTERN: &'static str = r#"(?i)(?:\\\\\?\\|[a-z]:\\|\\\\)[^\s,;\"']+"#;

/// The replacement that keeps a key and its separator and redacts the value.
pub const KEEP_KEY_REPLACEMENT: &'static str = "${1}${2}[REDACTED]";

/// The replacement of a bearer credential.
pub const BEARER_REPLACEMENT: &'static str = "Bearer [REDACTED]";

/// The replacement of a double-quoted path.
pub const DOUBLE_QUOTED_PATH_REPLACEMENT: &'static str = "\"[PATH]\"";

/// The replacement of a single-quoted path.
pub const SINGLE_QUOTED_PATH_REPLACEMENT: &'static str = "'[PATH]'";

/// A summary of logger start-up that is safe to show.
#[derive(Debug, Clone, Copy, PartialEq, Eq, Structural)]
pub struct LoggingInitReport {
    pub removed_expired_files: usize,
}

#[verifier::external_type_specification]
#[verifier::external_body]
pub struct ExIoError(std::io::Error);

/// A failure to set up the log directory or the global logger.
#[derive(Debug)]
pub enum LoggingInitError {
    Io(std::io::Error),
    LoggerAlreadyInitialized,
}

/// The date `days` days before an existing date, as chrono's `TimeDelta::try_days` and
/// `NaiveDate::checked_sub_signed` give it, as year, month and day; nothing when the day
/// count does not fit a `TimeDelta` or the date leaves chrono's range.
pub uninterp spec fn date_days_before(y: i32, m: u32, d: u32, days: i64) -> Option<(i32, u32, u32)>;

/// Subtracts whole days from an existing date with chrono's `TimeDelta::try_days` and
/// `NaiveDate::checked_sub_signed`; the result is the named earlier date, which exists
/// in chrono's calendar, or nothing when the count or the date is out of chrono's range.
#[verifier::external_body]
fn date_minus_days(y: i32, m: u32, d: u32, days: i64) -> (r: Option<(i32, u32, u32)>)
    requires
        calendar_date_exists(y, m, d),
    ensures
        r == date_days_before(y, m, d, days),
        r matches Some(t) ==> calendar_date_exists(t.0, t.1, t.2),
{
    match chrono::NaiveDate::from_ymd_opt(y, m, d) {
        Some(date) => match chrono::TimeDelta::try_days(days) {
            Some(delta) => match date.checked_sub_signed(delta) {
                Some(earlier) => Some((earlier.year(), earlier.month(), earlier.day())),
                None => None,
            },
            None => None,
        },
        None => None,
    }
}

/// The managed log file name of a date.
pub open spec fn log_file_name(y: i32, m: u32, d: u32) -> Seq<char> {
    LOG_FILE_PREFIX@ + iso_date_text(y, m, d) + LOG_FILE_SUFFIX@
}

/// The application log file name of an existing date.
pub(crate) fn daily_log_file_name(date: (i32, u32, u32)) -> (r: String)
    requires
        calendar_date_exists(date.0, date.1, date.2),
    ensures
        r@ == log_file_name(date.0, date.1, date.2),
{
    let mut name = copy_str(LOG_FILE_PREFIX);
    let text = format_iso_date(date.0, date.1, date.2);
    push_str(&mut name, text.as_str());
    push_str(&mut name, LOG_FILE_SUFFIX);
    name
}

/// The date of a strictly named managed log file: the prefix, a ten-byte date text that
/// chrono reads as `%Y-%m-%d` and writes back unchanged, and the suffix.
pub open spec fn managed_log_date(name: Seq<char>) -> Option<(i32, u32, u32)> {
    let prefix = LOG_FILE_PREFIX@;
    let suffix = LOG_FILE_SUFFIX@;
    if !starts_with(name, prefix) {
        None
    } else {
        let rest = name.skip(prefix.len() as int);
        if !ends_with(rest, suffix) {
            None
        } else {
            let text = rest.take(rest.len() - suffix.len());
            if vstd::utf8::encode_utf8(text).len() != 10 {
                None
            } else {
                match iso_calendar_date(text) {
                    Some(t) => if iso_date_text(t.0, t.1, t.2) == text {
                        Some(t)
                    } else {
                        None
                    },
                    None => None,
                }
            }
        }
    }
}

/// Reads the date from a strictly named managed log file.
pub fn parse_managed_log_date(file_name: &str) -> (r: Option<(i32, u32, u32)>)
    ensures
        r == managed_log_date(file_name@),
        r matches Some(t) ==> calendar_date_exists(t.0, t.1, t.2),
{
    let v = chars_of(file_name);
    let prefix = chars_of(LOG_FILE_PREFIX);
    let suffix = chars_of(LOG_FILE_SUFFIX);
    if !starts_with_chars(v.as_slice(), prefix.as_slice()) {
        return None;
    }
    let mut rest: Vec<char> = Vec::new();
    let mut i: usize = prefix.len();
    while i < v.len()
        invariant
            prefix@.len() <= i <= v@.len(),
            rest@ == v@.subrange(prefix@.len() as int, i as int),
        decreases v@.len() - i,
    {
        rest.push(v[i]);
        i = i + 1;
        proof {
            assert(rest@ =~= v@.subrange(prefix@.len() as int, i as int));
        }
    }
    proof {
        assert(rest@ =~= file_name@.skip(LOG_FILE_PREFIX@.len() as int));
    }
    if !ends_with_chars(rest.as_slice(), suffix.as_slice()) {
        return None;
    }
    let keep = rest.len() - suffix.len();
    let mut text_chars: Vec<char> = Vec::new();
    let mut k: usize = 0;
    while k < keep
        invariant
            k <= keep <= rest@.len(),
            text_chars@ == rest@.take(k as int),
        decreases keep - k,
    {
        text_chars.push(rest[k]);
        k = k + 1;
        proof {
            assert(text_chars@ =~= rest@.take(k as int));
        }
    }
    let text = string_from_chars(text_chars.as_slice());
    if text.as_str().as_bytes().len() != 10 {
        return None;
    }
    match parse_iso_date(text.as_str()) {
        Some(t) => {
            let again = format_iso_date(t.0, t.1, t.2);
            if crate::text::str_eq(again.as_str(), text.as_str()) {
                Some(t)
            } else {
                None
            }
        },
        None => None,
    }
}

/// Whether date `a` comes before date `b` in the calendar.
pub open spec fn date_before(a: (i32, u32, u32), b: (i32, u32, u32)) -> bool {
    a.0 < b.0 || (a.0 == b.0 && (a.1 < b.1 || (a.1 == b.1 && a.2 < b.2)))
}

/// Whether a file is an expired managed log on `today`: its name carries a date before
/// the first retained day (today minus fourteen days).
pub open spec fn expired_log(name: Seq<char>, today: (i32, u32, u32)) -> bool {
    match managed_log_date(name) {
        None => false,
        Some(date) => match date_days_before(today.0, today.1, today.2, RETAINED_DAYS_BEFORE_TODAY) {
            Some(cutoff) => date_before(date, cutoff),
            None => false,
        },
    }
}

/// Whether a file should be removed by the log cleanup on an existing day; files with
/// other names are never touched.
pub(crate) fn is_expired_log(file_name: &str, today: (i32, u32, u32)) -> (r: bool)
    requires
        calendar_date_exists(today.0, today.1, today.2),
    ensures
        r == expired_log(file_name@, today),
{
    let date = match parse_managed_log_date(file_name) {
        Some(d) => d,
        None => {
            return false;
        },
    };
    match date_minus_days(today.0, today.1, today.2, RETAINED_DAYS_BEFORE_TODAY) {
        Some(cutoff) => date.0 < cutoff.0 || (date.0 == cutoff.0 && (date.1 < cutoff.1 || (date.1
            == cutoff.1 && date.2 < cutoff.2))),
        None => false,
    }
}

/// The log file name of a date, or nothing when the date does not exist.
pub fn log_file_name_for(date: (i32, u32, u32)) -> (r: Option<String>)
    ensures
        calendar_date_exists(date.0, date.1, date.2) ==> (r matches Some(n) && n@ == log_file_name(
            date.0,
            date.1,
            date.2,
        )),
        !calendar_date_exists(date.0, date.1, date.2) ==> r is None,
{
    if date_exists(date.0, date.1, date.2) {
        Some(daily_log_file_name(date))
    } else {
        None
    }
}

/// The names among a directory's regular files that the cleanup removes on `today`, in
/// their order; nothing when `today` is not a date.
pub open spec fn expired_names(names: Seq<String>, today: (i32, u32, u32)) -> Seq<Seq<char>>
    decreases names.len(),
{
    if names.len() == 0 || !calendar_date_exists(today.0, today.1, today.2) {
        Seq::empty()
    } else {
        let rest = expired_names(names.drop_last(), today);
        if expired_log(names.last()@, today) {
            rest.push(names.last()@)
        } else {
            rest
        }
    }
}

/// Selects the expired managed logs among the names of a directory's regular files.
pub fn expired_log_names(file_names: &Vec<String>, today: (i32, u32, u32)) -> (r: Vec<String>)
    ensures
        r@.map_values(|s: String| s@) == expired_names(file_names@, today),
{
    let mut out: Vec<String> = Vec::new();
    if !date_exists(today.0, today.1, today.2) {
        proof {
            assert(out@.map_values(|s: String| s@) =~= expired_names(file_names@, today));
        }
        return out;
    }
    let mut i: usize = 0;
    proof {
        assert(file_names@.take(0) =~= Seq::<String>::empty());
    }
    while i < file_names.len()
        invariant
            i <= file_names@.len(),
            calendar_date_exists(today.0, today.1, today.2),
            out@.map_values(|s: String| s@) == expired_names(file_names@.take(i as int), today),
        decreases file_names@.len() - i,
    {
        proof {
            assert(file_names@.take(i + 1).drop_last() =~= file_names@.take(i as int));
        }
        let ghost before = out@;
        if is_expired_log(file_names[i].as_str(), today) {
            out.push(file_names[i].clone());
            proof {
                assert(out@.map_values(|s: String| s@) =~= before.map_values(|s: String| s@).push(
                    file_names@[i as int]@,
                ));
            }
        }
        i = i + 1;
    }
    proof {
        assert(file_names@.take(file_names@.len() as int) =~= file_names@);
    }
    out
}

/// Whether a character is a control code (general category Cc), as
/// `char::is_control` tests.
pub open spec fn is_control_char(c: char) -> bool {
    c <= '\u{1f}' || ('\u{7f}' <= c && c <= '\u{9f}')
}

/// A message with every control character replaced by a space, so that one message
/// stays one log line.
pub open spec fn controls_to_spaces(s: Seq<char>) -> Seq<char> {
    s.map_values(|c: char| if is_control_char(c) { ' ' } else { c })
}

/// What the `regex` crate's `Regex::replace_all` makes of a text for a pattern and a
/// replacement string, or nothing when the pattern does not compile.
pub uninterp spec fn regex_replaced(pattern: Seq<char>, text: Seq<char>, replacement: Seq<char>) -> Option<
    Seq<char>,
>;

/// Whether a text holds no control character.
pub open spec fn no_controls(s: Seq<char>) -> bool {
    forall|i: int| 0 <= i < s.len() ==> !is_control_char(#[trigger] s[i])
}

/// Compiles a pattern with `regex::Regex::new` and replaces every match with
/// `replace_all`; the result is the named replacement. As `replace_all` documents, the
/// result is made of the unmatched text and of the replacement, whose `$` references
/// expand to captured text, so every character of it occurs in the text or in the
/// replacement string.
#[verifier::external_body]
fn regex_replace_all(pattern: &str, text: &str, replacement: &str) -> (r: Option<String>)
    ensures
        match r {
            Some(s) => regex_replaced(pattern@, text@, replacement@) == Some(s@),
            None => regex_replaced(pattern@, text@, replacement@) is None,
        },
        r is Some ==> forall|i: int|
            0 <= i < r->Some_0@.len() ==> text@.contains(#[trigger] r->Some_0@[i]) || replacement@.contains(
                r->Some_0@[i],
            ),
{
    match regex::Regex::new(pattern) {
        Ok(re) => Some(re.replace_all(text, replacement).into_owned()),
        Err(_) => None,
    }
}

/// The text after one redaction pass; a pattern that does not compile leaves it as it is.
pub open spec fn redacted_with(pattern: Seq<char>, text: Seq<char>, replacement: Seq<char>) -> Seq<char> {
    match regex_replaced(pattern, text, replacement) {
        Some(r) => r,
        None => text,
    }
}

/// One redaction pass.
fn redact(pattern: &str, text: String, replacement: &str) -> (r: String)
    ensures
        r@ == redacted_with(pattern@, text@, replacement@),
        no_controls(text@) && no_controls(replacement@) ==> no_controls(r@),
{
    match regex_replace_all(pattern, text.as_str(), replacement) {
        Some(s) => {
            proof {
                if no_controls(text@) && no_controls(replacement@) {
                    assert forall|i: int| 0 <= i < s@.len() implies !is_control_char(#[trigger] s@[i]) by {
                        if text@.contains(s@[i]) {
                            let j = choose|j: int| 0 <= j < text@.len() && text@[j] == s@[i];
                            assert(!is_control_char(text@[j]));
                        } else {
                            let j = choose|j: int| 0 <= j < replacement@.len() && replacement@[j] == s@[i];
                            assert(!is_control_char(replacement@[j]));
                        }
                    }
                }
            }
            s
        },
        None => text,
    }
}

/// A log message made safe: control characters become spaces, then whole cookie and
/// authorization headers, bearer tokens, values of credential-like keys, and quoted and
/// unquoted Windows absolute paths are redacted, in that order.
pub open spec fn sanitized_message(m: Seq<char>) -> Seq<char> {
    let s0 = controls_to_spaces(m);
    let s1 = redacted_with(SENSITIVE_HEADER_PATTERN@, s0, KEEP_KEY_REPLACEMENT@);
    let s2 = redacted_with(BEARER_PATTERN@, s1, BEARER_REPLACEMENT@);
    let s3 = redacted_with(SENSITIVE_VALUE_PATTERN@, s2, KEEP_KEY_REPLACEMENT@);
    let s4 = redacted_with(DOUBLE_QUOTED_PATH_PATTERN@, s3, DOUBLE_QUOTED_PATH_REPLACEMENT@);
    let s5 = redacted_with(SINGLE_QUOTED_PATH_PATTERN@, s4, SINGLE_QUOTED_PATH_REPLACEMENT@);
    redacted_with(UNQUOTED_PATH_PATTERN@, s5, REDACTED_PATH@)
}

/// Replaces every control character of a message by a space.
pub fn replace_controls(message: &str) -> (r: String)
    ensures
        r@ == controls_to_spaces(message@),
{
    let v = chars_of(message);
    let mut out: Vec<char> = Vec::new();
    let mut i: usize = 0;
    while i < v.len()
        invariant
            i <= v@.len(),
            v@ == message@,
            out@ == controls_to_spaces(v@.take(i as int)),
        decreases v@.len() - i,
    {
        let c = v[i];
        out.push(
            if c <= '\u{1f}' || ('\u{7f}' <= c && c <= '\u{9f}') {
                ' '
            } else {
                c
            },
        );
        i = i + 1;
        proof {
            assert(controls_to_spaces(v@.take(i as int)) =~= controls_to_spaces(
                v@.take((i - 1) as int),
            ).push(
                if is_control_char(c) {
                    ' '
                } else {
                    c
                },
            ));
        }
    }
    proof {
        assert(v@.take(v@.len() as int) =~= v@);
    }
    string_from_chars(out.as_slice())
}

/// Redacts a log message that may hold credentials or local paths.
pub fn sanitize_log_message(message: &str) -> (r: String)
    ensures
        r@ == sanitized_message(message@),
        no_controls(r@),
{
    proof {
        reveal_strlit("${1}${2}[REDACTED]");
        reveal_strlit("Bearer [REDACTED]");
        reveal_strlit("\"[PATH]\"");
        reveal_strlit("'[PATH]'");
        reveal_strlit("[PATH]");
        assert(no_controls(KEEP_KEY_REPLACEMENT@));
        assert(no_controls(BEARER_REPLACEMENT@));
        assert(no_controls(DOUBLE_QUOTED_PATH_REPLACEMENT@));
        assert(no_controls(SINGLE_QUOTED_PATH_REPLACEMENT@));
        assert(no_controls(REDACTED_PATH@));
    }
    let s = replace_controls(message);
    let s = redact(SENSITIVE_HEADER_PATTERN, s, KEEP_KEY_REPLACEMENT);
    let s = redact(BEARER_PATTERN, s, BEARER_REPLACEMENT);
    let s = redact(SENSITIVE_VALUE_PATTERN, s, KEEP_KEY_REPLACEMENT);
    let s = redact(DOUBLE_QUOTED_PATH_PATTERN, s, DOUBLE_QUOTED_PATH_REPLACEMENT);
    let s = redact(SINGLE_QUOTED_PATH_PATTERN, s, SINGLE_QUOTED_PATH_REPLACEMENT);
    redact(UNQUOTED_PATH_PATTERN, s, REDACTED_PATH)
}

/// A replaced message holds no control character: one message stays one log line until
/// the redaction passes.
pub proof fn law_controls_become_spaces(m: Seq<char>)
    ensures
        controls_to_spaces(m).len() == m.len(),
        forall|i: int| 0 <= i < m.len() ==> !is_control_char(#[trigger] controls_to_spaces(m)[i]),
{
}

} // verus!
