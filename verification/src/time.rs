//! The timestamp / datetime conversion layer.
//!
//! Pure conversions between signed epoch values and local-time text,
//! a validator for user-supplied strftime-style format strings, the
//! fixed table of canned formats, and the heuristic that classifies a
//! datetime text by shape and picks a parse format for it. Parsing and
//! rendering themselves are chrono's, behind trusted wrappers; a text
//! parsed without a zone is taken as Beijing wall-clock time (UTC+8),
//! while epoch values are rendered in the machine's local zone — a
//! deliberate asymmetry.

use chrono::TimeZone;
use std::fmt::Write;
use vstd::prelude::*;

use crate::numeric::spec_idec;
use crate::numeric::i64_to_dec;
use crate::numeric::spec_parse_i64;
use crate::numeric::parse_i64;
use crate::scan::spec_count_char;
use crate::scan::count_char;
use crate::scan::spec_is_blank;
use crate::scan::is_blank;
use crate::scan::contains_char;

verus! {

// ---------------------------------------------------------------------
// What chrono computes, by name.
// ---------------------------------------------------------------------

/// Whether chrono can render with this format string: its strftime
/// items contain no error item. Depends on the format text alone.
pub uninterp spec fn strftime_ok(f: Seq<char>) -> bool;

/// The UTC epoch seconds of this text parsed as a bare date with this
/// format, taken as midnight Beijing time; `None` when the parse fails.
pub uninterp spec fn date_epoch(s: Seq<char>, f: Seq<char>) -> Option<int>;

/// Whether this text parses as a bare time of day with this format.
pub uninterp spec fn time_parse_ok(s: Seq<char>, f: Seq<char>) -> bool;

/// The (UTC epoch seconds, subsecond milliseconds) of this text parsed
/// as a bare datetime with this format, taken as Beijing wall-clock
/// time; `None` when the parse fails.
pub uninterp spec fn full_epoch(s: Seq<char>, f: Seq<char>) -> Option<(int, int)>;

/// Whether this (seconds, nanoseconds) pair is representable as an
/// instant: chrono's datetime range.
pub uninterp spec fn epoch_in_range(secs: int, nanos: int) -> bool;

/// Relies on chrono's Local::now and DelayedFormat: rendering fails
/// exactly when the format has an error item (a property of the format
/// text alone), and a format holding a numeric specifier always renders
/// at least one character.
#[verifier::external_body]
fn render_now(f: &str) -> (r: Option<String>)
    ensures
        match r {
            Some(t) => strftime_ok(f@) && (spec_has_specifier(f@) ==> t@.len() > 0),
            None => !strftime_ok(f@),
        },
{
    let mut out = String::new();
    match write!(out, "{}", chrono::Local::now().format(f)) {
        Ok(()) => Some(out),
        Err(_) => None,
    }
}

/// Relies on chrono's DateTime::from_timestamp (None exactly on an
/// out-of-range pair) and local rendering as in `render_now`. The text
/// depends on the machine's zone, so only its non-emptiness is stated.
#[verifier::external_body]
fn format_epoch_local(secs: i64, nanos: u32, f: &str) -> (r: Option<String>)
    ensures
        match r {
            Some(t) => epoch_in_range(secs as int, nanos as int) && strftime_ok(f@) && (
            spec_has_specifier(f@) ==> t@.len() > 0),
            None => !(epoch_in_range(secs as int, nanos as int) && strftime_ok(f@)),
        },
{
    let dt = match chrono::DateTime::from_timestamp(secs, nanos) {
        Some(d) => d,
        None => return None,
    };
    let mut out = String::new();
    match write!(out, "{}", dt.with_timezone(&chrono::Local).format(f)) {
        Ok(()) => Some(out),
        Err(_) => None,
    }
}

/// Relies on chrono's NaiveDate::parse_from_str and FixedOffset
/// conversion: the parsed date at midnight Beijing time, as UTC epoch
/// seconds, a function of the two texts alone; the value is bounded by
/// chrono's representable year range.
#[verifier::external_body]
fn parse_date_beijing(s: &str, f: &str) -> (r: Option<i64>)
    ensures
        match r {
            Some(x) => date_epoch(s@, f@) matches Some(v) && x as int == v
                && -10_000_000_000_000 < x < 10_000_000_000_000,
            None => date_epoch(s@, f@) is None,
        },
{
    let date = match chrono::NaiveDate::parse_from_str(s, f) {
        Ok(d) => d,
        Err(_) => return None,
    };
    let dt = date.and_hms_opt(0, 0, 0)?;
    let tz = chrono::FixedOffset::east_opt(28800)?;
    match tz.from_local_datetime(&dt) {
        chrono::MappedLocalTime::Single(z) => Some(z.timestamp()),
        _ => None,
    }
}

/// Relies on chrono's NaiveTime::parse_from_str: whether the text
/// parses depends on the two texts alone; the value uses today's local
/// date, so only its bounds are stated. Subseconds may reach 1999 on a
/// leap second.
#[verifier::external_body]
fn parse_time_today_beijing(s: &str, f: &str) -> (r: Option<(i64, u32)>)
    ensures
        match r {
            Some(p) => time_parse_ok(s@, f@) && -10_000_000_000_000 < p.0
                < 10_000_000_000_000 && p.1 < 2000,
            None => !time_parse_ok(s@, f@),
        },
{
    let time = match chrono::NaiveTime::parse_from_str(s, f) {
        Ok(t) => t,
        Err(_) => return None,
    };
    let today = chrono::Local::now().date_naive();
    let dt = today.and_time(time);
    let tz = chrono::FixedOffset::east_opt(28800)?;
    match tz.from_local_datetime(&dt) {
        chrono::MappedLocalTime::Single(z) => Some((z.timestamp(), z.timestamp_subsec_millis())),
        _ => None,
    }
}

/// Relies on chrono's NaiveDateTime::parse_from_str and FixedOffset
/// conversion: the parsed instant taken as Beijing wall-clock time, as
/// (UTC epoch seconds, subsecond milliseconds), a function of the two
/// texts alone, bounded by chrono's representable range.
#[verifier::external_body]
fn parse_full_beijing(s: &str, f: &str) -> (r: Option<(i64, u32)>)
    ensures
        match r {
            Some(p) => full_epoch(s@, f@) matches Some(q) && p.0 as int == q.0 && p.1 as int
                == q.1 && -10_000_000_000_000 < p.0 < 10_000_000_000_000 && p.1 < 2000,
            None => full_epoch(s@, f@) is None,
        },
{
    let dt = match chrono::NaiveDateTime::parse_from_str(s, f) {
        Ok(d) => d,
        Err(_) => return None,
    };
    let tz = chrono::FixedOffset::east_opt(28800)?;
    match tz.from_local_datetime(&dt) {
        chrono::MappedLocalTime::Single(z) => Some((z.timestamp(), z.timestamp_subsec_millis())),
        _ => None,
    }
}

/// Relies on chrono's Utc::now: the current instant as (epoch seconds,
/// subsecond milliseconds), bounded by chrono's representable range.
#[verifier::external_body]
fn now_epoch() -> (r: (i64, u32))
    ensures
        -10_000_000_000_000 < r.0 < 10_000_000_000_000,
        r.1 < 2000,
{
    let now = chrono::Utc::now();
    (now.timestamp(), now.timestamp_subsec_millis())
}

/// Relies on String::push: appends the one character.
#[verifier::external_body]
fn push_char(s: &mut String, c: char)
    ensures
        final(s)@ == old(s)@ + seq![c],
{
    s.push(c);
}

// ---------------------------------------------------------------------
// The canned format table.
// ---------------------------------------------------------------------

/// The table of canned formats, by index 0..17.
pub open spec fn canned_text(i: int) -> Seq<char> {
    if i == 0 {
        "%Y-%m-%d %H:%M:%S"@
    } else if i == 1 {
        "%Y/%m/%d %H:%M:%S"@
    } else if i == 2 {
        "%Y年%m月%d日 %H:%M:%S"@
    } else if i == 3 {
        "%Y@%m@%d %H:%M:%S"@
    } else if i == 4 {
        "%Y-%m-%d"@
    } else if i == 5 {
        "%Y/%m/%d"@
    } else if i == 6 {
        "%Y年%m月%d日"@
    } else if i == 7 {
        "%Y@%m@%d"@
    } else if i == 8 {
        "%H:%M:%S"@
    } else if i == 9 {
        "%H:%M"@
    } else if i == 10 {
        "%Y-%m-%d %H:%M"@
    } else if i == 11 {
        "%Y/%m/%d %H:%M"@
    } else if i == 12 {
        "%Y@%m@%d %H:%M"@
    } else if i == 13 {
        "%m-%d %H:%M"@
    } else if i == 14 {
        "%m/%d %H:%M"@
    } else if i == 15 {
        "%m@%d %H:%M"@
    } else if i == 16 {
        "%Y-%m-%d %H:%M:%S.%3f"@
    } else {
        "%Y@%m@%d %H:%M:%S.%3f"@
    }
}

/// The default format: canned index 0.
pub open spec fn default_format_text() -> Seq<char> {
    "%Y-%m-%d %H:%M:%S"@
}

/// The whole canned table, in declaration order.
pub fn get_all_supported_formats() -> (r: Vec<&'static str>)
    ensures
        r@.len() == 18,
        forall|i: int| 0 <= i < 18 ==> (#[trigger] r@[i])@ == canned_text(i),
{
    let mut v: Vec<&'static str> = Vec::new();
    v.push("%Y-%m-%d %H:%M:%S");
    v.push("%Y/%m/%d %H:%M:%S");
    v.push("%Y年%m月%d日 %H:%M:%S");
    v.push("%Y@%m@%d %H:%M:%S");
    v.push("%Y-%m-%d");
    v.push("%Y/%m/%d");
    v.push("%Y年%m月%d日");
    v.push("%Y@%m@%d");
    v.push("%H:%M:%S");
    v.push("%H:%M");
    v.push("%Y-%m-%d %H:%M");
    v.push("%Y/%m/%d %H:%M");
    v.push("%Y@%m@%d %H:%M");
    v.push("%m-%d %H:%M");
    v.push("%m/%d %H:%M");
    v.push("%m@%d %H:%M");
    v.push("%Y-%m-%d %H:%M:%S.%3f");
    v.push("%Y@%m@%d %H:%M:%S.%3f");
    v
}

/// The canned format for a GUI index; anything out of 0..17 falls back
/// to index 0.
pub fn format_by_index(idx: i32) -> (r: &'static str)
    ensures
        0 <= idx < 18 ==> r@ == canned_text(idx as int),
        !(0 <= idx < 18) ==> r@ == canned_text(0),
{
    if idx == 0 {
        "%Y-%m-%d %H:%M:%S"
    } else if idx == 1 {
        "%Y/%m/%d %H:%M:%S"
    } else if idx == 2 {
        "%Y年%m月%d日 %H:%M:%S"
    } else if idx == 3 {
        "%Y@%m@%d %H:%M:%S"
    } else if idx == 4 {
        "%Y-%m-%d"
    } else if idx == 5 {
        "%Y/%m/%d"
    } else if idx == 6 {
        "%Y年%m月%d日"
    } else if idx == 7 {
        "%Y@%m@%d"
    } else if idx == 8 {
        "%H:%M:%S"
    } else if idx == 9 {
        "%H:%M"
    } else if idx == 10 {
        "%Y-%m-%d %H:%M"
    } else if idx == 11 {
        "%Y/%m/%d %H:%M"
    } else if idx == 12 {
        "%Y@%m@%d %H:%M"
    } else if idx == 13 {
        "%m-%d %H:%M"
    } else if idx == 14 {
        "%m/%d %H:%M"
    } else if idx == 15 {
        "%m@%d %H:%M"
    } else if idx == 16 {
        "%Y-%m-%d %H:%M:%S.%3f"
    } else if idx == 17 {
        "%Y@%m@%d %H:%M:%S.%3f"
    } else {
        "%Y-%m-%d %H:%M:%S"
    }
}

// ---------------------------------------------------------------------
// Format validation.
// ---------------------------------------------------------------------

/// The characters a format string may use.
pub open spec fn valid_format_char(c: char) -> bool {
    c == '%' || c == 'Y' || c == 'y' || c == 'm' || c == 'd' || c == 'H' || c == 'M' || c == 'S'
        || c == '-' || c == '/' || c == '@' || c == '年' || c == '月' || c == '日' || c == ':'
        || c == ' ' || c == '.' || c == 'f'
}

/// The first character outside the allowed set, scanning left to right.
pub open spec fn spec_first_bad_char(f: Seq<char>) -> Option<char>
    decreases f.len(),
{
    if f.len() == 0 {
        None
    } else if !valid_format_char(f[0]) {
        Some(f[0])
    } else {
        spec_first_bad_char(f.drop_first())
    }
}

/// One of the seven specifier letters that may follow '%'.
pub open spec fn specifier_letter(c: char) -> bool {
    c == 'Y' || c == 'y' || c == 'm' || c == 'd' || c == 'H' || c == 'M' || c == 'S'
}

/// The format contains one of %Y %y %m %d %H %M %S.
pub open spec fn spec_has_specifier(f: Seq<char>) -> bool {
    exists|i: int| 0 <= i < f.len() - 1 && #[trigger] f[i] == '%' && specifier_letter(f[i + 1])
}

/// A well-formed format: non-empty, drawn from the allowed character
/// set, holding at least one specifier.
pub open spec fn format_wf(f: Seq<char>) -> bool {
    f.len() > 0 && spec_first_bad_char(f) is None && spec_has_specifier(f)
}

/// What the validator accepts: a well-formed format that chrono can
/// also render with.
pub open spec fn format_accepted(f: Seq<char>) -> bool {
    format_wf(f) && strftime_ok(f)
}

/// Finds the first character outside the allowed set.
fn first_bad_char(f: &str) -> (r: Option<char>)
    ensures
        r == spec_first_bad_char(f@),
{
    let n = f.unicode_len();
    let mut i: usize = 0;
    proof {
        assert(f@.skip(0) =~= f@);
    }
    while i < n
        invariant
            0 <= i <= n,
            n == f@.len(),
            spec_first_bad_char(f@) == spec_first_bad_char(f@.skip(i as int)),
            forall|j: int| 0 <= j < i ==> valid_format_char(#[trigger] f@[j]),
        decreases n - i,
    {
        let c = f.get_char(i);
        let ok = c == '%' || c == 'Y' || c == 'y' || c == 'm' || c == 'd' || c == 'H' || c == 'M'
            || c == 'S' || c == '-' || c == '/' || c == '@' || c == '年' || c == '月' || c == '日'
            || c == ':' || c == ' ' || c == '.' || c == 'f';
        proof {
            assert(f@.skip(i as int).len() > 0);
            assert(f@.skip(i as int)[0] == c);
            assert(f@.skip(i as int).drop_first() =~= f@.skip(i as int + 1));
        }
        if !ok {
            return Some(c);
        }
        i = i + 1;
    }
    proof {
        assert(f@.skip(n as int).len() == 0);
    }
    None
}

/// Scans for a '%' followed by a specifier letter.
fn has_specifier(f: &str) -> (r: bool)
    ensures
        r == spec_has_specifier(f@),
{
    let n = f.unicode_len();
    if n < 2 {
        return false;
    }
    let mut i: usize = 0;
    while i < n - 1
        invariant
            0 <= i <= n - 1,
            n >= 2,
            n == f@.len(),
            forall|j: int|
                0 <= j < i ==> !(#[trigger] f@[j] == '%' && specifier_letter(f@[j + 1])),
        decreases n - i,
    {
        let c = f.get_char(i);
        let d = f.get_char(i + 1);
        if c == '%' && (d == 'Y' || d == 'y' || d == 'm' || d == 'd' || d == 'H' || d == 'M' || d
            == 'S') {
            proof {
                assert(f@[i as int] == '%' && specifier_letter(f@[i as int + 1]));
            }
            return true;
        }
        i = i + 1;
    }
    false
}

/// The validator's message for a format character outside the set.
pub open spec fn invalid_char_text(c: char) -> Seq<char> {
    "invalid time-format character: "@ + seq![c]
}

/// Validates a format string: non-empty, drawn from the allowed set,
/// holding at least one specifier, and renderable — a render of the
/// current instant is attempted and an empty or failed render is
/// invalid. Each rejection's message is pinned to its cause.
pub fn validate_time_format(format: &str) -> (r: Result<(), String>)
    ensures
        r is Ok <==> format_accepted(format@),
        format@.len() == 0 ==> (r matches Err(m) && m@ == "time format must not be empty"@),
        spec_first_bad_char(format@) matches Some(c) ==> (r matches Err(m) && m@
            == invalid_char_text(c)),
        (format@.len() > 0 && spec_first_bad_char(format@) is None && !spec_has_specifier(
            format@,
        )) ==> (r matches Err(m) && m@
            == "time format must contain one of %Y %y %m %d %H %M %S"@),
        (format_wf(format@) && !strftime_ok(format@)) ==> (r matches Err(m) && m@
            == "invalid time format"@),
{
    let n = format.unicode_len();
    if n == 0 {
        return Err(String::from_str("time format must not be empty"));
    }
    match first_bad_char(format) {
        Some(c) => {
            let mut m = String::from_str("invalid time-format character: ");
            push_char(&mut m, c);
            return Err(m);
        },
        None => {},
    }
    if !has_specifier(format) {
        return Err(String::from_str("time format must contain one of %Y %y %m %d %H %M %S"));
    }
    match render_now(format) {
        Some(rendered) => {
            if rendered.as_str().unicode_len() > 0 {
                Ok(())
            } else {
                Err(String::from_str("invalid time format"))
            }
        },
        None => Err(String::from_str("invalid time format")),
    }
}

// ---------------------------------------------------------------------
// Shape classification and format inference.
// ---------------------------------------------------------------------

/// The text carries a date marker: one of '-', '/', '年', '@'.
pub open spec fn spec_has_date_marks(s: Seq<char>) -> bool {
    s.contains('-') || s.contains('/') || s.contains('年') || s.contains('@')
}

/// The text carries a time marker: a ':'.
pub open spec fn spec_has_time_marks(s: Seq<char>) -> bool {
    s.contains(':')
}

/// Date markers only: the date-only shape.
pub open spec fn spec_date_only(s: Seq<char>) -> bool {
    spec_has_date_marks(s) && !spec_has_time_marks(s)
}

/// Time markers only: the time-only shape.
pub open spec fn spec_time_only(s: Seq<char>) -> bool {
    !spec_has_date_marks(s) && spec_has_time_marks(s)
}

/// Both kinds of marker: the full-datetime shape.
pub open spec fn spec_full_datetime(s: Seq<char>) -> bool {
    spec_has_date_marks(s) && spec_has_time_marks(s)
}

/// Classifies a datetime text: (has date marks, has time marks,
/// date-only, time-only, full).
pub fn analyze_datetime_format(datetime_str: &str) -> (r: (bool, bool, bool, bool, bool))
    ensures
        r.0 == spec_has_date_marks(datetime_str@),
        r.1 == spec_has_time_marks(datetime_str@),
        r.2 == spec_date_only(datetime_str@),
        r.3 == spec_time_only(datetime_str@),
        r.4 == spec_full_datetime(datetime_str@),
{
    let has_date = contains_char(datetime_str, '-') || contains_char(datetime_str, '/')
        || contains_char(datetime_str, '年') || contains_char(datetime_str, '@');
    let has_time = contains_char(datetime_str, ':');
    (has_date, has_time, has_date && !has_time, !has_date && has_time, has_date && has_time)
}

/// The date format inferred from the first separator present, in the
/// order '-', '/', '@', '年', with '-' as the default.
pub open spec fn spec_infer_date_format(s: Seq<char>) -> Seq<char> {
    if s.contains('-') {
        "%Y-%m-%d"@
    } else if s.contains('/') {
        "%Y/%m/%d"@
    } else if s.contains('@') {
        "%Y@%m@%d"@
    } else if s.contains('年') {
        "%Y年%m月%d日"@
    } else {
        "%Y-%m-%d"@
    }
}

/// Picks a date format by the separator found in the text.
pub fn infer_date_format(datetime_str: &str) -> (r: &'static str)
    ensures
        r@ == spec_infer_date_format(datetime_str@),
{
    if contains_char(datetime_str, '-') {
        "%Y-%m-%d"
    } else if contains_char(datetime_str, '/') {
        "%Y/%m/%d"
    } else if contains_char(datetime_str, '@') {
        "%Y@%m@%d"
    } else if contains_char(datetime_str, '年') {
        "%Y年%m月%d日"
    } else {
        "%Y-%m-%d"
    }
}

/// Hours-and-minutes with exactly one ':', else a full time of day.
pub open spec fn spec_infer_time_format(s: Seq<char>) -> Seq<char> {
    if spec_count_char(s, ':') == 1 {
        "%H:%M"@
    } else {
        "%H:%M:%S"@
    }
}

/// Picks a time format by the number of ':' in the text.
pub fn infer_time_format(datetime_str: &str) -> (r: &'static str)
    ensures
        r@ == spec_infer_time_format(datetime_str@),
{
    if count_char(datetime_str, ':') == 1 {
        "%H:%M"
    } else {
        "%H:%M:%S"
    }
}

// ---------------------------------------------------------------------
// The heuristic parse.
// ---------------------------------------------------------------------

/// The first canned format from index `i` on that parses the text, with
/// its epoch pair.
pub open spec fn spec_canned_hit(s: Seq<char>, i: int) -> Option<(int, int)>
    decreases 18 - i,
{
    if i < 0 || i >= 18 {
        None
    } else {
        match full_epoch(s, canned_text(i)) {
            Some(p) => Some(p),
            None => spec_canned_hit(s, i + 1),
        }
    }
}

/// Every shape-directed attempt missed, so the caller's own format is
/// tried once: the date-only parse failed, the time-only parse failed,
/// no canned format matched, or the text had no markers at all.
pub open spec fn spec_fallback_reached(s: Seq<char>) -> bool {
    if spec_date_only(s) {
        date_epoch(s, spec_infer_date_format(s)) is None
    } else if spec_time_only(s) {
        !time_parse_ok(s, spec_infer_time_format(s))
    } else if spec_full_datetime(s) {
        spec_canned_hit(s, 0) is None
    } else {
        true
    }
}

/// The example shown in the total-failure message, by shape.
pub open spec fn fallback_example(s: Seq<char>) -> Seq<char> {
    if spec_date_only(s) {
        "2023-04-01"@
    } else if spec_time_only(s) {
        "15:30:45"@
    } else {
        "2023-04-01 15:30:45"@
    }
}

/// The opening of the total-failure message, by shape.
pub open spec fn fallback_kind_text(s: Seq<char>) -> Seq<char> {
    if spec_date_only(s) {
        "invalid date format, expected \""@
    } else if spec_time_only(s) {
        "invalid time format, expected \""@
    } else {
        "invalid datetime format, expected \""@
    }
}

/// The total-failure message: names the caller's format and shows a
/// representative example for the input's shape.
pub open spec fn parse_error_text(s: Seq<char>, f: Seq<char>) -> Seq<char> {
    fallback_kind_text(s) + f + "\" like \""@ + fallback_example(s) + "\""@
}

/// Some step of the heuristic succeeds on this text with this fallback
/// format.
pub open spec fn heuristic_must_succeed(s: Seq<char>, f: Seq<char>) -> bool {
    ||| spec_date_only(s) && date_epoch(s, spec_infer_date_format(s)) is Some
    ||| spec_time_only(s) && time_parse_ok(s, spec_infer_time_format(s))
    ||| spec_full_datetime(s) && spec_canned_hit(s, 0) is Some
    ||| spec_fallback_reached(s) && full_epoch(s, f) is Some
}

/// Builds the total-failure message for the given shape flags.
fn build_parse_error(date_only: bool, time_only: bool, f: &str, ghost_src: Ghost<Seq<char>>) -> (r:
    String)
    requires
        date_only == spec_date_only(ghost_src@),
        time_only == spec_time_only(ghost_src@),
    ensures
        r@ == parse_error_text(ghost_src@, f@),
{
    let mut m = if date_only {
        String::from_str("invalid date format, expected \"")
    } else if time_only {
        String::from_str("invalid time format, expected \"")
    } else {
        String::from_str("invalid datetime format, expected \"")
    };
    m.append(f);
    m.append("\" like \"");
    if date_only {
        m.append("2023-04-01");
    } else if time_only {
        m.append("15:30:45");
    } else {
        m.append("2023-04-01 15:30:45");
    }
    m.append("\"");
    m
}

/// The heuristic parse, shared by the seconds and milliseconds
/// conversions: classify the text's shape, try the shape's inferred
/// format, then the canned table for a full datetime, then the caller's
/// format once; the result is (UTC epoch seconds, subsecond
/// milliseconds) under the Beijing rule.
fn parse_datetime_to_epoch(datetime_str: &str, format: &str) -> (r: Result<(i64, u32), String>)
    ensures
        r is Ok <==> heuristic_must_succeed(datetime_str@, format@),
        r matches Ok(p) ==> -10_000_000_000_000 < p.0 < 10_000_000_000_000 && p.1 < 2000,
        spec_date_only(datetime_str@) ==> (date_epoch(
            datetime_str@,
            spec_infer_date_format(datetime_str@),
        ) matches Some(v) ==> (r matches Ok(p) && p.0 as int == v && p.1 == 0)),
        spec_full_datetime(datetime_str@) ==> (spec_canned_hit(datetime_str@, 0) matches Some(q)
            ==> (r matches Ok(p) && p.0 as int == q.0 && p.1 as int == q.1)),
        spec_fallback_reached(datetime_str@) ==> match full_epoch(datetime_str@, format@) {
            Some(q) => r matches Ok(p) && p.0 as int == q.0 && p.1 as int == q.1,
            None => r matches Err(m) && m@ == parse_error_text(datetime_str@, format@),
        },
{
    let has_date = contains_char(datetime_str, '-') || contains_char(datetime_str, '/')
        || contains_char(datetime_str, '年') || contains_char(datetime_str, '@');
    let has_time = contains_char(datetime_str, ':');
    let date_only = has_date && !has_time;
    let time_only = !has_date && has_time;
    if date_only {
        let df = infer_date_format(datetime_str);
        match parse_date_beijing(datetime_str, df) {
            Some(v) => {
                return Ok((v, 0));
            },
            None => {},
        }
    }
    if time_only {
        let tf = infer_time_format(datetime_str);
        match parse_time_today_beijing(datetime_str, tf) {
            Some(p) => {
                return Ok(p);
            },
            None => {},
        }
    }
    if has_date && has_time {
        let formats = get_all_supported_formats();
        let mut i: usize = 0;
        while i < 18
            invariant
                0 <= i <= 18,
                spec_full_datetime(datetime_str@),
                formats@.len() == 18,
                forall|k: int| 0 <= k < 18 ==> (#[trigger] formats@[k])@ == canned_text(k),
                spec_canned_hit(datetime_str@, 0) == spec_canned_hit(datetime_str@, i as int),
            decreases 18 - i,
        {
            match parse_full_beijing(datetime_str, formats[i]) {
                Some(p) => {
                    proof {
                        assert(full_epoch(datetime_str@, canned_text(i as int)) matches Some(q)
                            && q.0 == p.0 as int && q.1 == p.1 as int);
                        assert(spec_canned_hit(datetime_str@, i as int) matches Some(q)
                            && q.0 == p.0 as int && q.1 == p.1 as int);
                    }
                    return Ok(p);
                },
                None => {},
            }
            i = i + 1;
        }
    }
    match parse_full_beijing(datetime_str, format) {
        Some(p) => Ok(p),
        None => Err(build_parse_error(date_only, time_only, format, Ghost(datetime_str@))),
    }
}

// ---------------------------------------------------------------------
// Public conversions.
// ---------------------------------------------------------------------

/// Parses a datetime text to UTC epoch seconds under the heuristic and
/// the Beijing rule; sub-second precision is discarded.
pub fn datetime_to_timestamp_with_format(datetime_str: &str, format: &str) -> (r: Result<
    i64,
    String,
>)
    ensures
        r is Ok <==> heuristic_must_succeed(datetime_str@, format@),
        spec_date_only(datetime_str@) ==> (date_epoch(
            datetime_str@,
            spec_infer_date_format(datetime_str@),
        ) matches Some(v) ==> (r matches Ok(x) && x as int == v)),
        spec_full_datetime(datetime_str@) ==> (spec_canned_hit(datetime_str@, 0) matches Some(q)
            ==> (r matches Ok(x) && x as int == q.0)),
        spec_fallback_reached(datetime_str@) ==> match full_epoch(datetime_str@, format@) {
            Some(q) => r matches Ok(x) && x as int == q.0,
            None => r matches Err(m) && m@ == parse_error_text(datetime_str@, format@),
        },
{
    match parse_datetime_to_epoch(datetime_str, format) {
        Ok(p) => Ok(p.0),
        Err(m) => Err(m),
    }
}

/// Parses a datetime text to UTC epoch milliseconds under the heuristic
/// and the Beijing rule: seconds times 1000 plus the sub-second part.
pub fn datetime_to_ms_timestamp_with_format(datetime_str: &str, format: &str) -> (r: Result<
    i64,
    String,
>)
    ensures
        r is Ok <==> heuristic_must_succeed(datetime_str@, format@),
        spec_date_only(datetime_str@) ==> (date_epoch(
            datetime_str@,
            spec_infer_date_format(datetime_str@),
        ) matches Some(v) ==> (r matches Ok(x) && x as int == v * 1000)),
        spec_full_datetime(datetime_str@) ==> (spec_canned_hit(datetime_str@, 0) matches Some(q)
            ==> (r matches Ok(x) && x as int == q.0 * 1000 + q.1)),
        spec_fallback_reached(datetime_str@) ==> match full_epoch(datetime_str@, format@) {
            Some(q) => r matches Ok(x) && x as int == q.0 * 1000 + q.1,
            None => r matches Err(m) && m@ == parse_error_text(datetime_str@, format@),
        },
{
    match parse_datetime_to_epoch(datetime_str, format) {
        Ok(p) => Ok(p.0 * 1000 + p.1 as i64),
        Err(m) => Err(m),
    }
}

/// Reads a timestamp text as a decimal `i64`.
pub fn parse_timestamp(timestamp_str: &str) -> (r: Result<i64, &'static str>)
    ensures
        match spec_parse_i64(timestamp_str@) {
            Some(v) => r == Result::<i64, &'static str>::Ok(v),
            None => r matches Err(m) && m@ == "invalid timestamp"@,
        },
{
    match parse_i64(timestamp_str) {
        Some(v) => Ok(v),
        None => Err("invalid timestamp"),
    }
}

/// Renders the current local time with the given format; empty when the
/// format cannot be rendered, non-empty for every accepted format.
pub fn get_current_time_with_format(format: &str) -> (r: String)
    ensures
        strftime_ok(format@) && spec_has_specifier(format@) ==> r@.len() > 0,
        format_accepted(format@) ==> r@.len() > 0,
        !strftime_ok(format@) ==> r@.len() == 0,
{
    match render_now(format) {
        Some(t) => t,
        None => String::new(),
    }
}

/// Renders UTC epoch seconds as local time with the given format;
/// `None` exactly when the instant is out of range or the format cannot
/// be rendered.
pub fn timestamp_to_datetime_with_format(ts: i64, format: &str) -> (r: Option<String>)
    ensures
        r is Some <==> epoch_in_range(ts as int, 0) && strftime_ok(format@),
        r matches Some(t) ==> (spec_has_specifier(format@) ==> t@.len() > 0),
{
    format_epoch_local(ts, 0, format)
}

/// How a millisecond count splits into (seconds, milliseconds): a
/// non-negative count splits by truncating division; a negative one is
/// representable only when it is a whole second.
pub open spec fn spec_ms_split(ts: int) -> Option<(int, int)> {
    if ts >= 0 {
        Some((ts / 1000, ts % 1000))
    } else if (-ts) % 1000 == 0 {
        Some((-((-ts) / 1000), 0int))
    } else {
        None
    }
}

/// Renders UTC epoch milliseconds as local time with the given format;
/// `None` when the count cannot be split, the instant is out of range,
/// or the format cannot be rendered.
pub fn ms_timestamp_to_datetime_with_format(ts: i64, format: &str) -> (r: Option<String>)
    ensures
        match spec_ms_split(ts as int) {
            Some(p) => (r is Some <==> epoch_in_range(p.0, p.1 * 1000000) && strftime_ok(
                format@,
            )),
            None => r is None,
        },
        r matches Some(t) ==> (spec_has_specifier(format@) ==> t@.len() > 0),
{
    if ts >= 0 {
        let secs: i64 = ((ts as u64) / 1000) as i64;
        let rem: u32 = ((ts as u64) % 1000) as u32;
        format_epoch_local(secs, rem * 1000000, format)
    } else if ts == i64::MIN {
        proof {
            assert((-(i64::MIN as int)) % 1000 == 808);
        }
        None
    } else {
        let mag: u64 = (-ts) as u64;
        if mag % 1000 != 0 {
            None
        } else {
            let secs: i64 = -((mag / 1000) as i64);
            format_epoch_local(secs, 0, format)
        }
    }
}

// ---------------------------------------------------------------------
// Current time and timestamps.
// ---------------------------------------------------------------------

/// The current epoch seconds, as a decimal numeral.
pub fn get_current_timestamp() -> (r: String)
    ensures
        exists|v: int| r@ == #[trigger] spec_idec(v),
{
    let now = now_epoch();
    let r = i64_to_dec(now.0);
    proof {
        assert(r@ == spec_idec(now.0 as int));
    }
    r
}

/// The current epoch milliseconds, as a decimal numeral.
pub fn get_current_ms_timestamp() -> (r: String)
    ensures
        exists|v: int| r@ == #[trigger] spec_idec(v),
{
    let now = now_epoch();
    let ms: i64 = now.0 * 1000 + now.1 as i64;
    let r = i64_to_dec(ms);
    proof {
        assert(r@ == spec_idec(ms as int));
    }
    r
}

/// The current local time in the default format.
pub fn get_current_time() -> (r: String)
    ensures
        strftime_ok(default_format_text()) ==> r@.len() > 0,
{
    proof {
        reveal_strlit("%Y-%m-%d %H:%M:%S");
        assert(default_format_text()[0] == '%' && specifier_letter(default_format_text()[1]));
    }
    get_current_time_with_format("%Y-%m-%d %H:%M:%S")
}

/// `timestamp_to_datetime_with_format` with the default format.
pub fn timestamp_to_datetime(ts: i64) -> (r: Option<String>)
    ensures
        r is Some <==> epoch_in_range(ts as int, 0) && strftime_ok(default_format_text()),
{
    timestamp_to_datetime_with_format(ts, "%Y-%m-%d %H:%M:%S")
}

/// Reads a seconds timestamp from text and renders it as local time in
/// the default format; any failure answers with one fixed message.
pub fn convert_timestamp(timestamp: &str) -> (r: String)
    ensures
        match spec_parse_i64(timestamp@) {
            Some(v) => {
                &&& (epoch_in_range(v as int, 0) && strftime_ok(default_format_text())
                    ==> r@.len() > 0)
                &&& (!(epoch_in_range(v as int, 0) && strftime_ok(default_format_text()))
                    ==> r@ == "Invalid timestamp"@)
            },
            None => r@ == "Invalid timestamp"@,
        },
{
    proof {
        reveal_strlit("%Y-%m-%d %H:%M:%S");
        assert(default_format_text()[0] == '%' && specifier_letter(default_format_text()[1]));
    }
    match parse_timestamp(timestamp) {
        Ok(ts) => match timestamp_to_datetime_with_format(ts, "%Y-%m-%d %H:%M:%S") {
            Some(t) => t,
            None => String::from_str("Invalid timestamp"),
        },
        Err(_) => String::from_str("Invalid timestamp"),
    }
}

/// Reads a milliseconds timestamp from text and renders it as local
/// time with sub-seconds; any failure answers with one fixed message.
pub fn convert_ms_timestamp(timestamp: &str) -> (r: String)
    ensures
        match spec_parse_i64(timestamp@) {
            Some(v) => match spec_ms_split(v as int) {
                Some(p) => !(epoch_in_range(p.0, p.1 * 1000000) && strftime_ok(
                    "%Y-%m-%d %H:%M:%S.%3f"@,
                )) ==> r@ == "Invalid timestamp"@,
                None => r@ == "Invalid timestamp"@,
            },
            None => r@ == "Invalid timestamp"@,
        },
{
    match parse_timestamp(timestamp) {
        Ok(ts) => match ms_timestamp_to_datetime_with_format(ts, "%Y-%m-%d %H:%M:%S.%3f") {
            Some(t) => t,
            None => String::from_str("Invalid timestamp"),
        },
        Err(_) => String::from_str("Invalid timestamp"),
    }
}

/// `ms_timestamp_to_datetime_with_format` with the default sub-second
/// format.
pub fn ms_timestamp_to_datetime(ts: i64) -> (r: Option<String>)
    ensures
        match spec_ms_split(ts as int) {
            Some(p) => (r is Some <==> epoch_in_range(p.0, p.1 * 1000000) && strftime_ok(
                "%Y-%m-%d %H:%M:%S.%3f"@,
            )),
            None => r is None,
        },
{
    ms_timestamp_to_datetime_with_format(ts, "%Y-%m-%d %H:%M:%S.%3f")
}

/// `datetime_to_timestamp_with_format` with the default format.
pub fn datetime_to_timestamp(datetime_str: &str) -> (r: Result<i64, String>)
    ensures
        r is Ok <==> heuristic_must_succeed(datetime_str@, default_format_text()),
{
    datetime_to_timestamp_with_format(datetime_str, "%Y-%m-%d %H:%M:%S")
}

/// `datetime_to_ms_timestamp_with_format` with the default format.
pub fn datetime_to_ms_timestamp(datetime_str: &str) -> (r: Result<i64, String>)
    ensures
        r is Ok <==> heuristic_must_succeed(datetime_str@, default_format_text()),
{
    datetime_to_ms_timestamp_with_format(datetime_str, "%Y-%m-%d %H:%M:%S")
}

// ---------------------------------------------------------------------
// The stateful façade the GUI talks to.
// ---------------------------------------------------------------------

/// The reply when the datetime box is empty.
pub open spec fn please_enter_datetime_text() -> Seq<char> {
    "please enter a datetime"@
}

/// The reply for a successful seconds conversion.
pub open spec fn ts_message_text(v: int) -> Seq<char> {
    "seconds timestamp: "@ + spec_idec(v)
}

/// The reply for a successful milliseconds conversion.
pub open spec fn ms_message_text(v: int) -> Seq<char> {
    "milliseconds timestamp: "@ + spec_idec(v)
}

/// The reply when the heuristic fails outright.
pub open spec fn convert_failed_text(s: Seq<char>, f: Seq<char>) -> Seq<char> {
    "conversion failed: "@ + parse_error_text(s, f)
}

/// The timestamp side of the tool: holds the user's chosen format,
/// mutated only through the validated setter.
pub struct TimeLogic {
    format: String,
}

impl TimeLogic {
    /// The format the conversions currently use.
    pub closed spec fn spec_format(&self) -> Seq<char> {
        self.format@
    }

    /// Starts with the default format.
    pub fn new() -> (r: TimeLogic)
        ensures
            r.spec_format() == default_format_text(),
    {
        TimeLogic { format: String::from_str("%Y-%m-%d %H:%M:%S") }
    }

    /// Validates, then stores, a new format; an invalid one leaves the
    /// stored format unchanged and reports the validator's message for
    /// its cause.
    pub fn set_time_format(&mut self, format: String) -> (r: Result<(), String>)
        ensures
            r is Ok <==> format_accepted(format@),
            r is Ok ==> final(self).spec_format() == format@,
            r is Err ==> final(self).spec_format() == old(self).spec_format(),
            format@.len() == 0 ==> (r matches Err(m) && m@ == "time format must not be empty"@),
            spec_first_bad_char(format@) matches Some(c) ==> (r matches Err(m) && m@
                == invalid_char_text(c)),
            (format@.len() > 0 && spec_first_bad_char(format@) is None && !spec_has_specifier(
                format@,
            )) ==> (r matches Err(m) && m@
                == "time format must contain one of %Y %y %m %d %H %M %S"@),
            (format_wf(format@) && !strftime_ok(format@)) ==> (r matches Err(m) && m@
                == "invalid time format"@),
    {
        match validate_time_format(format.as_str()) {
            Ok(()) => {
                self.format = format;
                Ok(())
            },
            Err(m) => Err(m),
        }
    }

    /// Converts a datetime text to epoch seconds under the stored
    /// format and reports the outcome as a display text.
    pub fn convert_to_timestamp(&self, datetime: &str) -> (r: String)
        ensures
            spec_is_blank(datetime@) ==> r@ == please_enter_datetime_text(),
            !spec_is_blank(datetime@) && spec_date_only(datetime@) ==> (date_epoch(
                datetime@,
                spec_infer_date_format(datetime@),
            ) matches Some(v) ==> r@ == ts_message_text(v)),
            !spec_is_blank(datetime@) && spec_full_datetime(datetime@) ==> (spec_canned_hit(
                datetime@,
                0,
            ) matches Some(q) ==> r@ == ts_message_text(q.0)),
            !spec_is_blank(datetime@) && spec_fallback_reached(datetime@) ==> match full_epoch(
                datetime@,
                self.spec_format(),
            ) {
                Some(q) => r@ == ts_message_text(q.0),
                None => r@ == convert_failed_text(datetime@, self.spec_format()),
            },
    {
        if is_blank(datetime) {
            return String::from_str("please enter a datetime");
        }
        match datetime_to_timestamp_with_format(datetime, self.format.as_str()) {
            Ok(v) => {
                let mut t = String::from_str("seconds timestamp: ");
                let d = i64_to_dec(v);
                t.append(d.as_str());
                t
            },
            Err(m) => {
                let mut t = String::from_str("conversion failed: ");
                t.append(m.as_str());
                t
            },
        }
    }

    /// Converts a datetime text to epoch milliseconds under the stored
    /// format and reports the outcome as a display text.
    pub fn convert_to_ms_timestamp(&self, datetime: &str) -> (r: String)
        ensures
            spec_is_blank(datetime@) ==> r@ == please_enter_datetime_text(),
            !spec_is_blank(datetime@) && spec_date_only(datetime@) ==> (date_epoch(
                datetime@,
                spec_infer_date_format(datetime@),
            ) matches Some(v) ==> r@ == ms_message_text(v * 1000)),
            !spec_is_blank(datetime@) && spec_full_datetime(datetime@) ==> (spec_canned_hit(
                datetime@,
                0,
            ) matches Some(q) ==> r@ == ms_message_text(q.0 * 1000 + q.1)),
            !spec_is_blank(datetime@) && spec_fallback_reached(datetime@) ==> match full_epoch(
                datetime@,
                self.spec_format(),
            ) {
                Some(q) => r@ == ms_message_text(q.0 * 1000 + q.1),
                None => r@ == convert_failed_text(datetime@, self.spec_format()),
            },
    {
        if is_blank(datetime) {
            return String::from_str("please enter a datetime");
        }
        match datetime_to_ms_timestamp_with_format(datetime, self.format.as_str()) {
            Ok(v) => {
                let mut t = String::from_str("milliseconds timestamp: ");
                let d = i64_to_dec(v);
                t.append(d.as_str());
                t
            },
            Err(m) => {
                let mut t = String::from_str("conversion failed: ");
                t.append(m.as_str());
                t
            },
        }
    }

    /// The current local time in the default format.
    pub fn get_current_time(&self) -> (r: String)
        ensures
            strftime_ok(default_format_text()) ==> r@.len() > 0,
    {
        get_current_time()
    }
}

} // verus!
