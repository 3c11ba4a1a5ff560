//! Rendering an instant of time as text, per a timezone and a datetime format.
//!
//! An [`Instant`] is a moment given by plain values; the `time` crate turns it
//! into text. The text each format kind produces is a function of the instant
//! alone, so it is named by an uninterpreted spec function per kind; a custom
//! pattern is compiled once into a [`TimePattern`] and reused.

use vstd::prelude::*;

use time::format_description;
use time::format_description::well_known::Iso8601;
use time::format_description::well_known::Rfc2822;
use time::format_description::well_known::Rfc3339;
use time::format_description::OwnedFormatItem;
use time::OffsetDateTime;
use time::UtcOffset;

use crate::config::DateTimeFormat;

verus! {

/// Declares the `time` crate's owned, pre-parsed format description so a
/// compiled custom pattern can sit in a field. Opaque to verification.
#[verifier::external_type_specification]
#[verifier::external_body]
pub struct ExOwnedFormatItem(OwnedFormatItem);

/// A moment in time as plain values: seconds since the Unix epoch, the
/// nanosecond within that second, and the UTC offset (in seconds) the moment
/// is displayed in.
#[derive(Clone, Copy, Debug, PartialEq, Eq, Structural)]
pub struct Instant {
    pub secs: i64,
    pub nanos: u32,
    pub offset_secs: i32,
}

/// One second past `9999-12-31T23:59:59Z`: instants from the epoch up to here
/// are accepted by every fixed format kind.
pub const MAX_FORMATTABLE_SECS: i64 = 253_402_300_800;

/// What `time` renders for an instant in ISO 8601 (default configuration).
pub uninterp spec fn iso8601_text(secs: int, nanos: int, offset_secs: int) -> Seq<char>;

/// What `time` renders for an instant in RFC 3339.
pub uninterp spec fn rfc3339_text(secs: int, nanos: int, offset_secs: int) -> Seq<char>;

/// What `time` renders for an instant in RFC 2822.
pub uninterp spec fn rfc2822_text(secs: int, nanos: int, offset_secs: int) -> Seq<char>;

/// What `time` renders for an instant under a custom pattern text.
pub uninterp spec fn custom_text(pattern: Seq<char>, secs: int, nanos: int, offset_secs: int) -> Seq<char>;

/// Whether `time` accepts a pattern text as a version-1 format description.
pub uninterp spec fn pattern_is_valid(pattern: Seq<char>) -> bool;

/// A custom datetime pattern, compiled once and reused for every record.
/// `source` is the pattern text the program was compiled from; the two are
/// coupled by `TimePattern::new`, the type's only constructor.
pub struct TimePattern {
    source: String,
    program: OwnedFormatItem,
}

impl TimePattern {
    /// The pattern text this program was compiled from.
    pub closed spec fn spec_source(&self) -> Seq<char> {
        self.source@
    }

    /// Compiles a pattern text once; fails exactly on invalid patterns.
    pub fn new(pattern: &str) -> (r: Result<TimePattern, ()>)
        ensures
            r is Ok <==> pattern_is_valid(pattern@),
            r matches Ok(p) ==> p.spec_source() == pattern@,
    {
        compile_pattern(pattern)
    }
}

/// Relies on `time::format_description::parse_owned` (version 1): whether a
/// pattern text compiles depends on that text alone.
#[verifier::external_body]
fn compile_pattern(pattern: &str) -> (r: Result<TimePattern, ()>)
    ensures
        r is Ok <==> pattern_is_valid(pattern@),
        r matches Ok(p) ==> p.spec_source() == pattern@,
{
    match format_description::parse_owned::<1>(pattern) {
        Ok(program) => Ok(TimePattern { source: pattern.to_owned(), program }),
        Err(_) => Err(()),
    }
}

/// Relies on `time::OffsetDateTime::now_utc`: the current instant, whose
/// nanosecond lies within its second.
#[verifier::external_body]
pub(crate) fn now_utc_parts() -> (r: (i64, u32))
    ensures
        r.1 < 1_000_000_000,
{
    let now = OffsetDateTime::now_utc();
    (now.unix_timestamp(), now.nanosecond())
}

/// Relies on `time::OffsetDateTime::now_local`: the current instant in the
/// local offset, or an error when that offset cannot be determined. The
/// nanosecond lies within its second and the offset within +-26 hours.
#[verifier::external_body]
pub(crate) fn now_local_parts() -> (r: Result<(i64, u32, i32), ()>)
    ensures
        r matches Ok(p) ==> p.1 < 1_000_000_000 && -93599 <= p.2 <= 93599,
{
    match OffsetDateTime::now_local() {
        Ok(now) => Ok((now.unix_timestamp(), now.nanosecond(), now.offset().whole_seconds())),
        Err(_) => Err(()),
    }
}

/// Relies on `time::OffsetDateTime::format` with `Iso8601::DEFAULT`: the text
/// is a non-empty function of the instant alone, and the call succeeds for
/// instants between the epoch and year 9999 displayed in UTC.
#[verifier::external_body]
fn format_iso8601_at(secs: i64, nanos: u32, offset_secs: i32) -> (r: Result<String, ()>)
    ensures
        r matches Ok(s) ==> s@ == iso8601_text(secs as int, nanos as int, offset_secs as int),
        r matches Ok(s) ==> s@.len() > 0,
        0 <= secs < MAX_FORMATTABLE_SECS && nanos < 1_000_000_000 && offset_secs == 0 ==> r is Ok,
{
    let dt = match OffsetDateTime::from_unix_timestamp(secs) { Ok(d) => d, Err(_) => return Err(()) };
    let dt = match dt.replace_nanosecond(nanos) { Ok(d) => d, Err(_) => return Err(()) };
    let off = match UtcOffset::from_whole_seconds(offset_secs) { Ok(o) => o, Err(_) => return Err(()) };
    let dt = match dt.checked_to_offset(off) { Some(d) => d, None => return Err(()) };
    dt.format(&Iso8601::DEFAULT).map_err(|_| ())
}

/// Relies on `time::OffsetDateTime::format` with `Rfc3339`: the text is a
/// non-empty function of the instant alone, and the call succeeds for
/// instants between the epoch and year 9999 displayed in UTC.
#[verifier::external_body]
fn format_rfc3339_at(secs: i64, nanos: u32, offset_secs: i32) -> (r: Result<String, ()>)
    ensures
        r matches Ok(s) ==> s@ == rfc3339_text(secs as int, nanos as int, offset_secs as int),
        r matches Ok(s) ==> s@.len() > 0,
        0 <= secs < MAX_FORMATTABLE_SECS && nanos < 1_000_000_000 && offset_secs == 0 ==> r is Ok,
{
    let dt = match OffsetDateTime::from_unix_timestamp(secs) { Ok(d) => d, Err(_) => return Err(()) };
    let dt = match dt.replace_nanosecond(nanos) { Ok(d) => d, Err(_) => return Err(()) };
    let off = match UtcOffset::from_whole_seconds(offset_secs) { Ok(o) => o, Err(_) => return Err(()) };
    let dt = match dt.checked_to_offset(off) { Some(d) => d, None => return Err(()) };
    dt.format(&Rfc3339).map_err(|_| ())
}

/// Relies on `time::OffsetDateTime::format` with `Rfc2822`: the text is a
/// non-empty function of the instant alone, and the call succeeds for
/// instants between the epoch and year 9999 displayed in UTC.
#[verifier::external_body]
fn format_rfc2822_at(secs: i64, nanos: u32, offset_secs: i32) -> (r: Result<String, ()>)
    ensures
        r matches Ok(s) ==> s@ == rfc2822_text(secs as int, nanos as int, offset_secs as int),
        r matches Ok(s) ==> s@.len() > 0,
        0 <= secs < MAX_FORMATTABLE_SECS && nanos < 1_000_000_000 && offset_secs == 0 ==> r is Ok,
{
    let dt = match OffsetDateTime::from_unix_timestamp(secs) { Ok(d) => d, Err(_) => return Err(()) };
    let dt = match dt.replace_nanosecond(nanos) { Ok(d) => d, Err(_) => return Err(()) };
    let off = match UtcOffset::from_whole_seconds(offset_secs) { Ok(o) => o, Err(_) => return Err(()) };
    let dt = match dt.checked_to_offset(off) { Some(d) => d, None => return Err(()) };
    dt.format(&Rfc2822).map_err(|_| ())
}

/// Relies on `time::OffsetDateTime::format` with a compiled pattern: the text
/// is a function of the pattern text and the instant alone. (The coupling of
/// program and pattern text is `TimePattern`'s construction invariant.)
#[verifier::external_body]
pub(crate) fn format_with_pattern(p: &TimePattern, secs: i64, nanos: u32, offset_secs: i32) -> (r: Result<String, ()>)
    ensures
        r matches Ok(s) ==> s@ == custom_text(p.spec_source(), secs as int, nanos as int, offset_secs as int),
{
    let dt = match OffsetDateTime::from_unix_timestamp(secs) { Ok(d) => d, Err(_) => return Err(()) };
    let dt = match dt.replace_nanosecond(nanos) { Ok(d) => d, Err(_) => return Err(()) };
    let off = match UtcOffset::from_whole_seconds(offset_secs) { Ok(o) => o, Err(_) => return Err(()) };
    let dt = match dt.checked_to_offset(off) { Some(d) => d, None => return Err(()) };
    dt.format(&p.program).map_err(|_| ())
}

/// The text an instant renders to under a datetime format kind.
pub open spec fn spec_rendered(format: DateTimeFormat, i: Instant) -> Seq<char> {
    match format {
        DateTimeFormat::ISO8601 => iso8601_text(i.secs as int, i.nanos as int, i.offset_secs as int),
        DateTimeFormat::RFC3339 => rfc3339_text(i.secs as int, i.nanos as int, i.offset_secs as int),
        DateTimeFormat::RFC2822 => rfc2822_text(i.secs as int, i.nanos as int, i.offset_secs as int),
        DateTimeFormat::Custom(s) => custom_text(s@, i.secs as int, i.nanos as int, i.offset_secs as int),
    }
}

/// Whether a text is the rendering, under `format`, of some instant.
pub open spec fn is_rendered_time(format: DateTimeFormat, s: Seq<char>) -> bool {
    exists|i: Instant| s == spec_rendered(format, i)
}

/// Renders `i` according to `format`. For the `Custom` kind the compiled
/// pattern must be supplied and must stem from the configured pattern text;
/// for the fixed kinds it is ignored. Fixed kinds are owed success for
/// instants between the epoch and year 9999 displayed in UTC; elsewhere, and
/// for custom patterns, a formatting failure surfaces as `Err(())`.
pub fn render_instant(format: &DateTimeFormat, pattern: Option<&TimePattern>, i: Instant) -> (r: Result<String, ()>)
    requires
        *format matches DateTimeFormat::Custom(s) ==> (pattern matches Some(p) && p.spec_source() == s@),
    ensures
        r matches Ok(s) ==> s@ == spec_rendered(*format, i),
        !(*format is Custom) && 0 <= i.secs < MAX_FORMATTABLE_SECS && i.nanos < 1_000_000_000
            && i.offset_secs == 0 ==> r is Ok,
{
    match format {
        DateTimeFormat::ISO8601 => format_iso8601_at(i.secs, i.nanos, i.offset_secs),
        DateTimeFormat::RFC3339 => format_rfc3339_at(i.secs, i.nanos, i.offset_secs),
        DateTimeFormat::RFC2822 => format_rfc2822_at(i.secs, i.nanos, i.offset_secs),
        DateTimeFormat::Custom(_) => {
            let p = pattern.unwrap();
            format_with_pattern(p, i.secs, i.nanos, i.offset_secs)
        },
    }
}

} // verus!
