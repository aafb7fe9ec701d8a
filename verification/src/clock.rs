//! The calls into `chrono`: the current time, and timestamps read from and
//! written to text. Nothing here is proved; each contract says what is taken
//! on trust of the call it wraps.

use crate::instant::Instant;
use crate::temporal::arrival_pattern;
use vstd::prelude::*;

verus! {

/// What `chrono` makes of `text` read as a timestamp in the relaxed RFC 3339
/// form that `DateTime<Utc>` parses: the seconds since the epoch and the
/// nanoseconds after them, or none where the text is no such timestamp.
pub uninterp spec fn parsed_utc(text: Seq<char>) -> Option<(int, int)>;

/// The RFC 3339 text that `chrono` writes for the moment `secs` seconds after
/// the epoch and `nanos` nanoseconds after that, in UTC.
pub uninterp spec fn rfc3339_text(secs: int, nanos: int) -> Seq<char>;

/// The text that `chrono` writes, following `pattern`, for the moment `secs`
/// seconds after the epoch and `nanos` nanoseconds after that, as read in a
/// zone that is `offset` seconds ahead of UTC.
pub uninterp spec fn local_text(secs: int, nanos: int, offset: int, pattern: Seq<char>) -> Seq<
    char,
>;

/// The current time, from `chrono::Utc::now`. Nothing is promised of the
/// reading beyond its being a moment of the calendar. `chrono` panics where
/// the system clock stands before the Unix epoch.
#[verifier::external_body]
pub(crate) fn utc_now() -> (now: Instant)
    ensures
        now.well_formed(),
{
    let now = chrono::Utc::now();
    Instant { secs: now.timestamp(), nanos: now.timestamp_subsec_nanos() }
}

/// Parses `text` with `<chrono::DateTime<chrono::Utc> as FromStr>::from_str`
/// and hands back the moment read, which depends on the text alone; none
/// where `chrono` rejects the text.
#[verifier::external_body]
pub(crate) fn parse_utc(text: &str) -> (read: Option<Instant>)
    ensures
        match read {
            Some(i) => parsed_utc(text@) == Some((i.secs(), i.nanos())) && i.well_formed(),
            None => parsed_utc(text@) is None,
        },
{
    match text.parse::<chrono::DateTime<chrono::Utc>>() {
        Ok(t) => Some(Instant { secs: t.timestamp(), nanos: t.timestamp_subsec_nanos() }),
        Err(_) => None,
    }
}

/// Writes `at` with `chrono::DateTime::<Utc>::to_rfc3339`; the text depends
/// on the moment alone. A moment of the calendar is one that
/// `chrono::DateTime::from_timestamp` accepts, and writing it does not fail.
#[verifier::external_body]
pub(crate) fn rfc3339(at: &Instant) -> (text: String)
    requires
        at.well_formed(),
    ensures
        text@ == rfc3339_text(at.secs(), at.nanos()),
{
    chrono::DateTime::from_timestamp(at.secs, at.nanos).unwrap().to_rfc3339()
}

/// How many seconds the time zone of the machine is ahead of UTC at `at`:
/// `chrono` converts `at` to `DateTime<Local>`, and the offset of that is
/// read with `FixedOffset::local_minus_utc`. The offset depends on the
/// machine, so only its range is promised: less than a day either way.
#[verifier::external_body]
pub(crate) fn local_offset(at: &Instant) -> (offset: i32)
    requires
        at.well_formed(),
    ensures
        -86_400 < offset < 86_400,
{
    let utc = chrono::DateTime::from_timestamp(at.secs, at.nanos).unwrap();
    let local: chrono::DateTime<chrono::Local> = utc.into();
    local.offset().local_minus_utc()
}

/// Writes `at` as read in the zone `offset` seconds ahead of UTC, with
/// `chrono::DateTime::<FixedOffset>::format` following `pattern`; the text
/// depends on the moment, the offset and the pattern alone. `chrono` panics
/// on a pattern that it cannot read, so only the pattern of the arrival
/// display, which it reads, is admitted.
#[verifier::external_body]
pub(crate) fn display_at(at: &Instant, offset: i32, pattern: &str) -> (text: String)
    requires
        at.well_formed(),
        -86_400 < offset < 86_400,
        pattern@ == arrival_pattern(),
    ensures
        text@ == local_text(at.secs(), at.nanos(), offset as int, pattern@),
{
    let zone = chrono::FixedOffset::east_opt(offset).unwrap();
    let utc = chrono::DateTime::from_timestamp(at.secs, at.nanos).unwrap();
    utc.with_timezone(&zone).format(pattern).to_string()
}

} // verus!
