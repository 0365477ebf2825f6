//! The local date and time as the service writes it: `YYYY-MM-DD HH:MM`.

use vstd::prelude::*;
use vstd::string::*;
use chrono::{Datelike, TimeZone, Timelike};
use crate::text::{decimal, padded2, push_padded2, push_signed, signed_decimal};

verus! {

/// A local date and time, to the minute.
pub struct LocalTime {
    pub year: i32,
    pub month: u32,
    pub day: u32,
    pub hour: u32,
    pub minute: u32,
}

/// Each field lies in its calendar range.
pub open spec fn is_valid_time(t: LocalTime) -> bool {
    &&& 1 <= t.month <= 12
    &&& 1 <= t.day <= 31
    &&& t.hour < 24
    &&& t.minute < 60
}

/// The text of a date and time: the year, then the month, day, hour and
/// minute each on two digits (`{}-{:02}-{:02} {:02}:{:02}`).
pub open spec fn datetime_text(t: LocalTime) -> Seq<char> {
    signed_decimal(t.year as int) + "-"@ + padded2(t.month as nat) + "-"@ + padded2(t.day as nat)
        + " "@ + padded2(t.hour as nat) + ":"@ + padded2(t.minute as nat)
}

/// The last second of the year 9999 (UTC), in seconds since the Unix epoch.
/// Up to it, chrono converts any reading of the clock to a local time.
pub const LAST_CLOCK_SECOND: u64 = 253402300799;

/// `std::time::SystemTime::now()`, as whole seconds since the Unix epoch
/// (through `duration_since(UNIX_EPOCH)`): `None` when the clock is set
/// before the epoch. The value depends on the clock, so nothing more is
/// stated.
#[verifier::external_body]
fn unix_seconds() -> (r: Option<u64>)
{
    std::time::SystemTime::now().duration_since(std::time::UNIX_EPOCH).ok().map(|d| d.as_secs())
}

/// `chrono::Local.timestamp_opt(secs, 0)`: the local date and time at a Unix
/// time, read field by field through `Datelike` and `Timelike`. For a time
/// in chrono's range, `timestamp_opt` converts through `from_utc_datetime`,
/// which gives a single local time, so a value always comes back. chrono documents the month as 1 to
/// 12, the day as 1 to 31, the hour as 0 to 23 and the minute as 0 to 59; the
/// value depends on the machine's time zone, so nothing more is stated.
/// For these times chrono's time-zone lookup does not run out of range; it
/// still unwraps the zone's offset, so a time-zone file whose offset exceeds
/// a day, which chrono's parser admits, would make it panic. No argument can
/// exclude that: it rests on the machine's time-zone data.
#[verifier::external_body]
fn local_time_at(secs: u64) -> (r: Option<LocalTime>)
    requires
        secs <= LAST_CLOCK_SECOND,
    ensures
        r is Some,
        r matches Some(t) ==> is_valid_time(t),
{
    chrono::Local.timestamp_opt(secs as i64, 0).single().map(|now| LocalTime {
        year: now.year(),
        month: now.month(),
        day: now.day(),
        hour: now.hour(),
        minute: now.minute(),
    })
}

/// Writes a date and time as `datetime_text`.
pub fn format_datetime(t: &LocalTime) -> (s: String)
    ensures
        s@ == datetime_text(*t),
{
    let mut s = String::new();
    push_signed(&mut s, t.year as i64);
    s.append("-");
    push_padded2(&mut s, t.month);
    s.append("-");
    push_padded2(&mut s, t.day);
    s.append(" ");
    push_padded2(&mut s, t.hour);
    s.append(":");
    push_padded2(&mut s, t.minute);
    s
}

/// The text of the local date and time at a Unix time in seconds: `None`
/// exactly for times after the year 9999.
pub fn nowtime_text_at(secs: u64) -> (r: Option<String>)
    ensures
        (secs <= LAST_CLOCK_SECOND) == (r is Some),
        r matches Some(s) ==> exists|t: LocalTime| is_valid_time(t) && s@ == #[trigger] datetime_text(t),
{
    if secs <= LAST_CLOCK_SECOND {
        match local_time_at(secs) {
            Some(t) => Some(format_datetime(&t)),
            None => None,
        }
    } else {
        None
    }
}

/// The current local date and time as text: `nowtime_text_at` of the clock's
/// reading, and `None` when the clock is set before the Unix epoch.
pub fn get_nowtime_str() -> (r: Option<String>)
    ensures
        r matches Some(s) ==> exists|t: LocalTime| is_valid_time(t) && s@ == #[trigger] datetime_text(t),
{
    match unix_seconds() {
        Some(secs) => nowtime_text_at(secs),
        None => None,
    }
}

proof fn lemma_padded2_len(n: nat)
    requires
        n < 100,
    ensures
        padded2(n).len() == 2,
{
    reveal_with_fuel(decimal, 2);
}

proof fn lemma_decimal_four_digits(n: nat)
    requires
        1000 <= n <= 9999,
    ensures
        decimal(n).len() == 4,
{
    reveal_with_fuel(decimal, 4);
}

/// For a valid time in a four-digit year the text has the fixed width of
/// `YYYY-MM-DD HH:MM`: sixteen characters.
pub proof fn lemma_datetime_width(t: LocalTime)
    requires
        is_valid_time(t),
        1000 <= t.year <= 9999,
    ensures
        datetime_text(t).len() == 16,
{
    lemma_decimal_four_digits(t.year as nat);
    lemma_padded2_len(t.month as nat);
    lemma_padded2_len(t.day as nat);
    lemma_padded2_len(t.hour as nat);
    lemma_padded2_len(t.minute as nat);
    reveal_strlit("-");
    reveal_strlit(" ");
    reveal_strlit(":");
}

} // verus!
