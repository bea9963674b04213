//! Conversions between unix times, kernel jiffies and human-readable times.

use vstd::prelude::*;
use chrono::{DateTime, Local, NaiveDateTime, TimeZone};

verus! {

/// Smallest unix time, in seconds, that chrono represents as a UTC date time.
pub const UTC_MIN_SECS: i64 = -8334601228800;

/// Largest unix time, in seconds, that chrono represents as a UTC date time.
pub const UTC_MAX_SECS: i64 = 8210266876799;

/// Pattern of the times that users type.
pub const HUMAN_TIME_FORMAT: &'static str = "%Y-%m-%d %H:%M:%S";

/// Pattern of the times shown to users.
pub const LOCAL_TIME_FORMAT: &'static str = "%Y-%m-%d %H:%M:%S %Z";

/// Kernel clock ticks per second.
pub const JIFFIES_PER_SEC: u64 = 100;

/// `secs` names a date time that chrono can hold.
pub open spec fn utc_representable(secs: int) -> bool {
    UTC_MIN_SECS <= secs <= UTC_MAX_SECS
}

/// What chrono's `NaiveDateTime::parse_from_str` reads from `text` under the
/// pattern `fmt`, as the unix time it would be if read as UTC (`and_utc`,
/// then `timestamp`); `None` when the text does not follow the pattern.
pub uninterp spec fn parsed_wall_secs(text: Seq<char>, fmt: Seq<char>) -> Option<i64>;

/// What chrono's `Display` of `DateTime<Utc>` writes for the unix time `secs`.
pub uninterp spec fn utc_text(secs: i64) -> Seq<char>;

/// What chrono writes under the pattern `fmt` for the unix time `secs` seen at
/// the fixed offset of `off` seconds east of UTC (`from_timestamp`, then
/// `with_timezone` at that offset, then `format`).
pub uninterp spec fn local_text(secs: i64, off: i32, fmt: Seq<char>) -> Seq<char>;

/// `NaiveDateTime::parse_from_str`, then `and_utc` and `timestamp`: the wall
/// time that `text` gives under `fmt`, counted as if it were UTC.
#[verifier::external_body]
fn parse_wall_secs(text: &str, fmt: &str) -> (res: Option<i64>)
    ensures
        res == parsed_wall_secs(text@, fmt@),
{
    let naive = NaiveDateTime::parse_from_str(text, fmt).ok()?;
    Some(naive.and_utc().timestamp())
}

/// `DateTime::from_timestamp` and `naive_utc` rebuild the wall time
/// `wall_secs`; `Local::from_local_datetime` reads it in the machine's time
/// zone, and `timestamp` gives the instant when there is exactly one. Which
/// offset applies depends on the time zone and is not stated; chrono's
/// offsets are always less than a day, and the instant is the wall time less
/// the offset. chrono reads the zone from `TZ` or `/etc/localtime` and falls
/// back to UTC when neither yields one.
#[verifier::external_body]
fn local_unix_secs(wall_secs: i64) -> (res: Option<i64>)
    ensures
        res matches Some(s) ==> -86400 < wall_secs - s < 86400,
{
    let naive = DateTime::from_timestamp(wall_secs, 0)?.naive_utc();
    let local = Local.from_local_datetime(&naive).single()?;
    Some(local.timestamp())
}

/// `DateTime::from_timestamp`, then `to_string`: the UTC date time of the
/// unix time `secs`, written as chrono writes it, when chrono can hold it.
#[verifier::external_body]
fn utc_timestamp_text(secs: i64) -> (res: Option<String>)
    ensures
        res is Some <==> utc_representable(secs as int),
        res matches Some(t) ==> t@ == utc_text(secs),
{
    let dt = DateTime::from_timestamp(secs, 0)?;
    Some(dt.to_string())
}

/// `DateTime::from_timestamp`, then `with_timezone(&Local)` and `format`: the
/// date time of the unix time `secs` in the machine's time zone, when chrono
/// can hold it. The local offset depends on the time zone and is not stated;
/// it is a chrono `FixedOffset`, less than a day, and the text is what the
/// same instant gives at that fixed offset.
#[verifier::external_body]
fn local_timestamp_text(secs: i64, fmt: &str) -> (res: Option<String>)
    requires
        fmt@ == LOCAL_TIME_FORMAT@,
    ensures
        res is Some <==> utc_representable(secs as int),
        res matches Some(t) ==> exists|off: i32| -86400 < off < 86400 && t@ == #[trigger] local_text(secs, off, fmt@),
{
    let dt = DateTime::from_timestamp(secs, 0)?;
    Some(dt.with_timezone(&Local).format(fmt).to_string())
}

/// Why a time could not be converted.
#[derive(Clone, Copy, Debug, PartialEq, Eq, Structural)]
pub enum TimeError {
    /// The text does not follow the time pattern.
    Format,
    /// The local time names no instant, or two.
    NotSingleLocalTime,
    /// The unix time lies outside the dates that can be shown.
    OutOfRange,
}

/// The unix time that a local time conversion gave, as an unsigned number of
/// seconds: times before the epoch wrap around, as a plain cast does.
pub fn local_secs_to_sec(local: Option<i64>) -> (res: Result<u64, TimeError>)
    ensures
        match local {
            Some(secs) => res == Ok::<u64, TimeError>(secs as u64),
            None => res == Err::<u64, TimeError>(TimeError::NotSingleLocalTime),
        },
{
    match local {
        Some(secs) => Ok(secs as u64),
        None => Err(TimeError::NotSingleLocalTime),
    }
}

/// `v` is the unix time of the local time written in `text`: the wall time
/// that `text` gives, less some offset of under a day.
pub open spec fn read_as_local(text: Seq<char>, v: u64) -> bool {
    parsed_wall_secs(text, HUMAN_TIME_FORMAT@) matches Some(w) && exists|s: i64|
        #[trigger] within_a_day(w, s) && v == s as u64
}

/// The instants `a` and `b` lie less than a day apart.
pub open spec fn within_a_day(a: i64, b: i64) -> bool {
    -86400 < a - b < 86400
}

/// `t` is the unix time `timestamp` written under the shown pattern at some
/// offset of under a day.
pub open spec fn shown_as_local(timestamp: u64, t: Seq<char>) -> bool {
    exists|off: i32| -86400 < off < 86400 && t == #[trigger] local_text(timestamp as i64, off, LOCAL_TIME_FORMAT@)
}

/// The unix time of a local time written as `YYYY-MM-DD HH:MM:SS`. Text that
/// does not follow the pattern is refused; a well-formed text gives its wall
/// time less the local offset, which depends on the machine's time zone.
pub fn human_time_to_sec(time_str: &str) -> (res: Result<u64, TimeError>)
    ensures
        res == Err::<u64, TimeError>(TimeError::Format) <==> parsed_wall_secs(
            time_str@,
            HUMAN_TIME_FORMAT@,
        ) is None,
        res != Err::<u64, TimeError>(TimeError::OutOfRange),
        res matches Ok(v) ==> read_as_local(time_str@, v),
{
    match parse_wall_secs(time_str, HUMAN_TIME_FORMAT) {
        None => Err(TimeError::Format),
        Some(wall) => {
            let local = local_unix_secs(wall);
            let res = local_secs_to_sec(local);
            proof {
                if let Some(s) = local {
                    assert(within_a_day(wall, s));
                }
            }
            res
        },
    }
}

/// The local date time of the unix time `timestamp`, written as
/// `YYYY-MM-DD HH:MM:SS ZONE`; the timestamp is read as a signed number of
/// seconds, as a plain cast does.
pub fn sec_to_human_time(timestamp: u64) -> (res: Result<String, TimeError>)
    ensures
        res is Ok <==> utc_representable((timestamp as i64) as int),
        res is Err ==> res == Err::<String, TimeError>(TimeError::OutOfRange),
        res matches Ok(t) ==> shown_as_local(timestamp, t@),
{
    match local_timestamp_text(timestamp as i64, LOCAL_TIME_FORMAT) {
        Some(text) => Ok(text),
        None => Err(TimeError::OutOfRange),
    }
}

/// Whole seconds in `jiffies` ticks of a clock that ticks `hz` times a
/// second, cast to a signed number as a plain cast does.
pub fn jiffies_to_seconds(jiffies: u64, hz: u64) -> (res: i64)
    requires
        hz > 0,
    ensures
        res == (jiffies / hz) as i64,
{
    (jiffies / hz) as i64
}

/// The unix time at which a process started, from the boot time and the
/// process's start in jiffies since boot.
pub fn calculate_process_time(boot_time: i64, start_time_jiffies: u64) -> (res: i64)
    requires
        i64::MIN <= boot_time + start_time_jiffies / JIFFIES_PER_SEC <= i64::MAX,
    ensures
        res == boot_time + start_time_jiffies / JIFFIES_PER_SEC,
{
    let secs = jiffies_to_seconds(start_time_jiffies, JIFFIES_PER_SEC);
    proof {
        assert(start_time_jiffies / JIFFIES_PER_SEC <= i64::MAX);
    }
    boot_time + secs
}

/// The UTC date time of the unix time `timestamp`, as chrono writes it.
pub fn timestamp_to_ymd(timestamp: i64) -> (res: String)
    requires
        utc_representable(timestamp as int),
    ensures
        res@ == utc_text(timestamp),
{
    match utc_timestamp_text(timestamp) {
        Some(text) => text,
        None => {
            assert(false);
            String::new()
        },
    }
}

/// The UTC date time at which a process started, from the machine's boot
/// time and the process's start in jiffies since boot.
pub fn jeff2time(boot_time: i64, start_time_jiffies: u64) -> (res: String)
    requires
        utc_representable(boot_time + start_time_jiffies / JIFFIES_PER_SEC),
    ensures
        res@ == utc_text((boot_time + start_time_jiffies / JIFFIES_PER_SEC) as i64),
{
    let process_timestamp = calculate_process_time(boot_time, start_time_jiffies);
    timestamp_to_ymd(process_timestamp)
}

/// The unix time of the machine's boot: the current unix time less the time
/// the machine has been up, both in whole seconds; the current time is read
/// as a signed number, as a plain cast does.
pub fn get_system_boot_time(now_secs: u64, uptime_secs: i64) -> (res: i64)
    requires
        i64::MIN <= (now_secs as i64) - uptime_secs <= i64::MAX,
    ensures
        res == (now_secs as i64) - uptime_secs,
{
    now_secs as i64 - uptime_secs
}

/// Starts that fall in the same second after boot are shown as the same
/// time.
pub proof fn lemma_jeff2time_same_second(boot_time: i64, j1: u64, j2: u64)
    requires
        j1 / JIFFIES_PER_SEC == j2 / JIFFIES_PER_SEC,
    ensures
        utc_text((boot_time + j1 / JIFFIES_PER_SEC) as i64) == utc_text(
            (boot_time + j2 / JIFFIES_PER_SEC) as i64,
        ),
{
}

} // verus!
