//! The denormalized report of a time entry: ids resolved to names, the
//! two service timestamps re-rendered in local time, and the elapsed
//! duration computed against wall-clock "now".

use vstd::prelude::*;

use crate::model::{Billable, EntryType, TimeEntry};
use crate::numfmt::duration_str;
use crate::numfmt::format_duration;

verus! {

/// The second count a timestamp string from the service denotes, relative
/// to the Unix epoch, or nothing when the string does not parse. The
/// outcome depends on the characters alone.
pub uninterp spec fn utc_seconds_of(s: Seq<char>) -> Option<i64>;

/// Relies on chrono's `FromStr` for `DateTime<Utc>` (a relaxed RFC 3339
/// form) and on `DateTime::timestamp`: whether a string parses, and which
/// second it denotes, are functions of the characters alone. On failure
/// the error's rendering is carried, with nothing promised of it.
#[verifier::external_body]
fn parse_utc_seconds(s: &String) -> (r: Result<i64, String>)
    ensures
        r is Ok <==> utc_seconds_of(s@) is Some,
        r matches Ok(t) ==> utc_seconds_of(s@) == Some(t),
{
    match s.parse::<chrono::DateTime<chrono::Utc>>() {
        Ok(dt) => Ok(dt.timestamp()),
        Err(e) => Err(e.to_string()),
    }
}

/// Relies on chrono's `Utc::now` and `DateTime::timestamp`: the machine's
/// wall clock in whole seconds since the Unix epoch. The value depends on
/// when the call runs, so nothing is promised of it.
#[verifier::external_body]
fn now_unix_seconds() -> i64 {
    chrono::Utc::now().timestamp()
}

/// Relies on chrono's `DateTime::from_timestamp`, `with_timezone` and
/// `format`: renders the instant `epoch` seconds after the Unix epoch as
/// `%Y-%m-%d %H:%M:%S` in the machine's local time zone. The result
/// depends on the machine's time zone, so nothing is promised of it.
#[verifier::external_body]
fn format_local(epoch: i64) -> (r: String) {
    match chrono::DateTime::<chrono::Utc>::from_timestamp(epoch, 0) {
        Some(dt) => dt.with_timezone(&chrono::Local).format("%Y-%m-%d %H:%M:%S").to_string(),
        None => String::new(),
    }
}

/// A timestamp from the service that did not parse; carries the parser's
/// rendering of the failure.
#[derive(Clone, Debug, PartialEq, Eq)]
pub struct TimeParseError {
    pub message: String,
}

/// A time entry with its ids resolved to display names and its elapsed
/// duration rendered, ready for the presentation adapter. Created
/// transiently per command and discarded after output.
#[derive(Clone, Debug, PartialEq, Eq)]
pub struct TimeEntryOutput {
    pub id: u32,
    pub customer: String,
    pub project: Option<String>,
    pub entry_type: EntryType,
    pub service: Option<String>,
    pub billable: Billable,
    pub description: String,
    pub time_insert: String,
    pub time_since: String,
    pub duration: String,
}

/// The whole seconds elapsed from `started` to `now`; a clock that ran
/// backwards counts as zero elapsed time.
pub open spec fn elapsed_secs(started: i64, now: i64) -> nat {
    if now >= started {
        (now - started) as nat
    } else {
        0
    }
}

/// The view of an optional borrowed string.
pub open spec fn opt_name_view(o: Option<&String>) -> Option<Seq<char>> {
    match o {
        Some(s) => Some(s@),
        None => None,
    }
}

/// The view of an optional owned string.
pub open spec fn opt_string_view(o: Option<String>) -> Option<Seq<char>> {
    match o {
        Some(s) => Some(s@),
        None => None,
    }
}

/// The description a report shows: the entry's free text, or `[empty]`.
pub open spec fn description_str(text: Option<String>) -> Seq<char> {
    match text {
        Some(t) => t@,
        None => "[empty]"@,
    }
}

fn elapsed_u64(started: i64, now: i64) -> (r: u64)
    ensures
        r as nat == elapsed_secs(started, now),
{
    if now >= started {
        let d: i128 = (now as i128) - (started as i128);
        d as u64
    } else {
        0
    }
}

impl TimeEntryOutput {
    /// Builds the report of `entry` with the given resolved names, against
    /// the instant `now` (seconds since the Unix epoch). Fails exactly
    /// when one of the entry's two timestamps does not parse. The two
    /// re-rendered timestamp fields depend on the machine's time zone and
    /// are not pinned here.
    pub fn from_time_entry_at(
        entry: TimeEntry,
        customer: &String,
        service: Option<&String>,
        project: Option<&String>,
        now: i64,
    ) -> (r: Result<TimeEntryOutput, TimeParseError>)
        ensures
            r is Ok <==> (utc_seconds_of(entry.time_insert@) is Some && utc_seconds_of(
                entry.time_since@,
            ) is Some),
            r matches Ok(o) ==> {
                &&& o.id == entry.id
                &&& o.customer@ == customer@
                &&& opt_string_view(o.project) == opt_name_view(project)
                &&& o.entry_type == entry.entry_type
                &&& opt_string_view(o.service) == opt_name_view(service)
                &&& o.billable == entry.billable
                &&& o.description@ == description_str(entry.text)
                &&& o.duration@ == duration_str(
                    elapsed_secs(utc_seconds_of(entry.time_since@).unwrap(), now),
                )
            },
    {
        let insert_epoch = match parse_utc_seconds(&entry.time_insert) {
            Ok(t) => t,
            Err(m) => {
                return Err(TimeParseError { message: m });
            },
        };
        let since_epoch = match parse_utc_seconds(&entry.time_since) {
            Ok(t) => t,
            Err(m) => {
                return Err(TimeParseError { message: m });
            },
        };
        let elapsed = elapsed_u64(since_epoch, now);
        let duration = format_duration(elapsed);
        Ok(
            TimeEntryOutput {
                id: entry.id,
                customer: customer.clone(),
                project: match project {
                    Some(p) => Some(p.clone()),
                    None => None,
                },
                entry_type: entry.entry_type,
                service: match service {
                    Some(s) => Some(s.clone()),
                    None => None,
                },
                billable: entry.billable,
                description: match entry.text {
                    Some(t) => t,
                    None => String::from_str("[empty]"),
                },
                time_insert: format_local(insert_epoch),
                time_since: format_local(since_epoch),
                duration,
            },
        )
    }

    /// Builds the report of `entry` against the wall clock at the moment
    /// of the call; otherwise as `from_time_entry_at`.
    pub fn from_time_entry(
        entry: TimeEntry,
        customer: &String,
        service: Option<&String>,
        project: Option<&String>,
    ) -> (r: Result<TimeEntryOutput, TimeParseError>)
        ensures
            r is Ok <==> (utc_seconds_of(entry.time_insert@) is Some && utc_seconds_of(
                entry.time_since@,
            ) is Some),
            r matches Ok(o) ==> {
                &&& o.id == entry.id
                &&& o.customer@ == customer@
                &&& opt_string_view(o.project) == opt_name_view(project)
                &&& o.entry_type == entry.entry_type
                &&& opt_string_view(o.service) == opt_name_view(service)
                &&& o.billable == entry.billable
                &&& o.description@ == description_str(entry.text)
                &&& exists|now: i64|
                    o.duration@ == duration_str(
                        elapsed_secs(utc_seconds_of(entry.time_since@).unwrap(), now),
                    )
            },
    {
        let now = now_unix_seconds();
        Self::from_time_entry_at(entry, customer, service, project, now)
    }
}

/// The stopwatch report a status or start command hands to the
/// presentation adapter: whether an entry runs, and its report if so.
#[derive(Clone, Debug, PartialEq, Eq)]
pub struct JsonOutput {
    pub running: bool,
    pub time_entry: Option<TimeEntryOutput>,
}

/// The report a stop command hands to the presentation adapter.
#[derive(Clone, Debug, PartialEq, Eq)]
pub struct StopOutput {
    pub stopped: bool,
    pub time_entry: Option<TimeEntryOutput>,
}

} // verus!
