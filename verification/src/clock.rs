//! Moments in time, and the calendar's reading and writing of them.
//!
//! A moment is held as seconds and nanoseconds since the start of 1970 in
//! UTC. Reading a moment from text and writing it as text are the work of
//! the `chrono` crate; what it returns is named here and not spelled out.

use vstd::prelude::*;

verus! {

/// A moment: whole seconds since 1970-01-01 00:00:00 UTC, and the
/// nanoseconds into the second.
#[derive(Debug, Clone, Copy, PartialEq, Eq, Structural)]
pub struct Timestamp {
    pub secs: i64,
    pub nanos: u32,
}

/// A day of the calendar.
#[derive(Debug, Clone, Copy, PartialEq, Eq, Structural)]
pub struct Day {
    pub year: i32,
    pub month: u32,
    pub day: u32,
}

/// Why a moment could not be had.
#[derive(Debug, Clone, PartialEq, Eq)]
pub enum TimeError {
    /// The text is no date and time; the reason is the calendar's own.
    Unparseable(String),
    /// The moment lies outside the calendar.
    OutOfRange,
    /// The moment cannot be written: it lies outside the calendar, or the
    /// pattern is not understood.
    Unwritable,
}

/// A `TimeError` without the calendar's wording.
pub enum TimeFault {
    Unparseable,
    OutOfRange,
    Unwritable,
}

/// The pattern that writes a day as year, month and day.
pub const DAY_PATTERN: &'static str = "%Y-%m-%d";

/// The moment that `text` denotes as a date and time with an offset, in
/// UTC; `None` where it denotes none.
pub uninterp spec fn utc_parsed(text: Seq<char>) -> Option<(i64, u32)>;

/// The moment written after `pattern`; `None` where the moment lies
/// outside the calendar or the pattern is not understood.
pub uninterp spec fn utc_text(secs: i64, nanos: u32, pattern: Seq<char>) -> Option<Seq<char>>;

/// The year, month and day of the moment in UTC; `None` where the moment
/// lies outside the calendar.
pub uninterp spec fn utc_day(secs: i64, nanos: u32) -> Option<(i32, u32, u32)>;

/// What reading `text` yields, without the wording of a failure.
pub open spec fn read_moment(text: Seq<char>) -> Result<Timestamp, TimeFault> {
    match utc_parsed(text) {
        Some((secs, nanos)) => Ok(Timestamp { secs, nanos }),
        None => Err(TimeFault::Unparseable),
    }
}

/// What writing the moment after `pattern` yields.
pub open spec fn written_moment(at: Timestamp, pattern: Seq<char>) -> Result<Seq<char>, TimeFault> {
    match utc_text(at.secs, at.nanos, pattern) {
        Some(text) => Ok(text),
        None => Err(TimeFault::Unwritable),
    }
}

/// The fault that an error stands for.
pub open spec fn fault_of(error: TimeError) -> TimeFault {
    match error {
        TimeError::Unparseable(_) => TimeFault::Unparseable,
        TimeError::OutOfRange => TimeFault::OutOfRange,
        TimeError::Unwritable => TimeFault::Unwritable,
    }
}

/// `chrono::ParseError`: why a text could not be read. It is carried from
/// the reading to the wording and never looked into.
#[verifier::external_type_specification]
#[verifier::external_body]
pub struct ExParseError(chrono::ParseError);

/// `str::parse` for `chrono::DateTime<chrono::Utc>`: reads a date and
/// time with an offset and gives the moment in UTC. The contract claims
/// that the call succeeds exactly where `utc_parsed` names a moment, and
/// that the moment is the named one.
#[verifier::external_body]
pub(crate) fn parse_utc(text: &str) -> (out: Result<Timestamp, chrono::ParseError>)
    ensures
        match out {
            Ok(at) => utc_parsed(text@) == Some((at.secs, at.nanos)),
            Err(_) => utc_parsed(text@) is None,
        },
{
    match text.parse::<chrono::DateTime<chrono::Utc>>() {
        Ok(at) => Ok(Timestamp { secs: at.timestamp(), nanos: at.timestamp_subsec_nanos() }),
        Err(error) => Err(error),
    }
}

/// `ToString::to_string` of `chrono::ParseError`: the calendar's wording
/// of why a text could not be read. Nothing is claimed of the wording.
#[verifier::external_body]
pub(crate) fn describe(error: &chrono::ParseError) -> String {
    error.to_string()
}

/// `chrono::DateTime::format` with `DelayedFormat::write_to`: writes the
/// moment after a `strftime` pattern. The contract claims that the text
/// is the one that `utc_text` names, and that there is none exactly where
/// it names none.
#[verifier::external_body]
pub(crate) fn format_utc(at: Timestamp, pattern: &str) -> (out: Option<String>)
    ensures
        out.deep_view() == utc_text(at.secs, at.nanos, pattern@),
{
    let moment = chrono::DateTime::from_timestamp(at.secs, at.nanos)?;
    let mut text = String::new();
    match moment.format(pattern).write_to(&mut text) {
        Ok(()) => Some(text),
        Err(_) => None,
    }
}

/// `chrono::DateTime::date_naive` with `Datelike::year`, `month` and
/// `day`: the calendar day on which the moment falls in UTC. The contract
/// claims that the day is the one that `utc_day` names.
#[verifier::external_body]
pub(crate) fn day_of(at: Timestamp) -> (out: Option<Day>)
    ensures
        match out {
            Some(d) => utc_day(at.secs, at.nanos) == Some((d.year, d.month, d.day)),
            None => utc_day(at.secs, at.nanos) is None,
        },
{
    let date = chrono::DateTime::from_timestamp(at.secs, at.nanos)?.date_naive();
    Some(
        Day {
            year: chrono::Datelike::year(&date),
            month: chrono::Datelike::month(&date),
            day: chrono::Datelike::day(&date),
        },
    )
}

/// `chrono::Utc::now`: the moment at which it is called. Nothing is
/// claimed of it. The call takes no input that could be ruled out, and it
/// does not return where the system's clock stands before 1970 or beyond
/// the calendar.
#[verifier::external_body]
pub(crate) fn now() -> Timestamp {
    let at = chrono::Utc::now();
    Timestamp { secs: at.timestamp(), nanos: at.timestamp_subsec_nanos() }
}

/// Reads a moment from `text`.
pub fn read(text: &str) -> (out: Result<Timestamp, TimeError>)
    ensures
        match out {
            Ok(at) => read_moment(text@) == Ok::<Timestamp, TimeFault>(at),
            Err(error) => read_moment(text@) == Err::<Timestamp, TimeFault>(fault_of(error))
                && error is Unparseable,
        },
{
    match parse_utc(text) {
        Ok(at) => Ok(at),
        Err(error) => Err(TimeError::Unparseable(describe(&error))),
    }
}

/// Writes the moment after `pattern`.
pub fn write(at: Timestamp, pattern: &str) -> (out: Result<String, TimeError>)
    ensures
        match out {
            Ok(text) => written_moment(at, pattern@) == Ok::<Seq<char>, TimeFault>(text@),
            Err(error) => written_moment(at, pattern@) == Err::<Seq<char>, TimeFault>(
                fault_of(error),
            ) && error is Unwritable,
        },
{
    match format_utc(at, pattern) {
        Some(text) => Ok(text),
        None => Err(TimeError::Unwritable),
    }
}

} // verus!
