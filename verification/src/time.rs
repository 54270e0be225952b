//! The instant at which an analysis was made, and its textual form
//! `YYYY-MM-DD HH:MM:SS ±ZZZZ`.

use vstd::prelude::*;

verus! {

/// An instant in UTC: whole seconds since 1970-01-01 00:00:00 and the
/// nanoseconds within the second.
#[derive(Clone, Copy, Debug, PartialEq, Eq, Structural)]
pub struct AnalysisDate {
    pub secs: i64,
    pub nanos: u32,
}

/// The pattern of the textual form, in the notation of `chrono`.
pub open spec fn date_format() -> Seq<char> {
    "%Y-%m-%d %H:%M:%S %z"@
}

/// The text that `chrono` writes for an instant under a pattern; `None`
/// where the instant is outside the range of its calendar.
pub uninterp spec fn date_formatted(secs: i64, nanos: u32, format: Seq<char>) -> Option<Seq<char>>;

/// The instant, in UTC, that `chrono` reads from a text under a pattern;
/// `None` where the text does not follow the pattern.
pub uninterp spec fn date_parsed(text: Seq<char>, format: Seq<char>) -> Option<(i64, u32)>;

/// `chrono::DateTime::from_timestamp`, then `DateTime::format` and its
/// `Display`: the text of the instant under the pattern, `None` where
/// `from_timestamp` gives no instant.
#[verifier::external_body]
fn chrono_format(secs: i64, nanos: u32, format: &str) -> (text: Option<String>)
    requires
        format@ == date_format(),
    ensures
        text is Some <==> date_formatted(secs, nanos, format@) is Some,
        text matches Some(t) ==> date_formatted(secs, nanos, format@) == Some(t@),
{
    chrono::DateTime::from_timestamp(secs, nanos).map(|d| d.format(format).to_string())
}

/// `chrono::DateTime::parse_from_str`, then `to_utc`, `timestamp` and
/// `timestamp_subsec_nanos`: the instant that the text holds, `None` where
/// the parser rejects it.
#[verifier::external_body]
fn chrono_parse(text: &str, format: &str) -> (instant: Option<(i64, u32)>)
    ensures
        instant == date_parsed(text@, format@),
{
    match chrono::DateTime::parse_from_str(text, format) {
        Ok(d) => Some((d.to_utc().timestamp(), d.to_utc().timestamp_subsec_nanos())),
        Err(_) => None,
    }
}

/// `chrono::Utc::now`, with `timestamp` and `timestamp_subsec_nanos`: the
/// current instant. Which instant it is depends on the clock; whichever it
/// is, `Utc::now` has made it with `DateTime::from_timestamp` from a
/// duration since the epoch, so that it lies within the calendar and its
/// part below the second is less than a second.
#[verifier::external_body]
fn chrono_now() -> (instant: (i64, u32))
    ensures
        date_formatted(instant.0, instant.1, date_format()) is Some,
        instant.1 < 1_000_000_000,
{
    let now = chrono::Utc::now();
    (now.timestamp(), now.timestamp_subsec_nanos())
}

/// Why a date could not be written or read.
#[derive(Clone, Copy, Debug, PartialEq, Eq, Structural)]
pub enum DateError {
    /// The instant lies outside the calendar.
    OutOfRange,
    /// The text does not follow the pattern.
    Malformed,
}

impl AnalysisDate {
    /// The textual form of the instant; `None` outside the calendar.
    pub open spec fn text(self) -> Option<Seq<char>> {
        date_formatted(self.secs, self.nanos, date_format())
    }

    /// The instant that a text holds; `None` where it holds none.
    pub open spec fn of_text(text: Seq<char>) -> Option<AnalysisDate> {
        match date_parsed(text, date_format()) {
            Some((secs, nanos)) => Some(AnalysisDate { secs, nanos }),
            None => None,
        }
    }

    /// Whether this instant lies after the other.
    pub open spec fn is_after(self, other: AnalysisDate) -> bool {
        self.secs > other.secs || (self.secs == other.secs && self.nanos > other.nanos)
    }

    /// Whether this instant lies after the other.
    pub fn after(&self, other: &AnalysisDate) -> (r: bool)
        ensures
            r == self.is_after(*other),
    {
        self.secs > other.secs || (self.secs == other.secs && self.nanos > other.nanos)
    }

    /// The current instant. It lies within the calendar, so that it has a
    /// textual form, and its part below the second is less than a second.
    pub fn now() -> (d: AnalysisDate)
        ensures
            d.text() is Some,
            d.nanos < 1_000_000_000,
    {
        let (secs, nanos) = chrono_now();
        AnalysisDate { secs, nanos }
    }

    /// Writes the instant as `YYYY-MM-DD HH:MM:SS ±ZZZZ`.
    pub fn to_text(&self) -> (r: Result<String, DateError>)
        ensures
            r is Ok <==> self.text() is Some,
            r matches Ok(t) ==> self.text() == Some(t@),
            r matches Err(e) ==> e == DateError::OutOfRange,
    {
        match chrono_format(self.secs, self.nanos, "%Y-%m-%d %H:%M:%S %z") {
            Some(t) => Ok(t),
            None => Err(DateError::OutOfRange),
        }
    }

    /// Reads an instant written as `YYYY-MM-DD HH:MM:SS ±ZZZZ`.
    pub fn from_text(text: &str) -> (r: Result<AnalysisDate, DateError>)
        ensures
            r is Ok <==> AnalysisDate::of_text(text@) is Some,
            r matches Ok(d) ==> AnalysisDate::of_text(text@) == Some(d),
            r matches Err(e) ==> e == DateError::Malformed,
    {
        match chrono_parse(text, "%Y-%m-%d %H:%M:%S %z") {
            Some((secs, nanos)) => Ok(AnalysisDate { secs, nanos }),
            None => Err(DateError::Malformed),
        }
    }
}

/// What is written for the date of an analysis: nothing for no date, the
/// textual form for a date.
pub open spec fn serialized_date(date: Option<AnalysisDate>) -> Result<Option<Seq<char>>, DateError> {
    match date {
        None => Ok(None),
        Some(d) => match d.text() {
            Some(t) => Ok(Some(t)),
            None => Err(DateError::OutOfRange),
        },
    }
}

/// What is read for the date of an analysis: no date for nothing, the
/// instant for a text that holds one.
pub open spec fn deserialized_date(text: Option<Seq<char>>) -> Result<
    Option<AnalysisDate>,
    DateError,
> {
    match text {
        None => Ok(None),
        Some(t) => match AnalysisDate::of_text(t) {
            Some(d) => Ok(Some(d)),
            None => Err(DateError::Malformed),
        },
    }
}

/// The written form of an optional date.
pub fn serialize_datetime(date: &Option<AnalysisDate>) -> (r: Result<Option<String>, DateError>)
    ensures
        r is Ok <==> serialized_date(*date) is Ok,
        r matches Ok(Some(t)) ==> serialized_date(*date) == Ok::<Option<Seq<char>>, DateError>(
            Some(t@),
        ),
        r matches Ok(None) ==> *date is None,
        r matches Err(e) ==> serialized_date(*date) == Err::<Option<Seq<char>>, DateError>(e),
{
    match date {
        Some(d) => match d.to_text() {
            Ok(t) => Ok(Some(t)),
            Err(e) => Err(e),
        },
        None => Ok(None),
    }
}

/// The optional date that a written form holds.
pub fn deserialize_datetime(text: Option<&str>) -> (r: Result<Option<AnalysisDate>, DateError>)
    ensures
        r == deserialized_date(
            match text {
                Some(t) => Some(t@),
                None => None,
            },
        ),
{
    match text {
        Some(t) => match AnalysisDate::from_text(t) {
            Ok(d) => Ok(Some(d)),
            Err(e) => Err(e),
        },
        None => Ok(None),
    }
}

} // verus!
