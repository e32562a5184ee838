//! Events as the status source writes them, and their decoding.

use crate::event::{Event, EventType, EventView};
use vstd::prelude::*;

verus! {

/// Where the status source publishes its list of events.
pub const STATUS_LIST_URL: &'static str = "https://status.escapefromtarkov.com/api/message/list";

/// One entry of the list that the status source returns: the category as a
/// number, the moments as text.
#[derive(Debug, PartialEq, Eq)]
pub struct EventRecord {
    pub id: String,
    pub content: String,
    /// Numeric code of the category.
    pub event_type: u32,
    /// When the incident began, in RFC 3339 notation.
    pub time: String,
    /// When the incident was resolved, in RFC 3339 notation, if it was.
    pub solve_time: Option<String>,
}

/// What an [`EventRecord`] holds, as mathematical values.
pub struct EventRecordView {
    pub id: Seq<char>,
    pub content: Seq<char>,
    pub event_type: u32,
    pub time: Seq<char>,
    pub solve_time: Option<Seq<char>>,
}

impl View for EventRecord {
    type V = EventRecordView;

    open spec fn view(&self) -> EventRecordView {
        EventRecordView {
            id: self.id@,
            content: self.content@,
            event_type: self.event_type,
            time: self.time@,
            solve_time: match self.solve_time {
                Some(text) => Some(text@),
                None => None,
            },
        }
    }
}

/// Why a record could not be decoded.
#[derive(Clone, Copy, Debug, PartialEq, Eq, Structural)]
pub enum RecordError {
    /// The moment of opening is no valid date and time.
    OpenTime,
    /// The moment of resolution is no valid date and time.
    ResolveTime,
}

/// What `chrono` reads `text` as: a moment, in seconds since the Unix epoch,
/// or `None` where it does not take `text` for a date and time. The notation
/// it reads is a relaxed form of RFC 3339.
pub uninterp spec fn rfc3339_seconds(text: Seq<char>) -> Option<i64>;

/// Reads a date and time with `chrono`: `str::parse` into a
/// `chrono::DateTime<chrono::Utc>`, which goes through the `FromStr` that
/// `chrono` implements for that type, and then `DateTime::timestamp` on what
/// was read.
///
/// Not proved: that the result depends on the text alone. The contract says
/// no more than that, by giving the result the name [`rfc3339_seconds`]; it
/// says nothing of which texts are read, nor as which moment.
#[verifier::external_body]
fn parse_seconds(text: &str) -> (seconds: Option<i64>)
    ensures
        seconds == rfc3339_seconds(text@),
{
    match text.parse::<chrono::DateTime<chrono::Utc>>() {
        Ok(moment) => Some(moment.timestamp()),
        Err(_) => None,
    }
}

/// The event that a record stands for, given what its two moments were read
/// as: `opened` for the moment of opening, `resolved` for the moment of
/// resolution where the record has one. The record is refused where a moment
/// that it holds could not be read; the moment of opening is looked at first.
pub open spec fn assembled(
    record: EventRecordView,
    opened: Option<i64>,
    resolved: Option<Option<i64>>,
) -> Result<EventView, RecordError> {
    match opened {
        None => Err(RecordError::OpenTime),
        Some(opened_at) => if resolved == Some(None::<i64>) {
            Err(RecordError::ResolveTime)
        } else {
            Ok(
                EventView {
                    id: record.id,
                    content: record.content,
                    event_type: EventType::of_code(record.event_type),
                    opened_at,
                    resolved_at: match resolved {
                        Some(moment) => moment,
                        None => None,
                    },
                },
            )
        },
    }
}

/// The two moments of a record as `chrono` reads them.
pub open spec fn moments_read(record: EventRecordView) -> (Option<i64>, Option<Option<i64>>) {
    (
        rfc3339_seconds(record.time),
        match record.solve_time {
            Some(text) => Some(rfc3339_seconds(text)),
            None => None,
        },
    )
}

/// The event that a record stands for.
pub open spec fn decoded(record: EventRecordView) -> Result<EventView, RecordError> {
    assembled(record, moments_read(record).0, moments_read(record).1)
}

/// The view of a decoding result.
pub open spec fn outcome_view(outcome: Result<Event, RecordError>) -> Result<
    EventView,
    RecordError,
> {
    match outcome {
        Ok(event) => Ok(event@),
        Err(error) => Err(error),
    }
}

/// Builds the event that `record` stands for from its fields and from what
/// its two moments were read as. `resolved` is `None` for a record without a
/// moment of resolution, and `Some(None)` for one whose moment of resolution
/// could not be read.
pub fn assemble(record: &EventRecord, opened: Option<i64>, resolved: Option<Option<i64>>) -> (outcome:
    Result<Event, RecordError>)
    ensures
        outcome_view(outcome) == assembled(record@, opened, resolved),
{
    let opened_at = match opened {
        Some(opened_at) => opened_at,
        None => {
            return Err(RecordError::OpenTime);
        },
    };
    let resolved_at = match resolved {
        Some(Some(resolved_at)) => Some(resolved_at),
        Some(None) => {
            return Err(RecordError::ResolveTime);
        },
        None => None,
    };
    Ok(
        Event {
            id: record.id.clone(),
            content: record.content.clone(),
            event_type: EventType::from_code(record.event_type),
            opened_at,
            resolved_at,
        },
    )
}

/// Decodes one record of the status source. Every category code is accepted;
/// a moment that `chrono` does not read as a date and time is not.
pub fn event_from_record(record: &EventRecord) -> (outcome: Result<Event, RecordError>)
    ensures
        outcome_view(outcome) == decoded(record@),
{
    let opened = parse_seconds(record.time.as_str());
    let resolved = match &record.solve_time {
        Some(text) => Some(parse_seconds(text.as_str())),
        None => None,
    };
    assemble(record, opened, resolved)
}

/// Decodes the list that the status source returned, in its order. The list is
/// refused as a whole where one of its records is: the error is that of the
/// first record that could not be decoded.
pub fn snapshot_from_records(records: &Vec<EventRecord>) -> (outcome: Result<
    Vec<Event>,
    RecordError,
>)
    ensures
        match outcome {
            Ok(events) => {
                &&& events.len() == records.len()
                &&& forall|i: int|
                    0 <= i < records.len() ==> decoded(#[trigger] records[i]@) == Ok::<
                        EventView,
                        RecordError,
                    >(events[i]@)
            },
            Err(error) => exists|i: int|
                {
                    &&& 0 <= i < records.len()
                    &&& decoded(#[trigger] records[i]@) == Err::<EventView, RecordError>(error)
                    &&& forall|j: int| 0 <= j < i ==> decoded(#[trigger] records[j]@) is Ok
                },
        },
{
    let mut events: Vec<Event> = Vec::new();
    let mut k: usize = 0;
    while k < records.len()
        invariant
            k <= records.len(),
            events.len() == k,
            forall|i: int|
                0 <= i < k ==> decoded(#[trigger] records[i]@) == Ok::<EventView, RecordError>(
                    events[i]@,
                ),
        decreases records.len() - k,
    {
        match event_from_record(&records[k]) {
            Ok(event) => {
                events.push(event);
            },
            Err(error) => {
                return Err(error);
            },
        }
        k += 1;
    }
    Ok(events)
}

} // verus!
