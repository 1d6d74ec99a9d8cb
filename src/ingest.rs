//! The decisions of the serial ingest loop: which lines carry telemetry, how
//! a line changes the shared record, and what the loop does after each read.
use vstd::prelude::*;

use crate::payload::{decode_spec, parse_battery_json, PayloadError};
use crate::record::BatteryData;

verus! {

/// The prefix that marks a telemetry line.
pub const MARKER: &'static str = "UPS_JSON:";

/// Milliseconds the loop waits after a failed read before reading again.
pub const READ_BACKOFF_MS: u64 = 100;

/// `s` with leading and trailing white space removed.
pub uninterp spec fn trimmed(s: Seq<char>) -> Seq<char>;

/// Relies on `str::strip_prefix`: `Some` of what follows the prefix exactly
/// when the text starts with it.
#[verifier::external_body]
fn strip_prefix<'a>(s: &'a str, prefix: &str) -> (r: Option<&'a str>)
    ensures
        r is Some <==> prefix@.is_prefix_of(s@),
        r is Some ==> r->Some_0@ == s@.skip(prefix@.len() as int),
{
    s.strip_prefix(prefix)
}

/// Relies on `str::trim`: the text without leading and trailing white space.
#[verifier::external_body]
fn trim(s: &str) -> (r: &str)
    ensures
        r@ == trimmed(s@),
{
    s.trim()
}

/// The payload that a line carries: what follows the marker, trimmed, or
/// `None` for a line without the marker.
pub open spec fn payload_spec(line: Seq<char>) -> Option<Seq<char>> {
    if MARKER@.is_prefix_of(line) {
        Some(trimmed(line.skip(MARKER@.len() as int)))
    } else {
        None
    }
}

/// The record that a line brings at the given host time, if any: `None` for
/// a line without the marker and for a malformed payload.
pub open spec fn line_update(line: Seq<char>, timestamp: u64) -> Option<BatteryData> {
    match payload_spec(line) {
        Some(p) => match decode_spec(p, timestamp) {
            Ok(r) => Some(r),
            Err(_) => None,
        },
        None => None,
    }
}

/// Extracts the payload of a telemetry line.
pub fn payload_of_line(line: &str) -> (r: Option<&str>)
    ensures
        r is Some <==> payload_spec(line@) is Some,
        r is Some ==> r->Some_0@ == payload_spec(line@)->Some_0,
{
    match strip_prefix(line, MARKER) {
        Some(rest) => Some(trim(rest)),
        None => None,
    }
}

/// Applies one line read from the device to the record.  A telemetry line
/// whose payload decodes replaces the record as a whole and gives `true`;
/// any other line leaves the record untouched and gives `false`.
pub fn ingest_line(record: &mut BatteryData, line: &str, timestamp: u64) -> (updated: bool)
    ensures
        updated == line_update(line@, timestamp) is Some,
        updated ==> *final(record) == line_update(line@, timestamp)->Some_0,
        !updated ==> *final(record) == *old(record),
        old(record).wf() ==> final(record).wf(),
{
    match payload_of_line(line) {
        Some(payload) => match parse_battery_json(payload, timestamp) {
            Ok(data) => {
                *record = data;
                true
            },
            Err(PayloadError::Malformed) => false,
        },
        None => false,
    }
}

/// What the serial link delivered on one read.
#[derive(Clone, Debug, PartialEq, Eq)]
pub enum ReadEvent {
    /// End of stream: the link was closed.
    Closed,
    /// One line of text.
    Line(String),
    /// A read error other than end of stream.
    Failed,
}

/// What the ingest loop does next.
#[derive(Clone, Copy, Debug, PartialEq, Eq, Structural)]
pub enum IngestAction {
    /// Read the next line at once.
    Continue,
    /// Wait `READ_BACKOFF_MS` milliseconds, then read again.
    Backoff,
    /// Leave the loop: the link is closed.
    Stop,
}

/// The action that follows a read event.
pub open spec fn action_spec(event: ReadEvent) -> IngestAction {
    match event {
        ReadEvent::Closed => IngestAction::Stop,
        ReadEvent::Line(_) => IngestAction::Continue,
        ReadEvent::Failed => IngestAction::Backoff,
    }
}

/// One step of the ingest loop: applies a read event to the record and says
/// what the loop does next.  Only a decoded telemetry line changes the
/// record; a closed link stops the loop and a read error backs off.
pub fn ingest_step(record: &mut BatteryData, event: &ReadEvent, timestamp: u64) -> (r: (
    IngestAction,
    bool,
))
    ensures
        r.0 == action_spec(*event),
        r.1 == (event matches ReadEvent::Line(line) && line_update(line@, timestamp) is Some),
        r.1 ==> (event matches ReadEvent::Line(line) && *final(record) == line_update(
            line@,
            timestamp,
        )->Some_0),
        !r.1 ==> *final(record) == *old(record),
        old(record).wf() ==> final(record).wf(),
{
    match event {
        ReadEvent::Closed => (IngestAction::Stop, false),
        ReadEvent::Line(line) => {
            let updated = ingest_line(record, line.as_str(), timestamp);
            (IngestAction::Continue, updated)
        },
        ReadEvent::Failed => (IngestAction::Backoff, false),
    }
}

/// A telemetry line whose payload is malformed leaves the record as it was:
/// no record comes of it.
pub proof fn lemma_malformed_payload_ignored(line: Seq<char>, timestamp: u64)
    requires
        payload_spec(line) is Some,
        decode_spec(payload_spec(line)->Some_0, timestamp) is Err,
    ensures
        line_update(line, timestamp) is None,
{
}

/// Every record that a line brings is well formed, and it is determined by
/// the line and the time alone: there is no mixture of an old and a new
/// record.
pub proof fn lemma_update_whole_and_well_formed(line: Seq<char>, timestamp: u64)
    ensures
        line_update(line, timestamp) is Some ==> line_update(line, timestamp)->Some_0.wf(),
        line_update(line, timestamp) is Some ==> line_update(line, timestamp)->Some_0
            == decode_spec(payload_spec(line)->Some_0, timestamp)->Ok_0,
{
}

} // verus!
