//! Tolerant decoding of a telemetry payload into a record.
//!
//! A payload is a flat JSON object.  Each field is read on its own: one that
//! is absent, of another type, or out of its range reads as zero (or false),
//! and only a text that is not JSON at all is rejected.
use vstd::prelude::*;

use crate::json::{
    json_members, json_parse, member, member_bool, member_i64, member_u64, parse_document,
    scalar_bool, scalar_i64, scalar_u64, JsonScalar,
};
use crate::record::{BatteryData, FULL_PERCENT};

verus! {

/// The fields of a payload as read from the document, before any range check.
#[derive(Clone, Copy, Debug, PartialEq, Eq, Structural)]
pub struct TelemetryFields {
    pub voltage_mv: Option<u64>,
    pub current_ma: Option<i64>,
    pub capacity_percent: Option<u64>,
    pub temperature_celsius: Option<u64>,
    pub is_charging: Option<bool>,
    pub is_connected: Option<bool>,
    pub last_update_ms: Option<u64>,
    pub consecutive_failures: Option<u64>,
}

/// Why a payload was not taken.
#[derive(Clone, Copy, Debug, PartialEq, Eq, Structural)]
pub enum PayloadError {
    /// The payload is not well-formed JSON.
    Malformed,
}

/// The fields that a document with the given members carries.
pub open spec fn fields_of(m: Map<Seq<char>, JsonScalar>) -> TelemetryFields {
    TelemetryFields {
        voltage_mv: scalar_u64(member(m, "voltage_mV"@)),
        current_ma: scalar_i64(member(m, "current_mA"@)),
        capacity_percent: scalar_u64(member(m, "capacity_percent"@)),
        temperature_celsius: scalar_u64(member(m, "temperature_celsius"@)),
        is_charging: scalar_bool(member(m, "is_charging"@)),
        is_connected: scalar_bool(member(m, "is_connected"@)),
        last_update_ms: scalar_u64(member(m, "last_update_ms"@)),
        consecutive_failures: scalar_u64(member(m, "consecutive_failures"@)),
    }
}

pub open spec fn u16_field(f: Option<u64>) -> u16 {
    match f {
        Some(n) => if n <= u16::MAX as u64 { n as u16 } else { 0 },
        None => 0,
    }
}

pub open spec fn i16_field(f: Option<i64>) -> i16 {
    match f {
        Some(n) => if i16::MIN as i64 <= n <= i16::MAX as i64 { n as i16 } else { 0 },
        None => 0,
    }
}

pub open spec fn u8_field(f: Option<u64>) -> u8 {
    match f {
        Some(n) => if n <= u8::MAX as u64 { n as u8 } else { 0 },
        None => 0,
    }
}

pub open spec fn percent_field(f: Option<u64>) -> u8 {
    match f {
        Some(n) => if n <= FULL_PERCENT as u64 { n as u8 } else { 0 },
        None => 0,
    }
}

pub open spec fn bool_field(f: Option<bool>) -> bool {
    match f {
        Some(b) => b,
        None => false,
    }
}

pub open spec fn u64_field(f: Option<u64>) -> u64 {
    match f {
        Some(n) => n,
        None => 0,
    }
}

/// The record built from a payload's fields at the given host time.
pub open spec fn record_of(f: TelemetryFields, timestamp: u64) -> BatteryData {
    BatteryData {
        timestamp,
        voltage_mv: u16_field(f.voltage_mv),
        current_ma: i16_field(f.current_ma),
        capacity_percent: percent_field(f.capacity_percent),
        temperature_celsius: u8_field(f.temperature_celsius),
        is_charging: bool_field(f.is_charging),
        is_connected: bool_field(f.is_connected),
        last_update_ms: u64_field(f.last_update_ms),
        consecutive_failures: u8_field(f.consecutive_failures),
    }
}

/// What decoding a payload text at the given host time gives.
pub open spec fn decode_spec(s: Seq<char>, timestamp: u64) -> Result<BatteryData, PayloadError> {
    match json_parse(s) {
        Some(m) => Ok(record_of(fields_of(m), timestamp)),
        None => Err(PayloadError::Malformed),
    }
}

/// A payload whose every field is present, of its type and in its range.
pub open spec fn fields_valid(f: TelemetryFields) -> bool {
    &&& f.voltage_mv matches Some(n) && n <= u16::MAX as u64
    &&& f.current_ma matches Some(n) && i16::MIN as i64 <= n <= i16::MAX as i64
    &&& f.capacity_percent matches Some(n) && n <= FULL_PERCENT as u64
    &&& f.temperature_celsius matches Some(n) && n <= u8::MAX as u64
    &&& f.is_charging is Some
    &&& f.is_connected is Some
    &&& f.last_update_ms is Some
    &&& f.consecutive_failures matches Some(n) && n <= u8::MAX as u64
}

fn u16_or_zero(f: Option<u64>) -> (r: u16)
    ensures
        r == u16_field(f),
{
    match f {
        Some(n) => if n <= u16::MAX as u64 { n as u16 } else { 0 },
        None => 0,
    }
}

fn i16_or_zero(f: Option<i64>) -> (r: i16)
    ensures
        r == i16_field(f),
{
    match f {
        Some(n) => if i16::MIN as i64 <= n && n <= i16::MAX as i64 { n as i16 } else { 0 },
        None => 0,
    }
}

fn u8_or_zero(f: Option<u64>) -> (r: u8)
    ensures
        r == u8_field(f),
{
    match f {
        Some(n) => if n <= u8::MAX as u64 { n as u8 } else { 0 },
        None => 0,
    }
}

fn percent_or_zero(f: Option<u64>) -> (r: u8)
    ensures
        r == percent_field(f),
        r <= FULL_PERCENT,
{
    match f {
        Some(n) => if n <= FULL_PERCENT as u64 { n as u8 } else { 0 },
        None => 0,
    }
}

/// Builds the record that a payload's fields describe, stamped with the
/// given host time.  Fields that are absent or out of range read as zero or
/// false.
pub fn record_from_fields(f: &TelemetryFields, timestamp: u64) -> (r: BatteryData)
    ensures
        r == record_of(*f, timestamp),
        r.wf(),
{
    BatteryData {
        timestamp,
        voltage_mv: u16_or_zero(f.voltage_mv),
        current_ma: i16_or_zero(f.current_ma),
        capacity_percent: percent_or_zero(f.capacity_percent),
        temperature_celsius: u8_or_zero(f.temperature_celsius),
        is_charging: match f.is_charging {
            Some(b) => b,
            None => false,
        },
        is_connected: match f.is_connected {
            Some(b) => b,
            None => false,
        },
        last_update_ms: match f.last_update_ms {
            Some(n) => n,
            None => 0,
        },
        consecutive_failures: u8_or_zero(f.consecutive_failures),
    }
}

/// Reads the telemetry fields out of a parsed document.
pub fn read_fields(v: &serde_json::Value) -> (r: TelemetryFields)
    ensures
        r == fields_of(json_members(*v)),
{
    TelemetryFields {
        voltage_mv: member_u64(v, "voltage_mV"),
        current_ma: member_i64(v, "current_mA"),
        capacity_percent: member_u64(v, "capacity_percent"),
        temperature_celsius: member_u64(v, "temperature_celsius"),
        is_charging: member_bool(v, "is_charging"),
        is_connected: member_bool(v, "is_connected"),
        last_update_ms: member_u64(v, "last_update_ms"),
        consecutive_failures: member_u64(v, "consecutive_failures"),
    }
}

/// Decodes a telemetry payload into a record stamped with the given host
/// time.  Fails only when the text is not well-formed JSON.
pub fn parse_battery_json(json_str: &str, timestamp: u64) -> (r: Result<BatteryData, PayloadError>)
    ensures
        r == decode_spec(json_str@, timestamp),
        r is Ok ==> r->Ok_0.wf(),
{
    match parse_document(json_str) {
        Ok(v) => {
            let fields = read_fields(&v);
            Ok(record_from_fields(&fields, timestamp))
        },
        Err(_) => Err(PayloadError::Malformed),
    }
}

/// A payload whose fields are all present and in range is taken as it is:
/// decoding it succeeds, each field of the record equals the payload's, and
/// the record carries the host time of decoding rather than anything the
/// payload says.
pub proof fn lemma_valid_payload_kept(s: Seq<char>, timestamp: u64)
    requires
        json_parse(s) is Some,
        fields_valid(fields_of(json_parse(s)->Some_0)),
    ensures
        ({
            let f = fields_of(json_parse(s)->Some_0);
            &&& decode_spec(s, timestamp) is Ok
            &&& decode_spec(s, timestamp)->Ok_0.timestamp == timestamp
            &&& decode_spec(s, timestamp)->Ok_0.voltage_mv as u64 == f.voltage_mv->Some_0
            &&& decode_spec(s, timestamp)->Ok_0.current_ma as i64 == f.current_ma->Some_0
            &&& decode_spec(s, timestamp)->Ok_0.capacity_percent as u64 == f.capacity_percent->Some_0
            &&& decode_spec(s, timestamp)->Ok_0.temperature_celsius as u64
                == f.temperature_celsius->Some_0
            &&& decode_spec(s, timestamp)->Ok_0.is_charging == f.is_charging->Some_0
            &&& decode_spec(s, timestamp)->Ok_0.is_connected == f.is_connected->Some_0
            &&& decode_spec(s, timestamp)->Ok_0.last_update_ms == f.last_update_ms->Some_0
            &&& decode_spec(s, timestamp)->Ok_0.consecutive_failures as u64
                == f.consecutive_failures->Some_0
        }),
{
}

/// Whatever a payload holds, the record built from it has a capacity within
/// zero and one hundred percent.
pub proof fn lemma_capacity_in_range(f: TelemetryFields, timestamp: u64)
    ensures
        record_of(f, timestamp).wf(),
        0 <= record_of(f, timestamp).capacity_percent <= 100,
{
}

} // verus!
