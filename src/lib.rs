//! Bridge between a battery-management microcontroller speaking line-oriented
//! telemetry over a serial link and the host's power-supply attributes.
//!
//! The library holds the logic of the bridge: the telemetry record, the
//! tolerant decoding of telemetry lines into it, the decisions of the ingest
//! loop, and the projection of a record onto battery attributes.

pub mod ingest;
pub mod json;
pub mod payload;
pub mod publish;
pub mod record;
