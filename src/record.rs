use vstd::prelude::*;

verus! {

/// The most recent battery reading, shared between the ingest side and the
/// publishing side.  Each successful ingest replaces it as a whole.
#[derive(Clone, Copy, Debug, PartialEq, Eq, Structural)]
pub struct BatteryData {
    /// Host-side seconds since the epoch at which the reading was decoded.
    pub timestamp: u64,
    pub voltage_mv: u16,
    /// Signed current; negative while discharging.
    pub current_ma: i16,
    pub capacity_percent: u8,
    pub temperature_celsius: u8,
    pub is_charging: bool,
    pub is_connected: bool,
    /// Device-reported time of its last measurement.
    pub last_update_ms: u64,
    /// Device-reported count of consecutive measurement failures.
    pub consecutive_failures: u8,
}

/// The largest capacity, in percent, that a record may hold.
pub const FULL_PERCENT: u8 = 100;

impl BatteryData {
    /// A record is well formed when its capacity is a percentage.
    pub open spec fn wf(&self) -> bool {
        self.capacity_percent <= FULL_PERCENT
    }

    /// The record a service starts with: every number zero, every flag false.
    pub open spec fn initial() -> BatteryData {
        BatteryData {
            timestamp: 0,
            voltage_mv: 0,
            current_ma: 0,
            capacity_percent: 0,
            temperature_celsius: 0,
            is_charging: false,
            is_connected: false,
            last_update_ms: 0,
            consecutive_failures: 0,
        }
    }
}

impl Default for BatteryData {
    fn default() -> (r: BatteryData)
        ensures
            r == BatteryData::initial(),
            r.wf(),
    {
        BatteryData {
            timestamp: 0,
            voltage_mv: 0,
            current_ma: 0,
            capacity_percent: 0,
            temperature_celsius: 0,
            is_charging: false,
            is_connected: false,
            last_update_ms: 0,
            consecutive_failures: 0,
        }
    }
}

} // verus!
