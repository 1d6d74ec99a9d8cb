//! The projection of a record onto the battery attributes that the host
//! reads: unit conversions, the derived status and health, and the time and
//! energy estimates.
use vstd::prelude::*;

use crate::record::{BatteryData, FULL_PERCENT};

verus! {

/// Seconds between two publications of the record.
pub const PUBLISH_PERIOD_SECS: u64 = 5;

/// Capacity of the pack, in mAh, that estimates assume.
pub const ASSUMED_CAPACITY_MAH: u64 = 4000;

/// Nominal pack voltage, in mV, that energy estimates assume.
pub const NOMINAL_VOLTAGE_MV: u64 = 12000;

/// Design energy of the pack in µWh: the assumed capacity at the nominal
/// voltage.
pub const ENERGY_FULL_DESIGN_UWH: u64 = ASSUMED_CAPACITY_MAH * NOMINAL_VOLTAGE_MV;

/// The charge cycle count reported; cycles are not tracked.
pub const CYCLE_COUNT: u32 = 0;

/// Consecutive device failures beyond which health is unknown.
pub const FAILURE_LIMIT: u8 = 5;

/// Capacity, in percent, under which the battery is reported dead.
pub const DEAD_BELOW_PERCENT: u8 = 5;

/// Charging state as the host reads it.
#[derive(Clone, Copy, Debug, PartialEq, Eq, Structural)]
pub enum ChargeStatus {
    Charging,
    Full,
    Discharging,
}

/// Health as the host reads it.
#[derive(Clone, Copy, Debug, PartialEq, Eq, Structural)]
pub enum BatteryHealth {
    Good,
    Dead,
    Unspecified,
}

impl ChargeStatus {
    pub open spec fn text(self) -> Seq<char> {
        match self {
            ChargeStatus::Charging => "Charging"@,
            ChargeStatus::Full => "Full"@,
            ChargeStatus::Discharging => "Discharging"@,
        }
    }

    /// The attribute text of the status.
    pub fn as_str(&self) -> (r: &'static str)
        ensures
            r@ == self.text(),
    {
        match self {
            ChargeStatus::Charging => "Charging",
            ChargeStatus::Full => "Full",
            ChargeStatus::Discharging => "Discharging",
        }
    }
}

impl BatteryHealth {
    pub open spec fn text(self) -> Seq<char> {
        match self {
            BatteryHealth::Good => "Good"@,
            BatteryHealth::Dead => "Dead"@,
            BatteryHealth::Unspecified => "Unspecified"@,
        }
    }

    /// The attribute text of the health.
    pub fn as_str(&self) -> (r: &'static str)
        ensures
            r@ == self.text(),
    {
        match self {
            BatteryHealth::Good => "Good",
            BatteryHealth::Dead => "Dead",
            BatteryHealth::Unspecified => "Unspecified",
        }
    }
}

pub open spec fn status_spec(b: BatteryData) -> ChargeStatus {
    if b.is_charging {
        ChargeStatus::Charging
    } else if b.capacity_percent == FULL_PERCENT {
        ChargeStatus::Full
    } else {
        ChargeStatus::Discharging
    }
}

pub open spec fn health_spec(b: BatteryData) -> BatteryHealth {
    if b.consecutive_failures > FAILURE_LIMIT {
        BatteryHealth::Unspecified
    } else if b.capacity_percent < DEAD_BELOW_PERCENT {
        BatteryHealth::Dead
    } else {
        BatteryHealth::Good
    }
}

/// Minutes until empty: the charge left, in mAh, over the discharge current;
/// zero unless discharging with a negative current.
pub open spec fn time_to_empty_spec(b: BatteryData) -> int {
    if !b.is_charging && b.current_ma < 0 {
        (b.capacity_percent * ASSUMED_CAPACITY_MAH / 100) * 60 / (-b.current_ma)
    } else {
        0
    }
}

/// Minutes until full: the charge missing, in mAh, over the charge current;
/// zero unless charging with a positive current.
pub open spec fn time_to_full_spec(b: BatteryData) -> int {
    if b.is_charging && b.current_ma > 0 {
        ((100 - b.capacity_percent) * ASSUMED_CAPACITY_MAH / 100) * 60 / (b.current_ma as int)
    } else {
        0
    }
}

/// Energy in µWh that the capacity stands for.
pub open spec fn energy_spec(b: BatteryData) -> int {
    b.capacity_percent * ENERGY_FULL_DESIGN_UWH / 100
}

/// Charging state: charging wins, then a full charge, else discharging.
pub fn charge_status(b: &BatteryData) -> (r: ChargeStatus)
    ensures
        r == status_spec(*b),
        b.is_charging ==> r == ChargeStatus::Charging,
        !b.is_charging && b.capacity_percent == 100 ==> r == ChargeStatus::Full,
        !b.is_charging && b.capacity_percent < 100 ==> r == ChargeStatus::Discharging,
{
    if b.is_charging {
        ChargeStatus::Charging
    } else if b.capacity_percent == FULL_PERCENT {
        ChargeStatus::Full
    } else {
        ChargeStatus::Discharging
    }
}

/// Health: unknown after too many device failures, dead when nearly empty,
/// good otherwise.
pub fn battery_health(b: &BatteryData) -> (r: BatteryHealth)
    ensures
        r == health_spec(*b),
{
    if b.consecutive_failures > FAILURE_LIMIT {
        BatteryHealth::Unspecified
    } else if b.capacity_percent < DEAD_BELOW_PERCENT {
        BatteryHealth::Dead
    } else {
        BatteryHealth::Good
    }
}

/// Estimated minutes until empty.
pub fn time_to_empty_minutes(b: &BatteryData) -> (r: u32)
    ensures
        r == time_to_empty_spec(*b),
{
    if !b.is_charging && b.current_ma < 0 {
        let drain: u32 = (0i32 - b.current_ma as i32) as u32;
        let remaining_mah: u32 = (b.capacity_percent as u32) * (ASSUMED_CAPACITY_MAH as u32) / 100;
        assert(remaining_mah <= 10200) by (nonlinear_arith)
            requires
                remaining_mah == (b.capacity_percent as u32) * 4000 / 100,
                b.capacity_percent <= 255,
        ;
        remaining_mah * 60 / drain
    } else {
        0
    }
}

/// Estimated minutes until full.
pub fn time_to_full_minutes(b: &BatteryData) -> (r: u32)
    requires
        b.wf(),
    ensures
        r == time_to_full_spec(*b),
{
    if b.is_charging && b.current_ma > 0 {
        let missing_mah: u32 = ((FULL_PERCENT - b.capacity_percent) as u32) * (
        ASSUMED_CAPACITY_MAH as u32) / 100;
        assert(missing_mah <= 4000) by (nonlinear_arith)
            requires
                missing_mah == ((100 - b.capacity_percent) as u32) * 4000 / 100,
                b.capacity_percent <= 100,
        ;
        missing_mah * 60 / (b.current_ma as u32)
    } else {
        0
    }
}

/// Energy in µWh that the record's capacity stands for.
pub fn energy_uwh(b: &BatteryData) -> (r: u64)
    ensures
        r == energy_spec(*b),
{
    assert((b.capacity_percent as u64) * ENERGY_FULL_DESIGN_UWH <= 255 * 48000000)
        by (nonlinear_arith)
        requires
            b.capacity_percent <= 255,
            ENERGY_FULL_DESIGN_UWH == 48000000,
    ;
    (b.capacity_percent as u64) * ENERGY_FULL_DESIGN_UWH / 100
}

/// The attributes published for one snapshot, in the host's units.
#[derive(Clone, Copy, Debug, PartialEq, Eq, Structural)]
pub struct BatteryAttributes {
    /// Percent, 0 to 100.
    pub capacity: u8,
    /// Microvolts.
    pub voltage_uv: u32,
    /// Microamps, negative while discharging.
    pub current_ua: i32,
    pub status: ChargeStatus,
    /// 1 when the battery is connected, else 0.
    pub present: u8,
    pub health: BatteryHealth,
    /// Tenths of a degree Celsius.
    pub temp_tenths: i32,
    /// Minutes.
    pub time_to_empty_min: u32,
    /// Minutes.
    pub time_to_full_min: u32,
    pub cycle_count: u32,
    /// µWh.
    pub energy_full_design_uwh: u64,
    /// µWh; follows the capacity just as `energy_now_uwh` does.
    pub energy_full_uwh: u64,
    /// µWh.
    pub energy_now_uwh: u64,
}

/// The attributes that a snapshot projects to.
pub open spec fn attributes_spec(b: BatteryData) -> BatteryAttributes {
    BatteryAttributes {
        capacity: b.capacity_percent,
        voltage_uv: (b.voltage_mv * 1000) as u32,
        current_ua: (b.current_ma * 1000) as i32,
        status: status_spec(b),
        present: if b.is_connected { 1 } else { 0 },
        health: health_spec(b),
        temp_tenths: (b.temperature_celsius * 10) as i32,
        time_to_empty_min: time_to_empty_spec(b) as u32,
        time_to_full_min: time_to_full_spec(b) as u32,
        cycle_count: CYCLE_COUNT,
        energy_full_design_uwh: ENERGY_FULL_DESIGN_UWH,
        energy_full_uwh: energy_spec(b) as u64,
        energy_now_uwh: energy_spec(b) as u64,
    }
}

/// Projects a snapshot onto the attributes the host reads.  Every value is
/// a function of the snapshot alone.
pub fn project(b: &BatteryData) -> (r: BatteryAttributes)
    requires
        b.wf(),
    ensures
        r == attributes_spec(*b),
        r.voltage_uv == b.voltage_mv * 1000,
        r.current_ua == b.current_ma * 1000,
        r.temp_tenths == b.temperature_celsius * 10,
        r.time_to_empty_min == time_to_empty_spec(*b),
        r.time_to_full_min == time_to_full_spec(*b),
        r.energy_now_uwh == energy_spec(*b),
        r.energy_full_uwh == r.energy_now_uwh,
{
    let energy = energy_uwh(b);
    BatteryAttributes {
        capacity: b.capacity_percent,
        voltage_uv: (b.voltage_mv as u32) * 1000,
        current_ua: (b.current_ma as i32) * 1000,
        status: charge_status(b),
        present: if b.is_connected { 1 } else { 0 },
        health: battery_health(b),
        temp_tenths: (b.temperature_celsius as i32) * 10,
        time_to_empty_min: time_to_empty_minutes(b),
        time_to_full_min: time_to_full_minutes(b),
        cycle_count: CYCLE_COUNT,
        energy_full_design_uwh: ENERGY_FULL_DESIGN_UWH,
        energy_full_uwh: energy,
        energy_now_uwh: energy,
    }
}

/// Publishing is idempotent: two publications of the same snapshot give the
/// same attributes.
pub proof fn lemma_projection_idempotent(first: BatteryData, second: BatteryData)
    requires
        first == second,
    ensures
        attributes_spec(first) == attributes_spec(second),
{
}

} // verus!
