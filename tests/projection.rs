use battery_service::ingest::ingest_line;
use battery_service::publish::{
    battery_health, charge_status, energy_uwh, project, time_to_empty_minutes,
    time_to_full_minutes, BatteryHealth, ChargeStatus, ENERGY_FULL_DESIGN_UWH, PUBLISH_PERIOD_SECS,
};
use battery_service::record::BatteryData;

fn with(capacity: u8, current: i16, charging: bool) -> BatteryData {
    BatteryData {
        capacity_percent: capacity,
        current_ma: current,
        is_charging: charging,
        ..BatteryData::default()
    }
}

#[test]
fn status_truth_table() {
    assert_eq!(charge_status(&with(100, 0, true)), ChargeStatus::Charging);
    assert_eq!(charge_status(&with(30, 0, true)), ChargeStatus::Charging);
    assert_eq!(charge_status(&with(100, 0, false)), ChargeStatus::Full);
    assert_eq!(charge_status(&with(99, 0, false)), ChargeStatus::Discharging);
    assert_eq!(charge_status(&with(0, 0, false)), ChargeStatus::Discharging);
    assert_eq!(ChargeStatus::Charging.as_str(), "Charging");
    assert_eq!(ChargeStatus::Full.as_str(), "Full");
    assert_eq!(ChargeStatus::Discharging.as_str(), "Discharging");
}

#[test]
fn health_table() {
    let mut b = with(50, 0, false);
    b.consecutive_failures = 6;
    assert_eq!(battery_health(&b), BatteryHealth::Unspecified);
    b.capacity_percent = 2;
    assert_eq!(battery_health(&b), BatteryHealth::Unspecified);
    b.consecutive_failures = 5;
    assert_eq!(battery_health(&b), BatteryHealth::Dead);
    b.capacity_percent = 5;
    assert_eq!(battery_health(&b), BatteryHealth::Good);
    assert_eq!(BatteryHealth::Good.as_str(), "Good");
    assert_eq!(BatteryHealth::Dead.as_str(), "Dead");
    assert_eq!(BatteryHealth::Unspecified.as_str(), "Unspecified");
}

#[test]
fn time_to_empty_example() {
    assert_eq!(time_to_empty_minutes(&with(50, -500, false)), 240);
}

#[test]
fn time_to_full_example() {
    assert_eq!(time_to_full_minutes(&with(80, 1000, true)), 48);
}

#[test]
fn time_estimates_cleared_otherwise() {
    assert_eq!(time_to_empty_minutes(&with(50, -500, true)), 0);
    assert_eq!(time_to_empty_minutes(&with(50, 0, false)), 0);
    assert_eq!(time_to_empty_minutes(&with(50, 500, false)), 0);
    assert_eq!(time_to_full_minutes(&with(80, 1000, false)), 0);
    assert_eq!(time_to_full_minutes(&with(80, 0, true)), 0);
    assert_eq!(time_to_full_minutes(&with(80, -1000, true)), 0);
}

#[test]
fn time_estimates_at_extremes() {
    assert_eq!(time_to_empty_minutes(&with(100, -1, false)), 240000);
    assert_eq!(time_to_empty_minutes(&with(100, i16::MIN, false)), 7);
    assert_eq!(time_to_full_minutes(&with(0, 1, true)), 240000);
    assert_eq!(time_to_full_minutes(&with(100, 1, true)), 0);
    assert_eq!(time_to_empty_minutes(&with(1, -7, false)), 40 * 60 / 7);
}

#[test]
fn energy_follows_capacity() {
    assert_eq!(ENERGY_FULL_DESIGN_UWH, 48_000_000);
    assert_eq!(PUBLISH_PERIOD_SECS, 5);
    assert_eq!(energy_uwh(&with(50, 0, false)), 24_000_000);
    assert_eq!(energy_uwh(&with(100, 0, false)), 48_000_000);
    assert_eq!(energy_uwh(&with(0, 0, false)), 0);
    assert_eq!(energy_uwh(&with(33, 0, false)), 15_840_000);
}

#[test]
fn energy_full_tracks_energy_now() {
    let a = project(&with(40, 0, false));
    assert_eq!(a.energy_full_design_uwh, 48_000_000);
    assert_eq!(a.energy_now_uwh, 19_200_000);
    assert_eq!(a.energy_full_uwh, 19_200_000);
}

#[test]
fn projection_units() {
    let b = BatteryData {
        timestamp: 1,
        voltage_mv: 65535,
        current_ma: i16::MIN,
        capacity_percent: 3,
        temperature_celsius: 255,
        is_charging: false,
        is_connected: true,
        last_update_ms: 0,
        consecutive_failures: 0,
    };
    let a = project(&b);
    assert_eq!(a.capacity, 3);
    assert_eq!(a.voltage_uv, 65_535_000);
    assert_eq!(a.current_ua, -32_768_000);
    assert_eq!(a.temp_tenths, 2550);
    assert_eq!(a.present, 1);
    assert_eq!(a.status, ChargeStatus::Discharging);
    assert_eq!(a.health, BatteryHealth::Dead);
    assert_eq!(a.time_to_empty_min, 0);
    assert_eq!(a.time_to_full_min, 0);
    assert_eq!(a.cycle_count, 0);
    assert_eq!(project(&BatteryData { is_connected: false, ..b }).present, 0);
}

#[test]
fn publishing_twice_gives_same_attributes() {
    let b = BatteryData {
        timestamp: 5,
        voltage_mv: 12100,
        current_ma: -800,
        capacity_percent: 64,
        temperature_celsius: 28,
        is_charging: false,
        is_connected: true,
        last_update_ms: 42,
        consecutive_failures: 1,
    };
    assert_eq!(project(&b), project(&b));
}

#[test]
fn end_to_end_line_to_attributes() {
    let mut rec = BatteryData::default();
    let line = "UPS_JSON:{\"voltage_mV\":12000,\"current_mA\":-300,\"capacity_percent\":42,\"temperature_celsius\":25,\"is_charging\":false,\"is_connected\":true,\"last_update_ms\":1000,\"consecutive_failures\":0}\n";
    assert!(ingest_line(&mut rec, line, 1_700_000_000));
    assert_eq!(rec.voltage_mv, 12000);
    assert_eq!(rec.current_ma, -300);
    assert_eq!(rec.capacity_percent, 42);
    assert!(!rec.is_charging);
    assert!(rec.is_connected);
    let a = project(&rec);
    assert_eq!(a.status.as_str(), "Discharging");
    assert_eq!(a.health.as_str(), "Good");
    assert_eq!(a.voltage_uv, 12_000_000);
    assert_eq!(a.current_ua, -300_000);
    assert_eq!(a.time_to_empty_min, 1680 * 60 / 300);
}
