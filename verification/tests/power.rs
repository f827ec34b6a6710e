use core_s3::power::{
    decode_axp2101_battery_present, decode_axp2101_charge_state, decode_axp2101_external_power,
    decode_axp2101_soc, estimate_lipo_percentage, Axp2101, BatteryStatus, ChargeState,
    ExternalPower, LowBatteryThreshold, VoltageSmoother, STATUS1_BATTERY_PRESENT,
    STATUS1_VBUS_GOOD,
};
use core_s3::bus::RegisterStep;

#[test]
fn decodes_axp2101_soc() {
    assert_eq!(decode_axp2101_soc(0), Some(0));
    assert_eq!(decode_axp2101_soc(1), Some(1));
    assert_eq!(decode_axp2101_soc(50), Some(50));
    assert_eq!(decode_axp2101_soc(90), Some(90));
    assert_eq!(decode_axp2101_soc(100), Some(100));
    assert_eq!(decode_axp2101_soc(101), None);
    assert_eq!(decode_axp2101_soc(0x7F), None);
    assert_eq!(decode_axp2101_soc(0xFF), None);
}

#[test]
fn decodes_axp2101_charge_state() {
    assert_eq!(decode_axp2101_charge_state(0, 0b01 << 5), ChargeState::Charging);
    assert_eq!(decode_axp2101_charge_state(0, 0b10 << 5), ChargeState::Discharging);
    assert_eq!(decode_axp2101_charge_state(STATUS1_VBUS_GOOD, 0), ChargeState::Full);
    assert_eq!(decode_axp2101_charge_state(0, 0), ChargeState::Unknown);
    assert_eq!(decode_axp2101_charge_state(0, 0b11 << 5), ChargeState::Unknown);
}

#[test]
fn decodes_axp2101_external_power() {
    assert_eq!(decode_axp2101_external_power(STATUS1_VBUS_GOOD), ExternalPower::Connected);
    assert_eq!(decode_axp2101_external_power(0), ExternalPower::Disconnected);
}

#[test]
fn decodes_axp2101_battery_present() {
    assert_eq!(decode_axp2101_battery_present(STATUS1_BATTERY_PRESENT), Some(true));
    assert_eq!(decode_axp2101_battery_present(0), Some(false));
}

#[test]
fn estimates_voltage_percentage() {
    assert_eq!(estimate_lipo_percentage(4200), 100);
    assert_eq!(estimate_lipo_percentage(3750), 40);
    assert_eq!(estimate_lipo_percentage(3400), 5);
}

#[test]
fn battery_status_prefers_gauge_soc() {
    let status = BatteryStatus::with_power_and_soc(
        3750,
        ChargeState::Discharging,
        ExternalPower::Disconnected,
        LowBatteryThreshold::default(),
        Some(87),
        Some(true),
    );
    assert_eq!(status.percentage, 87);
    assert!(!status.percentage_estimated);
    assert_eq!(status.state_of_charge, Some(87));
    assert_eq!(status.battery_present, Some(true));
}

#[test]
fn battery_status_falls_back_to_voltage_estimate() {
    let status = BatteryStatus::with_power_and_soc(
        3750,
        ChargeState::Discharging,
        ExternalPower::Disconnected,
        LowBatteryThreshold::default(),
        None,
        Some(true),
    );
    assert_eq!(status.percentage, 40);
    assert!(status.percentage_estimated);
    assert_eq!(status.state_of_charge, None);
}

#[test]
fn smooths_voltage() {
    let mut smoother = VoltageSmoother::new(25);
    assert_eq!(smoother.update(4000), 4000);
    assert_eq!(smoother.update(3800), 3950);
}

#[test]
fn voltage_percentage_table_edges() {
    assert_eq!(estimate_lipo_percentage(u16::MAX), 100);
    assert_eq!(estimate_lipo_percentage(4199), 90);
    assert_eq!(estimate_lipo_percentage(4000), 80);
    assert_eq!(estimate_lipo_percentage(3920), 70);
    assert_eq!(estimate_lipo_percentage(3850), 60);
    assert_eq!(estimate_lipo_percentage(3790), 50);
    assert_eq!(estimate_lipo_percentage(3700), 30);
    assert_eq!(estimate_lipo_percentage(3610), 20);
    assert_eq!(estimate_lipo_percentage(3500), 10);
    assert_eq!(estimate_lipo_percentage(3299), 0);
    assert_eq!(estimate_lipo_percentage(0), 0);
}

#[test]
fn smoother_weight_is_limited_to_one_through_hundred() {
    let mut zero = VoltageSmoother::new(0);
    assert_eq!(zero.value(), None);
    assert_eq!(zero.update(4000), 4000);
    assert_eq!(zero.update(3000), 3990);
    assert_eq!(zero.value(), Some(3990));
    let mut full = VoltageSmoother::new(250);
    full.update(4000);
    assert_eq!(full.update(3000), 3000);
}

#[test]
fn battery_status_new_uses_default_threshold() {
    let low = BatteryStatus::new(3500, ChargeState::Unknown);
    assert!(low.low_battery);
    assert_eq!(low.percentage, 10);
    assert!(low.percentage_estimated);
    assert_eq!(low.external_power, ExternalPower::Unknown);
    let ok = BatteryStatus::with_power(3501, ChargeState::Charging, ExternalPower::Connected, LowBatteryThreshold { millivolts: 3500 });
    assert!(!ok.low_battery);
    assert_eq!(ok.battery_present, None);
}

#[test]
fn axp2101_decodes_status_registers() {
    let pmic = Axp2101::new(());
    assert_eq!(pmic.address(), 0x34);
    assert_eq!(pmic.battery_voltage_mv(0xFF, 0x34), 0x3F34);
    assert_eq!(pmic.battery_level_percent(101), None);
    let status = pmic.status(STATUS1_VBUS_GOOD | STATUS1_BATTERY_PRESENT, 0, Some((0x0E, 0xA6)), Some(55));
    assert_eq!(status.millivolts, 0x0EA6);
    assert_eq!(status.percentage, 55);
    assert_eq!(status.charge_state, ChargeState::Full);
    assert_eq!(status.external_power, ExternalPower::Connected);
    assert_eq!(status.battery_present, Some(true));
    let failed = pmic.status(0, 0b10 << 5, None, None);
    assert_eq!(failed.millivolts, 0);
    assert!(failed.low_battery);
    assert!(failed.percentage_estimated);
    assert_eq!(failed.charge_state, ChargeState::Discharging);
}

#[test]
fn axp2101_plans_register_writes() {
    let mut pmic = Axp2101::new(7u8);
    assert_eq!(
        pmic.init_core_s3_defaults(),
        vec![
            RegisterStep::Write { register: 0x90, value: 0xBF },
            RegisterStep::Write { register: 0x94, value: 28 },
            RegisterStep::Write { register: 0x95, value: 28 },
        ]
    );
    assert_eq!(pmic.set_display_backlight(0), vec![RegisterStep::WriteBit { register: 0x90, bit: 7, value: false }]);
    assert_eq!(
        pmic.set_display_backlight(255),
        vec![RegisterStep::WriteBit { register: 0x90, bit: 7, value: true }, RegisterStep::Write { register: 0x99, value: 28 }]
    );
    assert_eq!(pmic.prepare_sleep(0xA5), vec![RegisterStep::Write { register: 0x04, value: 0xA5 }]);
    assert_eq!(pmic.shutdown(), vec![RegisterStep::Write { register: 0x10, value: 0x01 }]);
    pmic.set_low_battery_threshold(LowBatteryThreshold { millivolts: 3700 });
    assert!(pmic.status(0, 0, Some((0x0E, 0x74)), None).low_battery);
    *pmic.bus_mut() = 9;
    assert_eq!(pmic.release(), 9);
}
