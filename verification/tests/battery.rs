use battery_manager::battery::{BatteryError, BatteryInfo, BatteryReadings};
use battery_manager::i18n::LangState;

fn no_readings() -> BatteryReadings {
    BatteryReadings {
        manufacturer: None,
        model_name: None,
        technology: None,
        status: None,
        capacity_level: None,
        capacity: None,
        charge_now: None,
        energy_now: None,
        charge_full: None,
        energy_full: None,
        charge_full_design: None,
        energy_full_design: None,
        current_now: None,
        voltage_now: None,
        cycle_count: None,
        charge_start_threshold: None,
        charge_control_start_threshold: None,
        charge_stop_threshold: None,
        charge_control_end_threshold: None,
        alarm: None,
        service_active: false,
    }
}

fn sample_info(status: &str) -> BatteryInfo {
    BatteryInfo {
        name: "BAT0".to_string(),
        manufacturer: "Test".to_string(),
        model_name: "Test".to_string(),
        technology: "Li-ion".to_string(),
        status: status.to_string(),
        capacity_percent: 80,
        capacity_level: "Normal".to_string(),
        charge_now: 4_000_000,
        charge_full: 5_000_000,
        charge_full_design: 5_000_000,
        current_now: 1_000_000,
        voltage_now: 12_000_000,
        cycle_count: 50,
        time_remaining_minutes: Some(120),
        charge_start_threshold: None,
        charge_stop_threshold: Some(80),
        alarm: None,
        service_active: false,
    }
}

#[test]
fn test_battery_name_validation_valid() {
    let result = BatteryInfo::new("BAT1", no_readings());
    if let Err(e) = result {
        match e {
            BatteryError::IoError(_) => {}
            BatteryError::InvalidBatteryName(_) => panic!("BAT1 devrait \u{ea}tre un nom valide"),
        }
    }
}

#[test]
fn test_battery_name_validation_invalid() {
    let result = BatteryInfo::new("AC0", no_readings());
    assert!(result.is_err());
    match result {
        Err(BatteryError::InvalidBatteryName(name)) => {
            assert_eq!(name, "AC0");
        }
        _ => panic!("Should return InvalidBatteryName"),
    }

    assert!(BatteryInfo::new("invalid", no_readings()).is_err());
    assert!(BatteryInfo::new("", no_readings()).is_err());
    assert!(BatteryInfo::new("battery", no_readings()).is_err());
}

#[test]
fn test_battery_name_traversal_rejected() {
    let result = BatteryInfo::new("BAT0/../AC0", no_readings());
    match result {
        Err(BatteryError::InvalidBatteryName(msg)) => {
            assert!(msg.contains("path traversal"));
        }
        _ => panic!("Should reject traversal"),
    }
}

#[test]
fn test_status_markup_format() {
    let info = sample_info("Charging");
    let lang = LangState::new();

    let markup = info.get_status_markup(&lang);
    assert!(markup.contains("<span"));
    assert!(!markup.contains("color="));
    assert!(markup.contains('\u{26a1}'));

    assert_eq!(info.get_status_css_class(), "color-success");
}

#[test]
fn test_health_calculation() {
    let mut info = sample_info("Discharging");
    info.charge_now = 4_000_000;
    info.charge_full = 4_500_000;
    info.charge_full_design = 5_000_000;
    info.current_now = 500_000;
    info.cycle_count = 100;

    // 4_500_000 / 5_000_000 = 90.0%, in tenths of a percent
    assert_eq!(info.health_tenths_percent(), 900);
    assert_eq!(info.wear_tenths_percent(), 100);
    assert_eq!(info.get_health_css_class(), "color-success");
}

#[test]
fn test_power_watts_calculation() {
    let info = sample_info("Discharging");
    // 12 V * 1 A = 12 W, in hundredths of a watt
    assert_eq!(info.power_centiwatts(), 1200);
}

#[test]
fn test_voltage_conversion() {
    let mut info = sample_info("Full");
    info.capacity_percent = 100;
    info.charge_now = 5_000_000;
    info.current_now = 0;
    info.voltage_now = 12_600_000;
    info.time_remaining_minutes = None;
    info.charge_start_threshold = Some(60);
    info.service_active = true;

    // 12.6 V, in hundredths of a volt
    assert_eq!(info.voltage_centivolts(), 1260);
}

#[test]
fn test_current_conversion() {
    let mut info = sample_info("Charging");
    info.capacity_percent = 50;
    info.charge_now = 2_500_000;
    info.current_now = 2_500_000;
    info.cycle_count = 25;
    info.time_remaining_minutes = Some(60);
    info.alarm = Some(500_000);

    assert_eq!(info.current_ma(), 2500);
}

#[test]
fn test_charge_conversions() {
    let mut info = sample_info("Discharging");
    info.capacity_percent = 75;
    info.charge_now = 3_750_000;
    info.charge_full = 5_000_000;
    info.charge_full_design = 5_500_000;
    info.current_now = 500_000;
    info.voltage_now = 11_800_000;
    info.cycle_count = 150;
    info.time_remaining_minutes = Some(450);
    info.charge_start_threshold = Some(40);
    info.service_active = true;

    assert_eq!(info.charge_now_mah(), 3750);
    assert_eq!(info.charge_full_mah(), 5000);
    assert_eq!(info.charge_full_design_mah(), 5500);
}

#[test]
fn test_status_markup() {
    let lang = LangState::new();
    let mut info = sample_info("Charging");
    info.capacity_percent = 60;
    info.charge_now = 3_000_000;

    assert!(info.get_status_markup(&lang).contains('\u{26a1}'));

    info.status = "Discharging".to_string();
    assert!(info.get_status_markup(&lang).contains('\u{1f50b}'));

    info.status = "Full".to_string();
    assert!(info.get_status_markup(&lang).contains('\u{2713}'));

    info.status = "Not charging".to_string();
    assert!(info.get_status_markup(&lang).contains('\u{23f8}'));

    info.capacity_percent = 100;
    assert!(info.get_status_markup(&lang).contains('\u{2713}'));

    info.status = "Unknown".to_string();
    assert!(info.get_status_markup(&lang).contains('?'));
}

#[test]
fn test_alarm_percent() {
    let mut info = sample_info("Discharging");
    info.capacity_percent = 50;
    info.charge_now = 2_500_000;
    info.current_now = 500_000;
    info.voltage_now = 11_500_000;
    info.cycle_count = 100;
    info.time_remaining_minutes = Some(300);
    info.alarm = Some(500_000); // 500000 of 5000000 is 10%

    // in tenths of a percent
    assert_eq!(info.alarm_tenths_percent(), Some(100));
}

#[test]
fn test_service_status_markup() {
    let mut info = sample_info("Full");
    info.capacity_percent = 100;
    info.charge_now = 5_000_000;
    info.current_now = 0;
    info.voltage_now = 12_600_000;
    info.cycle_count = 5;
    info.time_remaining_minutes = None;
    info.charge_start_threshold = Some(60);
    info.service_active = true;

    assert!(info.service_status_markup().contains("Actif"));

    info.service_active = false;
    assert!(info.service_status_markup().contains("Inactif"));
}

#[test]
fn test_new_parses_and_defaults() {
    let mut readings = no_readings();
    readings.status = Some("Discharging\n".to_string());
    readings.capacity = Some(" 73 ".to_string());
    readings.energy_now = Some("2000000\n".to_string()); // charge_now missing, energy_now used
    readings.charge_full = Some("4000000".to_string());
    readings.current_now = Some("1000000".to_string());
    readings.voltage_now = Some("12000000".to_string());
    readings.cycle_count = Some("bogus".to_string());
    readings.charge_control_end_threshold = Some("80".to_string());
    readings.alarm = Some("300000".to_string());
    readings.service_active = true;

    let info = BatteryInfo::new("BAT0", readings).unwrap();
    assert_eq!(info.status, "Discharging");
    assert_eq!(info.capacity_percent, 73);
    assert_eq!(info.charge_now, 2_000_000);
    assert_eq!(info.charge_full, 4_000_000);
    assert_eq!(info.charge_full_design, 1); // missing, defaults to 1
    assert_eq!(info.cycle_count, 0); // unparsable, defaults to 0
    assert_eq!(info.manufacturer, "Inconnu");
    assert_eq!(info.charge_start_threshold, None);
    assert_eq!(info.charge_stop_threshold, Some(80));
    assert_eq!(info.alarm, Some(300_000));
    assert!(info.service_active);
    // 2_000_000 / 1_000_000 * 60 = 120 minutes left
    assert_eq!(info.time_remaining_minutes, Some(120));
}

#[test]
fn test_time_remaining_formatted_text() {
    let mut info = sample_info("Discharging");
    info.time_remaining_minutes = Some(125);
    assert_eq!(
        info.time_remaining_formatted().unwrap(),
        "\u{23f1} 2h05 restant"
    );

    info.status = "Charging".to_string();
    assert_eq!(
        info.time_remaining_formatted().unwrap(),
        "\u{23f1} 2h05 jusqu'\u{e0} plein"
    );

    info.time_remaining_minutes = None;
    assert!(info.time_remaining_formatted().is_none());
}

#[test]
fn test_select_batteries_filters_and_sorts() {
    let names = vec![
        "hidpp_battery_0".to_string(),
        "BAT1".to_string(),
        "AC".to_string(),
        "BAT0".to_string(),
    ];
    let selected = battery_manager::battery::select_batteries(names);
    assert_eq!(selected, vec!["BAT0".to_string(), "BAT1".to_string()]);
}

#[test]
fn test_health_css_thresholds() {
    let mut info = sample_info("Discharging");
    info.charge_full = 5_900_000;
    info.charge_full_design = 10_000_000;
    assert_eq!(info.get_health_css_class(), "color-danger");
    info.charge_full = 6_000_000;
    assert_eq!(info.get_health_css_class(), "color-warning");
    info.charge_full = 8_000_000;
    assert_eq!(info.get_health_css_class(), "color-success");
}
