use battery_manager::peripheral::{
    dedupe, is_peripheral_name, PeripheralBattery, PeripheralReadings,
};

fn device(name: &str) -> PeripheralBattery {
    PeripheralBattery {
        name: name.to_string(),
        manufacturer: "Test".to_string(),
        model_name: "Test Device".to_string(),
        status: "Discharging".to_string(),
        capacity_percent: 85,
        voltage_now: None,
        serial_number: Some("ABC-123".to_string()),
        online: true,
        device_type: "Battery".to_string(),
        scope: "Device".to_string(),
    }
}

#[test]
fn test_peripheral_detection() {
    // an empty scan de-duplicates to an empty list without panicking
    let peripherals = dedupe(Vec::new());
    let _count = peripherals.len();
    assert!(peripherals.is_empty());
}

#[test]
fn test_capacity_css_class() {
    let peripheral = device("test");
    assert_eq!(peripheral.get_capacity_css_class(), "color-success");
}

#[test]
fn test_device_icon() {
    let mouse = PeripheralBattery {
        name: "hidpp_battery_1".to_string(),
        manufacturer: "Logitech".to_string(),
        model_name: "G Pro Wireless Gaming Mouse".to_string(),
        status: "Discharging".to_string(),
        capacity_percent: 100,
        voltage_now: Some(4_229_000),
        serial_number: Some("e9-97-e3-8b".to_string()),
        online: true,
        device_type: "Battery".to_string(),
        scope: "Device".to_string(),
    };

    assert_eq!(mouse.get_device_icon(), "\u{1f5b1}\u{fe0f}");
}

#[test]
fn test_peripheral_name_patterns() {
    assert!(is_peripheral_name("hidpp_battery_0"));
    assert!(is_peripheral_name("hid-aa:bb-battery"));
    assert!(is_peripheral_name("wireless_mouse_battery"));
    assert!(is_peripheral_name("usb_keyboard"));
    assert!(!is_peripheral_name("BAT0"));
    assert!(!is_peripheral_name("AC"));
}

#[test]
fn test_new_applies_defaults() {
    let readings = PeripheralReadings {
        manufacturer: Some("Logitech\n".to_string()),
        model_name: None,
        status: Some(" Charging ".to_string()),
        capacity: Some("55\n".to_string()),
        voltage_now: Some("not-a-number".to_string()),
        serial_number: None,
        online: Some("1\n".to_string()),
        device_type: None,
        scope: None,
    };
    let p = PeripheralBattery::new("hidpp_battery_3", readings);
    assert_eq!(p.name, "hidpp_battery_3");
    assert_eq!(p.manufacturer, "Logitech");
    assert_eq!(p.model_name, "Unknown");
    assert_eq!(p.status, "Charging");
    assert_eq!(p.capacity_percent, 55);
    assert_eq!(p.voltage_now, None);
    assert_eq!(p.serial_number, None);
    assert!(p.online);
    assert_eq!(p.device_type, "Unknown");
    assert_eq!(p.scope, "Unknown");
}

#[test]
fn test_dedupe_score_terms() {
    let mut p = device("a");
    // online 16 + capacity 4 + known status 2
    assert_eq!(p.dedupe_score(), 22);
    p.voltage_now = Some(4_000_000);
    assert_eq!(p.dedupe_score(), 30);
    p.status = "charging".to_string(); // case-insensitive: known 2 + charging 2
    assert_eq!(p.dedupe_score(), 32);
    p.status = "Unknown".to_string();
    p.online = false;
    p.capacity_percent = 0;
    p.voltage_now = None;
    assert_eq!(p.dedupe_score(), 0);
}

#[test]
fn test_stable_id_preference() {
    let mut p = device("hidpp_battery_1");
    assert_eq!(p.stable_id(), "serial:ABC-123");
    p.serial_number = None;
    assert_eq!(p.stable_id(), "mm:Test|Test Device");
    p.manufacturer = "Unknown".to_string();
    assert_eq!(p.stable_id(), "name:hidpp_battery_1");
}

#[test]
fn test_is_connected_fallbacks() {
    let mut p = device("a");
    assert!(p.is_connected());
    p.online = false;
    p.voltage_now = None;
    p.capacity_percent = 0;
    p.status = "Discharging".to_string();
    assert!(p.is_connected());
    p.status = " unknown ".to_string();
    assert!(!p.is_connected());
    p.status = String::new();
    assert!(!p.is_connected());
}

#[test]
fn test_voltage_string_format() {
    let mut p = device("a");
    p.voltage_now = Some(4_229_000);
    assert_eq!(p.get_voltage_string(), "4.23 V");
    p.voltage_now = Some(12_000_000);
    assert_eq!(p.get_voltage_string(), "12.00 V");
    p.voltage_now = None;
    assert_eq!(p.get_voltage_string(), "N/A");
}

#[test]
fn test_status_css_class_cases() {
    let mut p = device("a");
    p.status = "charging".to_string();
    assert_eq!(p.get_status_css_class(), "color-primary");
    p.status = "Full".to_string();
    assert_eq!(p.get_status_css_class(), "color-success");
    p.status = "Discharging".to_string();
    assert_eq!(p.get_status_css_class(), "color-warning");
}

#[test]
fn test_dedupe_keeps_best_score() {
    let mut weak = device("hidpp_battery_0");
    weak.online = false;
    weak.voltage_now = None;
    let mut strong = device("hidpp_battery_5");
    strong.voltage_now = Some(4_000_000);
    let kept = dedupe(vec![weak, strong]);
    assert_eq!(kept.len(), 1);
    assert_eq!(kept[0].name, "hidpp_battery_5");
}

#[test]
fn test_dedupe_tie_takes_smaller_name() {
    let a = device("hidpp_battery_7");
    let b = device("hidpp_battery_2");
    let kept = dedupe(vec![a, b]);
    assert_eq!(kept.len(), 1);
    assert_eq!(kept[0].name, "hidpp_battery_2");
}

#[test]
fn test_dedupe_orders_by_identity() {
    let mut a = device("dev_a");
    a.serial_number = Some("zzz".to_string());
    let mut b = device("dev_b");
    b.serial_number = Some("aaa".to_string());
    let kept = dedupe(vec![a, b]);
    assert_eq!(kept.len(), 2);
    assert_eq!(kept[0].serial_number.as_deref(), Some("aaa"));
    assert_eq!(kept[1].serial_number.as_deref(), Some("zzz"));
}
