use battery_manager::power_supply::{PowerSupplyInfo, PsuEntry};
use battery_manager::text::{
    contains, parse_u64, parse_u8, starts_with, str_eq, str_lt, to_ascii_lower, trim,
    u64_to_string, u64_to_string_pad2,
};
use battery_manager::theme::{get_theme, is_dark_theme, set_theme, ThemeState};

#[test]
fn test_power_source_detection() {
    let entries = vec![
        PsuEntry {
            name: "BAT0".to_string(),
            psu_type: Some("Battery\n".to_string()),
            online: None,
        },
        PsuEntry {
            name: "AC".to_string(),
            psu_type: Some("Mains\n".to_string()),
            online: Some("1\n".to_string()),
        },
    ];
    let info = PowerSupplyInfo::from_scan(&entries);
    assert_eq!(info.ac_name, "AC");
    assert!(info.ac_online);
    assert!(info.get_power_source_markup().contains("Secteur"));
}

#[test]
fn test_power_source_offline_adapter() {
    let entries = vec![PsuEntry {
        name: "ADP1".to_string(),
        psu_type: Some("Mains".to_string()),
        online: Some("0".to_string()),
    }];
    let info = PowerSupplyInfo::from_scan(&entries);
    assert_eq!(info.ac_name, "ADP1");
    assert!(!info.ac_online);
    assert!(info.get_power_source_markup().contains("Batterie"));
}

#[test]
fn test_power_source_absent() {
    let entries = vec![PsuEntry {
        name: "BAT0".to_string(),
        psu_type: Some("Battery".to_string()),
        online: None,
    }];
    let info = PowerSupplyInfo::from_scan(&entries);
    assert_eq!(info.ac_name, "Non d\u{e9}tect\u{e9}");
    assert!(!info.ac_online);
}

#[test]
fn test_theme_selection() {
    let mut state = ThemeState::new();
    assert_eq!(get_theme(&state), "");
    assert!(!is_dark_theme(&state));
    set_theme(&mut state, "dark");
    assert_eq!(get_theme(&state), "dark");
    assert!(is_dark_theme(&state));
    set_theme(&mut state, "light");
    assert!(!is_dark_theme(&state));
}

#[test]
fn test_parse_u64_cases() {
    assert_eq!(parse_u64("42"), Some(42));
    assert_eq!(parse_u64("+42"), Some(42));
    assert_eq!(parse_u64("0"), Some(0));
    assert_eq!(parse_u64(""), None);
    assert_eq!(parse_u64("+"), None);
    assert_eq!(parse_u64("-42"), None);
    assert_eq!(parse_u64("4 2"), None);
    assert_eq!(parse_u64("18446744073709551615"), Some(u64::MAX));
    assert_eq!(parse_u64("18446744073709551616"), None);
}

#[test]
fn test_parse_u8_cases() {
    assert_eq!(parse_u8("255"), Some(255));
    assert_eq!(parse_u8("256"), None);
    assert_eq!(parse_u8("080"), Some(80));
}

#[test]
fn test_number_formatting() {
    assert_eq!(u64_to_string(0), "0");
    assert_eq!(u64_to_string(12345), "12345");
    assert_eq!(u64_to_string(u64::MAX), "18446744073709551615");
    assert_eq!(u64_to_string_pad2(5), "05");
    assert_eq!(u64_to_string_pad2(59), "59");
    assert_eq!(u64_to_string_pad2(100), "100");
}

#[test]
fn test_string_utilities() {
    assert_eq!(trim("  a b\n"), "a b");
    assert_eq!(trim("\t\n"), "");
    assert_eq!(to_ascii_lower("MiXeD-42"), "mixed-42");
    assert!(str_eq("abc", "abc"));
    assert!(!str_eq("abc", "abd"));
    assert!(starts_with("BAT0", "BAT"));
    assert!(!starts_with("BA", "BAT"));
    assert!(contains("charge_control_end", "control"));
    assert!(!contains("charge", "control"));
    assert!(str_lt("BAT0", "BAT1"));
    assert!(str_lt("BAT", "BAT0"));
    assert!(!str_lt("BAT1", "BAT1"));
}
