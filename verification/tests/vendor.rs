use battery_manager::vendor_detection::{VendorInfo, VendorType};

#[test]
fn test_identify_vendor_asus() {
    let vendor = VendorInfo::identify_vendor("asustek computer inc.", "TUF Gaming");
    assert_eq!(vendor, VendorType::Asus);

    let vendor2 = VendorInfo::identify_vendor("asus", "VivoBook");
    assert_eq!(vendor2, VendorType::Asus);
}

#[test]
fn test_identify_vendor_lenovo() {
    let vendor = VendorInfo::identify_vendor("lenovo", "ThinkPad X1");
    assert_eq!(vendor, VendorType::Lenovo);

    let vendor2 = VendorInfo::identify_vendor("generic", "ThinkPad T480");
    assert_eq!(vendor2, VendorType::Lenovo);
}

#[test]
fn test_identify_vendor_dell() {
    let vendor = VendorInfo::identify_vendor("dell inc.", "XPS 13");
    assert_eq!(vendor, VendorType::Dell);
}

#[test]
fn test_identify_vendor_huawei() {
    let vendor = VendorInfo::identify_vendor("huawei", "MateBook X Pro");
    assert_eq!(vendor, VendorType::Huawei);
}

#[test]
fn test_identify_vendor_system76() {
    let vendor = VendorInfo::identify_vendor("system76", "Lemur Pro");
    assert_eq!(vendor, VendorType::System76);
}

#[test]
fn test_identify_vendor_tuxedo() {
    let vendor = VendorInfo::identify_vendor("tuxedo", "InfinityBook");
    assert_eq!(vendor, VendorType::Tuxedo);
}

#[test]
fn test_identify_vendor_samsung() {
    let vendor = VendorInfo::identify_vendor("samsung", "Galaxy Book");
    assert_eq!(vendor, VendorType::Samsung);
}

#[test]
fn test_identify_vendor_generic() {
    let vendor = VendorInfo::identify_vendor("unknown manufacturer", "unknown product");
    assert_eq!(vendor, VendorType::Generic);
}

#[test]
fn test_threshold_files_asus() {
    let files = VendorInfo::get_threshold_files(&VendorType::Asus);
    assert!(files.start_paths.is_empty());
    assert!(!files.stop_paths.is_empty());
}

#[test]
fn test_threshold_files_lenovo() {
    let files = VendorInfo::get_threshold_files(&VendorType::Lenovo);
    assert!(!files.start_paths.is_empty());
    assert!(!files.stop_paths.is_empty());
}

#[test]
fn test_threshold_files_generic() {
    let files = VendorInfo::get_threshold_files(&VendorType::Generic);
    assert!(!files.start_paths.is_empty());
    assert!(!files.stop_paths.is_empty());
    assert!(files
        .stop_paths
        .iter()
        .any(|p| p.contains("charge_control_end_threshold")));
}

#[test]
fn test_threshold_files_exact_paths() {
    let files = VendorInfo::get_threshold_files(&VendorType::Huawei);
    assert_eq!(
        files.start_paths,
        vec!["/sys/devices/platform/huawei-wmi/charge_control_thresholds".to_string()]
    );
    assert_eq!(files.start_paths, files.stop_paths);

    let files = VendorInfo::get_threshold_files(&VendorType::Macbook);
    assert_eq!(
        files.stop_paths,
        vec!["/sys/class/power_supply/macsmc-battery/charge_control_end_threshold".to_string()]
    );
}

#[test]
fn test_vendor_info_assembly() {
    let info = VendorInfo::new("LENOVO", "ThinkPad T480", true, true);
    assert_eq!(info.manufacturer, "lenovo");
    assert_eq!(info.product_name, "ThinkPad T480");
    assert!(info.supports_start_threshold);
    assert!(info.supports_stop_threshold);
}
