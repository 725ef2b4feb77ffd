//! Vendor identification from DMI strings and the lookup table of the
//! sysfs files through which each vendor exposes its charge thresholds.
//!
//! Reading the DMI files and probing which candidate paths exist on the
//! running system belong to the front-end.

use vstd::prelude::*;
use vstd::string::StringExecFns;

use crate::text::{contains, lower_seq, seq_contains, to_ascii_lower};

verus! {

/// The makes with a known battery-threshold interface.
#[derive(Debug, Clone, PartialEq, Eq, Structural)]
pub enum VendorType {
    Asus,
    Lenovo,
    Dell,
    Huawei,
    System76,
    Tuxedo,
    Samsung,
    Sony,
    Lg,
    Msi,
    Toshiba,
    Macbook,
    Generic,
}

/// What was learnt about the machine: its identity strings and whether a
/// start or stop threshold file is present.
#[derive(Debug, Clone)]
pub struct VendorInfo {
    pub manufacturer: String,
    pub product_name: String,
    pub supports_start_threshold: bool,
    pub supports_stop_threshold: bool,
}

/// Candidate sysfs paths for writing the charge thresholds.
#[derive(Debug, Clone)]
pub struct ThresholdFiles {
    pub start_paths: Vec<String>,
    pub stop_paths: Vec<String>,
}

/// The vendor that a lower-cased manufacturer string and a product name
/// identify; the first match of the chain decides.
pub open spec fn vendor_of(manufacturer: Seq<char>, product: Seq<char>) -> VendorType {
    if seq_contains(manufacturer, "asus"@) || seq_contains(manufacturer, "asustek"@) {
        VendorType::Asus
    } else if seq_contains(manufacturer, "lenovo"@) || seq_contains(
        lower_seq(product),
        "thinkpad"@,
    ) {
        VendorType::Lenovo
    } else if seq_contains(manufacturer, "dell"@) {
        VendorType::Dell
    } else if seq_contains(manufacturer, "huawei"@) {
        VendorType::Huawei
    } else if seq_contains(manufacturer, "system76"@) {
        VendorType::System76
    } else if seq_contains(manufacturer, "tuxedo"@) {
        VendorType::Tuxedo
    } else if seq_contains(manufacturer, "samsung"@) {
        VendorType::Samsung
    } else if seq_contains(manufacturer, "sony"@) {
        VendorType::Sony
    } else if seq_contains(manufacturer, "lg"@) {
        VendorType::Lg
    } else if seq_contains(manufacturer, "micro-star"@) || seq_contains(manufacturer, "msi"@) {
        VendorType::Msi
    } else if seq_contains(manufacturer, "toshiba"@) {
        VendorType::Toshiba
    } else if seq_contains(manufacturer, "apple"@) {
        VendorType::Macbook
    } else {
        VendorType::Generic
    }
}

impl VendorInfo {
    /// Identifies the vendor from the DMI manufacturer string (already
    /// lower-cased) and the product name (matched case-insensitively).
    pub fn identify_vendor(manufacturer: &str, product: &str) -> (r: VendorType)
        ensures
            r == vendor_of(manufacturer@, product@),
    {
        if contains(manufacturer, "asus") || contains(manufacturer, "asustek") {
            return VendorType::Asus;
        }
        let product_lower = to_ascii_lower(product);
        if contains(manufacturer, "lenovo") || contains(product_lower.as_str(), "thinkpad") {
            return VendorType::Lenovo;
        }
        if contains(manufacturer, "dell") {
            return VendorType::Dell;
        }
        if contains(manufacturer, "huawei") {
            return VendorType::Huawei;
        }
        if contains(manufacturer, "system76") {
            return VendorType::System76;
        }
        if contains(manufacturer, "tuxedo") {
            return VendorType::Tuxedo;
        }
        if contains(manufacturer, "samsung") {
            return VendorType::Samsung;
        }
        if contains(manufacturer, "sony") {
            return VendorType::Sony;
        }
        if contains(manufacturer, "lg") {
            return VendorType::Lg;
        }
        if contains(manufacturer, "micro-star") || contains(manufacturer, "msi") {
            return VendorType::Msi;
        }
        if contains(manufacturer, "toshiba") {
            return VendorType::Toshiba;
        }
        if contains(manufacturer, "apple") {
            return VendorType::Macbook;
        }
        VendorType::Generic
    }

    /// Assembles the vendor record: the manufacturer string is stored
    /// lower-cased, the support flags say whether any candidate threshold
    /// file was found on the system.
    pub fn new(manufacturer: &str, product: &str, supports_start: bool, supports_stop: bool) -> (r:
        Self)
        ensures
            r.manufacturer@ == lower_seq(manufacturer@),
            r.product_name@ == product@,
            r.supports_start_threshold == supports_start,
            r.supports_stop_threshold == supports_stop,
    {
        VendorInfo {
            manufacturer: to_ascii_lower(manufacturer),
            product_name: String::from_str(product),
            supports_start_threshold: supports_start,
            supports_stop_threshold: supports_stop,
        }
    }
}

/// The candidate sysfs files for the start threshold of each vendor.
pub open spec fn start_paths_of(v: VendorType) -> Seq<Seq<char>> {
    match v {
        VendorType::Asus => Seq::<Seq<char>>::empty(),
        VendorType::Lenovo => seq!["/sys/class/power_supply/BAT0/charge_control_start_threshold"@, "/sys/class/power_supply/BAT1/charge_control_start_threshold"@, "/sys/class/power_supply/BAT0/charge_start_threshold"@, "/sys/class/power_supply/BAT1/charge_start_threshold"@],
        VendorType::Dell => seq!["/sys/class/power_supply/BAT0/charge_control_start_threshold"@, "/sys/class/power_supply/BAT1/charge_control_start_threshold"@],
        VendorType::Huawei => seq!["/sys/devices/platform/huawei-wmi/charge_control_thresholds"@],
        VendorType::System76 => seq!["/sys/class/power_supply/BAT0/charge_control_start_threshold"@, "/sys/class/power_supply/BAT1/charge_control_start_threshold"@],
        VendorType::Tuxedo => seq!["/sys/class/power_supply/BAT0/charge_control_start_threshold"@, "/sys/class/power_supply/BAT1/charge_control_start_threshold"@],
        VendorType::Samsung => Seq::<Seq<char>>::empty(),
        VendorType::Sony => Seq::<Seq<char>>::empty(),
        VendorType::Lg => Seq::<Seq<char>>::empty(),
        VendorType::Msi => seq!["/sys/class/power_supply/BAT0/charge_control_start_threshold"@, "/sys/class/power_supply/BAT1/charge_control_start_threshold"@],
        VendorType::Toshiba => Seq::<Seq<char>>::empty(),
        VendorType::Macbook => seq!["/sys/class/power_supply/macsmc-battery/charge_control_start_threshold"@],
        VendorType::Generic => seq!["/sys/class/power_supply/BAT0/charge_control_start_threshold"@, "/sys/class/power_supply/BAT1/charge_control_start_threshold"@, "/sys/class/power_supply/BAT0/charge_start_threshold"@, "/sys/class/power_supply/BAT1/charge_start_threshold"@],
    }
}

/// The candidate sysfs files for the stop threshold of each vendor.
pub open spec fn stop_paths_of(v: VendorType) -> Seq<Seq<char>> {
    match v {
        VendorType::Asus => seq!["/sys/class/power_supply/BAT0/charge_control_end_threshold"@, "/sys/class/power_supply/BAT1/charge_control_end_threshold"@, "/sys/class/power_supply/BATC/charge_control_end_threshold"@, "/sys/class/power_supply/BATT/charge_control_end_threshold"@],
        VendorType::Lenovo => seq!["/sys/class/power_supply/BAT0/charge_control_end_threshold"@, "/sys/class/power_supply/BAT1/charge_control_end_threshold"@, "/sys/class/power_supply/BAT0/charge_stop_threshold"@, "/sys/class/power_supply/BAT1/charge_stop_threshold"@],
        VendorType::Dell => seq!["/sys/class/power_supply/BAT0/charge_control_end_threshold"@, "/sys/class/power_supply/BAT1/charge_control_end_threshold"@],
        VendorType::Huawei => seq!["/sys/devices/platform/huawei-wmi/charge_control_thresholds"@],
        VendorType::System76 => seq!["/sys/class/power_supply/BAT0/charge_control_end_threshold"@, "/sys/class/power_supply/BAT1/charge_control_end_threshold"@],
        VendorType::Tuxedo => seq!["/sys/class/power_supply/BAT0/charge_control_end_threshold"@, "/sys/class/power_supply/BAT1/charge_control_end_threshold"@],
        VendorType::Samsung => seq!["/sys/class/power_supply/BAT0/battery_care_limit"@, "/sys/class/power_supply/BAT1/battery_care_limit"@],
        VendorType::Sony => seq!["/sys/class/power_supply/BAT0/battery_care_limiter"@, "/sys/class/power_supply/BAT1/battery_care_limiter"@],
        VendorType::Lg => seq!["/sys/class/power_supply/BAT0/charge_control_end_threshold"@, "/sys/class/power_supply/BAT1/charge_control_end_threshold"@],
        VendorType::Msi => seq!["/sys/class/power_supply/BAT0/charge_control_end_threshold"@, "/sys/class/power_supply/BAT1/charge_control_end_threshold"@],
        VendorType::Toshiba => seq!["/sys/class/power_supply/BAT0/charge_control_end_threshold"@, "/sys/class/power_supply/BAT1/charge_control_end_threshold"@],
        VendorType::Macbook => seq!["/sys/class/power_supply/macsmc-battery/charge_control_end_threshold"@],
        VendorType::Generic => seq!["/sys/class/power_supply/BAT0/charge_control_end_threshold"@, "/sys/class/power_supply/BAT1/charge_control_end_threshold"@, "/sys/class/power_supply/BAT0/charge_stop_threshold"@, "/sys/class/power_supply/BAT1/charge_stop_threshold"@, "/sys/class/power_supply/BAT0/charge_end_threshold"@, "/sys/class/power_supply/BAT1/charge_end_threshold"@],
    }
}

impl VendorInfo {
    /// The threshold-file lookup table: for each vendor, the candidate
    /// sysfs paths for the start and the stop threshold, in the order in
    /// which they are probed.
    pub fn get_threshold_files(vendor: &VendorType) -> (r: ThresholdFiles)
        ensures
            r.start_paths.deep_view() == start_paths_of(*vendor),
            r.stop_paths.deep_view() == stop_paths_of(*vendor),
    {
        let mut start_paths: Vec<String> = Vec::new();
        let mut stop_paths: Vec<String> = Vec::new();
        match vendor {
            VendorType::Asus => {
                stop_paths.push(String::from_str("/sys/class/power_supply/BAT0/charge_control_end_threshold"));
                stop_paths.push(String::from_str("/sys/class/power_supply/BAT1/charge_control_end_threshold"));
                stop_paths.push(String::from_str("/sys/class/power_supply/BATC/charge_control_end_threshold"));
                stop_paths.push(String::from_str("/sys/class/power_supply/BATT/charge_control_end_threshold"));
            },
            VendorType::Lenovo => {
                start_paths.push(String::from_str("/sys/class/power_supply/BAT0/charge_control_start_threshold"));
                start_paths.push(String::from_str("/sys/class/power_supply/BAT1/charge_control_start_threshold"));
                start_paths.push(String::from_str("/sys/class/power_supply/BAT0/charge_start_threshold"));
                start_paths.push(String::from_str("/sys/class/power_supply/BAT1/charge_start_threshold"));
                stop_paths.push(String::from_str("/sys/class/power_supply/BAT0/charge_control_end_threshold"));
                stop_paths.push(String::from_str("/sys/class/power_supply/BAT1/charge_control_end_threshold"));
                stop_paths.push(String::from_str("/sys/class/power_supply/BAT0/charge_stop_threshold"));
                stop_paths.push(String::from_str("/sys/class/power_supply/BAT1/charge_stop_threshold"));
            },
            VendorType::Dell => {
                start_paths.push(String::from_str("/sys/class/power_supply/BAT0/charge_control_start_threshold"));
                start_paths.push(String::from_str("/sys/class/power_supply/BAT1/charge_control_start_threshold"));
                stop_paths.push(String::from_str("/sys/class/power_supply/BAT0/charge_control_end_threshold"));
                stop_paths.push(String::from_str("/sys/class/power_supply/BAT1/charge_control_end_threshold"));
            },
            VendorType::Huawei => {
                start_paths.push(String::from_str("/sys/devices/platform/huawei-wmi/charge_control_thresholds"));
                stop_paths.push(String::from_str("/sys/devices/platform/huawei-wmi/charge_control_thresholds"));
            },
            VendorType::System76 => {
                start_paths.push(String::from_str("/sys/class/power_supply/BAT0/charge_control_start_threshold"));
                start_paths.push(String::from_str("/sys/class/power_supply/BAT1/charge_control_start_threshold"));
                stop_paths.push(String::from_str("/sys/class/power_supply/BAT0/charge_control_end_threshold"));
                stop_paths.push(String::from_str("/sys/class/power_supply/BAT1/charge_control_end_threshold"));
            },
            VendorType::Tuxedo => {
                start_paths.push(String::from_str("/sys/class/power_supply/BAT0/charge_control_start_threshold"));
                start_paths.push(String::from_str("/sys/class/power_supply/BAT1/charge_control_start_threshold"));
                stop_paths.push(String::from_str("/sys/class/power_supply/BAT0/charge_control_end_threshold"));
                stop_paths.push(String::from_str("/sys/class/power_supply/BAT1/charge_control_end_threshold"));
            },
            VendorType::Samsung => {
                stop_paths.push(String::from_str("/sys/class/power_supply/BAT0/battery_care_limit"));
                stop_paths.push(String::from_str("/sys/class/power_supply/BAT1/battery_care_limit"));
            },
            VendorType::Sony => {
                stop_paths.push(String::from_str("/sys/class/power_supply/BAT0/battery_care_limiter"));
                stop_paths.push(String::from_str("/sys/class/power_supply/BAT1/battery_care_limiter"));
            },
            VendorType::Lg => {
                stop_paths.push(String::from_str("/sys/class/power_supply/BAT0/charge_control_end_threshold"));
                stop_paths.push(String::from_str("/sys/class/power_supply/BAT1/charge_control_end_threshold"));
            },
            VendorType::Msi => {
                start_paths.push(String::from_str("/sys/class/power_supply/BAT0/charge_control_start_threshold"));
                start_paths.push(String::from_str("/sys/class/power_supply/BAT1/charge_control_start_threshold"));
                stop_paths.push(String::from_str("/sys/class/power_supply/BAT0/charge_control_end_threshold"));
                stop_paths.push(String::from_str("/sys/class/power_supply/BAT1/charge_control_end_threshold"));
            },
            VendorType::Toshiba => {
                stop_paths.push(String::from_str("/sys/class/power_supply/BAT0/charge_control_end_threshold"));
                stop_paths.push(String::from_str("/sys/class/power_supply/BAT1/charge_control_end_threshold"));
            },
            VendorType::Macbook => {
                start_paths.push(String::from_str("/sys/class/power_supply/macsmc-battery/charge_control_start_threshold"));
                stop_paths.push(String::from_str("/sys/class/power_supply/macsmc-battery/charge_control_end_threshold"));
            },
            VendorType::Generic => {
                start_paths.push(String::from_str("/sys/class/power_supply/BAT0/charge_control_start_threshold"));
                start_paths.push(String::from_str("/sys/class/power_supply/BAT1/charge_control_start_threshold"));
                start_paths.push(String::from_str("/sys/class/power_supply/BAT0/charge_start_threshold"));
                start_paths.push(String::from_str("/sys/class/power_supply/BAT1/charge_start_threshold"));
                stop_paths.push(String::from_str("/sys/class/power_supply/BAT0/charge_control_end_threshold"));
                stop_paths.push(String::from_str("/sys/class/power_supply/BAT1/charge_control_end_threshold"));
                stop_paths.push(String::from_str("/sys/class/power_supply/BAT0/charge_stop_threshold"));
                stop_paths.push(String::from_str("/sys/class/power_supply/BAT1/charge_stop_threshold"));
                stop_paths.push(String::from_str("/sys/class/power_supply/BAT0/charge_end_threshold"));
                stop_paths.push(String::from_str("/sys/class/power_supply/BAT1/charge_end_threshold"));
            },
        }
        proof {
            assert(start_paths.deep_view() =~= start_paths_of(*vendor));
            assert(stop_paths.deep_view() =~= stop_paths_of(*vendor));
        }
        ThresholdFiles { start_paths, stop_paths }
    }
}

} // verus!
