use battery_manager::battery::{BatteryError, BatteryInfo};
use battery_manager::traits::{BatteryService, SystemThresholdWriter, ThresholdWriter};

struct MockBatteryService {
    batteries: Vec<String>,
}

impl MockBatteryService {
    fn new(batteries: Vec<String>) -> Self {
        Self { batteries }
    }
}

impl BatteryService for MockBatteryService {
    fn get_info(&self, name: &str) -> Result<BatteryInfo, BatteryError> {
        if !name.starts_with("BAT") {
            return Err(BatteryError::InvalidBatteryName(name.to_string()));
        }
        Err(BatteryError::IoError("Mock service".to_string()))
    }

    fn list_batteries(&self) -> Vec<String> {
        self.batteries.clone()
    }
}

#[test]
fn test_mock_battery_service() {
    let mock = MockBatteryService::new(vec!["BAT0".to_string(), "BAT1".to_string()]);
    let batteries = mock.list_batteries();
    assert_eq!(batteries.len(), 2);
    assert_eq!(batteries[0], "BAT0");
    assert_eq!(batteries[1], "BAT1");
}

#[test]
fn test_mock_battery_service_validation() {
    let mock = MockBatteryService::new(vec![]);
    let result = mock.get_info("INVALID");
    assert!(result.is_err());
    match result {
        Err(BatteryError::InvalidBatteryName(name)) => assert_eq!(name, "INVALID"),
        _ => panic!("Expected InvalidBatteryName error"),
    }
}

#[test]
fn test_threshold_writer_validation() {
    let writer = SystemThresholdWriter::new(true);

    let result = writer.apply_thresholds("BAT0", None, 150);
    assert!(result.is_err());
    assert!(result.unwrap_err().contains("invalide"));

    let result = writer.apply_thresholds("BAT0", Some(150), 80);
    assert!(result.is_err());

    let result = writer.apply_thresholds("BAT0", Some(80), 80);
    assert!(result.is_err());

    let result = writer.apply_thresholds("BAT0", Some(85), 80);
    assert!(result.is_err());
}

#[test]
fn test_threshold_writer_valid() {
    let writer = SystemThresholdWriter::new(true);

    let result = writer.apply_thresholds("BAT0", Some(60), 80);
    assert!(result.is_ok());

    let result = writer.apply_thresholds("BAT0", None, 80);
    assert!(result.is_ok());
}

#[test]
fn test_threshold_writer_supports_start() {
    let writer_with_start = SystemThresholdWriter::new(true);
    assert!(writer_with_start.supports_start_threshold());

    let writer_without_start = SystemThresholdWriter::new(false);
    assert!(!writer_without_start.supports_start_threshold());
}

#[test]
fn test_threshold_writer_error_messages() {
    let writer = SystemThresholdWriter::new(true);
    assert_eq!(
        writer.apply_thresholds("BAT0", None, 101).unwrap_err(),
        "Seuil d'arr\u{ea}t invalide (> 100)"
    );
    assert_eq!(
        writer.apply_thresholds("BAT0", Some(101), 100).unwrap_err(),
        "Seuil de d\u{e9}marrage invalide (> 100)"
    );
    assert_eq!(
        writer.apply_thresholds("BAT0", Some(50), 50).unwrap_err(),
        "Le seuil de d\u{e9}marrage doit \u{ea}tre inf\u{e9}rieur au seuil d'arr\u{ea}t"
    );
}
