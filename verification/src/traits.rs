//! Service abstractions: the battery-information source, and the
//! threshold writer with its validation rules.
//!
//! The system-backed battery service reads sysfs and so lives in the
//! front-end; the threshold validation is pure and proved here.

use vstd::prelude::*;
use vstd::string::StringExecFns;

use crate::battery::{BatteryError, BatteryInfo};

verus! {

/// A source of battery information, abstracted so tests can substitute
/// their own.
pub trait BatteryService {
    /// Information for the battery called `name`.
    fn get_info(&self, name: &str) -> Result<BatteryInfo, BatteryError>;

    /// The names of the batteries this service knows.
    fn list_batteries(&self) -> Vec<String>;
}

/// A sink for charge thresholds, abstracted so tests can substitute
/// their own. `apply_thresholds` validates before anything is written:
/// both values must be percentages, and a start threshold must lie
/// strictly below the stop threshold.
pub trait ThresholdWriter {
    /// Checks the thresholds and hands them on: over-100 values and a
    /// start at or above the stop are rejected with the message saying
    /// which rule failed.
    fn apply_thresholds(&self, battery: &str, start: Option<u8>, stop: u8) -> (r: Result<
        (),
        String,
    >)
        ensures
            stop > 100 ==> (r matches Err(m) && m@ == "Seuil d'arr\u{ea}t invalide (> 100)"@),
            stop <= 100 && start is Some && start->0 > 100 ==> (r matches Err(m) && m@
                == "Seuil de d\u{e9}marrage invalide (> 100)"@),
            stop <= 100 && start is Some && start->0 <= 100 && start->0 >= stop ==> (r matches Err(
                m,
            ) && m@ == "Le seuil de d\u{e9}marrage doit \u{ea}tre inf\u{e9}rieur au seuil d'arr\u{ea}t"@),
            stop <= 100 && (start is None || (start->0 <= 100 && start->0 < stop)) ==> r is Ok,
    ;

    /// Whether this writer can set a start threshold.
    fn supports_start_threshold(&self) -> bool;
}

/// The writer used on the running system; the actual file writes happen
/// in the front-end after this validation.
pub struct SystemThresholdWriter {
    pub supports_start: bool,
}

impl SystemThresholdWriter {
    /// A writer that reports the given start-threshold support.
    pub fn new(supports_start: bool) -> (r: Self)
        ensures
            r.supports_start == supports_start,
    {
        SystemThresholdWriter { supports_start }
    }
}

impl ThresholdWriter for SystemThresholdWriter {
    fn apply_thresholds(&self, battery: &str, start: Option<u8>, stop: u8) -> (r: Result<
        (),
        String,
    >) {
        if stop > 100 {
            return Err(String::from_str("Seuil d'arr\u{ea}t invalide (> 100)"));
        }
        if let Some(s) = start {
            if s > 100 {
                return Err(String::from_str("Seuil de d\u{e9}marrage invalide (> 100)"));
            }
            if s >= stop {
                return Err(
                    String::from_str(
                        "Le seuil de d\u{e9}marrage doit \u{ea}tre inf\u{e9}rieur au seuil d'arr\u{ea}t",
                    ),
                );
            }
        }
        Ok(())
    }

    fn supports_start_threshold(&self) -> (r: bool) {
        self.supports_start
    }
}

} // verus!
