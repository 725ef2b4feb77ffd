//! Core logic of a laptop battery manager: parsing of the small text files
//! that the kernel exposes for power supplies, a vendor lookup table for
//! charge-threshold paths, identity matching and de-duplication of wireless
//! peripheral batteries, and the string formatting used for display.
//!
//! Everything here is pure computation over plain values; reading sysfs,
//! spawning processes and drawing the interface belong to the front-end.

pub mod battery;
pub mod debug;
pub mod i18n;
pub mod peripheral;
pub mod power_supply;
pub mod text;
pub mod traits;
pub mod theme;
pub mod vendor_detection;
