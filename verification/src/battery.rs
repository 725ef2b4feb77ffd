//! Battery state assembled from the text files of one power-supply entry:
//! name validation, parsing with the documented defaults, derived values
//! (health, wear, remaining time) and the display strings built from them.
//!
//! Reading the files themselves and querying the service manager belong to
//! the front-end; this module gets the raw contents and proves what every
//! field and string is.

use vstd::prelude::*;
use vstd::string::StringExecFns;

use crate::i18n::{translation, LangState, Language};
use crate::text::{
    contains, dec2_str, dec_str, lex_lt, parse_u64, parse_u64_spec, seq_contains, seq_starts_with,
    starts_with, str_eq, str_lt, trim, trim_spec, u64_to_string, u64_to_string_pad2,
};

verus! {

/// Why battery state could not be read.
#[derive(Debug)]
pub enum BatteryError {
    /// The battery name is not acceptable; the payload is the message.
    InvalidBatteryName(String),
    /// A read failed; the payload is the error's text.
    IoError(String),
}

/// The name passes both checks: the `BAT` prefix and no traversal parts.
pub open spec fn valid_battery_name(name: Seq<char>) -> bool {
    seq_starts_with(name, "BAT"@) && !has_traversal(name)
}

/// The name holds `..`, `/` or `\`, so it could escape the sysfs directory.
pub open spec fn has_traversal(name: Seq<char>) -> bool {
    seq_contains(name, ".."@) || seq_contains(name, "/"@) || seq_contains(name, "\\"@)
}

/// Raw contents of the sysfs files of one battery, `None` where a file
/// could not be read, plus whether the restore service is active.
pub struct BatteryReadings {
    pub manufacturer: Option<String>,
    pub model_name: Option<String>,
    pub technology: Option<String>,
    pub status: Option<String>,
    pub capacity_level: Option<String>,
    pub capacity: Option<String>,
    pub charge_now: Option<String>,
    pub energy_now: Option<String>,
    pub charge_full: Option<String>,
    pub energy_full: Option<String>,
    pub charge_full_design: Option<String>,
    pub energy_full_design: Option<String>,
    pub current_now: Option<String>,
    pub voltage_now: Option<String>,
    pub cycle_count: Option<String>,
    pub charge_start_threshold: Option<String>,
    pub charge_control_start_threshold: Option<String>,
    pub charge_stop_threshold: Option<String>,
    pub charge_control_end_threshold: Option<String>,
    pub alarm: Option<String>,
    pub service_active: bool,
}

/// The trimmed text of a reading, `Inconnu` when the file was missing.
pub open spec fn text_or_unknown(r: Option<String>) -> Seq<char> {
    match r {
        Some(s) => trim_spec(s@),
        None => "Inconnu"@,
    }
}

/// The first reading that is present: a missing file falls back to the
/// second, an unparsable one does not.
pub open spec fn first_present(a: Option<String>, b: Option<String>) -> Option<String> {
    if a is Some {
        a
    } else {
        b
    }
}

/// The reading parsed as an unsigned number after trimming.
pub open spec fn parsed_u64_opt(r: Option<String>) -> Option<u64> {
    match r {
        Some(s) => parse_u64_spec(trim_spec(s@)),
        None => None,
    }
}

/// The parsed reading, or `default` when missing or unparsable.
pub open spec fn parsed_or(r: Option<String>, default: u64) -> u64 {
    match parsed_u64_opt(r) {
        Some(v) => v,
        None => default,
    }
}

/// The reading parsed as a `u8`: present, numeric and at most 255.
pub open spec fn parsed_u8_opt(r: Option<String>) -> Option<u8> {
    match parsed_u64_opt(r) {
        Some(v) => if v <= u8::MAX as u64 {
            Some(v as u8)
        } else {
            None
        },
        None => None,
    }
}

/// The reading parsed as a `u8`, or `default` when that fails.
pub open spec fn parsed_u8_or(r: Option<String>, default: u8) -> u8 {
    match parsed_u8_opt(r) {
        Some(v) => v,
        None => default,
    }
}

/// The reading parsed as a `u32`, or `default` when that fails.
pub open spec fn parsed_u32_or(r: Option<String>, default: u32) -> u32 {
    match parsed_u64_opt(r) {
        Some(v) => if v <= u32::MAX as u64 {
            v as u32
        } else {
            default
        },
        None => default,
    }
}

/// `x` clipped to the range of a `u32`.
pub open spec fn clip_u32(x: int) -> u32 {
    if x > u32::MAX {
        u32::MAX
    } else {
        x as u32
    }
}

/// Minutes left: charge over current while discharging, missing charge
/// over current while charging (zero when already past full), and nothing
/// otherwise or when no current flows.
pub open spec fn time_remaining_spec(
    status: Seq<char>,
    charge_now: u64,
    charge_full: u64,
    current_now: u64,
) -> Option<u32> {
    if current_now > 0 && status == "Discharging"@ {
        Some(clip_u32(charge_now * 60 / current_now as int))
    } else if current_now > 0 && status == "Charging"@ {
        if charge_full > charge_now {
            Some(clip_u32((charge_full - charge_now) * 60 / current_now as int))
        } else {
            Some(0)
        }
    } else {
        None
    }
}

/// Battery state with every quantity in the kernel's own units:
/// charges in microampere-hours, current in microamperes, voltage in
/// microvolts.
#[derive(Debug, Clone)]
pub struct BatteryInfo {
    pub name: String,
    pub manufacturer: String,
    pub model_name: String,
    pub technology: String,
    pub status: String,
    pub capacity_percent: u8,
    pub capacity_level: String,
    pub charge_now: u64,
    pub charge_full: u64,
    pub charge_full_design: u64,
    pub current_now: u64,
    pub voltage_now: u64,
    pub cycle_count: u32,
    pub time_remaining_minutes: Option<u32>,
    pub charge_start_threshold: Option<u8>,
    pub charge_stop_threshold: Option<u8>,
    pub alarm: Option<u64>,
    pub service_active: bool,
}

fn read_text_or_unknown(r: &Option<String>) -> (s: String)
    ensures
        s@ == text_or_unknown(*r),
{
    match r {
        Some(content) => String::from_str(trim(content.as_str())),
        None => String::from_str("Inconnu"),
    }
}

fn parse_reading(r: &Option<String>) -> (v: Option<u64>)
    ensures
        v == parsed_u64_opt(*r),
{
    match r {
        Some(content) => parse_u64(trim(content.as_str())),
        None => None,
    }
}

fn parse_reading_or(r: &Option<String>, default: u64) -> (v: u64)
    ensures
        v == parsed_or(*r, default),
{
    match parse_reading(r) {
        Some(v) => v,
        None => default,
    }
}

fn parse_reading_u8(r: &Option<String>) -> (v: Option<u8>)
    ensures
        v == parsed_u8_opt(*r),
{
    match parse_reading(r) {
        Some(v) => if v <= 255 {
            Some(v as u8)
        } else {
            None
        },
        None => None,
    }
}

impl BatteryInfo {
    /// Assembles the battery state for `battery_name` from the raw file
    /// contents. A name without the `BAT` prefix, or one that could walk
    /// out of the sysfs directory, is rejected; every missing or
    /// unparsable value falls back to its documented default (`Inconnu`
    /// for texts, 0 for counts, 1 for the two full-charge quantities).
    pub fn new(battery_name: &str, readings: BatteryReadings) -> (r: Result<Self, BatteryError>)
        ensures
            !seq_starts_with(battery_name@, "BAT"@) ==> (r matches Err(
                BatteryError::InvalidBatteryName(m),
            ) && m@ == battery_name@),
            seq_starts_with(battery_name@, "BAT"@) && has_traversal(battery_name@) ==> (r matches
                Err(BatteryError::InvalidBatteryName(m)) && m@ == (
            "Invalid battery name (potential path traversal): "@ + battery_name@)),
            valid_battery_name(battery_name@) ==> (r matches Ok(info) && ({
                &&& info.name@ == battery_name@
                &&& info.manufacturer@ == text_or_unknown(readings.manufacturer)
                &&& info.model_name@ == text_or_unknown(readings.model_name)
                &&& info.technology@ == text_or_unknown(readings.technology)
                &&& info.status@ == text_or_unknown(readings.status)
                &&& info.capacity_level@ == text_or_unknown(readings.capacity_level)
                &&& info.capacity_percent == parsed_u8_or(readings.capacity, 0)
                &&& info.charge_now == parsed_or(
                    first_present(readings.charge_now, readings.energy_now),
                    0,
                )
                &&& info.charge_full == parsed_or(
                    first_present(readings.charge_full, readings.energy_full),
                    1,
                )
                &&& info.charge_full_design == parsed_or(
                    first_present(readings.charge_full_design, readings.energy_full_design),
                    1,
                )
                &&& info.current_now == parsed_or(readings.current_now, 0)
                &&& info.voltage_now == parsed_or(readings.voltage_now, 0)
                &&& info.cycle_count == parsed_u32_or(readings.cycle_count, 0)
                &&& info.time_remaining_minutes == time_remaining_spec(
                    text_or_unknown(readings.status),
                    parsed_or(first_present(readings.charge_now, readings.energy_now), 0),
                    parsed_or(first_present(readings.charge_full, readings.energy_full), 1),
                    parsed_or(readings.current_now, 0),
                )
                &&& info.charge_start_threshold == parsed_u8_opt(
                    first_present(
                        readings.charge_start_threshold,
                        readings.charge_control_start_threshold,
                    ),
                )
                &&& info.charge_stop_threshold == parsed_u8_opt(
                    first_present(
                        readings.charge_stop_threshold,
                        readings.charge_control_end_threshold,
                    ),
                )
                &&& info.alarm == parsed_u64_opt(readings.alarm)
                &&& info.service_active == readings.service_active
            })),
    {
        if !starts_with(battery_name, "BAT") {
            return Err(BatteryError::InvalidBatteryName(String::from_str(battery_name)));
        }
        if contains(battery_name, "..") || contains(battery_name, "/") || contains(
            battery_name,
            "\\",
        ) {
            let mut m = String::from_str("Invalid battery name (potential path traversal): ");
            m.append(battery_name);
            return Err(BatteryError::InvalidBatteryName(m));
        }

        let status = read_text_or_unknown(&readings.status);
        let charge_now_pair = first_present_exec(&readings.charge_now, &readings.energy_now);
        let charge_full_pair = first_present_exec(&readings.charge_full, &readings.energy_full);
        let charge_now = parse_reading_or(&charge_now_pair, 0);
        let charge_full = parse_reading_or(&charge_full_pair, 1);
        let current_now = parse_reading_or(&readings.current_now, 0);

        let time_remaining_minutes = compute_time_remaining(
            status.as_str(),
            charge_now,
            charge_full,
            current_now,
        );

        let cycle_count_u64 = parse_reading_or(&readings.cycle_count, u64::MAX);
        let cycle_count: u32 = if cycle_count_u64 <= u32::MAX as u64 {
            cycle_count_u64 as u32
        } else {
            0
        };
        proof {
            assert(cycle_count == parsed_u32_or(readings.cycle_count, 0)) by {
                if parsed_u64_opt(readings.cycle_count) is Some {
                    let v = parsed_u64_opt(readings.cycle_count)->0;
                    if v == u64::MAX {
                        assert(v > u32::MAX as u64);
                    }
                }
            }
        }

        let start_pair = first_present_exec(
            &readings.charge_start_threshold,
            &readings.charge_control_start_threshold,
        );
        let stop_pair = first_present_exec(
            &readings.charge_stop_threshold,
            &readings.charge_control_end_threshold,
        );

        Ok(
            BatteryInfo {
                name: String::from_str(battery_name),
                manufacturer: read_text_or_unknown(&readings.manufacturer),
                model_name: read_text_or_unknown(&readings.model_name),
                technology: read_text_or_unknown(&readings.technology),
                status,
                capacity_percent: match parse_reading_u8(&readings.capacity) {
                    Some(v) => v,
                    None => 0,
                },
                capacity_level: read_text_or_unknown(&readings.capacity_level),
                charge_now,
                charge_full,
                charge_full_design: parse_reading_or(&charge_full_pair_design(&readings), 1),
                current_now,
                voltage_now: parse_reading_or(&readings.voltage_now, 0),
                cycle_count,
                time_remaining_minutes,
                charge_start_threshold: parse_reading_u8(&start_pair),
                charge_stop_threshold: parse_reading_u8(&stop_pair),
                alarm: parse_reading(&readings.alarm),
                service_active: readings.service_active,
            },
        )
    }
}

/// `x` clipped to the range of a `u64`.
pub open spec fn clip_u64(x: int) -> u64 {
    if x > u64::MAX {
        u64::MAX
    } else {
        x as u64
    }
}

/// Health in tenths of a percent: the full charge over the design charge,
/// rounded to the nearest tenth; a zero design charge counts as full health.
pub open spec fn health_tenths_spec(charge_full: u64, charge_full_design: u64) -> int {
    if charge_full_design > 0 {
        (charge_full * 1000 + charge_full_design / 2) / (charge_full_design as int)
    } else {
        1000
    }
}

/// Health reaches `pct` percent: the exact rational comparison of the full
/// charge against the design charge.
pub open spec fn health_at_least(charge_full: u64, charge_full_design: u64, pct: int) -> bool {
    charge_full_design == 0 || charge_full * 100 >= pct * charge_full_design
}

/// What [`BatteryInfo::get_status_markup`] returns for a status string,
/// capacity and language.
pub open spec fn status_markup_spec(status: Seq<char>, capacity: u8, lang: Language) -> Seq<char> {
    if status == "Charging"@ {
        "<span size='xx-large' weight='bold'>\u{26a1} "@ + translation(lang, "charging"@)
            + "</span>"@
    } else if status == "Discharging"@ {
        "<span size='xx-large' weight='bold'>\u{1f50b} "@ + translation(lang, "discharging"@)
            + "</span>"@
    } else if status == "Full"@ {
        "<span size='xx-large' weight='bold'>\u{2713} "@ + translation(lang, "full"@) + "</span>"@
    } else if status == "Not charging"@ {
        if capacity >= 100 {
            "<span size='xx-large' weight='bold'>\u{2713} "@ + translation(lang, "full"@)
                + "</span>"@
        } else {
            "<span size='xx-large' weight='bold'>\u{23f8}\u{fe0f} "@ + translation(
                lang,
                "not_charging"@,
            ) + "</span>"@
        }
    } else {
        "<span size='xx-large' weight='bold'>? "@ + translation(lang, "unknown"@) + "</span>"@
    }
}

/// What [`BatteryInfo::time_remaining_formatted`] returns: hours, a
/// two-digit minute count and the phrase for the charge direction.
pub open spec fn time_remaining_text_spec(status: Seq<char>, minutes: u32) -> Seq<char> {
    "\u{23f1} "@ + dec_str((minutes / 60) as nat) + "h"@ + dec2_str((minutes % 60) as nat) + (
    if status == "Charging"@ {
        " jusqu'\u{e0} plein"@
    } else {
        " restant"@
    })
}

impl BatteryInfo {
    /// Markup for the charge status: an icon and the translated word, with
    /// a full-looking battery that reports `Not charging` shown as full.
    pub fn get_status_markup(&self, lang: &LangState) -> (r: String)
        ensures
            r@ == status_markup_spec(self.status@, self.capacity_percent, lang.lang),
    {
        let word: String;
        let icon: &'static str;
        if str_eq(self.status.as_str(), "Charging") {
            icon = "<span size='xx-large' weight='bold'>\u{26a1} ";
            word = crate::i18n::t(lang, "charging");
        } else if str_eq(self.status.as_str(), "Discharging") {
            icon = "<span size='xx-large' weight='bold'>\u{1f50b} ";
            word = crate::i18n::t(lang, "discharging");
        } else if str_eq(self.status.as_str(), "Full") {
            icon = "<span size='xx-large' weight='bold'>\u{2713} ";
            word = crate::i18n::t(lang, "full");
        } else if str_eq(self.status.as_str(), "Not charging") {
            if self.capacity_percent >= 100 {
                icon = "<span size='xx-large' weight='bold'>\u{2713} ";
                word = crate::i18n::t(lang, "full");
            } else {
                icon = "<span size='xx-large' weight='bold'>\u{23f8}\u{fe0f} ";
                word = crate::i18n::t(lang, "not_charging");
            }
        } else {
            icon = "<span size='xx-large' weight='bold'>? ";
            word = crate::i18n::t(lang, "unknown");
        }
        let mut out = String::from_str(icon);
        out.append(word.as_str());
        out.append("</span>");
        out
    }

    /// CSS class for the charge status: charging is a success, full or
    /// holding is primary, anything else a warning.
    pub fn get_status_css_class(&self) -> (r: &'static str)
        ensures
            r@ == (if self.status@ == "Charging"@ {
                "color-success"@
            } else if self.status@ == "Full"@ || self.status@ == "Not charging"@ {
                "color-primary"@
            } else {
                "color-warning"@
            }),
    {
        if str_eq(self.status.as_str(), "Charging") {
            "color-success"
        } else if str_eq(self.status.as_str(), "Full") || str_eq(
            self.status.as_str(),
            "Not charging",
        ) {
            "color-primary"
        } else {
            "color-warning"
        }
    }

    /// CSS class for battery health: success from 80 percent, warning from
    /// 60, danger below, by the exact rational comparison.
    pub fn get_health_css_class(&self) -> (r: &'static str)
        ensures
            health_at_least(self.charge_full, self.charge_full_design, 80) ==> r@
                == "color-success"@,
            !health_at_least(self.charge_full, self.charge_full_design, 80) && health_at_least(
                self.charge_full,
                self.charge_full_design,
                60,
            ) ==> r@ == "color-warning"@,
            !health_at_least(self.charge_full, self.charge_full_design, 60) ==> r@
                == "color-danger"@,
    {
        let cf = self.charge_full as u128;
        let cfd = self.charge_full_design as u128;
        if cfd == 0 || cf * 100 >= 80 * cfd {
            "color-success"
        } else if cf * 100 >= 60 * cfd {
            "color-warning"
        } else {
            "color-danger"
        }
    }

    /// Health in tenths of a percent, rounded to the nearest tenth.
    pub fn health_tenths_percent(&self) -> (r: u64)
        ensures
            r == clip_u64(health_tenths_spec(self.charge_full, self.charge_full_design)),
    {
        if self.charge_full_design == 0 {
            return 1000;
        }
        let t: u128 = ((self.charge_full as u128) * 1000 + (self.charge_full_design as u128) / 2)
            / (self.charge_full_design as u128);
        if t > u64::MAX as u128 {
            u64::MAX
        } else {
            t as u64
        }
    }

    /// Wear in tenths of a percent: a thousand minus the health, clipped
    /// to the range of an `i64`.
    pub fn wear_tenths_percent(&self) -> (r: i64)
        ensures
            r as int == (if 1000 - health_tenths_spec(self.charge_full, self.charge_full_design)
                < i64::MIN {
                i64::MIN as int
            } else {
                1000 - health_tenths_spec(self.charge_full, self.charge_full_design)
            }),
    {
        let h = self.health_tenths_percent();
        if h <= 1000 {
            (1000 - h) as i64
        } else if h - 1000 <= i64::MAX as u64 {
            -((h - 1000) as i64)
        } else {
            i64::MIN
        }
    }

    /// Current in milliamperes, the kernel's microamperes divided down.
    pub fn current_ma(&self) -> (r: u64)
        ensures
            r == self.current_now / 1000,
    {
        self.current_now / 1000
    }

    /// Present charge in milliampere-hours.
    pub fn charge_now_mah(&self) -> (r: u64)
        ensures
            r == self.charge_now / 1000,
    {
        self.charge_now / 1000
    }

    /// Full charge in milliampere-hours.
    pub fn charge_full_mah(&self) -> (r: u64)
        ensures
            r == self.charge_full / 1000,
    {
        self.charge_full / 1000
    }

    /// Design charge in milliampere-hours.
    pub fn charge_full_design_mah(&self) -> (r: u64)
        ensures
            r == self.charge_full_design / 1000,
    {
        self.charge_full_design / 1000
    }

    /// Power draw in centiwatts, voltage times current rounded to the
    /// nearest hundredth of a watt.
    pub fn power_centiwatts(&self) -> (r: u64)
        ensures
            r == clip_u64(
                (self.voltage_now * self.current_now + 5_000_000_000) / 10_000_000_000,
            ),
    {
        proof {
            let v = self.voltage_now as int;
            let c = self.current_now as int;
            assert(v * c <= 0xffff_ffff_ffff_ffff * 0xffff_ffff_ffff_ffff) by (nonlinear_arith)
                requires
                    0 <= v <= 0xffff_ffff_ffff_ffff,
                    0 <= c <= 0xffff_ffff_ffff_ffff,
            ;
        }
        let p: u128 = ((self.voltage_now as u128) * (self.current_now as u128) + 5_000_000_000)
            / 10_000_000_000;
        if p > u64::MAX as u128 {
            u64::MAX
        } else {
            p as u64
        }
    }

    /// Voltage in centivolts, rounded to the nearest hundredth of a volt.
    pub fn voltage_centivolts(&self) -> (r: u64)
        ensures
            r == (self.voltage_now + 5000) / 10000,
    {
        let v: u128 = ((self.voltage_now as u128) + 5000) / 10000;
        v as u64
    }

    /// Alarm level in tenths of a percent of the full charge; nothing when
    /// no alarm is set or the full charge is zero.
    pub fn alarm_tenths_percent(&self) -> (r: Option<u64>)
        ensures
            (self.alarm is Some && self.charge_full > 0) <==> r is Some,
            r is Some ==> r->0 == clip_u64(
                (self.alarm->0 * 1000 + self.charge_full / 2) / (self.charge_full as int),
            ),
    {
        match self.alarm {
            Some(a) => {
                if self.charge_full == 0 {
                    return None;
                }
                let t: u128 = ((a as u128) * 1000 + (self.charge_full as u128) / 2) / (
                self.charge_full as u128);
                if t > u64::MAX as u128 {
                    Some(u64::MAX)
                } else {
                    Some(t as u64)
                }
            },
            None => None,
        }
    }

    /// The remaining time as hours and zero-padded minutes with the phrase
    /// for the charge direction; nothing when no estimate exists.
    pub fn time_remaining_formatted(&self) -> (r: Option<String>)
        ensures
            r is Some <==> self.time_remaining_minutes is Some,
            r is Some ==> r->0@ == time_remaining_text_spec(
                self.status@,
                self.time_remaining_minutes->0,
            ),
    {
        match self.time_remaining_minutes {
            Some(minutes) => {
                let hours = u64_to_string((minutes / 60) as u64);
                let mins = u64_to_string_pad2((minutes % 60) as u64);
                let mut out = String::from_str("\u{23f1} ");
                out.append(hours.as_str());
                out.append("h");
                out.append(mins.as_str());
                if str_eq(self.status.as_str(), "Charging") {
                    out.append(" jusqu'\u{e0} plein");
                } else {
                    out.append(" restant");
                }
                Some(out)
            },
            None => None,
        }
    }

    /// Markup for the restore service: `Actif` when it runs, `Inactif`
    /// otherwise.
    pub fn service_status_markup(&self) -> (r: String)
        ensures
            self.service_active ==> r@ == "<span size='xx-large' weight='bold'>Actif</span>"@,
            !self.service_active ==> r@ == "<span size='xx-large' weight='bold'>Inactif</span>"@,
    {
        if self.service_active {
            String::from_str("<span size='xx-large' weight='bold'>Actif</span>")
        } else {
            String::from_str("<span size='xx-large' weight='bold'>Inactif</span>")
        }
    }

    /// CSS class for the restore service: success when active, danger when
    /// not.
    pub fn service_status_css_class(&self) -> (r: &'static str)
        ensures
            self.service_active ==> r@ == "color-success"@,
            !self.service_active ==> r@ == "color-danger"@,
    {
        if self.service_active {
            "color-success"
        } else {
            "color-danger"
        }
    }
}

/// Kept by the battery scan: the name carries the `BAT` prefix.
pub open spec fn battery_name_filter() -> spec_fn(String) -> bool {
    |s: String| seq_starts_with(s@, "BAT"@)
}

/// The names are in ascending lexicographic order.
pub open spec fn sorted_by_name(s: Seq<String>) -> bool {
    forall|i: int, j: int| 0 <= i < j < s.len() ==> !lex_lt(#[trigger] s[j]@, #[trigger] s[i]@)
}

fn insert_sorted(v: &mut Vec<String>, x: String)
    requires
        sorted_by_name(old(v)@),
    ensures
        sorted_by_name(final(v)@),
        final(v)@.to_multiset() == old(v)@.to_multiset().insert(x),
{
    broadcast use vstd::seq_lib::to_multiset_insert;

    let n = v.len();
    let mut idx: usize = 0;
    while idx < n && !str_lt(x.as_str(), v[idx as usize].as_str())
        invariant
            n == v@.len(),
            0 <= idx <= n,
            forall|k: int| 0 <= k < idx ==> !lex_lt(x@, #[trigger] v@[k]@),
        decreases n - idx,
    {
        idx += 1;
    }
    let ghost s_old = v@;
    let ghost at = idx as int;
    v.insert(idx, x);
    proof {
        let s2 = v@;
        assert(s2 == s_old.insert(at, x));
        assert forall|i: int, j: int| 0 <= i < j < s2.len() implies !lex_lt(
            #[trigger] s2[j]@,
            #[trigger] s2[i]@,
        ) by {
            if j < at {
                assert(s2[i] == s_old[i] && s2[j] == s_old[j]);
            } else if i < at && j == at {
                assert(s2[i] == s_old[i] && s2[j] == x);
            } else if i < at && j > at {
                assert(s2[i] == s_old[i] && s2[j] == s_old[j - 1]);
            } else if i == at {
                assert(s2[i] == x && s2[j] == s_old[j - 1]);
                assert(at < s_old.len() && lex_lt(x@, s_old[at]@));
                if lex_lt(s_old[j - 1]@, x@) {
                    crate::text::lemma_lex_trans(s_old[j - 1]@, x@, s_old[at]@);
                    if j - 1 == at {
                        crate::text::lemma_lex_irrefl(s_old[at]@);
                    }
                }
            } else {
                assert(s2[i] == s_old[i - 1] && s2[j] == s_old[j - 1]);
            }
        }
    }
}

/// The names of the batteries among the scanned entries: exactly those
/// with the `BAT` prefix, in ascending lexicographic order.
pub fn select_batteries(names: Vec<String>) -> (r: Vec<String>)
    ensures
        sorted_by_name(r@),
        r@.to_multiset() == names@.filter(battery_name_filter()).to_multiset(),
{
    broadcast use vstd::seq_lib::group_to_multiset_ensures, vstd::prelude::Seq::lemma_filter_push;

    let n = names.len();
    let mut out: Vec<String> = Vec::new();
    let mut i: usize = 0;
    while i < n
        invariant
            n == names@.len(),
            0 <= i <= n,
            sorted_by_name(out@),
            out@.to_multiset() == names@.subrange(0, i as int).filter(
                battery_name_filter(),
            ).to_multiset(),
        decreases n - i,
    {
        let nm = names[i].clone();
        let ghost pred = battery_name_filter();
        let ghost prefix = names@.subrange(0, i as int);
        let ghost elem = names@[i as int];
        proof {
            assert(names@.subrange(0, i + 1) =~= prefix.push(elem));
            prefix.lemma_filter_push(elem, pred);
            assert(pred(elem) == seq_starts_with(elem@, "BAT"@));
        }
        if starts_with(nm.as_str(), "BAT") {
            insert_sorted(&mut out, nm);
            proof {
                vstd::seq_lib::to_multiset_build(prefix.filter(pred), elem);
            }
        }
        i += 1;
    }
    proof {
        assert(names@.subrange(0, n as int) =~= names@);
    }
    out
}

fn first_present_exec(a: &Option<String>, b: &Option<String>) -> (r: Option<String>)
    ensures
        r == first_present(*a, *b),
{
    match a {
        Some(s) => Some(s.clone()),
        None => match b {
            Some(s) => Some(s.clone()),
            None => None,
        },
    }
}

fn charge_full_pair_design(readings: &BatteryReadings) -> (r: Option<String>)
    ensures
        r == first_present(readings.charge_full_design, readings.energy_full_design),
{
    first_present_exec(&readings.charge_full_design, &readings.energy_full_design)
}

fn compute_time_remaining(status: &str, charge_now: u64, charge_full: u64, current_now: u64) -> (r:
    Option<u32>)
    ensures
        r == time_remaining_spec(status@, charge_now, charge_full, current_now),
{
    if current_now == 0 {
        return None;
    }
    if str_eq(status, "Discharging") {
        let total: u128 = (charge_now as u128) * 60 / (current_now as u128);
        if total > u32::MAX as u128 {
            Some(u32::MAX)
        } else {
            Some(total as u32)
        }
    } else if str_eq(status, "Charging") {
        let missing: u128 = if charge_full > charge_now {
            (charge_full - charge_now) as u128
        } else {
            0
        };
        let total: u128 = missing * 60 / (current_now as u128);
        if total > u32::MAX as u128 {
            Some(u32::MAX)
        } else {
            Some(total as u32)
        }
    } else {
        None
    }
}

} // verus!
