//! Wireless peripheral batteries: assembling one device from its sysfs
//! files, the stable identity used to match a device across name churn,
//! the additive score that ranks duplicate entries, and the de-duplication
//! that keeps the best entry per identity.
//!
//! Listing the power-supply directory and reading the files belong to the
//! front-end; this module gets the raw contents.

use vstd::prelude::*;
use vstd::string::StringExecFns;

use crate::text::{
    contains, dec2_str, dec_str, eq_ignore_ascii_case, lex_lt, lower_seq, parse_u64_spec,
    seq_contains, seq_starts_with, starts_with, str_eq, str_lt, trim, trim_spec, u64_to_string,
    u64_to_string_pad2,
};

verus! {

/// Raw contents of the sysfs files of one peripheral power-supply entry,
/// `None` where a file could not be read.
pub struct PeripheralReadings {
    pub manufacturer: Option<String>,
    pub model_name: Option<String>,
    pub status: Option<String>,
    pub capacity: Option<String>,
    pub voltage_now: Option<String>,
    pub serial_number: Option<String>,
    pub online: Option<String>,
    pub device_type: Option<String>,
    pub scope: Option<String>,
}

/// Battery state of one wireless peripheral, read-only.
#[derive(Debug, Clone)]
pub struct PeripheralBattery {
    pub name: String,
    pub manufacturer: String,
    pub model_name: String,
    pub status: String,
    pub capacity_percent: u8,
    pub voltage_now: Option<u64>,
    pub serial_number: Option<String>,
    pub online: bool,
    pub device_type: String,
    pub scope: String,
}

/// The trimmed text of a reading, `Unknown` when the file was missing.
pub open spec fn text_or_unknown(r: Option<String>) -> Seq<char> {
    match r {
        Some(s) => trim_spec(s@),
        None => "Unknown"@,
    }
}

/// The reading parsed as a number after trimming, nothing when missing
/// or unparsable.
pub open spec fn parsed_opt(r: Option<String>) -> Option<u64> {
    match r {
        Some(s) => parse_u64_spec(trim_spec(s@)),
        None => None,
    }
}

/// The reading parsed as a `u8`, or `default` when that fails.
pub open spec fn parsed_u8_or(r: Option<String>, default: u8) -> u8 {
    match parsed_opt(r) {
        Some(v) => if v <= u8::MAX as u64 {
            v as u8
        } else {
            default
        },
        None => default,
    }
}

/// The de-duplication score of a device: online counts 16, a voltage
/// reading 8, a positive capacity 4, a known status 2, and charging 2
/// more.
#[verifier::opaque]
pub open spec fn score_spec(d: PeripheralBattery) -> int {
    (if d.online {
        16int
    } else {
        0int
    }) + (if d.voltage_now is Some {
        8int
    } else {
        0int
    }) + (if d.capacity_percent > 0 {
        4int
    } else {
        0int
    }) + (if lower_seq(trim_spec(d.status@)) != lower_seq("Unknown"@) {
        2int
    } else {
        0int
    }) + (if lower_seq(trim_spec(d.status@)) == lower_seq("Charging"@) {
        2int
    } else {
        0int
    })
}

/// The identity under which entries are matched across refreshes: the
/// serial number when usable, else manufacturer and model, else the raw
/// entry name.
#[verifier::opaque]
pub open spec fn stable_id_spec(d: PeripheralBattery) -> Seq<char> {
    let serial = match d.serial_number {
        Some(s) => trim_spec(s@),
        None => Seq::<char>::empty(),
    };
    if serial.len() > 0 && serial != "Unknown"@ {
        "serial:"@ + serial
    } else {
        let manufacturer = trim_spec(d.manufacturer@);
        let model = trim_spec(d.model_name@);
        if manufacturer != "Unknown"@ && model != "Unknown"@ {
            "mm:"@ + manufacturer + "|"@ + model
        } else {
            "name:"@ + d.name@
        }
    }
}

/// The directory entry names that count as peripherals.
pub open spec fn is_peripheral_name_spec(name: Seq<char>) -> bool {
    seq_starts_with(name, "hidpp_battery_"@) || seq_starts_with(name, "hid-"@) || seq_contains(
        name,
        "mouse"@,
    ) || seq_contains(name, "keyboard"@)
}

/// A power-supply entry name denotes a peripheral: an HID battery or a
/// name mentioning a mouse or keyboard.
pub fn is_peripheral_name(name: &str) -> (r: bool)
    ensures
        r == is_peripheral_name_spec(name@),
{
    starts_with(name, "hidpp_battery_") || starts_with(name, "hid-") || contains(name, "mouse")
        || contains(name, "keyboard")
}

impl PeripheralBattery {
    /// Assembles one peripheral from the raw file contents of its entry:
    /// missing texts fall back to `Unknown`, a missing or unparsable
    /// capacity to zero, and the device is online when its `online` file
    /// parses to one.
    pub fn new(device_name: &str, readings: PeripheralReadings) -> (r: Self)
        ensures
            r.name@ == device_name@,
            r.manufacturer@ == text_or_unknown(readings.manufacturer),
            r.model_name@ == text_or_unknown(readings.model_name),
            r.status@ == text_or_unknown(readings.status),
            r.capacity_percent == parsed_u8_or(readings.capacity, 0),
            r.voltage_now == parsed_opt(readings.voltage_now),
            r.serial_number is Some <==> readings.serial_number is Some,
            r.serial_number is Some ==> r.serial_number->0@ == trim_spec(
                readings.serial_number->0@,
            ),
            r.online == (parsed_u8_or(readings.online, 0) == 1),
            r.device_type@ == text_or_unknown(readings.device_type),
            r.scope@ == text_or_unknown(readings.scope),
    {
        PeripheralBattery {
            name: String::from_str(device_name),
            manufacturer: read_text_or_unknown(&readings.manufacturer),
            model_name: read_text_or_unknown(&readings.model_name),
            status: read_text_or_unknown(&readings.status),
            capacity_percent: parse_reading_u8_or(&readings.capacity, 0),
            voltage_now: parse_reading_opt(&readings.voltage_now),
            serial_number: match &readings.serial_number {
                Some(s) => Some(String::from_str(trim(s.as_str()))),
                None => None,
            },
            online: parse_reading_u8_or(&readings.online, 0) == 1,
            device_type: read_text_or_unknown(&readings.device_type),
            scope: read_text_or_unknown(&readings.scope),
        }
    }

    /// The additive ranking of duplicate entries for one device.
    pub fn dedupe_score(&self) -> (r: u32)
        ensures
            r == score_spec(*self),
    {
        proof {
            reveal(score_spec);
        }
        let mut value: u32 = 0;
        if self.online {
            value = value + 16;
        }
        if self.voltage_now.is_some() {
            value = value + 8;
        }
        if self.capacity_percent > 0 {
            value = value + 4;
        }
        if !eq_ignore_ascii_case(trim(self.status.as_str()), "Unknown") {
            value = value + 2;
        }
        if eq_ignore_ascii_case(trim(self.status.as_str()), "Charging") {
            value = value + 2;
        }
        value
    }

    /// The identity used to match this device across name churn.
    pub fn stable_id(&self) -> (r: String)
        ensures
            r@ == stable_id_spec(*self),
    {
        proof {
            reveal(stable_id_spec);
        }
        let serial: &str = match &self.serial_number {
            Some(s) => trim(s.as_str()),
            None => "",
        };
        proof {
            reveal_strlit("");
        }
        if !serial.is_empty() && !str_eq(serial, "Unknown") {
            let mut out = String::from_str("serial:");
            out.append(serial);
            return out;
        }
        let manufacturer = trim(self.manufacturer.as_str());
        let model = trim(self.model_name.as_str());
        if !str_eq(manufacturer, "Unknown") && !str_eq(model, "Unknown") {
            let mut out = String::from_str("mm:");
            out.append(manufacturer);
            out.append("|");
            out.append(model);
            return out;
        }
        let mut out = String::from_str("name:");
        out.append(self.name.as_str());
        out
    }

    /// Best-effort connection state: online, or any reading that only a
    /// present device gives.
    pub fn is_connected(&self) -> (r: bool)
        ensures
            r == (self.online || self.voltage_now is Some || self.capacity_percent > 0 || (
            trim_spec(self.status@).len() > 0 && lower_seq(trim_spec(self.status@)) != lower_seq(
                "Unknown"@,
            ))),
    {
        if self.online {
            return true;
        }
        if self.voltage_now.is_some() {
            return true;
        }
        if self.capacity_percent > 0 {
            return true;
        }
        let status = trim(self.status.as_str());
        !status.is_empty() && !eq_ignore_ascii_case(status, "Unknown")
    }

    /// CSS class for the capacity: success from 80 percent, warning from
    /// 20, danger below.
    pub fn get_capacity_css_class(&self) -> (r: &'static str)
        ensures
            r@ == (if self.capacity_percent >= 80 {
                "color-success"@
            } else if self.capacity_percent >= 20 {
                "color-warning"@
            } else {
                "color-danger"@
            }),
    {
        if self.capacity_percent >= 80 {
            "color-success"
        } else if self.capacity_percent >= 20 {
            "color-warning"
        } else {
            "color-danger"
        }
    }

    /// The voltage as volts with two decimals and a unit, `N/A` without a
    /// reading.
    pub fn get_voltage_string(&self) -> (r: String)
        ensures
            self.voltage_now is None ==> r@ == "N/A"@,
            self.voltage_now is Some ==> r@ == ({
                let cv = (self.voltage_now->0 + 5000) / 10000;
                dec_str((cv / 100) as nat) + "."@ + dec2_str((cv % 100) as nat) + " V"@
            }),
    {
        match self.voltage_now {
            Some(v) => {
                let cv_wide: u128 = ((v as u128) + 5000) / 10000;
                let cv: u64 = cv_wide as u64;
                let mut out = u64_to_string(cv / 100);
                out.append(".");
                let frac = u64_to_string_pad2(cv % 100);
                out.append(frac.as_str());
                out.append(" V");
                out
            },
            None => String::from_str("N/A"),
        }
    }

    /// The icon for the device: a mouse or keyboard when the entry name or
    /// model says so, a plain battery otherwise.
    pub fn get_device_icon(&self) -> (r: &'static str)
        ensures
            r@ == (if seq_contains(lower_seq(self.name@), "mouse"@) || seq_contains(
                lower_seq(self.model_name@),
                "mouse"@,
            ) {
                "\u{1f5b1}\u{fe0f}"@
            } else if seq_contains(lower_seq(self.name@), "keyboard"@) || seq_contains(
                lower_seq(self.model_name@),
                "keyboard"@,
            ) {
                "\u{2328}\u{fe0f}"@
            } else {
                "\u{1f50b}"@
            }),
    {
        let name_lower = crate::text::to_ascii_lower(self.name.as_str());
        let model_lower = crate::text::to_ascii_lower(self.model_name.as_str());
        if contains(name_lower.as_str(), "mouse") || contains(model_lower.as_str(), "mouse") {
            "\u{1f5b1}\u{fe0f}"
        } else if contains(name_lower.as_str(), "keyboard") || contains(
            model_lower.as_str(),
            "keyboard",
        ) {
            "\u{2328}\u{fe0f}"
        } else {
            "\u{1f50b}"
        }
    }

    /// CSS class for the status: charging is primary, full a success,
    /// anything else a warning.
    pub fn get_status_css_class(&self) -> (r: &'static str)
        ensures
            r@ == (if lower_seq(self.status@) == lower_seq("Charging"@) {
                "color-primary"@
            } else if lower_seq(self.status@) == lower_seq("Full"@) {
                "color-success"@
            } else {
                "color-warning"@
            }),
    {
        if eq_ignore_ascii_case(self.status.as_str(), "Charging") {
            "color-primary"
        } else if eq_ignore_ascii_case(self.status.as_str(), "Full") {
            "color-success"
        } else {
            "color-warning"
        }
    }
}

/// `a` displaces `b` as the kept entry of an identity: a strictly higher
/// score, or an equal score and a strictly smaller entry name.
pub open spec fn displaces(a: PeripheralBattery, b: PeripheralBattery) -> bool {
    score_spec(a) > score_spec(b) || (score_spec(a) == score_spec(b) && lex_lt(a.name@, b.name@))
}

proof fn lemma_not_displaces_self(d: PeripheralBattery)
    ensures
        !displaces(d, d),
{
    crate::text::lemma_lex_irrefl(d.name@);
}

proof fn lemma_displaces_replace(k: PeripheralBattery, prev: PeripheralBattery, d: PeripheralBattery)
    requires
        !displaces(k, prev),
        displaces(d, prev),
    ensures
        !displaces(k, d),
{
    if score_spec(d) == score_spec(prev) && score_spec(k) == score_spec(d) {
        if lex_lt(k.name@, d.name@) {
            crate::text::lemma_lex_trans(k.name@, d.name@, prev.name@);
        }
    }
}

/// The kept identities are strictly ascending.
pub open spec fn ids_ascending(out: Seq<PeripheralBattery>) -> bool {
    forall|a: int, b: int|
        0 <= a < b < out.len() ==> lex_lt(
            stable_id_spec(#[trigger] out[a]),
            stable_id_spec(#[trigger] out[b]),
        )
}

/// Every kept device is one of those seen.
pub open spec fn kept_from(out: Seq<PeripheralBattery>, seen: Seq<PeripheralBattery>) -> bool {
    forall|a: int| 0 <= a < out.len() ==> seen.contains(#[trigger] out[a])
}

/// Every seen identity is represented among the kept devices.
pub open spec fn ids_covered(out: Seq<PeripheralBattery>, seen: Seq<PeripheralBattery>) -> bool {
    forall|k: int|
        0 <= k < seen.len() ==> exists|a: int|
            0 <= a < out.len() && stable_id_spec(#[trigger] seen[k]) == stable_id_spec(out[a])
}

/// No seen device displaces the kept device of its identity.
pub open spec fn kept_best(out: Seq<PeripheralBattery>, seen: Seq<PeripheralBattery>) -> bool {
    forall|a: int, k: int|
        0 <= a < out.len() && 0 <= k < seen.len() && stable_id_spec(#[trigger] seen[k])
            == stable_id_spec(#[trigger] out[a]) ==> !displaces(seen[k], out[a])
}

/// The de-duplication relation between the kept devices and the devices
/// seen so far, and the contract of [`dedupe`] as a whole.
pub open spec fn dedupe_inv(out: Seq<PeripheralBattery>, seen: Seq<PeripheralBattery>) -> bool {
    &&& ids_ascending(out)
    &&& kept_from(out, seen)
    &&& ids_covered(out, seen)
    &&& kept_best(out, seen)
}

proof fn lemma_ids_distinct(out: Seq<PeripheralBattery>, a: int, b: int)
    requires
        ids_ascending(out),
        0 <= a < out.len(),
        0 <= b < out.len(),
        a != b,
    ensures
        stable_id_spec(out[a]) != stable_id_spec(out[b]),
{
    if a < b {
        crate::text::lemma_lex_irrefl(stable_id_spec(out[a]));
    } else {
        crate::text::lemma_lex_irrefl(stable_id_spec(out[b]));
    }
}

proof fn lemma_updated_ascending(
    prev: Seq<PeripheralBattery>,
    cur: Seq<PeripheralBattery>,
    d: PeripheralBattery,
    at: int,
)
    requires
        ids_ascending(prev),
        0 <= at < prev.len(),
        cur.len() == prev.len(),
        cur[at] == d,
        stable_id_spec(d) == stable_id_spec(prev[at]),
        forall|a: int| 0 <= a < cur.len() && a != at ==> #[trigger] cur[a] == prev[a],
    ensures
        ids_ascending(cur),
{
    assert forall|a: int, b: int| 0 <= a < b < cur.len() implies lex_lt(
        stable_id_spec(#[trigger] cur[a]),
        stable_id_spec(#[trigger] cur[b]),
    ) by {
        assert(stable_id_spec(cur[a]) == stable_id_spec(prev[a]));
        assert(stable_id_spec(cur[b]) == stable_id_spec(prev[b]));
    }
}

proof fn lemma_updated_kept_from(
    prev: Seq<PeripheralBattery>,
    cur: Seq<PeripheralBattery>,
    seen: Seq<PeripheralBattery>,
    sd: Seq<PeripheralBattery>,
    d: PeripheralBattery,
    at: int,
)
    requires
        kept_from(prev, seen),
        0 <= at < prev.len(),
        cur.len() == prev.len(),
        cur[at] == d,
        forall|a: int| 0 <= a < cur.len() && a != at ==> #[trigger] cur[a] == prev[a],
        sd.len() == seen.len() + 1,
        sd[seen.len() as int] == d,
        forall|k: int| 0 <= k < seen.len() ==> #[trigger] sd[k] == seen[k],
    ensures
        kept_from(cur, sd),
{
    assert forall|a: int| 0 <= a < cur.len() implies sd.contains(#[trigger] cur[a]) by {
        if a == at {
            assert(sd[seen.len() as int] == cur[a]);
        } else {
            assert(cur[a] == prev[a]);
            let k = choose|k: int| 0 <= k < seen.len() && seen[k] == prev[a];
            assert(sd[k] == cur[a]);
        }
    }
}

proof fn lemma_updated_covered(
    prev: Seq<PeripheralBattery>,
    cur: Seq<PeripheralBattery>,
    seen: Seq<PeripheralBattery>,
    sd: Seq<PeripheralBattery>,
    d: PeripheralBattery,
    at: int,
)
    requires
        ids_covered(prev, seen),
        0 <= at < prev.len(),
        cur.len() == prev.len(),
        cur[at] == d,
        stable_id_spec(d) == stable_id_spec(prev[at]),
        forall|a: int| 0 <= a < cur.len() && a != at ==> #[trigger] cur[a] == prev[a],
        sd.len() == seen.len() + 1,
        sd[seen.len() as int] == d,
        forall|k: int| 0 <= k < seen.len() ==> #[trigger] sd[k] == seen[k],
    ensures
        ids_covered(cur, sd),
{
    assert forall|k: int| 0 <= k < sd.len() implies exists|a: int|
        0 <= a < cur.len() && stable_id_spec(#[trigger] sd[k]) == stable_id_spec(cur[a]) by {
        if k < seen.len() {
            assert(sd[k] == seen[k]);
            let a = choose|a: int|
                0 <= a < prev.len() && stable_id_spec(seen[k]) == stable_id_spec(prev[a]);
            if a == at {
                assert(stable_id_spec(sd[k]) == stable_id_spec(cur[at]));
            } else {
                assert(cur[a] == prev[a]);
                assert(stable_id_spec(sd[k]) == stable_id_spec(cur[a]));
            }
        } else {
            assert(stable_id_spec(sd[k]) == stable_id_spec(cur[at]));
        }
    }
}

proof fn lemma_updated_best(
    prev: Seq<PeripheralBattery>,
    cur: Seq<PeripheralBattery>,
    seen: Seq<PeripheralBattery>,
    sd: Seq<PeripheralBattery>,
    d: PeripheralBattery,
    at: int,
)
    requires
        kept_best(prev, seen),
        ids_ascending(prev),
        0 <= at < prev.len(),
        cur.len() == prev.len(),
        cur[at] == d,
        stable_id_spec(d) == stable_id_spec(prev[at]),
        forall|a: int| 0 <= a < cur.len() && a != at ==> #[trigger] cur[a] == prev[a],
        sd.len() == seen.len() + 1,
        sd[seen.len() as int] == d,
        forall|k: int| 0 <= k < seen.len() ==> #[trigger] sd[k] == seen[k],
        forall|k: int|
            0 <= k < seen.len() && stable_id_spec(#[trigger] seen[k]) == stable_id_spec(d)
                ==> !displaces(seen[k], d),
    ensures
        kept_best(cur, sd),
{
    lemma_not_displaces_self(d);
    assert forall|a: int, k: int|
        0 <= a < cur.len() && 0 <= k < sd.len() && stable_id_spec(#[trigger] sd[k])
            == stable_id_spec(#[trigger] cur[a]) implies !displaces(sd[k], cur[a]) by {
        if a == at {
            if k < seen.len() {
                assert(sd[k] == seen[k]);
                assert(!displaces(seen[k], d));
            }
        } else {
            assert(cur[a] == prev[a]);
            if k < seen.len() {
                assert(sd[k] == seen[k]);
                assert(!displaces(seen[k], prev[a]));
            } else {
                lemma_ids_distinct(prev, a, at);
                assert(false);
            }
        }
    }
}

/// After a replacement the four relations hold of the updated result.
proof fn lemma_absorb_replaced(
    prev: Seq<PeripheralBattery>,
    cur: Seq<PeripheralBattery>,
    seen: Seq<PeripheralBattery>,
    sd: Seq<PeripheralBattery>,
    d: PeripheralBattery,
    at: int,
)
    requires
        dedupe_inv(prev, seen),
        0 <= at < prev.len(),
        cur == prev.update(at, d),
        sd == seen.push(d),
        stable_id_spec(d) == stable_id_spec(prev[at]),
        forall|k: int|
            0 <= k < seen.len() && stable_id_spec(#[trigger] seen[k]) == stable_id_spec(d)
                ==> !displaces(seen[k], d),
    ensures
        dedupe_inv(cur, sd),
{
    assert(cur.len() == prev.len());
    assert(cur[at] == d);
    assert(forall|a: int| 0 <= a < cur.len() && a != at ==> #[trigger] cur[a] == prev[a]);
    assert(sd.len() == seen.len() + 1);
    assert(sd[seen.len() as int] == d);
    assert(forall|k: int| 0 <= k < seen.len() ==> #[trigger] sd[k] == seen[k]);
    lemma_updated_ascending(prev, cur, d, at);
    lemma_updated_kept_from(prev, cur, seen, sd, d, at);
    lemma_updated_covered(prev, cur, seen, sd, d, at);
    lemma_updated_best(prev, cur, seen, sd, d, at);
}

proof fn lemma_push_kept_from(
    prev: Seq<PeripheralBattery>,
    seen: Seq<PeripheralBattery>,
    sd: Seq<PeripheralBattery>,
)
    requires
        kept_from(prev, seen),
        sd.len() == seen.len() + 1,
        forall|k: int| 0 <= k < seen.len() ==> #[trigger] sd[k] == seen[k],
    ensures
        kept_from(prev, sd),
{
    assert forall|a: int| 0 <= a < prev.len() implies sd.contains(#[trigger] prev[a]) by {
        let k = choose|k: int| 0 <= k < seen.len() && seen[k] == prev[a];
        assert(sd[k] == prev[a]);
    }
}

proof fn lemma_push_covered(
    prev: Seq<PeripheralBattery>,
    seen: Seq<PeripheralBattery>,
    sd: Seq<PeripheralBattery>,
    d: PeripheralBattery,
    at: int,
)
    requires
        ids_covered(prev, seen),
        0 <= at < prev.len(),
        stable_id_spec(d) == stable_id_spec(prev[at]),
        sd.len() == seen.len() + 1,
        sd[seen.len() as int] == d,
        forall|k: int| 0 <= k < seen.len() ==> #[trigger] sd[k] == seen[k],
    ensures
        ids_covered(prev, sd),
{
    assert forall|k: int| 0 <= k < sd.len() implies exists|a: int|
        0 <= a < prev.len() && stable_id_spec(#[trigger] sd[k]) == stable_id_spec(prev[a]) by {
        if k < seen.len() {
            assert(sd[k] == seen[k]);
        } else {
            assert(stable_id_spec(sd[k]) == stable_id_spec(prev[at]));
        }
    }
}

proof fn lemma_push_best(
    prev: Seq<PeripheralBattery>,
    seen: Seq<PeripheralBattery>,
    sd: Seq<PeripheralBattery>,
    d: PeripheralBattery,
    at: int,
)
    requires
        kept_best(prev, seen),
        ids_ascending(prev),
        0 <= at < prev.len(),
        stable_id_spec(d) == stable_id_spec(prev[at]),
        !displaces(d, prev[at]),
        sd.len() == seen.len() + 1,
        sd[seen.len() as int] == d,
        forall|k: int| 0 <= k < seen.len() ==> #[trigger] sd[k] == seen[k],
    ensures
        kept_best(prev, sd),
{
    assert forall|a: int, k: int|
        0 <= a < prev.len() && 0 <= k < sd.len() && stable_id_spec(#[trigger] sd[k])
            == stable_id_spec(#[trigger] prev[a]) implies !displaces(sd[k], prev[a]) by {
        if k < seen.len() {
            assert(sd[k] == seen[k]);
            assert(!displaces(seen[k], prev[a]));
        } else {
            assert(sd[k] == d);
            if a != at {
                lemma_ids_distinct(prev, a, at);
                assert(false);
            }
        }
    }
}

/// When the seen device loses, the result stands and the relations carry.
proof fn lemma_absorb_kept(
    prev: Seq<PeripheralBattery>,
    seen: Seq<PeripheralBattery>,
    sd: Seq<PeripheralBattery>,
    d: PeripheralBattery,
    at: int,
)
    requires
        dedupe_inv(prev, seen),
        0 <= at < prev.len(),
        sd == seen.push(d),
        stable_id_spec(d) == stable_id_spec(prev[at]),
        !displaces(d, prev[at]),
    ensures
        dedupe_inv(prev, sd),
{
    assert(sd.len() == seen.len() + 1);
    assert(sd[seen.len() as int] == d);
    assert(forall|k: int| 0 <= k < seen.len() ==> #[trigger] sd[k] == seen[k]);
    lemma_push_kept_from(prev, seen, sd);
    lemma_push_covered(prev, seen, sd, d, at);
    lemma_push_best(prev, seen, sd, d, at);
}

proof fn lemma_inserted_ascending(
    prev: Seq<PeripheralBattery>,
    cur: Seq<PeripheralBattery>,
    d: PeripheralBattery,
    at: int,
)
    requires
        ids_ascending(prev),
        0 <= at <= prev.len(),
        cur.len() == prev.len() + 1,
        cur[at] == d,
        forall|a: int| 0 <= a < at ==> #[trigger] cur[a] == prev[a],
        forall|a: int| at < a < cur.len() ==> #[trigger] cur[a] == prev[a - 1],
        forall|k: int| 0 <= k < at ==> lex_lt(stable_id_spec(#[trigger] prev[k]), stable_id_spec(d)),
        at < prev.len() ==> lex_lt(stable_id_spec(d), stable_id_spec(prev[at])),
    ensures
        ids_ascending(cur),
{
    assert forall|a: int, b: int| 0 <= a < b < cur.len() implies lex_lt(
        stable_id_spec(#[trigger] cur[a]),
        stable_id_spec(#[trigger] cur[b]),
    ) by {
        if b < at {
            assert(cur[a] == prev[a] && cur[b] == prev[b]);
        } else if a < at && b == at {
            assert(cur[a] == prev[a] && cur[b] == d);
        } else if a < at && b > at {
            assert(cur[a] == prev[a] && cur[b] == prev[b - 1]);
        } else if a == at {
            assert(cur[a] == d && cur[b] == prev[b - 1]);
            if b - 1 > at {
                crate::text::lemma_lex_trans(
                    stable_id_spec(d),
                    stable_id_spec(prev[at]),
                    stable_id_spec(prev[b - 1]),
                );
            }
        } else {
            assert(cur[a] == prev[a - 1] && cur[b] == prev[b - 1]);
        }
    }
}

proof fn lemma_inserted_fresh(prev: Seq<PeripheralBattery>, d: PeripheralBattery, at: int)
    requires
        ids_ascending(prev),
        0 <= at <= prev.len(),
        forall|k: int| 0 <= k < at ==> lex_lt(stable_id_spec(#[trigger] prev[k]), stable_id_spec(d)),
        at < prev.len() ==> lex_lt(stable_id_spec(d), stable_id_spec(prev[at])),
    ensures
        forall|a: int|
            0 <= a < prev.len() ==> stable_id_spec(#[trigger] prev[a]) != stable_id_spec(d),
{
    assert forall|a: int| 0 <= a < prev.len() implies stable_id_spec(#[trigger] prev[a])
        != stable_id_spec(d) by {
        if a < at {
            crate::text::lemma_lex_irrefl(stable_id_spec(prev[a]));
        } else if a == at {
            crate::text::lemma_lex_irrefl(stable_id_spec(d));
        } else {
            crate::text::lemma_lex_trans(
                stable_id_spec(d),
                stable_id_spec(prev[at]),
                stable_id_spec(prev[a]),
            );
            crate::text::lemma_lex_irrefl(stable_id_spec(d));
        }
    }
}

proof fn lemma_inserted_kept_from(
    prev: Seq<PeripheralBattery>,
    cur: Seq<PeripheralBattery>,
    seen: Seq<PeripheralBattery>,
    sd: Seq<PeripheralBattery>,
    d: PeripheralBattery,
    at: int,
)
    requires
        kept_from(prev, seen),
        0 <= at <= prev.len(),
        cur.len() == prev.len() + 1,
        cur[at] == d,
        forall|a: int| 0 <= a < at ==> #[trigger] cur[a] == prev[a],
        forall|a: int| at < a < cur.len() ==> #[trigger] cur[a] == prev[a - 1],
        sd.len() == seen.len() + 1,
        sd[seen.len() as int] == d,
        forall|k: int| 0 <= k < seen.len() ==> #[trigger] sd[k] == seen[k],
    ensures
        kept_from(cur, sd),
{
    assert forall|a: int| 0 <= a < cur.len() implies sd.contains(#[trigger] cur[a]) by {
        if a == at {
            assert(sd[seen.len() as int] == cur[a]);
        } else {
            let p = if a < at {
                a
            } else {
                a - 1
            };
            assert(cur[a] == prev[p]);
            let k = choose|k: int| 0 <= k < seen.len() && seen[k] == prev[p];
            assert(sd[k] == cur[a]);
        }
    }
}

proof fn lemma_inserted_covered(
    prev: Seq<PeripheralBattery>,
    cur: Seq<PeripheralBattery>,
    seen: Seq<PeripheralBattery>,
    sd: Seq<PeripheralBattery>,
    d: PeripheralBattery,
    at: int,
)
    requires
        ids_covered(prev, seen),
        0 <= at <= prev.len(),
        cur.len() == prev.len() + 1,
        cur[at] == d,
        forall|a: int| 0 <= a < at ==> #[trigger] cur[a] == prev[a],
        forall|a: int| at < a < cur.len() ==> #[trigger] cur[a] == prev[a - 1],
        sd.len() == seen.len() + 1,
        sd[seen.len() as int] == d,
        forall|k: int| 0 <= k < seen.len() ==> #[trigger] sd[k] == seen[k],
    ensures
        ids_covered(cur, sd),
{
    assert forall|k: int| 0 <= k < sd.len() implies exists|a: int|
        0 <= a < cur.len() && stable_id_spec(#[trigger] sd[k]) == stable_id_spec(cur[a]) by {
        if k < seen.len() {
            assert(sd[k] == seen[k]);
            assert(0 <= k < seen.len());
            let a = choose|a: int|
                0 <= a < prev.len() && stable_id_spec(seen[k]) == stable_id_spec(prev[a]);
            let a2 = if a < at {
                a
            } else {
                a + 1
            };
            if a2 == at {
                assert(false);
            }
            assert(cur[a2] == prev[a]);
            assert(stable_id_spec(sd[k]) == stable_id_spec(cur[a2]));
        } else {
            assert(stable_id_spec(sd[k]) == stable_id_spec(cur[at]));
        }
    }
}

proof fn lemma_inserted_best(
    prev: Seq<PeripheralBattery>,
    cur: Seq<PeripheralBattery>,
    seen: Seq<PeripheralBattery>,
    sd: Seq<PeripheralBattery>,
    d: PeripheralBattery,
    at: int,
)
    requires
        kept_best(prev, seen),
        ids_covered(prev, seen),
        0 <= at <= prev.len(),
        cur.len() == prev.len() + 1,
        cur[at] == d,
        forall|a: int| 0 <= a < at ==> #[trigger] cur[a] == prev[a],
        forall|a: int| at < a < cur.len() ==> #[trigger] cur[a] == prev[a - 1],
        sd.len() == seen.len() + 1,
        sd[seen.len() as int] == d,
        forall|k: int| 0 <= k < seen.len() ==> #[trigger] sd[k] == seen[k],
        forall|a: int|
            0 <= a < prev.len() ==> stable_id_spec(#[trigger] prev[a]) != stable_id_spec(d),
    ensures
        kept_best(cur, sd),
{
    lemma_not_displaces_self(d);
    assert forall|a: int, k: int|
        0 <= a < cur.len() && 0 <= k < sd.len() && stable_id_spec(#[trigger] sd[k])
            == stable_id_spec(#[trigger] cur[a]) implies !displaces(sd[k], cur[a]) by {
        if a == at {
            if k < seen.len() {
                assert(sd[k] == seen[k]);
                let b = choose|b: int|
                    0 <= b < prev.len() && stable_id_spec(seen[k]) == stable_id_spec(prev[b]);
                assert(false);
            }
        } else {
            let p = if a < at {
                a
            } else {
                a - 1
            };
            assert(cur[a] == prev[p]);
            if k >= seen.len() {
                assert(false);
            } else {
                assert(sd[k] == seen[k]);
                assert(!displaces(seen[k], prev[p]));
            }
        }
    }
}

/// A fresh identity takes its sorted place and the relations carry.
#[verifier::rlimit(100)]
#[verifier::spinoff_prover]
proof fn lemma_absorb_inserted(
    prev: Seq<PeripheralBattery>,
    cur: Seq<PeripheralBattery>,
    seen: Seq<PeripheralBattery>,
    sd: Seq<PeripheralBattery>,
    d: PeripheralBattery,
    at: int,
)
    requires
        dedupe_inv(prev, seen),
        0 <= at <= prev.len(),
        cur == prev.insert(at, d),
        sd == seen.push(d),
        forall|k: int| 0 <= k < at ==> lex_lt(stable_id_spec(#[trigger] prev[k]), stable_id_spec(d)),
        at < prev.len() ==> lex_lt(stable_id_spec(d), stable_id_spec(prev[at])),
    ensures
        dedupe_inv(cur, sd),
{
    prev.insert_ensures(at, d);
    assert(sd.len() == seen.len() + 1);
    assert(forall|k: int| 0 <= k < seen.len() ==> #[trigger] sd[k] == seen[k]);
    assert(sd[seen.len() as int] == d);
    assert(cur.len() == prev.len() + 1);
    assert(cur[at] == d);
    assert(forall|a: int| 0 <= a < at ==> #[trigger] cur[a] == prev[a]);
    assert(forall|a: int| at < a < cur.len() ==> #[trigger] cur[a] == prev[a - 1]);
    lemma_inserted_ascending(prev, cur, d, at);
    lemma_inserted_fresh(prev, d, at);
    lemma_inserted_kept_from(prev, cur, seen, sd, d, at);
    lemma_inserted_covered(prev, cur, seen, sd, d, at);
    lemma_inserted_best(prev, cur, seen, sd, d, at);
}

/// Works one device into the running result: it displaces the kept entry
/// of its identity or, for a fresh identity, takes its sorted place.
fn absorb(out: &mut Vec<PeripheralBattery>, d: PeripheralBattery, Ghost(seen): Ghost<
    Seq<PeripheralBattery>,
>)
    requires
        dedupe_inv(old(out)@, seen),
    ensures
        dedupe_inv(final(out)@, seen.push(d)),
{
    let id = d.stable_id();
    let m = out.len();
    let mut idx: usize = 0;
    while idx < m && str_lt(out[idx as usize].stable_id().as_str(), id.as_str())
        invariant
            m == out@.len(),
            0 <= idx <= m,
            id@ == stable_id_spec(d),
            forall|k: int|
                0 <= k < idx ==> lex_lt(stable_id_spec(#[trigger] out@[k]), stable_id_spec(d)),
        decreases m - idx,
    {
        idx += 1;
    }
    let ghost prev_out = out@;
    if idx < m && str_eq(out[idx].stable_id().as_str(), id.as_str()) {
        let new_score = d.dedupe_score();
        let old_score = out[idx].dedupe_score();
        let replace = new_score > old_score || (new_score == old_score && str_lt(
            d.name.as_str(),
            out[idx].name.as_str(),
        ));
        proof {
            assert(stable_id_spec(prev_out[idx as int]) == stable_id_spec(d));
        }
        if replace {
            proof {
                assert(displaces(d, prev_out[idx as int]));
                assert forall|k: int|
                    0 <= k < seen.len() && stable_id_spec(#[trigger] seen[k]) == stable_id_spec(
                        d,
                    ) implies !displaces(seen[k], d) by {
                    lemma_displaces_replace(seen[k], prev_out[idx as int], d);
                }
            }
            out[idx] = d;
            proof {
                lemma_absorb_replaced(prev_out, out@, seen, seen.push(d), d, idx as int);
            }
        } else {
            proof {
                assert(!displaces(d, prev_out[idx as int]));
                lemma_absorb_kept(prev_out, seen, seen.push(d), d, idx as int);
            }
        }
    } else {
        proof {
            if idx < m {
                assert(stable_id_spec(prev_out[idx as int]) != stable_id_spec(d));
                if !lex_lt(stable_id_spec(d), stable_id_spec(prev_out[idx as int])) {
                    crate::text::lemma_lex_connex(
                        stable_id_spec(d),
                        stable_id_spec(prev_out[idx as int]),
                    );
                }
            }
        }
        out.insert(idx, d);
        proof {
            lemma_absorb_inserted(prev_out, out@, seen, seen.push(d), d, idx as int);
        }
    }
}

/// Keeps the best entry of each identity: of the devices that share a
/// stable identity, the one with the highest score stays, a tie going to
/// the lexicographically smaller entry name; the kept devices come out in
/// ascending order of identity, one per identity, as [`dedupe_inv`]
/// states.
pub fn dedupe(devices: Vec<PeripheralBattery>) -> (r: Vec<PeripheralBattery>)
    ensures
        dedupe_inv(r@, devices@),
{
    let ghost orig = devices@;
    let mut rest = devices;
    let total = rest.len();
    let mut out: Vec<PeripheralBattery> = Vec::new();
    let mut i: usize = 0;
    while rest.len() > 0
        invariant
            i + rest@.len() == orig.len(),
            total == orig.len(),
            rest@ == orig.skip(i as int),
            dedupe_inv(out@, orig.take(i as int)),
        decreases rest@.len(),
    {
        let d = rest.remove(0);
        proof {
            assert(d == orig[i as int]);
            assert(orig.skip(i as int).skip(1) =~= orig.skip(i + 1));
            assert(orig.take(i + 1) =~= orig.take(i as int).push(orig[i as int]));
        }
        absorb(&mut out, d, Ghost(orig.take(i as int)));
        i += 1;
    }
    proof {
        assert(orig.take(orig.len() as int) =~= orig);
    }
    out
}

fn read_text_or_unknown(r: &Option<String>) -> (s: String)
    ensures
        s@ == text_or_unknown(*r),
{
    match r {
        Some(content) => String::from_str(trim(content.as_str())),
        None => String::from_str("Unknown"),
    }
}

fn parse_reading_opt(r: &Option<String>) -> (v: Option<u64>)
    ensures
        v == parsed_opt(*r),
{
    match r {
        Some(content) => crate::text::parse_u64(trim(content.as_str())),
        None => None,
    }
}

fn parse_reading_u8_or(r: &Option<String>, default: u8) -> (v: u8)
    ensures
        v == parsed_u8_or(*r, default),
{
    match parse_reading_opt(r) {
        Some(v) => if v <= 255 {
            v as u8
        } else {
            default
        },
        None => default,
    }
}

} // verus!
