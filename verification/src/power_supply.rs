//! Mains (AC) power detection: picking the first power-supply entry whose
//! type reads `Mains` and deciding whether it is online.
//!
//! Listing `/sys/class/power_supply` and reading the `type` and `online`
//! files belong to the front-end; this module gets the raw contents.

use vstd::prelude::*;
use vstd::string::StringExecFns;

use crate::text::{str_eq, trim, trim_spec};

verus! {

/// One directory entry of the power-supply class with the raw contents of
/// its `type` and `online` files, `None` where a file could not be read.
pub struct PsuEntry {
    pub name: String,
    pub psu_type: Option<String>,
    pub online: Option<String>,
}

/// The entry's `type` file reads `Mains` once trimmed.
pub open spec fn is_mains(e: PsuEntry) -> bool {
    e.psu_type is Some && trim_spec(e.psu_type->0@) == "Mains"@
}

/// The entry's `online` file reads `1` once trimmed.
pub open spec fn entry_online(e: PsuEntry) -> bool {
    e.online is Some && trim_spec(e.online->0@) == "1"@
}

/// AC power state of the machine.
#[derive(Debug, Clone)]
pub struct PowerSupplyInfo {
    pub ac_online: bool,
    pub ac_name: String,
}

impl PowerSupplyInfo {
    /// Scans the entries in order and takes the first whose type is
    /// `Mains`; without one, the adapter counts as absent and offline.
    pub fn from_scan(entries: &Vec<PsuEntry>) -> (r: Self)
        ensures
            (exists|i: int| 0 <= i < entries@.len() && is_mains(#[trigger] entries@[i]))
                ==> (exists|i: int|
                0 <= i < entries@.len() && is_mains(#[trigger] entries@[i]) && r.ac_name@
                    == entries@[i].name@ && r.ac_online == entry_online(entries@[i]) && (forall|
                    j: int,
                |
                    0 <= j < i ==> !is_mains(#[trigger] entries@[j]))),
            !(exists|i: int| 0 <= i < entries@.len() && is_mains(#[trigger] entries@[i])) ==> (
            r.ac_name@ == "Non d\u{e9}tect\u{e9}"@ && !r.ac_online),
    {
        let n = entries.len();
        let mut i: usize = 0;
        while i < n
            invariant
                n == entries@.len(),
                0 <= i <= n,
                forall|j: int| 0 <= j < i ==> !is_mains(#[trigger] entries@[j]),
            decreases n - i,
        {
            let e = &entries[i];
            let mains = match &e.psu_type {
                Some(content) => str_eq(trim(content.as_str()), "Mains"),
                None => false,
            };
            if mains {
                let online = match &e.online {
                    Some(content) => str_eq(trim(content.as_str()), "1"),
                    None => false,
                };
                return PowerSupplyInfo { ac_online: online, ac_name: e.name.clone() };
            }
            i += 1;
        }
        PowerSupplyInfo {
            ac_online: false,
            ac_name: String::from_str("Non d\u{e9}tect\u{e9}"),
        }
    }

    /// CSS class for the power source: success on mains, warning on
    /// battery.
    pub fn get_power_source_css_class(&self) -> (r: &'static str)
        ensures
            self.ac_online ==> r@ == "color-success"@,
            !self.ac_online ==> r@ == "color-warning"@,
    {
        if self.ac_online {
            "color-success"
        } else {
            "color-warning"
        }
    }

    /// Markup for the power source: green mains text when the adapter is
    /// online, orange battery text otherwise.
    pub fn get_power_source_markup(&self) -> (r: &'static str)
        ensures
            self.ac_online ==> r@ == (
            "<span size='xx-large' weight='bold' color='green'>\u{1f50c} Secteur</span>"@),
            !self.ac_online ==> r@ == (
            "<span size='xx-large' weight='bold' color='orange'>\u{1f50b} Batterie</span>"@),
    {
        if self.ac_online {
            "<span size='xx-large' weight='bold' color='green'>\u{1f50c} Secteur</span>"
        } else {
            "<span size='xx-large' weight='bold' color='orange'>\u{1f50b} Batterie</span>"
        }
    }
}

} // verus!
