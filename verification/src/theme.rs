//! Interface theme selection: a remembered theme name and the rule deciding
//! which of the two stylesheets applies.
//!
//! The CSS itself and handing it to the toolkit belong to the front-end.

use vstd::prelude::*;
use vstd::string::StringExecFns;

use crate::text::str_eq;

verus! {

/// The currently selected theme name; empty until one is chosen.
pub struct ThemeState {
    pub theme: String,
}

impl ThemeState {
    /// Fresh state with no theme chosen yet.
    pub fn new() -> (r: Self)
        ensures
            r.theme@ == Seq::<char>::empty(),
    {
        ThemeState { theme: String::new() }
    }
}

/// Remembers `theme` as the current theme name.
pub fn set_theme(state: &mut ThemeState, theme: &str)
    ensures
        final(state).theme@ == theme@,
{
    state.theme = String::from_str(theme);
}

/// The current theme name.
pub fn get_theme(state: &ThemeState) -> (r: String)
    ensures
        r@ == state.theme@,
{
    state.theme.clone()
}

/// The dark stylesheet applies exactly when the chosen theme is `"dark"`;
/// any other name, including none, selects the light stylesheet.
pub fn is_dark_theme(state: &ThemeState) -> (r: bool)
    ensures
        r == (state.theme@ == "dark"@),
{
    str_eq(state.theme.as_str(), "dark")
}

} // verus!
