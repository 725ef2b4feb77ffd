use battery_manager::i18n::{get_language, set_language, t, LangState};

#[test]
fn test_1_default_language() {
    let state = LangState::new();
    assert_eq!(get_language(&state), "fr");
}

#[test]
fn test_2_set_language() {
    let mut state = LangState::new();
    set_language(&mut state, "en");
    assert_eq!(get_language(&state), "en");
    set_language(&mut state, "fr");
    assert_eq!(get_language(&state), "fr");
}

#[test]
fn test_3_translation_fr() {
    let mut state = LangState::new();
    set_language(&mut state, "fr");
    assert_eq!(get_language(&state), "fr");
    assert_eq!(t(&state, "app_title"), "Gestionnaire de Batterie");
    assert_eq!(t(&state, "charging"), "En charge");
}

#[test]
fn test_4_translation_en() {
    let mut state = LangState::new();
    set_language(&mut state, "en");
    assert_eq!(get_language(&state), "en");
    assert_eq!(t(&state, "app_title"), "Battery Manager");
    assert_eq!(t(&state, "charging"), "Charging");
}

#[test]
fn test_5_missing_key() {
    let mut state = LangState::new();
    set_language(&mut state, "en");
    assert_eq!(t(&state, "non_existent_key"), "non_existent_key");
}

#[test]
fn test_unrecognized_language_falls_back_to_french() {
    let mut state = LangState::new();
    set_language(&mut state, "de");
    assert_eq!(get_language(&state), "fr");
    assert_eq!(t(&state, "full"), "Pleine");
}

#[test]
fn test_more_translations() {
    let mut state = LangState::new();
    assert_eq!(t(&state, "discharging"), "En d\u{e9}charge");
    assert_eq!(t(&state, "not_charging"), "Ne charge pas");
    assert_eq!(t(&state, "unknown"), "Inconnu");
    set_language(&mut state, "en");
    assert_eq!(t(&state, "discharging"), "Discharging");
    assert_eq!(t(&state, "no_battery"), "No battery detected on this system");
}
