//! Interface translations: a fixed English/French table keyed by short
//! identifiers, falling back to the key itself when no entry exists.
//!
//! The selected language is explicit state handed in by the caller; the
//! front-end owns one [`LangState`] for the whole process.

use vstd::prelude::*;
use vstd::string::StringExecFns;

use crate::text::str_eq;

verus! {

/// The two interface languages.
#[derive(Clone, Copy, Debug, PartialEq, Eq, Structural)]
pub enum Language {
    French,
    English,
}

/// The currently selected interface language.
pub struct LangState {
    pub lang: Language,
}

impl LangState {
    /// Fresh state; French is the default language.
    pub fn new() -> (r: Self)
        ensures
            r.lang == Language::French,
    {
        LangState { lang: Language::French }
    }
}

/// Selects the language: `"en"` means English, anything else French.
pub fn set_language(state: &mut LangState, lang: &str)
    ensures
        final(state).lang == (if lang@ == "en"@ {
            Language::English
        } else {
            Language::French
        }),
{
    if str_eq(lang, "en") {
        state.lang = Language::English;
    } else {
        state.lang = Language::French;
    }
}

/// The language code of the current selection, `"en"` or `"fr"`.
pub fn get_language(state: &LangState) -> (r: String)
    ensures
        r@ == (if state.lang == Language::English {
            "en"@
        } else {
            "fr"@
        }),
{
    match state.lang {
        Language::English => String::from_str("en"),
        Language::French => String::from_str("fr"),
    }
}

/// The table entry for `key` in `lang`, the key itself when unknown.
pub open spec fn translation(lang: Language, key: Seq<char>) -> Seq<char> {
    match lang {
        Language::French => french_of(key),
        Language::English => english_of(key),
    }
}

/// Translated text for `key` in the selected language.
pub fn t(state: &LangState, key: &str) -> (r: String)
    ensures
        r@ == translation(state.lang, key@),
{
    match state.lang {
        Language::French => french(key),
        Language::English => english(key),
    }
}


/// The french entry of the translation table; an unknown key stands for itself.
pub open spec fn french_of(key: Seq<char>) -> Seq<char> {
    if key == "app_title"@ {
        "Gestionnaire de Batterie"@
    } else if key == "info_tab"@ {
        "📊 Informations"@
    } else if key == "settings_tab"@ {
        "⚙️ Réglages"@
    } else if key == "power_source"@ {
        "🔌 Source d'alimentation"@
    } else if key == "on_ac"@ {
        "Sur secteur"@
    } else if key == "on_battery"@ {
        "Sur batterie"@
    } else if key == "battery_status"@ {
        "⚡ État de la batterie"@
    } else if key == "charging"@ {
        "En charge"@
    } else if key == "discharging"@ {
        "En décharge"@
    } else if key == "full"@ {
        "Pleine"@
    } else if key == "not_charging"@ {
        "Ne charge pas"@
    } else if key == "unknown"@ {
        "Inconnu"@
    } else if key == "charge_level"@ {
        "🔋 Niveau de charge"@
    } else if key == "battery_health"@ {
        "💚 Santé de la batterie"@
    } else if key == "electrical_params"@ {
        "⚡ Paramètres électriques"@
    } else if key == "voltage"@ {
        "Tension"@
    } else if key == "capacity"@ {
        "Capacité"@
    } else if key == "capacity_level"@ {
        "Niveau"@
    } else if key == "status"@ {
        "Statut"@
    } else if key == "connection"@ {
        "Connexion"@
    } else if key == "current"@ {
        "Courant"@
    } else if key == "power"@ {
        "Puissance"@
    } else if key == "system_info"@ {
        "🖥️ Informations système"@
    } else if key == "manufacturer"@ {
        "Fabricant"@
    } else if key == "model"@ {
        "Modèle"@
    } else if key == "technology"@ {
        "Technologie"@
    } else if key == "capacity_info"@ {
        "📊 Informations de capacité"@
    } else if key == "current_cap"@ {
        "Actuelle"@
    } else if key == "design_cap"@ {
        "Nominale"@
    } else if key == "charge_thresholds"@ {
        "🎯 Seuils de charge"@
    } else if key == "start_threshold"@ {
        "Début"@
    } else if key == "stop_threshold"@ {
        "Fin"@
    } else if key == "discharge_alarm"@ {
        "⚠️ Alarme de décharge"@
    } else if key == "systemd_service"@ {
        "🔧 Service systemd"@
    } else if key == "service_active"@ {
        "Actif"@
    } else if key == "service_inactive"@ {
        "Inactif"@
    } else if key == "vendor_info"@ {
        "🏭 Informations du Système"@
    } else if key == "product_name"@ {
        "Modèle"@
    } else if key == "start_support"@ {
        "Seuil de début"@
    } else if key == "stop_support"@ {
        "Seuil de fin"@
    } else if key == "charge_settings"@ {
        "⚙️ Seuils de charge"@
    } else if key == "start_threshold_pct"@ {
        "Seuil de début (%)"@
    } else if key == "stop_threshold_pct"@ {
        "Seuil de fin de charge (%)"@
    } else if key == "alarm_settings"@ {
        "⚠️ Alarme de décharge"@
    } else if key == "alarm_threshold"@ {
        "Seuil d'alarme (%)"@
    } else if key == "service_settings"@ {
        "🔧 Service systemd"@
    } else if key == "enable_service"@ {
        "Activer la restauration automatique au démarrage"@
    } else if key == "charge_100"@ {
        "Charger à 100%"@
    } else if key == "settings_applied"@ {
        "✓ Réglages appliqués (redémarrage requis)"@
    } else if key == "alarm"@ {
        "Alarme"@
    } else if key == "service"@ {
        "Service"@
    } else if key == "enabled"@ {
        "activé"@
    } else if key == "disabled"@ {
        "désactivé"@
    } else if key == "error"@ {
        "Erreur"@
    } else if key == "exec_error"@ {
        "Erreur d'exécution"@
    } else if key == "auth_canceled"@ {
        "Authentification annulée"@
    } else if key == "no_battery"@ {
        "Aucune batterie détectée sur ce système"@
    } else if key == "error_battery_init"@ {
        "Erreur lors de la création de BatteryInfo"@
    } else if key == "tab_info"@ {
        "Informations"@
    } else if key == "tab_settings"@ {
        "Réglages"@
    } else if key == "tab_ui"@ {
        "Interface"@
    } else if key == "tab_peripherals"@ {
        "Périphériques"@
    } else if key == "card_thresholds"@ {
        "Seuils"@
    } else if key == "card_charge"@ {
        "Charge"@
    } else if key == "card_health"@ {
        "Santé"@
    } else if key == "card_power"@ {
        "Alimentation"@
    } else if key == "card_status"@ {
        "État"@
    } else if key == "card_battery"@ {
        "Batterie"@
    } else if key == "card_electrical"@ {
        "Électrique"@
    } else if key == "card_capacity"@ {
        "Capacité"@
    } else if key == "card_service"@ {
        "Service"@
    } else if key == "card_peripherals"@ {
        "Périphérique"@
    } else if key == "card_info"@ {
        "Informations"@
    } else if key == "card_battery_status"@ {
        "État Batterie"@
    } else if key == "card_system_info"@ {
        "Informations du Système"@
    } else if key == "card_threshold_settings"@ {
        "Seuils de charge"@
    } else if key == "card_service_manager"@ {
        "Service Battery Manager"@
    } else if key == "threshold_start"@ {
        "Début de charge"@
    } else if key == "threshold_stop"@ {
        "Fin de charge"@
    } else if key == "threshold_start_pct"@ {
        "Seuil de début (%)"@
    } else if key == "threshold_stop_pct"@ {
        "Seuil de fin de charge (%)"@
    } else if key == "connected"@ {
        "✓ Connecté"@
    } else if key == "disconnected"@ {
        "✗ Déconnecté"@
    } else if key == "device_type"@ {
        "Type"@
    } else if key == "device_scope"@ {
        "Portée"@
    } else if key == "serial_number"@ {
        "N° Série"@
    } else if key == "wear"@ {
        "Usure"@
    } else if key == "cycles"@ {
        "Cycles"@
    } else if key == "adapter"@ {
        "Adaptateur"@
    } else if key == "name"@ {
        "Nom"@
    } else if key == "type"@ {
        "Type"@
    } else if key == "current_capacity"@ {
        "Actuelle"@
    } else if key == "full_capacity"@ {
        "Complète"@
    } else if key == "design_capacity"@ {
        "Design"@
    } else if key == "enable_systemd_service"@ {
        "Activer le service systemd"@
    } else if key == "note_enabled"@ {
        "<b>Activé :</b> applique les seuils immédiatement et de façon persistante"@
    } else if key == "note_disabled"@ {
        "<b>Désactivé :</b> applique les seuils immédiatement, mais ils seront perdus au prochain redémarrage"@
    } else if key == "note_apply_required"@ {
        "<b>Important :</b> les réglages sont pris en compte uniquement après avoir cliqué sur le bouton <i>Appliquer</i>."@
    } else if key == "warning_not_persistent"@ {
        "⚠️ Sans service, ces réglages seront perdus au prochain redémarrage."@
    } else if key == "apply_all_settings"@ {
        "Appliquer tous les réglages"@
    } else if key == "error_start_greater_stop"@ {
        "Erreur: le seuil de début doit être inférieur au seuil de fin"@
    } else if key == "success_applied"@ {
        "Réglages appliqués avec succès"@
    } else if key == "error_execution"@ {
        "Erreur lors de l'exécution"@
    } else if key == "language_setting"@ {
        "Langue de l'interface"@
    } else if key == "language_fr"@ {
        "Français"@
    } else if key == "language_en"@ {
        "English"@
    } else if key == "language_changed"@ {
        "Langue modifiée. Redémarrez l'application pour appliquer le changement."@
    } else if key == "restart_required"@ {
        "Redémarrage automatique dans 1 seconde..."@
    } else if key == "theme_setting"@ {
        "Thème de l'interface"@
    } else if key == "theme_light"@ {
        "Clair"@
    } else if key == "theme_dark"@ {
        "Sombre"@
    } else if key == "theme_applied"@ {
        "Thème appliqué immédiatement"@
    } else if key == "not_detected"@ {
        "Non détecté"@
    } else if key == "time_until_full"@ {
        "jusqu'à plein"@
    } else if key == "time_remaining"@ {
        "restant"@
    } else if key == "documentation"@ {
        "Documentation"@
    } else if key == "open_readme"@ {
        "Ouvrir le README"@
    } else if key == "open_references"@ {
        "Ouvrir les références"@
    } else if key == "docs_not_found"@ {
        "Documentation introuvable (non installée ?)"@
    } else if key == "docs_open_failed"@ {
        "Impossible d'ouvrir la documentation"@
    } else if key == "help"@ {
        "Aide"@
    } else if key == "about"@ {
        "À propos"@
    } else if key == "open_about"@ {
        "Ouvrir À propos"@
    } else if key == "about_text"@ {
        "Gestionnaire de seuils de charge batterie (GTK4) avec restauration systemd."@
    } else {
        key
    }
}

#[verifier::rlimit(30)]
fn french(key: &str) -> (r: String)
    ensures
        r@ == french_of(key@),
{
    if str_eq(key, "app_title") {
        String::from_str("Gestionnaire de Batterie")
    } else if str_eq(key, "info_tab") {
        String::from_str("📊 Informations")
    } else if str_eq(key, "settings_tab") {
        String::from_str("⚙️ Réglages")
    } else if str_eq(key, "power_source") {
        String::from_str("🔌 Source d'alimentation")
    } else if str_eq(key, "on_ac") {
        String::from_str("Sur secteur")
    } else if str_eq(key, "on_battery") {
        String::from_str("Sur batterie")
    } else if str_eq(key, "battery_status") {
        String::from_str("⚡ État de la batterie")
    } else if str_eq(key, "charging") {
        String::from_str("En charge")
    } else if str_eq(key, "discharging") {
        String::from_str("En décharge")
    } else if str_eq(key, "full") {
        String::from_str("Pleine")
    } else if str_eq(key, "not_charging") {
        String::from_str("Ne charge pas")
    } else if str_eq(key, "unknown") {
        String::from_str("Inconnu")
    } else if str_eq(key, "charge_level") {
        String::from_str("🔋 Niveau de charge")
    } else if str_eq(key, "battery_health") {
        String::from_str("💚 Santé de la batterie")
    } else if str_eq(key, "electrical_params") {
        String::from_str("⚡ Paramètres électriques")
    } else if str_eq(key, "voltage") {
        String::from_str("Tension")
    } else if str_eq(key, "capacity") {
        String::from_str("Capacité")
    } else if str_eq(key, "capacity_level") {
        String::from_str("Niveau")
    } else if str_eq(key, "status") {
        String::from_str("Statut")
    } else if str_eq(key, "connection") {
        String::from_str("Connexion")
    } else if str_eq(key, "current") {
        String::from_str("Courant")
    } else if str_eq(key, "power") {
        String::from_str("Puissance")
    } else if str_eq(key, "system_info") {
        String::from_str("🖥️ Informations système")
    } else if str_eq(key, "manufacturer") {
        String::from_str("Fabricant")
    } else if str_eq(key, "model") {
        String::from_str("Modèle")
    } else if str_eq(key, "technology") {
        String::from_str("Technologie")
    } else if str_eq(key, "capacity_info") {
        String::from_str("📊 Informations de capacité")
    } else if str_eq(key, "current_cap") {
        String::from_str("Actuelle")
    } else if str_eq(key, "design_cap") {
        String::from_str("Nominale")
    } else if str_eq(key, "charge_thresholds") {
        String::from_str("🎯 Seuils de charge")
    } else if str_eq(key, "start_threshold") {
        String::from_str("Début")
    } else if str_eq(key, "stop_threshold") {
        String::from_str("Fin")
    } else if str_eq(key, "discharge_alarm") {
        String::from_str("⚠️ Alarme de décharge")
    } else if str_eq(key, "systemd_service") {
        String::from_str("🔧 Service systemd")
    } else if str_eq(key, "service_active") {
        String::from_str("Actif")
    } else if str_eq(key, "service_inactive") {
        String::from_str("Inactif")
    } else if str_eq(key, "vendor_info") {
        String::from_str("🏭 Informations du Système")
    } else if str_eq(key, "product_name") {
        String::from_str("Modèle")
    } else if str_eq(key, "start_support") {
        String::from_str("Seuil de début")
    } else if str_eq(key, "stop_support") {
        String::from_str("Seuil de fin")
    } else if str_eq(key, "charge_settings") {
        String::from_str("⚙️ Seuils de charge")
    } else if str_eq(key, "start_threshold_pct") {
        String::from_str("Seuil de début (%)")
    } else if str_eq(key, "stop_threshold_pct") {
        String::from_str("Seuil de fin de charge (%)")
    } else if str_eq(key, "alarm_settings") {
        String::from_str("⚠️ Alarme de décharge")
    } else if str_eq(key, "alarm_threshold") {
        String::from_str("Seuil d'alarme (%)")
    } else if str_eq(key, "service_settings") {
        String::from_str("🔧 Service systemd")
    } else if str_eq(key, "enable_service") {
        String::from_str("Activer la restauration automatique au démarrage")
    } else if str_eq(key, "charge_100") {
        String::from_str("Charger à 100%")
    } else if str_eq(key, "settings_applied") {
        String::from_str("✓ Réglages appliqués (redémarrage requis)")
    } else if str_eq(key, "alarm") {
        String::from_str("Alarme")
    } else if str_eq(key, "service") {
        String::from_str("Service")
    } else if str_eq(key, "enabled") {
        String::from_str("activé")
    } else if str_eq(key, "disabled") {
        String::from_str("désactivé")
    } else if str_eq(key, "error") {
        String::from_str("Erreur")
    } else if str_eq(key, "exec_error") {
        String::from_str("Erreur d'exécution")
    } else if str_eq(key, "auth_canceled") {
        String::from_str("Authentification annulée")
    } else if str_eq(key, "no_battery") {
        String::from_str("Aucune batterie détectée sur ce système")
    } else if str_eq(key, "error_battery_init") {
        String::from_str("Erreur lors de la création de BatteryInfo")
    } else if str_eq(key, "tab_info") {
        String::from_str("Informations")
    } else if str_eq(key, "tab_settings") {
        String::from_str("Réglages")
    } else if str_eq(key, "tab_ui") {
        String::from_str("Interface")
    } else if str_eq(key, "tab_peripherals") {
        String::from_str("Périphériques")
    } else if str_eq(key, "card_thresholds") {
        String::from_str("Seuils")
    } else if str_eq(key, "card_charge") {
        String::from_str("Charge")
    } else if str_eq(key, "card_health") {
        String::from_str("Santé")
    } else if str_eq(key, "card_power") {
        String::from_str("Alimentation")
    } else if str_eq(key, "card_status") {
        String::from_str("État")
    } else if str_eq(key, "card_battery") {
        String::from_str("Batterie")
    } else if str_eq(key, "card_electrical") {
        String::from_str("Électrique")
    } else if str_eq(key, "card_capacity") {
        String::from_str("Capacité")
    } else if str_eq(key, "card_service") {
        String::from_str("Service")
    } else if str_eq(key, "card_peripherals") {
        String::from_str("Périphérique")
    } else if str_eq(key, "card_info") {
        String::from_str("Informations")
    } else if str_eq(key, "card_battery_status") {
        String::from_str("État Batterie")
    } else if str_eq(key, "card_system_info") {
        String::from_str("Informations du Système")
    } else if str_eq(key, "card_threshold_settings") {
        String::from_str("Seuils de charge")
    } else if str_eq(key, "card_service_manager") {
        String::from_str("Service Battery Manager")
    } else if str_eq(key, "threshold_start") {
        String::from_str("Début de charge")
    } else if str_eq(key, "threshold_stop") {
        String::from_str("Fin de charge")
    } else if str_eq(key, "threshold_start_pct") {
        String::from_str("Seuil de début (%)")
    } else if str_eq(key, "threshold_stop_pct") {
        String::from_str("Seuil de fin de charge (%)")
    } else if str_eq(key, "connected") {
        String::from_str("✓ Connecté")
    } else if str_eq(key, "disconnected") {
        String::from_str("✗ Déconnecté")
    } else if str_eq(key, "device_type") {
        String::from_str("Type")
    } else if str_eq(key, "device_scope") {
        String::from_str("Portée")
    } else if str_eq(key, "serial_number") {
        String::from_str("N° Série")
    } else if str_eq(key, "wear") {
        String::from_str("Usure")
    } else if str_eq(key, "cycles") {
        String::from_str("Cycles")
    } else if str_eq(key, "adapter") {
        String::from_str("Adaptateur")
    } else if str_eq(key, "name") {
        String::from_str("Nom")
    } else if str_eq(key, "type") {
        String::from_str("Type")
    } else if str_eq(key, "current_capacity") {
        String::from_str("Actuelle")
    } else if str_eq(key, "full_capacity") {
        String::from_str("Complète")
    } else if str_eq(key, "design_capacity") {
        String::from_str("Design")
    } else if str_eq(key, "enable_systemd_service") {
        String::from_str("Activer le service systemd")
    } else if str_eq(key, "note_enabled") {
        String::from_str("<b>Activé :</b> applique les seuils immédiatement et de façon persistante")
    } else if str_eq(key, "note_disabled") {
        String::from_str("<b>Désactivé :</b> applique les seuils immédiatement, mais ils seront perdus au prochain redémarrage")
    } else if str_eq(key, "note_apply_required") {
        String::from_str("<b>Important :</b> les réglages sont pris en compte uniquement après avoir cliqué sur le bouton <i>Appliquer</i>.")
    } else if str_eq(key, "warning_not_persistent") {
        String::from_str("⚠️ Sans service, ces réglages seront perdus au prochain redémarrage.")
    } else if str_eq(key, "apply_all_settings") {
        String::from_str("Appliquer tous les réglages")
    } else if str_eq(key, "error_start_greater_stop") {
        String::from_str("Erreur: le seuil de début doit être inférieur au seuil de fin")
    } else if str_eq(key, "success_applied") {
        String::from_str("Réglages appliqués avec succès")
    } else if str_eq(key, "error_execution") {
        String::from_str("Erreur lors de l'exécution")
    } else if str_eq(key, "language_setting") {
        String::from_str("Langue de l'interface")
    } else if str_eq(key, "language_fr") {
        String::from_str("Français")
    } else if str_eq(key, "language_en") {
        String::from_str("English")
    } else if str_eq(key, "language_changed") {
        String::from_str("Langue modifiée. Redémarrez l'application pour appliquer le changement.")
    } else if str_eq(key, "restart_required") {
        String::from_str("Redémarrage automatique dans 1 seconde...")
    } else if str_eq(key, "theme_setting") {
        String::from_str("Thème de l'interface")
    } else if str_eq(key, "theme_light") {
        String::from_str("Clair")
    } else if str_eq(key, "theme_dark") {
        String::from_str("Sombre")
    } else if str_eq(key, "theme_applied") {
        String::from_str("Thème appliqué immédiatement")
    } else if str_eq(key, "not_detected") {
        String::from_str("Non détecté")
    } else if str_eq(key, "time_until_full") {
        String::from_str("jusqu'à plein")
    } else if str_eq(key, "time_remaining") {
        String::from_str("restant")
    } else if str_eq(key, "documentation") {
        String::from_str("Documentation")
    } else if str_eq(key, "open_readme") {
        String::from_str("Ouvrir le README")
    } else if str_eq(key, "open_references") {
        String::from_str("Ouvrir les références")
    } else if str_eq(key, "docs_not_found") {
        String::from_str("Documentation introuvable (non installée ?)")
    } else if str_eq(key, "docs_open_failed") {
        String::from_str("Impossible d'ouvrir la documentation")
    } else if str_eq(key, "help") {
        String::from_str("Aide")
    } else if str_eq(key, "about") {
        String::from_str("À propos")
    } else if str_eq(key, "open_about") {
        String::from_str("Ouvrir À propos")
    } else if str_eq(key, "about_text") {
        String::from_str("Gestionnaire de seuils de charge batterie (GTK4) avec restauration systemd.")
    } else {
        String::from_str(key)
    }
}

/// The english entry of the translation table; an unknown key stands for itself.
pub open spec fn english_of(key: Seq<char>) -> Seq<char> {
    if key == "app_title"@ {
        "Battery Manager"@
    } else if key == "info_tab"@ {
        "📊 Information"@
    } else if key == "settings_tab"@ {
        "⚙️ Settings"@
    } else if key == "power_source"@ {
        "🔌 Power Source"@
    } else if key == "on_ac"@ {
        "On AC Power"@
    } else if key == "on_battery"@ {
        "On Battery"@
    } else if key == "battery_status"@ {
        "⚡ Battery Status"@
    } else if key == "charging"@ {
        "Charging"@
    } else if key == "discharging"@ {
        "Discharging"@
    } else if key == "full"@ {
        "Full"@
    } else if key == "not_charging"@ {
        "Not charging"@
    } else if key == "unknown"@ {
        "Unknown"@
    } else if key == "charge_level"@ {
        "🔋 Charge Level"@
    } else if key == "battery_health"@ {
        "💚 Battery Health"@
    } else if key == "electrical_params"@ {
        "⚡ Electrical Parameters"@
    } else if key == "voltage"@ {
        "Voltage"@
    } else if key == "capacity"@ {
        "Capacity"@
    } else if key == "capacity_level"@ {
        "Level"@
    } else if key == "status"@ {
        "Status"@
    } else if key == "connection"@ {
        "Connection"@
    } else if key == "current"@ {
        "Current"@
    } else if key == "power"@ {
        "Power"@
    } else if key == "system_info"@ {
        "🖥️ System Information"@
    } else if key == "manufacturer"@ {
        "Manufacturer"@
    } else if key == "model"@ {
        "Model"@
    } else if key == "technology"@ {
        "Technology"@
    } else if key == "capacity_info"@ {
        "📊 Capacity Information"@
    } else if key == "current_cap"@ {
        "Current"@
    } else if key == "design_cap"@ {
        "Design"@
    } else if key == "charge_thresholds"@ {
        "🎯 Charge Thresholds"@
    } else if key == "start_threshold"@ {
        "Start"@
    } else if key == "stop_threshold"@ {
        "Stop"@
    } else if key == "discharge_alarm"@ {
        "⚠️ Discharge Alarm"@
    } else if key == "systemd_service"@ {
        "🔧 Systemd Service"@
    } else if key == "service_active"@ {
        "Active"@
    } else if key == "service_inactive"@ {
        "Inactive"@
    } else if key == "vendor_info"@ {
        "🏭 System Information"@
    } else if key == "product_name"@ {
        "Model"@
    } else if key == "start_support"@ {
        "Start threshold"@
    } else if key == "stop_support"@ {
        "Stop threshold"@
    } else if key == "charge_settings"@ {
        "⚙️ Charge Thresholds"@
    } else if key == "start_threshold_pct"@ {
        "Start threshold (%)"@
    } else if key == "stop_threshold_pct"@ {
        "Stop threshold (%)"@
    } else if key == "alarm_settings"@ {
        "⚠️ Discharge Alarm"@
    } else if key == "alarm_threshold"@ {
        "Alarm threshold (%)"@
    } else if key == "service_settings"@ {
        "🔧 Systemd Service"@
    } else if key == "enable_service"@ {
        "Enable automatic restoration at boot"@
    } else if key == "charge_100"@ {
        "Charge to 100%"@
    } else if key == "settings_applied"@ {
        "✓ Settings applied (reboot required)"@
    } else if key == "alarm"@ {
        "Alarm"@
    } else if key == "service"@ {
        "Service"@
    } else if key == "enabled"@ {
        "enabled"@
    } else if key == "disabled"@ {
        "disabled"@
    } else if key == "error"@ {
        "Error"@
    } else if key == "exec_error"@ {
        "Execution error"@
    } else if key == "auth_canceled"@ {
        "Authentication canceled"@
    } else if key == "no_battery"@ {
        "No battery detected on this system"@
    } else if key == "error_battery_init"@ {
        "Error creating BatteryInfo"@
    } else if key == "tab_info"@ {
        "Information"@
    } else if key == "tab_settings"@ {
        "Settings"@
    } else if key == "tab_ui"@ {
        "Interface"@
    } else if key == "tab_peripherals"@ {
        "Peripherals"@
    } else if key == "card_thresholds"@ {
        "Thresholds"@
    } else if key == "card_charge"@ {
        "Charge"@
    } else if key == "card_health"@ {
        "Health"@
    } else if key == "card_power"@ {
        "Power"@
    } else if key == "card_status"@ {
        "Status"@
    } else if key == "card_battery"@ {
        "Battery"@
    } else if key == "card_electrical"@ {
        "Electrical"@
    } else if key == "card_capacity"@ {
        "Capacity"@
    } else if key == "card_service"@ {
        "Service"@
    } else if key == "card_peripherals"@ {
        "Peripheral"@
    } else if key == "card_info"@ {
        "Information"@
    } else if key == "card_battery_status"@ {
        "Battery Status"@
    } else if key == "card_system_info"@ {
        "System Information"@
    } else if key == "card_threshold_settings"@ {
        "Charge Thresholds"@
    } else if key == "card_service_manager"@ {
        "Battery Manager Service"@
    } else if key == "threshold_start"@ {
        "Charge start"@
    } else if key == "threshold_stop"@ {
        "Charge stop"@
    } else if key == "threshold_start_pct"@ {
        "Start threshold (%)"@
    } else if key == "threshold_stop_pct"@ {
        "Stop threshold (%)"@
    } else if key == "connected"@ {
        "✓ Connected"@
    } else if key == "disconnected"@ {
        "✗ Disconnected"@
    } else if key == "device_type"@ {
        "Type"@
    } else if key == "device_scope"@ {
        "Scope"@
    } else if key == "serial_number"@ {
        "Serial"@
    } else if key == "wear"@ {
        "Wear"@
    } else if key == "cycles"@ {
        "Cycles"@
    } else if key == "adapter"@ {
        "Adapter"@
    } else if key == "name"@ {
        "Name"@
    } else if key == "type"@ {
        "Type"@
    } else if key == "current_capacity"@ {
        "Current"@
    } else if key == "full_capacity"@ {
        "Full"@
    } else if key == "design_capacity"@ {
        "Design"@
    } else if key == "enable_systemd_service"@ {
        "Enable systemd service"@
    } else if key == "note_enabled"@ {
        "<b>Enabled:</b> applies thresholds immediately and persistently"@
    } else if key == "note_disabled"@ {
        "<b>Disabled:</b> applies thresholds immediately, but changes will be lost after reboot"@
    } else if key == "note_apply_required"@ {
        "<b>Important:</b> settings are applied only after clicking the <i>Apply</i> button."@
    } else if key == "warning_not_persistent"@ {
        "⚠️ Without the service, these settings will be lost after reboot."@
    } else if key == "apply_all_settings"@ {
        "Apply all settings"@
    } else if key == "error_start_greater_stop"@ {
        "Error: start threshold must be lower than stop threshold"@
    } else if key == "success_applied"@ {
        "Settings applied successfully"@
    } else if key == "error_execution"@ {
        "Execution error"@
    } else if key == "language_setting"@ {
        "Interface Language"@
    } else if key == "language_fr"@ {
        "Français"@
    } else if key == "language_en"@ {
        "English"@
    } else if key == "language_changed"@ {
        "Language changed. Restart the application to apply."@
    } else if key == "restart_required"@ {
        "Auto-restart in 1 second..."@
    } else if key == "theme_setting"@ {
        "Interface Theme"@
    } else if key == "theme_light"@ {
        "Light"@
    } else if key == "theme_dark"@ {
        "Dark"@
    } else if key == "theme_applied"@ {
        "Theme applied immediately"@
    } else if key == "not_detected"@ {
        "Not detected"@
    } else if key == "time_until_full"@ {
        "until full"@
    } else if key == "time_remaining"@ {
        "remaining"@
    } else if key == "documentation"@ {
        "Documentation"@
    } else if key == "open_readme"@ {
        "Open README"@
    } else if key == "open_references"@ {
        "Open references"@
    } else if key == "docs_not_found"@ {
        "Documentation not found (not installed?)"@
    } else if key == "docs_open_failed"@ {
        "Unable to open documentation"@
    } else if key == "help"@ {
        "Help"@
    } else if key == "about"@ {
        "About"@
    } else if key == "open_about"@ {
        "Open About"@
    } else if key == "about_text"@ {
        "Battery charge threshold manager (GTK4) with systemd restoration."@
    } else {
        key
    }
}

#[verifier::rlimit(30)]
fn english(key: &str) -> (r: String)
    ensures
        r@ == english_of(key@),
{
    if str_eq(key, "app_title") {
        String::from_str("Battery Manager")
    } else if str_eq(key, "info_tab") {
        String::from_str("📊 Information")
    } else if str_eq(key, "settings_tab") {
        String::from_str("⚙️ Settings")
    } else if str_eq(key, "power_source") {
        String::from_str("🔌 Power Source")
    } else if str_eq(key, "on_ac") {
        String::from_str("On AC Power")
    } else if str_eq(key, "on_battery") {
        String::from_str("On Battery")
    } else if str_eq(key, "battery_status") {
        String::from_str("⚡ Battery Status")
    } else if str_eq(key, "charging") {
        String::from_str("Charging")
    } else if str_eq(key, "discharging") {
        String::from_str("Discharging")
    } else if str_eq(key, "full") {
        String::from_str("Full")
    } else if str_eq(key, "not_charging") {
        String::from_str("Not charging")
    } else if str_eq(key, "unknown") {
        String::from_str("Unknown")
    } else if str_eq(key, "charge_level") {
        String::from_str("🔋 Charge Level")
    } else if str_eq(key, "battery_health") {
        String::from_str("💚 Battery Health")
    } else if str_eq(key, "electrical_params") {
        String::from_str("⚡ Electrical Parameters")
    } else if str_eq(key, "voltage") {
        String::from_str("Voltage")
    } else if str_eq(key, "capacity") {
        String::from_str("Capacity")
    } else if str_eq(key, "capacity_level") {
        String::from_str("Level")
    } else if str_eq(key, "status") {
        String::from_str("Status")
    } else if str_eq(key, "connection") {
        String::from_str("Connection")
    } else if str_eq(key, "current") {
        String::from_str("Current")
    } else if str_eq(key, "power") {
        String::from_str("Power")
    } else if str_eq(key, "system_info") {
        String::from_str("🖥️ System Information")
    } else if str_eq(key, "manufacturer") {
        String::from_str("Manufacturer")
    } else if str_eq(key, "model") {
        String::from_str("Model")
    } else if str_eq(key, "technology") {
        String::from_str("Technology")
    } else if str_eq(key, "capacity_info") {
        String::from_str("📊 Capacity Information")
    } else if str_eq(key, "current_cap") {
        String::from_str("Current")
    } else if str_eq(key, "design_cap") {
        String::from_str("Design")
    } else if str_eq(key, "charge_thresholds") {
        String::from_str("🎯 Charge Thresholds")
    } else if str_eq(key, "start_threshold") {
        String::from_str("Start")
    } else if str_eq(key, "stop_threshold") {
        String::from_str("Stop")
    } else if str_eq(key, "discharge_alarm") {
        String::from_str("⚠️ Discharge Alarm")
    } else if str_eq(key, "systemd_service") {
        String::from_str("🔧 Systemd Service")
    } else if str_eq(key, "service_active") {
        String::from_str("Active")
    } else if str_eq(key, "service_inactive") {
        String::from_str("Inactive")
    } else if str_eq(key, "vendor_info") {
        String::from_str("🏭 System Information")
    } else if str_eq(key, "product_name") {
        String::from_str("Model")
    } else if str_eq(key, "start_support") {
        String::from_str("Start threshold")
    } else if str_eq(key, "stop_support") {
        String::from_str("Stop threshold")
    } else if str_eq(key, "charge_settings") {
        String::from_str("⚙️ Charge Thresholds")
    } else if str_eq(key, "start_threshold_pct") {
        String::from_str("Start threshold (%)")
    } else if str_eq(key, "stop_threshold_pct") {
        String::from_str("Stop threshold (%)")
    } else if str_eq(key, "alarm_settings") {
        String::from_str("⚠️ Discharge Alarm")
    } else if str_eq(key, "alarm_threshold") {
        String::from_str("Alarm threshold (%)")
    } else if str_eq(key, "service_settings") {
        String::from_str("🔧 Systemd Service")
    } else if str_eq(key, "enable_service") {
        String::from_str("Enable automatic restoration at boot")
    } else if str_eq(key, "charge_100") {
        String::from_str("Charge to 100%")
    } else if str_eq(key, "settings_applied") {
        String::from_str("✓ Settings applied (reboot required)")
    } else if str_eq(key, "alarm") {
        String::from_str("Alarm")
    } else if str_eq(key, "service") {
        String::from_str("Service")
    } else if str_eq(key, "enabled") {
        String::from_str("enabled")
    } else if str_eq(key, "disabled") {
        String::from_str("disabled")
    } else if str_eq(key, "error") {
        String::from_str("Error")
    } else if str_eq(key, "exec_error") {
        String::from_str("Execution error")
    } else if str_eq(key, "auth_canceled") {
        String::from_str("Authentication canceled")
    } else if str_eq(key, "no_battery") {
        String::from_str("No battery detected on this system")
    } else if str_eq(key, "error_battery_init") {
        String::from_str("Error creating BatteryInfo")
    } else if str_eq(key, "tab_info") {
        String::from_str("Information")
    } else if str_eq(key, "tab_settings") {
        String::from_str("Settings")
    } else if str_eq(key, "tab_ui") {
        String::from_str("Interface")
    } else if str_eq(key, "tab_peripherals") {
        String::from_str("Peripherals")
    } else if str_eq(key, "card_thresholds") {
        String::from_str("Thresholds")
    } else if str_eq(key, "card_charge") {
        String::from_str("Charge")
    } else if str_eq(key, "card_health") {
        String::from_str("Health")
    } else if str_eq(key, "card_power") {
        String::from_str("Power")
    } else if str_eq(key, "card_status") {
        String::from_str("Status")
    } else if str_eq(key, "card_battery") {
        String::from_str("Battery")
    } else if str_eq(key, "card_electrical") {
        String::from_str("Electrical")
    } else if str_eq(key, "card_capacity") {
        String::from_str("Capacity")
    } else if str_eq(key, "card_service") {
        String::from_str("Service")
    } else if str_eq(key, "card_peripherals") {
        String::from_str("Peripheral")
    } else if str_eq(key, "card_info") {
        String::from_str("Information")
    } else if str_eq(key, "card_battery_status") {
        String::from_str("Battery Status")
    } else if str_eq(key, "card_system_info") {
        String::from_str("System Information")
    } else if str_eq(key, "card_threshold_settings") {
        String::from_str("Charge Thresholds")
    } else if str_eq(key, "card_service_manager") {
        String::from_str("Battery Manager Service")
    } else if str_eq(key, "threshold_start") {
        String::from_str("Charge start")
    } else if str_eq(key, "threshold_stop") {
        String::from_str("Charge stop")
    } else if str_eq(key, "threshold_start_pct") {
        String::from_str("Start threshold (%)")
    } else if str_eq(key, "threshold_stop_pct") {
        String::from_str("Stop threshold (%)")
    } else if str_eq(key, "connected") {
        String::from_str("✓ Connected")
    } else if str_eq(key, "disconnected") {
        String::from_str("✗ Disconnected")
    } else if str_eq(key, "device_type") {
        String::from_str("Type")
    } else if str_eq(key, "device_scope") {
        String::from_str("Scope")
    } else if str_eq(key, "serial_number") {
        String::from_str("Serial")
    } else if str_eq(key, "wear") {
        String::from_str("Wear")
    } else if str_eq(key, "cycles") {
        String::from_str("Cycles")
    } else if str_eq(key, "adapter") {
        String::from_str("Adapter")
    } else if str_eq(key, "name") {
        String::from_str("Name")
    } else if str_eq(key, "type") {
        String::from_str("Type")
    } else if str_eq(key, "current_capacity") {
        String::from_str("Current")
    } else if str_eq(key, "full_capacity") {
        String::from_str("Full")
    } else if str_eq(key, "design_capacity") {
        String::from_str("Design")
    } else if str_eq(key, "enable_systemd_service") {
        String::from_str("Enable systemd service")
    } else if str_eq(key, "note_enabled") {
        String::from_str("<b>Enabled:</b> applies thresholds immediately and persistently")
    } else if str_eq(key, "note_disabled") {
        String::from_str("<b>Disabled:</b> applies thresholds immediately, but changes will be lost after reboot")
    } else if str_eq(key, "note_apply_required") {
        String::from_str("<b>Important:</b> settings are applied only after clicking the <i>Apply</i> button.")
    } else if str_eq(key, "warning_not_persistent") {
        String::from_str("⚠️ Without the service, these settings will be lost after reboot.")
    } else if str_eq(key, "apply_all_settings") {
        String::from_str("Apply all settings")
    } else if str_eq(key, "error_start_greater_stop") {
        String::from_str("Error: start threshold must be lower than stop threshold")
    } else if str_eq(key, "success_applied") {
        String::from_str("Settings applied successfully")
    } else if str_eq(key, "error_execution") {
        String::from_str("Execution error")
    } else if str_eq(key, "language_setting") {
        String::from_str("Interface Language")
    } else if str_eq(key, "language_fr") {
        String::from_str("Français")
    } else if str_eq(key, "language_en") {
        String::from_str("English")
    } else if str_eq(key, "language_changed") {
        String::from_str("Language changed. Restart the application to apply.")
    } else if str_eq(key, "restart_required") {
        String::from_str("Auto-restart in 1 second...")
    } else if str_eq(key, "theme_setting") {
        String::from_str("Interface Theme")
    } else if str_eq(key, "theme_light") {
        String::from_str("Light")
    } else if str_eq(key, "theme_dark") {
        String::from_str("Dark")
    } else if str_eq(key, "theme_applied") {
        String::from_str("Theme applied immediately")
    } else if str_eq(key, "not_detected") {
        String::from_str("Not detected")
    } else if str_eq(key, "time_until_full") {
        String::from_str("until full")
    } else if str_eq(key, "time_remaining") {
        String::from_str("remaining")
    } else if str_eq(key, "documentation") {
        String::from_str("Documentation")
    } else if str_eq(key, "open_readme") {
        String::from_str("Open README")
    } else if str_eq(key, "open_references") {
        String::from_str("Open references")
    } else if str_eq(key, "docs_not_found") {
        String::from_str("Documentation not found (not installed?)")
    } else if str_eq(key, "docs_open_failed") {
        String::from_str("Unable to open documentation")
    } else if str_eq(key, "help") {
        String::from_str("Help")
    } else if str_eq(key, "about") {
        String::from_str("About")
    } else if str_eq(key, "open_about") {
        String::from_str("Open About")
    } else if str_eq(key, "about_text") {
        String::from_str("Battery charge threshold manager (GTK4) with systemd restoration.")
    } else {
        String::from_str(key)
    }
}

} // verus!
