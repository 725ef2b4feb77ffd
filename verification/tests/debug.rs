use battery_manager::debug::{
    colorize_line, detect_color_from_text, disable_debug, enable_debug, ensure_marker,
    is_debug_enabled, DebugState, LogColor,
};

#[test]
fn test_debug_disabled_by_default() {
    let mut state = DebugState::new();
    disable_debug(&mut state);
    assert!(!is_debug_enabled(&state));
}

#[test]
fn test_enable_debug() {
    let mut state = DebugState::new();
    disable_debug(&mut state);
    enable_debug(&mut state);
    assert!(is_debug_enabled(&state));
}

#[test]
fn test_detect_color_from_text_cases() {
    assert_eq!(detect_color_from_text("[DEBUG] all fine"), LogColor::Plain);
    assert_eq!(detect_color_from_text("[ERROR] broke"), LogColor::Error);
    assert_eq!(detect_color_from_text("something Failed here"), LogColor::Error);
    assert_eq!(detect_color_from_text("an error: happened"), LogColor::Error);
    assert_eq!(detect_color_from_text("[WARN] look out"), LogColor::Warning);
    assert_eq!(detect_color_from_text("WARNING ahead"), LogColor::Warning);
    // an error marker wins over a warning marker
    assert_eq!(detect_color_from_text("[WARN] failed"), LogColor::Error);
}

#[test]
fn test_ensure_marker_splices_icon() {
    let line = "[DEBUG] read failed".to_string();
    let marked = ensure_marker(line, LogColor::Error);
    assert_eq!(marked, "[DEBUG] \u{274c} read failed");

    let line = "[WARN] slow read".to_string();
    let marked = ensure_marker(line, LogColor::Warning);
    assert_eq!(marked, "[WARN] \u{26a0}\u{fe0f} slow read");

    // a line that already carries the icon is unchanged
    let line = "[DEBUG] \u{274c} read failed".to_string();
    let marked = ensure_marker(line.clone(), LogColor::Error);
    assert_eq!(marked, line);

    // an untagged line is unchanged
    let line = "plain failure".to_string();
    let marked = ensure_marker(line.clone(), LogColor::Error);
    assert_eq!(marked, line);
}

#[test]
fn test_colorize_line_codes() {
    assert_eq!(colorize_line(LogColor::Plain, "x"), "x");
    assert_eq!(colorize_line(LogColor::Error, "x"), "\u{1b}[31mx\u{1b}[0m");
    assert_eq!(colorize_line(LogColor::Warning, "x"), "\u{1b}[33mx\u{1b}[0m");
}
