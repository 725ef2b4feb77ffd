//! Diagnostic log formatting: classifying a log line by its text, making
//! sure a classified line carries its marker, and wrapping it in the ANSI
//! colour codes for the terminal.
//!
//! Whether diagnostics are enabled at all is explicit state handed in by the
//! caller; printing to the terminal belongs to the front-end.

use vstd::prelude::*;
use vstd::string::StringExecFns;

use crate::text::{contains, lower_seq, seq_contains, seq_starts_with, strip_prefix, to_ascii_lower};

verus! {

/// Whether diagnostic logging is switched on.
pub struct DebugState {
    pub enabled: bool,
}

impl DebugState {
    /// Fresh state; diagnostics start disabled.
    pub fn new() -> (r: Self)
        ensures
            !r.enabled,
    {
        DebugState { enabled: false }
    }
}

/// Switches diagnostic logging on.
pub fn enable_debug(state: &mut DebugState)
    ensures
        final(state).enabled,
{
    state.enabled = true;
}

/// Switches diagnostic logging off.
pub fn disable_debug(state: &mut DebugState)
    ensures
        !final(state).enabled,
{
    state.enabled = false;
}

/// Whether diagnostic logging is switched on.
pub fn is_debug_enabled(state: &DebugState) -> (r: bool)
    ensures
        r == state.enabled,
{
    state.enabled
}

/// Colour of a log line on the terminal.
#[derive(Clone, Copy, Debug, PartialEq, Eq, Structural)]
pub enum LogColor {
    Plain,
    Warning,
    Error,
}

/// The line reads as an error report.
pub open spec fn is_error_text(t: Seq<char>) -> bool {
    seq_contains(t, "[ERROR]"@) || seq_contains(t, "\u{274c}"@) || seq_contains(
        lower_seq(t),
        " error"@,
    ) || seq_contains(lower_seq(t), "error:"@) || seq_contains(lower_seq(t), "failed"@)
}

/// The line reads as a warning.
pub open spec fn is_warning_text(t: Seq<char>) -> bool {
    seq_contains(t, "[WARN]"@) || seq_contains(t, "[WARNING]"@) || seq_contains(t, "WARNING"@)
        || seq_contains(t, "\u{26a0}"@)
}

/// Colour that [`detect_color_from_text`] assigns: errors beat warnings.
pub open spec fn color_of_text(t: Seq<char>) -> LogColor {
    if is_error_text(t) {
        LogColor::Error
    } else if is_warning_text(t) {
        LogColor::Warning
    } else {
        LogColor::Plain
    }
}

/// Classifies a log line by the markers and words it contains.
pub fn detect_color_from_text(text: &str) -> (r: LogColor)
    ensures
        r == color_of_text(text@),
{
    let lower = to_ascii_lower(text);
    if contains(text, "[ERROR]") || contains(text, "\u{274c}") || contains(
        lower.as_str(),
        " error",
    ) || contains(lower.as_str(), "error:") || contains(lower.as_str(), "failed") {
        return LogColor::Error;
    }
    if contains(text, "[WARN]") || contains(text, "[WARNING]") || contains(text, "WARNING")
        || contains(text, "\u{26a0}") {
        return LogColor::Warning;
    }
    LogColor::Plain
}

/// What [`ensure_marker`] returns: a line classified as an error or warning
/// that lacks its marker has the marker spliced in after a known tag.
pub open spec fn ensure_marker_spec(line: Seq<char>, color: LogColor) -> Seq<char> {
    match color {
        LogColor::Error => {
            if !seq_contains(line, "\u{274c}"@) {
                if seq_starts_with(line, "[DEBUG] "@) {
                    "[DEBUG] \u{274c} "@ + line.skip("[DEBUG] "@.len() as int)
                } else if seq_starts_with(line, "[ERROR] "@) {
                    "[ERROR] \u{274c} "@ + line.skip("[ERROR] "@.len() as int)
                } else {
                    line
                }
            } else {
                line
            }
        },
        LogColor::Warning => {
            if !seq_contains(line, "\u{26a0}"@) {
                if seq_starts_with(line, "[DEBUG] "@) {
                    "[DEBUG] \u{26a0}\u{fe0f} "@ + line.skip("[DEBUG] "@.len() as int)
                } else if seq_starts_with(line, "[WARN] "@) {
                    "[WARN] \u{26a0}\u{fe0f} "@ + line.skip("[WARN] "@.len() as int)
                } else {
                    line
                }
            } else {
                line
            }
        },
        LogColor::Plain => line,
    }
}

/// Splices the marker of the classification into a tagged line that lacks it.
pub fn ensure_marker(line: String, color: LogColor) -> (r: String)
    ensures
        r@ == ensure_marker_spec(line@, color),
{
    match color {
        LogColor::Error => {
            if !contains(line.as_str(), "\u{274c}") {
                if let Some(rest) = strip_prefix(line.as_str(), "[DEBUG] ") {
                    let mut out = String::from_str("[DEBUG] \u{274c} ");
                    out.append(rest);
                    return out;
                }
                if let Some(rest) = strip_prefix(line.as_str(), "[ERROR] ") {
                    let mut out = String::from_str("[ERROR] \u{274c} ");
                    out.append(rest);
                    return out;
                }
            }
            line
        },
        LogColor::Warning => {
            if !contains(line.as_str(), "\u{26a0}") {
                if let Some(rest) = strip_prefix(line.as_str(), "[DEBUG] ") {
                    let mut out = String::from_str("[DEBUG] \u{26a0}\u{fe0f} ");
                    out.append(rest);
                    return out;
                }
                if let Some(rest) = strip_prefix(line.as_str(), "[WARN] ") {
                    let mut out = String::from_str("[WARN] \u{26a0}\u{fe0f} ");
                    out.append(rest);
                    return out;
                }
            }
            line
        },
        LogColor::Plain => line,
    }
}

/// What [`colorize_line`] returns: the line wrapped in the ANSI escape for
/// its colour, red for errors and yellow for warnings.
pub open spec fn colorize_spec(color: LogColor, line: Seq<char>) -> Seq<char> {
    match color {
        LogColor::Plain => line,
        LogColor::Error => "\u{1b}[31m"@ + line + "\u{1b}[0m"@,
        LogColor::Warning => "\u{1b}[33m"@ + line + "\u{1b}[0m"@,
    }
}

/// Wraps a line in the ANSI colour codes for its classification.
pub fn colorize_line(color: LogColor, line: &str) -> (r: String)
    ensures
        r@ == colorize_spec(color, line@),
{
    match color {
        LogColor::Plain => String::from_str(line),
        LogColor::Error => {
            let mut out = String::from_str("\u{1b}[31m");
            out.append(line);
            out.append("\u{1b}[0m");
            out
        },
        LogColor::Warning => {
            let mut out = String::from_str("\u{1b}[33m");
            out.append(line);
            out.append("\u{1b}[0m");
            out
        },
    }
}

} // verus!
