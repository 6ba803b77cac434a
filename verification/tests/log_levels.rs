//! Log level selection from command line words.

use vn_extractord_core::logging::{convert_log_level, LogLevel};

#[test]
fn log_levels_from_known_words() {
    assert_eq!(convert_log_level("error"), LogLevel::Error);
    assert_eq!(convert_log_level("warn"), LogLevel::Warn);
    assert_eq!(convert_log_level("warning"), LogLevel::Warn);
    assert_eq!(convert_log_level("debug"), LogLevel::Debug);
    assert_eq!(convert_log_level("trace"), LogLevel::Trace);
}

#[test]
fn log_levels_ignore_ascii_case() {
    assert_eq!(convert_log_level("ERROR"), LogLevel::Error);
    assert_eq!(convert_log_level("Warning"), LogLevel::Warn);
    assert_eq!(convert_log_level("TrAcE"), LogLevel::Trace);
}

#[test]
fn unknown_log_levels_select_info() {
    assert_eq!(convert_log_level("info"), LogLevel::Info);
    assert_eq!(convert_log_level(""), LogLevel::Info);
    assert_eq!(convert_log_level("verbose"), LogLevel::Info);
    assert_eq!(convert_log_level("warn "), LogLevel::Info);
}
