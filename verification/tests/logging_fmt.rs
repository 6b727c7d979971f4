//! The byte-exact shape of composed log and error messages, and the option
//! presets.

use supaterm::logging::{
    compose_error_message, compose_log_message, ErrorLoggingOptions, ErrorLoggingOptionsPresets,
    ErrorSourceLoggingOptions,
};

#[test]
fn log_message_shape() {
    let msg = compose_log_message("main.rs", 7, 3, "hello");
    assert_eq!(msg.as_slice(), b"[main.rs:7:3] hello\n".as_slice());
}

#[test]
fn log_message_multi_digit_location() {
    let msg = compose_log_message("src/terminal.rs", 123, 45, "queued");
    assert_eq!(msg.as_slice(), b"[src/terminal.rs:123:45] queued\n".as_slice());
}

#[test]
fn standard_preset_includes_everything() {
    let options = ErrorLoggingOptions::from(ErrorLoggingOptionsPresets::Standard);
    let msg = compose_error_message(
        &options,
        "src/x.rs",
        12,
        5,
        "DeviceError",
        "boom",
        Some("root cause"),
    );
    assert_eq!(
        msg.as_slice(),
        b"[src/x.rs:12:5] ERROR: DeviceError: boom (caused by DeviceError: root cause)".as_slice()
    );
}

#[test]
fn simple_preset_is_message_only() {
    let options = ErrorLoggingOptions::from(ErrorLoggingOptionsPresets::Simple);
    let msg = compose_error_message(
        &options,
        "src/x.rs",
        12,
        5,
        "DeviceError",
        "boom",
        Some("root cause"),
    );
    assert_eq!(msg.as_slice(), b"ERROR: boom".as_slice());
}

#[test]
fn source_clause_without_message() {
    let options = ErrorLoggingOptions {
        source: Some(ErrorSourceLoggingOptions { include_msg: false }),
        include_error_name: false,
        include_location: false,
    };
    let msg = compose_error_message(
        &options,
        "src/x.rs",
        1,
        1,
        "DeviceError",
        "boom",
        Some("root cause"),
    );
    assert_eq!(msg.as_slice(), b"ERROR: boom (caused by DeviceError)".as_slice());
}

#[test]
fn source_clause_skipped_when_error_has_no_source() {
    let options = ErrorLoggingOptions::from(ErrorLoggingOptionsPresets::Standard);
    let msg = compose_error_message(&options, "a.rs", 2, 4, "DeviceError", "boom", None);
    assert_eq!(
        msg.as_slice(),
        b"[a.rs:2:4] ERROR: DeviceError: boom".as_slice()
    );
}

#[test]
fn default_options_are_the_standard_preset() {
    let by_default = ErrorLoggingOptions::default();
    let standard = ErrorLoggingOptions::from(ErrorLoggingOptionsPresets::Standard);
    assert_eq!(by_default, standard);
    assert!(by_default.include_location);
    assert!(by_default.include_error_name);
    assert_eq!(
        by_default.source,
        Some(ErrorSourceLoggingOptions { include_msg: true })
    );
}

#[test]
fn simple_preset_fields() {
    let simple = ErrorLoggingOptions::from(ErrorLoggingOptionsPresets::Simple);
    assert_eq!(simple.source, None);
    assert!(!simple.include_error_name);
    assert!(!simple.include_location);
}
