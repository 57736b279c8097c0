use latchnott::logging::{
    format_log_line, log_timestamp, needs_rotation, rotation_failure_line, LogLevel, MAX_LOG_SIZE,
};
use time::OffsetDateTime;

#[test]
fn writes_timestamped_log_line() {
    let line = format_log_line(&log_timestamp(OffsetDateTime::now_utc()), LogLevel::Info, "startup completed");

    assert!(line.contains("[INFO] startup completed"));
    assert!(line.contains("T"));
    assert!(line.ends_with('\n'));
}

#[test]
fn writes_warning_log_line() {
    let line = format_log_line("2024-01-01T00:00:00Z", LogLevel::Warn, "empty note input discarded");

    assert_eq!(line, "[2024-01-01T00:00:00Z] [WARN] empty note input discarded\n");
}

#[test]
fn note_content_is_not_modified_or_injected_by_logger() {
    let line = format_log_line("t", LogLevel::Info, "note saved successfully");

    assert!(!line.contains("Test note"));
    assert_eq!(line, "[t] [INFO] note saved successfully\n");
}

#[test]
fn level_names() {
    assert_eq!(LogLevel::Info.as_str(), "INFO");
    assert_eq!(LogLevel::Warn.as_str(), "WARN");
    assert_eq!(LogLevel::Error.as_str(), "ERROR");
}

#[test]
fn rotates_log_when_size_limit_is_exceeded() {
    assert_eq!(MAX_LOG_SIZE, 1024 * 1024);
    assert!(!needs_rotation(0, 100));
    assert!(!needs_rotation(MAX_LOG_SIZE - 10, 10));
    assert!(needs_rotation(MAX_LOG_SIZE - 10, 11));
    assert!(needs_rotation(MAX_LOG_SIZE, 1));
    assert!(needs_rotation(u64::MAX, u64::MAX));
}

#[test]
fn rotation_failure_is_an_error_line() {
    assert_eq!(
        rotation_failure_line("t", "denied"),
        "[t] [ERROR] failed to rotate log: denied\n"
    );
}

#[test]
fn log_time_is_the_rfc3339_form_of_the_given_time() {
    let now = OffsetDateTime::from_unix_timestamp(1_700_000_000).expect("valid time");
    assert_eq!(log_timestamp(now), "2023-11-14T22:13:20Z");

    let offset = time::UtcOffset::from_hms(2, 0, 15).expect("valid offset");
    assert_eq!(log_timestamp(now.to_offset(offset)), "unknown-time");
}
