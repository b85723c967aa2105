use containerspy::s_log::{debug, error, escape, fatal, info, log_impl, needs_escaping, warn,
    LogLevel};

fn ts_display(secs: i64, nanos: u32) -> String {
    chrono::DateTime::<chrono::Utc>::from_timestamp(secs, nanos)
        .unwrap()
        .format("%F %X%.3f")
        .to_string()
}

fn ts_rfc3339(secs: i64, nanos: u32) -> String {
    chrono::DateTime::<chrono::Utc>::from_timestamp(secs, nanos)
        .unwrap()
        .format("%+")
        .to_string()
}

#[test]
fn needs_escaping_on_unsafe_chars() {
    assert!(!needs_escaping("abc-DEF_123./"));
    assert!(needs_escaping("two words"));
    assert!(needs_escaping("line\nbreak"));
    assert!(needs_escaping("quo\"te"));
    assert!(needs_escaping("colon:"));
    // lowercase w is outside the safe alphabet
    assert!(needs_escaping("w"));
    assert!(!needs_escaping("W"));
    assert!(!needs_escaping(""));
}

#[test]
fn escape_rewrites_specials() {
    assert_eq!(escape("plain"), "plain");
    assert_eq!(escape("a\"b"), "a\\\"b");
    assert_eq!(escape("a\\b"), "a\\\\b");
    // a newline's marker backslash is itself escaped
    assert_eq!(escape("a\nb"), "a\\\\nb");
}

#[test]
fn debug_line_shape() {
    let secs = 1_700_000_000i64;
    let nanos = 123_000_000u32;
    let rich = vec![("container_id".to_string(), "abc123".to_string())];
    let line = debug("hello", &rich, secs, nanos);
    // the RFC 3339 timestamp holds colons, so its value is quoted
    let expected = format!(
        "{} ts=\"{}\" level=debug msg=hello container_id=abc123",
        ts_display(secs, nanos),
        ts_rfc3339(secs, nanos)
    );
    assert_eq!(line, expected);
}

#[test]
fn unsafe_message_is_quoted_and_escaped() {
    let secs = 0i64;
    let nanos = 0u32;
    let line = info("two words", &Vec::new(), secs, nanos);
    let expected = format!(
        "{} ts=\"{}\" level=info msg=\"two words\"",
        ts_display(secs, nanos),
        ts_rfc3339(secs, nanos)
    );
    assert_eq!(line, expected);
}

#[test]
fn unsafe_key_is_dropped() {
    let secs = 0i64;
    let nanos = 0u32;
    let rich = vec![
        ("bad key".to_string(), "v1".to_string()),
        ("good_key".to_string(), "v2".to_string()),
    ];
    let line = warn("m", &rich, secs, nanos);
    // "warn" holds a lowercase w, which sits outside the safe alphabet, so
    // even the level value is quoted on this one level
    let expected = format!(
        "{} ts=\"{}\" level=\"warn\" msg=m good_key=v2",
        ts_display(secs, nanos),
        ts_rfc3339(secs, nanos)
    );
    assert_eq!(line, expected);
}

#[test]
fn levels_render_their_names() {
    let rich: Vec<(String, String)> = Vec::new();
    assert!(error("m", &rich, 0, 0).contains(" level=error "));
    assert!(fatal("m", &rich, 0, 0).contains(" level=fatal "));
    assert!(log_impl(LogLevel::Info, "m", &rich, 0, 0).contains(" level=info "));
}
