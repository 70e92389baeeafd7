use host_router::logger::{envelope_line, format_decimal, JsonLogger, Severity};

#[test]
fn severity_labels() {
    assert_eq!(Severity::Error.as_str(), "ERROR");
    assert_eq!(Severity::Warn.as_str(), "WARN");
    assert_eq!(Severity::Info.as_str(), "INFO");
    assert_eq!(Severity::Debug.as_str(), "DEBUG");
    assert_eq!(Severity::Trace.as_str(), "TRACE");
}

#[test]
fn severity_labels_are_those_of_the_log_levels() {
    assert_eq!(Severity::Error.as_str(), log::Level::Error.to_string());
    assert_eq!(Severity::Warn.as_str(), log::Level::Warn.to_string());
    assert_eq!(Severity::Info.as_str(), log::Level::Info.to_string());
    assert_eq!(Severity::Debug.as_str(), log::Level::Debug.to_string());
    assert_eq!(Severity::Trace.as_str(), log::Level::Trace.to_string());
}

#[test]
fn decimal_of_small_numbers() {
    assert_eq!(format_decimal(0), "0");
    assert_eq!(format_decimal(7), "7");
    assert_eq!(format_decimal(10), "10");
    assert_eq!(format_decimal(1431648000), "1431648000");
}

#[test]
fn decimal_of_negative_numbers() {
    assert_eq!(format_decimal(-1), "-1");
    assert_eq!(format_decimal(-10), "-10");
    assert_eq!(format_decimal(-1431648000), "-1431648000");
}

#[test]
fn decimal_of_the_extremes() {
    assert_eq!(format_decimal(i64::MAX), "9223372036854775807");
    assert_eq!(format_decimal(i64::MIN), "-9223372036854775808");
}

#[test]
fn decimal_agrees_with_serde_json() {
    for n in [0, 1, -1, 9, 10, 99, 100, 101, -100, 1700000000, i64::MAX, i64::MIN, i64::MIN + 1] {
        assert_eq!(format_decimal(n), serde_json::Value::from(n).to_string());
    }
}

#[test]
fn envelope_line_joins_its_members() {
    assert_eq!(
        envelope_line("\"id-1\"", "\"INFO\"", "\"hello\"", 42),
        "{\"id\":\"id-1\",\"level\":\"INFO\",\"message\":\"hello\",\"timestamp\":42}"
    );
    assert_eq!(
        envelope_line("", "", "", -5),
        "{\"id\":,\"level\":,\"message\":,\"timestamp\":-5}"
    );
}

#[test]
fn logger_holds_its_sink_and_identifier() {
    let logger = JsonLogger::new(17u8, "trace-1".to_string());
    assert_eq!(logger.id(), "trace-1");
    assert_eq!(*logger.inner(), 17u8);
}

#[test]
fn envelope_of_a_plain_message() {
    let logger = JsonLogger::new((), "trace-1".to_string());
    assert_eq!(
        logger.envelope(1431648000, Severity::Info, "Route ID: rs1"),
        "{\"id\":\"trace-1\",\"level\":\"INFO\",\"message\":\"Route ID: rs1\",\"timestamp\":1431648000}"
    );
}

#[test]
fn envelope_escapes_its_strings() {
    let logger = JsonLogger::new((), "a\"b".to_string());
    assert_eq!(
        logger.envelope(0, Severity::Error, "line one\nline \\ two\t\u{1}"),
        "{\"id\":\"a\\\"b\",\"level\":\"ERROR\",\"message\":\"line one\\nline \\\\ two\\t\\u0001\",\"timestamp\":0}"
    );
}

#[test]
fn envelope_keeps_characters_of_several_bytes() {
    let logger = JsonLogger::new((), String::new());
    assert_eq!(
        logger.envelope(-1, Severity::Warn, "café 日本"),
        "{\"id\":\"\",\"level\":\"WARN\",\"message\":\"café 日本\",\"timestamp\":-1}"
    );
}

#[test]
fn envelope_is_the_json_object_of_its_members() {
    let logger = JsonLogger::new((), "id \u{7f} \"x\"".to_string());
    let message = "tab\there, quote \" and backslash \\ and \u{8} \u{c} \r";
    let mut members = serde_json::Map::new();
    members.insert("id".to_string(), serde_json::Value::from("id \u{7f} \"x\""));
    members.insert("timestamp".to_string(), serde_json::Value::from(1700000000i64));
    members.insert("level".to_string(), serde_json::Value::from("DEBUG"));
    members.insert("message".to_string(), serde_json::Value::from(message));
    assert_eq!(
        logger.envelope(1700000000, Severity::Debug, message),
        serde_json::Value::Object(members).to_string()
    );
}

#[test]
fn envelope_reads_back_as_json() {
    let logger = JsonLogger::new((), "trace \\ 9".to_string());
    let line = logger.envelope(-12, Severity::Trace, "a \"quoted\" word\n");
    let value: serde_json::Value = serde_json::from_str(&line).unwrap();
    assert_eq!(value["id"].as_str(), Some("trace \\ 9"));
    assert_eq!(value["level"].as_str(), Some("TRACE"));
    assert_eq!(value["message"].as_str(), Some("a \"quoted\" word\n"));
    assert_eq!(value["timestamp"].as_i64(), Some(-12));
}

#[test]
fn record_of_an_enabled_sink_gives_its_line() {
    let logger = JsonLogger::new((), "trace-1".to_string());
    assert_eq!(
        logger.log(true, 5, Severity::Warn, "careful"),
        Some(
            "{\"id\":\"trace-1\",\"level\":\"WARN\",\"message\":\"careful\",\"timestamp\":5}"
                .to_string()
        )
    );
    assert_eq!(
        logger.log(true, 5, Severity::Warn, "careful"),
        Some(logger.envelope(5, Severity::Warn, "careful"))
    );
}

#[test]
fn record_of_a_disabled_sink_gives_nothing() {
    let logger = JsonLogger::new((), "trace-1".to_string());
    assert_eq!(logger.log(false, 5, Severity::Error, "lost"), None);
}
