use logradar::parse::{detect_level, normalize, parse_line, Level};

#[test]
fn detect_level_error() {
    assert_eq!(detect_level("[ERROR] something failed"), Level::Error);
    assert_eq!(detect_level("error: bad thing"), Level::Error);
}

#[test]
fn detect_level_warn() {
    assert_eq!(detect_level("[WARN] disk almost full"), Level::Warn);
    assert_eq!(detect_level("Warning: low memory"), Level::Warn);
}

#[test]
fn detect_level_info() {
    assert_eq!(detect_level("[INFO] server started"), Level::Info);
}

#[test]
fn detect_level_debug() {
    assert_eq!(detect_level("[DEBUG] entering function"), Level::Debug);
}

#[test]
fn detect_level_trace() {
    assert_eq!(detect_level("[TRACE] packet received"), Level::Trace);
}

#[test]
fn detect_level_unknown() {
    assert_eq!(detect_level("just a random line"), Level::Unknown);
}

#[test]
fn detect_level_case_insensitive() {
    assert_eq!(detect_level("ErRoR in module"), Level::Error);
    assert_eq!(detect_level("info: all good"), Level::Info);
}

#[test]
fn detect_level_postgres_log() {
    assert_eq!(
        detect_level("2026-02-20 15:03:24 UTC [123] LOG:  checkpoint starting"),
        Level::Info
    );
}

#[test]
fn detect_level_postgres_statement() {
    assert_eq!(
        detect_level("2026-02-20 15:03:24 UTC [123] STATEMENT:  SELECT * FROM users"),
        Level::Debug
    );
}

#[test]
fn detect_level_postgres_detail() {
    assert_eq!(
        detect_level("2026-02-20 15:03:24 UTC [123] DETAIL:  Key already exists"),
        Level::Debug
    );
}

#[test]
fn detect_level_postgres_notice() {
    assert_eq!(
        detect_level("2026-02-20 15:03:24 UTC [123] NOTICE:  table created"),
        Level::Info
    );
}

#[test]
fn detect_level_postgres_hint() {
    assert_eq!(
        detect_level("HINT:  Consider using CREATE INDEX"),
        Level::Info
    );
}

#[test]
fn normalize_timestamp() {
    let out = normalize("2025-01-15T10:30:00Z request ok");
    assert!(out.contains("<TS>"));
    assert!(!out.contains("2025"));
}

#[test]
fn normalize_timestamp_with_offset() {
    let out = normalize("2025-01-15T10:30:00.123+05:30 hello");
    assert!(out.contains("<TS>"));
}

#[test]
fn normalize_uuid() {
    let out = normalize("id=550e8400-e29b-41d4-a716-446655440000 done");
    assert!(out.contains("<UUID>"));
    assert!(!out.contains("550e8400"));
}

#[test]
fn normalize_ip() {
    let out = normalize("from 192.168.1.100 port 8080");
    assert!(out.contains("<IP>"));
    assert!(!out.contains("192.168"));
}

#[test]
fn normalize_hex() {
    let out = normalize("addr 0xDEADBEEF offset 0x1a2b");
    assert!(out.contains("<HEX>"));
    assert!(!out.contains("DEADBEEF"));
}

#[test]
fn normalize_duration() {
    let out = normalize("took 350ms to respond");
    assert!(out.contains("<DUR>"));
    assert!(!out.contains("350ms"));
}

#[test]
fn normalize_numbers() {
    let out = normalize("processed 42 items in batch 7");
    assert_eq!(out.matches("<NUM>").count(), 2);
    assert!(!out.contains("42"));
}

#[test]
fn normalize_combined() {
    let line = "2025-01-15T10:00:00Z [INFO] 192.168.1.1 processed 100 requests in 50ms";
    let out = normalize(line);
    assert!(out.contains("<TS>"));
    assert!(out.contains("<IP>"));
    assert!(out.contains("<DUR>"));
    assert!(out.contains("<NUM>"));
}

#[test]
fn parse_line_integrates() {
    let ev = parse_line("test/src", "2025-01-01T00:00:00Z [ERROR] failed at 192.168.0.1");
    assert_eq!(ev.level, Level::Error);
    assert_eq!(ev.source, "test/src");
    assert!(ev.normalized.contains("<TS>"));
    assert!(ev.normalized.contains("<IP>"));
}

#[test]
fn normalize_syslog_timestamp() {
    let out = normalize("Feb 20 15:03:24 myhost sshd[12345]: Accepted");
    assert!(out.contains("<TS>"), "got: {}", out);
    assert!(!out.contains("Feb"));
    assert!(!out.contains("15:03"));
}

#[test]
fn normalize_redis_timestamp() {
    let out = normalize("12345:M 20 Feb 2026 15:03:24.123 * Background saving");
    assert!(out.contains("<TS>"), "got: {}", out);
    assert!(!out.contains("Feb"));
    assert!(!out.contains("15:03"));
}

#[test]
fn normalize_clf_timestamp() {
    let out = normalize("127.0.0.1 - - [20/Feb/2026:15:03:24 +0000] \"GET /\"");
    assert!(out.contains("<TS>"), "got: {}", out);
    assert!(!out.contains("Feb"));
}

#[test]
fn normalize_iso_utc_suffix() {
    let out = normalize("2026-02-20 15:03:24 UTC [123] LOG: checkpoint starting");
    assert!(out.contains("<TS>"), "got: {}", out);
    assert!(!out.contains("2026-02-20"));
}

#[test]
fn level_severity_ordering() {
    assert!(Level::Error.severity() > Level::Warn.severity());
    assert!(Level::Warn.severity() > Level::Info.severity());
    assert!(Level::Info.severity() > Level::Debug.severity());
    assert!(Level::Debug.severity() > Level::Trace.severity());
}

#[test]
fn normalize_is_idempotent_on_examples() {
    let cases = [
        "2025-01-15T10:00:00Z [INFO] served 42 req in 50ms",
        "id=550e8400-e29b-41d4-a716-446655440000 from 10.0.0.1",
        "GET /u/1",
        "plain text with no tokens",
        "Feb 20 15:03:24 host proc[77]: hello 0xff 1.5s",
        "",
    ];
    for case in cases {
        let once = normalize(case);
        let twice = normalize(&once);
        assert_eq!(once, twice, "input: {}", case);
    }
}

#[test]
fn single_line_clustering_signature() {
    let ev = parse_line("a", "2025-01-15T10:00:00Z [INFO] served 42 req in 50ms");
    assert!(ev.normalized.contains("<TS>"));
    assert!(ev.normalized.contains("<DUR>"));
    assert!(ev.normalized.contains("<NUM>"));
    assert_eq!(ev.level, Level::Info);
}

#[test]
fn variable_tokens_collapse_to_one_signature() {
    let a = normalize("GET /u/1");
    let b = normalize("GET /u/2");
    let c = normalize("GET /u/3");
    assert_eq!(a, "GET /u/<NUM>");
    assert_eq!(a, b);
    assert_eq!(b, c);
}

#[test]
fn level_tokens_stay_distinct_signatures() {
    let info = normalize("[INFO] ok");
    let error = normalize("[ERROR] ok");
    assert_ne!(info, error);
    assert_eq!(info, "[INFO] ok");
    assert_eq!(error, "[ERROR] ok");
}
