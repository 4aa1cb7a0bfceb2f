use logradar::util::{
    compact_count, ellipsis_truncate, provider_label, spark_levels, strip_ansi, trim_spaces,
    truncate_str,
};

#[test]
fn strip_sgr_codes() {
    assert_eq!(strip_ansi("\x1b[31mERROR\x1b[0m"), "ERROR");
    assert_eq!(strip_ansi("\x1b[1;32mOK\x1b[0m"), "OK");
}

#[test]
fn strip_dim_and_reset() {
    assert_eq!(
        strip_ansi("\x1b[2m2025-01-15T10:00:00Z\x1b[0m [INFO] hello"),
        "2025-01-15T10:00:00Z [INFO] hello"
    );
}

#[test]
fn no_ansi_passthrough() {
    let s = "plain log line with no escapes";
    assert_eq!(strip_ansi(s), s);
}

#[test]
fn strip_multiple_sequences() {
    assert_eq!(
        strip_ansi("\x1b[1m\x1b[31mred bold\x1b[0m normal"),
        "red bold normal"
    );
}

#[test]
fn strip_cursor_movement() {
    assert_eq!(strip_ansi("\x1b[2Jcleared"), "cleared");
}

#[test]
fn empty_string() {
    assert_eq!(strip_ansi(""), "");
}

#[test]
fn strip_json_encoded_ansi() {
    assert_eq!(strip_ansi(r#"\u001b[31mERROR\u001b[0m"#), "ERROR");
}

#[test]
fn strip_json_encoded_mixed() {
    assert_eq!(
        strip_ansi(r#"\u001b[2m2025-01-15\u001b[0m [INFO] hello"#),
        "2025-01-15 [INFO] hello"
    );
}

#[test]
fn strip_json_encoded_uppercase_b() {
    assert_eq!(strip_ansi(r#"\u001B[1mBOLD\u001B[0m"#), "BOLD");
}

#[test]
fn strip_is_idempotent_on_stripped_input() {
    let cases = [
        "\x1b[31mERROR\x1b[0m plain",
        "\x1b]0;title\x07rest",
        "no escapes at all",
        r#"\u001b[31mred\u001b[0m"#,
    ];
    for case in cases {
        let once = strip_ansi(case);
        let twice = strip_ansi(&once);
        assert_eq!(once, twice, "input: {:?}", case);
    }
}

#[test]
fn strip_osc_sequence() {
    assert_eq!(strip_ansi("\x1b]0;window title\x07visible"), "visible");
}

#[test]
fn truncate_keeps_short_strings() {
    assert_eq!(truncate_str("short", 10), "short");
    assert_eq!(truncate_str("whatever", 0), "whatever");
}

#[test]
fn truncate_cuts_long_strings() {
    assert_eq!(truncate_str("abcdefgh", 3), "abc");
}

#[test]
fn ellipsis_truncate_marks_the_cut() {
    assert_eq!(ellipsis_truncate("abcdefgh", 5), "abcd\u{2026}");
    assert_eq!(ellipsis_truncate("abc", 5), "abc");
    assert_eq!(ellipsis_truncate("abcdefgh", 3), "abc");
}

#[test]
fn compact_count_formats() {
    assert_eq!(compact_count(0), "0");
    assert_eq!(compact_count(999), "999");
    assert_eq!(compact_count(1_500), "1.5k");
    assert_eq!(compact_count(10_500), "11k");
    assert_eq!(compact_count(2_500_000), "2.5M");
}

#[test]
fn provider_labels() {
    assert_eq!(provider_label("docker"), "Docker");
    assert_eq!(provider_label("azure"), "Azure");
    assert_eq!(provider_label("command"), "Command");
    assert_eq!(provider_label("file"), "File");
    assert_eq!(provider_label("weird"), "weird");
}

#[test]
fn trim_spaces_both_ends() {
    assert_eq!(trim_spaces("  hello world \t"), "hello world");
    assert_eq!(trim_spaces("   "), "");
    assert_eq!(trim_spaces("x"), "x");
}

#[test]
fn sparkline_all_zero_renders_blanks() {
    let buckets: Vec<u16> = vec![0, 0, 0, 0];
    let levels = spark_levels(&buckets, 0);
    assert_eq!(levels.len(), 24);
    assert!(levels.iter().all(|&l| l == 0));
}

#[test]
fn sparkline_nonzero_buckets_get_levels() {
    let buckets: Vec<u16> = vec![1, 2, 3];
    let levels = spark_levels(&buckets, 4);
    assert_eq!(levels.len(), 24);
    // left padding is blank, the four data cells are not
    assert!(levels[..20].iter().all(|&l| l == 0));
    assert!(levels[20..].iter().all(|&l| l > 0));
}
