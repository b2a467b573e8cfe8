use neovide_core::panic_log::{
    backtraces_file_env_var, default_backtraces_file, format_panic_record,
    generate_panic_log_message, parse_panic_log, render_panic_report, resolve_backtraces_path,
};

#[test]
fn record_has_header_line_and_blank_line_terminator() {
    let record = format_panic_record("2026-01-02 03:04:05", "something broke", "frame one\nframe two");
    assert_eq!(record, "2026-01-02 03:04:05 - something broke\nframe one\nframe two\n\n");
}

#[test]
fn three_records_parse_back_in_order() {
    let mut log = String::new();
    log.push_str(&format_panic_record("2026-01-02 03:04:05", "first", "a\nb"));
    log.push_str(&format_panic_record("2026-01-02 03:04:06", "second", "c"));
    log.push_str(&format_panic_record("2026-01-02 03:04:07", "third", "d\ne\nf"));

    let entries = parse_panic_log(&log).expect("log should parse");
    assert_eq!(entries.len(), 3);
    assert_eq!(entries[0].timestamp, "2026-01-02 03:04:05");
    assert_eq!(entries[0].message, "first");
    assert_eq!(entries[0].backtrace, "a\nb");
    assert_eq!(entries[1].timestamp, "2026-01-02 03:04:06");
    assert_eq!(entries[1].message, "second");
    assert_eq!(entries[1].backtrace, "c");
    assert_eq!(entries[2].timestamp, "2026-01-02 03:04:07");
    assert_eq!(entries[2].message, "third");
    assert_eq!(entries[2].backtrace, "d\ne\nf");
}

#[test]
fn empty_log_parses_to_no_records() {
    let entries = parse_panic_log("").expect("empty log should parse");
    assert_eq!(entries.len(), 0);
}

#[test]
fn truncated_log_does_not_parse() {
    assert!(parse_panic_log("2026-01-02 03:04:05 - cut off\nframe").is_none());
}

#[test]
fn block_without_header_separator_does_not_parse() {
    assert!(parse_panic_log("just a line\nanother\n\n").is_none());
}

#[test]
fn generated_log_message_parses_back() {
    let record = generate_panic_log_message(
        &Some(String::from("boom")),
        "src/window.rs",
        42,
        7,
        "frame one\nframe two",
    );
    let entries = parse_panic_log(&record).expect("record should parse");
    assert_eq!(entries.len(), 1);
    assert_eq!(
        entries[0].message,
        "Neovide panicked with the message 'boom'. (File: src/window.rs; Line: 42, Column: 7)"
    );
    assert_eq!(entries[0].backtrace, "frame one\nframe two");
    // The live timestamp keeps the header's shape: date and time of day.
    assert_eq!(entries[0].timestamp.len(), 19);
}

#[test]
fn rendered_report_record_parses_back() {
    let report = render_panic_report(
        &Some(String::from("boom")),
        "src/editor.rs",
        3,
        4,
        false,
        &None,
    );
    assert!(report.stderr_message.starts_with(
        "Neovide panicked with the message 'boom'. (File: src/editor.rs; Line: 3, Column: 4)"
    ));
    let entries = parse_panic_log(&report.log_record).expect("record should parse");
    assert_eq!(entries.len(), 1);
    assert_eq!(entries[0].backtrace, report.backtrace);
}

#[test]
fn explicit_path_wins() {
    let path = resolve_backtraces_path(
        &Some(String::from("/tmp/config/bt.log")),
        &Some(String::from("/tmp/env/bt.log")),
        "/home/user/.local/share/neovide",
    );
    assert_eq!(path, "/tmp/config/bt.log");
}

#[test]
fn environment_override_wins_without_explicit_path() {
    let path = resolve_backtraces_path(
        &None,
        &Some(String::from("/tmp/env/bt.log")),
        "/home/user/.local/share/neovide",
    );
    assert_eq!(path, "/tmp/env/bt.log");
}

#[test]
fn default_path_is_under_the_data_directory() {
    let path = resolve_backtraces_path(&None, &None, "/home/user/.local/share/neovide");
    assert_eq!(path, "/home/user/.local/share/neovide/neovide_backtraces.log");
}

#[test]
fn fixed_names() {
    assert_eq!(default_backtraces_file(), "neovide_backtraces.log");
    assert_eq!(backtraces_file_env_var(), "NEOVIDE_BACKTRACES");
}
