use neovide_core::panic_message::{backtrace_requested, generate_panic_message, generate_stderr_log_message};

const REQUEST_LINE: &str =
    "This is a bug and we would love for it to be reported to https://github.com/neovide/neovide/issues";
const HINT_LINE: &str =
    "note: run with `RUST_BACKTRACE=1` environment variable to display a backtrace";

#[test]
fn panic_message_with_string_payload() {
    let msg = generate_panic_message(&Some(String::from("boom")), "src/main.rs", 10, 5);
    assert_eq!(
        msg,
        "Neovide panicked with the message 'boom'. (File: src/main.rs; Line: 10, Column: 5)"
    );
}

#[test]
fn panic_message_with_unrecognized_payload() {
    let msg = generate_panic_message(&None, "lib.rs", 1, 2);
    assert_eq!(
        msg,
        "Neovide panicked with the message 'Could not parse panic payload'. (File: lib.rs; Line: 1, Column: 2)"
    );
}

#[test]
fn panic_message_names_file_line_and_column() {
    let msg = generate_panic_message(&Some(String::from("x")), "deep/dir/file.rs", 4294967295, 0);
    assert!(!msg.is_empty());
    assert!(msg.contains("deep/dir/file.rs"));
    assert!(msg.contains("4294967295"));
    assert!(msg.contains("Column: 0"));
}

#[test]
fn backtrace_opt_in_values() {
    assert!(backtrace_requested(&Some(String::from("full"))));
    assert!(backtrace_requested(&Some(String::from("1"))));
    assert!(!backtrace_requested(&Some(String::from("yes"))));
    assert!(!backtrace_requested(&Some(String::from(""))));
    assert!(!backtrace_requested(&None));
}

#[test]
fn stderr_message_in_release_has_no_backtrace_section() {
    let msg = generate_stderr_log_message(
        &Some(String::from("boom")),
        "a.rs",
        1,
        1,
        false,
        &Some(String::from("full")),
        "frame",
    );
    let expected = format!(
        "Neovide panicked with the message 'boom'. (File: a.rs; Line: 1, Column: 1)\n{}",
        REQUEST_LINE
    );
    assert_eq!(msg, expected);
}

#[test]
fn stderr_message_in_diagnostic_build_with_opt_in_carries_backtrace() {
    let msg = generate_stderr_log_message(
        &Some(String::from("boom")),
        "a.rs",
        1,
        1,
        true,
        &Some(String::from("1")),
        "frame one\nframe two",
    );
    let expected = format!(
        "Neovide panicked with the message 'boom'. (File: a.rs; Line: 1, Column: 1)\n{}\nframe one\nframe two",
        REQUEST_LINE
    );
    assert_eq!(msg, expected);
}

#[test]
fn stderr_message_in_diagnostic_build_without_opt_in_carries_hint() {
    let msg = generate_stderr_log_message(
        &Some(String::from("boom")),
        "a.rs",
        1,
        1,
        true,
        &None,
        "frame",
    );
    let expected = format!(
        "Neovide panicked with the message 'boom'. (File: a.rs; Line: 1, Column: 1)\n{}\n{}",
        REQUEST_LINE, HINT_LINE
    );
    assert_eq!(msg, expected);
}
