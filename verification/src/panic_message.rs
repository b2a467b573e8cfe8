//! Construction of the human-readable messages that a panic produces: the
//! panic message naming the source location, and the stderr report built
//! around it.

use vstd::prelude::*;
use vstd::string::*;

use crate::text::{contains_seq, lemma_concat_contains, push_decimal, spec_decimal};

verus! {

/// The text standing in for a panic payload that is neither a `&str` nor a
/// `String`.
pub open spec fn spec_payload_text(payload: Option<Seq<char>>) -> Seq<char> {
    match payload {
        Some(s) => s,
        None => "Could not parse panic payload"@,
    }
}

/// The panic message: the payload in quotes followed by the source location.
pub open spec fn spec_panic_message(
    payload: Option<Seq<char>>,
    file: Seq<char>,
    line: u32,
    column: u32,
) -> Seq<char> {
    "Neovide panicked with the message '"@ + spec_payload_text(payload) + "'. (File: "@ + file
        + "; Line: "@ + spec_decimal(line as nat) + ", Column: "@ + spec_decimal(column as nat)
        + ")"@
}

/// Builds the panic message from the payload (already reduced to text, `None`
/// when the payload was of an unrecognized type) and the panic's source
/// location.
pub fn generate_panic_message(
    payload: &Option<String>,
    file: &str,
    line: u32,
    column: u32,
) -> (r: String)
    ensures
        r@ == spec_panic_message(spec_payload_view(payload), file@, line, column),
{
    let mut r = String::new();
    r.append("Neovide panicked with the message '");
    match payload {
        Some(p) => r.append(p.as_str()),
        None => r.append("Could not parse panic payload"),
    }
    r.append("'. (File: ");
    r.append(file);
    r.append("; Line: ");
    push_decimal(&mut r, line);
    r.append(", Column: ");
    push_decimal(&mut r, column);
    r.append(")");
    proof {
        assert(r@ =~= spec_panic_message(spec_payload_view(payload), file@, line, column));
    }
    r
}

/// The view of an optional payload string.
pub open spec fn spec_payload_view(payload: &Option<String>) -> Option<Seq<char>> {
    match payload {
        Some(p) => Some(p@),
        None => None,
    }
}

/// Law: for every panic payload, of string-like or of unrecognized type, the
/// panic message names the recorded file, line and column, and is never
/// empty.
pub proof fn lemma_panic_message_names_location(
    payload: Option<Seq<char>>,
    file: Seq<char>,
    line: u32,
    column: u32,
)
    ensures
        spec_panic_message(payload, file, line, column).len() > 0,
        contains_seq(spec_panic_message(payload, file, line, column), file),
        contains_seq(spec_panic_message(payload, file, line, column), spec_decimal(line as nat)),
        contains_seq(spec_panic_message(payload, file, line, column), spec_decimal(column as nat)),
{
    let m = spec_panic_message(payload, file, line, column);
    let p = spec_payload_text(payload);
    let lead = "Neovide panicked with the message '"@;
    reveal_strlit("Neovide panicked with the message '");
    assert(m.len() >= lead.len());

    let before_file = lead + p + "'. (File: "@;
    let after_file = "; Line: "@ + spec_decimal(line as nat) + ", Column: "@ + spec_decimal(
        column as nat,
    ) + ")"@;
    assert(m =~= before_file + file + after_file);
    lemma_concat_contains(before_file, file, after_file);

    let before_line = lead + p + "'. (File: "@ + file + "; Line: "@;
    let after_line = ", Column: "@ + spec_decimal(column as nat) + ")"@;
    assert(m =~= before_line + spec_decimal(line as nat) + after_line);
    lemma_concat_contains(before_line, spec_decimal(line as nat), after_line);

    let before_col = before_line + spec_decimal(line as nat) + ", Column: "@;
    let after_col = ")"@;
    assert(m =~= before_col + spec_decimal(column as nat) + after_col);
    lemma_concat_contains(before_col, spec_decimal(column as nat), after_col);
}

/// The environment opt-in for printing the backtrace on stderr: the variable
/// must be set to exactly `full` or `1`.
pub open spec fn spec_backtrace_requested(value: Option<Seq<char>>) -> bool {
    match value {
        Some(s) => s == "full"@ || s == "1"@,
        None => false,
    }
}

/// Decides, from the backtrace environment variable's value, whether the
/// stderr report should carry the full backtrace.
pub fn backtrace_requested(value: &Option<String>) -> (r: bool)
    ensures
        r == spec_backtrace_requested(spec_payload_view(value)),
{
    match value {
        Some(s) => {
            let full = String::from_str("full");
            let one = String::from_str("1");
            *s == full || *s == one
        },
        None => false,
    }
}

/// The stderr report: the panic message, the request to file a bug report,
/// and — only in a diagnostic build — either the backtrace (when the
/// environment opted in) or a one-line hint.
pub open spec fn spec_stderr_message(
    payload: Option<Seq<char>>,
    file: Seq<char>,
    line: u32,
    column: u32,
    diagnostic_build: bool,
    backtrace_env: Option<Seq<char>>,
    backtrace: Seq<char>,
) -> Seq<char> {
    let head = spec_panic_message(payload, file, line, column) + seq!['\n']
        + "This is a bug and we would love for it to be reported to https://github.com/neovide/neovide/issues"@;
    if diagnostic_build {
        if spec_backtrace_requested(backtrace_env) {
            head + seq!['\n'] + backtrace
        } else {
            head + seq!['\n']
                + "note: run with `RUST_BACKTRACE=1` environment variable to display a backtrace"@
        }
    } else {
        head
    }
}

/// Builds the stderr report.  `diagnostic_build` says whether this is a
/// debug/diagnostic build; `backtrace_env` is the value of the backtrace
/// environment variable; `backtrace` is the rendered backtrace text.
pub fn generate_stderr_log_message(
    payload: &Option<String>,
    file: &str,
    line: u32,
    column: u32,
    diagnostic_build: bool,
    backtrace_env: &Option<String>,
    backtrace: &str,
) -> (r: String)
    ensures
        r@ == spec_stderr_message(
            spec_payload_view(payload),
            file@,
            line,
            column,
            diagnostic_build,
            spec_payload_view(backtrace_env),
            backtrace@,
        ),
{
    let mut r = generate_panic_message(payload, file, line, column);
    crate::text::push_char(&mut r, '\n');
    r.append(
        "This is a bug and we would love for it to be reported to https://github.com/neovide/neovide/issues",
    );
    if diagnostic_build {
        crate::text::push_char(&mut r, '\n');
        if backtrace_requested(backtrace_env) {
            r.append(backtrace);
        } else {
            r.append(
                "note: run with `RUST_BACKTRACE=1` environment variable to display a backtrace",
            );
        }
    }
    proof {
        assert(r@ =~= spec_stderr_message(
            spec_payload_view(payload),
            file@,
            line,
            column,
            diagnostic_build,
            spec_payload_view(backtrace_env),
            backtrace@,
        ));
    }
    r
}

} // verus!
