//! The durable panic log: the record format appended to the backtraces file,
//! resolution of that file's path, and a parser that recovers the records.
//!
//! A record is one block, terminated by a blank line: a header line
//! `<timestamp> - <message>` followed by the backtrace text.

use vstd::prelude::*;
use vstd::string::*;

use crate::panic_message::{
    generate_panic_message, generate_stderr_log_message, spec_panic_message, spec_payload_view,
    spec_stderr_message,
};
use crate::text::push_char;

verus! {

/// The header separator between the timestamp and the message.
pub open spec fn spec_dash_sep() -> Seq<char> {
    seq![' ', '-', ' ']
}

/// The block terminator: a newline ending the backtrace, then a blank line.
pub open spec fn spec_block_sep() -> Seq<char> {
    seq!['\n', '\n']
}

/// A timestamp can stand in a record header: no newline, and never a space
/// immediately followed by a dash, so the header separator cannot occur
/// early.
pub open spec fn wf_timestamp(ts: Seq<char>) -> bool {
    &&& forall|j: int| 0 <= j < ts.len() ==> #[trigger] ts[j] != '\n'
    &&& forall|j: int|
        0 <= j && j + 1 < ts.len() ==> !(#[trigger] ts[j] == ' ' && ts[j + 1] == '-')
}

/// A message can stand in a record header: it stays on one line.
pub open spec fn wf_message(msg: Seq<char>) -> bool {
    forall|j: int| 0 <= j < msg.len() ==> #[trigger] msg[j] != '\n'
}

/// A backtrace text can stand in a record body: nonempty, no blank line
/// inside, and no newline at either end.
pub open spec fn wf_backtrace(bt: Seq<char>) -> bool {
    &&& bt.len() > 0
    &&& bt[0] != '\n'
    &&& bt[bt.len() - 1] != '\n'
    &&& forall|j: int|
        0 <= j && j + 1 < bt.len() ==> !(#[trigger] bt[j] == '\n' && bt[j + 1] == '\n')
}

/// The text of one record in the backtraces file.
pub open spec fn spec_panic_record(ts: Seq<char>, msg: Seq<char>, bt: Seq<char>) -> Seq<char> {
    ts + spec_dash_sep() + msg + seq!['\n'] + bt + spec_block_sep()
}

/// Renders one record of the backtraces file from its three parts.
pub fn format_panic_record(timestamp: &str, message: &str, backtrace: &str) -> (r: String)
    ensures
        r@ == spec_panic_record(timestamp@, message@, backtrace@),
{
    let mut r = String::from_str(timestamp);
    push_char(&mut r, ' ');
    push_char(&mut r, '-');
    push_char(&mut r, ' ');
    r.append(message);
    push_char(&mut r, '\n');
    r.append(backtrace);
    push_char(&mut r, '\n');
    push_char(&mut r, '\n');
    proof {
        assert(r@ =~= spec_panic_record(timestamp@, message@, backtrace@));
    }
    r
}

/// Relies on `std::time::SystemTime::now` and on the `time` crate's
/// `OffsetDateTime::format` with the description
/// `[year]-[month]-[day] [hour]:[minute]:[second]`: every component is
/// rendered as digits (the year possibly signed) joined by `-`, `:` and a
/// single space before the hour, so the result holds no newline and no space
/// followed by a dash.  A formatting failure falls back to a fixed text of
/// the same shape.
#[verifier::external_body]
fn now_timestamp() -> (r: String)
    ensures
        wf_timestamp(r@),
{
    let now: time::OffsetDateTime = std::time::SystemTime::now().into();
    let rendered = time::format_description::parse(
        "[year]-[month]-[day] [hour]:[minute]:[second]",
    )
        .ok()
        .and_then(|description| now.format(&description).ok());
    match rendered {
        Some(ts) => ts,
        None => String::from("0000-00-00 00:00:00"),
    }
}

/// Relies on `backtrace::Backtrace::new` and its `Debug` rendering, one frame
/// per line; `str::trim_end_matches` removes the trailing newlines so that
/// the record format owns the block boundary.
#[verifier::external_body]
fn capture_backtrace() -> (r: String)
    ensures
        r@.len() > 0 ==> r@[r@.len() - 1] != '\n',
{
    let rendered = format!("{:?}", backtrace::Backtrace::new());
    rendered.trim_end_matches('\n').to_string()
}

/// Builds the record that a panic appends to the backtraces file: a fresh
/// timestamp, the panic message, and the backtrace rendered by the caller.
pub fn generate_panic_log_message(
    payload: &Option<String>,
    file: &str,
    line: u32,
    column: u32,
    backtrace: &str,
) -> (r: String)
    ensures
        exists|ts: Seq<char>|
            #[trigger] wf_timestamp(ts) && r@ == spec_panic_record(
                ts,
                spec_panic_message(spec_payload_view(payload), file@, line, column),
                backtrace@,
            ),
{
    let ts = now_timestamp();
    let msg = generate_panic_message(payload, file, line, column);
    let r = format_panic_record(ts.as_str(), msg.as_str(), backtrace);
    proof {
        assert(wf_timestamp(ts@));
    }
    r
}

/// Everything a panic hook has to emit: the stderr report, the record for the
/// backtraces file, and the backtrace text both were built from.
pub struct PanicReport {
    pub stderr_message: String,
    pub log_record: String,
    pub backtrace: String,
}

/// Builds the whole panic report.  The backtrace is captured once and shared
/// by the stderr report and the log record, as the panic hook does.
pub fn render_panic_report(
    payload: &Option<String>,
    file: &str,
    line: u32,
    column: u32,
    diagnostic_build: bool,
    backtrace_env: &Option<String>,
) -> (r: PanicReport)
    ensures
        r.stderr_message@ == spec_stderr_message(
            spec_payload_view(payload),
            file@,
            line,
            column,
            diagnostic_build,
            spec_payload_view(backtrace_env),
            r.backtrace@,
        ),
        exists|ts: Seq<char>|
            #[trigger] wf_timestamp(ts) && r.log_record@ == spec_panic_record(
                ts,
                spec_panic_message(spec_payload_view(payload), file@, line, column),
                r.backtrace@,
            ),
        r.backtrace@.len() > 0 ==> r.backtrace@[r.backtrace@.len() - 1] != '\n',
{
    let backtrace = capture_backtrace();
    let stderr_message = generate_stderr_log_message(
        payload,
        file,
        line,
        column,
        diagnostic_build,
        backtrace_env,
        backtrace.as_str(),
    );
    let log_record = generate_panic_log_message(payload, file, line, column, backtrace.as_str());
    PanicReport { stderr_message, log_record, backtrace }
}

/// The fixed name of the backtraces file under the persisted-data directory.
pub fn default_backtraces_file() -> (r: &'static str)
    ensures
        r@ == "neovide_backtraces.log"@,
{
    "neovide_backtraces.log"
}

/// The environment variable that overrides the backtraces file path.
pub fn backtraces_file_env_var() -> (r: &'static str)
    ensures
        r@ == "NEOVIDE_BACKTRACES"@,
{
    "NEOVIDE_BACKTRACES"
}

/// Where the panic log goes: the explicit path when the caller (the
/// Config-aware hook) supplied one, else the environment override, else the
/// default file under the persisted-data directory.
pub open spec fn spec_resolved_backtraces_path(
    explicit: Option<Seq<char>>,
    env_override: Option<Seq<char>>,
    data_dir: Seq<char>,
) -> Seq<char> {
    match explicit {
        Some(p) => p,
        None => match env_override {
            Some(v) => v,
            None => data_dir + seq!['/'] + "neovide_backtraces.log"@,
        },
    }
}

/// Resolves the path of the backtraces file from the explicit path, the
/// environment override's value, and the persisted-data directory.
pub fn resolve_backtraces_path(
    explicit: &Option<String>,
    env_override: &Option<String>,
    data_dir: &str,
) -> (r: String)
    ensures
        r@ == spec_resolved_backtraces_path(
            spec_payload_view(explicit),
            spec_payload_view(env_override),
            data_dir@,
        ),
{
    match explicit {
        Some(p) => p.clone(),
        None => match env_override {
            Some(v) => v.clone(),
            None => {
                let mut r = String::from_str(data_dir);
                push_char(&mut r, '/');
                r.append(default_backtraces_file());
                proof {
                    assert(r@ =~= data_dir@ + seq!['/'] + "neovide_backtraces.log"@);
                }
                r
            },
        },
    }
}

/// `needle` occurs in `hay` at position `i`.
pub open spec fn match_at(hay: Seq<char>, needle: Seq<char>, i: int) -> bool {
    0 <= i && i + needle.len() <= hay.len() && hay.subrange(i, i + needle.len() as int) == needle
}

/// The least position at which `needle` occurs in `hay`, `-1` when it never
/// does.
pub open spec fn spec_find(hay: Seq<char>, needle: Seq<char>) -> int
    decreases hay.len(),
{
    if hay.len() < needle.len() {
        -1
    } else if hay.subrange(0, needle.len() as int) == needle {
        0
    } else if hay.len() == 0 {
        -1
    } else {
        let r = spec_find(hay.subrange(1, hay.len() as int), needle);
        if r < 0 {
            -1
        } else {
            r + 1
        }
    }
}

/// Occurrences in the tail of `hay` are occurrences in `hay`, one further on.
proof fn lemma_match_at_tail(hay: Seq<char>, needle: Seq<char>, j: int)
    requires
        hay.len() >= 1,
        0 <= j,
    ensures
        match_at(hay.subrange(1, hay.len() as int), needle, j) == match_at(hay, needle, j + 1),
{
    let tail = hay.subrange(1, hay.len() as int);
    if j + needle.len() <= tail.len() {
        assert(tail.subrange(j, j + needle.len() as int) =~= hay.subrange(
            j + 1,
            j + 1 + needle.len() as int,
        ));
    }
}

/// `spec_find` is sound and finds the least occurrence.
proof fn lemma_find_correct(hay: Seq<char>, needle: Seq<char>)
    requires
        needle.len() > 0,
    ensures
        spec_find(hay, needle) >= 0 ==> match_at(hay, needle, spec_find(hay, needle)),
        spec_find(hay, needle) >= 0 ==> forall|j: int|
            0 <= j < spec_find(hay, needle) ==> !match_at(hay, needle, j),
        spec_find(hay, needle) < 0 ==> forall|j: int| !match_at(hay, needle, j),
    decreases hay.len(),
{
    if hay.len() < needle.len() {
        assert forall|j: int| !match_at(hay, needle, j) by {}
    } else if hay.subrange(0, needle.len() as int) == needle {
        assert(match_at(hay, needle, 0));
    } else {
        let tail = hay.subrange(1, hay.len() as int);
        lemma_find_correct(tail, needle);
        let r = spec_find(tail, needle);
        if r >= 0 {
            lemma_match_at_tail(hay, needle, r);
            assert(spec_find(hay, needle) == r + 1);
            assert forall|j: int| 0 <= j < r + 1 implies !match_at(hay, needle, j) by {
                if j >= 1 {
                    lemma_match_at_tail(hay, needle, j - 1);
                }
            }
        } else {
            assert forall|j: int| !match_at(hay, needle, j) by {
                if j >= 1 {
                    lemma_match_at_tail(hay, needle, j - 1);
                }
            }
        }
    }
}

/// An occurrence with none before it is the one `spec_find` finds.
proof fn lemma_find_is(hay: Seq<char>, needle: Seq<char>, k: int)
    requires
        needle.len() > 0,
        match_at(hay, needle, k),
        forall|j: int| 0 <= j < k ==> !match_at(hay, needle, j),
    ensures
        spec_find(hay, needle) == k,
{
    lemma_find_correct(hay, needle);
    let r = spec_find(hay, needle);
    if r < 0 {
        assert(!match_at(hay, needle, k));
    } else {
        if r < k {
            assert(!match_at(hay, needle, r));
        }
        if k < r {
            assert(!match_at(hay, needle, k));
        }
    }
}

/// Splits one block into its timestamp, message and backtrace: the text up to
/// the first header separator, the rest of the header line, and what follows
/// it.
pub open spec fn spec_parse_block(b: Seq<char>) -> Option<(Seq<char>, Seq<char>, Seq<char>)> {
    let i = spec_find(b, spec_dash_sep());
    if i < 0 || i + 3 > b.len() {
        None
    } else {
        let ts = b.subrange(0, i);
        let rest = b.subrange(i + 3, b.len() as int);
        let j = spec_find(rest, seq!['\n']);
        if j < 0 || j + 1 > rest.len() {
            None
        } else {
            Some((ts, rest.subrange(0, j), rest.subrange(j + 1, rest.len() as int)))
        }
    }
}

/// Splits a log into its blank-line-terminated blocks and parses each; `None`
/// when the text is not a whole number of well-formed blocks.
pub open spec fn spec_parse_log(s: Seq<char>) -> Option<Seq<(Seq<char>, Seq<char>, Seq<char>)>>
    decreases s.len(),
{
    if s.len() == 0 {
        Some(seq![])
    } else {
        let i = spec_find(s, spec_block_sep());
        if i < 0 || i + 2 > s.len() {
            None
        } else {
            let head = spec_parse_block(s.subrange(0, i));
            let tail = spec_parse_log(s.subrange(i + 2, s.len() as int));
            match (head, tail) {
                (Some(e), Some(rest)) => Some(seq![e] + rest),
                _ => None,
            }
        }
    }
}

/// A record's three parts can be written and read back.
pub open spec fn wf_log_entry(e: (Seq<char>, Seq<char>, Seq<char>)) -> bool {
    wf_timestamp(e.0) && wf_message(e.1) && wf_backtrace(e.2)
}

/// The log text that appending these records, in order, produces.
pub open spec fn spec_log_text(entries: Seq<(Seq<char>, Seq<char>, Seq<char>)>) -> Seq<char>
    decreases entries.len(),
{
    if entries.len() == 0 {
        Seq::empty()
    } else {
        spec_panic_record(entries[0].0, entries[0].1, entries[0].2) + spec_log_text(
            entries.drop_first(),
        )
    }
}

/// A well-formed block parses back into exactly the parts it was written
/// from.
proof fn lemma_block_parses(ts: Seq<char>, msg: Seq<char>, bt: Seq<char>)
    requires
        wf_timestamp(ts),
        wf_message(msg),
        wf_backtrace(bt),
    ensures
        spec_parse_block(ts + spec_dash_sep() + msg + seq!['\n'] + bt) == Some((ts, msg, bt)),
{
    let b = ts + spec_dash_sep() + msg + seq!['\n'] + bt;
    let t = ts.len() as int;
    assert(match_at(b, spec_dash_sep(), t)) by {
        assert(b.subrange(t, t + 3) =~= spec_dash_sep());
    }
    assert forall|j: int| 0 <= j < t implies !match_at(b, spec_dash_sep(), j) by {
        if match_at(b, spec_dash_sep(), j) {
            assert(b.subrange(j, j + 3)[0] == b[j]);
            assert(b.subrange(j, j + 3)[1] == b[j + 1]);
            assert(b[j] == ' ' && b[j + 1] == '-');
            assert(b[j] == ts[j]);
            if j + 1 < t {
                assert(b[j + 1] == ts[j + 1]);
            } else {
                assert(b[j + 1] == ' ');
            }
        }
    }
    lemma_find_is(b, spec_dash_sep(), t);

    let rest = b.subrange(t + 3, b.len() as int);
    assert(rest =~= msg + seq!['\n'] + bt);
    let m = msg.len() as int;
    assert(match_at(rest, seq!['\n'], m)) by {
        assert(rest.subrange(m, m + 1) =~= seq!['\n']);
    }
    assert forall|j: int| 0 <= j < m implies !match_at(rest, seq!['\n'], j) by {
        if match_at(rest, seq!['\n'], j) {
            assert(rest.subrange(j, j + 1)[0] == rest[j]);
            assert(rest[j] == msg[j]);
        }
    }
    lemma_find_is(rest, seq!['\n'], m);

    assert(b.subrange(0, t) =~= ts);
    assert(rest.subrange(0, m) =~= msg);
    assert(rest.subrange(m + 1, rest.len() as int) =~= bt);
}

/// In `record + anything`, the first blank line is the record's own
/// terminator: a well-formed record holds no earlier one.
proof fn lemma_record_finds_sep(ts: Seq<char>, msg: Seq<char>, bt: Seq<char>, tail: Seq<char>)
    requires
        wf_timestamp(ts),
        wf_message(msg),
        wf_backtrace(bt),
    ensures
        ({
            let block = ts + spec_dash_sep() + msg + seq!['\n'] + bt;
            let s = spec_panic_record(ts, msg, bt) + tail;
            &&& spec_find(s, spec_block_sep()) == block.len()
            &&& s.subrange(0, block.len() as int) == block
            &&& s.subrange(block.len() as int + 2, s.len() as int) == tail
        }),
{
    let block = ts + spec_dash_sep() + msg + seq!['\n'] + bt;
    let s = spec_panic_record(ts, msg, bt) + tail;
    let t = ts.len() as int;
    let m = msg.len() as int;
    let h = t + 3 + m;  // the header's own newline
    let len = block.len() as int;
    assert(s =~= block + spec_block_sep() + tail);
    assert(match_at(s, spec_block_sep(), len)) by {
        assert(s.subrange(len, len + 2) =~= spec_block_sep());
    }
    assert forall|j: int| 0 <= j < len implies !match_at(s, spec_block_sep(), j) by {
        if match_at(s, spec_block_sep(), j) {
            assert(s.subrange(j, j + 2)[0] == s[j]);
            assert(s.subrange(j, j + 2)[1] == s[j + 1]);
            assert(s[j] == '\n' && s[j + 1] == '\n');
            if j < t {
                assert(s[j] == ts[j]);
            } else if j <= t + 2 {
                assert(s[j] == spec_dash_sep()[j - t]);
            } else if j < h {
                assert(s[j] == msg[j - (t + 3)]);
            } else if j == h {
                assert(s[j + 1] == bt[0]);
            } else if j < len - 1 {
                assert(s[j] == bt[j - h - 1] && s[j + 1] == bt[j - h]);
            } else {
                assert(s[j] == bt[bt.len() - 1]);
            }
        }
    }
    lemma_find_is(s, spec_block_sep(), len);
    assert(s.subrange(0, len) =~= block);
    assert(s.subrange(len + 2, s.len() as int) =~= tail);
}

/// Law: appending any number of well-formed panic records yields a log of
/// exactly that many blank-line-terminated blocks, and parsing recovers every
/// record — timestamp, message and backtrace — in order.
pub proof fn lemma_panic_log_round_trip(entries: Seq<(Seq<char>, Seq<char>, Seq<char>)>)
    requires
        forall|k: int| 0 <= k < entries.len() ==> #[trigger] wf_log_entry(entries[k]),
    ensures
        spec_parse_log(spec_log_text(entries)) == Some(entries),
    decreases entries.len(),
{
    if entries.len() == 0 {
        assert(spec_log_text(entries) =~= Seq::<char>::empty());
    } else {
        let e0 = entries[0];
        let rest = entries.drop_first();
        assert(wf_log_entry(entries[0]));
        let tail = spec_log_text(rest);
        let s = spec_log_text(entries);
        let block = e0.0 + spec_dash_sep() + e0.1 + seq!['\n'] + e0.2;
        lemma_record_finds_sep(e0.0, e0.1, e0.2, tail);
        lemma_block_parses(e0.0, e0.1, e0.2);
        assert(e0 == (e0.0, e0.1, e0.2));
        assert forall|k: int| 0 <= k < rest.len() implies #[trigger] wf_log_entry(rest[k]) by {
            assert(rest[k] == entries[k + 1]);
        }
        lemma_panic_log_round_trip(rest);
        assert(s.len() > 0);
        assert(seq![e0] + rest =~= entries);
    }
}

/// One parsed record of the backtraces file.
pub struct PanicLogEntry {
    pub timestamp: String,
    pub message: String,
    pub backtrace: String,
}

/// The three text parts of a parsed record.
pub open spec fn spec_entry_view(e: PanicLogEntry) -> (Seq<char>, Seq<char>, Seq<char>) {
    (e.timestamp@, e.message@, e.backtrace@)
}

/// The text parts of a sequence of parsed records.
pub open spec fn spec_entries_view(v: Seq<PanicLogEntry>) -> Seq<
    (Seq<char>, Seq<char>, Seq<char>),
> {
    v.map_values(|e: PanicLogEntry| spec_entry_view(e))
}

/// `needle` occurs in `hay` starting at `i`.
fn matches_at(hay: &str, needle: &str, i: usize) -> (r: bool)
    requires
        i + needle@.len() <= hay@.len(),
        hay@.len() <= usize::MAX,
    ensures
        r == match_at(hay@, needle@, i as int),
{
    let needle_len = needle.unicode_len();
    let mut k: usize = 0;
    while k < needle_len
        invariant
            needle_len == needle@.len(),
            i + needle_len <= hay@.len(),
            hay@.len() <= usize::MAX,
            0 <= k <= needle_len,
            forall|q: int| 0 <= q < k ==> hay@[i + q] == needle@[q],
        decreases needle_len - k,
    {
        let hc = hay.get_char(i + k);
        let nc = needle.get_char(k);
        if hc != nc {
            proof {
                assert(!match_at(hay@, needle@, i as int)) by {
                    if match_at(hay@, needle@, i as int) {
                        assert(hay@.subrange(i as int, i + needle@.len() as int)[k as int]
                            == hay@[i + k]);
                    }
                }
            }
            return false;
        }
        k += 1;
    }
    proof {
        assert(hay@.subrange(i as int, i + needle@.len() as int) =~= needle@);
    }
    true
}

/// The position of the first occurrence of `needle` in `hay`.
fn find_needle(hay: &str, needle: &str) -> (r: Option<usize>)
    requires
        needle@.len() > 0,
    ensures
        match r {
            Some(i) => spec_find(hay@, needle@) == i as int,
            None => spec_find(hay@, needle@) < 0,
        },
{
    let hay_len = hay.unicode_len();
    let needle_len = needle.unicode_len();
    if hay_len < needle_len {
        proof {
            lemma_find_correct(hay@, needle@);
        }
        return None;
    }
    let mut i: usize = 0;
    while i <= hay_len - needle_len
        invariant
            needle_len == needle@.len(),
            needle_len > 0,
            hay_len == hay@.len(),
            needle_len <= hay_len,
            0 <= i <= hay_len - needle_len + 1,
            forall|j: int| 0 <= j < i ==> !match_at(hay@, needle@, j),
        decreases hay_len - needle_len + 1 - i,
    {
        if matches_at(hay, needle, i) {
            proof {
                lemma_find_is(hay@, needle@, i as int);
            }
            return Some(i);
        }
        i += 1;
    }
    proof {
        lemma_find_correct(hay@, needle@);
        let r = spec_find(hay@, needle@);
        if r >= 0 {
            assert(!match_at(hay@, needle@, r));
        }
    }
    None
}

/// Parses one block into its record parts.
fn parse_panic_block(block: &str) -> (r: Option<PanicLogEntry>)
    ensures
        match r {
            Some(e) => spec_parse_block(block@) == Some(spec_entry_view(e)),
            None => spec_parse_block(block@) is None,
        },
{
    let dash = " - ";
    proof {
        reveal_strlit(" - ");
        assert(dash@ =~= spec_dash_sep());
    }
    match find_needle(block, dash) {
        None => None,
        Some(i) => {
            proof {
                lemma_find_correct(block@, spec_dash_sep());
            }
            let block_len = block.unicode_len();
            let ts = block.substring_char(0, i);
            let rest = block.substring_char(i + 3, block_len);
            let nl = "\n";
            proof {
                reveal_strlit("\n");
                assert(nl@ =~= seq!['\n']);
            }
            match find_needle(rest, nl) {
                None => None,
                Some(j) => {
                    proof {
                        lemma_find_correct(rest@, seq!['\n']);
                    }
                    let rest_len = rest.unicode_len();
                    let msg = rest.substring_char(0, j);
                    let bt = rest.substring_char(j + 1, rest_len);
                    Some(
                        PanicLogEntry {
                            timestamp: ts.to_owned(),
                            message: msg.to_owned(),
                            backtrace: bt.to_owned(),
                        },
                    )
                },
            }
        },
    }
}

/// Parses the whole backtraces file back into its records, in order; `None`
/// when the text is not a whole number of well-formed blocks.
pub fn parse_panic_log(log: &str) -> (r: Option<Vec<PanicLogEntry>>)
    ensures
        match r {
            Some(v) => spec_parse_log(log@) == Some(spec_entries_view(v@)),
            None => spec_parse_log(log@) is None,
        },
{
    let mut out: Vec<PanicLogEntry> = Vec::new();
    let mut rest: &str = log;
    proof {
        assert(spec_entries_view(out@) =~= Seq::<(Seq<char>, Seq<char>, Seq<char>)>::empty());
    }
    loop
        invariant
            match spec_parse_log(rest@) {
                Some(tail) => spec_parse_log(log@) == Some(spec_entries_view(out@) + tail),
                None => spec_parse_log(log@) is None,
            },
        decreases rest@.len(),
    {
        let rest_len = rest.unicode_len();
        if rest_len == 0 {
            proof {
                assert(spec_entries_view(out@) + Seq::<(Seq<char>, Seq<char>, Seq<char>)>::empty()
                    =~= spec_entries_view(out@));
            }
            return Some(out);
        }
        let sep = "\n\n";
        proof {
            reveal_strlit("\n\n");
            assert(sep@ =~= spec_block_sep());
        }
        match find_needle(rest, sep) {
            None => {
                return None;
            },
            Some(i) => {
                proof {
                    lemma_find_correct(rest@, spec_block_sep());
                }
                let block = rest.substring_char(0, i);
                match parse_panic_block(block) {
                    None => {
                        return None;
                    },
                    Some(e) => {
                        let ghost old_out = out@;
                        let ghost old_rest = rest@;
                        out.push(e);
                        rest = rest.substring_char(i + 2, rest_len);
                        proof {
                            assert(spec_entries_view(out@) =~= spec_entries_view(old_out) + seq![
                                spec_entry_view(e),
                            ]);
                            if spec_parse_log(rest@) is Some {
                                let tail = spec_parse_log(rest@)->Some_0;
                                assert(spec_parse_log(old_rest) == Some(
                                    seq![spec_entry_view(e)] + tail,
                                ));
                                assert(spec_entries_view(old_out) + (seq![spec_entry_view(e)]
                                    + tail) =~= spec_entries_view(out@) + tail);
                            }
                        }
                    },
                }
            },
        }
    }
}

} // verus!
