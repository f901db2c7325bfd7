//! What the client decides when it looks after its daemon.
//!
//! The daemon leaves its process id in a PID file and a line in its log for
//! every sync. Whether it runs, and when it last synced, is read from these.

use vstd::prelude::*;
use vstd::string::*;

use crate::text::{chars_of, decimal_text, parse_unsigned, trim, trimmed, unsigned_usize, write_decimal};

verus! {

/// What the client is told to do with the daemon.
#[derive(Debug, Clone, Copy, PartialEq, Eq, Structural)]
pub enum DaemonCommand {
    /// Ask the running daemon to terminate, and remove its PID file.
    Stop,
    /// Spawn the daemon, and see that it runs.
    Start,
}

/// What restarting the daemon takes: a running daemon is stopped first, and
/// then the daemon is started.
pub fn restart_daemon(running: bool) -> (r: Vec<DaemonCommand>)
    ensures
        r@ == if running {
            seq![DaemonCommand::Stop, DaemonCommand::Start]
        } else {
            seq![DaemonCommand::Start]
        },
{
    let mut plan: Vec<DaemonCommand> = Vec::new();
    if running {
        plan.push(DaemonCommand::Stop);
    }
    plan.push(DaemonCommand::Start);
    proof {
        if running {
            assert(plan@ =~= seq![DaemonCommand::Stop, DaemonCommand::Start]);
        } else {
            assert(plan@ =~= seq![DaemonCommand::Start]);
        }
    }
    plan
}

/// The process id that the content of a PID file names: a number that fits
/// 32 bits, apart from whitespace around it.
pub open spec fn pid_of(content: Seq<char>) -> Option<u32> {
    match unsigned_usize(trimmed(content)) {
        Some(pid) => if pid <= u32::MAX {
            Some(pid as u32)
        } else {
            None
        },
        None => None,
    }
}

/// Reads the process id from the content of a PID file.
pub fn parse_pid(content: &str) -> (r: Option<u32>)
    ensures
        r == pid_of(content@),
{
    match parse_unsigned(trim(content)) {
        Some(pid) => {
            if pid <= 0xffff_ffff {
                Some(pid as u32)
            } else {
                None
            }
        },
        None => None,
    }
}

/// The process that has to be alive for the daemon to run: none where there
/// is no PID file, and the one that the file names where there is one. A
/// PID file that names no process id is an error.
pub fn is_daemon_running(pid_file: Option<&str>) -> (r: Result<Option<u32>, String>)
    ensures
        match pid_file {
            None => r == Ok::<Option<u32>, String>(None),
            Some(content) => match pid_of(content@) {
                Some(pid) => r == Ok::<Option<u32>, String>(Some(pid)),
                None => r is Err && r->Err_0@ == "Invalid PID format"@,
            },
        },
{
    match pid_file {
        None => Ok(None),
        Some(content) => match parse_pid(content) {
            Some(pid) => Ok(Some(pid)),
            None => Err(String::from_str("Invalid PID format")),
        },
    }
}

/// What is said of the daemon: that it runs, with its process id and the
/// time of its last sync, or that it does not.
pub open spec fn status_text(pid: Option<u32>, last_sync: Seq<char>) -> Seq<char> {
    match pid {
        Some(pid) => "✅ Running (PID "@ + decimal_text(pid as nat) + ") - Last sync: "@ + last_sync,
        None => "❌ Not running"@,
    }
}

/// Says how the daemon is doing. `pid` is the process id of the running
/// daemon, if it runs.
pub fn daemon_status(pid: Option<u32>, last_sync: &str) -> (r: String)
    ensures
        r@ == status_text(pid, last_sync@),
{
    match pid {
        Some(pid) => String::from_str("✅ Running (PID ").concat(write_decimal(pid).as_str()).concat(
            ") - Last sync: ",
        ).concat(last_sync),
        None => String::from_str("❌ Not running"),
    }
}

/// A line of the daemon's log: the time in brackets, and the message.
pub open spec fn log_line_text(timestamp: Seq<char>, message: Seq<char>) -> Seq<char> {
    seq!['['] + timestamp + seq![']', ' '] + message + seq!['\n']
}

/// Writes a line of the daemon's log.
pub fn log_message(timestamp: &str, message: &str) -> (r: String)
    ensures
        r@ == log_line_text(timestamp@, message@),
{
    proof {
        reveal_strlit("[");
        reveal_strlit("] ");
        reveal_strlit("\n");
        assert("["@ =~= seq!['[']);
        assert("] "@ =~= seq![']', ' ']);
        assert("\n"@ =~= seq!['\n']);
    }
    String::from_str("[").concat(timestamp).concat("] ").concat(message).concat("\n")
}

/// The words by which a line of the log tells of a sync that went through.
pub open spec fn sync_marker() -> Seq<char> {
    "Sync completed"@
}

/// Whether `needle` stands in `s` at `p`.
pub open spec fn occurs_at(s: Seq<char>, needle: Seq<char>, p: int) -> bool {
    0 <= p && p + needle.len() <= s.len() && s.subrange(p, p + needle.len()) == needle
}

/// The last place below `n` at which `needle` stands in `s`.
pub open spec fn last_occurrence_below(s: Seq<char>, needle: Seq<char>, n: int) -> Option<int>
    decreases n,
{
    if n <= 0 {
        None
    } else if occurs_at(s, needle, n - 1) {
        Some(n - 1)
    } else {
        last_occurrence_below(s, needle, n - 1)
    }
}

/// The last place at which `needle` stands in `s`.
pub open spec fn last_occurrence(s: Seq<char>, needle: Seq<char>) -> Option<int> {
    last_occurrence_below(s, needle, s.len() as int + 1)
}

/// Where the line begins in which `p` lies.
pub open spec fn line_start(s: Seq<char>, p: int) -> int
    decreases p,
{
    if p <= 0 || p > s.len() || s[p - 1] == '\n' {
        p
    } else {
        line_start(s, p - 1)
    }
}

/// Where the line ends in which `p` lies: at the next line feed, or at the
/// end of the text.
pub open spec fn line_end(s: Seq<char>, p: int) -> int
    decreases s.len() - p,
{
    if p < 0 || p >= s.len() || s[p] == '\n' {
        p
    } else {
        line_end(s, p + 1)
    }
}

/// The first place from `from` up to `to` at which `c` stands in `s`.
pub open spec fn first_between(s: Seq<char>, c: char, from: int, to: int) -> Option<int>
    decreases to - from,
{
    if from >= to || from < 0 || from >= s.len() {
        None
    } else if s[from] == c {
        Some(from)
    } else {
        first_between(s, c, from + 1, to)
    }
}

/// When the daemon last synced, as its log tells: what stands between the
/// first opening and the first closing bracket of the last line that tells
/// of a sync.
pub open spec fn last_sync_time(log: Seq<char>) -> Seq<char> {
    match last_occurrence(log, sync_marker()) {
        None => "No sync completed yet"@,
        Some(p) => {
            let from = line_start(log, p);
            let to = line_end(log, p);
            match (first_between(log, '[', from, to), first_between(log, ']', from, to)) {
                (Some(open), Some(close)) => if open < close {
                    log.subrange(open + 1, close)
                } else {
                    "Unknown timestamp"@
                },
                _ => "Unknown timestamp"@,
            }
        },
    }
}

/// Whether `needle` stands in `s` at `p`.
fn stands_at(s: &Vec<char>, needle: &Vec<char>, p: usize) -> (r: bool)
    requires
        p + needle@.len() <= s@.len(),
    ensures
        r == occurs_at(s@, needle@, p as int),
{
    let len = s.len();
    let mut k: usize = 0;
    while k < needle.len()
        invariant
            0 <= k <= needle@.len(),
            p + needle@.len() <= s@.len(),
            s@.len() == len,
            forall|j: int| 0 <= j < k ==> s@[p + j] == needle@[j],
        decreases needle@.len() - k,
    {
        if s[p + k] != needle[k] {
            assert(s@.subrange(p as int, p + needle@.len())[k as int] == s@[p + k]);
            return false;
        }
        k += 1;
    }
    assert(s@.subrange(p as int, p + needle@.len()) =~= needle@);
    true
}

/// Finds the last place at which `needle` stands in `s`.
fn find_last(s: &Vec<char>, needle: &Vec<char>) -> (r: Option<usize>)
    ensures
        match r {
            Some(p) => last_occurrence(s@, needle@) == Some(p as int) && p + needle@.len()
                <= s@.len(),
            None => last_occurrence(s@, needle@) is None,
        },
{
    if needle.len() > s.len() {
        proof {
            lemma_no_occurrence_above(s@, needle@, 0, s@.len() as int + 1);
        }
        return None;
    }
    let top = s.len() - needle.len();
    proof {
        lemma_no_occurrence_above(s@, needle@, top + 1, s@.len() as int + 1);
    }
    let mut q: usize = top;
    loop
        invariant
            0 <= q <= top,
            top + needle@.len() == s@.len(),
            last_occurrence(s@, needle@) == last_occurrence_below(s@, needle@, q + 1),
        decreases q,
    {
        if stands_at(s, needle, q) {
            return Some(q);
        }
        if q == 0 {
            assert(last_occurrence_below(s@, needle@, 0) is None);
            return None;
        }
        q -= 1;
    }
}

/// Where `needle` does not fit any more, it does not stand.
proof fn lemma_no_occurrence_above(s: Seq<char>, needle: Seq<char>, from: int, n: int)
    requires
        0 <= from <= n,
        from + needle.len() > s.len(),
    ensures
        last_occurrence_below(s, needle, n) == last_occurrence_below(s, needle, from),
    decreases n - from,
{
    if n > from {
        lemma_no_occurrence_above(s, needle, from, n - 1);
    }
}

/// Finds the first place from `from` up to `to` at which `c` stands.
fn find_between(s: &Vec<char>, c: char, from: usize, to: usize) -> (r: Option<usize>)
    requires
        from <= to <= s@.len(),
    ensures
        match r {
            Some(i) => first_between(s@, c, from as int, to as int) == Some(i as int) && from <= i < to,
            None => first_between(s@, c, from as int, to as int) is None,
        },
{
    let mut i = from;
    while i < to
        invariant
            from <= i <= to <= s@.len(),
            first_between(s@, c, from as int, to as int) == first_between(s@, c, i as int, to as int),
        decreases to - i,
    {
        if s[i] == c {
            return Some(i);
        }
        i += 1;
    }
    None
}

/// Reads from the daemon's log when it last synced. `log` is the content of
/// the log, if there is one.
pub fn get_last_sync_time(log: Option<&str>) -> (r: String)
    ensures
        r@ == match log {
            Some(content) => last_sync_time(content@),
            None => "No logs available"@,
        },
{
    let content = match log {
        Some(content) => content,
        None => {
            return String::from_str("No logs available");
        },
    };
    let s = chars_of(content);
    let needle = chars_of("Sync completed");
    let p = match find_last(&s, &needle) {
        Some(p) => p,
        None => {
            return String::from_str("No sync completed yet");
        },
    };
    let mut from = p;
    while from > 0 && s[from - 1] != '\n'
        invariant
            0 <= from <= p <= s@.len(),
            line_start(s@, p as int) == line_start(s@, from as int),
        decreases from,
    {
        from -= 1;
    }
    let mut to = p;
    while to < s.len() && s[to] != '\n'
        invariant
            p <= to <= s@.len(),
            line_end(s@, p as int) == line_end(s@, to as int),
        decreases s@.len() - to,
    {
        to += 1;
    }
    match (find_between(&s, '[', from, to), find_between(&s, ']', from, to)) {
        (Some(open), Some(close)) => {
            if open < close {
                String::from_str(content.substring_char(open + 1, close))
            } else {
                String::from_str("Unknown timestamp")
            }
        },
        _ => String::from_str("Unknown timestamp"),
    }
}

} // verus!
