//! The hard-rule code inspector: a deterministic scan of a code payload for
//! blacklisted tokens that indicate network binding, destructive file system
//! access, process spawning, raw memory access or privilege escalation.

use vstd::prelude::*;
use vstd::string::*;
use crate::text::{chars_of, contains_chars, contains_seq};

verus! {

/// Blacklisted tokens, each with the reason it is refused, in scan order.
pub open spec fn blacklist() -> Seq<(Seq<char>, Seq<char>)> {
    seq![
        ("std::net::TcpListener"@, "NET:  raw TCP listener forbidden"@),
        ("std::net::UdpSocket"@, "NET:  raw UDP socket forbidden"@),
        ("std::net::TcpStream::connect"@, "NET:  outbound TCP connect forbidden"@),
        ("std::fs::remove_dir_all"@, "FS:   recursive directory removal forbidden"@),
        ("std::fs::remove_file"@, "FS:   direct file removal forbidden"@),
        ("std::process::Command"@, "EXEC: shell command spawning forbidden"@),
        ("std::process::exit"@, "EXEC: forced process exit forbidden"@),
        ("libc::system"@, "EXEC: libc system() call forbidden"@),
        ("/dev/mem"@, "MEM:  raw memory device access forbidden"@),
        ("/dev/kmem"@, "MEM:  kernel memory access forbidden"@),
        ("chmod"@, "PRIV: chmod syscall pattern forbidden"@),
        ("setuid"@, "PRIV: setuid privilege escalation forbidden"@),
        ("ptrace"@, "PRIV: ptrace debugging attach forbidden"@),
        ("mprotect"@, "MEM:  mprotect page permission change forbidden"@),
        ("include_str!(\"/etc"@, "FS:   /etc file inclusion forbidden"@)
    ]
}

/// Number of entries in [`blacklist`].
pub const BLACKLIST_LEN: usize = 15;

/// The `i`-th blacklist entry: the token and the reason it is refused.
pub fn blacklist_entry(i: usize) -> (e: (&'static str, &'static str))
    requires
        i < BLACKLIST_LEN,
    ensures
        e.0@ == blacklist()[i as int].0,
        e.1@ == blacklist()[i as int].1,
{
    match i {
        0 => ("std::net::TcpListener", "NET:  raw TCP listener forbidden"),
        1 => ("std::net::UdpSocket", "NET:  raw UDP socket forbidden"),
        2 => ("std::net::TcpStream::connect", "NET:  outbound TCP connect forbidden"),
        3 => ("std::fs::remove_dir_all", "FS:   recursive directory removal forbidden"),
        4 => ("std::fs::remove_file", "FS:   direct file removal forbidden"),
        5 => ("std::process::Command", "EXEC: shell command spawning forbidden"),
        6 => ("std::process::exit", "EXEC: forced process exit forbidden"),
        7 => ("libc::system", "EXEC: libc system() call forbidden"),
        8 => ("/dev/mem", "MEM:  raw memory device access forbidden"),
        9 => ("/dev/kmem", "MEM:  kernel memory access forbidden"),
        10 => ("chmod", "PRIV: chmod syscall pattern forbidden"),
        11 => ("setuid", "PRIV: setuid privilege escalation forbidden"),
        12 => ("ptrace", "PRIV: ptrace debugging attach forbidden"),
        13 => ("mprotect", "MEM:  mprotect page permission change forbidden"),
        _ => ("include_str!(\"/etc", "FS:   /etc file inclusion forbidden"),
    }
}

/// The violation message for a blacklisted `token` refused for `reason`.
pub open spec fn violation_text(token: Seq<char>, reason: Seq<char>) -> Seq<char> {
    "[MOAT3] BLOCKED \u{2014} "@ + reason + " (token: `"@ + token + "`)"@
}

/// Violation messages for the first `n` blacklist entries whose token occurs
/// in `code`, in blacklist order.
pub open spec fn violations_upto(code: Seq<char>, n: int) -> Seq<Seq<char>>
    decreases n,
{
    if n <= 0 {
        Seq::empty()
    } else {
        let prev = violations_upto(code, n - 1);
        let entry = blacklist()[n - 1];
        if contains_seq(code, entry.0) {
            prev.push(violation_text(entry.0, entry.1))
        } else {
            prev
        }
    }
}

/// Violation messages for every blacklisted token that occurs in `code`.
pub open spec fn violations_of(code: Seq<char>) -> Seq<Seq<char>> {
    violations_upto(code, blacklist().len() as int)
}

/// No blacklisted token occurs in `code`.
pub open spec fn is_clean(code: Seq<char>) -> bool {
    forall|i: int| 0 <= i < blacklist().len() ==> !contains_seq(code, #[trigger] blacklist()[i].0)
}

/// The views of a vector of strings.
pub open spec fn string_views(v: Seq<String>) -> Seq<Seq<char>> {
    v.map_values(|s: String| s@)
}

/// The outcome of an inspection.
pub struct InspectionReport {
    pub passed: bool,
    pub violations: Vec<String>,
}

/// Scans code payloads against the blacklist.
pub struct CodeInspector;

/// The first `n` entries contribute no violation exactly when none of their
/// tokens occurs in the code.
proof fn lemma_violations_upto_empty(code: Seq<char>, n: int)
    requires
        0 <= n <= blacklist().len(),
    ensures
        violations_upto(code, n).len() == 0 <==> forall|i: int|
            0 <= i < n ==> !contains_seq(code, #[trigger] blacklist()[i].0),
    decreases n,
{
    if n > 0 {
        lemma_violations_upto_empty(code, n - 1);
    }
}

/// An inspection finds no violation exactly when no blacklisted token occurs
/// in the code.
pub proof fn lemma_no_violations_iff_clean(code: Seq<char>)
    ensures
        violations_of(code).len() == 0 <==> is_clean(code),
{
    lemma_violations_upto_empty(code, blacklist().len() as int);
}

impl CodeInspector {
    /// Runs the static token analysis against the whole blacklist. The
    /// report passes exactly when no blacklisted token occurs in `code`;
    /// its violations name each token that does, in blacklist order.
    pub fn inspect(code: &str) -> (report: InspectionReport)
        ensures
            string_views(report.violations@) == violations_of(code@),
            report.passed == (report.violations@.len() == 0),
            report.passed == is_clean(code@),
    {
        let hay = chars_of(code);
        let mut violations: Vec<String> = Vec::new();
        let mut i: usize = 0;
        while i < BLACKLIST_LEN
            invariant
                hay@ == code@,
                i <= BLACKLIST_LEN,
                string_views(violations@) == violations_upto(code@, i as int),
            decreases BLACKLIST_LEN - i,
        {
            let (token, reason) = blacklist_entry(i);
            let needle = chars_of(token);
            if contains_chars(&hay, &needle) {
                let msg = String::from_str("[MOAT3] BLOCKED \u{2014} ").concat(reason).concat(
                    " (token: `",
                ).concat(token).concat("`)");
                proof {
                    let old_views = string_views(violations@);
                    assert(string_views(violations@.push(msg)) =~= old_views.push(msg@));
                }
                violations.push(msg);
            }
            i += 1;
        }
        proof {
            lemma_no_violations_iff_clean(code@);
        }
        let passed = violations.len() == 0;
        InspectionReport { passed, violations }
    }
}

} // verus!
