//! The desktop app's server bookkeeping: the per-server record handed to the
//! GUI, and the startup cleanup that kills orphaned server processes. The
//! cleanup's process listing and killing are I/O; this module fixes which
//! ports are scanned and which process ids the listing's output names.

use vstd::prelude::*;
use vstd::string::*;
use crate::strutil::{str_trim, trimmed};

verus! {

/// One running server process as reported to the GUI.
pub struct ServerInfo {
    pub pid: u32,
    pub port: u16,
    pub web_port: u16,
    pub url: String,
    pub project_path: String,
}

/// The ports scanned for orphaned servers: every second port from 19000 up
/// to (not including) 19100.
pub fn orphan_scan_ports() -> (r: Vec<u16>)
    ensures
        r@.len() == 50,
        forall|k: int| 0 <= k < 50 ==> r@[k] == 19000 + 2 * k,
{
    let mut out: Vec<u16> = Vec::new();
    let mut p: u16 = 19000;
    while p < 19100
        invariant
            19000 <= p <= 19100,
            p % 2 == 0,
            out@.len() == (p - 19000) / 2,
            forall|k: int| 0 <= k < out@.len() ==> out@[k] == 19000 + 2 * k,
        decreases 19100 - p,
    {
        out.push(p);
        p += 2;
    }
    out
}

/// A decimal digit.
pub open spec fn is_digit(c: char) -> bool {
    c == '0' || c == '1' || c == '2' || c == '3' || c == '4' || c == '5' || c == '6' || c == '7'
        || c == '8' || c == '9'
}

pub open spec fn digit_value(c: char) -> int {
    if c == '0' {
        0
    } else if c == '1' {
        1
    } else if c == '2' {
        2
    } else if c == '3' {
        3
    } else if c == '4' {
        4
    } else if c == '5' {
        5
    } else if c == '6' {
        6
    } else if c == '7' {
        7
    } else if c == '8' {
        8
    } else if c == '9' {
        9
    } else {
        -1
    }
}

/// The numeric value of a digit string, accumulated left to right.
pub open spec fn dec_value(s: Seq<char>, i: int, acc: int) -> int
    decreases s.len() - i,
{
    if i < 0 || i >= s.len() {
        acc
    } else {
        dec_value(s, i + 1, acc * 10 + digit_value(s[i]))
    }
}

/// What a process-id line parses to: the value of a non-empty all-digit
/// string that fits an `i32`, and nothing otherwise.
pub open spec fn parsed_pid(s: Seq<char>) -> Option<i32> {
    if s.len() > 0 && (forall|k: int| 0 <= k < s.len() ==> is_digit(#[trigger] s[k])) && dec_value(
        s,
        0,
        0,
    ) <= i32::MAX {
        Some(dec_value(s, 0, 0) as i32)
    } else {
        None
    }
}

fn digit_of(c: char) -> (r: Option<u32>)
    ensures
        r matches Some(d) ==> d < 10 && is_digit(c) && digit_value(c) == d,
        r is None ==> !is_digit(c),
{
    if c == '0' {
        Some(0)
    } else if c == '1' {
        Some(1)
    } else if c == '2' {
        Some(2)
    } else if c == '3' {
        Some(3)
    } else if c == '4' {
        Some(4)
    } else if c == '5' {
        Some(5)
    } else if c == '6' {
        Some(6)
    } else if c == '7' {
        Some(7)
    } else if c == '8' {
        Some(8)
    } else if c == '9' {
        Some(9)
    } else {
        None
    }
}

/// Parses one process-id line: a non-empty string of decimal digits whose
/// value fits an `i32`; anything else is rejected.
pub fn parse_pid(s: &str) -> (r: Option<i32>)
    ensures
        r == parsed_pid(s@),
{
    let n = s.unicode_len();
    if n == 0 {
        return None;
    }
    let mut acc: u64 = 0;
    let mut i: usize = 0;
    while i < n
        invariant
            i <= n,
            n == s@.len(),
            n > 0,
            acc <= i32::MAX,
            forall|k: int| 0 <= k < i ==> is_digit(#[trigger] s@[k]),
            dec_value(s@, 0, 0) == dec_value(s@, i as int, acc as int),
        decreases n - i,
    {
        let c = s.get_char(i);
        match digit_of(c) {
            Some(d) => {
                let next: u64 = acc * 10 + (d as u64);
                if next > (i32::MAX as u64) {
                    proof {
                        if forall|k: int| 0 <= k < s@.len() ==> is_digit(#[trigger] s@[k]) {
                            lemma_dec_value_grows(s@, i + 1, next as int);
                            assert(dec_value(s@, i as int, acc as int) == dec_value(
                                s@,
                                i + 1,
                                next as int,
                            ));
                            assert(dec_value(s@, 0, 0) > i32::MAX);
                        }
                    }
                    return None;
                }
                acc = next;
            },
            None => {
                return None;
            },
        }
        i += 1;
    }
    proof {
        assert(dec_value(s@, i as int, acc as int) == acc as int);
    }
    Some(acc as i32)
}

/// `p` is one of the reserved ports.
pub open spec fn reserved_holds(reserved: Seq<u16>, p: u16) -> bool {
    exists|j: int| 0 <= j < reserved.len() && reserved[j] == p
}

fn reserved_holds_exec(reserved: &Vec<u16>, p: u16) -> (r: bool)
    ensures
        r == reserved_holds(reserved@, p),
{
    let mut j: usize = 0;
    while j < reserved.len()
        invariant
            j <= reserved@.len(),
            forall|k: int| 0 <= k < j ==> reserved@[k] != p,
        decreases reserved@.len() - j,
    {
        if reserved[j] == p {
            return true;
        }
        j += 1;
    }
    false
}

/// The candidate API ports of the desktop's server launcher among the first
/// `n` even-offset ports from 19000: those not already reserved.
pub open spec fn pair_candidates(reserved: Seq<u16>, n: int) -> Seq<u16>
    decreases n,
{
    if n <= 0 {
        Seq::empty()
    } else {
        let prefix = pair_candidates(reserved, n - 1);
        if reserved_holds(reserved, (19000 + 2 * (n - 1)) as u16) {
            prefix
        } else {
            prefix.push((19000 + 2 * (n - 1)) as u16)
        }
    }
}

/// The candidate web-only ports from 19500, stepping by one.
pub open spec fn single_candidates(reserved: Seq<u16>, n: int) -> Seq<u16>
    decreases n,
{
    if n <= 0 {
        Seq::empty()
    } else {
        let prefix = single_candidates(reserved, n - 1);
        if reserved_holds(reserved, (19500 + (n - 1)) as u16) {
            prefix
        } else {
            prefix.push((19500 + (n - 1)) as u16)
        }
    }
}

/// The untracked candidate API ports, in probe order: a local server takes a
/// port pair (API and API+1), so candidates step by two.
pub fn pair_candidate_ports(reserved: &Vec<u16>) -> (r: Vec<u16>)
    ensures
        r@ == pair_candidates(reserved@, 500),
{
    let mut out: Vec<u16> = Vec::new();
    let mut i: u16 = 0;
    while i < 500
        invariant
            i <= 500,
            out@ == pair_candidates(reserved@, i as int),
        decreases 500 - i,
    {
        let port: u16 = 19000 + 2 * i;
        if !reserved_holds_exec(reserved, port) {
            out.push(port);
        }
        i += 1;
    }
    out
}

/// The untracked candidate web ports, in probe order.
pub fn single_candidate_ports(reserved: &Vec<u16>) -> (r: Vec<u16>)
    ensures
        r@ == single_candidates(reserved@, 500),
{
    let mut out: Vec<u16> = Vec::new();
    let mut i: u16 = 0;
    while i < 500
        invariant
            i <= 500,
            out@ == single_candidates(reserved@, i as int),
        decreases 500 - i,
    {
        let port: u16 = 19500 + i;
        if !reserved_holds_exec(reserved, port) {
            out.push(port);
        }
        i += 1;
    }
    out
}

/// Selects the desktop server's port pair from probe outcomes: `probe_ok[i]`
/// reports whether candidate `i` and its web port were both bindable. The
/// first success wins; with none, 19100 is the fallback.
pub fn find_available_port(reserved: &Vec<u16>, probe_ok: &Vec<bool>) -> (r: u16)
    ensures
        r == (match crate::ports::first_probed_ok(pair_candidates(reserved@, 500), probe_ok@, 0) {
            Some(p) => p,
            None => 19100u16,
        }),
{
    let cands = pair_candidate_ports(reserved);
    let ghost c = cands@;
    let ghost ok = probe_ok@;
    let mut j: usize = 0;
    while j < cands.len()
        invariant
            j <= c.len(),
            cands@ == c,
            probe_ok@ == ok,
            c == pair_candidates(reserved@, 500),
            crate::ports::first_probed_ok(c, ok, 0) == crate::ports::first_probed_ok(
                c,
                ok,
                j as int,
            ),
        decreases c.len() - j,
    {
        if j < probe_ok.len() && probe_ok[j] {
            return cands[j];
        }
        j += 1;
    }
    19100
}

/// Selects a single web port from probe outcomes, falling back to 19500.
pub fn find_single_available_port(reserved: &Vec<u16>, probe_ok: &Vec<bool>) -> (r: u16)
    ensures
        r == (match crate::ports::first_probed_ok(single_candidates(reserved@, 500), probe_ok@, 0) {
            Some(p) => p,
            None => 19500u16,
        }),
{
    let cands = single_candidate_ports(reserved);
    let ghost c = cands@;
    let ghost ok = probe_ok@;
    let mut j: usize = 0;
    while j < cands.len()
        invariant
            j <= c.len(),
            cands@ == c,
            probe_ok@ == ok,
            c == single_candidates(reserved@, 500),
            crate::ports::first_probed_ok(c, ok, 0) == crate::ports::first_probed_ok(
                c,
                ok,
                j as int,
            ),
        decreases c.len() - j,
    {
        if j < probe_ok.len() && probe_ok[j] {
            return cands[j];
        }
        j += 1;
    }
    19500
}

/// The pids named by a process listing's lines, scanning from line `i`:
/// each line trimmed and parsed, unparsable lines skipped.
pub open spec fn pids_of_lines(lines: Seq<String>, i: int) -> Seq<i32>
    decreases lines.len() - i,
{
    if i < 0 || i >= lines.len() {
        Seq::empty()
    } else {
        (match parsed_pid(trimmed(lines[i]@)) {
            Some(p) => seq![p],
            None => Seq::<i32>::empty(),
        }) + pids_of_lines(lines, i + 1)
    }
}

/// The startup cleanup's kill plan: which orphan server pids a process
/// listing's output lines name. The caller runs the listing for each port of
/// `orphan_scan_ports` and kills exactly the returned pids; the listing and
/// the killing are I/O and stay outside this crate.
pub fn kill_orphan_servers(lines: &Vec<String>) -> (r: Vec<i32>)
    ensures
        r@ == pids_of_lines(lines@, 0),
{
    let mut out: Vec<i32> = Vec::new();
    let mut i: usize = 0;
    while i < lines.len()
        invariant
            i <= lines@.len(),
            pids_of_lines(lines@, 0) == out@ + pids_of_lines(lines@, i as int),
        decreases lines@.len() - i,
    {
        let t = str_trim(lines[i].as_str());
        match parse_pid(t.as_str()) {
            Some(p) => {
                out.push(p);
            },
            None => {},
        }
        proof {
            assert(pids_of_lines(lines@, 0) =~= out@ + pids_of_lines(lines@, i + 1));
        }
        i += 1;
    }
    proof {
        assert(pids_of_lines(lines@, lines@.len() as int) =~= Seq::<i32>::empty());
        assert(out@ =~= out@ + Seq::<i32>::empty());
    }
    out
}

/// The values following `--project` flags among the process arguments,
/// scanning from index `i`.
pub open spec fn project_arg_paths(args: Seq<String>, i: int) -> Seq<String>
    decreases args.len() - i,
{
    if i < 0 || i + 1 >= args.len() {
        Seq::empty()
    } else if args[i]@ == "--project"@ {
        seq![args[i + 1]] + project_arg_paths(args, i + 1)
    } else {
        project_arg_paths(args, i + 1)
    }
}

/// The project paths requested on the command line, in order: each value
/// that follows a `--project` flag. The caller opens the first one that
/// names an existing directory; checking the filesystem is its part.
pub fn project_arg_candidates(args: &Vec<String>) -> (r: Vec<String>)
    ensures
        r@ == project_arg_paths(args@, 0),
{
    let mut out: Vec<String> = Vec::new();
    let mut i: usize = 0;
    if args.len() == 0 {
        return out;
    }
    while i < args.len() - 1
        invariant
            args@.len() >= 1,
            i <= args@.len(),
            project_arg_paths(args@, 0) == out@ + project_arg_paths(args@, i as int),
        decreases args@.len() - i,
    {
        if crate::strutil::str_eq(args[i].as_str(), "--project") {
            out.push(args[i + 1].clone());
        }
        proof {
            assert(project_arg_paths(args@, 0) =~= out@ + project_arg_paths(args@, i + 1));
        }
        i += 1;
    }
    proof {
        assert(project_arg_paths(args@, i as int) =~= Seq::<String>::empty());
        assert(out@ =~= out@ + Seq::<String>::empty());
    }
    out
}

/// With only digits ahead, accumulating further digits never shrinks the
/// value: once a prefix exceeds `i32::MAX`, the whole string does.
proof fn lemma_dec_value_grows(s: Seq<char>, i: int, acc: int)
    requires
        acc >= 0,
        forall|k: int| i <= k < s.len() ==> is_digit(#[trigger] s[k]),
    ensures
        dec_value(s, i, acc) >= acc,
    decreases s.len() - i,
{
    if !(i < 0 || i >= s.len()) {
        assert(is_digit(s[i]));
        lemma_dec_value_grows(s, i + 1, acc * 10 + digit_value(s[i]));
    }
}

} // verus!
