//! The conflict-free port allocator. A project reserves a 20-port window:
//! API port, web port (API+1) and ten dev ports (API+10 .. API+19). Starting
//! at a fixed base the allocator steps window by window, skips every window
//! that numerically overlaps one reserved by another tracked project, and
//! accepts the first whose probed ports were all bindable. Binding sockets is
//! I/O and happens outside this crate; the caller probes the candidates in
//! order and reports the outcomes, and the selection logic here is exact: a
//! window chosen from a successful probe never overlaps a reserved window,
//! and when no candidate probes clean the base port is returned as an
//! explicit best-effort fallback.

use vstd::prelude::*;

verus! {

/// First window base probed by the launcher.
pub const ALLOC_BASE: u16 = 29000;

/// Width of one allocation window, and the step between candidates.
pub const ALLOC_STEP: u16 = 20;

/// Number of candidate windows tried before falling back.
pub const ALLOC_TRIES: u16 = 50;

/// Two 20-port windows with these base ports share at least one port number.
pub open spec fn windows_overlap(a: int, b: int) -> bool {
    a <= b + 19 && b <= a + 19
}

/// The window at `base` overlaps the window of some reserved base.
pub open spec fn overlaps_reserved(reserved: Seq<u16>, base: int) -> bool {
    exists|j: int| 0 <= j < reserved.len() && windows_overlap(base, reserved[j] as int)
}

/// Base of the i-th stepped window.
pub open spec fn stepped_base(i: int) -> int {
    ALLOC_BASE + i * ALLOC_STEP
}

/// The candidate windows among the first `n` stepped windows, in probe order:
/// exactly those that do not overlap any reserved window.
pub open spec fn candidates_spec(reserved: Seq<u16>, n: int) -> Seq<u16>
    decreases n,
{
    if n <= 0 {
        Seq::empty()
    } else {
        let prefix = candidates_spec(reserved, n - 1);
        if overlaps_reserved(reserved, stepped_base(n - 1)) {
            prefix
        } else {
            prefix.push(stepped_base(n - 1) as u16)
        }
    }
}

/// No candidate window ever overlaps a reserved window: the allocator skips
/// every stepped window that would collide with a tracked project.
pub proof fn lemma_candidates_avoid_reserved(reserved: Seq<u16>, n: int)
    requires
        0 <= n <= 50,
    ensures
        forall|k: int| 0 <= k < candidates_spec(reserved, n).len()
            ==> !overlaps_reserved(reserved, #[trigger] candidates_spec(reserved, n)[k] as int),
    decreases n,
{
    if n > 0 {
        lemma_candidates_avoid_reserved(reserved, n - 1);
        let prefix = candidates_spec(reserved, n - 1);
        let c = candidates_spec(reserved, n);
        if !overlaps_reserved(reserved, stepped_base(n - 1)) {
            assert(forall|k: int| 0 <= k < prefix.len() ==> c[k] == prefix[k]);
            assert(c[c.len() - 1] as int == stepped_base(n - 1));
        }
    }
}

fn window_overlaps_any(reserved: &Vec<u16>, base: u16) -> (r: bool)
    ensures
        r == overlaps_reserved(reserved@, base as int),
{
    let mut j: usize = 0;
    while j < reserved.len()
        invariant
            j <= reserved@.len(),
            forall|k: int| 0 <= k < j ==> !windows_overlap(base as int, reserved@[k] as int),
        decreases reserved@.len() - j,
    {
        let tp = reserved[j];
        if (base as u32) <= (tp as u32) + 19 && (tp as u32) <= (base as u32) + 19 {
            return true;
        }
        j += 1;
    }
    false
}

/// The candidate windows for the launcher's base, step and try count, in the
/// order they are probed.
pub fn candidate_windows(reserved: &Vec<u16>) -> (r: Vec<u16>)
    ensures
        r@ == candidates_spec(reserved@, 50),
{
    let mut out: Vec<u16> = Vec::new();
    let mut i: u16 = 0;
    while i < 50
        invariant
            i <= 50,
            out@ == candidates_spec(reserved@, i as int),
        decreases 50 - i,
    {
        let base: u16 = ALLOC_BASE + i * ALLOC_STEP;
        if !window_overlaps_any(reserved, base) {
            out.push(base);
        }
        i += 1;
    }
    out
}

/// The ports probed for one candidate window: the API port, the web port, and
/// the ten dev ports.
pub fn probe_ports_for(base: u16) -> (r: Vec<u16>)
    requires
        base + 19 <= u16::MAX,
    ensures
        r@.len() == 12,
        r@[0] == base,
        r@[1] == base + 1,
        forall|k: int| 2 <= k < 12 ==> r@[k] == base + 8 + k,
{
    let mut out: Vec<u16> = Vec::new();
    out.push(base);
    out.push(base + 1);
    let mut d: u16 = 10;
    while d < 20
        invariant
            10 <= d <= 20,
            base + 19 <= u16::MAX,
            out@.len() == d - 8,
            out@[0] == base,
            out@[1] == base + 1,
            forall|k: int| 2 <= k < d - 8 ==> out@[k] == base + 8 + k,
        decreases 20 - d,
    {
        out.push(base + d);
        d += 1;
    }
    out
}

/// The first candidate whose probe succeeded, scanning from index `i`.
pub open spec fn first_probed_ok(c: Seq<u16>, ok: Seq<bool>, i: int) -> Option<u16>
    decreases c.len() - i,
{
    if i < 0 || i >= c.len() {
        None
    } else if i < ok.len() && ok[i] {
        Some(c[i])
    } else {
        first_probed_ok(c, ok, i + 1)
    }
}

/// What the allocator returns: the first fully-bindable candidate window, or
/// the base port as the best-effort fallback when none probed clean.
pub open spec fn allocation_spec(reserved: Seq<u16>, ok: Seq<bool>) -> u16 {
    match first_probed_ok(candidates_spec(reserved, ALLOC_TRIES as int), ok, 0) {
        Some(p) => p,
        None => ALLOC_BASE,
    }
}

/// Selects the allocated window base from the probe outcomes. `probe_ok[i]`
/// reports whether every probed port of `candidate_windows(reserved)[i]` was
/// bindable; the caller may stop probing after the first success, so
/// `probe_ok` may be shorter than the candidate list.
///
/// The result is the first successfully probed candidate, which then overlaps
/// no reserved window; when there is none, the base port is returned
/// unconditionally, a fallback the callers treat as best effort.
pub fn find_available_port(reserved: &Vec<u16>, probe_ok: &Vec<bool>) -> (r: u16)
    ensures
        r == allocation_spec(reserved@, probe_ok@),
        first_probed_ok(candidates_spec(reserved@, 50), probe_ok@, 0) is Some ==> !overlaps_reserved(
            reserved@,
            r as int,
        ),
        first_probed_ok(candidates_spec(reserved@, 50), probe_ok@, 0) is None ==> r == 29000,
{
    let cands = candidate_windows(reserved);
    let ghost c = cands@;
    let ghost ok = probe_ok@;
    let mut j: usize = 0;
    while j < cands.len()
        invariant
            j <= c.len(),
            cands@ == c,
            probe_ok@ == ok,
            c == candidates_spec(reserved@, 50),
            first_probed_ok(c, ok, 0) == first_probed_ok(c, ok, j as int),
        decreases c.len() - j,
    {
        if j < probe_ok.len() && probe_ok[j] {
            proof {
                lemma_candidates_avoid_reserved(reserved@, 50);
            }
            return cands[j];
        }
        j += 1;
    }
    29000
}

} // verus!
