//! The Docker Engine client's computational half: percent-encoding of JSON
//! filter characters in request paths, endpoint resolution (`DOCKER_HOST`
//! normalization, probe-order candidates, socket path selection), response
//! classification, and interpretation of the Engine's JSON replies. The
//! actual HTTP exchange over a Unix socket or TCP endpoint is I/O and lives
//! outside this crate; callers hand the raw status and body back in.

use vstd::prelude::*;
use vstd::string::*;
use crate::strutil::{dec_str, starts_with_spec, str_starts_with, string_push, u16_to_string};

verus! {

/// The five characters of Docker's JSON `filters` query parameter that must
/// be percent-encoded in a request path.
pub open spec fn is_filter_char(c: char) -> bool {
    c == '{' || c == '}' || c == '[' || c == ']' || c == '"'
}

/// What one path character becomes: filter characters expand to their
/// percent escape, every other character is kept as it is.
pub open spec fn pct_expand(c: char) -> Seq<char> {
    if c == '{' {
        seq!['%', '7', 'B']
    } else if c == '}' {
        seq!['%', '7', 'D']
    } else if c == '[' {
        seq!['%', '5', 'B']
    } else if c == ']' {
        seq!['%', '5', 'D']
    } else if c == '"' {
        seq!['%', '2', '2']
    } else {
        seq![c]
    }
}

/// The percent-encoded form of a request path, applied after the filter JSON
/// has been serialized into the path.
pub open spec fn encode_filter_path(s: Seq<char>) -> Seq<char>
    decreases s.len(),
{
    if s.len() == 0 {
        Seq::empty()
    } else {
        pct_expand(s[0]) + encode_filter_path(s.drop_first())
    }
}

proof fn lemma_encode_snoc(s: Seq<char>, c: char)
    ensures
        encode_filter_path(s.push(c)) == encode_filter_path(s) + pct_expand(c),
    decreases s.len(),
{
    if s.len() == 0 {
        assert(s.push(c)[0] == c);
        assert(s.push(c).drop_first() =~= Seq::<char>::empty());
        assert(encode_filter_path(Seq::<char>::empty()) =~= Seq::<char>::empty());
        assert(encode_filter_path(s.push(c)) == pct_expand(c) + encode_filter_path(
            Seq::<char>::empty(),
        ));
        assert(encode_filter_path(s.push(c)) =~= pct_expand(c));
        assert(encode_filter_path(s) + pct_expand(c) =~= pct_expand(c));
    } else {
        assert(s.push(c).drop_first() =~= s.drop_first().push(c));
        lemma_encode_snoc(s.drop_first(), c);
        assert(encode_filter_path(s.push(c)) =~= encode_filter_path(s) + pct_expand(c));
    }
}

/// Encoding alters nothing but the five filter characters: a path without
/// them is returned unchanged.
pub proof fn lemma_encode_identity(s: Seq<char>)
    requires
        forall|i: int| 0 <= i < s.len() ==> !is_filter_char(#[trigger] s[i]),
    ensures
        encode_filter_path(s) == s,
    decreases s.len(),
{
    if s.len() > 0 {
        assert(!is_filter_char(s[0]));
        lemma_encode_identity(s.drop_first());
        assert(encode_filter_path(s) =~= s);
    }
}

/// The encoded path contains no filter character: every `{ } [ ] "` has been
/// replaced by its percent escape.
pub proof fn lemma_encode_no_filter_chars(s: Seq<char>)
    ensures
        forall|i: int| 0 <= i < encode_filter_path(s).len() ==> !is_filter_char(
            #[trigger] encode_filter_path(s)[i],
        ),
    decreases s.len(),
{
    if s.len() > 0 {
        lemma_encode_no_filter_chars(s.drop_first());
        let head = pct_expand(s[0]);
        let rest = encode_filter_path(s.drop_first());
        assert(forall|i: int| 0 <= i < head.len() ==> !is_filter_char(#[trigger] head[i]));
        assert(forall|i: int| 0 <= i < encode_filter_path(s).len() ==> encode_filter_path(s)[i]
            == if i < head.len() {
                head[i]
            } else {
                rest[i - head.len()]
            });
    }
}

/// Percent-encodes the filter characters of a request path.
pub fn encode_docker_path(path: &str) -> (r: String)
    ensures
        r@ == encode_filter_path(path@),
{
    proof {
        reveal_strlit("%7B");
        reveal_strlit("%7D");
        reveal_strlit("%5B");
        reveal_strlit("%5D");
        reveal_strlit("%22");
    }
    let n = path.unicode_len();
    let mut out = String::new();
    let mut i: usize = 0;
    while i < n
        invariant
            i <= n,
            n == path@.len(),
            out@ == encode_filter_path(path@.subrange(0, i as int)),
            "%7B"@ =~= seq!['%', '7', 'B'],
            "%7D"@ =~= seq!['%', '7', 'D'],
            "%5B"@ =~= seq!['%', '5', 'B'],
            "%5D"@ =~= seq!['%', '5', 'D'],
            "%22"@ =~= seq!['%', '2', '2'],
        decreases n - i,
    {
        let c = path.get_char(i);
        if c == '{' {
            out.append("%7B");
        } else if c == '}' {
            out.append("%7D");
        } else if c == '[' {
            out.append("%5B");
        } else if c == ']' {
            out.append("%5D");
        } else if c == '"' {
            out.append("%22");
        } else {
            string_push(&mut out, c);
        }
        proof {
            lemma_encode_snoc(path@.subrange(0, i as int), path@[i as int]);
            assert(path@.subrange(0, i as int).push(path@[i as int]) =~= path@.subrange(
                0,
                i + 1,
            ));
            assert(out@ =~= encode_filter_path(path@.subrange(0, i + 1)));
        }
        i += 1;
    }
    proof {
        assert(path@.subrange(0, n as int) =~= path@);
    }
    out
}

/// A host string with its trailing slashes removed.
pub open spec fn trimmed_host(s: Seq<char>) -> Seq<char>
    decreases s.len(),
{
    if s.len() > 0 && s[s.len() - 1] == '/' {
        trimmed_host(s.drop_last())
    } else {
        s
    }
}

fn trim_trailing_slashes(host: &str) -> (r: String)
    ensures
        r@ == trimmed_host(host@),
{
    let n = host.unicode_len();
    proof {
        assert(host@.subrange(0, n as int) =~= host@);
    }
    let mut k = n;
    while k > 0 && host.get_char(k - 1) == '/'
        invariant
            k <= n,
            n == host@.len(),
            trimmed_host(host@) == trimmed_host(host@.subrange(0, k as int)),
        decreases k,
    {
        proof {
            let cur = host@.subrange(0, k as int);
            assert(cur.drop_last() =~= host@.subrange(0, k - 1));
        }
        k -= 1;
    }
    proof {
        assert(trimmed_host(host@.subrange(0, k as int)) == host@.subrange(0, k as int));
    }
    String::from_str(host.substring_char(0, k))
}

/// Builds the full request URI for a TCP endpoint: the host with trailing
/// slashes trimmed, then the percent-encoded path.
pub fn docker_uri_with_host(host: &str, path: &str) -> (r: String)
    ensures
        r@ == trimmed_host(host@) + encode_filter_path(path@),
{
    let base = trim_trailing_slashes(host);
    let encoded = encode_docker_path(path);
    base.concat(encoded.as_str())
}

/// A `DOCKER_HOST` value with a `tcp://` scheme normalized to `http://`.
pub open spec fn normalized_host(h: Seq<char>) -> Seq<char> {
    if starts_with_spec(h, "tcp://"@) {
        "http://"@ + h.subrange(6, h.len() as int)
    } else {
        h
    }
}

/// Normalizes a `DOCKER_HOST` override: `tcp://...` becomes `http://...`;
/// anything else is kept as it is.
pub fn normalize_docker_host(env_host: String) -> (r: String)
    ensures
        r@ == normalized_host(env_host@),
{
    proof {
        reveal_strlit("tcp://");
    }
    if str_starts_with(env_host.as_str(), "tcp://") {
        let rest = env_host.as_str().substring_char(6, env_host.as_str().unicode_len());
        String::from_str("http://").concat(rest)
    } else {
        env_host
    }
}

/// The index of the TCP endpoint chosen from probe outcomes: the first of the
/// three fixed candidates that answered the liveness call, or the first
/// candidate as the fallback.
pub open spec fn chosen_endpoint(ok: Seq<bool>) -> int {
    if 0 < ok.len() && ok[0] {
        0
    } else if 1 < ok.len() && ok[1] {
        1
    } else if 2 < ok.len() && ok[2] {
        2
    } else {
        0
    }
}

/// The fixed TCP endpoint candidates probed in order when no `DOCKER_HOST`
/// override is set.
pub open spec fn endpoint_candidate(i: int) -> Seq<char> {
    if i == 1 {
        "http://127.0.0.1:2375"@
    } else if i == 2 {
        "http://localhost:2376"@
    } else {
        "http://localhost:2375"@
    }
}

/// The fixed endpoint candidates, in probe order.
pub fn docker_host_candidates() -> (r: Vec<String>)
    ensures
        r@.len() == 3,
        forall|i: int| 0 <= i < 3 ==> #[trigger] r@[i]@ == endpoint_candidate(i),
{
    let mut v: Vec<String> = Vec::new();
    v.push(String::from_str("http://localhost:2375"));
    v.push(String::from_str("http://127.0.0.1:2375"));
    v.push(String::from_str("http://localhost:2376"));
    v
}

/// Resolves the Engine endpoint once at startup: a `DOCKER_HOST` override is
/// normalized and wins; otherwise `probe_ok[i]` reports whether candidate `i`
/// answered `/_ping`, and the first that did is chosen, falling back to the
/// first candidate. Any valid discovered endpoint is as good as any other, so
/// the choice is a pure function of the probe outcomes.
pub fn choose_docker_host(env_host: Option<String>, probe_ok: &Vec<bool>) -> (r: String)
    ensures
        env_host matches Some(h) ==> r@ == normalized_host(h@),
        env_host is None ==> r@ == endpoint_candidate(chosen_endpoint(probe_ok@)),
{
    match env_host {
        Some(h) => normalize_docker_host(h),
        None => {
            let cands = docker_host_candidates();
            let mut i: usize = 0;
            if probe_ok.len() > 0 && probe_ok[0] {
            } else if probe_ok.len() > 1 && probe_ok[1] {
                i = 1;
            } else if probe_ok.len() > 2 && probe_ok[2] {
                i = 2;
            }
            let mut cands = cands;
            cands.swap_remove(i)
        },
    }
}

/// The socket paths probed in order on Unix: the user-scoped Docker socket,
/// the system socket, and Docker Desktop's raw socket under the user's
/// Library directory. With no home directory the user-scoped entries are
/// empty and never exist.
pub fn socket_candidates(home: Option<String>) -> (r: Vec<String>)
    ensures
        r@.len() == 3,
        r@[1]@ == "/var/run/docker.sock"@,
        home matches Some(h) ==> r@[0]@ == h@ + "/.docker/run/docker.sock"@ && r@[2]@ == h@
            + "/Library/Containers/com.docker.docker/Data/docker.raw.sock"@,
        home is None ==> r@[0]@.len() == 0 && r@[2]@.len() == 0,
{
    proof {
        reveal_strlit("");
    }
    let mut v: Vec<String> = Vec::new();
    match home {
        Some(h) => {
            v.push(h.as_str().to_owned().concat("/.docker/run/docker.sock"));
            v.push(String::from_str("/var/run/docker.sock"));
            v.push(
                h.as_str().to_owned().concat(
                    "/Library/Containers/com.docker.docker/Data/docker.raw.sock",
                ),
            );
        },
        None => {
            v.push(String::from_str(""));
            v.push(String::from_str("/var/run/docker.sock"));
            v.push(String::from_str(""));
        },
    }
    v
}

/// The index of the first true flag, scanning from `i`.
pub open spec fn first_true(ok: Seq<bool>, i: int) -> Option<int>
    decreases ok.len() - i,
{
    if i < 0 || i >= ok.len() {
        None
    } else if ok[i] {
        Some(i)
    } else {
        first_true(ok, i + 1)
    }
}

/// Picks the first candidate socket that exists on the filesystem
/// (`exists_ok[i]` reports candidate `i`), falling back to the system socket
/// path when none does.
pub fn choose_socket(candidates: &Vec<String>, exists_ok: &Vec<bool>) -> (r: String)
    requires
        candidates@.len() == exists_ok@.len(),
    ensures
        first_true(exists_ok@, 0) matches Some(i) ==> r@ == candidates@[i]@,
        first_true(exists_ok@, 0) is None ==> r@ == "/var/run/docker.sock"@,
{
    let mut i: usize = 0;
    while i < candidates.len()
        invariant
            i <= candidates@.len(),
            candidates@.len() == exists_ok@.len(),
            first_true(exists_ok@, 0) == first_true(exists_ok@, i as int),
        decreases candidates@.len() - i,
    {
        if exists_ok[i] {
            return candidates[i].clone();
        }
        i += 1;
    }
    String::from_str("/var/run/docker.sock")
}

/// Classifies an Engine POST/DELETE response: 2xx and 3xx statuses succeed
/// with the body; anything else is an error that carries the status code and
/// the raw response body, which Docker fills with a JSON error message.
pub fn classify_engine_response(status: u16, body: String) -> (r: Result<String, String>)
    ensures
        r matches Ok(b) ==> 200 <= status < 400 && b@ == body@,
        r matches Err(e) ==> !(200 <= status < 400) && e@ == "Docker API error ("@ + dec_str(
            status as int,
        ) + "): "@ + body@,
{
    if 200 <= status && status < 400 {
        Ok(body)
    } else {
        let mut e = String::from_str("Docker API error (");
        let code = u16_to_string(status);
        e.append(code.as_str());
        e.append("): ");
        e.append(body.as_str());
        Err(e)
    }
}

/// Whether the text parses as a JSON array, and its element count; the result
/// of `serde_json::from_str::<Vec<serde_json::Value>>` on given text.
pub uninterp spec fn json_array_len_of(s: Seq<char>) -> Option<usize>;

/// Relies on `serde_json::from_str::<Vec<serde_json::Value>>`: whether the
/// text is a JSON array and how many elements it has are pure functions of
/// the text.
#[verifier::external_body]
pub fn json_array_len(s: &str) -> (r: Option<usize>)
    ensures
        r == json_array_len_of(s@),
{
    serde_json::from_str::<Vec<serde_json::Value>>(s).ok().map(|v| v.len())
}

/// Interprets a filtered `/containers/json` reply as an existence check: a
/// non-empty JSON array means the container exists; an unparsable body counts
/// as absent, as the callers treat every failure as "not there".
pub fn list_response_nonempty(body: &str) -> (r: bool)
    ensures
        r == (json_array_len_of(body@) matches Some(n) && n > 0),
{
    match json_array_len(body) {
        Some(n) => n > 0,
        None => false,
    }
}

/// The named top-level string field of a JSON document (empty when the field
/// is absent or not a string), or `None` when the text is not JSON; the
/// result of `serde_json::from_str::<serde_json::Value>` plus `Value::as_str`.
pub uninterp spec fn json_str_field_of(s: Seq<char>, key: Seq<char>) -> Option<Seq<char>>;

/// Relies on `serde_json::from_str::<serde_json::Value>` and `Value::as_str`:
/// the named top-level string field is a pure function of the text.
#[verifier::external_body]
pub fn json_str_field(s: &str, key: &str) -> (r: Option<String>)
    ensures
        r matches Some(f) ==> json_str_field_of(s@, key@) == Some(f@),
        r is None ==> json_str_field_of(s@, key@) is None,
{
    match serde_json::from_str::<serde_json::Value>(s) {
        Ok(v) => Some(v[key].as_str().unwrap_or("").to_string()),
        Err(_) => None,
    }
}

/// The `State.Status` string (default `unknown`) and `State.Running` flag
/// (default false) of an inspect reply, or `None` when the body is not JSON;
/// the result of `serde_json::from_str::<serde_json::Value>` with `as_str`
/// and `as_bool` on the two fields.
pub uninterp spec fn inspect_state_of(s: Seq<char>) -> Option<(Seq<char>, bool)>;

/// Relies on `serde_json::from_str::<serde_json::Value>`, `Value::as_str` and
/// `Value::as_bool`: the inspect reply's status and running flag are pure
/// functions of the body.
#[verifier::external_body]
pub fn parse_inspect_state(s: &str) -> (r: Option<(String, bool)>)
    ensures
        r matches Some(p) ==> inspect_state_of(s@) == Some((p.0@, p.1)),
        r is None ==> inspect_state_of(s@) is None,
{
    match serde_json::from_str::<serde_json::Value>(s) {
        Ok(v) => {
            let status = v["State"]["Status"].as_str().unwrap_or("unknown").to_string();
            let running = v["State"]["Running"].as_bool().unwrap_or(false);
            Some((status, running))
        },
        Err(_) => None,
    }
}

} // verus!
