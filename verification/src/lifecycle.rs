//! The container lifecycle manager's computational half: the request paths
//! and JSON payloads for every Engine operation on one named container, the
//! rendered entrypoint script, the create/start flow with rollback as an
//! explicit state machine, and the log-cleaning filter. The Engine calls
//! themselves are I/O; a driver performs each requested call and feeds the
//! outcome back into the state machine.

use vstd::prelude::*;
use vstd::string::*;
use crate::strutil::{dec_str, string_push, u16_to_string, u32_to_string};
use crate::jsontext::{append_json_quoted, json_quoted};
use crate::engine::{json_str_field, json_str_field_of, inspect_state_of, parse_inspect_state};

verus! {

/// A point-in-time snapshot of one container, derived from an inspect call
/// and never cached.
pub struct ContainerInfo {
    pub name: String,
    pub status: String,
    pub running: bool,
}

/// Everything that determines one container creation: immutable once
/// submitted, and consumed exactly once by the create flow. The entrypoint
/// script and the Engine create payload are pure functions of this value.
pub struct ContainerCreateOpts {
    pub name: String,
    pub repo_url: String,
    pub repo_dir: String,
    pub encrypted_key: String,
    pub password: String,
    pub git_name: String,
    pub git_email: String,
    pub api_port: u16,
    pub dev_ports: Vec<u16>,
    pub image: String,
    pub use_personal_ssh: bool,
    pub ssh_key_name: String,
    pub ssh_passphrase: String,
}

/// `/containers/{name}/json`
pub fn inspect_path(name: &str) -> (r: String)
    ensures
        r@ == "/containers/"@ + name@ + "/json"@,
{
    let mut s = String::from_str("/containers/");
    s.append(name);
    s.append("/json");
    s
}

/// `/containers/{name}/start`
pub fn start_path(name: &str) -> (r: String)
    ensures
        r@ == "/containers/"@ + name@ + "/start"@,
{
    let mut s = String::from_str("/containers/");
    s.append(name);
    s.append("/start");
    s
}

/// `/containers/{name}/stop?t=2`: every stop uses the short two-second
/// timeout before the Engine kills the container.
pub fn stop_path(name: &str) -> (r: String)
    ensures
        r@ == "/containers/"@ + name@ + "/stop?t=2"@,
{
    let mut s = String::from_str("/containers/");
    s.append(name);
    s.append("/stop?t=2");
    s
}

/// `/containers/{name}?force=true`: removal is always forced.
pub fn remove_path(name: &str) -> (r: String)
    ensures
        r@ == "/containers/"@ + name@ + "?force=true"@,
{
    let mut s = String::from_str("/containers/");
    s.append(name);
    s.append("?force=true");
    s
}

/// `/containers/{name}/restart?t=2`
pub fn restart_path(name: &str) -> (r: String)
    ensures
        r@ == "/containers/"@ + name@ + "/restart?t=2"@,
{
    let mut s = String::from_str("/containers/");
    s.append(name);
    s.append("/restart?t=2");
    s
}

/// `/containers/{name}/logs?stdout=true&stderr=true&tail={lines}`
pub fn logs_path(name: &str, lines: u32) -> (r: String)
    ensures
        r@ == "/containers/"@ + name@ + "/logs?stdout=true&stderr=true&tail="@ + dec_str(
            lines as int,
        ),
{
    let mut s = String::from_str("/containers/");
    s.append(name);
    s.append("/logs?stdout=true&stderr=true&tail=");
    let n = u32_to_string(lines);
    s.append(n.as_str());
    s
}

/// `/containers/{name}/exec`
pub fn exec_create_path(name: &str) -> (r: String)
    ensures
        r@ == "/containers/"@ + name@ + "/exec"@,
{
    let mut s = String::from_str("/containers/");
    s.append(name);
    s.append("/exec");
    s
}

/// `/exec/{id}/start`
pub fn exec_start_path(id: &str) -> (r: String)
    ensures
        r@ == "/exec/"@ + id@ + "/start"@,
{
    let mut s = String::from_str("/exec/");
    s.append(id);
    s.append("/start");
    s
}

/// `/containers/create?name={name}`
pub fn create_path(name: &str) -> (r: String)
    ensures
        r@ == "/containers/create?name="@ + name@,
{
    let mut s = String::from_str("/containers/create?name=");
    s.append(name);
    s
}

/// `/containers/json?...&filters={"name":["^/{name}$"]}`: the filtered list
/// call behind the existence and running checks; `all` includes stopped
/// containers. The filter characters are percent-encoded later, by the
/// transport's URI builder.
pub fn list_filter_path(name: &str, all: bool) -> (r: String)
    ensures
        all ==> r@ == "/containers/json?all=true&filters={\"name\":[\"^/"@ + name@ + "$\"]}"@,
        !all ==> r@ == "/containers/json?filters={\"name\":[\"^/"@ + name@ + "$\"]}"@,
{
    let mut s = if all {
        String::from_str("/containers/json?all=true&filters={\"name\":[\"^/")
    } else {
        String::from_str("/containers/json?filters={\"name\":[\"^/")
    };
    s.append(name);
    s.append("$\"]}");
    s
}

/// The exec-create payload for a non-interactive `bash -c` command with
/// combined output capture.
pub fn exec_create_body(cmd: &str) -> (r: String)
    ensures
        r@ == "{\"AttachStderr\":true,\"AttachStdout\":true,\"Cmd\":[\"bash\",\"-c\","@
            + json_quoted(cmd@) + "]}"@,
{
    let mut s = String::from_str("{\"AttachStderr\":true,\"AttachStdout\":true,\"Cmd\":[\"bash\",\"-c\",");
    append_json_quoted(&mut s, cmd);
    s.append("]}");
    s
}

/// The exec-start payload: attached, no TTY.
pub fn exec_start_body() -> (r: String)
    ensures
        r@ == "{\"Detach\":false,\"Tty\":false}"@,
{
    String::from_str("{\"Detach\":false,\"Tty\":false}")
}

/// The shell command run by the in-container updater: version before,
/// reinstall, version after.
pub fn update_otto_command() -> (r: String)
    ensures
        r@ == "export PATH=\"$HOME/.local/bin:$PATH\"; BEFORE=$(otto --version 2>&1 | head -1 || echo \"unknown\"); curl -fsSL https://install.ottocode.io | sh 2>&1; export PATH=\"$HOME/.local/bin:$PATH\"; AFTER=$(otto --version 2>&1 | head -1 || echo \"unknown\"); echo \"$BEFORE -> $AFTER\""@,
{
    String::from_str(
        "export PATH=\"$HOME/.local/bin:$PATH\"; BEFORE=$(otto --version 2>&1 | head -1 || echo \"unknown\"); curl -fsSL https://install.ottocode.io | sh 2>&1; export PATH=\"$HOME/.local/bin:$PATH\"; AFTER=$(otto --version 2>&1 | head -1 || echo \"unknown\"); echo \"$BEFORE -> $AFTER\"",
    )
}

/// A log character that survives cleaning: printable ASCII, space, newline
/// or carriage return. Everything else, notably the bytes of Docker's
/// stream-multiplexing frame headers, is dropped.
pub open spec fn keep_log_char(c: char) -> bool {
    (0x21 <= c as u32 <= 0x7e) || c as u32 == 0x20 || c as u32 == 0x0a || c as u32 == 0x0d
}

/// The cleaned log text: the kept characters in order.
pub open spec fn cleaned_logs(s: Seq<char>) -> Seq<char>
    decreases s.len(),
{
    if s.len() == 0 {
        Seq::empty()
    } else {
        (if keep_log_char(s[0]) {
            seq![s[0]]
        } else {
            Seq::empty()
        }) + cleaned_logs(s.drop_first())
    }
}

proof fn lemma_cleaned_logs_snoc(s: Seq<char>, c: char)
    ensures
        cleaned_logs(s.push(c)) == cleaned_logs(s) + (if keep_log_char(c) {
            seq![c]
        } else {
            Seq::<char>::empty()
        }),
    decreases s.len(),
{
    if s.len() == 0 {
        assert(s.push(c)[0] == c);
        assert(s.push(c).drop_first() =~= Seq::<char>::empty());
        assert(cleaned_logs(Seq::<char>::empty()) =~= Seq::<char>::empty());
        assert(cleaned_logs(s.push(c)) =~= cleaned_logs(s) + (if keep_log_char(c) {
            seq![c]
        } else {
            Seq::<char>::empty()
        }));
    } else {
        assert(s.push(c).drop_first() =~= s.drop_first().push(c));
        lemma_cleaned_logs_snoc(s.drop_first(), c);
        assert(cleaned_logs(s.push(c)) =~= cleaned_logs(s) + (if keep_log_char(c) {
            seq![c]
        } else {
            Seq::<char>::empty()
        }));
    }
}

/// Cleans a raw logs reply: keeps printable ASCII plus space, newline and
/// carriage return, dropping Docker's stream-framing header bytes. This is a
/// best-effort heuristic, not a correct de-framing of the multiplexed
/// stream; binary-safe log content may be altered.
pub fn clean_log_output(body: &str) -> (r: String)
    ensures
        r@ == cleaned_logs(body@),
{
    let n = body.unicode_len();
    let mut out = String::new();
    let mut i: usize = 0;
    proof {
        assert(body@.subrange(0, 0) =~= Seq::<char>::empty());
    }
    while i < n
        invariant
            i <= n,
            n == body@.len(),
            out@ == cleaned_logs(body@.subrange(0, i as int)),
        decreases n - i,
    {
        let c = body.get_char(i);
        let u = c as u32;
        if (0x21 <= u && u <= 0x7e) || u == 0x20 || u == 0x0a || u == 0x0d {
            string_push(&mut out, c);
        }
        proof {
            lemma_cleaned_logs_snoc(body@.subrange(0, i as int), body@[i as int]);
            assert(body@.subrange(0, i as int).push(body@[i as int]) =~= body@.subrange(
                0,
                i + 1,
            ));
            assert(out@ =~= cleaned_logs(body@.subrange(0, i + 1)));
        }
        i += 1;
    }
    proof {
        assert(body@.subrange(0, n as int) =~= body@);
    }
    out
}

/// The entrypoint script before the git user name: DNS fix-up, package
/// install, SSH setup from either the mounted personal keys or the embedded
/// encrypted key (decrypted by the OS's own OpenSSL and unset from the
/// environment right after), up to the git identity configuration.
pub open spec fn entry_head() -> Seq<char> {
    r#"set -e
export PATH="$HOME/.local/bin:$PATH"

echo "nameserver 8.8.8.8" >> /etc/resolv.conf
echo "nameserver 1.1.1.1" >> /etc/resolv.conf

echo "[1/5] Installing system packages..."
for i in 1 2 3; do
  apt-get update -qq && break
  echo "  Retry $i..."
  sleep 2
done
apt-get install -y -qq git openssh-client curl openssl >/dev/null 2>&1
echo "[1/5] ✓ Done"

echo "[2/5] Setting up SSH..."
if ls /root/.ssh/id_* >/dev/null 2>&1; then
  echo "  Using mounted SSH keys"
  mkdir -p /tmp/ssh && cp /root/.ssh/id_* /tmp/ssh/ 2>/dev/null
  chmod 700 /tmp/ssh && chmod 600 /tmp/ssh/id_*
  ssh-keyscan github.com >> /tmp/ssh/known_hosts 2>/dev/null
  SSH_KEY=$(ls /tmp/ssh/id_* | grep -v '\.pub$' | head -1)
  if [ -n "$SSH_KEY_NAME" ] && [ -f "/tmp/ssh/$SSH_KEY_NAME" ]; then
    SSH_KEY="/tmp/ssh/$SSH_KEY_NAME"
  fi
  echo "  Using key: $(basename $SSH_KEY)"
  if [ -n "$SSH_PASSPHRASE" ]; then
    echo "  Removing passphrase from key copy..."
    ssh-keygen -p -P "$SSH_PASSPHRASE" -N "" -f "$SSH_KEY" >/dev/null 2>&1
    if [ $? -ne 0 ]; then
      echo "  ✗ Failed to remove passphrase — wrong passphrase?"
    else
      echo "  ✓ Passphrase removed from copy"
    fi
    unset SSH_PASSPHRASE
  fi
  export GIT_SSH_COMMAND="ssh -i $SSH_KEY -F /dev/null -o UserKnownHostsFile=/tmp/ssh/known_hosts -o StrictHostKeyChecking=no"
else
  mkdir -p /root/.ssh && chmod 700 /root/.ssh
  printf "%s" "$ENCRYPTED_KEY" | base64 -d | openssl aes-256-cbc -d -pbkdf2 -pass pass:"$TEAM_PASS" > /root/.ssh/id_ed25519
  chmod 600 /root/.ssh/id_ed25519
  ssh-keyscan github.com >> /root/.ssh/known_hosts 2>/dev/null
  unset ENCRYPTED_KEY TEAM_PASS
fi
echo "[2/5] ✓ Done"

echo "[3/5] Configuring git..."
git config --global user.name ""#@
}

/// Between the git user name and the git user email.
pub open spec fn entry_mid_email() -> Seq<char> {
    r#""
git config --global user.email ""#@
}

/// Between the git user email and the web port: clone-or-pull (idempotent
/// across restarts), install-if-missing, and the ready banner.
pub open spec fn entry_mid_clone() -> Seq<char> {
    r#""
echo "[3/5] ✓ Done"

echo "[4/5] Cloning repo..."
mkdir -p /workspace
if [ ! -d "$REPO_DIR/.git" ]; then
  git clone "$REPO_URL" "$REPO_DIR"
else
  echo "  Repo already cloned, pulling latest..."
  cd "$REPO_DIR" && git pull
fi
cd "$REPO_DIR"
if command -v otto >/dev/null 2>&1; then
  echo "  otto already installed: $(otto --version 2>&1 | head -1)"
else
  curl -fsSL https://install.ottocode.io | sh
fi
echo "[4/5] ✓ Done"

echo ""
echo "════════════════════════════════════════"
echo "  ✓ Otto is ready!"
echo "  Open http://localhost:"#@
}

/// Between the web port and the API port: the banner tail and the serve
/// command.
pub open spec fn entry_mid_serve() -> Seq<char> {
    r#" in your browser"
echo "════════════════════════════════════════"
echo ""

echo "[5/5] Starting otto..."
export PATH="$HOME/.local/bin:$PATH"
cd "$REPO_DIR"
otto serve --network --port "#@
}

/// After the API port.
pub open spec fn entry_tail() -> Seq<char> {
    " --no-open"@
}

/// The rendered entrypoint script: the fixed template with the git identity
/// and the two ports interpolated.
pub open spec fn entrypoint_spec(
    git_name: Seq<char>,
    git_email: Seq<char>,
    api_port: int,
    web_port: int,
) -> Seq<char> {
    entry_head() + git_name + entry_mid_email() + git_email + entry_mid_clone() + dec_str(web_port)
        + entry_mid_serve() + dec_str(api_port) + entry_tail()
}

/// Renders the container's entrypoint script. The git author name and email
/// are interpolated into the script text exactly as given; that raw textual
/// substitution is a known injection surface of the template, kept as the
/// source format demands.
pub fn entrypoint_script(git_name: &str, git_email: &str, api_port: u16, web_port: u16) -> (r:
    String)
    ensures
        r@ == entrypoint_spec(git_name@, git_email@, api_port as int, web_port as int),
{
    let mut s = String::from_str(
        r#"set -e
export PATH="$HOME/.local/bin:$PATH"

echo "nameserver 8.8.8.8" >> /etc/resolv.conf
echo "nameserver 1.1.1.1" >> /etc/resolv.conf

echo "[1/5] Installing system packages..."
for i in 1 2 3; do
  apt-get update -qq && break
  echo "  Retry $i..."
  sleep 2
done
apt-get install -y -qq git openssh-client curl openssl >/dev/null 2>&1
echo "[1/5] ✓ Done"

echo "[2/5] Setting up SSH..."
if ls /root/.ssh/id_* >/dev/null 2>&1; then
  echo "  Using mounted SSH keys"
  mkdir -p /tmp/ssh && cp /root/.ssh/id_* /tmp/ssh/ 2>/dev/null
  chmod 700 /tmp/ssh && chmod 600 /tmp/ssh/id_*
  ssh-keyscan github.com >> /tmp/ssh/known_hosts 2>/dev/null
  SSH_KEY=$(ls /tmp/ssh/id_* | grep -v '\.pub$' | head -1)
  if [ -n "$SSH_KEY_NAME" ] && [ -f "/tmp/ssh/$SSH_KEY_NAME" ]; then
    SSH_KEY="/tmp/ssh/$SSH_KEY_NAME"
  fi
  echo "  Using key: $(basename $SSH_KEY)"
  if [ -n "$SSH_PASSPHRASE" ]; then
    echo "  Removing passphrase from key copy..."
    ssh-keygen -p -P "$SSH_PASSPHRASE" -N "" -f "$SSH_KEY" >/dev/null 2>&1
    if [ $? -ne 0 ]; then
      echo "  ✗ Failed to remove passphrase — wrong passphrase?"
    else
      echo "  ✓ Passphrase removed from copy"
    fi
    unset SSH_PASSPHRASE
  fi
  export GIT_SSH_COMMAND="ssh -i $SSH_KEY -F /dev/null -o UserKnownHostsFile=/tmp/ssh/known_hosts -o StrictHostKeyChecking=no"
else
  mkdir -p /root/.ssh && chmod 700 /root/.ssh
  printf "%s" "$ENCRYPTED_KEY" | base64 -d | openssl aes-256-cbc -d -pbkdf2 -pass pass:"$TEAM_PASS" > /root/.ssh/id_ed25519
  chmod 600 /root/.ssh/id_ed25519
  ssh-keyscan github.com >> /root/.ssh/known_hosts 2>/dev/null
  unset ENCRYPTED_KEY TEAM_PASS
fi
echo "[2/5] ✓ Done"

echo "[3/5] Configuring git..."
git config --global user.name ""#,
    );
    s.append(git_name);
    s.append(
        r#""
git config --global user.email ""#,
    );
    s.append(git_email);
    s.append(
        r#""
echo "[3/5] ✓ Done"

echo "[4/5] Cloning repo..."
mkdir -p /workspace
if [ ! -d "$REPO_DIR/.git" ]; then
  git clone "$REPO_URL" "$REPO_DIR"
else
  echo "  Repo already cloned, pulling latest..."
  cd "$REPO_DIR" && git pull
fi
cd "$REPO_DIR"
if command -v otto >/dev/null 2>&1; then
  echo "  otto already installed: $(otto --version 2>&1 | head -1)"
else
  curl -fsSL https://install.ottocode.io | sh
fi
echo "[4/5] ✓ Done"

echo ""
echo "════════════════════════════════════════"
echo "  ✓ Otto is ready!"
echo "  Open http://localhost:"#,
    );
    let wp = u16_to_string(web_port);
    s.append(wp.as_str());
    s.append(
        r#" in your browser"
echo "════════════════════════════════════════"
echo ""

echo "[5/5] Starting otto..."
export PATH="$HOME/.local/bin:$PATH"
cd "$REPO_DIR"
otto serve --network --port "#,
    );
    let ap = u16_to_string(api_port);
    s.append(ap.as_str());
    s.append(" --no-open");
    s
}

/// One port-binding object entry: `"P/tcp":[{"HostPort":"P"}]`.
pub open spec fn binding_entry(port: int) -> Seq<char> {
    "\""@ + dec_str(port) + "/tcp\":[{\"HostPort\":\""@ + dec_str(port) + "\"}]"@
}

/// One exposed-port object entry: `"P/tcp":{}`.
pub open spec fn exposed_entry(port: int) -> Seq<char> {
    "\""@ + dec_str(port) + "/tcp\":{}"@
}

/// The dev ports' contribution to the PortBindings object, each entry with
/// its leading comma.
pub open spec fn dev_bindings(devs: Seq<u16>) -> Seq<char>
    decreases devs.len(),
{
    if devs.len() == 0 {
        Seq::empty()
    } else {
        ","@ + binding_entry(devs[0] as int) + dev_bindings(devs.drop_first())
    }
}

/// The dev ports' contribution to the ExposedPorts object.
pub open spec fn dev_exposed(devs: Seq<u16>) -> Seq<char>
    decreases devs.len(),
{
    if devs.len() == 0 {
        Seq::empty()
    } else {
        ","@ + exposed_entry(devs[0] as int) + dev_exposed(devs.drop_first())
    }
}

proof fn lemma_dev_bindings_snoc(devs: Seq<u16>, p: u16)
    ensures
        dev_bindings(devs.push(p)) == dev_bindings(devs) + (","@ + binding_entry(p as int)),
        dev_exposed(devs.push(p)) == dev_exposed(devs) + (","@ + exposed_entry(p as int)),
    decreases devs.len(),
{
    if devs.len() == 0 {
        assert(devs.push(p)[0] == p);
        assert(devs.push(p).drop_first() =~= Seq::<u16>::empty());
        assert(dev_bindings(Seq::<u16>::empty()) =~= Seq::<char>::empty());
        assert(dev_exposed(Seq::<u16>::empty()) =~= Seq::<char>::empty());
        assert(dev_bindings(devs.push(p)) =~= dev_bindings(devs) + (","@ + binding_entry(
            p as int,
        )));
        assert(dev_exposed(devs.push(p)) =~= dev_exposed(devs) + (","@ + exposed_entry(p as int)));
    } else {
        assert(devs.push(p).drop_first() =~= devs.drop_first().push(p));
        lemma_dev_bindings_snoc(devs.drop_first(), p);
        assert(dev_bindings(devs.push(p)) =~= dev_bindings(devs) + (","@ + binding_entry(
            p as int,
        )));
        assert(dev_exposed(devs.push(p)) =~= dev_exposed(devs) + (","@ + exposed_entry(p as int)));
    }
}

/// The PortBindings object: the API port, the web port, then every dev port,
/// each published to the same host port.
pub open spec fn port_bindings_json(api: int, web: int, devs: Seq<u16>) -> Seq<char> {
    "{"@ + binding_entry(api) + ","@ + binding_entry(web) + dev_bindings(devs) + "}"@
}

/// The ExposedPorts object for the same ports.
pub open spec fn exposed_ports_json(api: int, web: int, devs: Seq<u16>) -> Seq<char> {
    "{"@ + exposed_entry(api) + ","@ + exposed_entry(web) + dev_exposed(devs) + "}"@
}

/// The Env array: the secrets and parameters the entrypoint consumes (and
/// unsets immediately after use).
pub open spec fn env_json(opts: ContainerCreateOpts) -> Seq<char> {
    "["@ + json_quoted("ENCRYPTED_KEY="@ + opts.encrypted_key@) + ","@ + json_quoted(
        "TEAM_PASS="@ + opts.password@,
    ) + ","@ + json_quoted("REPO_URL="@ + opts.repo_url@) + ","@ + json_quoted(
        "REPO_DIR="@ + opts.repo_dir@,
    ) + ","@ + json_quoted("OTTO_PORT="@ + dec_str(opts.api_port as int)) + ","@ + json_quoted(
        "SSH_KEY_NAME="@ + opts.ssh_key_name@,
    ) + ","@ + json_quoted("SSH_PASSPHRASE="@ + opts.ssh_passphrase@) + "]"@
}

/// The host `~/.ssh` directory to bind-mount read-only, when personal SSH
/// keys are used; with no home directory only the relative `.ssh` is left,
/// and the mount will simply find nothing.
pub open spec fn ssh_bind_spec(use_personal: bool, home: Option<Seq<char>>) -> Option<Seq<char>> {
    if use_personal {
        Some(
            match home {
                Some(h) => h + "/.ssh"@,
                None => ".ssh"@,
            },
        )
    } else {
        None
    }
}

/// The Binds array: the read-only SSH mount, or empty.
pub open spec fn binds_json(ssh_bind: Option<Seq<char>>) -> Seq<char> {
    match ssh_bind {
        Some(p) => "["@ + json_quoted(p + ":/root/.ssh:ro"@) + "]"@,
        None => "[]"@,
    }
}

/// The full container-create payload: entrypoint as `Cmd`, secrets in `Env`,
/// the port window exposed and bound, public DNS resolvers, and the optional
/// read-only SSH mount. Object keys are in serializer order.
pub open spec fn create_body_spec(
    opts: ContainerCreateOpts,
    entry: Seq<char>,
    ssh_bind: Option<Seq<char>>,
) -> Seq<char> {
    "{\"Cmd\":[\"bash\",\"-c\","@ + json_quoted(entry) + "],\"Env\":"@ + env_json(opts)
        + ",\"ExposedPorts\":"@ + exposed_ports_json(
        opts.api_port as int,
        opts.api_port + 1,
        opts.dev_ports@,
    ) + ",\"HostConfig\":{\"Binds\":"@ + binds_json(ssh_bind)
        + ",\"Dns\":[\"8.8.8.8\",\"8.8.4.4\",\"1.1.1.1\"],\"PortBindings\":"@ + port_bindings_json(
        opts.api_port as int,
        opts.api_port + 1,
        opts.dev_ports@,
    ) + "},\"Image\":"@ + json_quoted(opts.image@) + "}"@
}

fn append_binding_entry(out: &mut String, port: u16)
    ensures
        final(out)@ == old(out)@ + binding_entry(port as int),
{
    out.append("\"");
    let p = u16_to_string(port);
    out.append(p.as_str());
    out.append("/tcp\":[{\"HostPort\":\"");
    out.append(p.as_str());
    out.append("\"}]");
}

fn append_exposed_entry(out: &mut String, port: u16)
    ensures
        final(out)@ == old(out)@ + exposed_entry(port as int),
{
    out.append("\"");
    let p = u16_to_string(port);
    out.append(p.as_str());
    out.append("/tcp\":{}");
}

fn append_env_entry(out: &mut String, prefix: &str, value: &str)
    ensures
        final(out)@ == old(out)@ + json_quoted(prefix@ + value@),
{
    let joined = String::from_str(prefix).concat(value);
    append_json_quoted(out, joined.as_str());
}

fn append_env_json(out: &mut String, opts: &ContainerCreateOpts)
    ensures
        final(out)@ == old(out)@ + env_json(*opts),
{
    out.append("[");
    append_env_entry(out, "ENCRYPTED_KEY=", opts.encrypted_key.as_str());
    out.append(",");
    append_env_entry(out, "TEAM_PASS=", opts.password.as_str());
    out.append(",");
    append_env_entry(out, "REPO_URL=", opts.repo_url.as_str());
    out.append(",");
    append_env_entry(out, "REPO_DIR=", opts.repo_dir.as_str());
    out.append(",");
    let api_str = u16_to_string(opts.api_port);
    append_env_entry(out, "OTTO_PORT=", api_str.as_str());
    out.append(",");
    append_env_entry(out, "SSH_KEY_NAME=", opts.ssh_key_name.as_str());
    out.append(",");
    append_env_entry(out, "SSH_PASSPHRASE=", opts.ssh_passphrase.as_str());
    out.append("]");
    proof {
        assert(out@ =~= old(out)@ + env_json(*opts));
    }
}

fn append_exposed_ports(out: &mut String, api_port: u16, web_port: u16, dev_ports: &Vec<u16>)
    ensures
        final(out)@ == old(out)@ + exposed_ports_json(
            api_port as int,
            web_port as int,
            dev_ports@,
        ),
{
    out.append("{");
    append_exposed_entry(out, api_port);
    out.append(",");
    append_exposed_entry(out, web_port);
    let ghost g = out@;
    let mut i: usize = 0;
    while i < dev_ports.len()
        invariant
            i <= dev_ports@.len(),
            out@ == g + dev_exposed(dev_ports@.subrange(0, i as int)),
        decreases dev_ports@.len() - i,
    {
        out.append(",");
        append_exposed_entry(out, dev_ports[i]);
        proof {
            lemma_dev_bindings_snoc(dev_ports@.subrange(0, i as int), dev_ports@[i as int]);
            assert(dev_ports@.subrange(0, i as int).push(dev_ports@[i as int]) =~= dev_ports@
                .subrange(0, i + 1));
            assert(out@ =~= g + dev_exposed(dev_ports@.subrange(0, i + 1)));
        }
        i += 1;
    }
    out.append("}");
    proof {
        assert(dev_ports@.subrange(0, dev_ports@.len() as int) =~= dev_ports@);
        assert(out@ =~= old(out)@ + exposed_ports_json(
            api_port as int,
            web_port as int,
            dev_ports@,
        ));
    }
}

fn append_port_bindings(out: &mut String, api_port: u16, web_port: u16, dev_ports: &Vec<u16>)
    ensures
        final(out)@ == old(out)@ + port_bindings_json(
            api_port as int,
            web_port as int,
            dev_ports@,
        ),
{
    out.append("{");
    append_binding_entry(out, api_port);
    out.append(",");
    append_binding_entry(out, web_port);
    let ghost g = out@;
    let mut j: usize = 0;
    while j < dev_ports.len()
        invariant
            j <= dev_ports@.len(),
            out@ == g + dev_bindings(dev_ports@.subrange(0, j as int)),
        decreases dev_ports@.len() - j,
    {
        out.append(",");
        append_binding_entry(out, dev_ports[j]);
        proof {
            lemma_dev_bindings_snoc(dev_ports@.subrange(0, j as int), dev_ports@[j as int]);
            assert(dev_ports@.subrange(0, j as int).push(dev_ports@[j as int]) =~= dev_ports@
                .subrange(0, j + 1));
            assert(out@ =~= g + dev_bindings(dev_ports@.subrange(0, j + 1)));
        }
        j += 1;
    }
    out.append("}");
    proof {
        assert(dev_ports@.subrange(0, dev_ports@.len() as int) =~= dev_ports@);
        assert(out@ =~= old(out)@ + port_bindings_json(
            api_port as int,
            web_port as int,
            dev_ports@,
        ));
    }
}

fn append_binds(out: &mut String, use_personal_ssh: bool, home: Option<&String>)
    ensures
        final(out)@ == old(out)@ + binds_json(
            ssh_bind_spec(
                use_personal_ssh,
                match home {
                    Some(h) => Some(h@),
                    None => None,
                },
            ),
        ),
{
    if use_personal_ssh {
        out.append("[");
        let ssh_path = match home {
            Some(h) => h.as_str().to_owned().concat("/.ssh"),
            None => String::from_str(".ssh"),
        };
        append_json_quoted(out, ssh_path.as_str().to_owned().concat(":/root/.ssh:ro").as_str());
        out.append("]");
    } else {
        out.append("[]");
    }
    proof {
        assert(out@ =~= old(out)@ + binds_json(
            ssh_bind_spec(
                use_personal_ssh,
                match home {
                    Some(h) => Some(h@),
                    None => None,
                },
            ),
        ));
    }
}

/// Builds the container-create payload from the submitted options. `home`
/// is the user's home directory, read by the caller; it matters only when
/// personal SSH keys are mounted.
pub fn container_create_body(opts: &ContainerCreateOpts, home: Option<&String>) -> (r: String)
    requires
        opts.api_port < 65535,
    ensures
        r@ == create_body_spec(
            *opts,
            entrypoint_spec(
                opts.git_name@,
                opts.git_email@,
                opts.api_port as int,
                opts.api_port + 1,
            ),
            ssh_bind_spec(
                opts.use_personal_ssh,
                match home {
                    Some(h) => Some(h@),
                    None => None,
                },
            ),
        ),
{
    let web_port: u16 = opts.api_port + 1;
    let entry = entrypoint_script(
        opts.git_name.as_str(),
        opts.git_email.as_str(),
        opts.api_port,
        web_port,
    );

    let mut out = String::from_str("{\"Cmd\":[\"bash\",\"-c\",");
    append_json_quoted(&mut out, entry.as_str());
    out.append("],\"Env\":");
    append_env_json(&mut out, opts);
    out.append(",\"ExposedPorts\":");
    append_exposed_ports(&mut out, opts.api_port, web_port, &opts.dev_ports);
    out.append(",\"HostConfig\":{\"Binds\":");
    append_binds(&mut out, opts.use_personal_ssh, home);
    out.append(",\"Dns\":[\"8.8.8.8\",\"8.8.4.4\",\"1.1.1.1\"],\"PortBindings\":");
    append_port_bindings(&mut out, opts.api_port, web_port, &opts.dev_ports);
    out.append("},\"Image\":");
    append_json_quoted(&mut out, opts.image.as_str());
    out.append("}");
    proof {
        assert(out@ =~= create_body_spec(
            *opts,
            entrypoint_spec(
                opts.git_name@,
                opts.git_email@,
                opts.api_port as int,
                opts.api_port + 1,
            ),
            ssh_bind_spec(
                opts.use_personal_ssh,
                match home {
                    Some(h) => Some(h@),
                    None => None,
                },
            ),
        ));
    }
    out
}

/// Builds the snapshot a caller sees from an inspect reply: the stable
/// human-chosen name, the Engine's coarse status string, and the running
/// flag. Fails exactly when the body is not JSON.
pub fn interpret_inspect(name: String, body: &str) -> (r: Result<ContainerInfo, String>)
    ensures
        r matches Ok(info) ==> (inspect_state_of(body@) matches Some(p) && info.name@ == name@
            && info.status@ == p.0 && info.running == p.1),
        r is Err <==> inspect_state_of(body@) is None,
{
    match parse_inspect_state(body) {
        Some((status, running)) => Ok(ContainerInfo { name, status, running }),
        None => Err(String::from_str("Invalid inspect response")),
    }
}

/// Reads the `Id` field of an exec-create reply; fails exactly when the body
/// is not JSON, and yields the empty string when the field is missing, so a
/// malformed reply surfaces as an error on the following call.
pub fn interpret_exec_id(body: &str) -> (r: Result<String, String>)
    ensures
        r matches Ok(id) ==> json_str_field_of(body@, "Id"@) == Some(id@),
        r is Err <==> json_str_field_of(body@, "Id"@) is None,
{
    match json_str_field(body, "Id") {
        Some(id) => Ok(id),
        None => Err(String::from_str("Invalid exec response")),
    }
}

/// One outside action requested by the create flow: an Engine call, or a
/// bind probe on the primary dev port while waiting for it to come free.
pub enum EngineRequest {
    Post { path: String, body: Option<String> },
    Delete { path: String },
    ProbeDevPort { port: u16 },
}

/// The create flow's states. The driver starts at `StopOld`, performs the
/// action `create_request` names for the current state, and feeds the
/// outcome into `create_next` until `Done` or `Failed`.
pub enum CreateStep {
    /// Best-effort stop of any stale container of the same name.
    StopOld,
    /// Best-effort force-removal of the same name.
    RemoveOld,
    /// Bounded wait (with short sleeps) for the primary dev port to free up;
    /// `attempt` counts the probes made so far.
    WaitPort { attempt: u8 },
    /// POST the create payload.
    SendCreate,
    /// Start the freshly created container.
    StartNew { id: String },
    /// Start failed: force-remove the just-created container, keeping the
    /// start error to surface.
    Rollback { id: String, err: String },
    Done { id: String },
    Failed { err: String },
}

/// The outcome the driver reports: an Engine call's result, or one bind
/// probe on the dev port.
pub enum CreateEvent {
    Call { result: Result<String, String> },
    PortProbe { free: bool },
}

/// The action each create-flow state asks of the driver. Terminal states ask
/// nothing; the wait state asks for a probe only when there is a dev port to
/// wait for.
pub fn create_request(step: &CreateStep, opts: &ContainerCreateOpts, home: Option<&String>) -> (r:
    Option<EngineRequest>)
    requires
        opts.api_port < 65535,
    ensures
        step is StopOld ==> (r matches Some(q) && q matches EngineRequest::Post { path, body }
            && path@ == "/containers/"@ + opts.name@ + "/stop?t=2"@ && body is None),
        step is RemoveOld ==> (r matches Some(q) && q matches EngineRequest::Delete { path }
            && path@ == "/containers/"@ + opts.name@ + "?force=true"@),
        step is WaitPort && opts.dev_ports@.len() > 0 ==> (r matches Some(q) && q matches
            EngineRequest::ProbeDevPort { port } && port == opts.dev_ports@[0]),
        step is WaitPort && opts.dev_ports@.len() == 0 ==> r is None,
        step is SendCreate ==> (r matches Some(q) && q matches EngineRequest::Post { path, body }
            && path@ == "/containers/create?name="@ + opts.name@ && (body matches Some(b) && b@
            == create_body_spec(
            *opts,
            entrypoint_spec(
                opts.git_name@,
                opts.git_email@,
                opts.api_port as int,
                opts.api_port + 1,
            ),
            ssh_bind_spec(
                opts.use_personal_ssh,
                match home {
                    Some(h) => Some(h@),
                    None => None,
                },
            ),
        ))),
        step matches CreateStep::StartNew { id } ==> (r matches Some(q) && q matches
            EngineRequest::Post { path, body } && path@ == "/containers/"@ + id@ + "/start"@
            && body is None),
        step matches CreateStep::Rollback { id, err } ==> (r matches Some(q) && q matches
            EngineRequest::Delete { path } && path@ == "/containers/"@ + id@ + "?force=true"@),
        step is Done ==> r is None,
        step is Failed ==> r is None,
{
    match step {
        CreateStep::StopOld => Some(
            EngineRequest::Post { path: stop_path(opts.name.as_str()), body: None },
        ),
        CreateStep::RemoveOld => Some(
            EngineRequest::Delete { path: remove_path(opts.name.as_str()) },
        ),
        CreateStep::WaitPort { attempt: _ } => {
            if opts.dev_ports.len() > 0 {
                Some(EngineRequest::ProbeDevPort { port: opts.dev_ports[0] })
            } else {
                None
            }
        },
        CreateStep::SendCreate => Some(
            EngineRequest::Post {
                path: create_path(opts.name.as_str()),
                body: Some(container_create_body(opts, home)),
            },
        ),
        CreateStep::StartNew { id } => Some(
            EngineRequest::Post { path: start_path(id.as_str()), body: None },
        ),
        CreateStep::Rollback { id, err: _ } => Some(
            EngineRequest::Delete { path: remove_path(id.as_str()) },
        ),
        CreateStep::Done { id: _ } => None,
        CreateStep::Failed { err: _ } => None,
    }
}

/// The create flow's transition function. The best-effort stop and remove
/// ignore their outcomes; the wait state proceeds once the port is free or
/// after five probes; a failed create surfaces the Engine's error; a failed
/// start rolls the fresh container back, and the error surfaced after the
/// rollback is the start error, never the removal's outcome.
pub fn create_next(step: CreateStep, event: CreateEvent, has_dev_ports: bool) -> (next: CreateStep)
    ensures
        step is StopOld ==> next is RemoveOld,
        step is RemoveOld && has_dev_ports ==> next == (CreateStep::WaitPort { attempt: 0u8 }),
        step is RemoveOld && !has_dev_ports ==> next is SendCreate,
        step matches CreateStep::WaitPort { attempt } ==> (event matches CreateEvent::PortProbe {
            free,
        } ==> (if free || attempt >= 4 {
            next is SendCreate
        } else {
            next == (CreateStep::WaitPort { attempt: (attempt + 1) as u8 })
        })),
        step is SendCreate ==> (event matches CreateEvent::Call { result } ==> (match result {
            Ok(body) => (json_str_field_of(body@, "Id"@) matches Some(idv) ==> (next matches
                CreateStep::StartNew { id } && id@ == idv)) && (json_str_field_of(body@, "Id"@)
                is None ==> (next matches CreateStep::Failed { err } && err@
                == "Invalid create response"@)),
            Err(e) => next matches CreateStep::Failed { err } && err@ == e@,
        })),
        step matches CreateStep::StartNew { id } ==> (event matches CreateEvent::Call { result }
            ==> (match result {
            Ok(_) => next matches CreateStep::Done { id: id2 } && id2@ == id@,
            Err(e) => next matches CreateStep::Rollback { id: id2, err } && id2@ == id@ && err@
                == e@,
        })),
        step matches CreateStep::Rollback { id, err } ==> (next matches CreateStep::Failed {
            err: e2,
        } && e2@ == err@),
        step matches CreateStep::Done { id } ==> (next matches CreateStep::Done { id: id2 } && id2@
            == id@),
        step matches CreateStep::Failed { err } ==> (next matches CreateStep::Failed { err: e2 }
            && e2@ == err@),
{
    match step {
        CreateStep::StopOld => CreateStep::RemoveOld,
        CreateStep::RemoveOld => {
            if has_dev_ports {
                CreateStep::WaitPort { attempt: 0 }
            } else {
                CreateStep::SendCreate
            }
        },
        CreateStep::WaitPort { attempt } => {
            match event {
                CreateEvent::PortProbe { free } => {
                    if free || attempt >= 4 {
                        CreateStep::SendCreate
                    } else {
                        CreateStep::WaitPort { attempt: attempt + 1 }
                    }
                },
                _ => CreateStep::WaitPort { attempt },
            }
        },
        CreateStep::SendCreate => {
            match event {
                CreateEvent::Call { result: Ok(body) } => {
                    match json_str_field(body.as_str(), "Id") {
                        Some(id) => CreateStep::StartNew { id },
                        None => CreateStep::Failed {
                            err: String::from_str("Invalid create response"),
                        },
                    }
                },
                CreateEvent::Call { result: Err(e) } => CreateStep::Failed { err: e },
                _ => CreateStep::SendCreate,
            }
        },
        CreateStep::StartNew { id } => {
            match event {
                CreateEvent::Call { result: Ok(_) } => CreateStep::Done { id },
                CreateEvent::Call { result: Err(e) } => CreateStep::Rollback { id, err: e },
                _ => CreateStep::StartNew { id },
            }
        },
        CreateStep::Rollback { id: _, err } => CreateStep::Failed { err },
        CreateStep::Done { id } => CreateStep::Done { id },
        CreateStep::Failed { err } => CreateStep::Failed { err },
    }
}

} // verus!
