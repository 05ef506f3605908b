//! The self-update decision: whether a published release is newer than the
//! running version, what is remembered between the check and the download,
//! and the exact bytes of the one-shot local manifest (and its HTTP header)
//! that the download step serves to the platform updater. Fetching,
//! downloading and installing are I/O and live outside this crate.

use vstd::prelude::*;
use vstd::string::*;
use crate::strutil::{dec_str, str_eq, u64_to_string};
use crate::jsontext::{append_json_quoted, json_quoted};

verus! {

/// What the update check remembers for the download step.
pub struct PendingUpdateData {
    pub url: String,
    pub signature: String,
    pub version: String,
}

/// What the GUI is told when an update is available.
pub struct UpdateInfo {
    pub version: String,
    pub current_version: String,
}

/// Download progress reported to the GUI.
pub enum DownloadEvent {
    Started { content_length: Option<u64> },
    Progress { chunk_length: usize, downloaded: u64 },
    Finished,
}

/// Whether `remote` names a strictly newer version than `current`, with
/// unparsable versions read as 0.0.0; the result of comparing the two
/// `semver::Version` values.
pub uninterp spec fn semver_newer_of(remote: Seq<char>, current: Seq<char>) -> bool;

/// Relies on `semver::Version::parse` (with 0.0.0 in place of unparsable
/// text) and the `Ord` of `semver::Version`: the comparison is a pure
/// function of the two version strings.
#[verifier::external_body]
fn semver_newer(remote: &str, current: &str) -> (r: bool)
    ensures
        r == semver_newer_of(remote@, current@),
{
    let r = semver::Version::parse(remote).unwrap_or(semver::Version::new(0, 0, 0));
    let c = semver::Version::parse(current).unwrap_or(semver::Version::new(0, 0, 0));
    r > c
}

/// The platform key of this build, from the OS and architecture names.
pub open spec fn platform_key_spec(os: Seq<char>, arch: Seq<char>) -> Seq<char> {
    if os == "macos"@ && arch == "aarch64"@ {
        "darwin-aarch64"@
    } else if os == "macos"@ && arch == "x86_64"@ {
        "darwin-x86_64"@
    } else if os == "linux"@ && arch == "x86_64"@ {
        "linux-x86_64"@
    } else if os == "linux"@ && arch == "aarch64"@ {
        "linux-aarch64"@
    } else {
        "unsupported"@
    }
}

/// The key under which a release manifest lists this platform's artifact.
pub fn current_platform_key(os: &str, arch: &str) -> (r: String)
    ensures
        r@ == platform_key_spec(os@, arch@),
{
    if str_eq(os, "macos") && str_eq(arch, "aarch64") {
        String::from_str("darwin-aarch64")
    } else if str_eq(os, "macos") && str_eq(arch, "x86_64") {
        String::from_str("darwin-x86_64")
    } else if str_eq(os, "linux") && str_eq(arch, "x86_64") {
        String::from_str("linux-x86_64")
    } else if str_eq(os, "linux") && str_eq(arch, "aarch64") {
        String::from_str("linux-aarch64")
    } else {
        String::from_str("unsupported")
    }
}

/// Decides the update check: an update is offered exactly when the
/// published version is strictly newer and the manifest lists this platform
/// with a non-empty download URL. `platform` carries that entry's URL and
/// signature.
pub fn decide_update(
    current_version: &String,
    latest_version: &String,
    platform: Option<(String, String)>,
) -> (r: Option<(UpdateInfo, PendingUpdateData)>)
    ensures
        r matches Some(p) ==> (semver_newer_of(latest_version@, current_version@) && (
        platform matches Some(u) && u.0@.len() > 0 && p.1.url@ == u.0@ && p.1.signature@ == u.1@)
            && p.0.version@ == latest_version@ && p.0.current_version@ == current_version@
            && p.1.version@ == latest_version@),
        r is None ==> (!semver_newer_of(latest_version@, current_version@) || platform is None || (
        platform matches Some(u) && u.0@.len() == 0)),
{
    if !semver_newer(latest_version.as_str(), current_version.as_str()) {
        return None;
    }
    match platform {
        Some((url, signature)) => {
            if url.as_str().unicode_len() == 0 {
                return None;
            }
            let info = UpdateInfo {
                version: latest_version.clone(),
                current_version: current_version.clone(),
            };
            let pending = PendingUpdateData { url, signature, version: latest_version.clone() };
            Some((info, pending))
        },
        None => None,
    }
}

/// The one-release manifest served locally to the platform updater, holding
/// only this platform's artifact; keys are in serializer order, and the
/// publication date is the fixed placeholder the updater ignores.
pub fn local_update_manifest(platform_key: &str, version: &str, signature: &str, url: &str) -> (r:
    String)
    ensures
        r@ == "{\"platforms\":{"@ + json_quoted(platform_key@) + ":{\"signature\":"@ + json_quoted(
            signature@,
        ) + ",\"url\":"@ + json_quoted(url@) + "}},\"pub_date\":\"2025-01-01T00:00:00Z\",\"version\":"@
            + json_quoted(version@) + "}"@,
{
    let mut s = String::from_str("{\"platforms\":{");
    append_json_quoted(&mut s, platform_key);
    s.append(":{\"signature\":");
    append_json_quoted(&mut s, signature);
    s.append(",\"url\":");
    append_json_quoted(&mut s, url);
    s.append("}},\"pub_date\":\"2025-01-01T00:00:00Z\",\"version\":");
    append_json_quoted(&mut s, version);
    s.append("}");
    s
}

/// The HTTP response header for the one-shot manifest server.
pub fn http_json_header(content_length: u64) -> (r: String)
    ensures
        r@ == "HTTP/1.1 200 OK\r\nContent-Type: application/json\r\nContent-Length: "@ + dec_str(
            content_length as int,
        ) + "\r\nConnection: close\r\n\r\n"@,
{
    let mut s = String::from_str("HTTP/1.1 200 OK\r\nContent-Type: application/json\r\nContent-Length: ");
    let n = u64_to_string(content_length);
    s.append(n.as_str());
    s.append("\r\nConnection: close\r\n\r\n");
    s
}

} // verus!
