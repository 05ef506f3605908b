//! The GitHub-facing data types and the device-flow polling decision. The
//! HTTP exchanges live outside this crate; the poll decision here fixes,
//! from the fields of a token-endpoint reply, exactly which outcome the GUI
//! sees. The git working-copy status classification lives here too.

use vstd::prelude::*;
use vstd::string::*;
use crate::strutil::str_eq;

verus! {

/// One repository as listed for the picker.
pub struct GitHubRepo {
    pub id: u64,
    pub name: String,
    pub full_name: String,
    pub clone_url: String,
    pub private: bool,
    pub description: Option<String>,
}

/// The signed-in user.
pub struct GitHubUser {
    pub login: String,
    pub name: Option<String>,
    pub avatar_url: String,
}

/// The device-flow codes shown to the user.
pub struct DeviceCodeResponse {
    pub device_code: String,
    pub user_code: String,
    pub verification_uri: String,
    pub interval: u64,
    pub expires_in: u64,
}

/// One poll's outcome: `complete` with the token, `pending`, or `error`.
pub struct DevicePollResult {
    pub status: String,
    pub access_token: Option<String>,
    pub error: Option<String>,
}

/// Classifies one token-endpoint reply, given its `access_token` and
/// `error` fields: a token completes the flow; `authorization_pending` and
/// `slow_down` keep polling; any other error stops it; and a reply with
/// neither field counts as pending.
pub fn device_poll_outcome(token: Option<String>, error: Option<String>) -> (r: DevicePollResult)
    ensures
        token matches Some(t) ==> (r.status@ == "complete"@ && (r.access_token matches Some(t2)
            && t2@ == t@) && r.error is None),
        token is None ==> match error {
            Some(e) => {
                if e@ == "authorization_pending"@ || e@ == "slow_down"@ {
                    r.status@ == "pending"@ && r.access_token is None && r.error is None
                } else {
                    r.status@ == "error"@ && r.access_token is None && (r.error matches Some(e2)
                        && e2@ == e@)
                }
            },
            None => r.status@ == "pending"@ && r.access_token is None && r.error is None,
        },
{
    match token {
        Some(t) => DevicePollResult {
            status: String::from_str("complete"),
            access_token: Some(t),
            error: None,
        },
        None => match error {
            Some(e) => {
                if str_eq(e.as_str(), "authorization_pending") || str_eq(e.as_str(), "slow_down") {
                    DevicePollResult {
                        status: String::from_str("pending"),
                        access_token: None,
                        error: None,
                    }
                } else {
                    DevicePollResult {
                        status: String::from_str("error"),
                        access_token: None,
                        error: Some(e),
                    }
                }
            },
            None => DevicePollResult {
                status: String::from_str("pending"),
                access_token: None,
                error: None,
            },
        },
    }
}

/// One changed file in a working copy.
pub struct ChangedFile {
    pub path: String,
    pub status: String,
}

/// A working-copy snapshot for the GUI.
pub struct GitStatus {
    pub branch: String,
    pub ahead: usize,
    pub behind: usize,
    pub changed_files: Vec<ChangedFile>,
    pub has_changes: bool,
}

/// The display class of one status entry, from the git status flags: added,
/// deleted and renamed take precedence over modified, and an entry with none
/// of these flags is not shown.
pub fn classify_file_status(
    index_new: bool,
    wt_new: bool,
    index_deleted: bool,
    wt_deleted: bool,
    index_renamed: bool,
    wt_renamed: bool,
    index_modified: bool,
    wt_modified: bool,
) -> (r: Option<String>)
    ensures
        index_new || wt_new ==> (r matches Some(s) && s@ == "added"@),
        !(index_new || wt_new) && (index_deleted || wt_deleted) ==> (r matches Some(s) && s@
            == "deleted"@),
        !(index_new || wt_new) && !(index_deleted || wt_deleted) && (index_renamed || wt_renamed)
            ==> (r matches Some(s) && s@ == "renamed"@),
        !(index_new || wt_new) && !(index_deleted || wt_deleted) && !(index_renamed || wt_renamed)
            && (index_modified || wt_modified) ==> (r matches Some(s) && s@ == "modified"@),
        !(index_new || wt_new) && !(index_deleted || wt_deleted) && !(index_renamed || wt_renamed)
            && !(index_modified || wt_modified) ==> r is None,
{
    if index_new || wt_new {
        Some(String::from_str("added"))
    } else if index_deleted || wt_deleted {
        Some(String::from_str("deleted"))
    } else if index_renamed || wt_renamed {
        Some(String::from_str("renamed"))
    } else if index_modified || wt_modified {
        Some(String::from_str("modified"))
    } else {
        None
    }
}

} // verus!
