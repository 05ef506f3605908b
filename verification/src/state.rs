//! The launcher's persisted state: tracked teams and projects, the shared
//! team configuration file, the state file's path, and the migration of the
//! legacy single-team layout to the multi-team one. Reading and writing the
//! JSON files is I/O and happens outside this crate.

use vstd::prelude::*;
use vstd::string::*;

verus! {

/// One team: its deploy key (public, and encrypted private) and git
/// identity.
pub struct TeamState {
    pub id: String,
    pub name: String,
    pub public_key: String,
    pub encrypted_key: String,
    pub git_name: String,
    pub git_email: String,
}

/// One tracked project and its reserved ports.
pub struct ProjectState {
    pub id: String,
    pub repo: String,
    pub container_name: String,
    pub api_port: u16,
    pub web_port: u16,
    pub status: String,
    pub image: String,
    pub dev_ports: String,
    pub post_clone: String,
    pub git_name: String,
    pub git_email: String,
    pub ssh_mode: String,
    pub ssh_key_name: String,
    pub team_id: String,
}

/// Everything the launcher persists between runs.
pub struct LauncherState {
    pub teams: Vec<TeamState>,
    pub projects: Vec<ProjectState>,
}

/// The shareable `.otto` team configuration.
pub struct OttoTeamConfig {
    pub version: u32,
    pub repo: String,
    pub key: String,
    pub cipher: String,
    pub git_name: String,
    pub git_email: String,
    pub image: String,
    pub dev_ports: String,
    pub post_clone: String,
}

/// The state file's path under the user's configuration directory.
pub fn state_path(config_dir: &str) -> (r: String)
    ensures
        r@ == config_dir@ + "/otto-launcher/state.json"@,
{
    let mut s = String::from_str(config_dir);
    s.append("/otto-launcher/state.json");
    s
}

/// The id the migrated team receives: its own id, or the caller-supplied
/// fresh id when the legacy file carried none.
pub open spec fn migrated_team_id(team_id: Seq<char>, fallback: Seq<char>) -> Seq<char> {
    if team_id.len() == 0 {
        fallback
    } else {
        team_id
    }
}

/// Two projects equal in everything but the team id.
pub open spec fn same_but_team(p: ProjectState, q: ProjectState) -> bool {
    p.id == q.id && p.repo == q.repo && p.container_name == q.container_name && p.api_port
        == q.api_port && p.web_port == q.web_port && p.status == q.status && p.image == q.image
        && p.dev_ports == q.dev_ports && p.post_clone == q.post_clone && p.git_name == q.git_name
        && p.git_email == q.git_email && p.ssh_mode == q.ssh_mode && p.ssh_key_name
        == q.ssh_key_name
}

/// Migrates the legacy single-team state: the old team (when present) gets
/// an id if it had none and becomes the only team, and every project without
/// a team id is assigned that team's id. `fallback_id` is the fresh id the
/// caller minted (from the current time) for an id-less legacy team.
pub fn migrate_legacy_state(
    old_team: Option<TeamState>,
    projects: Vec<ProjectState>,
    fallback_id: String,
) -> (r: LauncherState)
    ensures
        old_team matches Some(t) ==> (r.teams@.len() == 1 && r.teams@[0].id@ == migrated_team_id(
            t.id@,
            fallback_id@,
        ) && r.teams@[0].name == t.name && r.teams@[0].public_key == t.public_key
            && r.teams@[0].encrypted_key == t.encrypted_key && r.teams@[0].git_name == t.git_name
            && r.teams@[0].git_email == t.git_email),
        old_team is None ==> r.teams@.len() == 0,
        r.projects@.len() == projects@.len(),
        forall|k: int|
            0 <= k < projects@.len() ==> same_but_team(#[trigger] r.projects@[k], projects@[k]),
        forall|k: int|
            0 <= k < projects@.len() ==> (#[trigger] r.projects@[k]).team_id@ == (
            if projects@[k].team_id@.len() == 0 {
                match old_team {
                    Some(t) => migrated_team_id(t.id@, fallback_id@),
                    None => Seq::<char>::empty(),
                }
            } else {
                projects@[k].team_id@
            }),
{
    proof {
        reveal_strlit("");
    }
    let mut teams: Vec<TeamState> = Vec::new();
    let team_id: String = match old_team {
        Some(t) => {
            let TeamState { id, name, public_key, encrypted_key, git_name, git_email } = t;
            let new_id: String = if id.as_str().unicode_len() == 0 {
                fallback_id
            } else {
                id
            };
            let id_copy = new_id.clone();
            teams.push(
                TeamState { id: new_id, name, public_key, encrypted_key, git_name, git_email },
            );
            id_copy
        },
        None => String::from_str(""),
    };
    let mut projects = projects;
    let ghost orig = projects@;
    let mut i: usize = 0;
    while i < projects.len()
        invariant
            i <= orig.len(),
            projects@.len() == orig.len(),
            forall|k: int| i <= k < orig.len() ==> projects@[k] == orig[k],
            forall|k: int| 0 <= k < i ==> same_but_team(#[trigger] projects@[k], orig[k]),
            forall|k: int|
                0 <= k < i ==> (#[trigger] projects@[k]).team_id@ == (
                if orig[k].team_id@.len() == 0 {
                    team_id@
                } else {
                    orig[k].team_id@
                }),
        decreases orig.len() - i,
    {
        if projects[i].team_id.as_str().unicode_len() == 0 {
            projects[i].team_id = team_id.clone();
        }
        i += 1;
    }
    LauncherState { teams, projects }
}

} // verus!
