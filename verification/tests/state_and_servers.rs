use otto_launcher::servers::{
    find_available_port, find_single_available_port, kill_orphan_servers, orphan_scan_ports,
    pair_candidate_ports, parse_pid, project_arg_candidates, single_candidate_ports,
};
use otto_launcher::sshkeys::{name_le_exec, sort_keys_by_name, ssh_key_entry, SshKeyInfo};
use otto_launcher::state::{migrate_legacy_state, state_path, ProjectState, TeamState};
use otto_launcher::strutil::{str_trim, u16_to_string, u64_to_string};

fn project(id: &str, team_id: &str) -> ProjectState {
    ProjectState {
        id: id.to_string(),
        repo: "r".to_string(),
        container_name: "c".to_string(),
        api_port: 29000,
        web_port: 29001,
        status: "stopped".to_string(),
        image: "img".to_string(),
        dev_ports: String::new(),
        post_clone: String::new(),
        git_name: String::new(),
        git_email: String::new(),
        ssh_mode: String::new(),
        ssh_key_name: String::new(),
        team_id: team_id.to_string(),
    }
}

#[test]
fn state_file_lives_under_config_dir() {
    assert_eq!(state_path("/home/u/.config"), "/home/u/.config/otto-launcher/state.json");
}

#[test]
fn legacy_state_gets_team_id_and_projects_inherit_it() {
    let team = TeamState {
        id: String::new(),
        name: "acme".to_string(),
        public_key: "pk".to_string(),
        encrypted_key: "ek".to_string(),
        git_name: "g".to_string(),
        git_email: "e".to_string(),
    };
    let projects = vec![project("p1", ""), project("p2", "team-keep")];
    let state = migrate_legacy_state(Some(team), projects, "team-177".to_string());
    assert_eq!(state.teams.len(), 1);
    assert_eq!(state.teams[0].id, "team-177");
    assert_eq!(state.teams[0].name, "acme");
    assert_eq!(state.projects[0].team_id, "team-177");
    assert_eq!(state.projects[1].team_id, "team-keep");
}

#[test]
fn legacy_state_keeps_existing_team_id() {
    let team = TeamState {
        id: "team-1".to_string(),
        name: "acme".to_string(),
        public_key: String::new(),
        encrypted_key: String::new(),
        git_name: String::new(),
        git_email: String::new(),
    };
    let state = migrate_legacy_state(Some(team), vec![project("p", "")], "fresh".to_string());
    assert_eq!(state.teams[0].id, "team-1");
    assert_eq!(state.projects[0].team_id, "team-1");
}

#[test]
fn legacy_state_without_team() {
    let state = migrate_legacy_state(None, vec![project("p", "")], "fresh".to_string());
    assert_eq!(state.teams.len(), 0);
    assert_eq!(state.projects[0].team_id, "");
}

#[test]
fn orphan_ports_step_by_two() {
    let ports = orphan_scan_ports();
    assert_eq!(ports.len(), 50);
    assert_eq!(ports[0], 19000);
    assert_eq!(ports[1], 19002);
    assert_eq!(ports[49], 19098);
}

#[test]
fn orphan_kill_plan_parses_pid_lines() {
    let lines = vec![
        "123".to_string(),
        "  456 ".to_string(),
        "".to_string(),
        "abc".to_string(),
        "-7".to_string(),
        "99999999999999999999".to_string(),
    ];
    assert_eq!(kill_orphan_servers(&lines), vec![123, 456]);
}

#[test]
fn pid_parsing_is_strict() {
    assert_eq!(parse_pid("2147483647"), Some(2147483647));
    assert_eq!(parse_pid("2147483648"), None);
    assert_eq!(parse_pid(""), None);
    assert_eq!(parse_pid("12a"), None);
}

#[test]
fn desktop_port_pairs_skip_reserved() {
    let reserved = vec![19000u16, 19002];
    let cands = pair_candidate_ports(&reserved);
    assert_eq!(cands[0], 19004);
    assert_eq!(find_available_port(&reserved, &vec![true]), 19004);
    assert_eq!(find_available_port(&reserved, &vec![false; 498]), 19100);
}

#[test]
fn web_ports_step_by_one() {
    let reserved = vec![19500u16];
    let cands = single_candidate_ports(&reserved);
    assert_eq!(cands[0], 19501);
    assert_eq!(find_single_available_port(&reserved, &vec![false, true]), 19502);
    assert_eq!(find_single_available_port(&reserved, &vec![false; 499]), 19500);
}

#[test]
fn project_args_take_flag_successors() {
    let args: Vec<String> =
        ["app", "--project", "/a", "--verbose", "--project", "/b"].iter().map(|s| s.to_string()).collect();
    assert_eq!(project_arg_candidates(&args), vec!["/a".to_string(), "/b".to_string()]);
    assert_eq!(project_arg_candidates(&vec!["--project".to_string()]), Vec::<String>::new());
    assert_eq!(project_arg_candidates(&Vec::new()), Vec::<String>::new());
}

#[test]
fn trim_strips_ascii_whitespace() {
    assert_eq!(str_trim("  hello \r\n"), "hello");
    assert_eq!(str_trim(""), "");
    assert_eq!(str_trim(" \t "), "");
}

#[test]
fn numbers_render_in_decimal() {
    assert_eq!(u16_to_string(0), "0");
    assert_eq!(u16_to_string(29020), "29020");
    assert_eq!(u64_to_string(18446744073709551615), "18446744073709551615");
}

#[test]
fn ssh_entries_filter_and_classify() {
    let k = ssh_key_entry(
        "id_ed25519".to_string(),
        "/home/u/.ssh/id_ed25519".to_string(),
        "ssh-ed25519 AAAA".to_string(),
        false,
    )
    .unwrap();
    assert_eq!(k.key_type, "ed25519");
    assert_eq!(k.name, "id_ed25519");
    let k = ssh_key_entry("id_rsa".to_string(), "p".to_string(), "pk".to_string(), true).unwrap();
    assert_eq!(k.key_type, "rsa");
    assert!(k.has_passphrase);
    let k = ssh_key_entry("id_ecdsa_sk".to_string(), "p".to_string(), "".to_string(), false)
        .unwrap();
    assert_eq!(k.key_type, "ecdsa");
    let k = ssh_key_entry("id_mystery".to_string(), "p".to_string(), "".to_string(), false)
        .unwrap();
    assert_eq!(k.key_type, "unknown");
    assert!(ssh_key_entry("id_rsa.pub".to_string(), "p".to_string(), "".to_string(), false)
        .is_none());
    assert!(ssh_key_entry("known_hosts".to_string(), "p".to_string(), "".to_string(), false)
        .is_none());
}

#[test]
fn key_listing_sorts_by_name() {
    let mk = |name: &str| SshKeyInfo {
        name: name.to_string(),
        path: String::new(),
        key_type: String::new(),
        public_key: String::new(),
        has_passphrase: false,
    };
    let sorted = sort_keys_by_name(vec![mk("id_rsa"), mk("id_ecdsa"), mk("id_ed25519")]);
    let names: Vec<&str> = sorted.iter().map(|k| k.name.as_str()).collect();
    assert_eq!(names, vec!["id_ecdsa", "id_ed25519", "id_rsa"]);
    assert!(name_le_exec("id_a", "id_b"));
    assert!(!name_le_exec("id_b", "id_a"));
    assert!(name_le_exec("id", "id_a"));
}
