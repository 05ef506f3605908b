use otto_launcher::lifecycle::{
    clean_log_output, container_create_body, create_next, create_request, entrypoint_script,
    exec_create_body, exec_start_body, interpret_exec_id, interpret_inspect, inspect_path,
    logs_path, remove_path, restart_path, start_path, stop_path,
    update_otto_command, ContainerCreateOpts, CreateEvent, CreateStep, EngineRequest,
};

fn opts() -> ContainerCreateOpts {
    ContainerCreateOpts {
        name: "proj1".to_string(),
        repo_url: "git@github.com:acme/app.git".to_string(),
        repo_dir: "/workspace/app".to_string(),
        encrypted_key: "QUJD".to_string(),
        password: "team \"pass\"".to_string(),
        git_name: "Ada Lovelace".to_string(),
        git_email: "ada@example.com".to_string(),
        api_port: 29000,
        dev_ports: vec![29010, 29011],
        image: "ubuntu:24.04".to_string(),
        use_personal_ssh: false,
        ssh_key_name: String::new(),
        ssh_passphrase: String::new(),
    }
}

#[test]
fn operation_paths_are_exact() {
    assert_eq!(inspect_path("c"), "/containers/c/json");
    assert_eq!(start_path("c"), "/containers/c/start");
    assert_eq!(stop_path("c"), "/containers/c/stop?t=2");
    assert_eq!(remove_path("c"), "/containers/c?force=true");
    assert_eq!(restart_path("c"), "/containers/c/restart?t=2");
    assert_eq!(
        logs_path("c", 200),
        "/containers/c/logs?stdout=true&stderr=true&tail=200"
    );
}

#[test]
fn exec_bodies_are_exact() {
    assert_eq!(
        exec_create_body("echo hi"),
        "{\"AttachStderr\":true,\"AttachStdout\":true,\"Cmd\":[\"bash\",\"-c\",\"echo hi\"]}"
    );
    assert_eq!(exec_start_body(), "{\"Detach\":false,\"Tty\":false}");
    assert!(update_otto_command().contains("otto --version"));
}

#[test]
fn entrypoint_interpolates_identity_and_ports() {
    let script = entrypoint_script("Ada Lovelace", "ada@example.com", 29000, 29001);
    assert!(script.contains("git config --global user.name \"Ada Lovelace\""));
    assert!(script.contains("git config --global user.email \"ada@example.com\""));
    assert!(script.contains("Open http://localhost:29001 in your browser"));
    assert!(script.ends_with("otto serve --network --port 29000 --no-open"));
    assert!(script.starts_with("set -e\n"));
}

#[test]
fn create_body_is_valid_json_with_expected_fields() {
    let o = opts();
    let body = container_create_body(&o, Some(&"/home/u".to_string()));
    let v: serde_json::Value = serde_json::from_str(&body).expect("body must be valid JSON");
    assert_eq!(v["Image"], "ubuntu:24.04");
    assert_eq!(v["Cmd"][0], "bash");
    assert_eq!(v["Cmd"][1], "-c");
    let script = v["Cmd"][2].as_str().unwrap();
    assert!(script.contains("otto serve --network --port 29000 --no-open"));
    let env = v["Env"].as_array().unwrap();
    assert_eq!(env[0], "ENCRYPTED_KEY=QUJD");
    assert_eq!(env[1], "TEAM_PASS=team \"pass\"");
    assert_eq!(env[2], "REPO_URL=git@github.com:acme/app.git");
    assert_eq!(env[3], "REPO_DIR=/workspace/app");
    assert_eq!(env[4], "OTTO_PORT=29000");
    let bindings = v["HostConfig"]["PortBindings"].as_object().unwrap();
    assert!(bindings.contains_key("29000/tcp"));
    assert!(bindings.contains_key("29001/tcp"));
    assert!(bindings.contains_key("29010/tcp"));
    assert!(bindings.contains_key("29011/tcp"));
    assert_eq!(bindings["29000/tcp"][0]["HostPort"], "29000");
    let exposed = v["ExposedPorts"].as_object().unwrap();
    assert_eq!(exposed.len(), 4);
    assert_eq!(v["HostConfig"]["Dns"][0], "8.8.8.8");
    assert_eq!(v["HostConfig"]["Binds"].as_array().unwrap().len(), 0);
}

#[test]
fn create_body_mounts_personal_ssh_read_only() {
    let mut o = opts();
    o.use_personal_ssh = true;
    let body = container_create_body(&o, Some(&"/home/u".to_string()));
    let v: serde_json::Value = serde_json::from_str(&body).unwrap();
    assert_eq!(v["HostConfig"]["Binds"][0], "/home/u/.ssh:/root/.ssh:ro");
}

#[test]
fn create_flow_happy_path() {
    let o = opts();
    let step = CreateStep::StopOld;
    match create_request(&step, &o, None) {
        Some(EngineRequest::Post { path, body }) => {
            assert_eq!(path, "/containers/proj1/stop?t=2");
            assert!(body.is_none());
        }
        other => panic!("unexpected request: {:?}", other.is_some()),
    }
    let step = create_next(step, CreateEvent::Call { result: Ok(String::new()) }, true);
    match create_request(&step, &o, None) {
        Some(EngineRequest::Delete { path }) => assert_eq!(path, "/containers/proj1?force=true"),
        _ => panic!("expected delete"),
    }
    let step = create_next(step, CreateEvent::Call { result: Ok(String::new()) }, true);
    // the dev port is busy once, then free
    match create_request(&step, &o, None) {
        Some(EngineRequest::ProbeDevPort { port }) => assert_eq!(port, 29010),
        _ => panic!("expected probe"),
    }
    let step = create_next(step, CreateEvent::PortProbe { free: false }, true);
    let step = create_next(step, CreateEvent::PortProbe { free: true }, true);
    match create_request(&step, &o, None) {
        Some(EngineRequest::Post { path, body }) => {
            assert_eq!(path, "/containers/create?name=proj1");
            assert!(body.is_some());
        }
        _ => panic!("expected create"),
    }
    let step = create_next(
        step,
        CreateEvent::Call { result: Ok("{\"Id\":\"abc123\"}".to_string()) },
        true,
    );
    match create_request(&step, &o, None) {
        Some(EngineRequest::Post { path, body }) => {
            assert_eq!(path, "/containers/abc123/start");
            assert!(body.is_none());
        }
        _ => panic!("expected start"),
    }
    let step = create_next(step, CreateEvent::Call { result: Ok(String::new()) }, true);
    match step {
        CreateStep::Done { id } => assert_eq!(id, "abc123"),
        _ => panic!("expected done"),
    }
}

#[test]
fn create_flow_rolls_back_failed_start_and_surfaces_start_error() {
    // Rollback scenario: create succeeds, start fails; the container is
    // force-removed and the surfaced error is the start error, not the
    // removal's outcome.
    let o = opts();
    let step = CreateStep::SendCreate;
    let step = create_next(
        step,
        CreateEvent::Call { result: Ok("{\"Id\":\"abc123\"}".to_string()) },
        true,
    );
    let step = create_next(
        step,
        CreateEvent::Call { result: Err("Docker API error (500): start failed".to_string()) },
        true,
    );
    match create_request(&step, &o, None) {
        Some(EngineRequest::Delete { path }) => {
            assert_eq!(path, "/containers/abc123?force=true");
        }
        _ => panic!("rollback must force-remove the fresh container"),
    }
    // even a failed removal surfaces the start error, not its own
    let step = create_next(
        step,
        CreateEvent::Call { result: Err("removal also failed".to_string()) },
        true,
    );
    match step {
        CreateStep::Failed { err } => {
            assert_eq!(err, "Docker API error (500): start failed");
        }
        _ => panic!("expected failure"),
    }
}

#[test]
fn create_flow_skips_wait_without_dev_ports() {
    let step = create_next(CreateStep::RemoveOld, CreateEvent::Call { result: Ok(String::new()) }, false);
    assert!(matches!(step, CreateStep::SendCreate));
}

#[test]
fn create_flow_gives_up_waiting_after_five_probes() {
    let mut step = create_next(
        CreateStep::RemoveOld,
        CreateEvent::Call { result: Ok(String::new()) },
        true,
    );
    for _ in 0..5 {
        assert!(matches!(step, CreateStep::WaitPort { .. }));
        step = create_next(step, CreateEvent::PortProbe { free: false }, true);
    }
    assert!(matches!(step, CreateStep::SendCreate));
}

#[test]
fn create_failure_surfaces_engine_error() {
    let step = create_next(
        CreateStep::SendCreate,
        CreateEvent::Call { result: Err("Docker API error (409): conflict".to_string()) },
        true,
    );
    match step {
        CreateStep::Failed { err } => assert_eq!(err, "Docker API error (409): conflict"),
        _ => panic!("expected failure"),
    }
}

#[test]
fn log_cleaning_strips_frame_headers() {
    let raw = "\u{1}\u{0}\u{0}\u{0}\u{0}\u{0}\u{0}\u{7}hello\r\n\u{2}\u{0}world ok\n";
    assert_eq!(clean_log_output(raw), "hello\r\nworld ok\n");
}

#[test]
fn inspect_interpretation_builds_snapshot() {
    let info = interpret_inspect(
        "proj1".to_string(),
        "{\"State\":{\"Status\":\"exited\",\"Running\":false}}",
    )
    .unwrap();
    assert_eq!(info.name, "proj1");
    assert_eq!(info.status, "exited");
    assert!(!info.running);
    assert!(interpret_inspect("p".to_string(), "garbage").is_err());
}

#[test]
fn exec_id_extraction() {
    assert_eq!(interpret_exec_id("{\"Id\":\"e9\"}").unwrap(), "e9");
    assert_eq!(interpret_exec_id("{}").unwrap(), "");
    assert!(interpret_exec_id("garbage").is_err());
}
