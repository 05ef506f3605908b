use otto_launcher::engine::{
    choose_docker_host, choose_socket, classify_engine_response, docker_host_candidates,
    docker_uri_with_host, encode_docker_path, json_array_len, list_response_nonempty,
    normalize_docker_host, parse_inspect_state, socket_candidates,
};
use otto_launcher::lifecycle::list_filter_path;

#[test]
fn filter_path_percent_encodes_only_filter_chars() {
    // URI encoding: the JSON filter's { } [ ] " are escaped and nothing else
    // is altered.
    let path = list_filter_path("foo", false);
    assert_eq!(path, "/containers/json?filters={\"name\":[\"^/foo$\"]}");
    let uri = docker_uri_with_host("http://localhost:2375/", &path);
    assert_eq!(
        uri,
        "http://localhost:2375/containers/json?filters=%7B%22name%22:%5B%22^/foo$%22%5D%7D"
    );
    for c in ['{', '}', '[', ']', '"'] {
        assert!(!uri.contains(c));
    }
}

#[test]
fn plain_paths_pass_through_unchanged() {
    assert_eq!(encode_docker_path("/containers/abc/start"), "/containers/abc/start");
    assert_eq!(encode_docker_path("/_ping"), "/_ping");
}

#[test]
fn host_trailing_slashes_are_trimmed() {
    assert_eq!(docker_uri_with_host("http://h//", "/_ping"), "http://h/_ping");
    assert_eq!(docker_uri_with_host("http://h", "/_ping"), "http://h/_ping");
}

#[test]
fn tcp_scheme_normalizes_to_http() {
    assert_eq!(normalize_docker_host("tcp://1.2.3.4:2375".to_string()), "http://1.2.3.4:2375");
    assert_eq!(normalize_docker_host("http://x:2375".to_string()), "http://x:2375");
    assert_eq!(normalize_docker_host("npipe".to_string()), "npipe");
}

#[test]
fn endpoint_choice_prefers_env_then_first_live_probe() {
    assert_eq!(
        choose_docker_host(Some("tcp://env:1".to_string()), &vec![]),
        "http://env:1"
    );
    assert_eq!(
        choose_docker_host(None, &vec![false, true, false]),
        "http://127.0.0.1:2375"
    );
    assert_eq!(choose_docker_host(None, &vec![false, false, false]), "http://localhost:2375");
    assert_eq!(docker_host_candidates().len(), 3);
}

#[test]
fn socket_choice_takes_first_existing() {
    let cands = socket_candidates(Some("/home/u".to_string()));
    assert_eq!(cands[0], "/home/u/.docker/run/docker.sock");
    assert_eq!(cands[1], "/var/run/docker.sock");
    assert_eq!(
        cands[2],
        "/home/u/Library/Containers/com.docker.docker/Data/docker.raw.sock"
    );
    assert_eq!(choose_socket(&cands, &vec![false, true, false]), "/var/run/docker.sock");
    assert_eq!(
        choose_socket(&cands, &vec![false, false, false]),
        "/var/run/docker.sock"
    );
    assert_eq!(choose_socket(&cands, &vec![true, true, false]), cands[0]);
}

#[test]
fn responses_classify_by_status_family() {
    assert_eq!(classify_engine_response(200, "ok".to_string()), Ok("ok".to_string()));
    assert_eq!(classify_engine_response(304, "".to_string()), Ok("".to_string()));
    let err = classify_engine_response(404, "{\"message\":\"no such container\"}".to_string());
    assert_eq!(
        err,
        Err("Docker API error (404): {\"message\":\"no such container\"}".to_string())
    );
    assert!(classify_engine_response(500, "boom".to_string()).is_err());
    assert!(classify_engine_response(101, "switch".to_string()).is_err());
}

#[test]
fn list_replies_interpret_as_existence() {
    assert!(!list_response_nonempty("[]"));
    assert!(list_response_nonempty("[{\"Id\":\"x\"}]"));
    assert!(!list_response_nonempty("not json"));
    assert_eq!(json_array_len("[1,2,3]"), Some(3));
    assert_eq!(json_array_len("{}"), None);
}

#[test]
fn inspect_reply_parses_state() {
    let body = "{\"State\":{\"Status\":\"running\",\"Running\":true}}";
    assert_eq!(parse_inspect_state(body), Some(("running".to_string(), true)));
    let partial = "{\"State\":{}}";
    assert_eq!(parse_inspect_state(partial), Some(("unknown".to_string(), false)));
    assert_eq!(parse_inspect_state("nope"), None);
}
