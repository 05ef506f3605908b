use otto_launcher::github::{classify_file_status, device_poll_outcome};
use otto_launcher::updater::{
    current_platform_key, decide_update, http_json_header, local_update_manifest,
};

#[test]
fn platform_keys_map_known_targets() {
    assert_eq!(current_platform_key("macos", "aarch64"), "darwin-aarch64");
    assert_eq!(current_platform_key("macos", "x86_64"), "darwin-x86_64");
    assert_eq!(current_platform_key("linux", "x86_64"), "linux-x86_64");
    assert_eq!(current_platform_key("linux", "aarch64"), "linux-aarch64");
    assert_eq!(current_platform_key("windows", "x86_64"), "unsupported");
}

#[test]
fn update_offered_only_for_strictly_newer_version() {
    let current = "1.2.3".to_string();
    let platform = Some(("https://host/app.tar.gz".to_string(), "sig".to_string()));
    let r = decide_update(&current, &"1.2.4".to_string(), platform.clone());
    let (info, pending) = r.unwrap();
    assert_eq!(info.version, "1.2.4");
    assert_eq!(info.current_version, "1.2.3");
    assert_eq!(pending.url, "https://host/app.tar.gz");
    assert_eq!(pending.signature, "sig");
    assert_eq!(pending.version, "1.2.4");
    assert!(decide_update(&current, &"1.2.3".to_string(), platform.clone()).is_none());
    assert!(decide_update(&current, &"1.2.2".to_string(), platform.clone()).is_none());
    assert!(decide_update(&current, &"1.2.4".to_string(), None).is_none());
    assert!(decide_update(
        &current,
        &"1.2.4".to_string(),
        Some((String::new(), "sig".to_string()))
    )
    .is_none());
}

#[test]
fn unparsable_versions_read_as_zero() {
    // an unparsable current version counts as 0.0.0, so any real version is newer
    let r = decide_update(
        &"garbage".to_string(),
        &"0.0.1".to_string(),
        Some(("u".to_string(), "s".to_string())),
    );
    assert!(r.is_some());
    assert!(decide_update(&"1.0.0".to_string(), &"garbage".to_string(), None).is_none());
}

#[test]
fn local_manifest_parses_and_carries_the_single_platform() {
    let m = local_update_manifest("linux-x86_64", "1.2.4", "SIG", "https://host/a.tar.gz");
    let v: serde_json::Value = serde_json::from_str(&m).expect("manifest must be valid JSON");
    assert_eq!(v["version"], "1.2.4");
    assert_eq!(v["platforms"]["linux-x86_64"]["signature"], "SIG");
    assert_eq!(v["platforms"]["linux-x86_64"]["url"], "https://host/a.tar.gz");
    assert_eq!(v["pub_date"], "2025-01-01T00:00:00Z");
}

#[test]
fn header_carries_content_length() {
    assert_eq!(
        http_json_header(42),
        "HTTP/1.1 200 OK\r\nContent-Type: application/json\r\nContent-Length: 42\r\nConnection: close\r\n\r\n"
    );
}

#[test]
fn device_poll_outcomes() {
    let r = device_poll_outcome(Some("tok".to_string()), None);
    assert_eq!(r.status, "complete");
    assert_eq!(r.access_token, Some("tok".to_string()));
    assert_eq!(r.error, None);

    let r = device_poll_outcome(None, Some("authorization_pending".to_string()));
    assert_eq!(r.status, "pending");
    assert_eq!(r.error, None);

    let r = device_poll_outcome(None, Some("slow_down".to_string()));
    assert_eq!(r.status, "pending");

    let r = device_poll_outcome(None, Some("access_denied".to_string()));
    assert_eq!(r.status, "error");
    assert_eq!(r.error, Some("access_denied".to_string()));

    let r = device_poll_outcome(None, None);
    assert_eq!(r.status, "pending");
    assert_eq!(r.access_token, None);
}

#[test]
fn file_status_classification_precedence() {
    assert_eq!(
        classify_file_status(true, false, true, false, false, false, false, false),
        Some("added".to_string())
    );
    assert_eq!(
        classify_file_status(false, false, false, true, false, false, true, false),
        Some("deleted".to_string())
    );
    assert_eq!(
        classify_file_status(false, false, false, false, true, false, false, false),
        Some("renamed".to_string())
    );
    assert_eq!(
        classify_file_status(false, false, false, false, false, false, false, true),
        Some("modified".to_string())
    );
    assert_eq!(
        classify_file_status(false, false, false, false, false, false, false, false),
        None
    );
}
