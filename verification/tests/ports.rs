use otto_launcher::ports::{candidate_windows, find_available_port, probe_ports_for};

#[test]
fn reserved_base_shifts_to_next_window() {
    // Allocator scenario: with 29000 reserved and 20-port windows, the first
    // candidate is 29020, and a clean probe of it must return 29020.
    let reserved = vec![29000u16];
    let port = find_available_port(&reserved, &vec![true]);
    assert_eq!(port, 29020);
    assert!(!(29000..=29019).contains(&port));
}

#[test]
fn candidates_skip_every_overlapping_window() {
    let reserved = vec![29000u16, 29040];
    let cands = candidate_windows(&reserved);
    assert_eq!(cands[0], 29020);
    assert_eq!(cands[1], 29060);
    for c in &cands {
        for r in &reserved {
            let c = *c as u32;
            let r = *r as u32;
            assert!(c + 19 < r || r + 19 < c, "window {} overlaps reserved {}", c, r);
        }
    }
}

#[test]
fn no_reservations_first_window_wins() {
    let port = find_available_port(&vec![], &vec![true]);
    assert_eq!(port, 29000);
}

#[test]
fn probe_failures_move_to_later_candidates() {
    let port = find_available_port(&vec![], &vec![false, false, true]);
    assert_eq!(port, 29040);
}

#[test]
fn exhausted_probes_fall_back_to_base() {
    let port = find_available_port(&vec![], &vec![false; 50]);
    assert_eq!(port, 29000);
}

#[test]
fn offset_reservation_blocks_two_windows() {
    // A reservation at 29010 overlaps both the 29000 and the 29020 window.
    let reserved = vec![29010u16];
    let cands = candidate_windows(&reserved);
    assert_eq!(cands[0], 29040);
}

#[test]
fn probe_list_is_api_web_and_dev_range() {
    let ports = probe_ports_for(29020);
    assert_eq!(
        ports,
        vec![29020, 29021, 29030, 29031, 29032, 29033, 29034, 29035, 29036, 29037, 29038, 29039]
    );
}
