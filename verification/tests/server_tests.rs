use tailscale_drive::models::{SyncProject, TailscalePeer};
use tailscale_drive::server::{new_app_state, unix_timestamp, AppState};

fn project(id: &str, local: &str, remote: &str, last_synced: u64, paused: bool) -> SyncProject {
    SyncProject {
        id: id.to_string(),
        local_path: local.to_string(),
        remote_path: remote.to_string(),
        last_synced,
        paused,
    }
}

fn state_with(projects: Vec<SyncProject>) -> AppState {
    let mut state = new_app_state();
    state.set_projects(projects);
    state
}

#[test]
fn ack_sets_watermark() {
    let mut state = state_with(vec![project("p1", "/d/doc.txt", "/m/doc.txt", 1000, false)]);
    let found = state.ack_project("p1", 2000);
    assert!(found);
    assert_eq!(state.sync_projects[0].last_synced, 2000);
}

#[test]
fn ack_twice_same_timestamp_is_idempotent() {
    let mut state = state_with(vec![project("p1", "/d/a", "/m/a", 1000, false)]);
    assert!(state.ack_project("p1", 2000));
    assert!(state.ack_project("p1", 2000));
    assert_eq!(state.sync_projects[0].last_synced, 2000);
}

#[test]
fn ack_never_regresses_watermark() {
    let mut state = state_with(vec![project("p1", "/d/a", "/m/a", 1000, false)]);
    assert!(state.ack_project("p1", 5000));
    assert!(state.ack_project("p1", 1500));
    assert_eq!(state.sync_projects[0].last_synced, 5000);
}

#[test]
fn ack_unknown_project_reports_not_found() {
    let mut state = state_with(vec![project("p1", "/d/a", "/m/a", 1000, false)]);
    let found = state.ack_project("does-not-exist", 2000);
    assert!(!found);
    assert_eq!(state.sync_projects.len(), 1);
    assert_eq!(state.sync_projects[0].last_synced, 1000);
}

#[test]
fn ack_touches_only_the_named_project() {
    let mut state = state_with(vec![
        project("p1", "/d/a", "/m/a", 100, false),
        project("p2", "/d/b", "/m/b", 200, false),
    ]);
    assert!(state.ack_project("p2", 900));
    assert_eq!(state.sync_projects[0].last_synced, 100);
    assert_eq!(state.sync_projects[1].last_synced, 900);
}

#[test]
fn delete_unknown_project_keeps_table() {
    let mut state = state_with(vec![
        project("p1", "/d/a", "/m/a", 100, false),
        project("p2", "/d/b", "/m/b", 200, false),
    ]);
    let found = state.delete_project("5f2c9a77");
    assert!(!found);
    assert_eq!(state.sync_projects.len(), 2);
    assert_eq!(state.sync_projects[0].id, "p1");
    assert_eq!(state.sync_projects[1].id, "p2");
}

#[test]
fn delete_removes_exactly_the_named_project() {
    let mut state = state_with(vec![
        project("p1", "/d/a", "/m/a", 100, false),
        project("p2", "/d/b", "/m/b", 200, false),
    ]);
    let found = state.delete_project("p1");
    assert!(found);
    assert_eq!(state.sync_projects.len(), 1);
    assert_eq!(state.sync_projects[0].id, "p2");
}

#[test]
fn create_project_appends_row_with_hex_id() {
    let mut state = state_with(vec![]);
    let created = state.create_project(
        "/desktop/doc.txt".to_string(),
        "/mobile/doc.txt".to_string(),
        255,
        4242,
    );
    assert_eq!(created.id, "ff");
    assert_eq!(created.local_path, "/desktop/doc.txt");
    assert_eq!(created.remote_path, "/mobile/doc.txt");
    assert_eq!(created.last_synced, 4242);
    assert!(!created.paused);
    assert_eq!(state.sync_projects.len(), 1);
    assert_eq!(state.sync_projects[0].id, "ff");
}

#[test]
fn sync_check_reconciliation_scenario() {
    // A tracked file changes on the desktop, the mobile side pulls and
    // acks, and the next check is clean.
    let t0 = 1000;
    let t1 = 2000;
    let mut state = state_with(vec![project(
        "p1",
        "/desktop/doc.txt",
        "/mobile/doc.txt",
        t0,
        false,
    )]);

    let changes = state.sync_changes(&vec![Some(t1)]);
    assert_eq!(changes.len(), 1);
    assert_eq!(changes[0].id, "p1");
    assert_eq!(changes[0].local_path, "/desktop/doc.txt");
    assert_eq!(changes[0].remote_path, "/mobile/doc.txt");
    assert_eq!(changes[0].new_modified, t1);

    assert!(state.ack_project("p1", t1));

    let after = state.sync_changes(&vec![Some(t1)]);
    assert!(after.is_empty());
}

#[test]
fn sync_check_skips_paused_and_unreadable_projects() {
    let mut state = state_with(vec![
        project("p1", "/d/a", "/m/a", 100, true),
        project("p2", "/d/b", "/m/b", 100, false),
        project("p3", "/d/c", "/m/c", 100, false),
    ]);
    let changes = state.sync_changes(&vec![Some(900), None, Some(50)]);
    assert!(changes.is_empty());
}

#[test]
fn sync_check_equal_mtime_is_not_a_change() {
    let state = state_with(vec![project("p1", "/d/a", "/m/a", 700, false)]);
    let changes = state.sync_changes(&vec![Some(700)]);
    assert!(changes.is_empty());
}

#[test]
fn status_snapshot_copies_sent_and_received() {
    let mut state = new_app_state();
    state.begin_send("report.pdf".to_string(), "peer-1".to_string(), 900, 123);
    let (sent, received) = state.status_snapshot();
    let sent = sent.unwrap();
    assert_eq!(sent.name, "report.pdf");
    assert!(sent.sending);
    assert!(!sent.succeeded);
    assert!(received.is_none());

    state.finish_send("report.pdf".to_string(), "peer-1".to_string(), 900, 456, true);
    state.received.record_received("incoming.bin", None);
    let (sent, received) = state.status_snapshot();
    let sent = sent.unwrap();
    assert!(!sent.sending);
    assert!(sent.succeeded);
    assert_eq!(sent.timestamp, 456);
    assert_eq!(received.as_deref(), Some("incoming.bin"));
}

#[test]
fn send_slot_is_replaced_not_appended() {
    let mut state = new_app_state();
    state.begin_send("a".to_string(), "p".to_string(), 1, 10);
    state.finish_send("a".to_string(), "p".to_string(), 1, 11, false);
    state.begin_send("b".to_string(), "p".to_string(), 2, 12);
    let (sent, _) = state.status_snapshot();
    let sent = sent.unwrap();
    assert_eq!(sent.name, "b");
    assert!(sent.sending);
}

#[test]
fn peers_response_excludes_self_node() {
    let mut state = new_app_state();
    state.set_peers(vec![
        TailscalePeer {
            id: "self".to_string(),
            hostname: "me".to_string(),
            dns_name: "me.ts.net".to_string(),
            ip_addresses: vec!["100.1.1.1".to_string()],
            online: true,
            is_self: true,
            os: "linux".to_string(),
            can_receive_files: true,
        },
        TailscalePeer {
            id: "other".to_string(),
            hostname: "phone".to_string(),
            dns_name: "phone.ts.net".to_string(),
            ip_addresses: vec!["100.1.1.2".to_string()],
            online: false,
            is_self: false,
            os: "iOS".to_string(),
            can_receive_files: true,
        },
    ]);
    let peers = state.peers_response();
    assert_eq!(peers.len(), 1);
    assert_eq!(peers[0].id, "other");
    assert_eq!(peers[0].hostname, "phone");
    assert!(!peers[0].online);
}

#[test]
fn received_index_prefers_latest_record() {
    let mut state = new_app_state();
    state.received.record_received("a.txt", Some("/tmp/a1".to_string()));
    state.received.record_received("a.txt", Some("/tmp/a2".to_string()));
    assert_eq!(state.received.path_for("a.txt").as_deref(), Some("/tmp/a2"));
    assert!(state.received.path_for("b.txt").is_none());
    assert_eq!(state.received.last_received().as_deref(), Some("a.txt"));
}

#[test]
fn waiting_file_does_not_overwrite_known_last_file() {
    let mut state = new_app_state();
    state.received.note_waiting_file("first.txt");
    assert_eq!(state.received.last_received().as_deref(), Some("first.txt"));
    state.received.note_waiting_file("second.txt");
    assert_eq!(state.received.last_received().as_deref(), Some("first.txt"));
}

#[test]
fn unix_timestamp_is_monotonic_enough() {
    let a = unix_timestamp();
    let b = unix_timestamp();
    assert!(b >= a);
    assert!(a > 1_600_000_000);
}

#[test]
fn new_app_state_is_empty() {
    let state = new_app_state();
    let (sent, received) = state.status_snapshot();
    assert!(sent.is_none());
    assert!(received.is_none());
    assert!(state.sync_projects.is_empty());
    assert!(state.peers.is_empty());
}
