use tailscale_drive::client::{cached_peers_path, filename_from_content_disposition, plan_pushes,
    PollSchedule, TailscaleClient};
use tailscale_drive::models::{ClientCommand, ClientEvent, PeerInfo, SyncProject};

fn peer(id: &str, online: bool) -> PeerInfo {
    PeerInfo {
        id: id.to_string(),
        hostname: format!("host-{}", id),
        dns_name: format!("{}.ts.net", id),
        ip_addresses: vec!["100.0.0.1".to_string()],
        online,
        os: "linux".to_string(),
    }
}

fn status_event(connected: bool) -> ClientEvent {
    ClientEvent::StatusUpdate {
        connected,
        last_sent: None,
        last_received_file: None,
        server_cwd: None,
    }
}

#[test]
fn new_client_starts_disconnected() {
    let c = TailscaleClient::new("http://desk:8080");
    assert_eq!(c.server_url, "http://desk:8080");
    assert!(!c.connected);
    assert_eq!(c.status_message, "Connecting…");
    assert!(c.commands.is_empty());
    assert!(c.peers.is_empty());
}

#[test]
fn commands_queue_in_order_and_drain() {
    let mut c = TailscaleClient::new("http://desk:8080");
    c.download_file("a.txt");
    c.download_last();
    c.browse(Some("/tmp".to_string()));
    c.pull_file("/tmp/x");
    c.refresh();
    c.upload_file("/local/f", "dest/f");
    c.create_sync_project("/mobile/doc", "/desktop/doc");
    c.fetch_sync_projects();
    c.delete_sync_project("p9");
    c.check_sync_changes();
    assert_eq!(c.commands.len(), 10);
    assert!(matches!(&c.commands[0], ClientCommand::DownloadFile(n) if n == "a.txt"));
    assert!(matches!(&c.commands[4], ClientCommand::Refresh));
    assert!(matches!(&c.commands[8], ClientCommand::DeleteSyncProject(id) if id == "p9"));
    let drained = c.drain_commands();
    assert_eq!(drained.len(), 10);
    assert!(c.commands.is_empty());
}

#[test]
fn disconnect_keeps_peer_cache_but_marks_offline() {
    // Peer-cache persistence: a disconnect flips every cached peer to
    // offline without shrinking the list.
    let mut c = TailscaleClient::new("http://desk:8080");
    c.process_event(ClientEvent::PeersUpdate(vec![peer("a", true), peer("b", true)]), None);
    c.process_event(status_event(true), None);
    assert!(c.connected);
    assert_eq!(c.peers.len(), 2);

    c.process_event(status_event(false), None);
    assert!(!c.connected);
    assert_eq!(c.status_message, "Cannot reach server");
    assert_eq!(c.peers.len(), 2);
    assert_eq!(c.peers[0].id, "a");
    assert_eq!(c.peers[1].id, "b");
    assert!(c.peers.iter().all(|p| !p.online));
    assert_eq!(c.peers[0].hostname, "host-a");
}

#[test]
fn status_update_when_already_disconnected_leaves_peers_alone() {
    let mut c = TailscaleClient::new("http://desk:8080");
    c.process_event(ClientEvent::PeersUpdate(vec![peer("a", true)]), None);
    c.process_event(status_event(false), None);
    assert!(c.peers[0].online);
}

#[test]
fn browse_update_counts_items() {
    let mut c = TailscaleClient::new("http://desk:8080");
    c.process_event(ClientEvent::BrowseUpdate(Vec::new()), None);
    assert_eq!(c.browse_status.as_deref(), Some("Found 0 items"));
}

#[test]
fn download_without_save_directory_reports_size() {
    let mut c = TailscaleClient::new("http://desk:8080");
    c.process_event(
        ClientEvent::DownloadComplete { filename: "a.bin".to_string(), data: vec![0u8; 512] },
        None,
    );
    assert_eq!(
        c.download_status.as_deref(),
        Some("✓ Downloaded 'a.bin' (512 B) — no save directory set"),
    );
    assert!(c.pending_share_paths.is_empty());
}

#[test]
fn download_with_save_directory_records_share_path() {
    let mut c = TailscaleClient::new("http://desk:8080");
    c.save_directory = Some("/data/Downloads".to_string());
    assert_eq!(c.save_target("a.bin").as_deref(), Some("/data/Downloads/a.bin"));
    c.process_event(
        ClientEvent::DownloadComplete { filename: "a.bin".to_string(), data: vec![0u8; 2048] },
        Some(Ok(())),
    );
    assert_eq!(c.download_status.as_deref(), Some("✓ Saved 'a.bin' (2.00 KB)"));
    assert_eq!(c.pending_share_paths, vec!["/data/Downloads/a.bin".to_string()]);
}

#[test]
fn failed_save_reports_the_error() {
    let mut c = TailscaleClient::new("http://desk:8080");
    c.save_directory = Some("/data".to_string());
    c.process_event(
        ClientEvent::PullComplete { filename: "x".to_string(), data: vec![1] },
        Some(Err("permission denied".to_string())),
    );
    assert_eq!(c.browse_status.as_deref(), Some("✗ Failed to save 'x': permission denied"));
    assert!(c.pending_share_paths.is_empty());
}

#[test]
fn error_event_sets_download_status() {
    let mut c = TailscaleClient::new("http://desk:8080");
    c.process_event(ClientEvent::Error("boom".to_string()), None);
    assert_eq!(c.download_status.as_deref(), Some("✗ boom"));
}

#[test]
fn sync_pull_complete_queues_notification() {
    let mut c = TailscaleClient::new("http://desk:8080");
    c.process_event(
        ClientEvent::SyncPullComplete {
            project_id: "p1".to_string(),
            filename: "doc.txt".to_string(),
        },
        None,
    );
    assert_eq!(c.sync_status.as_deref(), Some("✓ Synced 'doc.txt'"));
    assert_eq!(
        c.pending_sync_notifications,
        vec![("File Synced".to_string(), "Updated: doc.txt".to_string())],
    );
}

#[test]
fn upload_complete_names_the_file() {
    let mut c = TailscaleClient::new("http://desk:8080");
    c.process_event(
        ClientEvent::UploadComplete { remote_path: "/desktop/dir/doc.txt".to_string() },
        None,
    );
    assert_eq!(c.sync_status.as_deref(), Some("✓ Uploaded 'doc.txt'"));
}

#[test]
fn poll_schedule_fires_immediately_then_waits() {
    let mut s = PollSchedule::new(3000);
    assert!(s.due(0));
    s.mark_polled(1000);
    assert!(!s.due(1000));
    assert!(!s.due(3999));
    assert!(s.due(4000));
}

#[test]
fn refresh_makes_the_next_tick_poll() {
    let mut s = PollSchedule::new(3000);
    s.mark_polled(1000);
    assert!(!s.due(1001));
    s.force_refresh();
    assert!(s.due(1002));
}

#[test]
fn plan_pushes_selects_newer_unpaused_files() {
    let projects = vec![
        SyncProject {
            id: "p1".to_string(),
            local_path: "/desktop/a".to_string(),
            remote_path: "/mobile/a".to_string(),
            last_synced: 100,
            paused: false,
        },
        SyncProject {
            id: "p2".to_string(),
            local_path: "/desktop/b".to_string(),
            remote_path: "/mobile/b".to_string(),
            last_synced: 100,
            paused: true,
        },
        SyncProject {
            id: "p3".to_string(),
            local_path: "/desktop/c".to_string(),
            remote_path: "/mobile/c".to_string(),
            last_synced: 100,
            paused: false,
        },
    ];
    let plans = plan_pushes(&projects, &vec![Some(200), Some(300), Some(50)]);
    assert_eq!(plans.len(), 1);
    assert_eq!(plans[0].project_id, "p1");
    assert_eq!(plans[0].src_path, "/mobile/a");
    assert_eq!(plans[0].dest_path, "/desktop/a");
    assert_eq!(plans[0].modified, 200);
}

#[test]
fn content_disposition_filename_is_extracted() {
    let cd = "attachment; filename=\"report.pdf\"";
    assert_eq!(filename_from_content_disposition(cd).as_deref(), Some("report.pdf"));
}

#[test]
fn content_disposition_without_marker_or_quote_yields_nothing() {
    assert!(filename_from_content_disposition("attachment").is_none());
    assert!(filename_from_content_disposition("attachment; filename=\"open").is_none());
    assert!(filename_from_content_disposition("filename=\"").is_none());
}

#[test]
fn cached_peers_file_sits_beside_the_save_directory() {
    assert_eq!(cached_peers_path("/data/Documents/Downloads"), "/data/Documents/cached_peers.json");
    assert_eq!(cached_peers_path("Downloads"), "/cached_peers.json");
}
