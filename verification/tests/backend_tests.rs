use tailscale_drive::backend::{file_put_url, ingest_notification, peers_from_status,
    received_file_url, split_lines};
use tailscale_drive::models::{FileWaiting, IncomingFile, PeerStatus, TailscaleEvent,
    TailscaleStatus};
use tailscale_drive::preview::{file_extension, is_image_ext, is_previewable, is_text_ext};

fn node(id: &str, online: bool, os: Option<&str>) -> PeerStatus {
    PeerStatus {
        id: id.to_string(),
        hostname: format!("host-{}", id),
        dns_name: format!("{}.ts.net", id),
        tailscale_ips: Some(vec!["100.64.0.9".to_string()]),
        online,
        os: os.map(|s| s.to_string()),
    }
}

#[test]
fn received_file_url_percent_encodes_the_name() {
    assert_eq!(
        received_file_url("hello world.txt"),
        "http://local-tailscaled.sock/localapi/v0/files/hello%20world.txt",
    );
}

#[test]
fn file_put_url_keeps_peer_id_and_encodes_the_name() {
    assert_eq!(
        file_put_url("n123", "a&b.txt"),
        "http://local-tailscaled.sock/localapi/v0/file-put/n123/a%26b.txt",
    );
}

#[test]
fn peers_from_status_marks_self_online_and_drops_os_less_nodes() {
    let status = TailscaleStatus {
        backend_state: "Running".to_string(),
        self_node: Some(node("self", false, Some("linux"))),
        peers: vec![node("a", true, Some("iOS")), node("b", true, None), node("c", false, Some(""))],
    };
    let peers = peers_from_status(&status);
    assert_eq!(peers.len(), 2);
    assert_eq!(peers[0].id, "self");
    assert!(peers[0].online);
    assert!(peers[0].is_self);
    assert_eq!(peers[1].id, "a");
    assert!(!peers[1].is_self);
    assert!(peers[1].online);
}

#[test]
fn peers_from_status_without_self_node() {
    let status = TailscaleStatus {
        backend_state: "Running".to_string(),
        self_node: None,
        peers: vec![node("a", false, Some("macOS"))],
    };
    let peers = peers_from_status(&status);
    assert_eq!(peers.len(), 1);
    assert_eq!(peers[0].id, "a");
    assert!(!peers[0].online);
}

#[test]
fn split_lines_buffers_partial_lines_across_chunks() {
    let mut buffer = String::new();
    let lines = split_lines(&mut buffer, "a\nb");
    assert_eq!(lines, vec!["a".to_string()]);
    assert_eq!(buffer, "b");

    let lines = split_lines(&mut buffer, "c\nd\n");
    assert_eq!(lines, vec!["bc".to_string(), "d".to_string()]);
    assert_eq!(buffer, "");

    let lines = split_lines(&mut buffer, "no newline yet");
    assert!(lines.is_empty());
    assert_eq!(buffer, "no newline yet");
}

#[test]
fn split_lines_keeps_empty_lines() {
    let mut buffer = String::new();
    let lines = split_lines(&mut buffer, "\n\nx\n");
    assert_eq!(lines, vec!["".to_string(), "".to_string(), "x".to_string()]);
    assert_eq!(buffer, "");
}

#[test]
fn ingest_reports_done_transfers_as_received() {
    let incoming = vec![IncomingFile {
        name: "photo.jpg".to_string(),
        started: None,
        size: 1000,
        received: Some(1000),
        done: true,
        final_path: Some("/inbox/photo.jpg".to_string()),
    }];
    let events = ingest_notification(&incoming, &vec![], 777);
    assert_eq!(events.len(), 1);
    match &events[0] {
        TailscaleEvent::FileReceived(f) => {
            assert_eq!(f.name, "photo.jpg");
            assert_eq!(f.path.as_deref(), Some("/inbox/photo.jpg"));
            assert_eq!(f.size, 1000);
            assert_eq!(f.from_peer, "Unknown");
            assert_eq!(f.received_at, 777);
            assert!(!f.saved);
        },
        _ => panic!("expected a received-file event"),
    }
}

#[test]
fn ingest_reports_partial_transfers_as_progress() {
    let incoming = vec![IncomingFile {
        name: "video.mp4".to_string(),
        started: Some("now".to_string()),
        size: 5000,
        received: Some(1200),
        done: false,
        final_path: None,
    }];
    let events = ingest_notification(&incoming, &vec![], 0);
    assert_eq!(events.len(), 1);
    match &events[0] {
        TailscaleEvent::FileTransferring(t) => {
            assert_eq!(t.name, "video.mp4");
            assert_eq!(t.size, 5000);
            assert_eq!(t.transferred, 1200);
            assert!(!t.done);
        },
        _ => panic!("expected a transfer-progress event"),
    }
}

#[test]
fn ingest_reports_waiting_files_with_their_sender() {
    let waiting = vec![(
        "peer-7".to_string(),
        FileWaiting { name: "notes.md".to_string(), size: 64 },
    )];
    let events = ingest_notification(&vec![], &waiting, 5);
    assert_eq!(events.len(), 1);
    match &events[0] {
        TailscaleEvent::FileReceived(f) => {
            assert_eq!(f.name, "notes.md");
            assert!(f.path.is_none());
            assert_eq!(f.from_peer, "peer-7");
        },
        _ => panic!("expected a received-file event"),
    }
}

#[test]
fn extensions_lowercase_after_last_dot() {
    assert_eq!(file_extension("Report.TXT"), "txt");
    assert_eq!(file_extension("archive.tar.GZ"), "gz");
    assert_eq!(file_extension("noext"), "");
    assert_eq!(file_extension("trailing."), "");
}

#[test]
fn preview_classification() {
    assert!(is_text_ext("md"));
    assert!(is_text_ext("rs"));
    assert!(!is_text_ext("exe"));
    assert!(is_image_ext("png"));
    assert!(!is_image_ext("md"));
    assert!(is_previewable("json"));
    assert!(is_previewable("jpeg"));
    assert!(!is_previewable("bin"));
}
