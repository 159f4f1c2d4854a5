use tailscale_drive::models::SentFileInfo;
use tailscale_drive::notify::NotificationState;

fn sent(name: &str, succeeded: bool, sending: bool) -> Option<SentFileInfo> {
    Some(SentFileInfo {
        name: name.to_string(),
        peer_id: "peer".to_string(),
        size: 1,
        timestamp: 0,
        succeeded,
        sending,
    })
}

#[test]
fn received_sequence_notifies_at_most_once() {
    // Snapshots: None -> "a" -> "a" -> "b".  From a fresh start the
    // first transition is silent, the repeat enqueues nothing, and the
    // change to "b" enqueues exactly one notification.
    let mut n = NotificationState::new();
    n.observe_received(&None);
    assert_eq!(n.pending.len(), 0);
    n.observe_received(&Some("a".to_string()));
    assert_eq!(n.pending.len(), 0);
    n.observe_received(&Some("a".to_string()));
    assert_eq!(n.pending.len(), 0);
    n.observe_received(&Some("b".to_string()));
    assert_eq!(n.pending.len(), 1);
    assert_eq!(n.pending[0].0, "File Ready");
    assert_eq!(n.pending[0].1, "Tap to download: b");
}

#[test]
fn received_change_after_known_value_notifies_each_change_once() {
    let mut n = NotificationState::new();
    n.observe_received(&Some("x".to_string()));
    assert_eq!(n.pending.len(), 0);
    n.observe_received(&Some("a".to_string()));
    assert_eq!(n.pending.len(), 1);
    n.observe_received(&Some("a".to_string()));
    assert_eq!(n.pending.len(), 1);
    n.observe_received(&Some("b".to_string()));
    assert_eq!(n.pending.len(), 2);
}

#[test]
fn sent_in_progress_is_not_notified() {
    let mut n = NotificationState::new();
    n.observe_sent(&sent("a", false, true));
    assert_eq!(n.pending.len(), 0);
    // First succeeded name is remembered silently.
    n.observe_sent(&sent("a", true, false));
    assert_eq!(n.pending.len(), 0);
    // A new succeeded name fires exactly once.
    n.observe_sent(&sent("b", true, false));
    assert_eq!(n.pending.len(), 1);
    assert_eq!(n.pending[0].0, "File Sent");
    assert_eq!(n.pending[0].1, "Desktop sent: b");
    n.observe_sent(&sent("b", true, false));
    assert_eq!(n.pending.len(), 1);
}

#[test]
fn consume_surfaces_each_notification_exactly_once() {
    let mut n = NotificationState::new();
    n.push_notification("T1".to_string(), "B1".to_string());
    n.push_notification("T2".to_string(), "B2".to_string());
    assert!(n.has_pending_notification());
    // Peeking the title does not consume.
    assert_eq!(n.notification_title(), "T1");
    assert_eq!(n.notification_title(), "T1");
    assert_eq!(n.pending.len(), 2);
    // Consuming the body pops the front pair.
    assert_eq!(n.consume_notification_body(), "B1");
    assert_eq!(n.pending.len(), 1);
    assert_eq!(n.notification_title(), "T2");
    assert_eq!(n.consume_notification_body(), "B2");
    assert!(!n.has_pending_notification());
    assert_eq!(n.notification_title(), "");
    assert_eq!(n.consume_notification_body(), "");
}
