//! The notification queue: user-facing (title, body) pairs derived from
//! state transitions observed across poll cycles, with de-duplication so
//! repeated polls never re-fire the same event, and at-most-once
//! consumption by the UI.

use vstd::prelude::*;

use crate::models::SentFileInfo;
use crate::text::{opt_str_eq, opt_view, str_eq};

verus! {

/// The pending notifications and the last-observed values they are
/// derived from.
pub struct NotificationState {
    /// Queued (title, body) pairs, oldest first.
    pub pending: Vec<(String, String)>,
    /// The received-file name seen at the previous observation.
    pub last_known_received: Option<String>,
    /// The name of the last send already notified about.
    pub last_known_sent_name: Option<String>,
}

/// The views of the queued pairs.
pub open spec fn pending_views(s: Seq<(String, String)>) -> Seq<(Seq<char>, Seq<char>)> {
    s.map_values(|p: (String, String)| (p.0@, p.1@))
}

impl NotificationState {
    /// An empty queue that has observed nothing yet.
    pub fn new() -> (r: NotificationState)
        ensures
            r.pending@.len() == 0,
            r.last_known_received is None,
            r.last_known_sent_name is None,
    {
        NotificationState { pending: Vec::new(), last_known_received: None, last_known_sent_name: None }
    }

    /// Observes the current "last received file" value.  An unchanged
    /// value never enqueues anything; a change to a new name enqueues
    /// exactly one notification, and only once a previous value had been
    /// seen (so the first load stays silent).
    pub fn observe_received(&mut self, current: &Option<String>)
        ensures
            final(self).last_known_sent_name == old(self).last_known_sent_name,
            opt_view(*current) == opt_view(old(self).last_known_received) ==> *final(self) == *old(self),
            opt_view(*current) != opt_view(old(self).last_known_received) ==> {
                &&& opt_view(final(self).last_known_received) == opt_view(*current)
                &&& (match *current {
                    Some(name) => if old(self).last_known_received is Some {
                        pending_views(final(self).pending@) == pending_views(
                            old(self).pending@,
                        ).push(("File Ready"@, "Tap to download: "@ + name@))
                    } else {
                        final(self).pending == old(self).pending
                    },
                    None => final(self).pending == old(self).pending,
                })
            },
    {
        if opt_str_eq(current, &self.last_known_received) {
            return ;
        }
        match current {
            Some(name) => {
                if self.last_known_received.is_some() {
                    let body = String::from_str("Tap to download: ").concat(name.as_str());
                    self.pending.push((String::from_str("File Ready"), body));
                    proof {
                        assert(pending_views(self.pending@) =~= pending_views(
                            old(self).pending@,
                        ).push(("File Ready"@, "Tap to download: "@ + current.unwrap()@)));
                    }
                }
                self.last_known_received = Some(name.clone());
            },
            None => {
                self.last_known_received = None;
            },
        }
    }

    /// Observes the current last-sent slot.  Only a send that has
    /// succeeded is considered, so a send still in progress is not
    /// notified about; a succeeded send with an unchanged name never
    /// enqueues anything; and the first observed name stays silent.
    pub fn observe_sent(&mut self, last_sent: &Option<SentFileInfo>)
        ensures
            final(self).last_known_received == old(self).last_known_received,
            (match last_sent {
                Some(sent) => {
                    &&& !sent.succeeded ==> *final(self) == *old(self)
                    &&& (sent.succeeded && Some(sent.name@) == opt_view(
                        old(self).last_known_sent_name,
                    )) ==> *final(self) == *old(self)
                    &&& (sent.succeeded && Some(sent.name@) != opt_view(
                        old(self).last_known_sent_name,
                    )) ==> {
                        &&& opt_view(final(self).last_known_sent_name) == Some(sent.name@)
                        &&& if old(self).last_known_sent_name is Some {
                            pending_views(final(self).pending@) == pending_views(
                                old(self).pending@,
                            ).push(("File Sent"@, "Desktop sent: "@ + sent.name@))
                        } else {
                            final(self).pending == old(self).pending
                        }
                    }
                },
                None => *final(self) == *old(self),
            }),
    {
        match last_sent {
            Some(sent) => {
                if sent.succeeded {
                    let same = match &self.last_known_sent_name {
                        Some(known) => str_eq(sent.name.as_str(), known.as_str()),
                        None => false,
                    };
                    if !same {
                        if self.last_known_sent_name.is_some() {
                            let body = String::from_str("Desktop sent: ").concat(
                                sent.name.as_str(),
                            );
                            self.pending.push((String::from_str("File Sent"), body));
                            proof {
                                assert(pending_views(self.pending@) =~= pending_views(
                                    old(self).pending@,
                                ).push(("File Sent"@, "Desktop sent: "@ + sent.name@)));
                            }
                        }
                        self.last_known_sent_name = Some(sent.name.clone());
                    }
                }
            },
            None => {},
        }
    }

    /// Enqueues a notification directly (used for sync completions the
    /// poll loop reports).
    pub fn push_notification(&mut self, title: String, body: String)
        ensures
            pending_views(final(self).pending@) == pending_views(old(self).pending@).push(
                (title@, body@),
            ),
            final(self).last_known_received == old(self).last_known_received,
            final(self).last_known_sent_name == old(self).last_known_sent_name,
    {
        self.pending.push((title, body));
        proof {
            assert(pending_views(self.pending@) =~= pending_views(old(self).pending@).push(
                (title@, body@),
            ));
        }
    }

    /// Whether a notification is waiting.
    pub fn has_pending_notification(&self) -> (r: bool)
        ensures
            r == (self.pending@.len() > 0),
    {
        self.pending.len() > 0
    }

    /// The front notification's title, without consuming it; empty when
    /// nothing is queued.
    pub fn notification_title(&self) -> (r: String)
        ensures
            self.pending@.len() > 0 ==> r@ == self.pending@[0].0@,
            self.pending@.len() == 0 ==> r@.len() == 0,
    {
        if self.pending.len() > 0 {
            self.pending[0].0.clone()
        } else {
            String::new()
        }
    }

    /// The front notification's body; consuming it removes the whole
    /// notification, so each one is surfaced at most once.  Empty when
    /// nothing is queued.
    pub fn consume_notification_body(&mut self) -> (r: String)
        ensures
            final(self).last_known_received == old(self).last_known_received,
            final(self).last_known_sent_name == old(self).last_known_sent_name,
            old(self).pending@.len() == 0 ==> *final(self) == *old(self) && r@.len() == 0,
            old(self).pending@.len() > 0 ==> {
                &&& r@ == old(self).pending@[0].1@
                &&& final(self).pending@ == old(self).pending@.drop_first()
            },
    {
        if self.pending.len() == 0 {
            String::new()
        } else {
            let (_, body) = self.pending.remove(0);
            proof {
                assert(self.pending@ =~= old(self).pending@.drop_first());
            }
            body
        }
    }
}

} // verus!
