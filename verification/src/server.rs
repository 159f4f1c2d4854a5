//! The desktop node's shared state and the pure transitions behind its
//! HTTP surface: the last-sent slot, the received-file index, the peer
//! cache, and the sync-project table with its watermark rules.
//!
//! Handlers outside this crate parse requests, read clocks and
//! filesystems, call these transitions under a lock, and serialize the
//! results.

use vstd::prelude::*;

use crate::models::{PeerInfo, PeerInfoV, SentFileInfo, SentFileInfoV, SyncChange, SyncChangeV,
    SyncProject, SyncProjectV, TailscalePeer, TailscalePeerV};
use crate::text::{hex_str, opt_view, str_eq, u64_to_hex};

verus! {

/// The current unix time in whole seconds.
///
/// Relies on `std::time::SystemTime::now`: the result is the clock's
/// reading, about which nothing is promised.
#[verifier::external_body]
pub fn unix_timestamp() -> u64 {
    std::time::SystemTime::now()
        .duration_since(std::time::UNIX_EPOCH)
        .unwrap_or_default()
        .as_secs()
}

/// View of the received-file index: name/path pairs, most recent last.
pub open spec fn entries_view(s: Seq<(String, String)>) -> Seq<(Seq<char>, Seq<char>)> {
    s.map_values(|p: (String, String)| (p.0@, p.1@))
}

/// The path recorded for `name`, preferring the most recent record.
pub open spec fn path_lookup(s: Seq<(Seq<char>, Seq<char>)>, name: Seq<char>) -> Option<Seq<char>>
    decreases s.len(),
{
    if s.len() == 0 {
        None
    } else if s.last().0 == name {
        Some(s.last().1)
    } else {
        path_lookup(s.drop_last(), name)
    }
}

/// Tracks received files: the most recent one, and where completed
/// transfers ended up on disk (so downloads can stream from disk).
pub struct ReceivedState {
    pub last_file: Option<String>,
    pub file_paths: Vec<(String, String)>,
}

impl ReceivedState {
    /// An empty index: nothing received yet.
    pub fn new() -> (r: ReceivedState)
        ensures
            r.last_file is None,
            r.file_paths@.len() == 0,
    {
        ReceivedState { last_file: None, file_paths: Vec::new() }
    }

    /// Records a completed inbound transfer: it becomes the most recent
    /// file, and its on-disk path, when known, is remembered for the
    /// download endpoint.
    pub fn record_received(&mut self, name: &str, path: Option<String>)
        ensures
            opt_view(final(self).last_file) == Some(name@),
            path is Some ==> entries_view(final(self).file_paths@) == entries_view(
                old(self).file_paths@,
            ).push((name@, path.unwrap()@)),
            path is None ==> final(self).file_paths == old(self).file_paths,
    {
        self.last_file = Some(String::from_str(name));
        match path {
            Some(p) => {
                self.file_paths.push((String::from_str(name), p));
                proof {
                    assert(entries_view(self.file_paths@) =~= entries_view(
                        old(self).file_paths@,
                    ).push((name@, path.unwrap()@)));
                }
            },
            None => {},
        }
    }

    /// Notes a file seen waiting in the inbox: it becomes the most recent
    /// file only if none is known yet, so the fallback poll never
    /// overwrites what the event watcher recorded.
    pub fn note_waiting_file(&mut self, name: &str)
        ensures
            old(self).last_file is None ==> opt_view(final(self).last_file) == Some(name@),
            old(self).last_file is Some ==> final(self).last_file == old(self).last_file,
            final(self).file_paths == old(self).file_paths,
    {
        if self.last_file.is_none() {
            self.last_file = Some(String::from_str(name));
        }
    }

    /// The on-disk path recorded for `name`, if any.
    pub fn path_for(&self, name: &str) -> (r: Option<String>)
        ensures
            opt_view(r) == path_lookup(entries_view(self.file_paths@), name@),
    {
        let n = self.file_paths.len();
        let mut i: usize = n;
        proof {
            assert(entries_view(self.file_paths@).take(n as int) =~= entries_view(
                self.file_paths@,
            ));
        }
        while i > 0
            invariant
                i <= n,
                n == self.file_paths@.len(),
                path_lookup(entries_view(self.file_paths@), name@) == path_lookup(
                    entries_view(self.file_paths@).take(i as int),
                    name@,
                ),
            decreases i,
        {
            i = i - 1;
            proof {
                assert(entries_view(self.file_paths@).take(i as int + 1).drop_last()
                    =~= entries_view(self.file_paths@).take(i as int));
                assert(entries_view(self.file_paths@).take(i as int + 1).last()
                    == entries_view(self.file_paths@)[i as int]);
            }
            if str_eq(self.file_paths[i].0.as_str(), name) {
                return Some(self.file_paths[i].1.clone());
            }
        }
        proof {
            assert(entries_view(self.file_paths@).take(0) =~= Seq::<(Seq<char>,
                Seq<char>)>::empty());
        }
        None
    }

    /// The name of the most recently received file, if any.
    pub fn last_received(&self) -> (r: Option<String>)
        ensures
            opt_view(r) == opt_view(self.last_file),
    {
        match &self.last_file {
            Some(s) => Some(s.clone()),
            None => None,
        }
    }
}

/// Combined shared state behind the desktop's HTTP surface.
pub struct AppState {
    pub last_sent: Option<SentFileInfo>,
    pub received: ReceivedState,
    pub peers: Vec<TailscalePeer>,
    pub sync_projects: Vec<SyncProject>,
}

/// A fresh state: no send yet, nothing received, no peers, no projects.
/// The caller loads any persisted project table and installs it with
/// `set_projects`.
pub fn new_app_state() -> (r: AppState)
    ensures
        r.last_sent is None,
        r.received.last_file is None,
        r.received.file_paths@.len() == 0,
        r.peers@.len() == 0,
        r.sync_projects@.len() == 0,
{
    AppState {
        last_sent: None,
        received: ReceivedState::new(),
        peers: Vec::new(),
        sync_projects: Vec::new(),
    }
}

/// The views of a project table's rows.
pub open spec fn proj_views(s: Seq<SyncProject>) -> Seq<SyncProjectV> {
    s.map_values(|p: SyncProject| p@)
}

/// The larger of two timestamps.
pub open spec fn max_time(a: u64, b: u64) -> u64 {
    if a >= b {
        a
    } else {
        b
    }
}

/// One row after an ack of `id` at `timestamp`: the watermark of a
/// matching row advances to the timestamp but never regresses; other rows
/// are untouched.
pub open spec fn ack_one(p: SyncProjectV, id: Seq<char>, timestamp: u64) -> SyncProjectV {
    if p.id == id {
        SyncProjectV {
            id: p.id,
            local_path: p.local_path,
            remote_path: p.remote_path,
            last_synced: max_time(p.last_synced, timestamp),
            paused: p.paused,
        }
    } else {
        p
    }
}

/// The whole table after an ack.
pub open spec fn ack_table(s: Seq<SyncProjectV>, id: Seq<char>, timestamp: u64) -> Seq<
    SyncProjectV,
> {
    s.map_values(|p: SyncProjectV| ack_one(p, id, timestamp))
}

/// Whether the table holds a project with this id.
pub open spec fn has_project(s: Seq<SyncProjectV>, id: Seq<char>) -> bool
    decreases s.len(),
{
    if s.len() == 0 {
        false
    } else {
        s.last().id == id || has_project(s.drop_last(), id)
    }
}

/// The table with every project of this id removed.
pub open spec fn remove_project(s: Seq<SyncProjectV>, id: Seq<char>) -> Seq<SyncProjectV>
    decreases s.len(),
{
    if s.len() == 0 {
        Seq::empty()
    } else {
        let rest = remove_project(s.drop_last(), id);
        if s.last().id == id {
            rest
        } else {
            rest.push(s.last())
        }
    }
}

impl AppState {
    /// Installs a project table (for instance one loaded from durable
    /// storage).
    pub fn set_projects(&mut self, projects: Vec<SyncProject>)
        ensures
            final(self).sync_projects == projects,
            final(self).last_sent == old(self).last_sent,
            final(self).received == old(self).received,
            final(self).peers == old(self).peers,
    {
        self.sync_projects = projects;
    }

    /// Acknowledges a sync of project `id` at `timestamp`: advances the
    /// watermark of every matching project (never backwards), and reports
    /// whether any matched — the surface answers 404 otherwise.
    pub fn ack_project(&mut self, id: &str, timestamp: u64) -> (found: bool)
        ensures
            proj_views(final(self).sync_projects@) == ack_table(
                proj_views(old(self).sync_projects@),
                id@,
                timestamp,
            ),
            found == has_project(proj_views(old(self).sync_projects@), id@),
            final(self).last_sent == old(self).last_sent,
            final(self).received == old(self).received,
            final(self).peers == old(self).peers,
    {
        let ghost orig = old(self).sync_projects@;
        let n = self.sync_projects.len();
        let mut found = false;
        let mut i: usize = 0;
        while i < n
            invariant
                i <= n,
                n == self.sync_projects@.len(),
                self.sync_projects@.len() == orig.len(),
                forall|j: int| i <= j < n ==> self.sync_projects@[j] == orig[j],
                forall|j: int|
                    0 <= j < i ==> #[trigger] self.sync_projects@[j]@ == ack_one(
                        orig[j]@,
                        id@,
                        timestamp,
                    ),
                found == has_project(proj_views(orig.take(i as int)), id@),
                self.last_sent == old(self).last_sent,
                self.received == old(self).received,
                self.peers == old(self).peers,
            decreases n - i,
        {
            proof {
                assert(proj_views(orig.take(i as int + 1)).drop_last() =~= proj_views(
                    orig.take(i as int),
                ));
                assert(proj_views(orig.take(i as int + 1)).last() == orig[i as int]@);
            }
            if str_eq(self.sync_projects[i].id.as_str(), id) {
                let cur = self.sync_projects[i].last_synced;
                let advanced = if cur >= timestamp {
                    cur
                } else {
                    timestamp
                };
                let row = SyncProject {
                    id: self.sync_projects[i].id.clone(),
                    local_path: self.sync_projects[i].local_path.clone(),
                    remote_path: self.sync_projects[i].remote_path.clone(),
                    last_synced: advanced,
                    paused: self.sync_projects[i].paused,
                };
                self.sync_projects[i] = row;
                found = true;
            }
            i = i + 1;
        }
        proof {
            assert(orig.take(n as int) =~= orig);
            assert(proj_views(self.sync_projects@) =~= ack_table(proj_views(orig), id@, timestamp));
        }
        found
    }

    /// Removes every project with this id and reports whether any was
    /// there — the surface answers 404 otherwise, and the table is then
    /// unchanged.
    pub fn delete_project(&mut self, id: &str) -> (found: bool)
        ensures
            proj_views(final(self).sync_projects@) == remove_project(
                proj_views(old(self).sync_projects@),
                id@,
            ),
            found == has_project(proj_views(old(self).sync_projects@), id@),
            !found ==> final(self).sync_projects == old(self).sync_projects,
            final(self).last_sent == old(self).last_sent,
            final(self).received == old(self).received,
            final(self).peers == old(self).peers,
    {
        let n = self.sync_projects.len();
        let mut kept: Vec<SyncProject> = Vec::new();
        let mut found = false;
        let mut i: usize = 0;
        while i < n
            invariant
                i <= n,
                n == self.sync_projects@.len(),
                proj_views(kept@) == remove_project(proj_views(self.sync_projects@.take(i as int)), id@),
                found == has_project(proj_views(self.sync_projects@.take(i as int)), id@),
                !found ==> kept@ == self.sync_projects@.take(i as int),
            decreases n - i,
        {
            proof {
                assert(self.sync_projects@.take(i as int + 1).drop_last() =~= self.sync_projects@.take(
                    i as int,
                ));
                assert(proj_views(self.sync_projects@.take(i as int + 1)).drop_last()
                    =~= proj_views(self.sync_projects@.take(i as int)));
                assert(proj_views(self.sync_projects@.take(i as int + 1)).last()
                    == self.sync_projects@[i as int]@);
            }
            if str_eq(self.sync_projects[i].id.as_str(), id) {
                found = true;
            } else {
                let p = &self.sync_projects[i];
                let row = SyncProject {
                    id: p.id.clone(),
                    local_path: p.local_path.clone(),
                    remote_path: p.remote_path.clone(),
                    last_synced: p.last_synced,
                    paused: p.paused,
                };
                kept.push(row);
                proof {
                    assert(proj_views(kept@) =~= remove_project(
                        proj_views(self.sync_projects@.take(i as int + 1)),
                        id@,
                    ));
                    if !found {
                        assert(kept@ =~= self.sync_projects@.take(i as int + 1));
                    }
                }
            }
            i = i + 1;
        }
        proof {
            assert(self.sync_projects@.take(n as int) =~= self.sync_projects@);
        }
        if found {
            self.sync_projects = kept;
        }
        found
    }

    /// Creates a project: the id is the hexadecimal rendering of `id_num`
    /// (drawn by the caller), the watermark starts at `now`, and the new
    /// row is appended to the table and returned.
    pub fn create_project(&mut self, local_path: String, remote_path: String, id_num: u64, now: u64)
        -> (p: SyncProject)
        ensures
            p@ == (SyncProjectV {
                id: hex_str(id_num as nat),
                local_path: local_path@,
                remote_path: remote_path@,
                last_synced: now,
                paused: false,
            }),
            proj_views(final(self).sync_projects@) == proj_views(old(self).sync_projects@).push(p@),
            final(self).last_sent == old(self).last_sent,
            final(self).received == old(self).received,
            final(self).peers == old(self).peers,
    {
        let id = u64_to_hex(id_num);
        let row = SyncProject {
            id: id.clone(),
            local_path: local_path.clone(),
            remote_path: remote_path.clone(),
            last_synced: now,
            paused: false,
        };
        let copy = SyncProject {
            id,
            local_path,
            remote_path,
            last_synced: now,
            paused: false,
        };
        self.sync_projects.push(row);
        proof {
            assert(proj_views(self.sync_projects@) =~= proj_views(old(self).sync_projects@).push(
                copy@,
            ));
        }
        copy
    }

    /// The changes owed by `sync/check`, given one observed modification
    /// time per project (`None` where the file could not be read): every
    /// non-paused project whose file is strictly newer than its watermark,
    /// in table order.
    pub fn sync_changes(&self, mtimes: &Vec<Option<u64>>) -> (r: Vec<SyncChange>)
        requires
            mtimes@.len() == self.sync_projects@.len(),
        ensures
            change_views(r@) == changes_spec(proj_views(self.sync_projects@), mtimes@),
    {
        let n = self.sync_projects.len();
        let mut out: Vec<SyncChange> = Vec::new();
        let mut i: usize = 0;
        while i < n
            invariant
                i <= n,
                n == self.sync_projects@.len(),
                mtimes@.len() == n,
                change_views(out@) == changes_spec(
                    proj_views(self.sync_projects@.take(i as int)),
                    mtimes@.take(i as int),
                ),
            decreases n - i,
        {
            proof {
                assert(proj_views(self.sync_projects@.take(i as int + 1)).drop_last()
                    =~= proj_views(self.sync_projects@.take(i as int)));
                assert(proj_views(self.sync_projects@.take(i as int + 1)).last()
                    == self.sync_projects@[i as int]@);
                assert(mtimes@.take(i as int + 1).drop_last() =~= mtimes@.take(i as int));
            }
            let p = &self.sync_projects[i];
            if !p.paused {
                match mtimes[i] {
                    Some(modified) => {
                        if modified > p.last_synced {
                            let change = SyncChange {
                                id: p.id.clone(),
                                remote_path: p.remote_path.clone(),
                                local_path: p.local_path.clone(),
                                new_modified: modified,
                            };
                            out.push(change);
                        }
                    },
                    None => {},
                }
            }
            proof {
                assert(change_views(out@) =~= changes_spec(
                    proj_views(self.sync_projects@.take(i as int + 1)),
                    mtimes@.take(i as int + 1),
                ));
            }
            i = i + 1;
        }
        proof {
            assert(self.sync_projects@.take(n as int) =~= self.sync_projects@);
            assert(mtimes@.take(n as int) =~= mtimes@);
        }
        out
    }

    /// The status endpoint's in-memory part: copies of the last-sent slot
    /// and the most recently received file name.
    pub fn status_snapshot(&self) -> (r: (Option<SentFileInfo>, Option<String>))
        ensures
            sent_opt_view(r.0) == sent_opt_view(self.last_sent),
            opt_view(r.1) == opt_view(self.received.last_file),
    {
        let sent = match &self.last_sent {
            Some(s) => Some(
                SentFileInfo {
                    name: s.name.clone(),
                    peer_id: s.peer_id.clone(),
                    size: s.size,
                    timestamp: s.timestamp,
                    succeeded: s.succeeded,
                    sending: s.sending,
                },
            ),
            None => None,
        };
        (sent, self.received.last_received())
    }

    /// The peers endpoint's response: every cached peer but the self
    /// node, reduced to its public fields, in cache order.
    pub fn peers_response(&self) -> (r: Vec<PeerInfo>)
        ensures
            peer_info_views(r@) == peers_public(peer_views(self.peers@)),
    {
        let n = self.peers.len();
        let mut out: Vec<PeerInfo> = Vec::new();
        let mut i: usize = 0;
        while i < n
            invariant
                i <= n,
                n == self.peers@.len(),
                peer_info_views(out@) == peers_public(peer_views(self.peers@.take(i as int))),
            decreases n - i,
        {
            proof {
                assert(peer_views(self.peers@.take(i as int + 1)).drop_last() =~= peer_views(
                    self.peers@.take(i as int),
                ));
                assert(peer_views(self.peers@.take(i as int + 1)).last() == self.peers@[i as int]@);
            }
            let p = &self.peers[i];
            if !p.is_self {
                let entry = PeerInfo {
                    id: p.id.clone(),
                    hostname: p.hostname.clone(),
                    dns_name: p.dns_name.clone(),
                    ip_addresses: clone_string_vec(&p.ip_addresses),
                    online: p.online,
                    os: p.os.clone(),
                };
                out.push(entry);
            }
            proof {
                assert(peer_info_views(out@) =~= peers_public(peer_views(self.peers@.take(
                    i as int + 1,
                ))));
            }
            i = i + 1;
        }
        proof {
            assert(self.peers@.take(n as int) =~= self.peers@);
        }
        out
    }

    /// Replaces the peer cache wholesale with a fresh fetch.
    pub fn set_peers(&mut self, peers: Vec<TailscalePeer>)
        ensures
            final(self).peers == peers,
            final(self).last_sent == old(self).last_sent,
            final(self).received == old(self).received,
            final(self).sync_projects == old(self).sync_projects,
    {
        self.peers = peers;
    }

    /// Marks a send as started: the single last-sent slot is replaced
    /// with an in-progress record.
    pub fn begin_send(&mut self, name: String, peer_id: String, size: u64, now: u64)
        ensures
            sent_opt_view(final(self).last_sent) == Some(SentFileInfoV {
                name: name@,
                peer_id: peer_id@,
                size: size,
                timestamp: now,
                succeeded: false,
                sending: true,
            }),
            final(self).received == old(self).received,
            final(self).peers == old(self).peers,
            final(self).sync_projects == old(self).sync_projects,
    {
        self.last_sent = Some(
            SentFileInfo { name, peer_id, size, timestamp: now, succeeded: false, sending: true },
        );
    }

    /// Records a send's terminal outcome in the last-sent slot.
    pub fn finish_send(&mut self, name: String, peer_id: String, size: u64, now: u64, ok: bool)
        ensures
            sent_opt_view(final(self).last_sent) == Some(SentFileInfoV {
                name: name@,
                peer_id: peer_id@,
                size: size,
                timestamp: now,
                succeeded: ok,
                sending: false,
            }),
            final(self).received == old(self).received,
            final(self).peers == old(self).peers,
            final(self).sync_projects == old(self).sync_projects,
    {
        self.last_sent = Some(
            SentFileInfo { name, peer_id, size, timestamp: now, succeeded: ok, sending: false },
        );
    }
}

/// The views of a change list's rows.
pub open spec fn change_views(s: Seq<SyncChange>) -> Seq<SyncChangeV> {
    s.map_values(|c: SyncChange| c@)
}

/// The views of a peer cache's rows.
pub open spec fn peer_views(s: Seq<TailscalePeer>) -> Seq<TailscalePeerV> {
    s.map_values(|p: TailscalePeer| p@)
}

/// The views of a peer response's rows.
pub open spec fn peer_info_views(s: Seq<PeerInfo>) -> Seq<PeerInfoV> {
    s.map_values(|p: PeerInfo| p@)
}

/// View of an optional last-sent slot.
pub open spec fn sent_opt_view(o: Option<SentFileInfo>) -> Option<SentFileInfoV> {
    match o {
        Some(s) => Some(s@),
        None => None,
    }
}

/// The changes owed by `sync/check` on a table, given one observed
/// modification time per row.
pub open spec fn changes_spec(s: Seq<SyncProjectV>, m: Seq<Option<u64>>) -> Seq<SyncChangeV>
    decreases s.len(),
{
    if s.len() == 0 {
        Seq::empty()
    } else {
        let rest = changes_spec(s.drop_last(), m.drop_last());
        let p = s.last();
        if !p.paused && m.last() is Some && m.last().unwrap() > p.last_synced {
            rest.push(SyncChangeV {
                id: p.id,
                remote_path: p.remote_path,
                local_path: p.local_path,
                new_modified: m.last().unwrap(),
            })
        } else {
            rest
        }
    }
}

/// The peers endpoint's view of a cache: the self node dropped, the rest
/// reduced to public fields.
pub open spec fn peers_public(s: Seq<TailscalePeerV>) -> Seq<PeerInfoV>
    decreases s.len(),
{
    if s.len() == 0 {
        Seq::empty()
    } else {
        let rest = peers_public(s.drop_last());
        let p = s.last();
        if p.is_self {
            rest
        } else {
            rest.push(PeerInfoV {
                id: p.id,
                hostname: p.hostname,
                dns_name: p.dns_name,
                ip_addresses: p.ip_addresses,
                online: p.online,
                os: p.os,
            })
        }
    }
}

/// An element-wise copy of a vector of strings.
pub fn clone_string_vec(v: &Vec<String>) -> (r: Vec<String>)
    ensures
        r@ == v@,
{
    let n = v.len();
    let mut out: Vec<String> = Vec::new();
    let mut i: usize = 0;
    while i < n
        invariant
            i <= n,
            n == v@.len(),
            out@ == v@.take(i as int),
        decreases n - i,
    {
        out.push(v[i].clone());
        proof {
            assert(out@ =~= v@.take(i as int + 1));
        }
        i = i + 1;
    }
    proof {
        assert(v@.take(n as int) =~= v@);
    }
    out
}

/// Acknowledging the same timestamp twice changes nothing the second
/// time: the watermark is already at least the timestamp.
pub proof fn lemma_ack_idempotent(s: Seq<SyncProjectV>, id: Seq<char>, timestamp: u64)
    ensures
        ack_table(ack_table(s, id, timestamp), id, timestamp) == ack_table(s, id, timestamp),
{
    assert(ack_table(ack_table(s, id, timestamp), id, timestamp) =~= ack_table(s, id, timestamp));
}

/// A single ack never lowers any project's watermark, and touches no
/// other field of any row.
pub proof fn lemma_ack_monotonic(s: Seq<SyncProjectV>, id: Seq<char>, timestamp: u64, j: int)
    requires
        0 <= j < s.len(),
    ensures
        ack_table(s, id, timestamp).len() == s.len(),
        ack_table(s, id, timestamp)[j].last_synced >= s[j].last_synced,
        ack_table(s, id, timestamp)[j].id == s[j].id,
        ack_table(s, id, timestamp)[j].local_path == s[j].local_path,
        ack_table(s, id, timestamp)[j].remote_path == s[j].remote_path,
        ack_table(s, id, timestamp)[j].paused == s[j].paused,
{
}

/// A table after a whole sequence of acks, applied in order.
pub open spec fn apply_acks(s: Seq<SyncProjectV>, acks: Seq<(Seq<char>, u64)>) -> Seq<SyncProjectV>
    decreases acks.len(),
{
    if acks.len() == 0 {
        s
    } else {
        apply_acks(ack_table(s, acks.first().0, acks.first().1), acks.drop_first())
    }
}

/// Watermark monotonicity: across any sequence of acks, every project's
/// `last_synced` is non-decreasing.
pub proof fn lemma_watermark_monotonic(s: Seq<SyncProjectV>, acks: Seq<(Seq<char>, u64)>, j: int)
    requires
        0 <= j < s.len(),
    ensures
        apply_acks(s, acks).len() == s.len(),
        apply_acks(s, acks)[j].last_synced >= s[j].last_synced,
    decreases acks.len(),
{
    if acks.len() > 0 {
        lemma_ack_monotonic(s, acks.first().0, acks.first().1, j);
        lemma_watermark_monotonic(
            ack_table(s, acks.first().0, acks.first().1),
            acks.drop_first(),
            j,
        );
    }
}

/// `has_project` is membership: some row carries the id.
pub proof fn lemma_has_project_index(s: Seq<SyncProjectV>, id: Seq<char>)
    ensures
        has_project(s, id) <==> exists|j: int| 0 <= j < s.len() && s[j].id == id,
    decreases s.len(),
{
    if s.len() > 0 {
        lemma_has_project_index(s.drop_last(), id);
        if s.last().id == id {
            assert(s[s.len() - 1].id == id);
        } else if has_project(s.drop_last(), id) {
            let j = choose|j: int| 0 <= j < s.len() - 1 && s.drop_last()[j].id == id;
            assert(s[j].id == id);
        } else if exists|j: int| 0 <= j < s.len() && s[j].id == id {
            let j = choose|j: int| 0 <= j < s.len() && s[j].id == id;
            assert(j < s.len() - 1 && s.drop_last()[j].id == id);
        }
    }
}

/// Acknowledging an id the table does not hold changes nothing.
pub proof fn lemma_ack_unknown_id(s: Seq<SyncProjectV>, id: Seq<char>, timestamp: u64)
    requires
        !has_project(s, id),
    ensures
        ack_table(s, id, timestamp) == s,
{
    lemma_has_project_index(s, id);
    assert(ack_table(s, id, timestamp) =~= s);
}

} // verus!
