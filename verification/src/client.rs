//! The mobile node's client: the state its foreground renders, the
//! command queue it fills, the event transitions the background poll
//! loop applies, and the reconciliation and scheduling decisions of that
//! loop.  The loop itself — HTTP calls, filesystem writes, sleeping —
//! runs outside this crate and feeds results back in as plain values.

use vstd::prelude::*;

use crate::models::{ClientCommand, ClientCommandV, ClientEvent, ClientEventV, PeerInfo, PeerInfoV,
    RemoteFile, RemoteFileV, SentFileInfo, SentFileInfoV, SyncChange, SyncChangeV, SyncProject,
    SyncProjectV, WaitingFile, WaitingFileV};
use crate::text::{basename_of, dec_str, dirname_of, dirname_from_path, opt_view, size_text,
    u64_to_string};

verus! {

/// Ghost view of the whole client state.
#[verifier::ext_equal]
pub ghost struct TailscaleClientV {
    pub server_url: Seq<char>,
    pub connected: bool,
    pub status_message: Seq<char>,
    pub last_sent: Option<SentFileInfoV>,
    pub last_received_file: Option<Seq<char>>,
    pub waiting_files: Seq<WaitingFileV>,
    pub remote_files: Seq<RemoteFileV>,
    pub download_status: Option<Seq<char>>,
    pub browse_status: Option<Seq<char>>,
    pub server_cwd: Option<Seq<char>>,
    pub save_directory: Option<Seq<char>>,
    pub pending_share_paths: Seq<Seq<char>>,
    pub peers: Seq<PeerInfoV>,
    pub sync_projects: Seq<SyncProjectV>,
    pub sync_status: Option<Seq<char>>,
    pub pending_sync_notifications: Seq<(Seq<char>, Seq<char>)>,
    pub commands: Seq<ClientCommandV>,
}

/// The mobile client's state.  The foreground reads these fields and
/// calls the command methods; the background loop drains `commands` and
/// applies each fetched result through `process_event`.
pub struct TailscaleClient {
    pub server_url: String,
    pub connected: bool,
    pub status_message: String,
    pub last_sent: Option<SentFileInfo>,
    pub last_received_file: Option<String>,
    pub waiting_files: Vec<WaitingFile>,
    pub remote_files: Vec<RemoteFile>,
    pub download_status: Option<String>,
    pub browse_status: Option<String>,
    pub server_cwd: Option<String>,
    pub save_directory: Option<String>,
    /// Full paths of files just saved, ready for the platform share sheet.
    pub pending_share_paths: Vec<String>,
    /// Peers as reported by the connected desktop, kept across
    /// disconnections.
    pub peers: Vec<PeerInfo>,
    /// Tracked sync projects.
    pub sync_projects: Vec<SyncProject>,
    /// Sync status message for the UI.
    pub sync_status: Option<String>,
    /// Pending (title, body) notifications for sync events.
    pub pending_sync_notifications: Vec<(String, String)>,
    /// Commands queued by the foreground, oldest first.
    pub commands: Vec<ClientCommand>,
}

impl View for TailscaleClient {
    type V = TailscaleClientV;

    open spec fn view(&self) -> TailscaleClientV {
        TailscaleClientV {
            server_url: self.server_url@,
            connected: self.connected,
            status_message: self.status_message@,
            last_sent: match self.last_sent {
                Some(s) => Some(s@),
                None => None,
            },
            last_received_file: opt_view(self.last_received_file),
            waiting_files: self.waiting_files@.map_values(|f: WaitingFile| f@),
            remote_files: self.remote_files@.map_values(|f: RemoteFile| f@),
            download_status: opt_view(self.download_status),
            browse_status: opt_view(self.browse_status),
            server_cwd: opt_view(self.server_cwd),
            save_directory: opt_view(self.save_directory),
            pending_share_paths: self.pending_share_paths@.map_values(|p: String| p@),
            peers: self.peers@.map_values(|p: PeerInfo| p@),
            sync_projects: self.sync_projects@.map_values(|p: SyncProject| p@),
            sync_status: opt_view(self.sync_status),
            pending_sync_notifications: self.pending_sync_notifications@.map_values(
                |p: (String, String)| (p.0@, p.1@),
            ),
            commands: self.commands@.map_values(|c: ClientCommand| c@),
        }
    }
}

/// Everything but the command queue is the same in both states.
pub open spec fn same_but_commands(a: TailscaleClientV, b: TailscaleClientV) -> bool {
    &&& a.server_url == b.server_url
    &&& a.connected == b.connected
    &&& a.status_message == b.status_message
    &&& a.last_sent == b.last_sent
    &&& a.last_received_file == b.last_received_file
    &&& a.waiting_files == b.waiting_files
    &&& a.remote_files == b.remote_files
    &&& a.download_status == b.download_status
    &&& a.browse_status == b.browse_status
    &&& a.server_cwd == b.server_cwd
    &&& a.save_directory == b.save_directory
    &&& a.pending_share_paths == b.pending_share_paths
    &&& a.peers == b.peers
    &&& a.sync_projects == b.sync_projects
    &&& a.sync_status == b.sync_status
    &&& a.pending_sync_notifications == b.pending_sync_notifications
}

impl TailscaleClient {
    /// A fresh client pointed at `server_url`, not yet connected.  The
    /// caller starts the background loop that serves it.
    pub fn new(server_url: &str) -> (r: TailscaleClient)
        ensures
            r@.server_url == server_url@,
            !r@.connected,
            r@.status_message == "Connecting…"@,
            r@.last_sent is None,
            r@.last_received_file is None,
            r@.waiting_files.len() == 0,
            r@.remote_files.len() == 0,
            r@.download_status is None,
            r@.browse_status is None,
            r@.server_cwd is None,
            r@.save_directory is None,
            r@.pending_share_paths.len() == 0,
            r@.peers.len() == 0,
            r@.sync_projects.len() == 0,
            r@.sync_status is None,
            r@.pending_sync_notifications.len() == 0,
            r@.commands.len() == 0,
    {
        let r = TailscaleClient {
            server_url: String::from_str(server_url),
            connected: false,
            status_message: String::from_str("Connecting…"),
            last_sent: None,
            last_received_file: None,
            waiting_files: Vec::new(),
            remote_files: Vec::new(),
            download_status: None,
            browse_status: None,
            server_cwd: None,
            save_directory: None,
            pending_share_paths: Vec::new(),
            peers: Vec::new(),
            sync_projects: Vec::new(),
            sync_status: None,
            pending_sync_notifications: Vec::new(),
            commands: Vec::new(),
        };
        proof {
            assert(r@.waiting_files =~= Seq::<WaitingFileV>::empty());
            assert(r@.remote_files =~= Seq::<RemoteFileV>::empty());
            assert(r@.pending_share_paths =~= Seq::<Seq<char>>::empty());
            assert(r@.peers =~= Seq::<PeerInfoV>::empty());
            assert(r@.sync_projects =~= Seq::<SyncProjectV>::empty());
            assert(r@.pending_sync_notifications =~= Seq::<(Seq<char>, Seq<char>)>::empty());
            assert(r@.commands =~= Seq::<ClientCommandV>::empty());
        }
        r
    }

    /// Queues a download of the named inbox file.
    pub fn download_file(&mut self, name: &str)
        ensures
            final(self)@.commands == old(self)@.commands.push(
                ClientCommandV::DownloadFile(name@),
            ),
            same_but_commands(final(self)@, old(self)@),
    {
        self.commands.push(ClientCommand::DownloadFile(String::from_str(name)));
        proof {
            assert(self@.commands =~= old(self)@.commands.push(
                ClientCommandV::DownloadFile(name@),
            ));
        }
    }

    /// Queues a download of the most recently received file.
    pub fn download_last(&mut self)
        ensures
            final(self)@.commands == old(self)@.commands.push(ClientCommandV::DownloadLast),
            same_but_commands(final(self)@, old(self)@),
    {
        self.commands.push(ClientCommand::DownloadLast);
        proof {
            assert(self@.commands =~= old(self)@.commands.push(ClientCommandV::DownloadLast));
        }
    }

    /// Queues a browse of the given server directory (the server's home
    /// when `None`).
    pub fn browse(&mut self, path: Option<String>)
        ensures
            final(self)@.commands == old(self)@.commands.push(
                ClientCommandV::Browse(opt_view(path)),
            ),
            same_but_commands(final(self)@, old(self)@),
    {
        self.commands.push(ClientCommand::Browse(path));
        proof {
            assert(self@.commands =~= old(self)@.commands.push(
                ClientCommandV::Browse(opt_view(path)),
            ));
        }
    }

    /// Queues a pull of an arbitrary server-side file by path.
    pub fn pull_file(&mut self, name: &str)
        ensures
            final(self)@.commands == old(self)@.commands.push(ClientCommandV::PullFile(name@)),
            same_but_commands(final(self)@, old(self)@),
    {
        self.commands.push(ClientCommand::PullFile(String::from_str(name)));
        proof {
            assert(self@.commands =~= old(self)@.commands.push(ClientCommandV::PullFile(name@)));
        }
    }

    /// Queues a refresh: the loop treats the poll interval as already
    /// elapsed, so the next tick polls.
    pub fn refresh(&mut self)
        ensures
            final(self)@.commands == old(self)@.commands.push(ClientCommandV::Refresh),
            same_but_commands(final(self)@, old(self)@),
    {
        self.commands.push(ClientCommand::Refresh);
        proof {
            assert(self@.commands =~= old(self)@.commands.push(ClientCommandV::Refresh));
        }
    }

    /// Queues an upload of a local file to a server-side destination.
    pub fn upload_file(&mut self, local_path: &str, remote_dest_path: &str)
        ensures
            final(self)@.commands == old(self)@.commands.push(
                ClientCommandV::UploadFile {
                    local_path: local_path@,
                    remote_dest_path: remote_dest_path@,
                },
            ),
            same_but_commands(final(self)@, old(self)@),
    {
        self.commands.push(
            ClientCommand::UploadFile {
                local_path: String::from_str(local_path),
                remote_dest_path: String::from_str(remote_dest_path),
            },
        );
        proof {
            assert(self@.commands =~= old(self)@.commands.push(
                ClientCommandV::UploadFile {
                    local_path: local_path@,
                    remote_dest_path: remote_dest_path@,
                },
            ));
        }
    }

    /// Queues creation of a sync project.  `local_path` is this node's
    /// path and `remote_path` the desktop's; the request sent over the
    /// wire swaps them, since the server reads `local_path` as its own.
    pub fn create_sync_project(&mut self, local_path: &str, remote_path: &str)
        ensures
            final(self)@.commands == old(self)@.commands.push(
                ClientCommandV::CreateSyncProject {
                    local_path: local_path@,
                    remote_path: remote_path@,
                },
            ),
            same_but_commands(final(self)@, old(self)@),
    {
        self.commands.push(
            ClientCommand::CreateSyncProject {
                local_path: String::from_str(local_path),
                remote_path: String::from_str(remote_path),
            },
        );
        proof {
            assert(self@.commands =~= old(self)@.commands.push(
                ClientCommandV::CreateSyncProject {
                    local_path: local_path@,
                    remote_path: remote_path@,
                },
            ));
        }
    }

    /// Queues a fetch of the sync-project table.
    pub fn fetch_sync_projects(&mut self)
        ensures
            final(self)@.commands == old(self)@.commands.push(
                ClientCommandV::FetchSyncProjects,
            ),
            same_but_commands(final(self)@, old(self)@),
    {
        self.commands.push(ClientCommand::FetchSyncProjects);
        proof {
            assert(self@.commands =~= old(self)@.commands.push(
                ClientCommandV::FetchSyncProjects,
            ));
        }
    }

    /// Queues deletion of a sync project by id.
    pub fn delete_sync_project(&mut self, id: &str)
        ensures
            final(self)@.commands == old(self)@.commands.push(
                ClientCommandV::DeleteSyncProject(id@),
            ),
            same_but_commands(final(self)@, old(self)@),
    {
        self.commands.push(ClientCommand::DeleteSyncProject(String::from_str(id)));
        proof {
            assert(self@.commands =~= old(self)@.commands.push(
                ClientCommandV::DeleteSyncProject(id@),
            ));
        }
    }

    /// Queues a check for desktop-side changes to tracked projects.
    pub fn check_sync_changes(&mut self)
        ensures
            final(self)@.commands == old(self)@.commands.push(
                ClientCommandV::CheckSyncChanges,
            ),
            same_but_commands(final(self)@, old(self)@),
    {
        self.commands.push(ClientCommand::CheckSyncChanges);
        proof {
            assert(self@.commands =~= old(self)@.commands.push(
                ClientCommandV::CheckSyncChanges,
            ));
        }
    }

    /// Hands the queued commands, oldest first, to the loop and empties
    /// the queue.
    pub fn drain_commands(&mut self) -> (r: Vec<ClientCommand>)
        ensures
            r == old(self).commands,
            final(self)@.commands.len() == 0,
            same_but_commands(final(self)@, old(self)@),
    {
        let mut drained: Vec<ClientCommand> = Vec::new();
        core::mem::swap(&mut drained, &mut self.commands);
        proof {
            assert(self@.commands =~= Seq::<ClientCommandV>::empty());
        }
        drained
    }

    /// Where a fetched file would be saved: under the save directory,
    /// when one is set.
    pub fn save_target(&self, filename: &str) -> (r: Option<String>)
        ensures
            match self@.save_directory {
                Some(dir) => opt_view(r) == Some(dir + "/"@ + filename@),
                None => r is None,
            },
    {
        match &self.save_directory {
            Some(dir) => Some(dir.clone().concat("/").concat(filename)),
            None => None,
        }
    }
}

/// Every peer marked offline; nothing else about any peer changes, and
/// none is dropped.
pub open spec fn peers_offline(s: Seq<PeerInfoV>) -> Seq<PeerInfoV> {
    s.map_values(
        |p: PeerInfoV| PeerInfoV {
            id: p.id,
            hostname: p.hostname,
            dns_name: p.dns_name,
            ip_addresses: p.ip_addresses,
            online: false,
            os: p.os,
        },
    )
}

/// Peer-cache persistence: marking the cache offline never shrinks it,
/// and changes nothing about any entry but its `online` flag, which
/// becomes false.
pub proof fn lemma_peers_offline_persists(s: Seq<PeerInfoV>, j: int)
    requires
        0 <= j < s.len(),
    ensures
        peers_offline(s).len() == s.len(),
        !peers_offline(s)[j].online,
        peers_offline(s)[j].id == s[j].id,
        peers_offline(s)[j].hostname == s[j].hostname,
        peers_offline(s)[j].dns_name == s[j].dns_name,
        peers_offline(s)[j].ip_addresses == s[j].ip_addresses,
        peers_offline(s)[j].os == s[j].os,
{
}

/// View of a save outcome handed back by the caller.
pub open spec fn save_view(r: Option<Result<(), String>>) -> Option<Result<(), Seq<char>>> {
    match r {
        None => None,
        Some(Ok(())) => Some(Ok(())),
        Some(Err(e)) => Some(Err(e@)),
    }
}

/// The client state after one event.  For a download or pull, `save` is
/// the outcome of writing the fetched bytes under the save directory
/// (`None` exactly when no save directory is set, so nothing was
/// written).
pub open spec fn event_step(
    pre: TailscaleClientV,
    ev: ClientEventV,
    save: Option<Result<(), Seq<char>>>,
) -> TailscaleClientV {
    match ev {
        ClientEventV::StatusUpdate { connected, last_sent, last_received_file, server_cwd } => (
        TailscaleClientV {
            connected,
            last_sent,
            last_received_file,
            server_cwd: if server_cwd is Some {
                server_cwd
            } else {
                pre.server_cwd
            },
            status_message: if connected {
                "Connected to server"@
            } else {
                "Cannot reach server"@
            },
            peers: if pre.connected && !connected {
                peers_offline(pre.peers)
            } else {
                pre.peers
            },
            ..pre
        }),
        ClientEventV::FilesUpdate(files) => (TailscaleClientV { waiting_files: files, ..pre }),
        ClientEventV::BrowseUpdate(files) => (TailscaleClientV {
            browse_status: Some("Found "@ + dec_str(files.len()) + " items"@),
            remote_files: files,
            ..pre
        }),
        ClientEventV::DownloadComplete { filename, data } => (match pre.save_directory {
            Some(dir) => {
                match save {
                    Some(Ok(())) => (TailscaleClientV {
                        download_status: Some(
                            "✓ Saved '"@ + filename + "' ("@ + size_text(data.len() as u64)
                                + ")"@,
                        ),
                        pending_share_paths: pre.pending_share_paths.push(dir + "/"@ + filename),
                        ..pre
                    }),
                    Some(Err(e)) => (TailscaleClientV {
                        download_status: Some("✗ Failed to save '"@ + filename + "': "@ + e),
                        ..pre
                    }),
                    None => pre,
                }
            },
            None => (TailscaleClientV {
                download_status: Some(
                    "✓ Downloaded '"@ + filename + "' ("@ + size_text(data.len() as u64)
                        + ") — no save directory set"@,
                ),
                ..pre
            }),
        }),
        ClientEventV::PullComplete { filename, data } => (match pre.save_directory {
            Some(dir) => {
                match save {
                    Some(Ok(())) => (TailscaleClientV {
                        browse_status: Some(
                            "✓ Saved '"@ + filename + "' ("@ + size_text(data.len() as u64)
                                + ")"@,
                        ),
                        pending_share_paths: pre.pending_share_paths.push(dir + "/"@ + filename),
                        ..pre
                    }),
                    Some(Err(e)) => (TailscaleClientV {
                        browse_status: Some("✗ Failed to save '"@ + filename + "': "@ + e),
                        ..pre
                    }),
                    None => pre,
                }
            },
            None => (TailscaleClientV {
                browse_status: Some(
                    "✓ Pulled '"@ + filename + "' ("@ + size_text(data.len() as u64)
                        + ") — no save directory set"@,
                ),
                ..pre
            }),
        }),
        ClientEventV::PeersUpdate(peers) => (TailscaleClientV { peers, ..pre }),
        ClientEventV::SyncProjectsUpdate(projects) => (TailscaleClientV {
            sync_projects: projects,
            ..pre
        }),
        ClientEventV::SyncChangesAvailable(changes) => {
            if changes.len() > 0 {
                TailscaleClientV {
                    sync_status: Some(
                        dec_str(changes.len()) + " file(s) updated on desktop"@,
                    ),
                    ..pre
                }
            } else {
                pre
            }
        },
        ClientEventV::UploadComplete { remote_path } => (TailscaleClientV {
            sync_status: Some("✓ Uploaded '"@ + basename_of(remote_path) + "'"@),
            ..pre
        }),
        ClientEventV::SyncPullComplete { project_id: _, filename } => (TailscaleClientV {
            sync_status: Some("✓ Synced '"@ + filename + "'"@),
            pending_sync_notifications: pre.pending_sync_notifications.push(
                ("File Synced"@, "Updated: "@ + filename),
            ),
            ..pre
        }),
        ClientEventV::Error(msg) => (TailscaleClientV {
            download_status: Some("✗ "@ + msg),
            ..pre
        }),
    }
}

impl TailscaleClient {
    /// Applies one event from the background loop.  For a download or
    /// pull completion the caller first writes the bytes to
    /// `save_target` (when there is one) and hands in the outcome.
    ///
    /// On a transition from connected to disconnected the peer list is
    /// kept at full length with every entry marked offline, never
    /// cleared.
    pub fn process_event(&mut self, event: ClientEvent, save_result: Option<Result<(), String>>)
        requires
            (event matches ClientEvent::DownloadComplete { .. } || event
                matches ClientEvent::PullComplete { .. }) ==> (save_result is Some
                <==> old(self).save_directory is Some),
        ensures
            final(self)@ == event_step(old(self)@, event@, save_view(save_result)),
    {
        match event {
            ClientEvent::StatusUpdate { connected, last_sent, last_received_file, server_cwd } => {
                let was_connected = self.connected;
                self.connected = connected;
                self.last_sent = last_sent;
                self.last_received_file = last_received_file;
                if server_cwd.is_some() {
                    self.server_cwd = server_cwd;
                }
                self.status_message = if connected {
                    String::from_str("Connected to server")
                } else {
                    String::from_str("Cannot reach server")
                };
                if was_connected && !connected {
                    mark_peers_offline(&mut self.peers);
                }
                proof {
                    assert(self@ =~~= event_step(old(self)@, event@, save_view(save_result)));
                }
            },
            ClientEvent::FilesUpdate(files) => {
                self.waiting_files = files;
                proof {
                    assert(self@ =~~= event_step(old(self)@, event@, save_view(save_result)));
                }
            },
            ClientEvent::BrowseUpdate(files) => {
                let count = files.len();
                self.browse_status = Some(
                    String::from_str("Found ").concat(u64_to_string(count as u64).as_str()).concat(
                        " items",
                    ),
                );
                self.remote_files = files;
                proof {
                    assert(self@ =~~= event_step(old(self)@, event@, save_view(save_result)));
                }
            },
            ClientEvent::DownloadComplete { filename, data } => {
                let size = data.len();
                let sized = crate::text::format_size(size as u64);
                match self.save_target(filename.as_str()) {
                    Some(path) => {
                        match save_result {
                            Some(Ok(())) => {
                                self.download_status = Some(
                                    String::from_str("✓ Saved '").concat(filename.as_str()).concat(
                                        "' (",
                                    ).concat(sized.as_str()).concat(")"),
                                );
                                self.pending_share_paths.push(path);
                            },
                            Some(Err(e)) => {
                                self.download_status = Some(
                                    String::from_str("✗ Failed to save '").concat(
                                        filename.as_str(),
                                    ).concat("': ").concat(e.as_str()),
                                );
                            },
                            None => {},
                        }
                    },
                    None => {
                        self.download_status = Some(
                            String::from_str("✓ Downloaded '").concat(filename.as_str()).concat(
                                "' (",
                            ).concat(sized.as_str()).concat(") — no save directory set"),
                        );
                    },
                }
                proof {
                    assert(self@ =~~= event_step(old(self)@, event@, save_view(save_result)));
                }
            },
            ClientEvent::PullComplete { filename, data } => {
                let size = data.len();
                let sized = crate::text::format_size(size as u64);
                match self.save_target(filename.as_str()) {
                    Some(path) => {
                        match save_result {
                            Some(Ok(())) => {
                                self.browse_status = Some(
                                    String::from_str("✓ Saved '").concat(filename.as_str()).concat(
                                        "' (",
                                    ).concat(sized.as_str()).concat(")"),
                                );
                                self.pending_share_paths.push(path);
                            },
                            Some(Err(e)) => {
                                self.browse_status = Some(
                                    String::from_str("✗ Failed to save '").concat(
                                        filename.as_str(),
                                    ).concat("': ").concat(e.as_str()),
                                );
                            },
                            None => {},
                        }
                    },
                    None => {
                        self.browse_status = Some(
                            String::from_str("✓ Pulled '").concat(filename.as_str()).concat(
                                "' (",
                            ).concat(sized.as_str()).concat(") — no save directory set"),
                        );
                    },
                }
                proof {
                    assert(self@ =~~= event_step(old(self)@, event@, save_view(save_result)));
                }
            },
            ClientEvent::PeersUpdate(peers) => {
                self.peers = peers;
                proof {
                    assert(self@ =~~= event_step(old(self)@, event@, save_view(save_result)));
                }
            },
            ClientEvent::SyncProjectsUpdate(projects) => {
                self.sync_projects = projects;
                proof {
                    assert(self@ =~~= event_step(old(self)@, event@, save_view(save_result)));
                }
            },
            ClientEvent::SyncChangesAvailable(changes) => {
                if changes.len() > 0 {
                    self.sync_status = Some(
                        u64_to_string(changes.len() as u64).concat(" file(s) updated on desktop"),
                    );
                }
                proof {
                    assert(self@ =~~= event_step(old(self)@, event@, save_view(save_result)));
                }
            },
            ClientEvent::UploadComplete { remote_path } => {
                let filename = crate::text::filename_from_path(remote_path.as_str());
                self.sync_status = Some(
                    String::from_str("✓ Uploaded '").concat(filename.as_str()).concat("'"),
                );
                proof {
                    assert(self@ =~~= event_step(old(self)@, event@, save_view(save_result)));
                }
            },
            ClientEvent::SyncPullComplete { project_id: _, filename } => {
                self.sync_status = Some(
                    String::from_str("✓ Synced '").concat(filename.as_str()).concat("'"),
                );
                self.pending_sync_notifications.push(
                    (
                        String::from_str("File Synced"),
                        String::from_str("Updated: ").concat(filename.as_str()),
                    ),
                );
                proof {
                    assert(self@ =~~= event_step(old(self)@, event@, save_view(save_result)));
                }
            },
            ClientEvent::Error(msg) => {
                self.download_status = Some(String::from_str("✗ ").concat(msg.as_str()));
                proof {
                    assert(self@ =~~= event_step(old(self)@, event@, save_view(save_result)));
                }
            },
        }
    }
}

/// Flips every cached peer to offline in place: the cache keeps its
/// length and every other field of every entry.
fn mark_peers_offline(peers: &mut Vec<PeerInfo>)
    ensures
        final(peers)@.map_values(|p: PeerInfo| p@) == peers_offline(
            old(peers)@.map_values(|p: PeerInfo| p@),
        ),
{
    let n = peers.len();
    let ghost orig = old(peers)@;
    let mut i: usize = 0;
    while i < n
        invariant
            i <= n,
            n == peers@.len(),
            peers@.len() == orig.len(),
            forall|j: int| i <= j < n ==> peers@[j] == orig[j],
            forall|j: int|
                0 <= j < i ==> #[trigger] peers@[j]@ == peers_offline(
                    orig.map_values(|p: PeerInfo| p@),
                )[j],
        decreases n - i,
    {
        let p = &peers[i];
        let row = PeerInfo {
            id: p.id.clone(),
            hostname: p.hostname.clone(),
            dns_name: p.dns_name.clone(),
            ip_addresses: crate::server::clone_string_vec(&p.ip_addresses),
            online: false,
            os: p.os.clone(),
        };
        peers[i] = row;
        i = i + 1;
    }
    proof {
        assert(peers@.map_values(|p: PeerInfo| p@) =~= peers_offline(
            orig.map_values(|p: PeerInfo| p@),
        ));
    }
}

/// One decided push: a mobile-side file that is newer than its project's
/// watermark and must be uploaded to the desktop.
pub struct PushPlan {
    /// The project to ack after a successful upload.
    pub project_id: String,
    /// The mobile-side file to read (the project's `remote_path`).
    pub src_path: String,
    /// The desktop-side destination (the project's `local_path`).
    pub dest_path: String,
    /// The observed modification time, to ack with.
    pub modified: u64,
}

/// Ghost view of a decided push.
pub ghost struct PushPlanV {
    pub project_id: Seq<char>,
    pub src_path: Seq<char>,
    pub dest_path: Seq<char>,
    pub modified: u64,
}

impl View for PushPlan {
    type V = PushPlanV;

    open spec fn view(&self) -> PushPlanV {
        PushPlanV {
            project_id: self.project_id@,
            src_path: self.src_path@,
            dest_path: self.dest_path@,
            modified: self.modified,
        }
    }
}

/// The pushes owed for a project table, given one observed mobile-side
/// modification time per project.
pub open spec fn push_plans_spec(s: Seq<SyncProjectV>, m: Seq<Option<u64>>) -> Seq<PushPlanV>
    decreases s.len(),
{
    if s.len() == 0 {
        Seq::empty()
    } else {
        let rest = push_plans_spec(s.drop_last(), m.drop_last());
        let p = s.last();
        if !p.paused && m.last() is Some && m.last().unwrap() > p.last_synced {
            rest.push(PushPlanV {
                project_id: p.id,
                src_path: p.remote_path,
                dest_path: p.local_path,
                modified: m.last().unwrap(),
            })
        } else {
            rest
        }
    }
}

/// The push direction of a reconciliation tick: every non-paused project
/// whose mobile-side file (`remote_path`, from the desktop's point of
/// view) is strictly newer than the watermark gets one push, in table
/// order.  `mtimes` holds one observed modification time per project,
/// `None` where the file could not be read (such a project is skipped
/// and retried next tick).
pub fn plan_pushes(projects: &Vec<SyncProject>, mtimes: &Vec<Option<u64>>) -> (r: Vec<PushPlan>)
    requires
        mtimes@.len() == projects@.len(),
    ensures
        r@.map_values(|p: PushPlan| p@) == push_plans_spec(
            projects@.map_values(|p: SyncProject| p@),
            mtimes@,
        ),
{
    let n = projects.len();
    let mut out: Vec<PushPlan> = Vec::new();
    let mut i: usize = 0;
    while i < n
        invariant
            i <= n,
            n == projects@.len(),
            mtimes@.len() == n,
            out@.map_values(|p: PushPlan| p@) == push_plans_spec(
                projects@.take(i as int).map_values(|p: SyncProject| p@),
                mtimes@.take(i as int),
            ),
        decreases n - i,
    {
        proof {
            assert(projects@.take(i as int + 1).map_values(|p: SyncProject| p@).drop_last()
                =~= projects@.take(i as int).map_values(|p: SyncProject| p@));
            assert(projects@.take(i as int + 1).map_values(|p: SyncProject| p@).last()
                == projects@[i as int]@);
            assert(mtimes@.take(i as int + 1).drop_last() =~= mtimes@.take(i as int));
        }
        let p = &projects[i];
        if !p.paused {
            match mtimes[i] {
                Some(modified) => {
                    if modified > p.last_synced {
                        out.push(
                            PushPlan {
                                project_id: p.id.clone(),
                                src_path: p.remote_path.clone(),
                                dest_path: p.local_path.clone(),
                                modified,
                            },
                        );
                    }
                },
                None => {},
            }
        }
        proof {
            assert(out@.map_values(|p: PushPlan| p@) =~= push_plans_spec(
                projects@.take(i as int + 1).map_values(|p: SyncProject| p@),
                mtimes@.take(i as int + 1),
            ));
        }
        i = i + 1;
    }
    proof {
        assert(projects@.take(n as int) =~= projects@);
        assert(mtimes@.take(n as int) =~= mtimes@);
    }
    out
}

/// The marker before a quoted file name in a Content-Disposition header.
pub open spec fn cd_marker() -> Seq<char> {
    seq!['f', 'i', 'l', 'e', 'n', 'a', 'm', 'e', '=', '"']
}

/// Whether the marker sits at offset `i` of the header.
pub open spec fn marker_at(h: Seq<char>, i: int) -> bool {
    0 <= i && i + 10 <= h.len() && h.subrange(i, i + 10) == cd_marker()
}

/// The first offset at or after `i` where the marker sits, if any.
pub open spec fn first_marker_from(h: Seq<char>, i: int) -> Option<int>
    decreases h.len() - i,
{
    if i + 10 > h.len() {
        None
    } else if marker_at(h, i) {
        Some(i)
    } else {
        first_marker_from(h, i + 1)
    }
}

/// The file name a Content-Disposition header carries: what follows the
/// first `filename="` and runs to a closing quote at the end of the
/// header; nothing otherwise.
pub open spec fn cd_filename(h: Seq<char>) -> Option<Seq<char>> {
    match first_marker_from(h, 0) {
        None => None,
        Some(i) => {
            let rest = h.skip(i + 10);
            if rest.len() > 0 && rest.last() == '"' {
                Some(rest.drop_last())
            } else {
                None
            }
        },
    }
}

/// Decides whether the marker sits at offset `i`.
fn marker_matches(header: &str, i: usize) -> (r: bool)
    requires
        i + 10 <= header@.len(),
    ensures
        r == marker_at(header@, i as int),
{
    let len = header.unicode_len();
    let m = header.get_char(i) == 'f' && header.get_char(i + 1) == 'i' && header.get_char(i + 2)
        == 'l' && header.get_char(i + 3) == 'e' && header.get_char(i + 4) == 'n'
        && header.get_char(i + 5) == 'a' && header.get_char(i + 6) == 'm' && header.get_char(
        i + 7,
    ) == 'e' && header.get_char(i + 8) == '=' && header.get_char(i + 9) == '"';
    proof {
        let sub = header@.subrange(i as int, i as int + 10);
        assert(forall|k: int| 0 <= k < 10 ==> sub[k] == header@[i + k]);
        if m {
            assert(sub =~= cd_marker());
        } else if sub == cd_marker() {
            assert(header@[i as int] == 'f');
            assert(header@[i as int + 1] == 'i');
            assert(header@[i as int + 2] == 'l');
            assert(header@[i as int + 3] == 'e');
            assert(header@[i as int + 4] == 'n');
            assert(header@[i as int + 5] == 'a');
            assert(header@[i as int + 6] == 'm');
            assert(header@[i as int + 7] == 'e');
            assert(header@[i as int + 8] == '=');
            assert(header@[i as int + 9] == '"');
        }
    }
    m
}

/// Extracts the file name from a Content-Disposition header, as
/// `cd_filename` describes.
pub fn filename_from_content_disposition(header: &str) -> (r: Option<String>)
    ensures
        match r {
            Some(name) => cd_filename(header@) == Some(name@),
            None => cd_filename(header@) is None,
        },
{
    let len = header.unicode_len();
    if len < 10 {
        proof {
            assert(first_marker_from(header@, 0) is None);
        }
        return None;
    }
    let mut i: usize = 0;
    while i <= len - 10
        invariant
            len >= 10,
            i <= len,
            len == header@.len(),
            first_marker_from(header@, 0) == first_marker_from(header@, i as int),
        decreases len - i,
    {
        if marker_matches(header, i) {
            proof {
                assert(first_marker_from(header@, i as int) == Some(i as int));
            }
            let tail_start = i + 10;
            if len > tail_start && header.get_char(len - 1) == '"' {
                let name = String::from_str(header.substring_char(tail_start, len - 1));
                proof {
                    assert(name@ =~= header@.skip(tail_start as int).drop_last());
                }
                return Some(name);
            } else {
                proof {
                    let rest = header@.skip(tail_start as int);
                    if len > tail_start {
                        assert(rest.last() == header@[len - 1]);
                    }
                }
                return None;
            }
        }
        proof {
            assert(first_marker_from(header@, i as int) == first_marker_from(
                header@,
                i as int + 1,
            ));
        }
        i = i + 1;
    }
    proof {
        assert(first_marker_from(header@, i as int) is None);
    }
    None
}

/// Where the mobile side caches the peer list: `cached_peers.json` next
/// to (one level above) the save directory.
pub fn cached_peers_path(save_dir: &str) -> (r: String)
    ensures
        r@ == dirname_of(save_dir@) + "/cached_peers.json"@,
{
    let d = dirname_from_path(save_dir);
    d.concat("/cached_peers.json")
}

/// The schedule of the loop's periodic poll.  `last_poll` is the tick
/// (caller-supplied milliseconds) of the last completed poll; `None`
/// means a poll is owed immediately, which is also the starting state.
pub struct PollSchedule {
    pub interval_ms: u64,
    pub last_poll: Option<u64>,
}

/// Whether a poll is due at tick `now`.
pub open spec fn poll_due_spec(s: PollSchedule, now: u64) -> bool {
    match s.last_poll {
        None => true,
        Some(t) => now >= t as int + s.interval_ms as int,
    }
}

impl PollSchedule {
    /// A schedule that polls every `interval_ms` and is due at once.
    pub fn new(interval_ms: u64) -> (r: PollSchedule)
        ensures
            r.interval_ms == interval_ms,
            r.last_poll is None,
            forall|now: u64| poll_due_spec(r, now),
    {
        PollSchedule { interval_ms, last_poll: None }
    }

    /// Decides whether the loop should poll at tick `now`.
    pub fn due(&self, now: u64) -> (r: bool)
        ensures
            r == poll_due_spec(*self, now),
    {
        match self.last_poll {
            None => true,
            Some(t) => now >= t && now - t >= self.interval_ms,
        }
    }

    /// Records that a poll ran at tick `now`.
    pub fn mark_polled(&mut self, now: u64)
        ensures
            final(self).interval_ms == old(self).interval_ms,
            final(self).last_poll == Some(now),
    {
        self.last_poll = Some(now);
    }

    /// A refresh request: the next tick is treated as already past the
    /// interval, whatever the clock says, so polling happens on the
    /// following iteration rather than synchronously.
    pub fn force_refresh(&mut self)
        ensures
            final(self).interval_ms == old(self).interval_ms,
            final(self).last_poll is None,
            forall|now: u64| poll_due_spec(*final(self), now),
    {
        self.last_poll = None;
    }
}

} // verus!
