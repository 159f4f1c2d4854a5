//! Data model shared by the desktop service, the transfer backend and the
//! mobile client, together with the ghost views the contracts are stated
//! over.

use vstd::prelude::*;

verus! {

/// Ghost view of a tracked mirror relationship.
pub ghost struct SyncProjectV {
    pub id: Seq<char>,
    pub local_path: Seq<char>,
    pub remote_path: Seq<char>,
    pub last_synced: u64,
    pub paused: bool,
}

/// A tracked mirror relationship between a desktop-side path and a
/// mobile-side path.  `last_synced` is the watermark: the last unix
/// timestamp both sides are known to agree on.
pub struct SyncProject {
    pub id: String,
    pub local_path: String,
    pub remote_path: String,
    pub last_synced: u64,
    pub paused: bool,
}

impl View for SyncProject {
    type V = SyncProjectV;

    open spec fn view(&self) -> SyncProjectV {
        SyncProjectV {
            id: self.id@,
            local_path: self.local_path@,
            remote_path: self.remote_path@,
            last_synced: self.last_synced,
            paused: self.paused,
        }
    }
}

/// Ghost view of a detected desktop-side delta.
pub ghost struct SyncChangeV {
    pub id: Seq<char>,
    pub remote_path: Seq<char>,
    pub local_path: Seq<char>,
    pub new_modified: u64,
}

/// A detected desktop-side delta: the file at `local_path` was modified at
/// `new_modified`, which is later than the project's watermark.
pub struct SyncChange {
    pub id: String,
    pub remote_path: String,
    pub local_path: String,
    pub new_modified: u64,
}

impl View for SyncChange {
    type V = SyncChangeV;

    open spec fn view(&self) -> SyncChangeV {
        SyncChangeV {
            id: self.id@,
            remote_path: self.remote_path@,
            local_path: self.local_path@,
            new_modified: self.new_modified,
        }
    }
}

/// Ghost view of the most recent outbound transfer.
pub ghost struct SentFileInfoV {
    pub name: Seq<char>,
    pub peer_id: Seq<char>,
    pub size: u64,
    pub timestamp: u64,
    pub succeeded: bool,
    pub sending: bool,
}

/// The most recent outbound transfer.  One slot: a new send replaces the
/// previous value, and `sending == true` is later overwritten by a terminal
/// update with `sending == false`.
pub struct SentFileInfo {
    pub name: String,
    pub peer_id: String,
    pub size: u64,
    pub timestamp: u64,
    pub succeeded: bool,
    pub sending: bool,
}

impl View for SentFileInfo {
    type V = SentFileInfoV;

    open spec fn view(&self) -> SentFileInfoV {
        SentFileInfoV {
            name: self.name@,
            peer_id: self.peer_id@,
            size: self.size,
            timestamp: self.timestamp,
            succeeded: self.succeeded,
            sending: self.sending,
        }
    }
}

/// Ghost view of an inbox entry shown to the mobile client.
pub ghost struct WaitingFileV {
    pub name: Seq<char>,
    pub size: u64,
}

/// A file sitting in the inbound inbox, as reported to the mobile client.
pub struct WaitingFile {
    pub name: String,
    pub size: u64,
}

impl View for WaitingFile {
    type V = WaitingFileV;

    open spec fn view(&self) -> WaitingFileV {
        WaitingFileV { name: self.name@, size: self.size }
    }
}

/// Ghost view of a directory-listing entry.
pub ghost struct RemoteFileV {
    pub name: Seq<char>,
    pub is_dir: bool,
    pub size: i64,
    pub modified: u64,
}

/// A directory-listing entry returned by the browse endpoint.
pub struct RemoteFile {
    pub name: String,
    pub is_dir: bool,
    pub size: i64,
    pub modified: u64,
}

impl View for RemoteFile {
    type V = RemoteFileV;

    open spec fn view(&self) -> RemoteFileV {
        RemoteFileV { name: self.name@, is_dir: self.is_dir, size: self.size, modified: self.modified }
    }
}

/// Ghost view of a peer as the mobile client sees it.
pub ghost struct PeerInfoV {
    pub id: Seq<char>,
    pub hostname: Seq<char>,
    pub dns_name: Seq<char>,
    pub ip_addresses: Seq<Seq<char>>,
    pub online: bool,
    pub os: Seq<char>,
}

/// A node on the overlay network, as the mobile client sees it.
pub struct PeerInfo {
    pub id: String,
    pub hostname: String,
    pub dns_name: String,
    pub ip_addresses: Vec<String>,
    pub online: bool,
    pub os: String,
}

impl View for PeerInfo {
    type V = PeerInfoV;

    open spec fn view(&self) -> PeerInfoV {
        PeerInfoV {
            id: self.id@,
            hostname: self.hostname@,
            dns_name: self.dns_name@,
            ip_addresses: self.ip_addresses.deep_view(),
            online: self.online,
            os: self.os@,
        }
    }
}

/// Ghost view of a peer as the desktop backend sees it.
pub ghost struct TailscalePeerV {
    pub id: Seq<char>,
    pub hostname: Seq<char>,
    pub dns_name: Seq<char>,
    pub ip_addresses: Seq<Seq<char>>,
    pub online: bool,
    pub is_self: bool,
    pub os: Seq<char>,
    pub can_receive_files: bool,
}

/// A node on the overlay network, as the desktop backend sees it.  The
/// self node is kept here too, marked by `is_self`, and is filtered out of
/// the peers endpoint's response.
pub struct TailscalePeer {
    pub id: String,
    pub hostname: String,
    pub dns_name: String,
    pub ip_addresses: Vec<String>,
    pub online: bool,
    pub is_self: bool,
    pub os: String,
    pub can_receive_files: bool,
}

impl View for TailscalePeer {
    type V = TailscalePeerV;

    open spec fn view(&self) -> TailscalePeerV {
        TailscalePeerV {
            id: self.id@,
            hostname: self.hostname@,
            dns_name: self.dns_name@,
            ip_addresses: self.ip_addresses.deep_view(),
            online: self.online,
            is_self: self.is_self,
            os: self.os@,
            can_receive_files: self.can_receive_files,
        }
    }
}

/// Ghost view of a received file.
pub ghost struct ReceivedFileV {
    pub name: Seq<char>,
    pub path: Option<Seq<char>>,
    pub size: u64,
    pub from_peer: Seq<char>,
    pub received_at: u64,
    pub saved: bool,
}

/// A file received through the inbox, as reported to the desktop UI.
/// `path` is the final on-disk location once the transfer completed, and
/// `received_at` is a unix timestamp supplied by the caller.
pub struct ReceivedFile {
    pub name: String,
    pub path: Option<String>,
    pub size: u64,
    pub from_peer: String,
    pub received_at: u64,
    pub saved: bool,
}

impl View for ReceivedFile {
    type V = ReceivedFileV;

    open spec fn view(&self) -> ReceivedFileV {
        ReceivedFileV {
            name: self.name@,
            path: match self.path {
                Some(p) => Some(p@),
                None => None,
            },
            size: self.size,
            from_peer: self.from_peer@,
            received_at: self.received_at,
            saved: self.saved,
        }
    }
}

/// Ghost view of an in-flight transfer.
pub ghost struct TransferringFileV {
    pub name: Seq<char>,
    pub size: u64,
    pub transferred: u64,
    pub done: bool,
}

/// A file currently being transferred.
pub struct TransferringFile {
    pub name: String,
    pub size: u64,
    pub transferred: u64,
    pub done: bool,
}

impl View for TransferringFile {
    type V = TransferringFileV;

    open spec fn view(&self) -> TransferringFileV {
        TransferringFileV {
            name: self.name@,
            size: self.size,
            transferred: self.transferred,
            done: self.done,
        }
    }
}

/// Ghost view of a raw inbox entry.
pub ghost struct FileWaitingV {
    pub name: Seq<char>,
    pub size: i64,
}

/// An inbox entry as the overlay daemon's control API reports it.
pub struct FileWaiting {
    pub name: String,
    pub size: i64,
}

impl View for FileWaiting {
    type V = FileWaitingV;

    open spec fn view(&self) -> FileWaitingV {
        FileWaitingV { name: self.name@, size: self.size }
    }
}

/// Ghost view of a raw event-bus transfer record.
pub ghost struct IncomingFileV {
    pub name: Seq<char>,
    pub started: Option<Seq<char>>,
    pub size: i64,
    pub received: Option<i64>,
    pub done: bool,
    pub final_path: Option<Seq<char>>,
}

/// An in-flight or completed inbound transfer as the control API's event
/// bus reports it.
pub struct IncomingFile {
    pub name: String,
    pub started: Option<String>,
    pub size: i64,
    pub received: Option<i64>,
    pub done: bool,
    pub final_path: Option<String>,
}

impl View for IncomingFile {
    type V = IncomingFileV;

    open spec fn view(&self) -> IncomingFileV {
        IncomingFileV {
            name: self.name@,
            started: match self.started {
                Some(s) => Some(s@),
                None => None,
            },
            size: self.size,
            received: self.received,
            done: self.done,
            final_path: match self.final_path {
                Some(p) => Some(p@),
                None => None,
            },
        }
    }
}

/// Ghost view of a status-document node.
pub ghost struct PeerStatusV {
    pub id: Seq<char>,
    pub hostname: Seq<char>,
    pub dns_name: Seq<char>,
    pub tailscale_ips: Option<Seq<Seq<char>>>,
    pub online: bool,
    pub os: Option<Seq<char>>,
}

/// One node's entry in the control API's status document.
pub struct PeerStatus {
    pub id: String,
    pub hostname: String,
    pub dns_name: String,
    pub tailscale_ips: Option<Vec<String>>,
    pub online: bool,
    pub os: Option<String>,
}

impl View for PeerStatus {
    type V = PeerStatusV;

    open spec fn view(&self) -> PeerStatusV {
        PeerStatusV {
            id: self.id@,
            hostname: self.hostname@,
            dns_name: self.dns_name@,
            tailscale_ips: match self.tailscale_ips {
                Some(v) => Some(v.deep_view()),
                None => None,
            },
            online: self.online,
            os: match self.os {
                Some(s) => Some(s@),
                None => None,
            },
        }
    }
}

/// The control API's status document, already decoded to plain values:
/// the self node and the other peers (in whatever order the caller's
/// decoder produced them).
pub struct TailscaleStatus {
    pub backend_state: String,
    pub self_node: Option<PeerStatus>,
    pub peers: Vec<PeerStatus>,
}

/// One decoded notification from the control API's event bus.  Waiting
/// files come with the id of the peer that sent them, one pair per file,
/// in whatever order the caller's decoder produced them.
pub struct IpnBusNotification {
    pub files_waiting: Option<Vec<(String, FileWaiting)>>,
    pub incoming_files: Option<Vec<IncomingFile>>,
}

/// Ghost view of a backend event.
pub ghost enum TailscaleEventV {
    PeersUpdated(Seq<TailscalePeerV>),
    FileReceived(ReceivedFileV),
    FileTransferring(TransferringFileV),
    ConnectionStatus(bool, Seq<char>),
    Error(Seq<char>),
}

/// Messages sent from the background transfer backend to the desktop UI.
pub enum TailscaleEvent {
    PeersUpdated(Vec<TailscalePeer>),
    FileReceived(ReceivedFile),
    FileTransferring(TransferringFile),
    ConnectionStatus(bool, String),
    Error(String),
}

impl View for TailscaleEvent {
    type V = TailscaleEventV;

    open spec fn view(&self) -> TailscaleEventV {
        match self {
            TailscaleEvent::PeersUpdated(peers) => TailscaleEventV::PeersUpdated(
                peers@.map_values(|p: TailscalePeer| p@),
            ),
            TailscaleEvent::FileReceived(f) => TailscaleEventV::FileReceived(f@),
            TailscaleEvent::FileTransferring(f) => TailscaleEventV::FileTransferring(f@),
            TailscaleEvent::ConnectionStatus(ok, msg) => TailscaleEventV::ConnectionStatus(
                *ok,
                msg@,
            ),
            TailscaleEvent::Error(msg) => TailscaleEventV::Error(msg@),
        }
    }
}

/// Commands sent from the desktop UI to the background transfer backend.
pub enum TailscaleCommand {
    SendFile { peer_id: String, file_path: String },
    RefreshPeers,
    DeleteReceivedFile(String),
}

/// Ghost view of a mobile client event.
pub ghost enum ClientEventV {
    StatusUpdate {
        connected: bool,
        last_sent: Option<SentFileInfoV>,
        last_received_file: Option<Seq<char>>,
        server_cwd: Option<Seq<char>>,
    },
    FilesUpdate(Seq<WaitingFileV>),
    BrowseUpdate(Seq<RemoteFileV>),
    DownloadComplete { filename: Seq<char>, data: Seq<u8> },
    PullComplete { filename: Seq<char>, data: Seq<u8> },
    PeersUpdate(Seq<PeerInfoV>),
    SyncProjectsUpdate(Seq<SyncProjectV>),
    SyncChangesAvailable(Seq<SyncChangeV>),
    UploadComplete { remote_path: Seq<char> },
    SyncPullComplete { project_id: Seq<char>, filename: Seq<char> },
    Error(Seq<char>),
}

/// Events emitted by the mobile client's background poll loop.
pub enum ClientEvent {
    StatusUpdate {
        connected: bool,
        last_sent: Option<SentFileInfo>,
        last_received_file: Option<String>,
        server_cwd: Option<String>,
    },
    FilesUpdate(Vec<WaitingFile>),
    BrowseUpdate(Vec<RemoteFile>),
    DownloadComplete { filename: String, data: Vec<u8> },
    PullComplete { filename: String, data: Vec<u8> },
    PeersUpdate(Vec<PeerInfo>),
    SyncProjectsUpdate(Vec<SyncProject>),
    SyncChangesAvailable(Vec<SyncChange>),
    UploadComplete { remote_path: String },
    SyncPullComplete { project_id: String, filename: String },
    Error(String),
}

impl View for ClientEvent {
    type V = ClientEventV;

    open spec fn view(&self) -> ClientEventV {
        match self {
            ClientEvent::StatusUpdate { connected, last_sent, last_received_file, server_cwd } => (
            ClientEventV::StatusUpdate {
                connected: *connected,
                last_sent: match last_sent {
                    Some(s) => Some(s@),
                    None => None,
                },
                last_received_file: match last_received_file {
                    Some(s) => Some(s@),
                    None => None,
                },
                server_cwd: match server_cwd {
                    Some(s) => Some(s@),
                    None => None,
                },
            }),
            ClientEvent::FilesUpdate(files) => ClientEventV::FilesUpdate(
                files@.map_values(|f: WaitingFile| f@),
            ),
            ClientEvent::BrowseUpdate(files) => ClientEventV::BrowseUpdate(
                files@.map_values(|f: RemoteFile| f@),
            ),
            ClientEvent::DownloadComplete { filename, data } => (ClientEventV::DownloadComplete {
                filename: filename@,
                data: data@,
            }),
            ClientEvent::PullComplete { filename, data } => (ClientEventV::PullComplete {
                filename: filename@,
                data: data@,
            }),
            ClientEvent::PeersUpdate(peers) => ClientEventV::PeersUpdate(
                peers@.map_values(|p: PeerInfo| p@),
            ),
            ClientEvent::SyncProjectsUpdate(projects) => ClientEventV::SyncProjectsUpdate(
                projects@.map_values(|p: SyncProject| p@),
            ),
            ClientEvent::SyncChangesAvailable(changes) => ClientEventV::SyncChangesAvailable(
                changes@.map_values(|c: SyncChange| c@),
            ),
            ClientEvent::UploadComplete { remote_path } => (ClientEventV::UploadComplete {
                remote_path: remote_path@,
            }),
            ClientEvent::SyncPullComplete { project_id, filename } => (
            ClientEventV::SyncPullComplete { project_id: project_id@, filename: filename@ }),
            ClientEvent::Error(msg) => ClientEventV::Error(msg@),
        }
    }
}

/// Ghost view of a mobile client command.
pub ghost enum ClientCommandV {
    DownloadFile(Seq<char>),
    DownloadLast,
    Browse(Option<Seq<char>>),
    PullFile(Seq<char>),
    Refresh,
    UploadFile { local_path: Seq<char>, remote_dest_path: Seq<char> },
    CreateSyncProject { local_path: Seq<char>, remote_path: Seq<char> },
    FetchSyncProjects,
    DeleteSyncProject(Seq<char>),
    AckSync { id: Seq<char>, timestamp: u64 },
    CheckSyncChanges,
}

/// Commands issued by the mobile foreground to the background poll loop.
pub enum ClientCommand {
    DownloadFile(String),
    DownloadLast,
    Browse(Option<String>),
    PullFile(String),
    Refresh,
    UploadFile { local_path: String, remote_dest_path: String },
    CreateSyncProject { local_path: String, remote_path: String },
    FetchSyncProjects,
    DeleteSyncProject(String),
    AckSync { id: String, timestamp: u64 },
    CheckSyncChanges,
}

impl View for ClientCommand {
    type V = ClientCommandV;

    open spec fn view(&self) -> ClientCommandV {
        match self {
            ClientCommand::DownloadFile(name) => ClientCommandV::DownloadFile(name@),
            ClientCommand::DownloadLast => ClientCommandV::DownloadLast,
            ClientCommand::Browse(path) => ClientCommandV::Browse(
                match path {
                    Some(p) => Some(p@),
                    None => None,
                },
            ),
            ClientCommand::PullFile(path) => ClientCommandV::PullFile(path@),
            ClientCommand::Refresh => ClientCommandV::Refresh,
            ClientCommand::UploadFile { local_path, remote_dest_path } => (
            ClientCommandV::UploadFile {
                local_path: local_path@,
                remote_dest_path: remote_dest_path@,
            }),
            ClientCommand::CreateSyncProject { local_path, remote_path } => (
            ClientCommandV::CreateSyncProject {
                local_path: local_path@,
                remote_path: remote_path@,
            }),
            ClientCommand::FetchSyncProjects => ClientCommandV::FetchSyncProjects,
            ClientCommand::DeleteSyncProject(id) => ClientCommandV::DeleteSyncProject(id@),
            ClientCommand::AckSync { id, timestamp } => (ClientCommandV::AckSync {
                id: id@,
                timestamp: *timestamp,
            }),
            ClientCommand::CheckSyncChanges => ClientCommandV::CheckSyncChanges,
        }
    }
}

/// Top-level pages of the mobile UI.
#[derive(Clone, Copy, PartialEq, Eq, Structural)]
pub enum Page {
    Monitor,
    ProjectSync,
}

/// Steps of the mobile UI's project-sync flow.
#[derive(Clone, Copy, PartialEq, Eq, Structural)]
pub enum SyncStep {
    BrowseLocal,
    PickRemoteDest,
}

/// A mobile-side directory-listing entry.
pub struct LocalFileEntry {
    pub name: String,
    pub path: String,
    pub is_dir: bool,
    pub size: u64,
    pub modified: u64,
}

/// A desktop-side directory-listing entry used by the file explorer.
pub struct DirectoryEntry {
    pub name: String,
    pub path: String,
    pub is_dir: bool,
    pub size: u64,
}

} // verus!
