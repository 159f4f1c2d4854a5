//! The transfer backend's logic: converting the overlay daemon's status
//! document into the peer cache, splitting its event-bus byte stream
//! into lines, turning decoded notifications into events, and building
//! the control API's request paths.  The IPC itself runs outside this
//! crate.

use vstd::prelude::*;

use crate::models::{FileWaiting, FileWaitingV, IncomingFile, IncomingFileV, PeerStatus,
    PeerStatusV, ReceivedFileV, TailscaleEvent, TailscaleEventV, TailscalePeer, TailscalePeerV,
    TailscaleStatus, TransferringFileV};

verus! {

/// What `urlencoding::encode` returns for a string: a function of the
/// characters alone.
pub uninterp spec fn url_encoded(s: Seq<char>) -> Seq<char>;

/// Relies on `urlencoding::encode`: percent-encodes every byte except
/// ASCII alphanumerics and `-`, `_`, `.`, `~`; the empty string stays
/// empty.
#[verifier::external_body]
fn url_encode(s: &str) -> (r: String)
    ensures
        r@ == url_encoded(s@),
        s@.len() == 0 ==> r@.len() == 0,
{
    urlencoding::encode(s).into_owned()
}

/// The control API path for one received file: the inbox endpoint with
/// the file name percent-encoded.
pub fn received_file_url(name: &str) -> (r: String)
    ensures
        r@ == "http://local-tailscaled.sock/localapi/v0/files/"@ + url_encoded(name@),
{
    String::from_str("http://local-tailscaled.sock/localapi/v0/files/").concat(
        url_encode(name).as_str(),
    )
}

/// The control API path for pushing a file into a peer's inbox: peer id,
/// then the file name percent-encoded.
pub fn file_put_url(peer_id: &str, file_name: &str) -> (r: String)
    ensures
        r@ == "http://local-tailscaled.sock/localapi/v0/file-put/"@ + peer_id@ + "/"@ + url_encoded(
            file_name@,
        ),
{
    let r = String::from_str("http://local-tailscaled.sock/localapi/v0/file-put/").concat(
        peer_id,
    ).concat("/").concat(url_encode(file_name).as_str());
    proof {
        assert(r@ =~= "http://local-tailscaled.sock/localapi/v0/file-put/"@ + peer_id@ + "/"@
            + url_encoded(file_name@));
    }
    r
}

/// View of an optional status-document node.
pub open spec fn opt_status_view(o: Option<PeerStatus>) -> Option<PeerStatusV> {
    match o {
        Some(s) => Some(s@),
        None => None,
    }
}

/// One status-document node as a cache entry.  The self node is always
/// online; a missing IP list or OS field reads as empty.
pub open spec fn peer_of_status(p: PeerStatusV, self_node: bool) -> TailscalePeerV {
    TailscalePeerV {
        id: p.id,
        hostname: p.hostname,
        dns_name: p.dns_name,
        ip_addresses: match p.tailscale_ips {
            Some(v) => v,
            None => Seq::empty(),
        },
        online: if self_node {
            true
        } else {
            p.online
        },
        is_self: self_node,
        os: match p.os {
            Some(s) => s,
            None => Seq::empty(),
        },
        can_receive_files: true,
    }
}

/// The whole status document as cache entries: the self node first, then
/// the peers in the given order.
pub open spec fn all_nodes(self_node: Option<PeerStatusV>, peers: Seq<PeerStatusV>) -> Seq<
    TailscalePeerV,
> {
    (match self_node {
        Some(s) => seq![peer_of_status(s, true)],
        None => Seq::empty(),
    }) + peers.map_values(|p: PeerStatusV| peer_of_status(p, false))
}

/// Only the nodes that report an OS: the rest are incompletely
/// registered and are dropped.
pub open spec fn nodes_with_os(s: Seq<TailscalePeerV>) -> Seq<TailscalePeerV>
    decreases s.len(),
{
    if s.len() == 0 {
        Seq::empty()
    } else {
        let rest = nodes_with_os(s.drop_last());
        if s.last().os.len() > 0 {
            rest.push(s.last())
        } else {
            rest
        }
    }
}

/// Copies an optional list of strings, a missing one reading as empty.
fn ips_of(v: &Option<Vec<String>>) -> (r: Vec<String>)
    ensures
        match v {
            Some(ips) => r@ == ips@,
            None => r@.len() == 0,
        },
{
    match v {
        Some(ips) => crate::server::clone_string_vec(ips),
        None => Vec::new(),
    }
}

/// Copies an optional string, a missing one reading as empty.
fn str_or_empty(v: &Option<String>) -> (r: String)
    ensures
        match v {
            Some(s) => r@ == s@,
            None => r@.len() == 0,
        },
{
    match v {
        Some(s) => s.clone(),
        None => String::new(),
    }
}

/// Converts one status-document node.
fn convert_node(p: &PeerStatus, self_node: bool) -> (r: TailscalePeer)
    ensures
        r@ == peer_of_status(p@, self_node),
{
    let r = TailscalePeer {
        id: p.id.clone(),
        hostname: p.hostname.clone(),
        dns_name: p.dns_name.clone(),
        ip_addresses: ips_of(&p.tailscale_ips),
        online: if self_node {
            true
        } else {
            p.online
        },
        is_self: self_node,
        os: str_or_empty(&p.os),
        can_receive_files: true,
    };
    proof {
        assert(r@.ip_addresses =~= peer_of_status(p@, self_node).ip_addresses);
        assert(r@.os =~= peer_of_status(p@, self_node).os);
    }
    r
}

/// The peer cache a status document yields: the self node (always
/// online) and every peer, keeping only nodes that report an OS.
pub fn peers_from_status(status: &TailscaleStatus) -> (r: Vec<TailscalePeer>)
    ensures
        r@.map_values(|p: TailscalePeer| p@) == nodes_with_os(
            all_nodes(
                opt_status_view(status.self_node),
                status.peers@.map_values(|p: PeerStatus| p@),
            ),
        ),
{
    let ghost nodes = all_nodes(
        opt_status_view(status.self_node),
        status.peers@.map_values(|p: PeerStatus| p@),
    );
    let mut out: Vec<TailscalePeer> = Vec::new();
    match &status.self_node {
        Some(s) => {
            let node = convert_node(s, true);
            if node.os.unicode_len() > 0 {
                out.push(node);
            }
            proof {
                let head = nodes.take(1);
                assert(nodes[0] == peer_of_status(status.self_node.unwrap()@, true));
                assert(head.drop_last() =~= Seq::<TailscalePeerV>::empty());
                assert(head.last() == nodes[0]);
                assert(node@ == nodes[0]);
                assert(nodes_with_os(Seq::<TailscalePeerV>::empty()) =~= Seq::<
                    TailscalePeerV,
                >::empty());
                if node@.os.len() > 0 {
                    assert(out@.map_values(|p: TailscalePeer| p@) =~= Seq::<
                        TailscalePeerV,
                    >::empty().push(nodes[0]));
                }
                assert(out@.map_values(|p: TailscalePeer| p@) =~= nodes_with_os(nodes.take(1)));
            }
        },
        None => {
            proof {
                assert(nodes.take(0) =~= Seq::<TailscalePeerV>::empty());
                assert(out@.map_values(|p: TailscalePeer| p@) =~= nodes_with_os(nodes.take(0)));
            }
        },
    }
    let base: usize = match &status.self_node {
        Some(_) => 1,
        None => 0,
    };
    let n = status.peers.len();
    let mut i: usize = 0;
    while i < n
        invariant
            i <= n,
            n == status.peers@.len(),
            nodes.len() == n + base,
            base <= 1,
            (base == 1) == (status.self_node is Some),
            forall|j: int|
                0 <= j < n ==> nodes[base + j] == peer_of_status(
                    #[trigger] status.peers@[j]@,
                    false,
                ),
            out@.map_values(|p: TailscalePeer| p@) == nodes_with_os(
                nodes.take(base + i as int),
            ),
        decreases n - i,
    {
        proof {
            assert(nodes.take(base + i as int + 1).drop_last() =~= nodes.take(base + i as int));
            assert(nodes.take(base + i as int + 1).last() == nodes[base + i as int]);
        }
        let node = convert_node(&status.peers[i], false);
        if node.os.unicode_len() > 0 {
            out.push(node);
        }
        proof {
            assert(out@.map_values(|p: TailscalePeer| p@) =~= nodes_with_os(
                nodes.take(base + i as int + 1),
            ));
        }
        i = i + 1;
    }
    proof {
        assert(nodes.take(base + n as int) =~= nodes);
    }
    out
}

/// The suffix of `s` after its last newline.
pub open spec fn line_rest(s: Seq<char>) -> Seq<char>
    decreases s.len(),
{
    if s.len() == 0 {
        s
    } else if s.last() == '\n' {
        Seq::empty()
    } else {
        line_rest(s.drop_last()).push(s.last())
    }
}

/// The newline-terminated lines of `s`, in order, without their
/// terminators.
pub open spec fn lines_of(s: Seq<char>) -> Seq<Seq<char>>
    decreases s.len(),
{
    if s.len() == 0 {
        Seq::empty()
    } else if s.last() == '\n' {
        lines_of(s.drop_last()).push(line_rest(s.drop_last()))
    } else {
        lines_of(s.drop_last())
    }
}

/// The rest after the last newline holds no newline.
pub proof fn lemma_line_rest_no_newline(s: Seq<char>)
    ensures
        forall|i: int| 0 <= i < line_rest(s).len() ==> line_rest(s)[i] != '\n',
    decreases s.len(),
{
    if s.len() > 0 && s.last() != '\n' {
        lemma_line_rest_no_newline(s.drop_last());
        assert forall|i: int| 0 <= i < line_rest(s).len() implies line_rest(s)[i] != '\n' by {
            if i < line_rest(s).len() - 1 {
                assert(line_rest(s)[i] == line_rest(s.drop_last())[i]);
            } else {
                assert(line_rest(s)[i] == s.last());
            }
        }
    }
}

/// Appends a chunk of the event-bus stream to the line buffer and takes
/// off every completed line: the lines of buffer-plus-chunk appear, in
/// order, and the buffer keeps exactly the unterminated rest.  This does
/// no I/O and no blocking work, as the stream's reader requires.
#[verifier::rlimit(50)]
pub fn split_lines(buffer: &mut String, chunk: &str) -> (out: Vec<String>)
    ensures
        out@.map_values(|l: String| l@) == lines_of(old(buffer)@ + chunk@),
        final(buffer)@ == line_rest(old(buffer)@ + chunk@),
{
    let mut total = String::new();
    core::mem::swap(&mut total, buffer);
    let total = total.concat(chunk);
    proof {
        assert(total@ == old(buffer)@ + chunk@);
    }
    let len = total.as_str().unicode_len();
    let mut out: Vec<String> = Vec::new();
    let mut start: usize = 0;
    let mut i: usize = 0;
    proof {
        assert(total@.take(0) =~= Seq::<char>::empty());
        assert(out@.map_values(|l: String| l@) =~= lines_of(total@.take(0)));
        assert(line_rest(total@.take(0)) =~= total@.subrange(0, 0));
    }
    while i < len
        invariant
            start <= i <= len,
            len == total@.len(),
            out@.map_values(|l: String| l@) == lines_of(total@.take(i as int)),
            line_rest(total@.take(i as int)) == total@.subrange(start as int, i as int),
        decreases len - i,
    {
        proof {
            assert(total@.take(i as int + 1).drop_last() =~= total@.take(i as int));
            assert(total@.take(i as int + 1).last() == total@[i as int]);
        }
        let c = total.as_str().get_char(i);
        if c == '\n' {
            let line = String::from_str(total.as_str().substring_char(start, i));
            out.push(line);
            proof {
                assert(line_rest(total@.take(i as int + 1)) =~= total@.subrange(
                    i as int + 1,
                    i as int + 1,
                ));
                assert(out@.map_values(|l: String| l@) =~= lines_of(total@.take(i as int + 1)));
            }
            start = i + 1;
        } else {
            proof {
                assert(line_rest(total@.take(i as int + 1)) =~= total@.subrange(
                    start as int,
                    i as int + 1,
                ));
                assert(out@.map_values(|l: String| l@) =~= lines_of(total@.take(i as int + 1)));
            }
        }
        i = i + 1;
    }
    proof {
        assert(total@.take(len as int) =~= total@);
    }
    let rest = String::from_str(total.as_str().substring_char(start, len));
    *buffer = rest;
    out
}

/// The event one in-flight or completed transfer yields: a completed one
/// is a received file (with its final path, when reported), one still in
/// flight is a progress update.
pub open spec fn incoming_event(f: IncomingFileV, now: u64) -> TailscaleEventV {
    if f.done {
        TailscaleEventV::FileReceived(
            ReceivedFileV {
                name: f.name,
                path: f.final_path,
                size: f.size as u64,
                from_peer: "Unknown"@,
                received_at: now,
                saved: false,
            },
        )
    } else {
        TailscaleEventV::FileTransferring(
            TransferringFileV {
                name: f.name,
                size: f.size as u64,
                transferred: (match f.received {
                    Some(r) => r,
                    None => 0,
                }) as u64,
                done: false,
            },
        )
    }
}

/// The event one waiting-file record yields: a received file with no
/// known path, from the peer that sent it.
pub open spec fn waiting_event(sender: Seq<char>, f: FileWaitingV, now: u64) -> TailscaleEventV {
    TailscaleEventV::FileReceived(
        ReceivedFileV {
            name: f.name,
            path: None,
            size: f.size as u64,
            from_peer: sender,
            received_at: now,
            saved: false,
        },
    )
}

/// All events of one decoded notification: the incoming-file records in
/// order, then the waiting-file records in order.
pub open spec fn notification_events(
    incoming: Seq<IncomingFileV>,
    waiting: Seq<(Seq<char>, FileWaitingV)>,
    now: u64,
) -> Seq<TailscaleEventV> {
    incoming.map_values(|f: IncomingFileV| incoming_event(f, now)) + waiting.map_values(
        |p: (Seq<char>, FileWaitingV)| waiting_event(p.0, p.1, now),
    )
}

/// Turns one decoded event-bus notification into the events the UI is
/// told about, stamping received files with the caller's clock reading
/// `now`.
pub fn ingest_notification(
    incoming: &Vec<IncomingFile>,
    waiting: &Vec<(String, FileWaiting)>,
    now: u64,
) -> (r: Vec<TailscaleEvent>)
    ensures
        r@.map_values(|e: TailscaleEvent| e@) == notification_events(
            incoming@.map_values(|f: IncomingFile| f@),
            waiting@.map_values(|p: (String, FileWaiting)| (p.0@, p.1@)),
            now,
        ),
{
    let ghost goal = notification_events(
        incoming@.map_values(|f: IncomingFile| f@),
        waiting@.map_values(|p: (String, FileWaiting)| (p.0@, p.1@)),
        now,
    );
    let mut out: Vec<TailscaleEvent> = Vec::new();
    let n = incoming.len();
    let mut i: usize = 0;
    while i < n
        invariant
            i <= n,
            n == incoming@.len(),
            out@.map_values(|e: TailscaleEvent| e@) == incoming@.take(i as int).map_values(
                |f: IncomingFile| f@,
            ).map_values(|f: IncomingFileV| incoming_event(f, now)),
        decreases n - i,
    {
        let f = &incoming[i];
        if f.done {
            let path = match &f.final_path {
                Some(p) => Some(p.clone()),
                None => None,
            };
            out.push(
                TailscaleEvent::FileReceived(
                    crate::models::ReceivedFile {
                        name: f.name.clone(),
                        path,
                        size: to_u64(f.size),
                        from_peer: String::from_str("Unknown"),
                        received_at: now,
                        saved: false,
                    },
                ),
            );
        } else {
            let transferred = match f.received {
                Some(r) => to_u64(r),
                None => 0,
            };
            out.push(
                TailscaleEvent::FileTransferring(
                    crate::models::TransferringFile {
                        name: f.name.clone(),
                        size: to_u64(f.size),
                        transferred,
                        done: false,
                    },
                ),
            );
        }
        proof {
            let pre = incoming@.take(i as int).map_values(|f: IncomingFile| f@);
            let pre1 = incoming@.take(i as int + 1).map_values(|f: IncomingFile| f@);
            assert(pre1 =~= pre.push(incoming@[i as int]@));
            assert(pre1.map_values(|f: IncomingFileV| incoming_event(f, now)) =~= pre.map_values(
                |f: IncomingFileV| incoming_event(f, now),
            ).push(incoming_event(incoming@[i as int]@, now)));
            assert(out@.map_values(|e: TailscaleEvent| e@) =~= incoming@.take(
                i as int + 1,
            ).map_values(|f: IncomingFile| f@).map_values(
                |f: IncomingFileV| incoming_event(f, now),
            ));
        }
        i = i + 1;
    }
    let m = waiting.len();
    let mut j: usize = 0;
    while j < m
        invariant
            j <= m,
            m == waiting@.len(),
            n == incoming@.len(),
            out@.map_values(|e: TailscaleEvent| e@) == incoming@.map_values(
                |f: IncomingFile| f@,
            ).map_values(|f: IncomingFileV| incoming_event(f, now)) + waiting@.take(
                j as int,
            ).map_values(|p: (String, FileWaiting)| (p.0@, p.1@)).map_values(
                |p: (Seq<char>, FileWaitingV)| waiting_event(p.0, p.1, now),
            ),
        decreases m - j,
    {
        let (sender, f) = &waiting[j];
        let ghost out0 = out@;
        out.push(
            TailscaleEvent::FileReceived(
                crate::models::ReceivedFile {
                    name: f.name.clone(),
                    path: None,
                    size: to_u64(f.size),
                    from_peer: sender.clone(),
                    received_at: now,
                    saved: false,
                },
            ),
        );
        proof {
            let pre = waiting@.take(j as int).map_values(|p: (String, FileWaiting)| (p.0@, p.1@));
            let pre1 = waiting@.take(j as int + 1).map_values(
                |p: (String, FileWaiting)| (p.0@, p.1@),
            );
            assert(pre1 =~= pre.push((waiting@[j as int].0@, waiting@[j as int].1@)));
            assert(pre1.map_values(|p: (Seq<char>, FileWaitingV)| waiting_event(p.0, p.1, now))
                =~= pre.map_values(
                |p: (Seq<char>, FileWaitingV)| waiting_event(p.0, p.1, now),
            ).push(waiting_event(waiting@[j as int].0@, waiting@[j as int].1@, now)));
            assert(out@.last()@ == waiting_event(
                waiting@[j as int].0@,
                waiting@[j as int].1@,
                now,
            ));
            assert(out@ =~= out0.push(out@.last()));
            assert(out@.map_values(|e: TailscaleEvent| e@) =~= out0.map_values(
                |e: TailscaleEvent| e@,
            ).push(out@.last()@));
            assert(out@.map_values(|e: TailscaleEvent| e@) =~= incoming@.map_values(
                |f: IncomingFile| f@,
            ).map_values(|f: IncomingFileV| incoming_event(f, now)) + waiting@.take(
                j as int + 1,
            ).map_values(|p: (String, FileWaiting)| (p.0@, p.1@)).map_values(
                |p: (Seq<char>, FileWaitingV)| waiting_event(p.0, p.1, now),
            ));
        }
        j = j + 1;
    }
    proof {
        assert(incoming@.take(n as int) =~= incoming@);
        assert(waiting@.take(m as int) =~= waiting@);
        assert(out@.map_values(|e: TailscaleEvent| e@) =~= goal);
    }
    out
}

/// The size fields of the control API are signed; the engine stores
/// sizes unsigned, truncating as a cast does.
fn to_u64(v: i64) -> (r: u64)
    ensures
        r == v as u64,
{
    #[verifier::truncate]
    let r = v as u64;
    r
}

} // verus!
