//! Cluster nodes: lookup, validation of additions and updates, status checks, and discovery
//! of nodes from DRBD resource files.

use vstd::prelude::*;
use crate::text::{
    chars_of, chars_eq, find, find_exec, lines, lines_exec, push_str, slice_chars, starts_with,
    starts_with_str, ends_with, ends_with_str, string_of, str_eq, trim, trim_exec, views,
};

verus! {

/// Errors reported by the node and profile operations.
#[derive(Debug)]
pub enum AppError {
    NotFound(String),
    Validation(String),
    AlreadyExists(String),
    Conflict(String),
    Internal(String),
    Drbd(String),
    Config(String),
    Timeout(String),
    Migration(String),
    Ssh(String),
}

/// The message carried by an error.
pub open spec fn error_message(e: AppError) -> Seq<char> {
    match e {
        AppError::NotFound(m) => m@,
        AppError::Validation(m) => m@,
        AppError::AlreadyExists(m) => m@,
        AppError::Conflict(m) => m@,
        AppError::Internal(m) => m@,
        AppError::Drbd(m) => m@,
        AppError::Config(m) => m@,
        AppError::Timeout(m) => m@,
        AppError::Migration(m) => m@,
        AppError::Ssh(m) => m@,
    }
}

/// Reachability of a node.
#[derive(Debug, Clone, Copy, PartialEq, Eq, Structural)]
pub enum NodeStatus {
    Online,
    Offline,
    Unknown,
    Error,
}

/// A cluster node; `last_seen` is a Unix timestamp in seconds.
#[derive(Debug, Clone)]
pub struct Node {
    pub id: String,
    pub hostname: String,
    pub ip: String,
    pub ssh_port: u16,
    pub ssh_user: String,
    pub is_local: bool,
    pub status: NodeStatus,
    pub last_seen: Option<i64>,
}

/// Request to add or update a node.
#[derive(Debug, Clone)]
pub struct AddNodeRequest {
    pub hostname: String,
    pub ip: String,
    pub ssh_port: Option<u16>,
    pub ssh_user: Option<String>,
}

/// A copy of a node.
fn copy_node(n: &Node) -> (r: Node)
    ensures
        r == *n,
{
    Node {
        id: n.id.clone(),
        hostname: n.hostname.clone(),
        ip: n.ip.clone(),
        ssh_port: n.ssh_port,
        ssh_user: n.ssh_user.clone(),
        is_local: n.is_local,
        status: n.status,
        last_seen: n.last_seen,
    }
}

// ---------------------------------------------------------------------------
// Lookup
// ---------------------------------------------------------------------------

/// The first node satisfying the selector: the local node when `id` is `local`, otherwise
/// the node with that id.
pub open spec fn node_selected(n: Node, id: Seq<char>) -> bool {
    if id == "local"@ {
        n.is_local
    } else {
        n.id@ == id
    }
}

/// The first node of `ns` selected by `id`.
pub open spec fn resolve_node(ns: Seq<Node>, id: Seq<char>) -> Option<Node>
    decreases ns.len(),
{
    if ns.len() == 0 {
        None
    } else if node_selected(ns[0], id) {
        Some(ns[0])
    } else {
        resolve_node(ns.drop_first(), id)
    }
}

/// The message when no node is selected by `id`.
pub open spec fn node_not_found_message(id: Seq<char>) -> Seq<char> {
    if id == "local"@ {
        "Local node not found"@
    } else {
        "Node "@ + id + " not found"@
    }
}

/// Looks up a node by id, resolving `local` to the local node.
pub fn get_node_by_id_resolved(nodes: &Vec<Node>, id: &str) -> (r: Result<Node, AppError>)
    ensures
        match r {
            Ok(n) => resolve_node(nodes@, id@) == Some(n),
            Err(e) => resolve_node(nodes@, id@) is None && e is NotFound && error_message(e)
                == node_not_found_message(id@),
        },
{
    let local = str_eq(id, "local");
    let mut i: usize = 0;
    assert(nodes@.skip(0) =~= nodes@);
    while i < nodes.len()
        invariant
            i <= nodes.len(),
            local == (id@ == "local"@),
            resolve_node(nodes@, id@) == resolve_node(nodes@.skip(i as int), id@),
        decreases nodes.len() - i,
    {
        let n = &nodes[i];
        assert(nodes@.skip(i as int)[0] == *n);
        let selected = if local {
            n.is_local
        } else {
            str_eq(n.id.as_str(), id)
        };
        if selected {
            return Ok(copy_node(n));
        }
        assert(nodes@.skip(i as int).drop_first() =~= nodes@.skip(i + 1));
        i = i + 1;
    }
    if local {
        Err(AppError::NotFound("Local node not found".to_owned()))
    } else {
        let mut m = String::new();
        push_str(&mut m, "Node ");
        push_str(&mut m, id);
        push_str(&mut m, " not found");
        assert(m@ =~= "Node "@ + id@ + " not found"@);
        Err(AppError::NotFound(m))
    }
}

/// The first node whose id or hostname is `key`.
pub open spec fn node_by_id_or_hostname(ns: Seq<Node>, key: Seq<char>) -> Option<Node>
    decreases ns.len(),
{
    if ns.len() == 0 {
        None
    } else if ns[0].id@ == key || ns[0].hostname@ == key {
        Some(ns[0])
    } else {
        node_by_id_or_hostname(ns.drop_first(), key)
    }
}

/// Finds the node whose id or hostname is `key`.
pub fn find_node_by_id_or_hostname(nodes: &Vec<Node>, key: &str) -> (r: Option<Node>)
    ensures
        r == node_by_id_or_hostname(nodes@, key@),
{
    let mut i: usize = 0;
    assert(nodes@.skip(0) =~= nodes@);
    while i < nodes.len()
        invariant
            i <= nodes.len(),
            node_by_id_or_hostname(nodes@, key@) == node_by_id_or_hostname(nodes@.skip(i as int), key@),
        decreases nodes.len() - i,
    {
        let n = &nodes[i];
        assert(nodes@.skip(i as int)[0] == *n);
        if str_eq(n.id.as_str(), key) || str_eq(n.hostname.as_str(), key) {
            return Some(copy_node(n));
        }
        assert(nodes@.skip(i as int).drop_first() =~= nodes@.skip(i + 1));
        i = i + 1;
    }
    None
}

// ---------------------------------------------------------------------------
// Adding and updating nodes
// ---------------------------------------------------------------------------

/// The node uses the address or the hostname.
pub open spec fn node_uses(n: Node, hostname: Seq<char>, ip: Seq<char>) -> bool {
    n.ip@ == ip || n.hostname@ == hostname
}

/// Some node already uses the address or the hostname.
pub open spec fn address_taken(ns: Seq<Node>, hostname: Seq<char>, ip: Seq<char>) -> bool {
    exists|k: int| 0 <= k < ns.len() && #[trigger] node_uses(ns[k], hostname, ip)
}

/// The message for a taken address or hostname.
pub open spec fn already_exists_message(hostname: Seq<char>, ip: Seq<char>) -> Seq<char> {
    "Node with ip "@ + ip + " or hostname "@ + hostname + " already exists"@
}

fn already_exists_error(hostname: &str, ip: &str) -> (e: AppError)
    ensures
        e is AlreadyExists,
        error_message(e) == already_exists_message(hostname@, ip@),
{
    let mut m = String::new();
    push_str(&mut m, "Node with ip ");
    push_str(&mut m, ip);
    push_str(&mut m, " or hostname ");
    push_str(&mut m, hostname);
    push_str(&mut m, " already exists");
    assert(m@ =~= already_exists_message(hostname@, ip@));
    AppError::AlreadyExists(m)
}

/// Checks a request to add a node: hostname and ip are required, and neither may already be
/// used by a node.
pub fn validate_new_node(existing: &Vec<Node>, hostname: &str, ip: &str) -> (r: Result<(), AppError>)
    ensures
        (hostname@.len() == 0 || ip@.len() == 0) ==> (r matches Err(e) && e is Validation
            && error_message(e) == "hostname and ip are required"@),
        (hostname@.len() > 0 && ip@.len() > 0 && address_taken(existing@, hostname@, ip@)) ==> (r
            matches Err(e) && e is AlreadyExists && error_message(e) == already_exists_message(
            hostname@,
            ip@,
        )),
        (hostname@.len() > 0 && ip@.len() > 0 && !address_taken(existing@, hostname@, ip@))
            ==> r is Ok,
{
    if hostname.is_empty() || ip.is_empty() {
        return Err(AppError::Validation("hostname and ip are required".to_owned()));
    }
    let mut i: usize = 0;
    while i < existing.len()
        invariant
            i <= existing.len(),
            hostname@.len() > 0 && ip@.len() > 0,
            forall|k: int| 0 <= k < i ==> !#[trigger] node_uses(existing@[k], hostname@, ip@),
        decreases existing.len() - i,
    {
        let n = &existing[i];
        if str_eq(n.ip.as_str(), ip) || str_eq(n.hostname.as_str(), hostname) {
            assert(node_uses(existing@[i as int], hostname@, ip@));
            return Err(already_exists_error(hostname, ip));
        }
        assert(!node_uses(existing@[i as int], hostname@, ip@));
        i = i + 1;
    }
    Ok(())
}

/// The node created for an add request: the request's SSH settings or the defaults, not
/// local, and last seen now only when it answered.
pub open spec fn spec_new_node(
    req: AddNodeRequest,
    id: Seq<char>,
    default_port: u16,
    default_user: Seq<char>,
    status: NodeStatus,
    now: i64,
) -> (Seq<char>, Seq<char>, Seq<char>, u16, Seq<char>, bool, NodeStatus, Option<i64>) {
    (
        id,
        req.hostname@,
        req.ip@,
        match req.ssh_port {
            Some(p) => p,
            None => default_port,
        },
        match req.ssh_user {
            Some(u) => u@,
            None => default_user,
        },
        false,
        status,
        if status == NodeStatus::Online {
            Some(now)
        } else {
            None
        },
    )
}

/// A node as a tuple of its fields' values.
pub open spec fn node_view(n: Node) -> (Seq<char>, Seq<char>, Seq<char>, u16, Seq<char>, bool, NodeStatus, Option<i64>) {
    (n.id@, n.hostname@, n.ip@, n.ssh_port, n.ssh_user@, n.is_local, n.status, n.last_seen)
}

/// Builds the node for an add request once its id, reachability and the time are known.
pub fn new_node(
    req: AddNodeRequest,
    id: String,
    default_port: u16,
    default_user: String,
    status: NodeStatus,
    now: i64,
) -> (n: Node)
    ensures
        node_view(n) == spec_new_node(req, id@, default_port, default_user@, status, now),
{
    let ssh_port = match req.ssh_port {
        Some(p) => p,
        None => default_port,
    };
    let ssh_user = match req.ssh_user {
        Some(u) => u,
        None => default_user,
    };
    let last_seen = match status {
        NodeStatus::Online => Some(now),
        _ => None,
    };
    Node {
        id,
        hostname: req.hostname,
        ip: req.ip,
        ssh_port,
        ssh_user,
        is_local: false,
        status,
        last_seen,
    }
}

/// Another node (by id and by hostname) already uses the requested address or hostname.
pub open spec fn update_conflicts(
    ns: Seq<Node>,
    id: Seq<char>,
    current_hostname: Seq<char>,
    hostname: Seq<char>,
    ip: Seq<char>,
) -> bool {
    exists|k: int| 0 <= k < ns.len() && #[trigger] conflicts_with(ns[k], id, current_hostname, hostname, ip)
}

/// The node is another node that uses the requested address or hostname.
pub open spec fn conflicts_with(
    n: Node,
    id: Seq<char>,
    current_hostname: Seq<char>,
    hostname: Seq<char>,
    ip: Seq<char>,
) -> bool {
    n.id@ != id && n.hostname@ != current_hostname && (n.ip@ == ip || n.hostname@ == hostname)
}

/// Checks a node update: no other node may use the new address or hostname. Nodes with the
/// same id or with the node's current hostname do not count as other nodes.
pub fn validate_node_update(
    existing: &Vec<Node>,
    id: &str,
    current_hostname: &str,
    hostname: &str,
    ip: &str,
) -> (r: Result<(), AppError>)
    ensures
        update_conflicts(existing@, id@, current_hostname@, hostname@, ip@) ==> (r matches Err(e)
            && e is AlreadyExists && error_message(e) == already_exists_message(hostname@, ip@)),
        !update_conflicts(existing@, id@, current_hostname@, hostname@, ip@) ==> r is Ok,
{
    let mut i: usize = 0;
    while i < existing.len()
        invariant
            i <= existing.len(),
            forall|k: int|
                0 <= k < i ==> !#[trigger] conflicts_with(
                    existing@[k],
                    id@,
                    current_hostname@,
                    hostname@,
                    ip@,
                ),
        decreases existing.len() - i,
    {
        let n = &existing[i];
        if !str_eq(n.id.as_str(), id) && !str_eq(n.hostname.as_str(), current_hostname) && (str_eq(
            n.ip.as_str(),
            ip,
        ) || str_eq(n.hostname.as_str(), hostname)) {
            assert(conflicts_with(existing@[i as int], id@, current_hostname@, hostname@, ip@));
            return Err(already_exists_error(hostname, ip));
        }
        assert(!conflicts_with(existing@[i as int], id@, current_hostname@, hostname@, ip@));
        i = i + 1;
    }
    Ok(())
}

/// The node after an update: new hostname, address and SSH settings (or the defaults); id,
/// locality, status and last-seen time are kept.
pub fn updated_node(
    existing: &Node,
    id: String,
    req: AddNodeRequest,
    default_port: u16,
    default_user: String,
) -> (n: Node)
    ensures
        n.id == id,
        n.hostname == req.hostname,
        n.ip == req.ip,
        n.ssh_port == match req.ssh_port {
            Some(p) => p,
            None => default_port,
        },
        n.ssh_user == match req.ssh_user {
            Some(u) => u,
            None => default_user,
        },
        n.is_local == existing.is_local,
        n.status == existing.status,
        n.last_seen == existing.last_seen,
{
    let ssh_port = match req.ssh_port {
        Some(p) => p,
        None => default_port,
    };
    let ssh_user = match req.ssh_user {
        Some(u) => u,
        None => default_user,
    };
    Node {
        id,
        hostname: req.hostname,
        ip: req.ip,
        ssh_port,
        ssh_user,
        is_local: existing.is_local,
        status: existing.status,
        last_seen: existing.last_seen,
    }
}

// ---------------------------------------------------------------------------
// Status checks
// ---------------------------------------------------------------------------

/// What a probe of a remote node came back with: `echo ok` over SSH and, for a login user
/// other than root, passwordless `sudo -n true`. A node is online only when both work.
#[derive(Debug, Clone)]
pub enum ProbeOutcome {
    /// The command ran and succeeded, and so did `sudo -n` where it is needed.
    Succeeded,
    /// SSH works but passwordless `sudo -n` failed, with this standard error.
    SudoFailed(String),
    /// The command ran and failed, with this standard error.
    Failed(String),
    /// The node could not be reached, with this error text.
    Unreachable(String),
}

/// The status and message a probe outcome gives.
pub open spec fn probe_result(o: ProbeOutcome) -> (NodeStatus, Option<Seq<char>>) {
    match o {
        ProbeOutcome::Succeeded => (NodeStatus::Online, None),
        ProbeOutcome::SudoFailed(err) => (NodeStatus::Error, Some("Passwordless sudo failed: "@ + err@)),
        ProbeOutcome::Failed(err) => (NodeStatus::Error, Some("Command failed: "@ + err@)),
        ProbeOutcome::Unreachable(err) => (NodeStatus::Offline, Some(err@)),
    }
}

/// Interprets a probe outcome: online when SSH (and `sudo -n` where needed) worked, error
/// with the standard error when the command or `sudo -n` failed, offline with the connection
/// error when the node was unreachable.
pub fn probe_status(outcome: &ProbeOutcome) -> (r: (NodeStatus, Option<String>))
    ensures
        r.0 == probe_result(*outcome).0,
        match r.1 {
            Some(m) => probe_result(*outcome).1 == Some(m@),
            None => probe_result(*outcome).1 is None,
        },
{
    match outcome {
        ProbeOutcome::Succeeded => (NodeStatus::Online, None),
        ProbeOutcome::SudoFailed(err) => {
            let mut m = String::new();
            push_str(&mut m, "Passwordless sudo failed: ");
            push_str(&mut m, err.as_str());
            (NodeStatus::Error, Some(m))
        },
        ProbeOutcome::Failed(err) => {
            let mut m = String::new();
            push_str(&mut m, "Command failed: ");
            push_str(&mut m, err.as_str());
            (NodeStatus::Error, Some(m))
        },
        ProbeOutcome::Unreachable(err) => (NodeStatus::Offline, Some(err.clone())),
    }
}

/// A remote node reached as a user other than root must also pass `sudo -n true`.
pub fn needs_sudo_probe(node: &Node) -> (b: bool)
    ensures
        b == (!node.is_local && node.ssh_user@ != "root"@),
{
    !node.is_local && !str_eq(node.ssh_user.as_str(), "root")
}

/// Response for a node status check.
#[derive(Debug, Clone)]
pub struct NodeStatusResponse {
    pub id: String,
    pub hostname: String,
    pub status: NodeStatus,
    pub message: Option<String>,
}

/// Records the result of a status check on a node and reports it. The local node is always
/// online ("Local node"); another node takes the status of the probe, and its last-seen time
/// moves to `now` only when it answered.
pub fn apply_status_check(node: &mut Node, outcome: &ProbeOutcome, now: i64) -> (r: NodeStatusResponse)
    ensures
        final(node).id == old(node).id,
        final(node).hostname == old(node).hostname,
        final(node).ip == old(node).ip,
        final(node).ssh_port == old(node).ssh_port,
        final(node).ssh_user == old(node).ssh_user,
        final(node).is_local == old(node).is_local,
        old(node).is_local ==> final(node).status == NodeStatus::Online,
        old(node).is_local ==> final(node).last_seen == Some(now),
        old(node).is_local ==> (r.message matches Some(m) && m@ == "Local node"@),
        !old(node).is_local ==> final(node).status == probe_result(*outcome).0
            && final(node).last_seen == (if probe_result(*outcome).0 == NodeStatus::Online {
            Some(now)
        } else {
            old(node).last_seen
        }) && match r.message {
            Some(m) => probe_result(*outcome).1 == Some(m@),
            None => probe_result(*outcome).1 is None,
        },
        r.id == final(node).id,
        r.hostname == final(node).hostname,
        r.status == final(node).status,
{
    if node.is_local {
        node.status = NodeStatus::Online;
        node.last_seen = Some(now);
        return NodeStatusResponse {
            id: node.id.clone(),
            hostname: node.hostname.clone(),
            status: NodeStatus::Online,
            message: Some("Local node".to_owned()),
        };
    }
    let (status, message) = probe_status(outcome);
    node.status = status;
    if status == NodeStatus::Online {
        node.last_seen = Some(now);
    }
    NodeStatusResponse {
        id: node.id.clone(),
        hostname: node.hostname.clone(),
        status,
        message,
    }
}

/// The block-device listing command for a node: `sudo` is needed on a remote node reached
/// as a user other than root.
pub open spec fn spec_lsblk_command(ssh_user: Seq<char>, is_local: bool) -> Seq<char> {
    if ssh_user != "root"@ && !is_local {
        "sudo lsblk -J -b -o NAME,SIZE,TYPE,MOUNTPOINT,FSTYPE,RO,MODEL,PATH"@
    } else {
        "lsblk -J -b -o NAME,SIZE,TYPE,MOUNTPOINT,FSTYPE,RO,MODEL,PATH"@
    }
}

/// The command that lists a node's block devices.
pub fn lsblk_command(node: &Node) -> (c: &'static str)
    ensures
        c@ == spec_lsblk_command(node.ssh_user@, node.is_local),
{
    if !str_eq(node.ssh_user.as_str(), "root") && !node.is_local {
        "sudo lsblk -J -b -o NAME,SIZE,TYPE,MOUNTPOINT,FSTYPE,RO,MODEL,PATH"
    } else {
        "lsblk -J -b -o NAME,SIZE,TYPE,MOUNTPOINT,FSTYPE,RO,MODEL,PATH"
    }
}

// ---------------------------------------------------------------------------
// Merging discovered and stored nodes
// ---------------------------------------------------------------------------

/// Some node of `ns` has this hostname.
pub open spec fn has_hostname(ns: Seq<Node>, h: Seq<char>) -> bool {
    exists|k: int| 0 <= k < ns.len() && #[trigger] ns[k].hostname@ == h
}

/// The nodes of `existing` whose hostname no node of `discovered` has, in order.
pub open spec fn undiscovered(existing: Seq<Node>, discovered: Seq<Node>) -> Seq<Node>
    decreases existing.len(),
{
    if existing.len() == 0 {
        Seq::empty()
    } else {
        undiscovered(existing.drop_last(), discovered) + (if has_hostname(
            discovered,
            existing.last().hostname@,
        ) {
            Seq::empty()
        } else {
            seq![existing.last()]
        })
    }
}

fn has_hostname_exec(ns: &Vec<Node>, h: &String) -> (b: bool)
    ensures
        b == has_hostname(ns@, h@),
{
    let mut i: usize = 0;
    while i < ns.len()
        invariant
            i <= ns.len(),
            forall|k: int| 0 <= k < i ==> #[trigger] ns@[k].hostname@ != h@,
        decreases ns.len() - i,
    {
        if ns[i].hostname == *h {
            return true;
        }
        i = i + 1;
    }
    false
}

/// All nodes after a sync: the nodes discovered in the DRBD resource files, followed by the
/// stored nodes whose hostname was not discovered.
pub fn merge_nodes(discovered: Vec<Node>, existing: Vec<Node>) -> (r: Vec<Node>)
    ensures
        r@ == discovered@ + undiscovered(existing@, discovered@),
{
    let ghost disc = discovered@;
    let mut kept: Vec<Node> = Vec::new();
    let mut i: usize = 0;
    while i < existing.len()
        invariant
            i <= existing.len(),
            disc == discovered@,
            kept@ == undiscovered(existing@.take(i as int), disc),
        decreases existing.len() - i,
    {
        assert(existing@.take(i + 1).drop_last() =~= existing@.take(i as int));
        if !has_hostname_exec(&discovered, &existing[i].hostname) {
            kept.push(copy_node(&existing[i]));
        }
        i = i + 1;
        assert(kept@ =~= undiscovered(existing@.take(i as int), disc));
    }
    assert(existing@.take(existing.len() as int) =~= existing@);
    let mut all = discovered;
    let mut j: usize = 0;
    let ghost base = all@;
    while j < kept.len()
        invariant
            j <= kept.len(),
            base == disc,
            all@ == base + kept@.take(j as int),
        decreases kept.len() - j,
    {
        all.push(copy_node(&kept[j]));
        j = j + 1;
        assert(all@ =~= base + kept@.take(j as int));
    }
    assert(kept@.take(kept.len() as int) =~= kept@);
    all
}

/// Health check response.
#[derive(Debug, Clone)]
pub struct HealthResponse {
    pub status: String,
    pub version: String,
    /// The platform the controller runs on (`linux`, `macos`, `windows`, ...).
    pub platform: String,
    /// The controller mode in effect: `external` or `embedded`.
    pub controller_mode: String,
}

/// The controller mode in effect: the configured one (`external` when none is configured),
/// except that `external` is forced on any platform other than Linux.
pub open spec fn spec_controller_mode(configured: Option<Seq<char>>, platform: Seq<char>) -> Seq<char> {
    if platform != "linux"@ {
        "external"@
    } else {
        match configured {
            Some(m) => if m == "embedded"@ {
                "embedded"@
            } else {
                "external"@
            },
            None => "external"@,
        }
    }
}

/// Decides the controller mode in effect on this platform.
pub fn controller_mode(configured: &Option<String>, platform: &str) -> (m: String)
    ensures
        m@ == spec_controller_mode(crate::profiles::str_opt(*configured), platform@),
{
    if !str_eq(platform, "linux") {
        return "external".to_owned();
    }
    match configured {
        Some(c) => if str_eq(c.as_str(), "embedded") {
            "embedded".to_owned()
        } else {
            "external".to_owned()
        },
        None => "external".to_owned(),
    }
}

/// The health check answer: status `ok`, the running version, the detected platform and the
/// controller mode in effect.
pub fn health_check(version: &str, platform: &str, configured_mode: &Option<String>) -> (r: HealthResponse)
    ensures
        r.status@ == "ok"@,
        r.version@ == version@,
        r.platform@ == platform@,
        r.controller_mode@ == spec_controller_mode(crate::profiles::str_opt(*configured_mode), platform@),
{
    HealthResponse {
        status: "ok".to_owned(),
        version: version.to_owned(),
        platform: platform.to_owned(),
        controller_mode: controller_mode(configured_mode, platform),
    }
}

// ---------------------------------------------------------------------------
// Nodes named in DRBD resource files
// ---------------------------------------------------------------------------

/// A host and the IP address a DRBD resource file gives it.
#[derive(Debug, Clone)]
pub struct ResNodeAddress {
    pub hostname: String,
    pub ip: String,
}

/// `s` without trailing `c` characters.
pub open spec fn trim_end_char(s: Seq<char>, c: char) -> Seq<char>
    decreases s.len(),
{
    if s.len() > 0 && s.last() == c {
        trim_end_char(s.drop_last(), c)
    } else {
        s
    }
}

/// The IP of an `address <ip>:<port>;` line (already trimmed): the text before the first
/// `:`, trimmed; none when there is no `:`.
pub open spec fn address_ip(inner: Seq<char>) -> Option<Seq<char>> {
    let part = trim_end_char(trim(inner.skip("address "@.len() as int)), ';');
    match find(part, ":"@) {
        Some(c) => Some(trim(part.take(c))),
        None => None,
    }
}

/// The address given in an `on` block, looking at lines `j` up to (not including) `limit`:
/// the block ends at a line `}`; the first `address` line decides.
pub open spec fn block_address(ls: Seq<Seq<char>>, j: int, limit: int) -> Option<Seq<char>>
    decreases limit - j,
{
    if j < 0 || j >= ls.len() || j >= limit {
        None
    } else if trim(ls[j]) == "}"@ {
        None
    } else if starts_with(trim(ls[j]), "address "@) {
        address_ip(trim(ls[j]))
    } else {
        block_address(ls, j + 1, limit)
    }
}

/// The host named by an `on <host> {` line.
pub open spec fn node_header(l: Seq<char>) -> Option<Seq<char>> {
    let line = trim(l);
    if starts_with(line, "on "@) && ends_with(line, "{"@) {
        Some(trim(line.subrange(2, line.len() - 1)))
    } else {
        None
    }
}

/// The (host, ip) pairs of the `on` blocks from line `i` on; an `address` line must come
/// within the 19 lines after the `on` line.
pub open spec fn res_nodes_from(ls: Seq<Seq<char>>, i: int) -> Seq<(Seq<char>, Seq<char>)>
    decreases ls.len() - i,
{
    if i < 0 || i >= ls.len() {
        Seq::empty()
    } else {
        (match node_header(ls[i]) {
            Some(h) => match block_address(ls, i + 1, i + 20) {
                Some(ip) => seq![(h, ip)],
                None => Seq::empty(),
            },
            None => Seq::empty(),
        }) + res_nodes_from(ls, i + 1)
    }
}

/// The (host, ip) pairs named in a DRBD resource file, in order.
pub open spec fn res_node_addresses(content: Seq<char>) -> Seq<(Seq<char>, Seq<char>)> {
    res_nodes_from(lines(content), 0)
}

proof fn lemma_block_address_limit(ls: Seq<Seq<char>>, j: int, l1: int, l2: int)
    requires
        l1 >= ls.len(),
        l2 >= ls.len(),
    ensures
        block_address(ls, j, l1) == block_address(ls, j, l2),
    decreases ls.len() - j,
{
    if 0 <= j < ls.len() {
        lemma_block_address_limit(ls, j + 1, l1, l2);
    }
}

pub(crate) fn trim_end_char_exec(v: &Vec<char>, c: char) -> (r: Vec<char>)
    ensures
        r@ == trim_end_char(v@, c),
{
    let mut n = v.len();
    assert(v@.take(n as int) =~= v@);
    while n > 0 && v[n - 1] == c
        invariant
            n <= v.len(),
            trim_end_char(v@, c) == trim_end_char(v@.take(n as int), c),
        decreases n,
    {
        assert(v@.take(n as int).drop_last() =~= v@.take(n - 1));
        n = n - 1;
    }
    let r = slice_chars(v.as_slice(), 0, n);
    assert(r@ =~= v@.take(n as int));
    r
}

fn address_ip_exec(inner: &Vec<char>) -> (r: Option<Vec<char>>)
    requires
        starts_with(inner@, "address "@),
    ensures
        match r {
            Some(ip) => address_ip(inner@) == Some(ip@),
            None => address_ip(inner@) is None,
        },
{
    let prefix = chars_of("address ");
    let rest = slice_chars(inner.as_slice(), prefix.len(), inner.len());
    assert(rest@ =~= inner@.skip("address "@.len() as int));
    let t = trim_exec(rest.as_slice());
    let part = trim_end_char_exec(&t, ';');
    let colon = chars_of(":");
    match find_exec(part.as_slice(), colon.as_slice()) {
        Some(c) => {
            proof {
                crate::text::lemma_find_contains(part@, colon@);
            }
            let head = slice_chars(part.as_slice(), 0, c);
            assert(head@ =~= part@.take(c as int));
            Some(trim_exec(head.as_slice()))
        },
        None => None,
    }
}

fn block_address_exec(ls: &Vec<Vec<char>>, start: usize, limit: usize) -> (r: Option<Vec<char>>)
    ensures
        match r {
            Some(ip) => block_address(views(ls@), start as int, limit as int) == Some(ip@),
            None => block_address(views(ls@), start as int, limit as int) is None,
        },
{
    let ghost v = views(ls@);
    let close = chars_of("}");
    let mut j = start;
    while j < ls.len() && j < limit
        invariant
            start <= j,
            v == views(ls@),
            close@ == "}"@,
            block_address(v, start as int, limit as int) == block_address(v, j as int, limit as int),
        decreases limit - j,
    {
        let inner = trim_exec(ls[j].as_slice());
        if chars_eq(inner.as_slice(), close.as_slice()) {
            return None;
        }
        if starts_with_str(inner.as_slice(), "address ") {
            return address_ip_exec(&inner);
        }
        j = j + 1;
    }
    None
}

/// Extracts the host and IP address of every `on <host> { ... address <ip>:<port>; ... }`
/// block of a DRBD resource file, in order.
pub fn parse_res_node_addresses(content: &str) -> (r: Vec<ResNodeAddress>)
    ensures
        r@.map_values(|a: ResNodeAddress| (a.hostname@, a.ip@)) == res_node_addresses(content@),
{
    let chars = chars_of(content);
    let ls = lines_exec(chars.as_slice());
    let ghost v = views(ls@);
    let mut out: Vec<ResNodeAddress> = Vec::new();
    let mut i: usize = 0;
    while i < ls.len()
        invariant
            i <= ls.len(),
            v == views(ls@),
            v == lines(content@),
            out@.map_values(|a: ResNodeAddress| (a.hostname@, a.ip@)) + res_nodes_from(v, i as int)
                == res_nodes_from(v, 0),
        decreases ls.len() - i,
    {
        let ghost before = out@;
        let line = trim_exec(ls[i].as_slice());
        if starts_with_str(line.as_slice(), "on ") && ends_with_str(line.as_slice(), "{") {
            proof {
                reveal_strlit("on ");
            }
            let name_part = slice_chars(line.as_slice(), 2, line.len() - 1);
            let hostname = trim_exec(name_part.as_slice());
            let limit: usize = if ls.len() - i > 20 { i + 20 } else { ls.len() };
            proof {
                if ls.len() - i <= 20 {
                    lemma_block_address_limit(v, i + 1, limit as int, i + 20);
                }
                assert(hostname@ == node_header(v[i as int])->0);
            }
            match block_address_exec(&ls, i + 1, limit) {
                Some(ip) => {
                    let a = ResNodeAddress {
                        hostname: string_of(hostname.as_slice()),
                        ip: string_of(ip.as_slice()),
                    };
                    out.push(a);
                },
                None => {},
            }
        }
        assert(out@.map_values(|a: ResNodeAddress| (a.hostname@, a.ip@)) + res_nodes_from(v, i + 1)
            =~= before.map_values(|a: ResNodeAddress| (a.hostname@, a.ip@)) + res_nodes_from(v, i as int));
        i = i + 1;
    }
    out
}

/// A file of the DRBD configuration directory that defines a resource.
pub fn is_resource_file(name: &str) -> (b: bool)
    ensures
        b == ends_with(name@, ".res"@),
{
    ends_with_str(chars_of(name).as_slice(), ".res")
}

/// A node named in a resource file, as it is stored: its hostname is its id, it is local when
/// it is this host; a node already stored keeps its SSH login, status and last-seen time,
/// a new one gets the default login and the status its probe gave (online and seen now when
/// `echo ok` answered, unknown otherwise).
pub fn imported_node(
    address: &ResNodeAddress,
    local_hostname: &str,
    stored: Option<&Node>,
    default_port: u16,
    default_user: &str,
    probe_answered: bool,
    now: i64,
) -> (n: Node)
    ensures
        n.id@ == address.hostname@,
        n.hostname@ == address.hostname@,
        n.ip@ == address.ip@,
        n.is_local == (address.hostname@ == local_hostname@),
        match stored {
            Some(s) => n.ssh_port == s.ssh_port && n.ssh_user@ == s.ssh_user@ && n.status == s.status
                && n.last_seen == s.last_seen,
            None => n.ssh_port == default_port && n.ssh_user@ == default_user@ && (if probe_answered {
                n.status == NodeStatus::Online && n.last_seen == Some(now)
            } else {
                n.status == NodeStatus::Unknown && n.last_seen is None
            }),
        },
{
    let (ssh_port, ssh_user, status, last_seen) = match stored {
        Some(s) => (s.ssh_port, s.ssh_user.clone(), s.status, s.last_seen),
        None => {
            if probe_answered {
                (default_port, default_user.to_owned(), NodeStatus::Online, Some(now))
            } else {
                (default_port, default_user.to_owned(), NodeStatus::Unknown, None)
            }
        },
    };
    Node {
        id: address.hostname.clone(),
        hostname: address.hostname.clone(),
        ip: address.ip.clone(),
        ssh_port,
        ssh_user,
        is_local: str_eq(address.hostname.as_str(), local_hostname),
        status,
        last_seen,
    }
}

/// The position of the first node with hostname `h`, looking from `from` on.
pub open spec fn hostname_pos(ns: Seq<Node>, h: Seq<char>, from: int) -> Option<int>
    decreases ns.len() - from,
{
    if from < 0 || from >= ns.len() {
        None
    } else if ns[from].hostname@ == h {
        Some(from)
    } else {
        hostname_pos(ns, h, from + 1)
    }
}

/// No two nodes share a hostname.
pub open spec fn unique_hostnames(ns: Seq<Node>) -> bool {
    forall|i: int, j: int|
        0 <= i < ns.len() && 0 <= j < ns.len() && i != j ==> ns[i].hostname@ != ns[j].hostname@
}

proof fn lemma_hostname_pos(ns: Seq<Node>, h: Seq<char>, from: int)
    requires
        0 <= from,
    ensures
        hostname_pos(ns, h, from) matches Some(k) ==> from <= k < ns.len() && ns[k].hostname@ == h,
        hostname_pos(ns, h, from) is None ==> forall|k: int|
            from <= k < ns.len() ==> ns[k].hostname@ != h,
    decreases ns.len() - from,
{
    if from < ns.len() && ns[from].hostname@ != h {
        lemma_hostname_pos(ns, h, from + 1);
    }
}

/// Records a node read from a resource file among the nodes discovered so far: one node per
/// hostname, a later block replacing the node an earlier one gave.
pub fn record_discovered(discovered: &mut Vec<Node>, node: Node)
    ensures
        match hostname_pos(old(discovered)@, node.hostname@, 0) {
            Some(k) => final(discovered)@ == old(discovered)@.update(k, node),
            None => final(discovered)@ == old(discovered)@.push(node),
        },
{
    let mut i: usize = 0;
    while i < discovered.len()
        invariant
            i <= discovered.len(),
            discovered@ == old(discovered)@,
            hostname_pos(discovered@, node.hostname@, 0) == hostname_pos(discovered@, node.hostname@, i as int),
        decreases discovered.len() - i,
    {
        if discovered[i].hostname == node.hostname {
            discovered.set(i, node);
            return;
        }
        i = i + 1;
    }
    discovered.push(node);
}

/// Recording a discovered node keeps hostnames unique: importing every block of every
/// resource file gives one node per hostname, the last block naming it.
pub proof fn law_discovered_one_per_hostname(before: Seq<Node>, node: Node, after: Seq<Node>)
    requires
        unique_hostnames(before),
        match hostname_pos(before, node.hostname@, 0) {
            Some(k) => after == before.update(k, node),
            None => after == before.push(node),
        },
    ensures
        unique_hostnames(after),
        hostname_pos(after, node.hostname@, 0) matches Some(k) && after[k] == node,
{
    lemma_hostname_pos(before, node.hostname@, 0);
    lemma_hostname_pos(after, node.hostname@, 0);
    match hostname_pos(before, node.hostname@, 0) {
        Some(k) => {
            assert(after[k] == node);
        },
        None => {
            assert(after[before.len() as int] == node);
        },
    }
}


/// The controller runs embedded only on Linux when the configuration asks for `embedded`;
/// on any other platform, and for any other or no configured mode, it is external.
pub proof fn law_controller_mode(configured: Option<Seq<char>>, platform: Seq<char>)
    ensures
        (platform == "linux"@ && configured == Some("embedded"@)) ==> spec_controller_mode(configured, platform)
            == "embedded"@,
        !(platform == "linux"@ && configured == Some("embedded"@)) ==> spec_controller_mode(configured, platform)
            == "external"@,
{
}

} // verus!
