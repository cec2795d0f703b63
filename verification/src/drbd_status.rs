//! Interpretation of `drbdadm status` and `drbd-reactorctl status` output.

use vstd::prelude::*;
use crate::text::{
    chars_eq, chars_of, contains, contains_str, first_with_prefix, first_with_prefix_exec,
    lines, lines_exec, rfind_char, rfind_char_exec, find, find_exec, slice_chars,
    starts_with, starts_with_str, string_of, tokens, tokens_exec, trim, trim_exec, views,
};

verus! {

// ---------------------------------------------------------------------------
// Cluster-wide resource summary
// ---------------------------------------------------------------------------

/// A resource header line: non-empty and not indented.
pub open spec fn is_header(l: Seq<char>) -> bool {
    l.len() > 0 && l[0] != ' '
}

/// An indented line belongs to the block of the header above it.
pub open spec fn is_indented(l: Seq<char>) -> bool {
    l.len() > 0 && l[0] == ' '
}

/// The local disk line reports an unusable disk.
pub open spec fn bad_local_disk(l: Seq<char>) -> bool {
    ||| contains(l, "disk:Inconsistent"@)
    ||| contains(l, "disk:Failed"@)
    ||| contains(l, "disk:Diskless"@)
}

/// A peer line reports a lost connection or an unusable peer disk.
pub open spec fn bad_peer_line(l: Seq<char>) -> bool {
    ||| contains(l, "connection:Connecting"@)
    ||| contains(l, "connection:StandAlone"@)
    ||| contains(l, "peer-disk:Inconsistent"@)
    ||| contains(l, "peer-disk:Failed"@)
    ||| contains(l, "peer-disk:Diskless"@)
}

/// No bad peer line from `j` to the end of the indented block.
pub open spec fn peers_ok(ls: Seq<Seq<char>>, j: int) -> bool
    decreases ls.len() - j,
{
    if j < 0 || j >= ls.len() || !is_indented(ls[j]) {
        true
    } else {
        !bad_peer_line(ls[j]) && peers_ok(ls, j + 1)
    }
}

/// The resource whose header is line `i` is healthy: its local disk line (the next line)
/// is fine and none of the indented lines after that reports a problem.
pub open spec fn resource_healthy(ls: Seq<Seq<char>>, i: int) -> bool {
    !(i + 1 < ls.len() && bad_local_disk(ls[i + 1])) && peers_ok(ls, i + 2)
}

/// Number of resource headers among the first `n` lines.
pub open spec fn count_resources(ls: Seq<Seq<char>>, n: int) -> nat
    decreases n,
{
    if n <= 0 {
        0
    } else {
        count_resources(ls, n - 1) + (if is_header(ls[n - 1]) {
            1nat
        } else {
            0nat
        })
    }
}

/// Number of healthy resources among the headers in the first `n` lines.
pub open spec fn count_healthy(ls: Seq<Seq<char>>, n: int) -> nat
    decreases n,
{
    if n <= 0 {
        0
    } else {
        count_healthy(ls, n - 1) + (if is_header(ls[n - 1]) && resource_healthy(ls, n - 1) {
            1nat
        } else {
            0nat
        })
    }
}

/// There are never more healthy resources than resources.
pub proof fn lemma_healthy_le_total(ls: Seq<Seq<char>>, n: int)
    ensures
        count_healthy(ls, n) <= count_resources(ls, n),
    decreases n,
{
    if n > 0 {
        lemma_healthy_le_total(ls, n - 1);
    }
}

/// `(total, healthy, degraded)` resource counts of a `drbdadm status` listing.
pub open spec fn drbd_summary(output: Seq<char>) -> (nat, nat, nat) {
    let ls = lines(output);
    let total = count_resources(ls, ls.len() as int);
    let healthy = count_healthy(ls, ls.len() as int);
    (total, healthy, (total - healthy) as nat)
}

fn is_indented_exec(l: &Vec<char>) -> (b: bool)
    ensures
        b == is_indented(l@),
{
    l.len() > 0 && l[0] == ' '
}

fn bad_local_disk_exec(l: &Vec<char>) -> (b: bool)
    ensures
        b == bad_local_disk(l@),
{
    contains_str(l.as_slice(), "disk:Inconsistent") || contains_str(l.as_slice(), "disk:Failed")
        || contains_str(l.as_slice(), "disk:Diskless")
}

fn bad_peer_line_exec(l: &Vec<char>) -> (b: bool)
    ensures
        b == bad_peer_line(l@),
{
    contains_str(l.as_slice(), "connection:Connecting") || contains_str(
        l.as_slice(),
        "connection:StandAlone",
    ) || contains_str(l.as_slice(), "peer-disk:Inconsistent") || contains_str(
        l.as_slice(),
        "peer-disk:Failed",
    ) || contains_str(l.as_slice(), "peer-disk:Diskless")
}

fn resource_healthy_exec(ls: &Vec<Vec<char>>, i: usize) -> (b: bool)
    requires
        i < ls.len(),
    ensures
        b == resource_healthy(views(ls@), i as int),
{
    let ghost v = views(ls@);
    let mut healthy = true;
    if i + 1 < ls.len() && bad_local_disk_exec(&ls[i + 1]) {
        healthy = false;
    }
    let mut j = if i + 1 < ls.len() { i + 2 } else { ls.len() };
    while j < ls.len() && is_indented_exec(&ls[j])
        invariant
            i + 2 <= j || j == ls.len(),
            v == views(ls@),
            (!(i + 1 < v.len() && bad_local_disk(v[i + 1])) && peers_ok(v, i + 2)) == (healthy
                && peers_ok(v, j as int)),
        decreases ls.len() - j,
    {
        if bad_peer_line_exec(&ls[j]) {
            healthy = false;
        }
        j = j + 1;
    }
    healthy
}

/// Counts the resources of a `drbdadm status` listing and how many of them are healthy or
/// degraded. A resource is degraded when its local disk is inconsistent, failed or diskless,
/// or when a peer line reports a connecting or stand-alone connection or an inconsistent,
/// failed or diskless peer disk.
pub fn parse_drbd_summary(output: &str) -> (r: (usize, usize, usize))
    ensures
        r.0 as nat == drbd_summary(output@).0,
        r.1 as nat == drbd_summary(output@).1,
        r.2 as nat == drbd_summary(output@).2,
        r.0 == r.1 + r.2,
{
    let chars = chars_of(output);
    let ls = lines_exec(chars.as_slice());
    let ghost v = views(ls@);
    let mut total: usize = 0;
    let mut healthy: usize = 0;
    let mut i: usize = 0;
    while i < ls.len()
        invariant
            i <= ls.len(),
            v == views(ls@),
            v == lines(output@),
            total as nat == count_resources(v, i as int),
            healthy as nat == count_healthy(v, i as int),
            total <= i,
            healthy <= total,
        decreases ls.len() - i,
    {
        let l = &ls[i];
        if l.len() > 0 && l[0] != ' ' {
            total = total + 1;
            if resource_healthy_exec(&ls, i) {
                healthy = healthy + 1;
            }
        }
        i = i + 1;
    }
    (total, healthy, total - healthy)
}

/// Overall cluster health shown on the dashboard.
#[derive(Debug, Clone, Copy, PartialEq, Eq, Structural)]
pub enum ClusterHealth {
    Healthy,
    Warning,
    Critical,
}

/// Healthy when nothing is offline, failed or degraded; otherwise critical when more than
/// half of the nodes are offline, else a warning.
pub open spec fn spec_cluster_health(
    total_nodes: nat,
    offline_nodes: nat,
    error_services: nat,
    degraded_resources: nat,
) -> ClusterHealth {
    if offline_nodes > 0 || error_services > 0 || degraded_resources > 0 {
        if offline_nodes > total_nodes / 2 {
            ClusterHealth::Critical
        } else {
            ClusterHealth::Warning
        }
    } else {
        ClusterHealth::Healthy
    }
}

/// Determines the cluster health from node, service and resource counts.
pub fn cluster_health(
    total_nodes: usize,
    offline_nodes: usize,
    error_services: usize,
    degraded_resources: usize,
) -> (h: ClusterHealth)
    ensures
        h == spec_cluster_health(
            total_nodes as nat,
            offline_nodes as nat,
            error_services as nat,
            degraded_resources as nat,
        ),
{
    if offline_nodes > 0 || error_services > 0 || degraded_resources > 0 {
        if offline_nodes > total_nodes / 2 {
            ClusterHealth::Critical
        } else {
            ClusterHealth::Warning
        }
    } else {
        ClusterHealth::Healthy
    }
}

// ---------------------------------------------------------------------------
// Status of one resource
// ---------------------------------------------------------------------------

/// Detailed DRBD resource status.
#[derive(Debug, Clone)]
pub struct DrbdResourceStatus {
    /// Resource name.
    pub resource: String,
    /// Local role (Primary/Secondary).
    pub role: String,
    /// Local disk state (UpToDate/Inconsistent/DUnknown etc).
    pub disk: String,
    /// Whether the device is open (mounted).
    pub open: bool,
    /// Peer node statuses.
    pub peers: Vec<DrbdPeerStatus>,
}

/// Status of a DRBD peer node.
#[derive(Debug, Clone)]
pub struct DrbdPeerStatus {
    /// Peer hostname.
    pub name: String,
    /// Peer role (Primary/Secondary).
    pub role: String,
    /// Peer disk state.
    pub peer_disk: String,
    /// Connection state (Connected/Connecting etc).
    pub connection: Option<String>,
    /// Replication state (Established/SyncSource/SyncTarget etc).
    pub replication: Option<String>,
}

/// The text of an optional string.
pub open spec fn opt_view(o: Option<String>) -> Option<Seq<char>> {
    match o {
        Some(s) => Some(s@),
        None => None,
    }
}

/// A peer status as (name, role, peer disk, connection, replication).
pub open spec fn peer_view(p: DrbdPeerStatus) -> (Seq<char>, Seq<char>, Seq<char>, Option<Seq<char>>, Option<Seq<char>>) {
    (p.name@, p.role@, p.peer_disk@, opt_view(p.connection), opt_view(p.replication))
}

/// A resource status as (resource, role, disk, open, peers).
pub open spec fn resource_status_view(r: DrbdResourceStatus) -> (Seq<char>, Seq<char>, Seq<char>, bool, Seq<(Seq<char>, Seq<char>, Seq<char>, Option<Seq<char>>, Option<Seq<char>>)>) {
    (r.resource@, r.role@, r.disk@, r.open, r.peers@.map_values(|p: DrbdPeerStatus| peer_view(p)))
}

/// Leading empty lines are skipped.
pub open spec fn skip_blank_lines(ls: Seq<Seq<char>>) -> Seq<Seq<char>>
    decreases ls.len(),
{
    if ls.len() > 0 && ls[0].len() == 0 {
        skip_blank_lines(ls.drop_first())
    } else {
        ls
    }
}

/// A found value, or "Unknown".
pub open spec fn or_unknown(o: Option<Seq<char>>) -> Seq<char> {
    match o {
        Some(v) => v,
        None => "Unknown"@,
    }
}

/// The peer disk state on line `k`, when that line starts with `peer-disk:`.
pub open spec fn peer_disk_at(ls: Seq<Seq<char>>, k: int) -> Seq<char> {
    if 0 <= k < ls.len() && starts_with(trim(ls[k]), "peer-disk:"@) {
        or_unknown(first_with_prefix(tokens(trim(ls[k])), "peer-disk:"@))
    } else {
        "Unknown"@
    }
}

/// The peer described on line `i`, if that line names a peer: it is not a `disk:` or
/// `peer-disk:` line, not blank, and its first word holds no `:`.
pub open spec fn peer_at(ls: Seq<Seq<char>>, i: int) -> Option<(Seq<char>, Seq<char>, Seq<char>, Option<Seq<char>>, Option<Seq<char>>)> {
    let line = trim(ls[i]);
    let parts = tokens(line);
    if starts_with(line, "peer-disk:"@) || line.len() == 0 || starts_with(line, "disk:"@)
        || parts.len() == 0 || contains(parts[0], ":"@) {
        None
    } else {
        Some(
            (
                parts[0],
                or_unknown(first_with_prefix(parts, "role:"@)),
                peer_disk_at(ls, i + 1),
                first_with_prefix(parts, "connection:"@),
                first_with_prefix(parts, "replication:"@),
            ),
        )
    }
}

/// The peers named on lines `i` onwards, in order.
pub open spec fn peers_from(ls: Seq<Seq<char>>, i: int) -> Seq<(Seq<char>, Seq<char>, Seq<char>, Option<Seq<char>>, Option<Seq<char>>)>
    decreases ls.len() - i,
{
    if i < 0 || i >= ls.len() {
        Seq::empty()
    } else {
        (match peer_at(ls, i) {
            Some(p) => seq![p],
            None => Seq::empty(),
        }) + peers_from(ls, i + 1)
    }
}

/// The status of `resource_name` read from `drbdadm status <resource>` output: leading blank
/// lines are skipped; the first line must begin with the resource name and gives the role,
/// the second line gives the disk state and whether the device is open, later lines name
/// the peers.
pub open spec fn drbdadm_status(output: Seq<char>, resource_name: Seq<char>) -> Option<(Seq<char>, Seq<char>, Seq<char>, bool, Seq<(Seq<char>, Seq<char>, Seq<char>, Option<Seq<char>>, Option<Seq<char>>)>)> {
    let ls = skip_blank_lines(lines(output));
    if ls.len() == 0 || !starts_with(ls[0], resource_name) {
        None
    } else {
        let role = or_unknown(first_with_prefix(tokens(ls[0]), "role:"@));
        let disk = if ls.len() > 1 {
            or_unknown(first_with_prefix(tokens(trim(ls[1])), "disk:"@))
        } else {
            "Unknown"@
        };
        let open = ls.len() > 1 && first_with_prefix(tokens(trim(ls[1])), "open:"@) == Some("yes"@);
        Some((resource_name, role, disk, open, peers_from(ls, 2)))
    }
}

fn or_unknown_exec(o: Option<Vec<char>>) -> (s: String)
    ensures
        s@ == or_unknown(match o {
            Some(v) => Some(v@),
            None => None,
        }),
{
    match o {
        Some(v) => string_of(v.as_slice()),
        None => "Unknown".to_owned(),
    }
}

fn opt_string(o: Option<Vec<char>>) -> (r: Option<String>)
    ensures
        opt_view(r) == match o {
            Some(v) => Some(v@),
            None => None,
        },
{
    match o {
        Some(v) => Some(string_of(v.as_slice())),
        None => None,
    }
}

fn peer_disk_at_exec(ls: &Vec<Vec<char>>, k: usize) -> (s: String)
    ensures
        s@ == peer_disk_at(views(ls@), k as int),
{
    if k < ls.len() {
        let t = trim_exec(ls[k].as_slice());
        if starts_with_str(t.as_slice(), "peer-disk:") {
            let toks = tokens_exec(t.as_slice());
            return or_unknown_exec(first_with_prefix_exec(&toks, "peer-disk:"));
        }
    }
    "Unknown".to_owned()
}

fn peer_at_exec(ls: &Vec<Vec<char>>, i: usize) -> (r: Option<DrbdPeerStatus>)
    requires
        i < ls.len(),
    ensures
        match r {
            Some(p) => peer_at(views(ls@), i as int) == Some(peer_view(p)),
            None => peer_at(views(ls@), i as int) is None,
        },
{
    let line = trim_exec(ls[i].as_slice());
    let parts = tokens_exec(line.as_slice());
    if starts_with_str(line.as_slice(), "peer-disk:") || line.len() == 0 || starts_with_str(
        line.as_slice(),
        "disk:",
    ) || parts.len() == 0 {
        return None;
    }
    if contains_str(parts[0].as_slice(), ":") {
        return None;
    }
    let name = string_of(parts[0].as_slice());
    let role = or_unknown_exec(first_with_prefix_exec(&parts, "role:"));
    let peer_disk = if i + 1 < ls.len() {
        peer_disk_at_exec(ls, i + 1)
    } else {
        "Unknown".to_owned()
    };
    let connection = opt_string(first_with_prefix_exec(&parts, "connection:"));
    let replication = opt_string(first_with_prefix_exec(&parts, "replication:"));
    Some(DrbdPeerStatus { name, role, peer_disk, connection, replication })
}

/// Parses `drbdadm status` output for one resource into a structured status.
pub fn parse_drbdadm_status(output: &str, resource_name: &str) -> (r: Option<DrbdResourceStatus>)
    ensures
        match r {
            Some(st) => drbdadm_status(output@, resource_name@) == Some(resource_status_view(st)),
            None => drbdadm_status(output@, resource_name@) is None,
        },
{
    let chars = chars_of(output);
    let all = lines_exec(chars.as_slice());
    let mut first: usize = 0;
    assert(views(all@).skip(0) =~= views(all@));
    while first < all.len() && all[first].len() == 0
        invariant
            first <= all.len(),
            skip_blank_lines(views(all@)) == skip_blank_lines(views(all@).skip(first as int)),
        decreases all.len() - first,
    {
        assert(views(all@).skip(first as int).drop_first() =~= views(all@).skip(first + 1));
        first = first + 1;
    }
    let ls = slice_lines(&all, first);
    assert(views(ls@) == skip_blank_lines(lines(output@)));
    let ghost v = views(ls@);
    if ls.len() == 0 {
        return None;
    }
    if !starts_with_str(ls[0].as_slice(), resource_name) {
        return None;
    }
    let head_tokens = tokens_exec(ls[0].as_slice());
    let role = or_unknown_exec(first_with_prefix_exec(&head_tokens, "role:"));
    let mut disk = "Unknown".to_owned();
    let mut open = false;
    if ls.len() > 1 {
        let t = trim_exec(ls[1].as_slice());
        let toks = tokens_exec(t.as_slice());
        disk = or_unknown_exec(first_with_prefix_exec(&toks, "disk:"));
        open = match first_with_prefix_exec(&toks, "open:") {
            Some(o) => {
                let yes = chars_of("yes");
                chars_eq(o.as_slice(), yes.as_slice())
            },
            None => false,
        };
    }
    let mut peers: Vec<DrbdPeerStatus> = Vec::new();
    let mut i: usize = 2;
    while i < ls.len()
        invariant
            2 <= i,
            v == views(ls@),
            peers@.map_values(|p: DrbdPeerStatus| peer_view(p)) + peers_from(v, i as int)
                == peers_from(v, 2),
        decreases ls.len() - i,
    {
        let ghost before = peers@;
        match peer_at_exec(&ls, i) {
            Some(p) => {
                peers.push(p);
                assert(peers@.map_values(|p: DrbdPeerStatus| peer_view(p)) =~= before.map_values(
                    |p: DrbdPeerStatus| peer_view(p),
                ).push(peer_view(p)));
            },
            None => {},
        }
        assert(peers@.map_values(|p: DrbdPeerStatus| peer_view(p)) + peers_from(v, i + 1)
            =~= before.map_values(|p: DrbdPeerStatus| peer_view(p)) + peers_from(v, i as int));
        i = i + 1;
    }
    assert(peers@.map_values(|p: DrbdPeerStatus| peer_view(p)) =~= peers_from(v, 2));
    let resource = resource_name.to_owned();
    let st = DrbdResourceStatus { resource, role, disk, open, peers };
    assert(resource_status_view(st) == drbdadm_status(output@, resource_name@)->0);
    Some(st)
}

/// The lines of `all` from position `from` on.
fn slice_lines(all: &Vec<Vec<char>>, from: usize) -> (r: Vec<Vec<char>>)
    requires
        from <= all.len(),
    ensures
        views(r@) == views(all@).skip(from as int),
{
    let mut r: Vec<Vec<char>> = Vec::new();
    let mut i = from;
    while i < all.len()
        invariant
            from <= i <= all.len(),
            views(r@) =~= views(all@).subrange(from as int, i as int),
        decreases all.len() - i,
    {
        let ghost before = r@;
        let l = slice_chars(all[i].as_slice(), 0, all[i].len());
        assert(l@ =~= all[i as int]@);
        r.push(l);
        assert(views(r@) =~= views(before).push(l@));
        i = i + 1;
    }
    r
}

// ---------------------------------------------------------------------------
// Active node of a profile
// ---------------------------------------------------------------------------

/// The first line containing `n`.
pub open spec fn first_line_containing(ls: Seq<Seq<char>>, n: Seq<char>) -> Option<Seq<char>>
    decreases ls.len(),
{
    if ls.len() == 0 {
        None
    } else if contains(ls[0], n) {
        Some(ls[0])
    } else {
        first_line_containing(ls.drop_first(), n)
    }
}

/// The node on which a profile is active, read from `drbd-reactorctl status <profile>`
/// output: the first line mentioning "Currently active" decides; "on this node" means the
/// local host, "on node" names the node between the first and the last single quote.
pub open spec fn active_node(output: Seq<char>, local_hostname: Seq<char>) -> Option<Seq<char>> {
    match first_line_containing(lines(output), "Currently active"@) {
        None => None,
        Some(l) => if contains(l, "Currently active on this node"@) {
            Some(local_hostname)
        } else if contains(l, "Currently active on node"@) {
            match (find(l, seq!['\'']), rfind_char(l, '\'')) {
                (Some(a), Some(b)) => if a < b {
                    Some(l.subrange(a + 1, b))
                } else {
                    None
                },
                _ => None,
            }
        } else {
            None
        },
    }
}

/// Reads the active node of a profile from `drbd-reactorctl status` output.
pub fn parse_active_node(output: &str, local_hostname: &str) -> (r: Option<String>)
    ensures
        opt_view(r) == active_node(output@, local_hostname@),
{
    let chars = chars_of(output);
    let ls = lines_exec(chars.as_slice());
    let ghost v = views(ls@);
    let mut i: usize = 0;
    assert(v.skip(0) =~= v);
    while i < ls.len()
        invariant
            i <= ls.len(),
            v == views(ls@),
            v == lines(output@),
            first_line_containing(v, "Currently active"@) == first_line_containing(
                v.skip(i as int),
                "Currently active"@,
            ),
        decreases ls.len() - i,
    {
        let l = &ls[i];
        assert(v.skip(i as int)[0] == l@);
        if contains_str(l.as_slice(), "Currently active") {
            if contains_str(l.as_slice(), "Currently active on this node") {
                return Some(local_hostname.to_owned());
            } else if contains_str(l.as_slice(), "Currently active on node") {
                let quote = vec!['\''];
                assert(quote@ =~= seq!['\'']);
                let a = find_exec(l.as_slice(), quote.as_slice());
                let b = rfind_char_exec(l.as_slice(), '\'');
                match (a, b) {
                    (Some(a), Some(b)) => {
                        if a < b {
                            proof {
                                crate::text::lemma_find_contains(l@, quote@);
                                crate::text::lemma_rfind_char(l@, '\'');
                            }
                            let name = slice_chars(l.as_slice(), a + 1, b);
                            return Some(string_of(name.as_slice()));
                        }
                        return None;
                    },
                    _ => {
                        return None;
                    },
                }
            } else {
                return None;
            }
        }
        assert(v.skip(i as int).drop_first() =~= v.skip(i + 1));
        i = i + 1;
    }
    None
}

// ---------------------------------------------------------------------------
// Laws of the resource summary
// ---------------------------------------------------------------------------

/// A peer line names a lost or pending connection, or an unusable peer disk.
pub open spec fn names_peer_problem(l: Seq<char>) -> bool {
    ||| contains(l, "connection:StandAlone"@)
    ||| contains(l, "connection:Connecting"@)
    ||| contains(l, "peer-disk:Inconsistent"@)
    ||| contains(l, "peer-disk:Failed"@)
    ||| contains(l, "peer-disk:Diskless"@)
}

/// A line names an unusable disk of any kind.
pub open spec fn names_disk_problem(l: Seq<char>) -> bool {
    ||| contains(l, "disk:Inconsistent"@)
    ||| contains(l, "disk:Failed"@)
    ||| contains(l, "disk:Diskless"@)
}

proof fn lemma_peer_problem_found(ls: Seq<Seq<char>>, k: int, j: int)
    requires
        0 <= k <= j < ls.len(),
        forall|m: int| k <= m <= j ==> is_indented(#[trigger] ls[m]),
        names_peer_problem(ls[j]),
    ensures
        !peers_ok(ls, k),
    decreases j - k,
{
    if k < j {
        lemma_peer_problem_found(ls, k + 1, j);
    }
}

proof fn lemma_no_problem_peers(ls: Seq<Seq<char>>, k: int)
    requires
        forall|m: int| 0 <= m < ls.len() ==> !names_peer_problem(#[trigger] ls[m]),
    ensures
        peers_ok(ls, k),
    decreases ls.len() - k,
{
    if 0 <= k < ls.len() && is_indented(ls[k]) {
        lemma_no_problem_peers(ls, k + 1);
    }
}

proof fn lemma_degraded_counted(ls: Seq<Seq<char>>, i: int, n: int)
    requires
        0 <= i < n <= ls.len(),
        is_header(ls[i]),
        !resource_healthy(ls, i),
    ensures
        count_healthy(ls, n) + 1 <= count_resources(ls, n),
    decreases n,
{
    if n - 1 > i {
        lemma_degraded_counted(ls, i, n - 1);
    } else {
        lemma_healthy_le_total(ls, n - 1);
    }
}

proof fn lemma_all_healthy_counted(ls: Seq<Seq<char>>, n: int)
    requires
        0 <= n <= ls.len(),
        forall|i: int| 0 <= i < ls.len() && is_header(ls[i]) ==> resource_healthy(ls, i),
    ensures
        count_healthy(ls, n) == count_resources(ls, n),
    decreases n,
{
    if n > 0 {
        lemma_all_healthy_counted(ls, n - 1);
    }
}

/// A resource whose block has a peer line reporting a stand-alone or connecting connection,
/// or an inconsistent, failed or diskless peer disk, is counted degraded: the listing then
/// has at least one degraded resource and fewer healthy resources than resources.
pub proof fn law_peer_problem_degrades(output: Seq<char>, i: int, j: int)
    requires
        0 <= i,
        i + 2 <= j < lines(output).len(),
        is_header(lines(output)[i]),
        forall|m: int| i + 2 <= m <= j ==> is_indented(#[trigger] lines(output)[m]),
        names_peer_problem(lines(output)[j]),
    ensures
        drbd_summary(output).2 >= 1,
        drbd_summary(output).1 < drbd_summary(output).0,
{
    let ls = lines(output);
    lemma_peer_problem_found(ls, i + 2, j);
    assert(!resource_healthy(ls, i));
    lemma_degraded_counted(ls, i, ls.len() as int);
}

/// A resource whose local disk line (the line after its header) reports an inconsistent,
/// failed or diskless disk is counted degraded.
pub proof fn law_local_disk_problem_degrades(output: Seq<char>, i: int)
    requires
        0 <= i,
        i + 1 < lines(output).len(),
        is_header(lines(output)[i]),
        names_disk_problem(lines(output)[i + 1]),
    ensures
        drbd_summary(output).2 >= 1,
        drbd_summary(output).1 < drbd_summary(output).0,
{
    let ls = lines(output);
    assert(!resource_healthy(ls, i));
    lemma_degraded_counted(ls, i, ls.len() as int);
}

/// A listing in which no line reports a disk or connection problem has every resource
/// healthy and none degraded.
pub proof fn law_clean_listing_is_healthy(output: Seq<char>)
    requires
        forall|m: int| 0 <= m < lines(output).len() ==> !names_peer_problem(#[trigger] lines(output)[m])
            && !names_disk_problem(lines(output)[m]),
    ensures
        drbd_summary(output).1 == drbd_summary(output).0,
        drbd_summary(output).2 == 0,
{
    let ls = lines(output);
    assert forall|i: int| 0 <= i < ls.len() && is_header(ls[i]) implies resource_healthy(ls, i) by {
        lemma_no_problem_peers(ls, i + 2);
        if i + 1 < ls.len() {
            assert(!names_disk_problem(ls[i + 1]));
        }
    }
    lemma_all_healthy_counted(ls, ls.len() as int);
}


/// The cluster is healthy exactly when no node is offline, no service failed and no
/// resource is degraded; otherwise it is critical when more than half of the nodes are
/// offline, and a warning when at most half are.
pub proof fn law_cluster_health(total: nat, offline: nat, errors: nat, degraded: nat)
    ensures
        (offline == 0 && errors == 0 && degraded == 0) <==> spec_cluster_health(total, offline, errors, degraded)
            == ClusterHealth::Healthy,
        2 * offline > total ==> spec_cluster_health(total, offline, errors, degraded) == ClusterHealth::Critical,
        (offline + errors + degraded > 0 && 2 * offline <= total) ==> spec_cluster_health(total, offline, errors, degraded)
            == ClusterHealth::Warning,
{
}


proof fn lemma_first_line_at(ls: Seq<Seq<char>>, n: Seq<char>, k: int)
    requires
        0 <= k < ls.len(),
        contains(ls[k], n),
        forall|j: int| 0 <= j < k ==> !contains(#[trigger] ls[j], n),
    ensures
        first_line_containing(ls, n) == Some(ls[k]),
    decreases k,
{
    if k > 0 {
        let rest = ls.drop_first();
        assert forall|j: int| 0 <= j < k - 1 implies !contains(#[trigger] rest[j], n) by {
            assert(rest[j] == ls[j + 1]);
        }
        assert(!contains(ls[0], n));
        lemma_first_line_at(rest, n, k - 1);
    }
}

proof fn lemma_first_line_none(ls: Seq<Seq<char>>, n: Seq<char>)
    requires
        forall|j: int| 0 <= j < ls.len() ==> !contains(#[trigger] ls[j], n),
    ensures
        first_line_containing(ls, n) is None,
    decreases ls.len(),
{
    if ls.len() > 0 {
        let rest = ls.drop_first();
        assert forall|j: int| 0 <= j < rest.len() implies !contains(#[trigger] rest[j], n) by {
            assert(rest[j] == ls[j + 1]);
        }
        lemma_first_line_none(rest, n);
    }
}

/// drbd-reactor's status names no active node when no line says "Currently active"; when
/// the first line that does says "Currently active on this node", the active node is the
/// local host, whatever later lines say.
pub proof fn law_active_node(output: Seq<char>, local: Seq<char>, k: int)
    ensures
        (forall|j: int| 0 <= j < lines(output).len() ==> !contains(#[trigger] lines(output)[j], "Currently active"@))
            ==> active_node(output, local) is None,
        (0 <= k < lines(output).len() && contains(lines(output)[k], "Currently active on this node"@) && forall|j: int|
            0 <= j < k ==> !contains(#[trigger] lines(output)[j], "Currently active"@)) ==> active_node(output, local)
            == Some(local),
{
    let ls = lines(output);
    if forall|j: int| 0 <= j < ls.len() ==> !contains(#[trigger] ls[j], "Currently active"@) {
        lemma_first_line_none(ls, "Currently active"@);
    }
    if 0 <= k < ls.len() && contains(ls[k], "Currently active on this node"@) && forall|j: int|
        0 <= j < k ==> !contains(#[trigger] ls[j], "Currently active"@) {
        reveal_strlit("Currently active on this node");
        reveal_strlit("Currently active");
        let l = ls[k];
        let i = choose|i: int| crate::text::match_at(l, "Currently active on this node"@, i);
        assert(crate::text::match_at(l, "Currently active"@, i)) by {
            assert(l.subrange(i, i + 16) =~= l.subrange(i, i + 29).subrange(0, 16));
            assert("Currently active on this node"@.subrange(0, 16) =~= "Currently active"@);
        }
        lemma_first_line_at(ls, "Currently active"@, k);
    }
}

} // verus!
