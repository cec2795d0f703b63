//! HA profile operations: the commands the controller runs and the answers it gives for
//! drbd-reactor logs, reloads, evictions, imports, VIP changes, TOML edits and profile
//! cleanup.

use vstd::prelude::*;
use crate::nodes::{AppError, Node, NodeStatus};
use crate::text::{
    contains, chars_of, decimal, lines, lines_exec, push_decimal, push_str, str_eq, string_of,
    views,
};

verus! {

// ---------------------------------------------------------------------------
// drbd-reactor logs
// ---------------------------------------------------------------------------

/// Number of log lines returned when none is requested.
pub fn default_reactor_log_lines() -> (n: u32)
    ensures
        n == 100,
{
    100
}

/// Query parameters for reactor log retrieval.
#[derive(Debug, Clone)]
pub struct ReactorLogsQuery {
    /// Number of lines to retrieve (default 100, at most 1000 are returned).
    pub lines: u32,
    /// Only logs since this time (e.g. "1h", "30m", "2024-01-15").
    pub since: Option<String>,
}

/// Response for reactor logs.
#[derive(Debug, Clone)]
pub struct ReactorLogsResponse {
    pub service: String,
    pub lines: Vec<String>,
    pub total_lines: usize,
}

/// What `char::is_alphanumeric` answers for `c`.
pub uninterp spec fn char_alphanumeric(c: char) -> bool;

/// `char::is_alphanumeric`: whether `c` is alphabetic or numeric in Unicode. Its answer is
/// named, not stated.
#[verifier::external_body]
fn is_alphanumeric(c: char) -> (b: bool)
    ensures
        b == char_alphanumeric(c),
{
    c.is_alphanumeric()
}

/// A character allowed in a `--since` filter.
pub open spec fn since_char_ok(c: char) -> bool {
    char_alphanumeric(c) || c == '-' || c == ':' || c == ' '
}

/// Every character of `s` is allowed in a `--since` filter.
pub open spec fn since_ok(s: Seq<char>) -> bool {
    forall|i: int| 0 <= i < s.len() ==> #[trigger] since_char_ok(s[i])
}

/// The number of lines actually requested: at most 1000.
pub open spec fn capped_lines(n: u32) -> u32 {
    if n < 1000 {
        n
    } else {
        1000
    }
}

/// The `journalctl` command for a log query; a `--since` filter is added only when it holds
/// nothing but alphanumeric characters, `-`, `:` and spaces.
pub open spec fn spec_reactor_logs_command(lines_wanted: u32, since: Option<Seq<char>>) -> Seq<char> {
    "journalctl -u drbd-reactor.service -n "@ + decimal(capped_lines(lines_wanted) as nat)
        + " --no-pager"@ + match since {
        Some(s) => if since_ok(s) {
            " --since '"@ + s + "'"@
        } else {
            Seq::empty()
        },
        None => Seq::empty(),
    }
}

fn since_ok_exec(s: &str) -> (b: bool)
    ensures
        b == since_ok(s@),
{
    let v = chars_of(s);
    let mut i: usize = 0;
    while i < v.len()
        invariant
            i <= v.len(),
            v@ == s@,
            forall|k: int| 0 <= k < i ==> #[trigger] since_char_ok(v@[k]),
        decreases v.len() - i,
    {
        let c = v[i];
        if !(is_alphanumeric(c) || c == '-' || c == ':' || c == ' ') {
            assert(!since_char_ok(v@[i as int]));
            return false;
        }
        i = i + 1;
    }
    true
}

/// Builds the `journalctl` command for a reactor log query.
pub fn reactor_logs_command(query: &ReactorLogsQuery) -> (cmd: String)
    ensures
        cmd@ == spec_reactor_logs_command(
            query.lines,
            match query.since {
                Some(s) => Some(s@),
                None => None,
            },
        ),
{
    let n = if query.lines < 1000 {
        query.lines
    } else {
        1000
    };
    let mut cmd = String::new();
    push_str(&mut cmd, "journalctl -u drbd-reactor.service -n ");
    push_decimal(&mut cmd, n as u64);
    push_str(&mut cmd, " --no-pager");
    let ghost head = cmd@;
    match &query.since {
        Some(s) => {
            if since_ok_exec(s.as_str()) {
                push_str(&mut cmd, " --since '");
                push_str(&mut cmd, s.as_str());
                push_str(&mut cmd, "'");
            }
        },
        None => {},
    }
    assert(cmd@ =~= spec_reactor_logs_command(
        query.lines,
        match query.since {
            Some(s) => Some(s@),
            None => None,
        },
    ));
    cmd
}

/// The reactor log response for `journalctl` output: its lines, and how many there are.
pub fn reactor_logs_response(stdout: &str) -> (r: ReactorLogsResponse)
    ensures
        r.service@ == "drbd-reactor.service"@,
        r.lines@.map_values(|l: String| l@) == lines(stdout@),
        r.total_lines == r.lines@.len(),
{
    let chars = chars_of(stdout);
    let ls = lines_exec(chars.as_slice());
    let mut out: Vec<String> = Vec::new();
    let mut i: usize = 0;
    while i < ls.len()
        invariant
            i <= ls.len(),
            views(ls@) == lines(stdout@),
            out@.map_values(|l: String| l@) == views(ls@).take(i as int),
        decreases ls.len() - i,
    {
        let ghost before = out@;
        let l = string_of(ls[i].as_slice());
        assert(l@ == views(ls@)[i as int]);
        out.push(l);
        assert(out@.map_values(|l: String| l@) =~= before.map_values(|l: String| l@).push(l@));
        i = i + 1;
        assert(out@.map_values(|l: String| l@) =~= views(ls@).take(i as int));
    }
    assert(views(ls@).take(ls.len() as int) =~= views(ls@));
    let total = out.len();
    ReactorLogsResponse { service: "drbd-reactor.service".to_owned(), lines: out, total_lines: total }
}

// ---------------------------------------------------------------------------
// Reloading drbd-reactor
// ---------------------------------------------------------------------------

/// Query parameters for service listing.
#[derive(Debug, Clone)]
pub struct ListServicesQuery {
    /// Include system services (default: false).
    pub include_system: bool,
}

/// Request for a reactor reload.
#[derive(Debug, Clone)]
pub struct ReactorReloadRequest {
    /// "reload" or "restart".
    pub action: String,
}

/// Result of reloading drbd-reactor on one node.
#[derive(Debug, Clone)]
pub struct NodeReloadResult {
    pub hostname: String,
    pub success: bool,
    pub error: Option<String>,
}

/// Response for a reactor reload.
#[derive(Debug, Clone)]
pub struct ReactorReloadResponse {
    /// Local node result.
    pub local: NodeReloadResult,
    /// Remote node results.
    pub remote_nodes: Vec<NodeReloadResult>,
    /// Overall message.
    pub message: String,
}

/// The action requested when none is given.
pub fn default_reload_action() -> (a: String)
    ensures
        a@ == "reload"@,
{
    "reload".to_owned()
}

/// The action performed: `restart` when asked for, `reload` otherwise.
pub open spec fn spec_reload_action(requested: Seq<char>) -> Seq<char> {
    if requested == "restart"@ {
        "restart"@
    } else {
        "reload"@
    }
}

/// The action performed for a reload request.
pub fn reload_action(requested: &str) -> (a: &'static str)
    ensures
        a@ == spec_reload_action(requested@),
{
    if str_eq(requested, "restart") {
        "restart"
    } else {
        "reload"
    }
}

/// The command that reloads systemd and then reloads or restarts drbd-reactor.
pub fn reload_command(action: &str) -> (c: String)
    ensures
        c@ == "systemctl daemon-reload && systemctl "@ + action@ + " drbd-reactor"@,
{
    let mut c = String::new();
    push_str(&mut c, "systemctl daemon-reload && systemctl ");
    push_str(&mut c, action);
    push_str(&mut c, " drbd-reactor");
    assert(c@ =~= "systemctl daemon-reload && systemctl "@ + action@ + " drbd-reactor"@);
    c
}

/// Number of successful results among the first `n`.
pub open spec fn count_success(rs: Seq<NodeReloadResult>, n: int) -> nat
    decreases n,
{
    if n <= 0 {
        0
    } else {
        count_success(rs, n - 1) + (if rs[n - 1].success {
            1nat
        } else {
            0nat
        })
    }
}

/// The summary of a reload over the local node and the remote nodes.
pub open spec fn spec_reload_message(
    action: Seq<char>,
    succeeded: nat,
    total: nat,
) -> Seq<char> {
    if succeeded == total {
        "Successfully "@ + action + "ed drbd-reactor on all "@ + decimal(total) + " nodes"@
    } else {
        action + "ed drbd-reactor on "@ + decimal(succeeded) + "/"@ + decimal(total) + " nodes"@
    }
}

/// Summarizes a reload: how many of the local node and the remote nodes succeeded.
pub fn reload_message(action: &str, local_success: bool, remote: &Vec<NodeReloadResult>) -> (m: String)
    requires
        remote.len() < u64::MAX,
    ensures
        m@ == spec_reload_message(
            action@,
            count_success(remote@, remote@.len() as int) + (if local_success {
                1nat
            } else {
                0nat
            }),
            remote@.len() + 1,
        ),
{
    let mut ok: u64 = 0;
    let mut i: usize = 0;
    while i < remote.len()
        invariant
            i <= remote.len(),
            remote.len() < u64::MAX,
            ok as nat == count_success(remote@, i as int),
            ok <= i,
        decreases remote.len() - i,
    {
        if remote[i].success {
            ok = ok + 1;
        }
        i = i + 1;
    }
    if local_success {
        ok = ok + 1;
    }
    let total: u64 = remote.len() as u64 + 1;
    let mut m = String::new();
    if ok == total {
        push_str(&mut m, "Successfully ");
        push_str(&mut m, action);
        push_str(&mut m, "ed drbd-reactor on all ");
        push_decimal(&mut m, total);
        push_str(&mut m, " nodes");
    } else {
        push_str(&mut m, action);
        push_str(&mut m, "ed drbd-reactor on ");
        push_decimal(&mut m, ok);
        push_str(&mut m, "/");
        push_decimal(&mut m, total);
        push_str(&mut m, " nodes");
    }
    assert(m@ =~= spec_reload_message(
        action@,
        count_success(remote@, remote@.len() as int) + (if local_success {
            1nat
        } else {
            0nat
        }),
        remote@.len() + 1,
    ));
    m
}

// ---------------------------------------------------------------------------
// Evicting a profile
// ---------------------------------------------------------------------------

/// Delay, in seconds, given to a peer to take over after an eviction, when none is given.
pub fn default_evict_delay() -> (d: u32)
    ensures
        d == 20,
{
    20
}

/// Request for evicting an HA profile from a node.
#[derive(Debug, Clone)]
pub struct EvictProfileRequest {
    /// Target node hostname or id (defaults to the local node).
    pub node: Option<String>,
    /// Delay in seconds to wait for peer takeover (default: 20).
    pub delay: u32,
    /// Keep the target masked after eviction (prevents automatic failback).
    pub keep_masked: bool,
    /// Force eviction even with warnings.
    pub force: bool,
}

/// Response for an evict operation.
#[derive(Debug, Clone)]
pub struct EvictProfileResponse {
    pub success: bool,
    pub node: String,
    pub profile: String,
    pub message: String,
    pub stdout: Option<String>,
    pub stderr: Option<String>,
}

/// The `drbd-reactorctl evict` command: the delay is passed only when it is not the default
/// of 20 seconds.
pub open spec fn spec_evict_command(profile: Seq<char>, delay: u32, keep_masked: bool, force: bool) -> Seq<char> {
    "drbd-reactorctl evict "@ + profile + (if delay != 20 {
        " --delay "@ + decimal(delay as nat)
    } else {
        Seq::empty()
    }) + (if keep_masked {
        " --keep-masked"@
    } else {
        Seq::empty()
    }) + (if force {
        " --force"@
    } else {
        Seq::empty()
    })
}

/// Builds the evict command for a profile.
pub fn evict_command(profile: &str, request: &EvictProfileRequest) -> (c: String)
    ensures
        c@ == spec_evict_command(profile@, request.delay, request.keep_masked, request.force),
{
    let mut c = String::new();
    push_str(&mut c, "drbd-reactorctl evict ");
    push_str(&mut c, profile);
    if request.delay != 20 {
        push_str(&mut c, " --delay ");
        push_decimal(&mut c, request.delay as u64);
    }
    if request.keep_masked {
        push_str(&mut c, " --keep-masked");
    }
    if request.force {
        push_str(&mut c, " --force");
    }
    assert(c@ =~= spec_evict_command(profile@, request.delay, request.keep_masked, request.force));
    c
}

/// The message reporting an eviction.
pub open spec fn spec_evict_message(
    success: bool,
    profile: Seq<char>,
    node: Seq<char>,
    delay: u32,
    stderr: Option<Seq<char>>,
) -> Seq<char> {
    if success {
        "Successfully evicted "@ + profile + " from node "@ + node
            + ". Another node should take over within "@ + decimal(delay as nat) + " seconds."@
    } else {
        "Failed to evict "@ + profile + " from node "@ + node + ": "@ + match stderr {
            Some(e) => e,
            None => "unknown error"@,
        }
    }
}

/// Reports the outcome of an eviction.
pub fn evict_message(
    success: bool,
    profile: &str,
    node: &str,
    delay: u32,
    stderr: &Option<String>,
) -> (m: String)
    ensures
        m@ == spec_evict_message(
            success,
            profile@,
            node@,
            delay,
            match *stderr {
                Some(e) => Some(e@),
                None => None,
            },
        ),
{
    let mut m = String::new();
    if success {
        push_str(&mut m, "Successfully evicted ");
        push_str(&mut m, profile);
        push_str(&mut m, " from node ");
        push_str(&mut m, node);
        push_str(&mut m, ". Another node should take over within ");
        push_decimal(&mut m, delay as u64);
        push_str(&mut m, " seconds.");
    } else {
        push_str(&mut m, "Failed to evict ");
        push_str(&mut m, profile);
        push_str(&mut m, " from node ");
        push_str(&mut m, node);
        push_str(&mut m, ": ");
        match stderr {
            Some(e) => push_str(&mut m, e.as_str()),
            None => push_str(&mut m, "unknown error"),
        }
    }
    assert(m@ =~= spec_evict_message(
        success,
        profile@,
        node@,
        delay,
        match *stderr {
            Some(e) => Some(e@),
            None => None,
        },
    ));
    m
}

// ---------------------------------------------------------------------------
// Importing profiles
// ---------------------------------------------------------------------------

/// Request to import profiles.
#[derive(Debug, Clone)]
pub struct ImportProfilesRequest {
    pub names: Vec<String>,
}

/// Response for an import.
#[derive(Debug, Clone)]
pub struct ImportProfilesResponse {
    pub imported: Vec<String>,
    pub failed: Vec<String>,
}

/// `name` is one of `names`.
pub open spec fn listed(names: Seq<String>, name: Seq<char>) -> bool {
    exists|k: int| 0 <= k < names.len() && #[trigger] names[k]@ == name
}

/// What becomes of one name in an import: `Ok` when imported, `Err` with the failure entry.
pub open spec fn import_outcome(name: Seq<char>, existing: Seq<String>, discovered: Seq<String>) -> Result<
    Seq<char>,
    Seq<char>,
> {
    if listed(existing, name) {
        Err(name + ": Already managed"@)
    } else if listed(discovered, name) {
        Ok(name)
    } else {
        Err(name + ": Not found in discovered profiles"@)
    }
}

/// The imported names, in request order.
pub open spec fn imported_names(names: Seq<String>, existing: Seq<String>, discovered: Seq<String>) -> Seq<Seq<char>>
    decreases names.len(),
{
    if names.len() == 0 {
        Seq::empty()
    } else {
        imported_names(names.drop_last(), existing, discovered) + match import_outcome(
            names.last()@,
            existing,
            discovered,
        ) {
            Ok(n) => seq![n],
            Err(_) => Seq::empty(),
        }
    }
}

/// The failure entries, in request order.
pub open spec fn failed_imports(names: Seq<String>, existing: Seq<String>, discovered: Seq<String>) -> Seq<Seq<char>>
    decreases names.len(),
{
    if names.len() == 0 {
        Seq::empty()
    } else {
        failed_imports(names.drop_last(), existing, discovered) + match import_outcome(
            names.last()@,
            existing,
            discovered,
        ) {
            Ok(_) => Seq::empty(),
            Err(f) => seq![f],
        }
    }
}

fn listed_exec(names: &Vec<String>, name: &String) -> (b: bool)
    ensures
        b == listed(names@, name@),
{
    let mut i: usize = 0;
    while i < names.len()
        invariant
            i <= names.len(),
            forall|k: int| 0 <= k < i ==> #[trigger] names@[k]@ != name@,
        decreases names.len() - i,
    {
        if names[i] == *name {
            return true;
        }
        i = i + 1;
    }
    false
}

/// Imports the requested profiles: a name already managed or not discovered fails with a
/// reason, every other name is imported.
pub fn import_profiles(
    request: &ImportProfilesRequest,
    existing: &Vec<String>,
    discovered: &Vec<String>,
) -> (r: ImportProfilesResponse)
    ensures
        r.imported@.map_values(|s: String| s@) == imported_names(
            request.names@,
            existing@,
            discovered@,
        ),
        r.failed@.map_values(|s: String| s@) == failed_imports(
            request.names@,
            existing@,
            discovered@,
        ),
{
    let names = &request.names;
    let mut imported: Vec<String> = Vec::new();
    let mut failed: Vec<String> = Vec::new();
    let mut i: usize = 0;
    while i < names.len()
        invariant
            i <= names.len(),
            imported@.map_values(|s: String| s@) == imported_names(
                names@.take(i as int),
                existing@,
                discovered@,
            ),
            failed@.map_values(|s: String| s@) == failed_imports(
                names@.take(i as int),
                existing@,
                discovered@,
            ),
        decreases names.len() - i,
    {
        let name = &names[i];
        assert(names@.take(i + 1).drop_last() =~= names@.take(i as int));
        let ghost imp = imported@;
        let ghost fail = failed@;
        if listed_exec(existing, name) {
            let mut f = name.clone();
            push_str(&mut f, ": Already managed");
            failed.push(f);
            assert(failed@.map_values(|s: String| s@) =~= fail.map_values(|s: String| s@).push(
                f@,
            ));
        } else if listed_exec(discovered, name) {
            imported.push(name.clone());
            assert(imported@.map_values(|s: String| s@) =~= imp.map_values(|s: String| s@).push(
                name@,
            ));
        } else {
            let mut f = name.clone();
            push_str(&mut f, ": Not found in discovered profiles");
            failed.push(f);
            assert(failed@.map_values(|s: String| s@) =~= fail.map_values(|s: String| s@).push(
                f@,
            ));
        }
        i = i + 1;
        assert(imported@.map_values(|s: String| s@) =~= imported_names(
            names@.take(i as int),
            existing@,
            discovered@,
        ));
        assert(failed@.map_values(|s: String| s@) =~= failed_imports(
            names@.take(i as int),
            existing@,
            discovered@,
        ));
    }
    assert(names@.take(names.len() as int) =~= names@);
    ImportProfilesResponse { imported, failed }
}

/// The discovered profiles that are not managed yet, in discovery order.
pub open spec fn unmanaged_names(discovered: Seq<String>, existing: Seq<String>) -> Seq<Seq<char>>
    decreases discovered.len(),
{
    if discovered.len() == 0 {
        Seq::empty()
    } else {
        unmanaged_names(discovered.drop_last(), existing) + (if listed(
            existing,
            discovered.last()@,
        ) {
            Seq::empty()
        } else {
            seq![discovered.last()@]
        })
    }
}

/// Names of the discovered profiles that are not managed yet.
pub fn list_unmanaged_profiles(discovered: &Vec<String>, existing: &Vec<String>) -> (r: Vec<String>)
    ensures
        r@.map_values(|s: String| s@) == unmanaged_names(discovered@, existing@),
{
    let mut out: Vec<String> = Vec::new();
    let mut i: usize = 0;
    while i < discovered.len()
        invariant
            i <= discovered.len(),
            out@.map_values(|s: String| s@) == unmanaged_names(discovered@.take(i as int), existing@),
        decreases discovered.len() - i,
    {
        assert(discovered@.take(i + 1).drop_last() =~= discovered@.take(i as int));
        let ghost before = out@;
        if !listed_exec(existing, &discovered[i]) {
            out.push(discovered[i].clone());
            assert(out@.map_values(|s: String| s@) =~= before.map_values(|s: String| s@).push(
                discovered@[i as int]@,
            ));
        }
        i = i + 1;
        assert(out@.map_values(|s: String| s@) =~= unmanaged_names(
            discovered@.take(i as int),
            existing@,
        ));
    }
    assert(discovered@.take(discovered.len() as int) =~= discovered@);
    out
}

// ---------------------------------------------------------------------------
// Choosing the node to evict from
// ---------------------------------------------------------------------------

/// The node an eviction runs on.
#[derive(Debug, Clone)]
pub enum EvictTarget {
    /// The known node at this position of the node list.
    Known(usize),
    /// A node not known yet, to be discovered by its hostname.
    Discover(String),
}

/// The first known node whose id or hostname is `name`, when `by_id`; else the first whose
/// hostname is `name`.
pub open spec fn first_named(nodes: Seq<Node>, name: Seq<char>, by_id: bool, from: int) -> int
    decreases nodes.len() - from,
{
    if from < 0 || from >= nodes.len() {
        nodes.len() as int
    } else if (by_id && nodes[from].id@ == name) || nodes[from].hostname@ == name {
        from
    } else {
        first_named(nodes, name, by_id, from + 1)
    }
}

/// The first known node that is the local node.
pub open spec fn first_local(nodes: Seq<Node>, from: int) -> int
    decreases nodes.len() - from,
{
    if from < 0 || from >= nodes.len() {
        nodes.len() as int
    } else if nodes[from].is_local {
        from
    } else {
        first_local(nodes, from + 1)
    }
}

/// The node an eviction targets: the requested node (by id or hostname); without one, the
/// local node, and when the store holds no local node, the node drbd-reactor reports active
/// (by hostname). A name no known node has is discovered. With none of these, there is
/// nothing to evict.
pub open spec fn spec_evict_target(
    requested: Option<Seq<char>>,
    nodes: Seq<Node>,
    active: Option<Seq<char>>,
) -> Option<Result<int, Seq<char>>> {
    match requested {
        Some(r) => {
            let k = first_named(nodes, r, true, 0);
            Some(if k < nodes.len() { Ok(k) } else { Err(r) })
        },
        None => if first_local(nodes, 0) < nodes.len() {
            Some(Ok(first_local(nodes, 0)))
        } else {
            match active {
                Some(a) => {
                    let k = first_named(nodes, a, false, 0);
                    Some(if k < nodes.len() { Ok(k) } else { Err(a) })
                },
                None => None,
            }
        },
    }
}

fn first_local_exec(nodes: &Vec<Node>) -> (k: usize)
    ensures
        k as int == first_local(nodes@, 0),
        k <= nodes.len(),
{
    let mut i: usize = 0;
    while i < nodes.len()
        invariant
            i <= nodes.len(),
            first_local(nodes@, 0) == first_local(nodes@, i as int),
        decreases nodes.len() - i,
    {
        if nodes[i].is_local {
            return i;
        }
        i = i + 1;
    }
    i
}

fn first_named_exec(nodes: &Vec<Node>, name: &String, by_id: bool) -> (k: usize)
    ensures
        k as int == first_named(nodes@, name@, by_id, 0),
        k <= nodes.len(),
{
    let mut i: usize = 0;
    while i < nodes.len()
        invariant
            i <= nodes.len(),
            first_named(nodes@, name@, by_id, 0) == first_named(nodes@, name@, by_id, i as int),
        decreases nodes.len() - i,
    {
        if (by_id && nodes[i].id == *name) || nodes[i].hostname == *name {
            return i;
        }
        i = i + 1;
    }
    i
}

/// The error when no node can be evicted from.
pub open spec fn no_active_node_message() -> Seq<char> {
    "No active node found for this profile. Cannot evict."@
}

/// Chooses the node an eviction runs on.
pub fn evict_target(
    requested: &Option<String>,
    nodes: &Vec<Node>,
    active: &Option<String>,
) -> (r: Result<EvictTarget, AppError>)
    ensures
        match spec_evict_target(
            crate::profiles::str_opt(*requested),
            nodes@,
            crate::profiles::str_opt(*active),
        ) {
            Some(Ok(k)) => r matches Ok(EvictTarget::Known(i)) && i == k,
            Some(Err(n)) => r matches Ok(EvictTarget::Discover(h)) && h@ == n,
            None => r matches Err(AppError::Validation(m)) && m@ == no_active_node_message(),
        },
{
    match requested {
        Some(r) => {
            let k = first_named_exec(nodes, r, true);
            if k < nodes.len() {
                Ok(EvictTarget::Known(k))
            } else {
                Ok(EvictTarget::Discover(r.clone()))
            }
        },
        None => {
            let l = first_local_exec(nodes);
            if l < nodes.len() {
                return Ok(EvictTarget::Known(l));
            }
            match active {
            Some(a) => {
                let k = first_named_exec(nodes, a, false);
                if k < nodes.len() {
                    Ok(EvictTarget::Known(k))
                } else {
                    Ok(EvictTarget::Discover(a.clone()))
                }
            },
            None => Err(
                AppError::Validation("No active node found for this profile. Cannot evict.".to_owned()),
            ),
            }
        },
    }
}

/// A node added to the store because an operation named it: its hostname is its id, it is
/// reached with the default SSH login and counted online. A remote node needs its address
/// resolved; the local node falls back to the local address.
pub fn discovered_node(
    hostname: &str,
    resolved_ip: Option<String>,
    is_local: bool,
    local_ip: String,
    default_port: u16,
    default_user: &str,
    now: i64,
) -> (r: Result<Node, AppError>)
    ensures
        match r {
            Ok(n) => n.id@ == hostname@ && n.hostname@ == hostname@ && n.ip@ == (match resolved_ip {
                Some(ip) => ip@,
                None => local_ip@,
            }) && (resolved_ip is None ==> is_local) && n.ssh_port == default_port && n.ssh_user@
                == default_user@ && n.is_local == is_local && n.status == NodeStatus::Online
                && n.last_seen == Some(now),
            Err(e) => !is_local && resolved_ip is None && (e matches AppError::NotFound(m) && m@
                == "Cannot resolve IP for hostname '"@ + hostname@ + "'"@),
        },
{
    let ip = match resolved_ip {
        Some(ip) => ip,
        None => {
            if is_local {
                local_ip
            } else {
                let mut m = "Cannot resolve IP for hostname '".to_owned();
                push_str(&mut m, hostname);
                push_str(&mut m, "'");
                return Err(AppError::NotFound(m));
            }
        },
    };
    Ok(
        Node {
            id: hostname.to_owned(),
            hostname: hostname.to_owned(),
            ip,
            ssh_port: default_port,
            ssh_user: default_user.to_owned(),
            is_local,
            status: NodeStatus::Online,
            last_seen: Some(now),
        },
    )
}

/// The error when the evict command could not be run on its node.
pub fn evict_exec_failed(node: &str, error: &str) -> (e: AppError)
    ensures
        e matches AppError::Ssh(m) && m@ == "Failed to execute evict on "@ + node@ + ": "@ + error@,
{
    let mut m = "Failed to execute evict on ".to_owned();
    push_str(&mut m, node);
    push_str(&mut m, ": ");
    push_str(&mut m, error);
    AppError::Ssh(m)
}

// ---------------------------------------------------------------------------
// Enabling and disabling a profile on nodes
// ---------------------------------------------------------------------------

/// A profile exists when its promoter file exists, enabled or disabled.
pub fn profile_file_check(name: &str, enabled_exists: bool, disabled_exists: bool) -> (r: Result<
    (),
    AppError,
>)
    ensures
        (enabled_exists || disabled_exists) ==> r is Ok,
        !(enabled_exists || disabled_exists) ==> (r matches Err(AppError::NotFound(m)) && m@
            == "HA profile "@ + name@ + " not found"@),
{
    if enabled_exists || disabled_exists {
        Ok(())
    } else {
        let mut m = "HA profile ".to_owned();
        push_str(&mut m, name);
        push_str(&mut m, " not found");
        Err(AppError::NotFound(m))
    }
}

/// The command that enables (or disables) a profile in drbd-reactor.
pub fn reactor_toggle_command(name: &str, enable: bool) -> (c: String)
    ensures
        c@ == "sudo drbd-reactorctl "@ + (if enable {
            "enable"@
        } else {
            "disable"@
        }) + " "@ + name@,
{
    let mut c = "sudo drbd-reactorctl ".to_owned();
    if enable {
        push_str(&mut c, "enable");
    } else {
        push_str(&mut c, "disable");
    }
    push_str(&mut c, " ");
    push_str(&mut c, name);
    assert(c@ =~= "sudo drbd-reactorctl "@ + (if enable {
        "enable"@
    } else {
        "disable"@
    }) + " "@ + name@);
    c
}

/// The answer once a profile was enabled (or disabled) on one node: its message, or the
/// error carrying what the command printed.
pub fn node_toggle_outcome(name: &str, node: &str, enable: bool, success: bool, stderr: &str) -> (r:
    Result<String, AppError>)
    ensures
        success ==> (r matches Ok(m) && m@ == "Profile '"@ + name@ + "' "@ + (if enable {
            "enabled"@
        } else {
            "disabled"@
        }) + " on node '"@ + node@ + "'"@),
        !success ==> (r matches Err(AppError::Internal(m)) && m@ == "Failed to "@ + (if enable {
            "enable"@
        } else {
            "disable"@
        }) + " profile: "@ + stderr@),
{
    if success {
        let mut m = "Profile '".to_owned();
        push_str(&mut m, name);
        push_str(&mut m, "' ");
        if enable {
            push_str(&mut m, "enabled");
        } else {
            push_str(&mut m, "disabled");
        }
        push_str(&mut m, " on node '");
        push_str(&mut m, node);
        push_str(&mut m, "'");
        assert(m@ =~= "Profile '"@ + name@ + "' "@ + (if enable {
            "enabled"@
        } else {
            "disabled"@
        }) + " on node '"@ + node@ + "'"@);
        Ok(m)
    } else {
        let mut m = "Failed to ".to_owned();
        if enable {
            push_str(&mut m, "enable");
        } else {
            push_str(&mut m, "disable");
        }
        push_str(&mut m, " profile: ");
        push_str(&mut m, stderr);
        assert(m@ =~= "Failed to "@ + (if enable {
            "enable"@
        } else {
            "disable"@
        }) + " profile: "@ + stderr@);
        Err(AppError::Internal(m))
    }
}

/// The message after enabling a profile on every node.
pub open spec fn spec_enable_summary(name: Seq<char>, enabled: nat, failed: nat, total: nat) -> Seq<char> {
    if failed == 0 {
        "Profile '"@ + name + "' enabled on all "@ + decimal(enabled) + " nodes"@
    } else if enabled == 0 {
        "Failed to enable profile '"@ + name + "' on any node"@
    } else {
        "Profile '"@ + name + "' enabled on "@ + decimal(enabled) + "/"@ + decimal(total) + " nodes"@
    }
}

/// Summarizes the enabling of a profile on every node: it succeeded when some node enabled
/// it.
pub fn enable_summary(name: &str, enabled: usize, failed: usize, total: usize) -> (r: (bool, String))
    ensures
        r.0 == (enabled > 0),
        r.1@ == spec_enable_summary(name@, enabled as nat, failed as nat, total as nat),
{
    let mut m = String::new();
    if failed == 0 {
        push_str(&mut m, "Profile '");
        push_str(&mut m, name);
        push_str(&mut m, "' enabled on all ");
        push_decimal(&mut m, enabled as u64);
        push_str(&mut m, " nodes");
    } else if enabled == 0 {
        push_str(&mut m, "Failed to enable profile '");
        push_str(&mut m, name);
        push_str(&mut m, "' on any node");
    } else {
        push_str(&mut m, "Profile '");
        push_str(&mut m, name);
        push_str(&mut m, "' enabled on ");
        push_decimal(&mut m, enabled as u64);
        push_str(&mut m, "/");
        push_decimal(&mut m, total as u64);
        push_str(&mut m, " nodes");
    }
    assert(m@ =~= spec_enable_summary(name@, enabled as nat, failed as nat, total as nat));
    (enabled > 0, m)
}

/// The answer to a reload: the local result, the remote ones, and their summary.
pub fn reload_response(action: &str, local: NodeReloadResult, remote: Vec<NodeReloadResult>) -> (r:
    ReactorReloadResponse)
    requires
        remote.len() < u64::MAX,
    ensures
        r.local == local,
        r.remote_nodes@ == remote@,
        r.message@ == spec_reload_message(
            action@,
            count_success(remote@, remote@.len() as int) + (if local.success {
                1nat
            } else {
                0nat
            }),
            remote@.len() + 1,
        ),
{
    let message = reload_message(action, local.success, &remote);
    ReactorReloadResponse { local, remote_nodes: remote, message }
}

/// Every requested name is either imported or reported as failed, never both: the two lists
/// together are as long as the request.
pub proof fn law_import_accounts_for_every_name(
    names: Seq<String>,
    existing: Seq<String>,
    discovered: Seq<String>,
)
    ensures
        imported_names(names, existing, discovered).len() + failed_imports(names, existing, discovered).len()
            == names.len(),
    decreases names.len(),
{
    if names.len() > 0 {
        law_import_accounts_for_every_name(names.drop_last(), existing, discovered);
    }
}

/// A name already managed is never imported again, and a name that was not discovered is
/// never imported.
pub proof fn law_import_only_new_discovered(
    names: Seq<String>,
    existing: Seq<String>,
    discovered: Seq<String>,
    k: int,
)
    requires
        0 <= k < imported_names(names, existing, discovered).len(),
    ensures
        !listed(existing, imported_names(names, existing, discovered)[k]),
        listed(discovered, imported_names(names, existing, discovered)[k]),
    decreases names.len(),
{
    let prev = imported_names(names.drop_last(), existing, discovered);
    if k < prev.len() {
        law_import_only_new_discovered(names.drop_last(), existing, discovered, k);
    }
}

/// No profile listed as unmanaged is managed.
pub proof fn law_unmanaged_are_not_managed(discovered: Seq<String>, existing: Seq<String>, k: int)
    requires
        0 <= k < unmanaged_names(discovered, existing).len(),
    ensures
        !listed(existing, unmanaged_names(discovered, existing)[k]),
        listed(discovered, unmanaged_names(discovered, existing)[k]),
    decreases discovered.len(),
{
    let prev = unmanaged_names(discovered.drop_last(), existing);
    if k < prev.len() {
        law_unmanaged_are_not_managed(discovered.drop_last(), existing, k);
        let j = choose|j: int| 0 <= j < discovered.drop_last().len() && #[trigger] discovered.drop_last()[j]@
            == prev[k];
        assert(discovered[j] == discovered.drop_last()[j]);
    } else {
        assert(discovered[discovered.len() - 1]@ == unmanaged_names(discovered, existing)[k]);
    }
}

// ---------------------------------------------------------------------------
// Laws of the evict command
// ---------------------------------------------------------------------------

/// The options of an evict command after the profile name.
proof fn lemma_evict_parts(profile: Seq<char>, delay: u32, keep_masked: bool, force: bool)
    ensures
        ({
            let d = if delay != 20 { " --delay "@ + decimal(delay as nat) } else { Seq::<char>::empty() };
            let k = if keep_masked { " --keep-masked"@ } else { Seq::<char>::empty() };
            let f = if force { " --force"@ } else { Seq::<char>::empty() };
            spec_evict_command(profile, delay, keep_masked, force) == "drbd-reactorctl evict "@ + profile + d
                + k + f
        }),
{
}

/// The evict command always names the profile after `drbd-reactorctl evict`; it holds
/// ` --keep-masked` whenever keeping the services masked is asked for, whatever the delay
/// and the force flag, and asking for it adds exactly that option (and nothing else) to the
/// command; likewise ` --force` for a forced eviction.
pub proof fn law_evict_options(profile: Seq<char>, delay: u32, keep_masked: bool, force: bool)
    ensures
        spec_evict_command(profile, delay, keep_masked, force).take(22 + profile.len() as int)
            == "drbd-reactorctl evict "@ + profile,
        contains(spec_evict_command(profile, delay, true, force), " --keep-masked"@),
        spec_evict_command(profile, delay, true, force).len() == spec_evict_command(profile, delay, false, force).len()
            + 14,
        contains(spec_evict_command(profile, delay, keep_masked, true), " --force"@),
        spec_evict_command(profile, delay, keep_masked, true).len() == spec_evict_command(
            profile,
            delay,
            keep_masked,
            false,
        ).len() + 8,
        delay != 20 ==> contains(spec_evict_command(profile, delay, keep_masked, force), " --delay "@ + decimal(
            delay as nat,
        )),
        spec_evict_command(profile, 20, keep_masked, force).len() == 22 + profile.len() + (if keep_masked {
            14int
        } else {
            0int
        }) + (if force {
            8int
        } else {
            0int
        }),
{
    reveal_strlit("drbd-reactorctl evict ");
    reveal_strlit(" --keep-masked");
    reveal_strlit(" --force");
    reveal_strlit(" --delay ");
    let a = "drbd-reactorctl evict "@ + profile;
    let d = if delay != 20 { " --delay "@ + decimal(delay as nat) } else { Seq::<char>::empty() };
    let km = " --keep-masked"@;
    let fo = " --force"@;
    let f = if force { fo } else { Seq::<char>::empty() };
    let k = if keep_masked { km } else { Seq::<char>::empty() };
    lemma_evict_parts(profile, delay, keep_masked, force);
    lemma_evict_parts(profile, delay, true, force);
    lemma_evict_parts(profile, delay, false, force);
    lemma_evict_parts(profile, delay, keep_masked, true);
    lemma_evict_parts(profile, delay, keep_masked, false);
    lemma_evict_parts(profile, 20, keep_masked, force);
    let x = spec_evict_command(profile, delay, keep_masked, force);
    assert(x.take(22 + profile.len() as int) =~= a);
    let t = spec_evict_command(profile, delay, true, force);
    let i = a.len() + d.len();
    assert(t.subrange(i as int, i + 14int) =~= km);
    assert(crate::text::match_at(t, km, i as int));
    let u = spec_evict_command(profile, delay, keep_masked, true);
    let j = a.len() + d.len() + k.len();
    assert(u.subrange(j as int, j + 8int) =~= fo);
    assert(crate::text::match_at(u, fo, j as int));
    if delay != 20 {
        let dd = " --delay "@ + decimal(delay as nat);
        assert(x.subrange(a.len() as int, a.len() + dd.len() as int) =~= dd);
        assert(crate::text::match_at(x, dd, a.len() as int));
    }
}

// ---------------------------------------------------------------------------
// Laws of the evict target and the reload action
// ---------------------------------------------------------------------------

proof fn lemma_first_named_at(nodes: Seq<Node>, name: Seq<char>, by_id: bool, from: int, k: int)
    requires
        0 <= from <= k < nodes.len(),
        (by_id && nodes[k].id@ == name) || nodes[k].hostname@ == name,
        forall|j: int| from <= j < k ==> !((by_id && (#[trigger] nodes[j]).id@ == name) || nodes[j].hostname@ == name),
    ensures
        first_named(nodes, name, by_id, from) == k,
    decreases k - from,
{
    if from < k {
        lemma_first_named_at(nodes, name, by_id, from + 1, k);
    }
}

proof fn lemma_first_named_none(nodes: Seq<Node>, name: Seq<char>, by_id: bool, from: int)
    requires
        0 <= from <= nodes.len(),
        forall|j: int| from <= j < nodes.len() ==> !((by_id && (#[trigger] nodes[j]).id@ == name) || nodes[j].hostname@
            == name),
    ensures
        first_named(nodes, name, by_id, from) == nodes.len(),
    decreases nodes.len() - from,
{
    if from < nodes.len() {
        lemma_first_named_none(nodes, name, by_id, from + 1);
    }
}

proof fn lemma_first_local_at(nodes: Seq<Node>, from: int, k: int)
    requires
        0 <= from <= k < nodes.len(),
        nodes[k].is_local,
        forall|j: int| from <= j < k ==> !(#[trigger] nodes[j]).is_local,
    ensures
        first_local(nodes, from) == k,
    decreases k - from,
{
    if from < k {
        lemma_first_local_at(nodes, from + 1, k);
    }
}

proof fn lemma_first_local_none(nodes: Seq<Node>, from: int)
    requires
        0 <= from <= nodes.len(),
        forall|j: int| from <= j < nodes.len() ==> !(#[trigger] nodes[j]).is_local,
    ensures
        first_local(nodes, from) == nodes.len(),
    decreases nodes.len() - from,
{
    if from < nodes.len() {
        lemma_first_local_none(nodes, from + 1);
    }
}

/// An eviction for a requested node targets the first known node with that id or hostname,
/// and a node to discover by that name when none has it.
pub proof fn law_evict_requested_node(nodes: Seq<Node>, r: Seq<char>, active: Option<Seq<char>>, k: int)
    ensures
        (0 <= k < nodes.len() && (nodes[k].id@ == r || nodes[k].hostname@ == r) && forall|j: int|
            0 <= j < k ==> !((#[trigger] nodes[j]).id@ == r || nodes[j].hostname@ == r)) ==> spec_evict_target(
            Some(r),
            nodes,
            active,
        ) == Some(Ok::<int, Seq<char>>(k)),
        (forall|j: int| 0 <= j < nodes.len() ==> !((#[trigger] nodes[j]).id@ == r || nodes[j].hostname@ == r))
            ==> spec_evict_target(Some(r), nodes, active) == Some(Err::<int, Seq<char>>(r)),
{
    if 0 <= k < nodes.len() && (nodes[k].id@ == r || nodes[k].hostname@ == r) && forall|j: int|
        0 <= j < k ==> !((#[trigger] nodes[j]).id@ == r || nodes[j].hostname@ == r) {
        lemma_first_named_at(nodes, r, true, 0, k);
    }
    if forall|j: int| 0 <= j < nodes.len() ==> !((#[trigger] nodes[j]).id@ == r || nodes[j].hostname@ == r) {
        lemma_first_named_none(nodes, r, true, 0);
    }
}

/// Without a requested node, an eviction targets the first local node; only when the store
/// holds no local node does it target the node drbd-reactor reports active (the first known
/// node of that hostname, or one to discover), and with no active node either there is
/// nothing to evict.
pub proof fn law_evict_default_node(nodes: Seq<Node>, active: Option<Seq<char>>, k: int)
    ensures
        (0 <= k < nodes.len() && nodes[k].is_local && forall|j: int| 0 <= j < k ==> !(#[trigger] nodes[j]).is_local)
            ==> spec_evict_target(None, nodes, active) == Some(Ok::<int, Seq<char>>(k)),
        (forall|j: int| 0 <= j < nodes.len() ==> !(#[trigger] nodes[j]).is_local) ==> match active {
            None => spec_evict_target(None, nodes, active) is None,
            Some(a) => (0 <= k < nodes.len() && nodes[k].hostname@ == a && forall|j: int|
                0 <= j < k ==> (#[trigger] nodes[j]).hostname@ != a) ==> spec_evict_target(None, nodes, active)
                == Some(Ok::<int, Seq<char>>(k)),
        },
{
    if 0 <= k < nodes.len() && nodes[k].is_local && forall|j: int| 0 <= j < k ==> !(#[trigger] nodes[j]).is_local {
        lemma_first_local_at(nodes, 0, k);
    }
    if forall|j: int| 0 <= j < nodes.len() ==> !(#[trigger] nodes[j]).is_local {
        lemma_first_local_none(nodes, 0);
        match active {
            None => {},
            Some(a) => {
                if 0 <= k < nodes.len() && nodes[k].hostname@ == a && forall|j: int|
                    0 <= j < k ==> (#[trigger] nodes[j]).hostname@ != a {
                    lemma_first_named_at(nodes, a, false, 0, k);
                }
            },
        }
    }
}

/// A reload request performs a restart exactly when it asks for `restart`, and a reload for
/// anything else.
pub proof fn law_reload_action(requested: Seq<char>)
    ensures
        requested == "restart"@ ==> spec_reload_action(requested) == "restart"@,
        requested != "restart"@ ==> spec_reload_action(requested) == "reload"@,
{
}


/// An eviction report names the profile and the node and says whether it worked: a
/// successful one begins "Successfully evicted <profile> from node <node>" and gives the
/// delay; a failed one begins "Failed to evict <profile> from node <node>: " and ends with
/// the error output, or "unknown error" without one.
pub proof fn law_evict_report(success: bool, profile: Seq<char>, node: Seq<char>, delay: u32, stderr: Option<Seq<char>>)
    ensures
        success ==> spec_evict_message(true, profile, node, delay, stderr).take(
            ("Successfully evicted "@ + profile + " from node "@ + node).len() as int,
        ) == "Successfully evicted "@ + profile + " from node "@ + node,
        success ==> crate::text::contains(spec_evict_message(true, profile, node, delay, stderr), decimal(delay as nat)),
        spec_evict_message(false, profile, node, delay, stderr).take(
            ("Failed to evict "@ + profile + " from node "@ + node + ": "@).len() as int,
        ) == "Failed to evict "@ + profile + " from node "@ + node + ": "@,
        spec_evict_message(false, profile, node, delay, stderr).skip(
            ("Failed to evict "@ + profile + " from node "@ + node + ": "@).len() as int,
        ) == match stderr {
            Some(e) => e,
            None => "unknown error"@,
        },
{
    let a = "Successfully evicted "@ + profile + " from node "@ + node;
    let m = spec_evict_message(true, profile, node, delay, stderr);
    let mid = ". Another node should take over within "@;
    assert(m =~= a + mid + decimal(delay as nat) + " seconds."@);
    assert(m.take(a.len() as int) =~= a);
    let i = a.len() + mid.len();
    assert(m.subrange(i as int, i + decimal(delay as nat).len() as int) =~= decimal(delay as nat));
    assert(crate::text::match_at(m, decimal(delay as nat), i as int));
    let f = "Failed to evict "@ + profile + " from node "@ + node + ": "@;
    let t = match stderr {
        Some(e) => e,
        None => "unknown error"@,
    };
    let mf = spec_evict_message(false, profile, node, delay, stderr);
    assert(mf =~= f + t);
    assert(mf.take(f.len() as int) =~= f);
    assert(mf.skip(f.len() as int) =~= t);
}

/// A reload report says "Successfully ..." exactly when every node succeeded, and otherwise
/// begins with the action and counts the nodes that did.
pub proof fn law_reload_report(action: Seq<char>, succeeded: nat, total: nat)
    ensures
        succeeded == total ==> spec_reload_message(action, succeeded, total).take(13) == "Successfully "@,
        succeeded != total ==> spec_reload_message(action, succeeded, total).take(action.len() as int) == action,
        succeeded != total ==> crate::text::contains(
            spec_reload_message(action, succeeded, total),
            decimal(succeeded) + "/"@ + decimal(total),
        ),
{
    reveal_strlit("Successfully ");
    if succeeded == total {
        let m = spec_reload_message(action, succeeded, total);
        assert(m.take(13) =~= "Successfully "@);
    } else {
        let m = spec_reload_message(action, succeeded, total);
        let p = action + "ed drbd-reactor on "@;
        let c = decimal(succeeded) + "/"@ + decimal(total);
        assert(m =~= p + c + " nodes"@);
        assert(m.take(action.len() as int) =~= action);
        assert(m.subrange(p.len() as int, p.len() + c.len() as int) =~= c);
        assert(crate::text::match_at(m, c, p.len() as int));
    }
}

} // verus!
