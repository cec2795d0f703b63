//! Editing a profile's drbd-reactor TOML file: validating new content, the answers given for
//! reads, writes and syncs, and the nodes a changed start array is copied to.

use vstd::prelude::*;
use crate::config_gen::{spec_promoter_path, ConfigPaths};
use crate::nodes::{AppError, Node};
use crate::text::{decimal, push_decimal, push_str};

verus! {

/// Request body for updating a profile's TOML configuration.
#[derive(Debug, Clone)]
pub struct UpdateTomlRequest {
    /// The new TOML content to write.
    pub content: String,
}

/// Response containing the TOML file content.
#[derive(Debug, Clone)]
pub struct TomlContentResponse {
    /// Profile name.
    pub profile: String,
    /// The TOML file content.
    pub content: String,
    /// Path to the TOML file.
    pub path: String,
}

/// Response for an update of the start array.
#[derive(Debug, Clone)]
pub struct UpdateStartArrayResponse {
    pub profile: String,
    /// The updated TOML file content.
    pub content: String,
    pub path: String,
    /// Nodes that were successfully synced.
    pub synced_nodes: Vec<String>,
    pub success: bool,
    pub message: String,
}

/// Request body for updating only the start array.
#[derive(Debug, Clone)]
pub struct UpdateStartArrayRequest {
    /// New start array items.
    pub start: Vec<String>,
}

/// Response for a sync of the TOML file.
#[derive(Debug, Clone)]
pub struct SyncTomlResponse {
    pub profile: String,
    pub synced_nodes: Vec<String>,
    pub message: String,
    pub success: bool,
}

/// What `toml::from_str::<toml::Value>` reports for `content`: `None` when it parses as a
/// TOML document, the text of its error otherwise.
pub uninterp spec fn toml_parse_error(content: Seq<char>) -> Option<Seq<char>>;

/// `toml::from_str::<toml::Value>`: parses `content` as a TOML document and gives back the
/// text of the error when that fails. The outcome is named, not stated.
#[verifier::external_body]
fn parse_toml_document(content: &str) -> (r: Option<String>)
    ensures
        match r {
            Some(e) => toml_parse_error(content@) == Some(e@),
            None => toml_parse_error(content@) == None::<Seq<char>>,
        },
{
    match toml::from_str::<toml::Value>(content) {
        Ok(_) => None,
        Err(e) => Some(e.to_string()),
    }
}

/// The answer to a TOML check that reported `parse_error`: content that does not parse is
/// refused as invalid, with the parser's message.
pub fn toml_check_outcome(parse_error: Option<String>) -> (r: Result<(), AppError>)
    ensures
        match parse_error {
            None => r is Ok,
            Some(e) => r matches Err(AppError::Validation(m)) && m@ == "Invalid TOML content: "@
                + e@,
        },
{
    match parse_error {
        None => Ok(()),
        Some(e) => {
            let mut m = "Invalid TOML content: ".to_owned();
            push_str(&mut m, e.as_str());
            Err(AppError::Validation(m))
        },
    }
}

/// Checks that `content` is a TOML document before it is written.
pub fn validate_toml_content(content: &str) -> (r: Result<(), AppError>)
    ensures
        match toml_parse_error(content@) {
            None => r is Ok,
            Some(e) => r matches Err(AppError::Validation(m)) && m@ == "Invalid TOML content: "@
                + e,
        },
{
    let parse_error = parse_toml_document(content);
    toml_check_outcome(parse_error)
}

/// The error for a profile whose TOML file does not exist.
pub fn toml_not_found(profile: &str, path: &str) -> (e: AppError)
    ensures
        e matches AppError::NotFound(m) && m@ == "TOML configuration file not found for profile '"@
            + profile@ + "': "@ + path@,
{
    let mut m = "TOML configuration file not found for profile '".to_owned();
    push_str(&mut m, profile);
    push_str(&mut m, "': ");
    push_str(&mut m, path);
    AppError::NotFound(m)
}

/// The answer to a read of a profile's TOML file.
pub fn toml_content_response(profile: &str, content: &str) -> (r: TomlContentResponse)
    ensures
        r.profile@ == profile@,
        r.content@ == content@,
        r.path@ == spec_promoter_path(profile@),
{
    TomlContentResponse {
        profile: profile.to_owned(),
        content: content.to_owned(),
        path: ConfigPaths::promoter_path(profile),
    }
}

/// The answer to a write of a profile's TOML file: content that does not parse is refused,
/// other content is answered with the path it is written to.
pub fn update_profile_toml(profile: &str, request: &UpdateTomlRequest) -> (r: Result<
    TomlContentResponse,
    AppError,
>)
    ensures
        match toml_parse_error(request.content@) {
            None => r matches Ok(resp) && resp.profile@ == profile@ && resp.content@
                == request.content@ && resp.path@ == spec_promoter_path(profile@),
            Some(e) => r matches Err(AppError::Validation(m)) && m@ == "Invalid TOML content: "@
                + e,
        },
{
    match validate_toml_content(request.content.as_str()) {
        Ok(()) => Ok(toml_content_response(profile, request.content.as_str())),
        Err(e) => Err(e),
    }
}

/// The message of a TOML sync.
pub open spec fn spec_sync_toml_message(synced: nat, total: nat) -> Seq<char> {
    if synced > 0 {
        "Successfully synced TOML configuration to "@ + decimal(synced) + "/"@ + decimal(total)
            + " nodes"@
    } else {
        "No remote nodes to sync"@
    }
}

/// The answer to a TOML sync: it succeeded when at least one node was synced.
pub fn sync_toml_response(profile: &str, synced_nodes: Vec<String>, total_nodes: usize) -> (r:
    SyncTomlResponse)
    ensures
        r.profile@ == profile@,
        r.synced_nodes@ == synced_nodes@,
        r.success == (synced_nodes.len() > 0),
        r.message@ == spec_sync_toml_message(synced_nodes.len() as nat, total_nodes as nat),
{
    let success = synced_nodes.len() > 0;
    let mut message = String::new();
    if success {
        push_str(&mut message, "Successfully synced TOML configuration to ");
        push_decimal(&mut message, synced_nodes.len() as u64);
        push_str(&mut message, "/");
        push_decimal(&mut message, total_nodes as u64);
        push_str(&mut message, " nodes");
    } else {
        push_str(&mut message, "No remote nodes to sync");
    }
    assert(message@ =~= spec_sync_toml_message(synced_nodes.len() as nat, total_nodes as nat));
    SyncTomlResponse { profile: profile.to_owned(), synced_nodes, message, success }
}

/// The error when a TOML file cannot be parsed for editing.
pub fn toml_file_parse_failed(path: &str, error: &str) -> (e: AppError)
    ensures
        e matches AppError::Validation(m) && m@ == "Failed to parse TOML file '"@ + path@ + "': "@
            + error@,
{
    let mut m = "Failed to parse TOML file '".to_owned();
    push_str(&mut m, path);
    push_str(&mut m, "': ");
    push_str(&mut m, error);
    AppError::Validation(m)
}

/// The error when the document has no start array to replace.
pub fn start_array_not_found() -> (e: AppError)
    ensures
        e matches AppError::NotFound(m) && m@ == "Could not find 'start' array in TOML configuration"@,
{
    AppError::NotFound("Could not find 'start' array in TOML configuration".to_owned())
}

/// The message of a start array update.
pub open spec fn spec_start_array_message(synced: nat, total_configured: nat) -> Seq<char> {
    if synced > 0 {
        "Configuration saved, synced to "@ + decimal(synced) + "/"@ + decimal(total_configured)
            + " configured node(s), and drbd-reactor reloaded"@
    } else if total_configured > 1 {
        "Configuration saved locally but no remote configured nodes to sync"@
    } else {
        "Configuration saved (single-node cluster, no sync needed)"@
    }
}

/// The answer to a start array update, once the file was written and copied to
/// `synced_nodes` out of `total_configured` configured nodes.
pub fn start_array_response(
    profile: &str,
    content: String,
    path: String,
    synced_nodes: Vec<String>,
    total_configured: usize,
) -> (r: UpdateStartArrayResponse)
    ensures
        r.profile@ == profile@,
        r.content == content,
        r.path == path,
        r.synced_nodes@ == synced_nodes@,
        r.success == (synced_nodes.len() > 0),
        r.message@ == spec_start_array_message(synced_nodes.len() as nat, total_configured as nat),
{
    let success = synced_nodes.len() > 0;
    let mut message = String::new();
    if success {
        push_str(&mut message, "Configuration saved, synced to ");
        push_decimal(&mut message, synced_nodes.len() as u64);
        push_str(&mut message, "/");
        push_decimal(&mut message, total_configured as u64);
        push_str(&mut message, " configured node(s), and drbd-reactor reloaded");
    } else if total_configured > 1 {
        push_str(&mut message, "Configuration saved locally but no remote configured nodes to sync");
    } else {
        push_str(&mut message, "Configuration saved (single-node cluster, no sync needed)");
    }
    assert(message@ =~= spec_start_array_message(
        synced_nodes.len() as nat,
        total_configured as nat,
    ));
    UpdateStartArrayResponse {
        profile: profile.to_owned(),
        content,
        path,
        synced_nodes,
        success,
        message,
    }
}

/// A configured node of a profile: its hostname and address.
#[derive(Debug, Clone)]
pub struct ConfiguredNode {
    pub hostname: String,
    pub ip: String,
}

/// A remote node the changed file is copied to, with the SSH login used.
#[derive(Debug, Clone)]
pub struct SyncTarget {
    pub hostname: String,
    pub ip: String,
    pub ssh_user: String,
    pub ssh_port: u16,
}

/// A sync target as plain values: hostname, address, user, port.
pub open spec fn target_view(t: SyncTarget) -> (Seq<char>, Seq<char>, Seq<char>, u16) {
    (t.hostname@, t.ip@, t.ssh_user@, t.ssh_port)
}

/// A known node stands for a configured node when its hostname or its address matches.
pub open spec fn node_matches(n: Node, hostname: Seq<char>, ip: Seq<char>) -> bool {
    n.hostname@ == hostname || n.ip@ == ip
}

/// The index of the first known node at or after `from` that stands for the configured
/// node, or the number of known nodes when none does.
pub open spec fn first_match(nodes: Seq<Node>, hostname: Seq<char>, ip: Seq<char>, from: int) -> int
    decreases nodes.len() - from,
{
    if from < 0 || from >= nodes.len() {
        nodes.len() as int
    } else if node_matches(nodes[from], hostname, ip) {
        from
    } else {
        first_match(nodes, hostname, ip, from + 1)
    }
}

/// A later entry with the same hostname replaces this one: each hostname is configured once,
/// with its last address.
pub open spec fn superseded(configured: Seq<ConfiguredNode>, i: int) -> bool {
    exists|j: int| i < j < configured.len() && #[trigger] configured[j].hostname@
        == configured[i].hostname@
}

/// Where the changed file goes for one configured node: nowhere when that node is the
/// controller itself (the first known node that stands for it is local, or, when none does,
/// its hostname is the local one); otherwise to its address, with the SSH login of that known
/// node or the default login.
pub open spec fn target_for(
    c: ConfiguredNode,
    nodes: Seq<Node>,
    local_hostname: Seq<char>,
    default_user: Seq<char>,
    default_port: u16,
) -> Option<(Seq<char>, Seq<char>, Seq<char>, u16)> {
    let k = first_match(nodes, c.hostname@, c.ip@, 0);
    let known = k < nodes.len();
    let is_local = if known {
        nodes[k].is_local
    } else {
        c.hostname@ == local_hostname
    };
    if is_local {
        None
    } else if known {
        Some((c.hostname@, c.ip@, nodes[k].ssh_user@, nodes[k].ssh_port))
    } else {
        Some((c.hostname@, c.ip@, default_user, default_port))
    }
}

/// The sync targets for the first `n` configured nodes, in order.
pub open spec fn sync_targets(
    configured: Seq<ConfiguredNode>,
    n: int,
    nodes: Seq<Node>,
    local_hostname: Seq<char>,
    default_user: Seq<char>,
    default_port: u16,
) -> Seq<(Seq<char>, Seq<char>, Seq<char>, u16)>
    decreases n,
{
    if n <= 0 {
        Seq::empty()
    } else {
        let rest = sync_targets(configured, n - 1, nodes, local_hostname, default_user, default_port);
        if superseded(configured, n - 1) {
            rest
        } else {
            match target_for(configured[n - 1], nodes, local_hostname, default_user, default_port) {
                Some(t) => rest.push(t),
                None => rest,
            }
        }
    }
}

fn first_match_exec(nodes: &Vec<Node>, hostname: &String, ip: &String) -> (k: usize)
    ensures
        k as int == first_match(nodes@, hostname@, ip@, 0),
        k <= nodes.len(),
{
    let mut i: usize = 0;
    while i < nodes.len()
        invariant
            i <= nodes.len(),
            first_match(nodes@, hostname@, ip@, 0) == first_match(nodes@, hostname@, ip@, i as int),
        decreases nodes.len() - i,
    {
        if nodes[i].hostname == *hostname || nodes[i].ip == *ip {
            return i;
        }
        i = i + 1;
    }
    i
}

fn superseded_exec(configured: &Vec<ConfiguredNode>, i: usize) -> (b: bool)
    requires
        i < configured.len(),
    ensures
        b == superseded(configured@, i as int),
{
    let mut j: usize = i + 1;
    while j < configured.len()
        invariant
            i < j <= configured.len(),
            forall|k: int| i < k < j ==> #[trigger] configured@[k].hostname@
                != configured@[i as int].hostname@,
        decreases configured.len() - j,
    {
        if configured[j].hostname == configured[i].hostname {
            return true;
        }
        j = j + 1;
    }
    false
}

/// The remote nodes a changed TOML file is copied to: each configured hostname once, the
/// controller itself left out.
pub fn start_array_sync_targets(
    configured: &Vec<ConfiguredNode>,
    nodes: &Vec<Node>,
    local_hostname: &String,
    default_user: &String,
    default_port: u16,
) -> (r: Vec<SyncTarget>)
    ensures
        r@.map_values(|t: SyncTarget| target_view(t)) == sync_targets(
            configured@,
            configured@.len() as int,
            nodes@,
            local_hostname@,
            default_user@,
            default_port,
        ),
{
    let mut out: Vec<SyncTarget> = Vec::new();
    let mut i: usize = 0;
    while i < configured.len()
        invariant
            i <= configured.len(),
            out@.map_values(|t: SyncTarget| target_view(t)) == sync_targets(
                configured@,
                i as int,
                nodes@,
                local_hostname@,
                default_user@,
                default_port,
            ),
        decreases configured.len() - i,
    {
        let ghost before = out@;
        let c = &configured[i];
        if !superseded_exec(configured, i) {
            let k = first_match_exec(nodes, &c.hostname, &c.ip);
            let is_local = if k < nodes.len() {
                nodes[k].is_local
            } else {
                c.hostname == *local_hostname
            };
            if !is_local {
                let t = if k < nodes.len() {
                    SyncTarget {
                        hostname: c.hostname.clone(),
                        ip: c.ip.clone(),
                        ssh_user: nodes[k].ssh_user.clone(),
                        ssh_port: nodes[k].ssh_port,
                    }
                } else {
                    SyncTarget {
                        hostname: c.hostname.clone(),
                        ip: c.ip.clone(),
                        ssh_user: default_user.clone(),
                        ssh_port: default_port,
                    }
                };
                out.push(t);
                assert(out@.map_values(|t: SyncTarget| target_view(t)) =~= before.map_values(
                    |t: SyncTarget| target_view(t),
                ).push(target_view(t)));
            }
        }
        i = i + 1;
    }
    out
}

} // verus!
