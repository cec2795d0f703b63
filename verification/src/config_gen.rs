//! Generation of DRBD resource files and drbd-reactor promoter configurations.
//!
//! The generated text is specified exactly by the spec functions `drbd_resource_text` and
//! `promoter_text`; the generators are proved to produce it. The layout is this library's
//! own: one line per setting and no blank lines inside a section; the device line carries
//! the minor (`device /dev/drbdN minor N;`) and the virtual IP agent is named after the
//! resource (`<resource>_vip`).

use vstd::prelude::*;
use crate::option_map::{key_pos, entry_view, entries_view, OptionMap, ParamEntry};
use crate::text::{contains, decimal, lemma_contains_add, lemma_contains_refl, lemma_contains_trans, push_decimal, push_str, str_eq};

verus! {

/// Errors of configuration generation.
#[derive(Debug)]
pub enum ConfigError {
    LoadTemplate(String),
    Render(String),
}

/// The human-readable description of a configuration error.
pub open spec fn config_error_text(e: ConfigError) -> Seq<char> {
    match e {
        ConfigError::LoadTemplate(m) => "Failed to load template: "@ + m@,
        ConfigError::Render(m) => "Failed to render template: "@ + m@,
    }
}

impl ConfigError {
    /// The human-readable description (what `Display` shows).
    pub fn message(&self) -> (s: String)
        ensures
            s@ == config_error_text(*self),
    {
        let mut s = String::new();
        match self {
            ConfigError::LoadTemplate(m) => {
                push_str(&mut s, "Failed to load template: ");
                push_str(&mut s, m.as_str());
            },
            ConfigError::Render(m) => {
                push_str(&mut s, "Failed to render template: ");
                push_str(&mut s, m.as_str());
            },
        }
        assert(s@ =~= config_error_text(*self));
        s
    }
}

/// Node configuration for a DRBD resource.
#[derive(Debug, Clone)]
pub struct NodeConfig {
    pub hostname: String,
    pub ip: String,
    pub disk: String,
    pub node_id: u32,
}

/// DRBD resource configuration.
#[derive(Debug)]
pub struct ResourceConfig {
    pub name: String,
    pub port: u16,
    pub minor: u32,
    pub device: String,
    pub nodes: Vec<NodeConfig>,
    pub disk_options: OptionMap,
    pub net_options: OptionMap,
    /// Whether to enable auto-promote (false for drbd-reactor managed resources).
    pub auto_promote: bool,
}

impl Default for ResourceConfig {
    fn default() -> (c: Self)
        ensures
            c.name@ == Seq::<char>::empty(),
            c.port == 7789,
            c.minor == 0,
            c.device@ == "/dev/drbd0"@,
            c.nodes@.len() == 0,
            c.disk_options@ == seq![("on-io-error"@, "detach"@)],
            c.net_options@ == seq![("protocol"@, "C"@), ("verify-alg"@, "sha256"@)],
            c.auto_promote,
    {
        let mut disk_options = OptionMap::new();
        disk_options.insert("on-io-error".to_owned(), "detach".to_owned());
        let mut net_options = OptionMap::new();
        net_options.insert("protocol".to_owned(), "C".to_owned());
        proof {
            reveal_strlit("protocol");
            reveal_strlit("verify-alg");
            assert("protocol"@.len() != "verify-alg"@.len());
            let m = net_options@;
            assert(m =~= seq![("protocol"@, "C"@)]);
            assert(m.last().0 == "protocol"@);
            assert(key_pos(m.drop_last(), "verify-alg"@) is None);
            assert(key_pos(m, "verify-alg"@) is None);
        }
        net_options.insert("verify-alg".to_owned(), "sha256".to_owned());
        assert(disk_options@ =~= seq![("on-io-error"@, "detach"@)]);
        assert(net_options@ =~= seq![("protocol"@, "C"@), ("verify-alg"@, "sha256"@)]);
        ResourceConfig {
            name: String::new(),
            port: 7789,
            minor: 0,
            device: "/dev/drbd0".to_owned(),
            nodes: Vec::new(),
            disk_options,
            net_options,
            auto_promote: true,
        }
    }
}

/// VIP configuration for the drbd-reactor promoter.
#[derive(Debug, Clone)]
pub struct VipPluginConfig {
    pub address: String,
    pub netmask: u8,
}

/// OCF agent configuration.
#[derive(Debug, Clone)]
pub struct OcfAgentConfig {
    /// e.g. "ocf:heartbeat:IPaddr2"
    pub name: String,
    /// e.g. "r0_vip"
    pub instance_name: String,
    pub params: Vec<ParamEntry>,
}

/// Promoter configuration for drbd-reactor.
#[derive(Debug, Clone)]
pub struct PromoterPluginConfig {
    pub resource: String,
    /// Mount unit to start before services (e.g. "var-lib-mysql.mount").
    pub mount_unit: Option<String>,
    pub start: Vec<String>,
    pub stop_services_on_exit: bool,
    pub on_drbd_demote_failure: String,
    pub vip: Option<VipPluginConfig>,
    /// Generic OCF agents to start.
    pub ocf_agents: Vec<OcfAgentConfig>,
    /// Mount strategy: "systemd" (default) or "ocf".
    pub mount_strategy: Option<String>,
    /// Mount point (required for the OCF strategy).
    pub mount_point: Option<String>,
    /// Filesystem type (required for the OCF strategy).
    pub fs_type: Option<String>,
    pub dependencies_as: Option<String>,
    pub target_as: Option<String>,
    pub on_quorum_loss: Option<String>,
    pub preferred_nodes: Option<Vec<String>>,
    pub preferred_nodes_policy: Option<String>,
    pub sleep_before_promote_factor: Option<u32>,
}

// ---------------------------------------------------------------------------
// The DRBD resource file
// ---------------------------------------------------------------------------

/// One `key value;` option line.
pub open spec fn option_line(e: (Seq<char>, Seq<char>)) -> Seq<char> {
    "        "@ + (e.0 + " "@ + e.1 + ";"@) + "\n"@
}

/// The option lines of a map, in order.
pub open spec fn option_lines(m: Seq<(Seq<char>, Seq<char>)>) -> Seq<char>
    decreases m.len(),
{
    if m.len() == 0 {
        Seq::empty()
    } else {
        option_lines(m.drop_last()) + option_line(m.last())
    }
}

/// The `on <host> { ... }` block of one node.
pub open spec fn node_block(n: NodeConfig, port: u16, device: Seq<char>, minor: u32) -> Seq<char> {
    "    "@ + ("on "@ + n.hostname@ + " {"@) + "\n        "@ + ("node-id "@ + decimal(
        n.node_id as nat,
    )) + ";\n        "@ + ("address "@ + n.ip@ + ":"@ + decimal(port as nat))
        + ";\n        volume 0 {\n            "@ + ("device "@ + device + " minor "@ + decimal(
        minor as nat,
    )) + ";\n            "@ + ("disk "@ + n.disk@ + ";"@)
        + "\n            meta-disk internal;\n        }\n    }\n\n"@
}

/// The node blocks of all nodes, in order.
pub open spec fn node_blocks(ns: Seq<NodeConfig>, port: u16, device: Seq<char>, minor: u32) -> Seq<
    char,
>
    decreases ns.len(),
{
    if ns.len() == 0 {
        Seq::empty()
    } else {
        node_blocks(ns.drop_last(), port, device, minor) + node_block(ns.last(), port, device, minor)
    }
}

/// ` host1 host2 ...` for the connection mesh.
pub open spec fn host_list(ns: Seq<NodeConfig>) -> Seq<char>
    decreases ns.len(),
{
    if ns.len() == 0 {
        Seq::empty()
    } else {
        host_list(ns.drop_last()) + " "@ + ns.last().hostname@
    }
}

/// The `options { ... }` section.
pub open spec fn options_section(auto_promote: bool) -> Seq<char> {
    "    options {\n        "@ + ("auto-promote "@ + (if auto_promote {
        "yes"@
    } else {
        "no"@
    })) + ";\n        quorum majority;\n        on-no-quorum io-error;\n"@ + (if auto_promote {
        Seq::empty()
    } else {
        "        "@ + "on-suspended-primary-outdated force-secondary;"@ + "\n        "@
            + "on-no-data-accessible io-error;"@ + "\n"@
    }) + "    }\n\n"@
}

/// The complete DRBD resource file for `c`.
pub open spec fn drbd_resource_text(c: ResourceConfig) -> Seq<char> {
    "# DRBD resource configuration\n# Generated by drbd-ha\n\n"@ + ("resource "@ + c.name@)
        + " {\n"@ + options_section(c.auto_promote) + "    disk {\n"@ + option_lines(c.disk_options@)
        + "    }\n\n    net {\n"@ + option_lines(c.net_options@) + "    }\n\n"@ + node_blocks(
        c.nodes@,
        c.port,
        c.device@,
        c.minor,
    ) + "    connection-mesh {\n        "@ + ("hosts"@ + host_list(c.nodes@)) + ";\n    }\n}\n"@
}

fn push_option_lines(s: &mut String, m: &OptionMap)
    ensures
        final(s)@ == old(s)@ + option_lines(m@),
{
    let entries = m.entries();
    let ghost start = s@;
    let mut i: usize = 0;
    while i < entries.len()
        invariant
            i <= entries.len(),
            entries_view(entries@) == m@,
            s@ == start + option_lines(m@.take(i as int)),
        decreases entries.len() - i,
    {
        let e = &entries[i];
        push_str(s, "        ");
        push_str(s, e.key.as_str());
        push_str(s, " ");
        push_str(s, e.value.as_str());
        push_str(s, ";");
        push_str(s, "\n");
        i = i + 1;
        assert(m@.take(i as int).drop_last() =~= m@.take(i - 1));
        assert(m@.take(i as int).last() == entry_view(*e));
        assert(s@ =~= start + option_lines(m@.take(i as int)));
    }
    assert(m@.take(entries.len() as int) =~= m@);
}

fn push_node_block(s: &mut String, n: &NodeConfig, port: u16, device: &String, minor: u32)
    ensures
        final(s)@ == old(s)@ + node_block(*n, port, device@, minor),
{
    let ghost start = s@;
    push_str(s, "    ");
    push_str(s, "on ");
    push_str(s, n.hostname.as_str());
    push_str(s, " {");
    push_str(s, "\n        ");
    push_str(s, "node-id ");
    push_decimal(s, n.node_id as u64);
    push_str(s, ";\n        ");
    push_str(s, "address ");
    push_str(s, n.ip.as_str());
    push_str(s, ":");
    push_decimal(s, port as u64);
    push_str(s, ";\n        volume 0 {\n            ");
    push_str(s, "device ");
    push_str(s, device.as_str());
    push_str(s, " minor ");
    push_decimal(s, minor as u64);
    push_str(s, ";\n            ");
    push_str(s, "disk ");
    push_str(s, n.disk.as_str());
    push_str(s, ";");
    push_str(s, "\n            meta-disk internal;\n        }\n    }\n\n");
    assert(s@ =~= start + node_block(*n, port, device@, minor));
}

fn push_node_blocks(s: &mut String, c: &ResourceConfig)
    ensures
        final(s)@ == old(s)@ + node_blocks(c.nodes@, c.port, c.device@, c.minor),
{
    let ghost start = s@;
    let mut i: usize = 0;
    while i < c.nodes.len()
        invariant
            i <= c.nodes.len(),
            s@ == start + node_blocks(c.nodes@.take(i as int), c.port, c.device@, c.minor),
        decreases c.nodes.len() - i,
    {
        push_node_block(s, &c.nodes[i], c.port, &c.device, c.minor);
        i = i + 1;
        assert(c.nodes@.take(i as int).drop_last() =~= c.nodes@.take(i - 1));
        assert(s@ =~= start + node_blocks(c.nodes@.take(i as int), c.port, c.device@, c.minor));
    }
    assert(c.nodes@.take(c.nodes.len() as int) =~= c.nodes@);
}

fn push_host_list(s: &mut String, nodes: &Vec<NodeConfig>)
    ensures
        final(s)@ == old(s)@ + host_list(nodes@),
{
    let ghost start = s@;
    let mut i: usize = 0;
    while i < nodes.len()
        invariant
            i <= nodes.len(),
            s@ == start + host_list(nodes@.take(i as int)),
        decreases nodes.len() - i,
    {
        push_str(s, " ");
        push_str(s, nodes[i].hostname.as_str());
        i = i + 1;
        assert(nodes@.take(i as int).drop_last() =~= nodes@.take(i - 1));
        assert(s@ =~= start + host_list(nodes@.take(i as int)));
    }
    assert(nodes@.take(nodes.len() as int) =~= nodes@);
}

fn push_options_section(s: &mut String, auto_promote: bool)
    ensures
        final(s)@ == old(s)@ + options_section(auto_promote),
{
    let ghost start = s@;
    push_str(s, "    options {\n        ");
    push_str(s, "auto-promote ");
    if auto_promote {
        push_str(s, "yes");
    } else {
        push_str(s, "no");
    }
    push_str(s, ";\n        quorum majority;\n        on-no-quorum io-error;\n");
    if !auto_promote {
        push_str(s, "        ");
        push_str(s, "on-suspended-primary-outdated force-secondary;");
        push_str(s, "\n        ");
        push_str(s, "on-no-data-accessible io-error;");
        push_str(s, "\n");
    }
    push_str(s, "    }\n\n");
    assert(s@ =~= start + options_section(auto_promote));
}

/// Renders the DRBD resource file for `c`.
pub fn render_drbd_resource(c: &ResourceConfig) -> (s: String)
    ensures
        s@ == drbd_resource_text(*c),
{
    let mut s = String::new();
    push_str(&mut s, "# DRBD resource configuration\n# Generated by drbd-ha\n\n");
    push_str(&mut s, "resource ");
    push_str(&mut s, c.name.as_str());
    push_str(&mut s, " {\n");
    push_options_section(&mut s, c.auto_promote);
    push_str(&mut s, "    disk {\n");
    push_option_lines(&mut s, &c.disk_options);
    push_str(&mut s, "    }\n\n    net {\n");
    push_option_lines(&mut s, &c.net_options);
    push_str(&mut s, "    }\n\n");
    push_node_blocks(&mut s, c);
    push_str(&mut s, "    connection-mesh {\n        ");
    push_str(&mut s, "hosts");
    push_host_list(&mut s, &c.nodes);
    push_str(&mut s, ";\n    }\n}\n");
    assert(s@ =~= drbd_resource_text(*c));
    s
}

// ---------------------------------------------------------------------------
// The drbd-reactor promoter file
// ---------------------------------------------------------------------------

/// An optional text setting counts as set when present and non-empty.
pub open spec fn is_set(o: Option<String>) -> bool {
    o matches Some(v) && v@.len() > 0
}

/// The mount strategy is the OCF `Filesystem` agent.
pub open spec fn uses_ocf_mount(c: PromoterPluginConfig) -> bool {
    c.mount_strategy matches Some(m) && m@ == "ocf"@
}

/// The text of a present option, or nothing.
pub open spec fn text_or_empty(o: Option<String>) -> Seq<char> {
    match o {
        Some(v) => v@,
        None => Seq::empty(),
    }
}

/// The start entry that mounts the filesystem, if any.
pub open spec fn mount_entries(c: PromoterPluginConfig) -> Seq<Seq<char>> {
    if uses_ocf_mount(c) {
        seq![
            "ocf:heartbeat:Filesystem "@ + c.resource@ + "_fs device=/dev/drbd/by-"@ + c.resource@
                + "/0 directory="@ + text_or_empty(c.mount_point) + " fstype="@ + text_or_empty(
                c.fs_type,
            ) + " run_fsck=no force_unmount=true"@,
        ]
    } else if is_set(c.mount_unit) {
        seq![text_or_empty(c.mount_unit)]
    } else {
        Seq::empty()
    }
}

/// The start entry of the virtual IP, if any.
pub open spec fn vip_entries(c: PromoterPluginConfig) -> Seq<Seq<char>> {
    match c.vip {
        Some(v) => seq![
            "ocf:heartbeat:IPaddr2 "@ + c.resource@ + "_vip ip="@ + v.address@ + " cidr_netmask="@
                + decimal(v.netmask as nat),
        ],
        None => Seq::empty(),
    }
}

/// ` key=value` for each agent parameter.
pub open spec fn param_words(ps: Seq<ParamEntry>) -> Seq<char>
    decreases ps.len(),
{
    if ps.len() == 0 {
        Seq::empty()
    } else {
        param_words(ps.drop_last()) + " "@ + ps.last().key@ + "="@ + ps.last().value@
    }
}

/// The start entry of one OCF agent.
pub open spec fn agent_entry(a: OcfAgentConfig) -> Seq<char> {
    a.name@ + " "@ + a.instance_name@ + param_words(a.params@)
}

/// The start entries of the OCF agents, in order.
pub open spec fn agent_entries(c: PromoterPluginConfig) -> Seq<Seq<char>> {
    c.ocf_agents@.map_values(|a: OcfAgentConfig| agent_entry(a))
}

/// The start entries of the services, in order.
pub open spec fn service_entries(c: PromoterPluginConfig) -> Seq<Seq<char>> {
    c.start@.map_values(|v: String| v@)
}

/// The `start` array: filesystem mount first, then the virtual IP, then the OCF agents,
/// then the services.
pub open spec fn start_entries(c: PromoterPluginConfig) -> Seq<Seq<char>> {
    mount_entries(c) + vip_entries(c) + agent_entries(c) + service_entries(c)
}

/// One quoted line of the `start` array.
pub open spec fn start_line(e: Seq<char>) -> Seq<char> {
    "    "@ + ("\""@ + e + "\","@) + "\n"@
}

/// The lines of the `start` array.
pub open spec fn start_lines(es: Seq<Seq<char>>) -> Seq<char>
    decreases es.len(),
{
    if es.len() == 0 {
        Seq::empty()
    } else {
        start_lines(es.drop_last()) + start_line(es.last())
    }
}

/// A `key = "value"` line for a set option, or nothing.
pub open spec fn quoted_setting(prefix: Seq<char>, o: Option<String>) -> Seq<char> {
    if is_set(o) {
        (prefix + text_or_empty(o) + "\""@) + "\n"@
    } else {
        Seq::empty()
    }
}

/// `"name",` for each preferred node.
pub open spec fn preferred_items(ns: Seq<String>) -> Seq<char>
    decreases ns.len(),
{
    if ns.len() == 0 {
        Seq::empty()
    } else {
        preferred_items(ns.drop_last()) + "\""@ + ns.last()@ + "\","@
    }
}

/// The `preferred-nodes` line, when a non-empty list is given.
pub open spec fn preferred_nodes_line(o: Option<Vec<String>>) -> Seq<char> {
    match o {
        Some(ns) => if ns@.len() > 0 {
            ("preferred-nodes = ["@ + preferred_items(ns@) + "]"@) + "\n"@
        } else {
            Seq::empty()
        },
        None => Seq::empty(),
    }
}

/// The `sleep-before-promote-factor` line, when a non-zero factor is given.
pub open spec fn sleep_factor_line(o: Option<u32>) -> Seq<char> {
    match o {
        Some(f) => if f != 0 {
            ("sleep-before-promote-factor = "@ + decimal(f as nat)) + "\n"@
        } else {
            Seq::empty()
        },
        None => Seq::empty(),
    }
}

/// The comment naming the mount strategy, when one is set.
pub open spec fn strategy_line(o: Option<String>) -> Seq<char> {
    if is_set(o) {
        ("# Mount strategy: "@ + text_or_empty(o)) + "\n"@
    } else {
        Seq::empty()
    }
}

/// The settings that are always written after the `start` array.
pub open spec fn promoter_head_settings(c: PromoterPluginConfig) -> Seq<char> {
    "runner = \"systemd\"\n"@ + ("stop-services-on-exit = "@ + (if c.stop_services_on_exit {
        "true"@
    } else {
        "false"@
    })) + "\n"@ + ("on-drbd-demote-failure = \""@ + c.on_drbd_demote_failure@ + "\""@) + "\n"@
}

/// The settings written only when configured.
pub open spec fn optional_settings(c: PromoterPluginConfig) -> Seq<char> {
    quoted_setting("dependencies-as = \""@, c.dependencies_as) + quoted_setting(
        "target-as = \""@,
        c.target_as,
    ) + quoted_setting("on-quorum-loss = \""@, c.on_quorum_loss) + preferred_nodes_line(
        c.preferred_nodes,
    ) + quoted_setting("preferred-nodes-policy = \""@, c.preferred_nodes_policy)
        + sleep_factor_line(c.sleep_before_promote_factor) + strategy_line(c.mount_strategy)
}

/// The settings after the `start` array.
pub open spec fn promoter_settings(c: PromoterPluginConfig) -> Seq<char> {
    promoter_head_settings(c) + optional_settings(c)
}

/// The complete drbd-reactor promoter file for `c`.
pub open spec fn promoter_text(c: PromoterPluginConfig) -> Seq<char> {
    "# drbd-reactor promoter configuration\n# Generated by drbd-ha\n\n[[promoter]]\n"@
        + ("[promoter.resources."@ + c.resource@ + "]"@) + "\nstart = [\n"@ + start_lines(
        start_entries(c),
    ) + "]\n"@
        + promoter_settings(c)
}

/// Whether an optional setting is present and non-empty.
fn is_set_exec(o: &Option<String>) -> (b: bool)
    ensures
        b == is_set(*o),
{
    match o {
        Some(v) => !v.as_str().is_empty(),
        None => false,
    }
}

fn push_opt_text(s: &mut String, o: &Option<String>)
    ensures
        final(s)@ == old(s)@ + text_or_empty(*o),
{
    match o {
        Some(v) => push_str(s, v.as_str()),
        None => {
            assert(s@ =~= s@ + text_or_empty(*o));
        },
    }
}

fn push_start_line(s: &mut String, e: &String)
    ensures
        final(s)@ == old(s)@ + start_line(e@),
{
    let ghost start = s@;
    push_str(s, "    ");
    push_str(s, "\"");
    push_str(s, e.as_str());
    push_str(s, "\",");
    push_str(s, "\n");
    assert(s@ =~= start + start_line(e@));
}

fn push_start_lines(s: &mut String, es: &Vec<String>)
    ensures
        final(s)@ == old(s)@ + start_lines(es@.map_values(|v: String| v@)),
{
    let ghost start = s@;
    let ghost vs = es@.map_values(|v: String| v@);
    let mut i: usize = 0;
    while i < es.len()
        invariant
            i <= es.len(),
            vs == es@.map_values(|v: String| v@),
            s@ == start + start_lines(vs.take(i as int)),
        decreases es.len() - i,
    {
        push_start_line(s, &es[i]);
        i = i + 1;
        assert(vs.take(i as int).drop_last() =~= vs.take(i - 1));
        assert(s@ =~= start + start_lines(vs.take(i as int)));
    }
    assert(vs.take(es.len() as int) =~= vs);
}

fn agent_entry_exec(a: &OcfAgentConfig) -> (e: String)
    ensures
        e@ == agent_entry(*a),
{
    let mut e = String::new();
    push_str(&mut e, a.name.as_str());
    push_str(&mut e, " ");
    push_str(&mut e, a.instance_name.as_str());
    let ghost head = e@;
    let mut i: usize = 0;
    while i < a.params.len()
        invariant
            i <= a.params.len(),
            e@ == head + param_words(a.params@.take(i as int)),
        decreases a.params.len() - i,
    {
        let p = &a.params[i];
        push_str(&mut e, " ");
        push_str(&mut e, p.key.as_str());
        push_str(&mut e, "=");
        push_str(&mut e, p.value.as_str());
        i = i + 1;
        assert(a.params@.take(i as int).drop_last() =~= a.params@.take(i - 1));
        assert(e@ =~= head + param_words(a.params@.take(i as int)));
    }
    assert(a.params@.take(a.params.len() as int) =~= a.params@);
    assert(e@ =~= agent_entry(*a));
    e
}

/// The entries of the `start` array of `c`, in order.
pub fn start_entries_exec(c: &PromoterPluginConfig) -> (es: Vec<String>)
    ensures
        es@.map_values(|v: String| v@) == start_entries(*c),
{
    let mut es: Vec<String> = Vec::new();
    let ocf = match &c.mount_strategy {
        Some(m) => str_eq(m.as_str(), "ocf"),
        None => false,
    };
    if ocf {
        let mut fs = String::new();
        push_str(&mut fs, "ocf:heartbeat:Filesystem ");
        push_str(&mut fs, c.resource.as_str());
        push_str(&mut fs, "_fs device=/dev/drbd/by-");
        push_str(&mut fs, c.resource.as_str());
        push_str(&mut fs, "/0 directory=");
        push_opt_text(&mut fs, &c.mount_point);
        push_str(&mut fs, " fstype=");
        push_opt_text(&mut fs, &c.fs_type);
        push_str(&mut fs, " run_fsck=no force_unmount=true");
        es.push(fs);
    } else if is_set_exec(&c.mount_unit) {
        let mut mu = String::new();
        push_opt_text(&mut mu, &c.mount_unit);
        es.push(mu);
    }
    proof {
        if ocf {
            assert(uses_ocf_mount(*c));
        }
    }
    assert(es@.map_values(|v: String| v@) =~= mount_entries(*c));
    let ghost m = es@.map_values(|v: String| v@);
    match &c.vip {
        Some(v) => {
            let mut ve = String::new();
            push_str(&mut ve, "ocf:heartbeat:IPaddr2 ");
            push_str(&mut ve, c.resource.as_str());
            push_str(&mut ve, "_vip ip=");
            push_str(&mut ve, v.address.as_str());
            push_str(&mut ve, " cidr_netmask=");
            push_decimal(&mut ve, v.netmask as u64);
            es.push(ve);
        },
        None => {},
    }
    assert(es@.map_values(|v: String| v@) =~= m + vip_entries(*c));
    let ghost mv = es@.map_values(|v: String| v@);
    let mut i: usize = 0;
    while i < c.ocf_agents.len()
        invariant
            i <= c.ocf_agents.len(),
            es@.map_values(|v: String| v@) == mv + agent_entries(*c).take(i as int),
        decreases c.ocf_agents.len() - i,
    {
        let e = agent_entry_exec(&c.ocf_agents[i]);
        let ghost before = es@;
        es.push(e);
        assert(es@.map_values(|v: String| v@) =~= before.map_values(|v: String| v@).push(e@));
        i = i + 1;
        assert(es@.map_values(|v: String| v@) =~= mv + agent_entries(*c).take(i as int));
    }
    assert(agent_entries(*c).take(c.ocf_agents.len() as int) =~= agent_entries(*c));
    let ghost mva = es@.map_values(|v: String| v@);
    let mut j: usize = 0;
    while j < c.start.len()
        invariant
            j <= c.start.len(),
            es@.map_values(|v: String| v@) == mva + service_entries(*c).take(j as int),
        decreases c.start.len() - j,
    {
        let ghost before = es@;
        let item = c.start[j].clone();
        es.push(item);
        assert(es@.map_values(|v: String| v@) =~= before.map_values(|v: String| v@).push(item@));
        j = j + 1;
        assert(es@.map_values(|v: String| v@) =~= mva + service_entries(*c).take(j as int));
    }
    assert(service_entries(*c).take(c.start.len() as int) =~= service_entries(*c));
    assert(es@.map_values(|v: String| v@) =~= start_entries(*c));
    es
}

fn push_quoted_setting(s: &mut String, prefix: &str, o: &Option<String>)
    ensures
        final(s)@ == old(s)@ + quoted_setting(prefix@, *o),
{
    let ghost start = s@;
    if is_set_exec(o) {
        push_str(s, prefix);
        push_opt_text(s, o);
        push_str(s, "\"");
        push_str(s, "\n");
    }
    assert(s@ =~= start + quoted_setting(prefix@, *o));
}

fn push_preferred_nodes(s: &mut String, o: &Option<Vec<String>>)
    ensures
        final(s)@ == old(s)@ + preferred_nodes_line(*o),
{
    let ghost start = s@;
    match o {
        Some(ns) => {
            if ns.len() > 0 {
                push_str(s, "preferred-nodes = [");
                let ghost head = s@;
                let mut i: usize = 0;
                while i < ns.len()
                    invariant
                        i <= ns.len(),
                        s@ == head + preferred_items(ns@.take(i as int)),
                    decreases ns.len() - i,
                {
                    push_str(s, "\"");
                    push_str(s, ns[i].as_str());
                    push_str(s, "\",");
                    i = i + 1;
                    assert(ns@.take(i as int).drop_last() =~= ns@.take(i - 1));
                    assert(s@ =~= head + preferred_items(ns@.take(i as int)));
                }
                assert(ns@.take(ns.len() as int) =~= ns@);
                push_str(s, "]");
                push_str(s, "\n");
            }
        },
        None => {},
    }
    assert(s@ =~= start + preferred_nodes_line(*o));
}

fn push_promoter_settings(s: &mut String, c: &PromoterPluginConfig)
    ensures
        final(s)@ == old(s)@ + promoter_settings(*c),
{
    let ghost start = s@;
    push_str(s, "runner = \"systemd\"\n");
    push_str(s, "stop-services-on-exit = ");
    if c.stop_services_on_exit {
        push_str(s, "true");
    } else {
        push_str(s, "false");
    }
    push_str(s, "\n");
    push_str(s, "on-drbd-demote-failure = \"");
    push_str(s, c.on_drbd_demote_failure.as_str());
    push_str(s, "\"");
    push_str(s, "\n");
    assert(s@ =~= start + promoter_head_settings(*c));
    push_optional_settings(s, c);
    assert(s@ =~= start + promoter_settings(*c));
}

fn push_optional_settings(s: &mut String, c: &PromoterPluginConfig)
    ensures
        final(s)@ == old(s)@ + optional_settings(*c),
{
    let ghost start = s@;
    push_quoted_setting(s, "dependencies-as = \"", &c.dependencies_as);
    push_quoted_setting(s, "target-as = \"", &c.target_as);
    push_quoted_setting(s, "on-quorum-loss = \"", &c.on_quorum_loss);
    push_preferred_nodes(s, &c.preferred_nodes);
    push_quoted_setting(s, "preferred-nodes-policy = \"", &c.preferred_nodes_policy);
    match c.sleep_before_promote_factor {
        Some(f) => {
            if f != 0 {
                push_str(s, "sleep-before-promote-factor = ");
                push_decimal(s, f as u64);
                push_str(s, "\n");
            }
        },
        None => {},
    }
    if is_set_exec(&c.mount_strategy) {
        push_str(s, "# Mount strategy: ");
        push_opt_text(s, &c.mount_strategy);
        push_str(s, "\n");
    }
    assert(s@ =~= start + optional_settings(*c));
}

/// Renders the drbd-reactor promoter file for `c`.
pub fn render_promoter(c: &PromoterPluginConfig) -> (s: String)
    ensures
        s@ == promoter_text(*c),
{
    let mut s = String::new();
    push_str(
        &mut s,
        "# drbd-reactor promoter configuration\n# Generated by drbd-ha\n\n[[promoter]]\n",
    );
    push_str(&mut s, "[promoter.resources.");
    push_str(&mut s, c.resource.as_str());
    push_str(&mut s, "]");
    push_str(&mut s, "\nstart = [\n");
    let es = start_entries_exec(c);
    push_start_lines(&mut s, &es);
    push_str(&mut s, "]\n");
    push_promoter_settings(&mut s, c);
    assert(s@ =~= promoter_text(*c));
    s
}

// ---------------------------------------------------------------------------
// Generator and paths
// ---------------------------------------------------------------------------

/// Configuration generator for DRBD resource files and drbd-reactor promoter files.
#[derive(Debug)]
pub struct ConfigGenerator {}

impl ConfigGenerator {
    /// Creates a configuration generator; this always succeeds.
    pub fn new() -> (r: Result<ConfigGenerator, ConfigError>)
        ensures
            r is Ok,
    {
        Ok(ConfigGenerator {  })
    }

    /// Generates the DRBD resource configuration file content.
    pub fn generate_drbd_resource(&self, config: &ResourceConfig) -> (r: Result<String, ConfigError>)
        ensures
            r matches Ok(s) && s@ == drbd_resource_text(*config),
    {
        Ok(render_drbd_resource(config))
    }

    /// Generates the drbd-reactor promoter configuration content.
    pub fn generate_promoter(&self, config: &PromoterPluginConfig) -> (r: Result<String, ConfigError>)
        ensures
            r matches Ok(s) && s@ == promoter_text(*config),
    {
        Ok(render_promoter(config))
    }
}

impl Default for ConfigGenerator {
    fn default() -> (g: Self) {
        ConfigGenerator {  }
    }
}

/// Path of the DRBD resource file of a resource.
pub open spec fn spec_drbd_resource_path(resource_name: Seq<char>) -> Seq<char> {
    ConfigPaths::DRBD_CONF_DIR@ + "/"@ + resource_name + ".res"@
}

/// Path of the drbd-reactor promoter file of a resource.
pub open spec fn spec_promoter_path(resource_name: Seq<char>) -> Seq<char> {
    ConfigPaths::REACTOR_CONF_DIR@ + "/"@ + resource_name + ".toml"@
}

/// Paths for configuration files.
pub struct ConfigPaths;

impl ConfigPaths {
    /// DRBD resource configuration directory.
    pub const DRBD_CONF_DIR: &'static str = "/etc/drbd.d";

    /// drbd-reactor configuration directory.
    pub const REACTOR_CONF_DIR: &'static str = "/etc/drbd-reactor.d";

    /// Path of the DRBD resource file of a resource: `<DRBD_CONF_DIR>/<name>.res`.
    pub fn drbd_resource_path(resource_name: &str) -> (p: String)
        ensures
            p@ == spec_drbd_resource_path(resource_name@),
            p@ == Self::DRBD_CONF_DIR@ + "/"@ + resource_name@ + ".res"@,
    {
        let mut p = String::new();
        push_str(&mut p, Self::DRBD_CONF_DIR);
        push_str(&mut p, "/");
        push_str(&mut p, resource_name);
        push_str(&mut p, ".res");
        assert(p@ =~= Self::DRBD_CONF_DIR@ + "/"@ + resource_name@ + ".res"@);
        p
    }

    /// Path of the drbd-reactor promoter file of a resource: `<REACTOR_CONF_DIR>/<name>.toml`.
    pub fn promoter_path(resource_name: &str) -> (p: String)
        ensures
            p@ == spec_promoter_path(resource_name@),
            p@ == Self::REACTOR_CONF_DIR@ + "/"@ + resource_name@ + ".toml"@,
    {
        let mut p = String::new();
        push_str(&mut p, Self::REACTOR_CONF_DIR);
        push_str(&mut p, "/");
        push_str(&mut p, resource_name);
        push_str(&mut p, ".toml");
        assert(p@ =~= Self::REACTOR_CONF_DIR@ + "/"@ + resource_name@ + ".toml"@);
        p
    }
}

// ---------------------------------------------------------------------------
// Laws
// ---------------------------------------------------------------------------

proof fn lemma_node_blocks_contain(ns: Seq<NodeConfig>, port: u16, device: Seq<char>, minor: u32, i: int)
    requires
        0 <= i < ns.len(),
    ensures
        contains(node_blocks(ns, port, device, minor), node_block(ns[i], port, device, minor)),
    decreases ns.len(),
{
    broadcast use lemma_contains_add, lemma_contains_refl;

    if i < ns.len() - 1 {
        lemma_node_blocks_contain(ns.drop_last(), port, device, minor, i);
        assert(ns.drop_last()[i] == ns[i]);
    }
}

proof fn lemma_option_lines_contain(m: Seq<(Seq<char>, Seq<char>)>, i: int)
    requires
        0 <= i < m.len(),
    ensures
        contains(option_lines(m), option_line(m[i])),
    decreases m.len(),
{
    broadcast use lemma_contains_add, lemma_contains_refl;

    if i < m.len() - 1 {
        lemma_option_lines_contain(m.drop_last(), i);
        assert(m.drop_last()[i] == m[i]);
    }
}

proof fn lemma_start_lines_contain(es: Seq<Seq<char>>, i: int)
    requires
        0 <= i < es.len(),
    ensures
        contains(start_lines(es), start_line(es[i])),
    decreases es.len(),
{
    broadcast use lemma_contains_add, lemma_contains_refl;

    if i < es.len() - 1 {
        lemma_start_lines_contain(es.drop_last(), i);
        assert(es.drop_last()[i] == es[i]);
    }
}

/// A DRBD resource file names its resource and, for every node, has an `on <host>` block
/// with the node's id, its address on the resource port, the device with its minor number
/// and the node's backing disk; the connection mesh lists every host.
pub proof fn law_drbd_resource_lists_nodes(c: ResourceConfig, i: int)
    requires
        0 <= i < c.nodes@.len(),
    ensures
        contains(drbd_resource_text(c), "resource "@ + c.name@),
        contains(drbd_resource_text(c), "on "@ + c.nodes@[i].hostname@ + " {"@),
        contains(drbd_resource_text(c), "node-id "@ + decimal(c.nodes@[i].node_id as nat)),
        contains(
            drbd_resource_text(c),
            "address "@ + c.nodes@[i].ip@ + ":"@ + decimal(c.port as nat),
        ),
        contains(
            drbd_resource_text(c),
            "device "@ + c.device@ + " minor "@ + decimal(c.minor as nat),
        ),
        contains(drbd_resource_text(c), "disk "@ + c.nodes@[i].disk@ + ";"@),
        contains(drbd_resource_text(c), "hosts"@ + host_list(c.nodes@)),
{
    broadcast use lemma_contains_add, lemma_contains_refl;

    let n = c.nodes@[i];
    lemma_node_blocks_contain(c.nodes@, c.port, c.device@, c.minor, i);
    let b = node_block(n, c.port, c.device@, c.minor);
    let nb = node_blocks(c.nodes@, c.port, c.device@, c.minor);
    assert(contains(b, "on "@ + n.hostname@ + " {"@));
    assert(contains(b, "node-id "@ + decimal(n.node_id as nat)));
    assert(contains(b, "address "@ + n.ip@ + ":"@ + decimal(c.port as nat)));
    assert(contains(b, "device "@ + c.device@ + " minor "@ + decimal(c.minor as nat)));
    assert(contains(b, "disk "@ + n.disk@ + ";"@));
    lemma_contains_trans(nb, b, "on "@ + n.hostname@ + " {"@);
    lemma_contains_trans(nb, b, "node-id "@ + decimal(n.node_id as nat));
    lemma_contains_trans(nb, b, "address "@ + n.ip@ + ":"@ + decimal(c.port as nat));
    lemma_contains_trans(nb, b, "device "@ + c.device@ + " minor "@ + decimal(c.minor as nat));
    lemma_contains_trans(nb, b, "disk "@ + n.disk@ + ";"@);
}

/// `auto-promote` is written as configured; without it the resource also demotes a
/// suspended outdated primary and fails I/O when no data is accessible.
pub proof fn law_drbd_resource_auto_promote(c: ResourceConfig)
    ensures
        contains(
            drbd_resource_text(c),
            "auto-promote "@ + (if c.auto_promote {
                "yes"@
            } else {
                "no"@
            }),
        ),
        !c.auto_promote ==> contains(
            drbd_resource_text(c),
            "on-suspended-primary-outdated force-secondary;"@,
        ),
        !c.auto_promote ==> contains(drbd_resource_text(c), "on-no-data-accessible io-error;"@),
{
    broadcast use lemma_contains_add, lemma_contains_refl;

}

/// Every disk and net option appears as a `key value;` line.
pub proof fn law_drbd_resource_options(c: ResourceConfig, i: int, j: int)
    ensures
        0 <= i < c.disk_options@.len() ==> contains(
            drbd_resource_text(c),
            c.disk_options@[i].0 + " "@ + c.disk_options@[i].1 + ";"@,
        ),
        0 <= j < c.net_options@.len() ==> contains(
            drbd_resource_text(c),
            c.net_options@[j].0 + " "@ + c.net_options@[j].1 + ";"@,
        ),
{
    broadcast use lemma_contains_add, lemma_contains_refl;

    if 0 <= i < c.disk_options@.len() {
        let e = c.disk_options@[i];
        lemma_option_lines_contain(c.disk_options@, i);
        assert(contains(option_line(e), e.0 + " "@ + e.1 + ";"@));
        lemma_contains_trans(option_lines(c.disk_options@), option_line(e), e.0 + " "@ + e.1 + ";"@);
    }
    if 0 <= j < c.net_options@.len() {
        let e = c.net_options@[j];
        lemma_option_lines_contain(c.net_options@, j);
        assert(contains(option_line(e), e.0 + " "@ + e.1 + ";"@));
        lemma_contains_trans(option_lines(c.net_options@), option_line(e), e.0 + " "@ + e.1 + ";"@);
    }
}

/// The `start` array lists the filesystem mount first, then the virtual IP, then the OCF
/// agents, and ends with the services in the order given.
pub proof fn law_promoter_start_order(c: PromoterPluginConfig)
    ensures
        uses_ocf_mount(c) ==> start_entries(c)[0] == "ocf:heartbeat:Filesystem "@ + c.resource@
            + "_fs device=/dev/drbd/by-"@ + c.resource@ + "/0 directory="@ + text_or_empty(
            c.mount_point,
        ) + " fstype="@ + text_or_empty(c.fs_type) + " run_fsck=no force_unmount=true"@,
        !uses_ocf_mount(c) && is_set(c.mount_unit) ==> start_entries(c)[0] == text_or_empty(
            c.mount_unit,
        ),
        start_entries(c).len() >= c.start@.len(),
        forall|j: int|
            0 <= j < c.start@.len() ==> start_entries(c)[start_entries(c).len() - c.start@.len()
                + j] == #[trigger] c.start@[j]@,
{
}

/// Every entry of the `start` array is written as a quoted array item; in particular every
/// service, and the virtual IP when one is configured.
pub proof fn law_promoter_lists_start_entries(c: PromoterPluginConfig, i: int)
    requires
        0 <= i < start_entries(c).len(),
    ensures
        contains(promoter_text(c), "\""@ + start_entries(c)[i] + "\","@),
        c.vip matches Some(v) ==> contains(
            promoter_text(c),
            "\""@ + ("ocf:heartbeat:IPaddr2 "@ + c.resource@ + "_vip ip="@ + v.address@
                + " cidr_netmask="@ + decimal(v.netmask as nat)) + "\","@,
        ),
{
    broadcast use lemma_contains_add, lemma_contains_refl;

    let es = start_entries(c);
    lemma_start_lines_contain(es, i);
    assert(contains(start_line(es[i]), "\""@ + es[i] + "\","@));
    lemma_contains_trans(start_lines(es), start_line(es[i]), "\""@ + es[i] + "\","@);
    if let Some(v) = c.vip {
        let k = mount_entries(c).len() as int;
        assert(es[k] == vip_entries(c)[0]);
        lemma_start_lines_contain(es, k);
        assert(contains(start_line(es[k]), "\""@ + es[k] + "\","@));
        lemma_contains_trans(start_lines(es), start_line(es[k]), "\""@ + es[k] + "\","@);
    }
}

/// The promoter file names its resource section and states how services stop and what
/// happens when demotion fails.
pub proof fn law_promoter_settings(c: PromoterPluginConfig)
    ensures
        contains(promoter_text(c), "[promoter.resources."@ + c.resource@ + "]"@),
        contains(
            promoter_text(c),
            "stop-services-on-exit = "@ + (if c.stop_services_on_exit {
                "true"@
            } else {
                "false"@
            }),
        ),
        contains(
            promoter_text(c),
            "on-drbd-demote-failure = \""@ + c.on_drbd_demote_failure@ + "\""@,
        ),
{
    broadcast use lemma_contains_add, lemma_contains_refl;

}

} // verus!
