//! Gathering the details of a profile, one query at a time: given the query that ran and
//! what it showed, which query comes next. What each query shows is read by the functions of
//! `profile_details` and `profile_status`.

use vstd::prelude::*;
use crate::drbd_status::DrbdResourceStatus;
use crate::nodes::{parse_res_node_addresses, res_node_addresses, Node, ResNodeAddress};
use crate::profile_details::spec_truly_disabled;
use crate::profile_status::{
    all_active, detect_mount_point, mount_point_of, overall_status, service_view, spec_overall_status,
    spec_vip_active, vip_active_status, ConfigVisibility, HaProfileStatus, HaProfileStatusResponse,
    ServiceStatusInfo,
};
use crate::profile_toml::ConfiguredNode;
use crate::profiles::{disabled_promoter_path, spec_disabled_promoter_path};

verus! {

/// The next query of the details of a profile.
#[derive(Debug, Clone, Copy, PartialEq, Eq, Structural)]
pub enum DetailsAction {
    /// Ask the local drbd-reactor for the profile's status (`flag`: it reported one).
    ReadLocalReactor,
    /// Ask remote node `k` whether it has the profile enabled (`flag`: it does).
    CheckRemoteEnabled(usize),
    /// Read the local DRBD status of the resource.
    ReadDrbdStatus,
    /// Read the resource file for the nodes' addresses (`flag`: the active node is reached
    /// remotely).
    ReadResourceFile,
    /// Query DRBD and drbd-reactor on the active node over ssh.
    QueryRemote,
    /// Query drbd-reactor here.
    QueryLocal,
    /// Merge the services and work out the statuses.
    Assemble,
    /// The profile is disabled on every node: answer so without querying further.
    Disabled,
    /// The details are complete.
    Done,
}

/// What a query showed: whether it ran, and the one fact its output is read for.
#[derive(Debug, Clone, Copy, PartialEq, Eq, Structural)]
pub struct DetailsEvent {
    pub ran: bool,
    pub flag: bool,
}

/// The query after `a`, for a profile disabled locally or not and `remotes` remote nodes.
pub open spec fn spec_details_step(a: DetailsAction, e: DetailsEvent, locally_disabled: bool, remotes: nat) -> DetailsAction {
    match a {
        DetailsAction::ReadLocalReactor => if !e.ran {
            if locally_disabled { DetailsAction::Disabled } else { DetailsAction::ReadDrbdStatus }
        } else if e.flag || !locally_disabled {
            DetailsAction::ReadDrbdStatus
        } else if remotes > 0 {
            DetailsAction::CheckRemoteEnabled(0)
        } else {
            DetailsAction::Disabled
        },
        DetailsAction::CheckRemoteEnabled(k) => if e.ran && e.flag {
            DetailsAction::ReadDrbdStatus
        } else if k + 1 < remotes {
            DetailsAction::CheckRemoteEnabled((k + 1) as usize)
        } else {
            DetailsAction::Disabled
        },
        DetailsAction::ReadDrbdStatus => DetailsAction::ReadResourceFile,
        DetailsAction::ReadResourceFile => if e.flag {
            DetailsAction::QueryRemote
        } else {
            DetailsAction::QueryLocal
        },
        DetailsAction::QueryRemote => if e.ran {
            DetailsAction::Assemble
        } else {
            DetailsAction::QueryLocal
        },
        DetailsAction::QueryLocal => DetailsAction::Assemble,
        DetailsAction::Assemble => DetailsAction::Done,
        DetailsAction::Disabled => DetailsAction::Disabled,
        DetailsAction::Done => DetailsAction::Done,
    }
}

/// The first query.
pub fn details_start() -> (a: DetailsAction)
    ensures
        a == DetailsAction::ReadLocalReactor,
{
    DetailsAction::ReadLocalReactor
}

/// Decides the query after `current`, given what it showed.
pub fn details_step(current: &DetailsAction, event: &DetailsEvent, locally_disabled: bool, remotes: usize) -> (a: DetailsAction)
    requires
        current matches DetailsAction::CheckRemoteEnabled(k) ==> k < remotes,
    ensures
        a == spec_details_step(*current, *event, locally_disabled, remotes as nat),
        a matches DetailsAction::CheckRemoteEnabled(k) ==> k < remotes,
{
    match *current {
        DetailsAction::ReadLocalReactor => if !event.ran {
            if locally_disabled { DetailsAction::Disabled } else { DetailsAction::ReadDrbdStatus }
        } else if event.flag || !locally_disabled {
            DetailsAction::ReadDrbdStatus
        } else if remotes > 0 {
            DetailsAction::CheckRemoteEnabled(0)
        } else {
            DetailsAction::Disabled
        },
        DetailsAction::CheckRemoteEnabled(k) => if event.ran && event.flag {
            DetailsAction::ReadDrbdStatus
        } else if k + 1 < remotes {
            DetailsAction::CheckRemoteEnabled(k + 1)
        } else {
            DetailsAction::Disabled
        },
        DetailsAction::ReadDrbdStatus => DetailsAction::ReadResourceFile,
        DetailsAction::ReadResourceFile => if event.flag {
            DetailsAction::QueryRemote
        } else {
            DetailsAction::QueryLocal
        },
        DetailsAction::QueryRemote => if event.ran {
            DetailsAction::Assemble
        } else {
            DetailsAction::QueryLocal
        },
        DetailsAction::QueryLocal => DetailsAction::Assemble,
        DetailsAction::Assemble => DetailsAction::Done,
        DetailsAction::Disabled => DetailsAction::Disabled,
        DetailsAction::Done => DetailsAction::Done,
    }
}

// ---------------------------------------------------------------------------
// The answer
// ---------------------------------------------------------------------------

/// The details of a profile: its status, the nodes its resource file configures, and the raw
/// text of its DRBD resource file and promoter file where they could be read.
#[derive(Debug)]
pub struct HaProfileDetails {
    pub summary: HaProfileStatusResponse,
    pub configured_nodes: Vec<ConfiguredNode>,
    pub drbd_config_raw: Option<String>,
    pub promoter_config_raw: Option<String>,
}

/// A configured node as plain values: hostname, address.
pub open spec fn configured_view(c: ConfiguredNode) -> (Seq<char>, Seq<char>) {
    (c.hostname@, c.ip@)
}

/// The configured nodes of a profile: those of its resource file when it could be read,
/// else every known node.
pub open spec fn spec_configured_nodes(res_content: Option<Seq<char>>, known: Seq<Node>) -> Seq<(Seq<char>, Seq<char>)> {
    match res_content {
        Some(c) => res_node_addresses(c),
        None => known.map_values(|n: Node| (n.hostname@, n.ip@)),
    }
}

/// The nodes a profile is configured on: the `on` blocks of its resource file `res_content`
/// when it could be read, else every known node.
pub fn configured_nodes_of(res_content: &Option<String>, known: &Vec<Node>) -> (r: Vec<ConfiguredNode>)
    ensures
        r@.map_values(|c: ConfiguredNode| configured_view(c)) == spec_configured_nodes(
            match res_content {
                Some(c) => Some(c@),
                None => None,
            },
            known@,
        ),
{
    let mut r: Vec<ConfiguredNode> = Vec::new();
    match res_content {
        Some(content) => {
            let parsed = parse_res_node_addresses(content.as_str());
            let ghost pv = parsed@.map_values(|a: ResNodeAddress| (a.hostname@, a.ip@));
            let mut i: usize = 0;
            while i < parsed.len()
                invariant
                    i <= parsed.len(),
                    pv == parsed@.map_values(|a: ResNodeAddress| (a.hostname@, a.ip@)),
                    r@.map_values(|c: ConfiguredNode| configured_view(c)) == pv.take(i as int),
                decreases parsed.len() - i,
            {
                r.push(ConfiguredNode { hostname: parsed[i].hostname.clone(), ip: parsed[i].ip.clone() });
                assert(pv.take(i + 1) =~= pv.take(i as int).push(pv[i as int]));
                i = i + 1;
            }
            assert(pv.take(parsed.len() as int) =~= pv);
        },
        None => {
            let ghost kv = known@.map_values(|n: Node| (n.hostname@, n.ip@));
            let mut i: usize = 0;
            while i < known.len()
                invariant
                    i <= known.len(),
                    kv == known@.map_values(|n: Node| (n.hostname@, n.ip@)),
                    r@.map_values(|c: ConfiguredNode| configured_view(c)) == kv.take(i as int),
                decreases known.len() - i,
            {
                r.push(ConfiguredNode { hostname: known[i].hostname.clone(), ip: known[i].ip.clone() });
                assert(kv.take(i + 1) =~= kv.take(i as int).push(kv[i as int]));
                i = i + 1;
            }
            assert(kv.take(known.len() as int) =~= kv);
        },
    }
    r
}

/// The details of a profile disabled on every node: status `Disabled`, no active node, no
/// mount point, no DRBD status, no services, the virtual IP reported down, the disabled
/// promoter file reported present and drbd-reactor running, an empty raw status, and the
/// configured nodes and raw files as given.
pub fn disabled_details(
    id: &str,
    name: &str,
    configured_nodes: Vec<ConfiguredNode>,
    drbd_config_raw: Option<String>,
    promoter_config_raw: Option<String>,
) -> (d: HaProfileDetails)
    ensures
        d.summary.id@ == id@,
        d.summary.name@ == name@,
        d.summary.status == HaProfileStatus::Disabled,
        d.summary.active_node is None,
        d.summary.mount_point is None,
        d.summary.drbd is None,
        d.summary.service_statuses@.len() == 0,
        d.summary.vip_active == Some(false),
        d.summary.config.promoter_config_exists,
        d.summary.config.promoter_config_path@ == spec_disabled_promoter_path(name@),
        d.summary.config.reactor_running,
        d.summary.reactor_status_raw matches Some(r) && r@.len() == 0,
        d.configured_nodes@ == configured_nodes@,
        d.drbd_config_raw == drbd_config_raw,
        d.promoter_config_raw == promoter_config_raw,
{
    HaProfileDetails {
        summary: HaProfileStatusResponse {
            id: id.to_owned(),
            name: name.to_owned(),
            status: HaProfileStatus::Disabled,
            active_node: None,
            mount_point: None,
            drbd: None,
            service_statuses: Vec::new(),
            vip_active: Some(false),
            config: ConfigVisibility {
                promoter_config_exists: true,
                promoter_config_path: disabled_promoter_path(name),
                reactor_running: true,
            },
            reactor_status_raw: Some(String::new()),
        },
        configured_nodes,
        drbd_config_raw,
        promoter_config_raw,
    }
}

/// The details of a profile enabled somewhere, from what the queries found: the active node,
/// the DRBD status, the raw drbd-reactor status and the merged services. Its status is
/// `overall_status` of these, its mount point the one the services show, and the virtual IP is
/// judged from the services alone (no local address check); the rest is as given.
pub fn enabled_details(
    id: &str,
    name: &str,
    has_vip: bool,
    active_node: Option<String>,
    drbd: Option<DrbdResourceStatus>,
    reactor_status_raw: Option<String>,
    services: Vec<ServiceStatusInfo>,
    config: ConfigVisibility,
    configured_nodes: Vec<ConfiguredNode>,
    drbd_config_raw: Option<String>,
    promoter_config_raw: Option<String>,
) -> (d: HaProfileDetails)
    ensures
        d.summary.id@ == id@,
        d.summary.name@ == name@,
        d.summary.status == spec_overall_status(
            active_node is Some,
            match drbd {
                Some(s) => Some(s.role@),
                None => None,
            },
            all_active(services@.map_values(|s: ServiceStatusInfo| service_view(s))),
        ),
        d.summary.active_node == active_node,
        match d.summary.mount_point {
            Some(m) => mount_point_of(services@.map_values(|s: ServiceStatusInfo| s.name@)) == Some(m@),
            None => mount_point_of(services@.map_values(|s: ServiceStatusInfo| s.name@)) is None,
        },
        d.summary.drbd == drbd,
        d.summary.service_statuses@ == services@,
        d.summary.vip_active == spec_vip_active(
            has_vip,
            active_node is Some,
            false,
            services@.map_values(|s: ServiceStatusInfo| service_view(s)),
        ),
        d.summary.config == config,
        d.summary.reactor_status_raw == reactor_status_raw,
        d.configured_nodes@ == configured_nodes@,
        d.drbd_config_raw == drbd_config_raw,
        d.promoter_config_raw == promoter_config_raw,
{
    let status = overall_status(active_node.is_some(), &drbd, &services);
    let vip_active = vip_active_status(has_vip, active_node.is_some(), false, &services);
    let mount_point = detect_mount_point(&services);
    HaProfileDetails {
        summary: HaProfileStatusResponse {
            id: id.to_owned(),
            name: name.to_owned(),
            status,
            active_node,
            mount_point,
            drbd,
            service_statuses: services,
            vip_active,
            config,
            reactor_status_raw,
        },
        configured_nodes,
        drbd_config_raw,
        promoter_config_raw,
    }
}

/// The details stop at `Disabled` right after drbd-reactor was asked exactly when
/// `truly_disabled` says the profile is disabled everywhere, no remote node being known to
/// have it enabled yet.
pub proof fn law_disabled_after_reactor(e: DetailsEvent, locally_disabled: bool, remotes: nat)
    requires
        remotes == 0 || !e.ran || e.flag || !locally_disabled,
    ensures
        (spec_details_step(DetailsAction::ReadLocalReactor, e, locally_disabled, remotes) == DetailsAction::Disabled)
            == spec_truly_disabled(if e.ran { Some(e.flag) } else { None }, locally_disabled, Some(false)),
{
}

/// A remote node that reports the profile enabled ends the search: the details go on to the
/// DRBD status, so the profile is not answered as disabled.
pub proof fn law_enabled_somewhere(k: usize, locally_disabled: bool, remotes: nat)
    ensures
        spec_details_step(DetailsAction::CheckRemoteEnabled(k), DetailsEvent { ran: true, flag: true }, locally_disabled, remotes)
            == DetailsAction::ReadDrbdStatus,
        spec_truly_disabled(Some(false), locally_disabled, Some(true)) == false,
{
}


/// The queries of the details run in order: after drbd-reactor answers (or for a profile not
/// disabled here) the DRBD status is read, then the resource file; the active node is
/// queried remotely when it is reached over ssh and, failing that, drbd-reactor is asked
/// here; then the answer is assembled. Remote nodes are asked one after the other whether
/// they have the profile enabled, and the search ends at the first that does.
pub proof fn law_details_order(e: DetailsEvent, locally_disabled: bool, remotes: nat, k: usize)
    ensures
        (!locally_disabled) ==> spec_details_step(DetailsAction::ReadLocalReactor, e, locally_disabled, remotes)
            == DetailsAction::ReadDrbdStatus,
        (e.ran && e.flag) ==> spec_details_step(DetailsAction::ReadLocalReactor, e, locally_disabled, remotes)
            == DetailsAction::ReadDrbdStatus,
        (e.ran && !e.flag && locally_disabled && remotes > 0) ==> spec_details_step(
            DetailsAction::ReadLocalReactor,
            e,
            locally_disabled,
            remotes,
        ) == DetailsAction::CheckRemoteEnabled(0),
        (!(e.ran && e.flag) && k + 1 < remotes) ==> spec_details_step(
            DetailsAction::CheckRemoteEnabled(k),
            e,
            locally_disabled,
            remotes,
        ) == DetailsAction::CheckRemoteEnabled((k + 1) as usize),
        (!(e.ran && e.flag) && k + 1 >= remotes) ==> spec_details_step(
            DetailsAction::CheckRemoteEnabled(k),
            e,
            locally_disabled,
            remotes,
        ) == DetailsAction::Disabled,
        spec_details_step(DetailsAction::ReadDrbdStatus, e, locally_disabled, remotes) == DetailsAction::ReadResourceFile,
        spec_details_step(DetailsAction::ReadResourceFile, e, locally_disabled, remotes) == (if e.flag {
            DetailsAction::QueryRemote
        } else {
            DetailsAction::QueryLocal
        }),
        spec_details_step(DetailsAction::QueryRemote, e, locally_disabled, remotes) == (if e.ran {
            DetailsAction::Assemble
        } else {
            DetailsAction::QueryLocal
        }),
        spec_details_step(DetailsAction::QueryLocal, e, locally_disabled, remotes) == DetailsAction::Assemble,
        spec_details_step(DetailsAction::Assemble, e, locally_disabled, remotes) == DetailsAction::Done,
{
}

} // verus!
