//! Deleting a profile across the cluster, one command at a time: given the command that ran
//! and how it went, what runs next. The commands are built in `profile_delete`.

use vstd::prelude::*;
use crate::activation_flow::CommandOutcome;
use crate::nodes::{hostname_pos, Node};
use crate::profile_delete::{primary_location, spec_primary_location, DeletionFindings};
use crate::profiles::{str_opt, DeleteProfileQuery};

verus! {

/// The next command of a deletion; `k` is the position of a node in the node list.
#[derive(Debug, Clone, Copy, PartialEq, Eq, Structural)]
pub enum DeletionAction {
    /// `drbdadm status` on this node, read for where the resource is primary.
    ReadStatus,
    /// `drbd-reactorctl disable` of the profile (here, where it is primary).
    DisableProfile,
    /// Stop the generated mount unit.
    StopMountUnit,
    /// Disable the generated mount unit.
    DisableMountUnit,
    /// Stop service `k`.
    StopService(usize),
    /// `drbdadm secondary` here.
    DemoteLocal,
    /// Remove the generated mount unit and service overrides from node `k`.
    CleanNode(usize),
    /// Unmount the mount point here.
    UnmountLocal,
    /// Unmount the mount point on node `k`, where the resource is primary.
    UnmountOn(usize),
    /// `drbdadm secondary` on node `k`.
    Secondary(usize),
    /// `drbdadm disconnect` on node `k`.
    Disconnect(usize),
    /// `drbdadm down` on node `k` (the first after a second's wait).
    Down(usize),
    /// `drbdadm wipe-md --force` on node `k` (the first after two seconds' wait).
    WipeMetadata(usize),
    /// Remove the DRBD resource file from node `k`.
    RemoveResourceFile(usize),
    /// Remove both promoter files from node `k`.
    RemovePromoterFiles(usize),
    /// Reload drbd-reactor on node `k`.
    ReloadReactor(usize),
    /// Check what is left (`deletion_problems`).
    Verify,
    /// The profile is deleted.
    Deleted,
}

/// A deletion in progress: the command under way and where the resource was primary.
#[derive(Debug, Clone, Copy, PartialEq, Eq, Structural)]
pub struct DeletionState {
    pub pending: DeletionAction,
    pub local_primary: bool,
    pub remote_primary: Option<usize>,
}

/// What a deletion was asked for, and what the profile has.
#[derive(Debug, Clone, Copy, PartialEq, Eq, Structural)]
pub struct DeletionPlan {
    /// Number of nodes in the store.
    pub nodes: usize,
    /// Number of managed services.
    pub services: usize,
    /// The profile has a generated mount unit.
    pub has_mount_unit: bool,
    /// Tear the DRBD resource down and remove it.
    pub delete_resource: bool,
    /// Remove the promoter files.
    pub delete_config_file: bool,
}

/// The plan of a deletion.
pub fn deletion_plan(nodes: usize, services: usize, has_mount_unit: bool, query: &DeleteProfileQuery) -> (p: DeletionPlan)
    ensures
        p == (DeletionPlan {
            nodes,
            services,
            has_mount_unit,
            delete_resource: query.delete_resource,
            delete_config_file: query.delete_config_file,
        }),
{
    DeletionPlan {
        nodes,
        services,
        has_mount_unit,
        delete_resource: query.delete_resource,
        delete_config_file: query.delete_config_file,
    }
}

/// `s` with `a` under way.
pub open spec fn go_to(s: DeletionState, a: DeletionAction) -> DeletionState {
    DeletionState { pending: a, ..s }
}

/// From reloading drbd-reactor on node `k` on.
pub open spec fn from_reload(s: DeletionState, p: DeletionPlan, k: int) -> DeletionState {
    if 0 <= k < p.nodes {
        go_to(s, DeletionAction::ReloadReactor(k as usize))
    } else {
        go_to(s, DeletionAction::Verify)
    }
}

/// From removing the promoter files of node `k` on.
pub open spec fn from_promoter_files(s: DeletionState, p: DeletionPlan, k: int) -> DeletionState {
    if p.delete_config_file && 0 <= k < p.nodes {
        go_to(s, DeletionAction::RemovePromoterFiles(k as usize))
    } else {
        from_reload(s, p, 0)
    }
}

/// From removing the resource file of node `k` on.
pub open spec fn from_resource_files(s: DeletionState, p: DeletionPlan, k: int) -> DeletionState {
    if p.delete_resource && 0 <= k < p.nodes {
        go_to(s, DeletionAction::RemoveResourceFile(k as usize))
    } else {
        from_promoter_files(s, p, 0)
    }
}

/// From wiping the metadata of node `k` on.
pub open spec fn from_wipe(s: DeletionState, p: DeletionPlan, k: int) -> DeletionState {
    if p.delete_resource && 0 <= k < p.nodes {
        go_to(s, DeletionAction::WipeMetadata(k as usize))
    } else {
        from_resource_files(s, p, 0)
    }
}

/// From taking the resource down on node `k` on.
pub open spec fn from_down(s: DeletionState, p: DeletionPlan, k: int) -> DeletionState {
    if p.delete_resource && 0 <= k < p.nodes {
        go_to(s, DeletionAction::Down(k as usize))
    } else {
        from_wipe(s, p, 0)
    }
}

/// From making node `k` secondary on.
pub open spec fn from_secondary(s: DeletionState, p: DeletionPlan, k: int) -> DeletionState {
    if p.delete_resource && 0 <= k < p.nodes {
        go_to(s, DeletionAction::Secondary(k as usize))
    } else {
        from_down(s, p, 0)
    }
}

/// From the unmount on: here when the resource is primary here, else on the primary node
/// when it is known.
pub open spec fn from_unmount(s: DeletionState, p: DeletionPlan) -> DeletionState {
    if s.local_primary {
        go_to(s, DeletionAction::UnmountLocal)
    } else {
        match s.remote_primary {
            Some(k) => go_to(s, DeletionAction::UnmountOn(k)),
            None => from_secondary(s, p, 0),
        }
    }
}

/// From cleaning node `k` on.
pub open spec fn from_clean(s: DeletionState, p: DeletionPlan, k: int) -> DeletionState {
    if 0 <= k < p.nodes {
        go_to(s, DeletionAction::CleanNode(k as usize))
    } else {
        from_unmount(s, p)
    }
}

/// From stopping service `k` on.
pub open spec fn from_stop(s: DeletionState, p: DeletionPlan, k: int) -> DeletionState {
    if 0 <= k < p.services {
        go_to(s, DeletionAction::StopService(k as usize))
    } else {
        go_to(s, DeletionAction::DemoteLocal)
    }
}

/// From stopping the mount unit on.
pub open spec fn from_mount_unit(s: DeletionState, p: DeletionPlan) -> DeletionState {
    if p.has_mount_unit {
        go_to(s, DeletionAction::StopMountUnit)
    } else {
        from_stop(s, p, 0)
    }
}

/// The deletion step after `s`, given how its command went (only the status read is looked
/// at: its output, `None` when it could not run). Every other failure is passed over.
pub open spec fn spec_deletion_step(
    s: DeletionState,
    p: DeletionPlan,
    ran: bool,
    out: Seq<char>,
    resource: Seq<char>,
    nodes: Seq<Node>,
) -> DeletionState {
    match s.pending {
        DeletionAction::ReadStatus => {
            let loc = spec_primary_location(if ran { Some(out) } else { None }, resource);
            let located = DeletionState {
                pending: DeletionAction::ReadStatus,
                local_primary: loc.0,
                remote_primary: match loc.1 {
                    Some(h) => match hostname_pos(nodes, h, 0) {
                        Some(k) => Some(k as usize),
                        None => None,
                    },
                    None => None,
                },
            };
            if loc.0 {
                go_to(located, DeletionAction::DisableProfile)
            } else {
                from_clean(located, p, 0)
            }
        },
        DeletionAction::DisableProfile => from_mount_unit(s, p),
        DeletionAction::StopMountUnit => go_to(s, DeletionAction::DisableMountUnit),
        DeletionAction::DisableMountUnit => from_stop(s, p, 0),
        DeletionAction::StopService(k) => from_stop(s, p, k + 1),
        DeletionAction::DemoteLocal => from_clean(s, p, 0),
        DeletionAction::CleanNode(k) => from_clean(s, p, k + 1),
        DeletionAction::UnmountLocal => from_secondary(s, p, 0),
        DeletionAction::UnmountOn(_) => from_secondary(s, p, 0),
        DeletionAction::Secondary(k) => go_to(s, DeletionAction::Disconnect(k)),
        DeletionAction::Disconnect(k) => from_secondary(s, p, k + 1),
        DeletionAction::Down(k) => from_down(s, p, k + 1),
        DeletionAction::WipeMetadata(k) => from_wipe(s, p, k + 1),
        DeletionAction::RemoveResourceFile(k) => from_resource_files(s, p, k + 1),
        DeletionAction::RemovePromoterFiles(k) => from_promoter_files(s, p, k + 1),
        DeletionAction::ReloadReactor(k) => from_reload(s, p, k + 1),
        DeletionAction::Verify => go_to(s, DeletionAction::Deleted),
        DeletionAction::Deleted => s,
    }
}

/// A deletion state whose node positions are in the node list.
pub open spec fn deletion_state_wf(s: DeletionState, p: DeletionPlan) -> bool {
    &&& p.nodes < usize::MAX
    &&& p.services < usize::MAX
    &&& (s.remote_primary matches Some(k) ==> k < p.nodes)
    &&& (s.pending matches DeletionAction::StopService(k) ==> k < p.services)
    &&& (s.pending matches DeletionAction::CleanNode(k) ==> k < p.nodes)
    &&& (s.pending matches DeletionAction::Secondary(k) ==> k < p.nodes)
    &&& (s.pending matches DeletionAction::Disconnect(k) ==> k < p.nodes)
    &&& (s.pending matches DeletionAction::Down(k) ==> k < p.nodes)
    &&& (s.pending matches DeletionAction::WipeMetadata(k) ==> k < p.nodes)
    &&& (s.pending matches DeletionAction::RemoveResourceFile(k) ==> k < p.nodes)
    &&& (s.pending matches DeletionAction::RemovePromoterFiles(k) ==> k < p.nodes)
    &&& (s.pending matches DeletionAction::ReloadReactor(k) ==> k < p.nodes)
}

/// The state a deletion starts in: reading the resource's status.
pub fn deletion_start() -> (s: DeletionState)
    ensures
        s == (DeletionState { pending: DeletionAction::ReadStatus, local_primary: false, remote_primary: None }),
{
    DeletionState { pending: DeletionAction::ReadStatus, local_primary: false, remote_primary: None }
}

fn to(s: &DeletionState, a: DeletionAction) -> (r: DeletionState)
    ensures
        r == go_to(*s, a),
{
    DeletionState { pending: a, ..*s }
}

fn exec_from_reload(s: &DeletionState, p: &DeletionPlan, k: usize) -> (r: DeletionState)
    ensures
        r == from_reload(*s, *p, k as int),
{
    if k < p.nodes {
        to(s, DeletionAction::ReloadReactor(k))
    } else {
        to(s, DeletionAction::Verify)
    }
}

fn exec_from_promoter_files(s: &DeletionState, p: &DeletionPlan, k: usize) -> (r: DeletionState)
    ensures
        r == from_promoter_files(*s, *p, k as int),
{
    if p.delete_config_file && k < p.nodes {
        to(s, DeletionAction::RemovePromoterFiles(k))
    } else {
        exec_from_reload(s, p, 0)
    }
}

fn exec_from_resource_files(s: &DeletionState, p: &DeletionPlan, k: usize) -> (r: DeletionState)
    ensures
        r == from_resource_files(*s, *p, k as int),
{
    if p.delete_resource && k < p.nodes {
        to(s, DeletionAction::RemoveResourceFile(k))
    } else {
        exec_from_promoter_files(s, p, 0)
    }
}

fn exec_from_wipe(s: &DeletionState, p: &DeletionPlan, k: usize) -> (r: DeletionState)
    ensures
        r == from_wipe(*s, *p, k as int),
{
    if p.delete_resource && k < p.nodes {
        to(s, DeletionAction::WipeMetadata(k))
    } else {
        exec_from_resource_files(s, p, 0)
    }
}

fn exec_from_down(s: &DeletionState, p: &DeletionPlan, k: usize) -> (r: DeletionState)
    ensures
        r == from_down(*s, *p, k as int),
{
    if p.delete_resource && k < p.nodes {
        to(s, DeletionAction::Down(k))
    } else {
        exec_from_wipe(s, p, 0)
    }
}

fn exec_from_secondary(s: &DeletionState, p: &DeletionPlan, k: usize) -> (r: DeletionState)
    ensures
        r == from_secondary(*s, *p, k as int),
{
    if p.delete_resource && k < p.nodes {
        to(s, DeletionAction::Secondary(k))
    } else {
        exec_from_down(s, p, 0)
    }
}

fn exec_from_unmount(s: &DeletionState, p: &DeletionPlan) -> (r: DeletionState)
    ensures
        r == from_unmount(*s, *p),
{
    if s.local_primary {
        to(s, DeletionAction::UnmountLocal)
    } else {
        match s.remote_primary {
            Some(k) => to(s, DeletionAction::UnmountOn(k)),
            None => exec_from_secondary(s, p, 0),
        }
    }
}

fn exec_from_clean(s: &DeletionState, p: &DeletionPlan, k: usize) -> (r: DeletionState)
    ensures
        r == from_clean(*s, *p, k as int),
{
    if k < p.nodes {
        to(s, DeletionAction::CleanNode(k))
    } else {
        exec_from_unmount(s, p)
    }
}

fn exec_from_stop(s: &DeletionState, p: &DeletionPlan, k: usize) -> (r: DeletionState)
    ensures
        r == from_stop(*s, *p, k as int),
{
    if k < p.services {
        to(s, DeletionAction::StopService(k))
    } else {
        to(s, DeletionAction::DemoteLocal)
    }
}

fn node_position(nodes: &Vec<Node>, hostname: &String) -> (r: Option<usize>)
    ensures
        match hostname_pos(nodes@, hostname@, 0) {
            Some(k) => r == Some(k as usize) && k < nodes.len(),
            None => r is None,
        },
        r matches Some(k) ==> k < nodes.len(),
{
    let mut i: usize = 0;
    while i < nodes.len()
        invariant
            i <= nodes.len(),
            hostname_pos(nodes@, hostname@, 0) == hostname_pos(nodes@, hostname@, i as int),
        decreases nodes.len() - i,
    {
        if nodes[i].hostname == *hostname {
            return Some(i);
        }
        i = i + 1;
    }
    None
}

/// Decides the deletion command that follows the one under way, given how it went. Gives
/// the new state and the command to run (the new state's pending command).
pub fn deletion_step(
    state: &DeletionState,
    plan: &DeletionPlan,
    outcome: &CommandOutcome,
    resource: &str,
    nodes: &Vec<Node>,
) -> (r: (DeletionState, DeletionAction))
    requires
        deletion_state_wf(*state, *plan),
        plan.nodes == nodes.len(),
    ensures
        r.0 == spec_deletion_step(*state, *plan, outcome.success, outcome.stdout@, resource@, nodes@),
        r.1 == r.0.pending,
        deletion_state_wf(r.0, *plan),
{
    let s = state;
    let p = plan;
    let next = match s.pending {
        DeletionAction::ReadStatus => {
            let status = if outcome.success {
                Some(outcome.stdout.clone())
            } else {
                None
            };
            let loc = primary_location(&status, resource);
            let remote = match &loc.remote_primary_node {
                Some(h) => node_position(nodes, h),
                None => None,
            };

            let located = DeletionState {
                pending: DeletionAction::ReadStatus,
                local_primary: loc.local_primary,
                remote_primary: remote,
            };
            if loc.local_primary {
                to(&located, DeletionAction::DisableProfile)
            } else {
                exec_from_clean(&located, p, 0)
            }
        },
        DeletionAction::DisableProfile => if p.has_mount_unit {
            to(s, DeletionAction::StopMountUnit)
        } else {
            exec_from_stop(s, p, 0)
        },
        DeletionAction::StopMountUnit => to(s, DeletionAction::DisableMountUnit),
        DeletionAction::DisableMountUnit => exec_from_stop(s, p, 0),
        DeletionAction::StopService(k) => exec_from_stop(s, p, k + 1),
        DeletionAction::DemoteLocal => exec_from_clean(s, p, 0),
        DeletionAction::CleanNode(k) => exec_from_clean(s, p, k + 1),
        DeletionAction::UnmountLocal => exec_from_secondary(s, p, 0),
        DeletionAction::UnmountOn(_) => exec_from_secondary(s, p, 0),
        DeletionAction::Secondary(k) => to(s, DeletionAction::Disconnect(k)),
        DeletionAction::Disconnect(k) => exec_from_secondary(s, p, k + 1),
        DeletionAction::Down(k) => exec_from_down(s, p, k + 1),
        DeletionAction::WipeMetadata(k) => exec_from_wipe(s, p, k + 1),
        DeletionAction::RemoveResourceFile(k) => exec_from_resource_files(s, p, k + 1),
        DeletionAction::RemovePromoterFiles(k) => exec_from_promoter_files(s, p, k + 1),
        DeletionAction::ReloadReactor(k) => exec_from_reload(s, p, k + 1),
        DeletionAction::Verify => to(s, DeletionAction::Deleted),
        DeletionAction::Deleted => *s,
    };
    (next, next.pending)
}

/// What the final check looks at: the resource only when it was to be deleted, the promoter
/// files only when they were to be removed.
pub fn asked_findings(f: DeletionFindings, query: &DeleteProfileQuery) -> (r: DeletionFindings)
    ensures
        r.drbd_status == (if query.delete_resource { f.drbd_status } else { None }),
        r.reactor_reports_profile == f.reactor_reports_profile,
        r.drbd_config_exists == (query.delete_resource && f.drbd_config_exists),
        r.promoter_exists == (query.delete_config_file && f.promoter_exists),
        r.disabled_promoter_exists == (query.delete_config_file && f.disabled_promoter_exists),
{
    DeletionFindings {
        drbd_status: if query.delete_resource { f.drbd_status } else { None },
        reactor_reports_profile: f.reactor_reports_profile,
        drbd_config_exists: query.delete_resource && f.drbd_config_exists,
        promoter_exists: query.delete_config_file && f.promoter_exists,
        disabled_promoter_exists: query.delete_config_file && f.disabled_promoter_exists,
    }
}

// ---------------------------------------------------------------------------
// Laws
// ---------------------------------------------------------------------------

/// Without `delete_resource` the resource is left alone: no deletion step takes it down,
/// wipes it or removes its file.
pub proof fn law_resource_kept_unless_asked(
    s: DeletionState,
    p: DeletionPlan,
    ran: bool,
    out: Seq<char>,
    resource: Seq<char>,
    nodes: Seq<Node>,
)
    requires
        !p.delete_resource,
        !(s.pending is Secondary || s.pending is Disconnect || s.pending is Down
            || s.pending is WipeMetadata || s.pending is RemoveResourceFile),
    ensures
        ({
            let a = spec_deletion_step(s, p, ran, out, resource, nodes).pending;
            !(a is Secondary || a is Disconnect || a is Down || a is WipeMetadata || a is RemoveResourceFile)
        }),
{
}

/// Without `delete_config_file` the promoter files stay: no deletion step removes them.
pub proof fn law_promoter_kept_unless_asked(
    s: DeletionState,
    p: DeletionPlan,
    ran: bool,
    out: Seq<char>,
    resource: Seq<char>,
    nodes: Seq<Node>,
)
    requires
        !p.delete_config_file,
        !(s.pending is RemovePromoterFiles),
    ensures
        !(spec_deletion_step(s, p, ran, out, resource, nodes).pending is RemovePromoterFiles),
{
}

/// The metadata of node `k` is wiped only after the resource is down on every node, and the
/// resource file only after every wipe: the step after the last `Down` is the first wipe,
/// and the step after the last wipe is the first file removal.
pub proof fn law_wipe_after_down(s: DeletionState, p: DeletionPlan, ran: bool, out: Seq<char>, resource: Seq<char>, nodes: Seq<Node>)
    requires
        p.delete_resource,
        p.nodes > 0,
        p.nodes < usize::MAX,
    ensures
        spec_deletion_step(go_to(s, DeletionAction::Down((p.nodes - 1) as usize)), p, ran, out, resource, nodes).pending
            == DeletionAction::WipeMetadata(0),
        spec_deletion_step(go_to(s, DeletionAction::WipeMetadata((p.nodes - 1) as usize)), p, ran, out, resource, nodes).pending
            == DeletionAction::RemoveResourceFile(0),
{
}

/// Where the resource is primary here, the profile is disabled and then its generated mount
/// unit (when it has one) is stopped and disabled before the services are stopped, one after
/// the other in order, and the resource is demoted here; then every node is cleaned in order.
pub proof fn law_local_teardown_order(
    s: DeletionState,
    p: DeletionPlan,
    ran: bool,
    out: Seq<char>,
    resource: Seq<char>,
    nodes: Seq<Node>,
    k: usize,
)
    ensures
        ({
            let next = spec_deletion_step(s, p, ran, out, resource, nodes).pending;
            let first_stop = if p.services > 0 {
                DeletionAction::StopService(0)
            } else {
                DeletionAction::DemoteLocal
            };
            &&& (s.pending == DeletionAction::DisableProfile && p.has_mount_unit) ==> next
                == DeletionAction::StopMountUnit
            &&& (s.pending == DeletionAction::DisableProfile && !p.has_mount_unit) ==> next == first_stop
            &&& s.pending == DeletionAction::StopMountUnit ==> next == DeletionAction::DisableMountUnit
            &&& s.pending == DeletionAction::DisableMountUnit ==> next == first_stop
            &&& s.pending == DeletionAction::StopService(k) ==> next == (if k + 1 < p.services {
                DeletionAction::StopService((k + 1) as usize)
            } else {
                DeletionAction::DemoteLocal
            })
            &&& (s.pending == DeletionAction::DemoteLocal && p.nodes > 0) ==> next == DeletionAction::CleanNode(0)
            &&& (s.pending == DeletionAction::CleanNode(k) && k + 1 < p.nodes) ==> next == DeletionAction::CleanNode(
                (k + 1) as usize,
            )
        }),
{
}

/// With the resource to be deleted, each node in turn is made secondary and disconnected,
/// then each is taken down, then each has its metadata wiped, then each loses its resource
/// file; then the promoter files go from each node (when asked for) and drbd-reactor is
/// reloaded on each node before what is left is checked.
pub proof fn law_cluster_teardown_order(
    s: DeletionState,
    p: DeletionPlan,
    ran: bool,
    out: Seq<char>,
    resource: Seq<char>,
    nodes: Seq<Node>,
    k: usize,
)
    requires
        p.delete_resource,
        p.nodes > 0,
    ensures
        ({
            let next = spec_deletion_step(s, p, ran, out, resource, nodes).pending;
            let more = k + 1 < p.nodes;
            let after_files = if p.delete_config_file {
                DeletionAction::RemovePromoterFiles(0)
            } else {
                DeletionAction::ReloadReactor(0)
            };
            &&& s.pending == DeletionAction::Secondary(k) ==> next == DeletionAction::Disconnect(k)
            &&& s.pending == DeletionAction::Disconnect(k) ==> next == (if more {
                DeletionAction::Secondary((k + 1) as usize)
            } else {
                DeletionAction::Down(0)
            })
            &&& s.pending == DeletionAction::Down(k) ==> next == (if more {
                DeletionAction::Down((k + 1) as usize)
            } else {
                DeletionAction::WipeMetadata(0)
            })
            &&& s.pending == DeletionAction::WipeMetadata(k) ==> next == (if more {
                DeletionAction::WipeMetadata((k + 1) as usize)
            } else {
                DeletionAction::RemoveResourceFile(0)
            })
            &&& s.pending == DeletionAction::RemoveResourceFile(k) ==> next == (if more {
                DeletionAction::RemoveResourceFile((k + 1) as usize)
            } else {
                after_files
            })
            &&& (s.pending == DeletionAction::RemovePromoterFiles(k) && p.delete_config_file) ==> next == (if more {
                DeletionAction::RemovePromoterFiles((k + 1) as usize)
            } else {
                DeletionAction::ReloadReactor(0)
            })
            &&& s.pending == DeletionAction::ReloadReactor(k) ==> next == (if more {
                DeletionAction::ReloadReactor((k + 1) as usize)
            } else {
                DeletionAction::Verify
            })
            &&& s.pending == DeletionAction::Verify ==> next == DeletionAction::Deleted
            &&& (s.pending == DeletionAction::UnmountLocal || s.pending is UnmountOn) ==> next
                == DeletionAction::Secondary(0)
        }),
{
}

} // verus!
