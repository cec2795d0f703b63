//! The dashboard summary: counts of nodes, storage, HA services and DRBD resources, and the
//! health of the cluster they add up to.

use vstd::prelude::*;
use crate::drbd_status::{cluster_health, spec_cluster_health, ClusterHealth};
use crate::nodes::{Node, NodeStatus};
use crate::profile_status::HaProfileStatus;

verus! {

/// Node counts.
#[derive(Debug, Clone, Copy)]
pub struct NodeStats {
    pub total: usize,
    pub online: usize,
    pub offline: usize,
}

/// Storage pool totals, in bytes.
#[derive(Debug, Clone, Copy)]
pub struct StorageStats {
    pub total_bytes: u64,
    pub free_bytes: u64,
    pub pool_count: usize,
}

/// HA service counts by state.
#[derive(Debug, Clone, Copy)]
pub struct HaServiceStats {
    pub total: usize,
    pub active: usize,
    pub standby: usize,
    pub stopped: usize,
    pub error: usize,
}

/// DRBD resource counts.
#[derive(Debug, Clone, Copy)]
pub struct ResourceStats {
    pub total: usize,
    pub healthy: usize,
    pub degraded: usize,
}

/// Number of the first `n` nodes that are online.
pub open spec fn online_count(nodes: Seq<Node>, n: int) -> nat
    decreases n,
{
    if n <= 0 {
        0
    } else {
        online_count(nodes, n - 1) + if nodes[n - 1].status == NodeStatus::Online {
            1nat
        } else {
            0nat
        }
    }
}

proof fn lemma_online_count_le(nodes: Seq<Node>, n: int)
    requires
        0 <= n,
    ensures
        online_count(nodes, n) <= n,
    decreases n,
{
    if n > 0 {
        lemma_online_count_le(nodes, n - 1);
    }
}

/// Counts the nodes: every node not online counts as offline.
pub fn node_stats(nodes: &Vec<Node>) -> (s: NodeStats)
    ensures
        s.total == nodes.len(),
        s.online == online_count(nodes@, nodes.len() as int),
        s.offline == s.total - s.online,
{
    let mut online: usize = 0;
    let mut i: usize = 0;
    while i < nodes.len()
        invariant
            i <= nodes.len(),
            online == online_count(nodes@, i as int),
            online <= i,
        decreases nodes.len() - i,
    {
        if nodes[i].status == NodeStatus::Online {
            online = online + 1;
        }
        i = i + 1;
    }
    NodeStats { total: nodes.len(), online, offline: nodes.len() - online }
}

/// Number of the first `n` states that are `s`.
pub open spec fn status_count(states: Seq<HaProfileStatus>, s: HaProfileStatus, n: int) -> nat
    decreases n,
{
    if n <= 0 {
        0
    } else {
        status_count(states, s, n - 1) + if states[n - 1] == s {
            1nat
        } else {
            0nat
        }
    }
}

fn count_status(states: &Vec<HaProfileStatus>, s: HaProfileStatus) -> (c: usize)
    ensures
        c == status_count(states@, s, states.len() as int),
{
    let mut c: usize = 0;
    let mut i: usize = 0;
    while i < states.len()
        invariant
            i <= states.len(),
            c == status_count(states@, s, i as int),
            c <= i,
        decreases states.len() - i,
    {
        if states[i] == s {
            c = c + 1;
        }
        i = i + 1;
    }
    c
}

/// Counts the HA services by state.
pub fn ha_service_stats(states: &Vec<HaProfileStatus>) -> (s: HaServiceStats)
    ensures
        s.total == states.len(),
        s.active == status_count(states@, HaProfileStatus::Active, states.len() as int),
        s.standby == status_count(states@, HaProfileStatus::Standby, states.len() as int),
        s.stopped == status_count(states@, HaProfileStatus::Stopped, states.len() as int),
        s.error == status_count(states@, HaProfileStatus::Error, states.len() as int),
{
    HaServiceStats {
        total: states.len(),
        active: count_status(states, HaProfileStatus::Active),
        standby: count_status(states, HaProfileStatus::Standby),
        stopped: count_status(states, HaProfileStatus::Stopped),
        error: count_status(states, HaProfileStatus::Error),
    }
}

/// Sum of the first `n` sizes (`.0`) or free spaces (`.1`) of the pools.
pub open spec fn pool_sum(pools: Seq<(u64, u64)>, free: bool, n: int) -> nat
    decreases n,
{
    if n <= 0 {
        0
    } else {
        pool_sum(pools, free, n - 1) + if free {
            pools[n - 1].1 as nat
        } else {
            pools[n - 1].0 as nat
        }
    }
}

proof fn lemma_pool_sum_mono(pools: Seq<(u64, u64)>, free: bool, i: int, j: int)
    requires
        0 <= i <= j,
    ensures
        pool_sum(pools, free, i) <= pool_sum(pools, free, j),
    decreases j - i,
{
    if i < j {
        lemma_pool_sum_mono(pools, free, i, j - 1);
    }
}

/// Totals the storage pools, given as `(size, free)` in bytes.
pub fn storage_stats(pools: &Vec<(u64, u64)>) -> (s: StorageStats)
    requires
        pool_sum(pools@, false, pools.len() as int) <= u64::MAX,
        pool_sum(pools@, true, pools.len() as int) <= u64::MAX,
    ensures
        s.total_bytes == pool_sum(pools@, false, pools.len() as int),
        s.free_bytes == pool_sum(pools@, true, pools.len() as int),
        s.pool_count == pools.len(),
{
    let mut total: u64 = 0;
    let mut free: u64 = 0;
    let mut i: usize = 0;
    while i < pools.len()
        invariant
            i <= pools.len(),
            total == pool_sum(pools@, false, i as int),
            free == pool_sum(pools@, true, i as int),
            pool_sum(pools@, false, pools.len() as int) <= u64::MAX,
            pool_sum(pools@, true, pools.len() as int) <= u64::MAX,
        decreases pools.len() - i,
    {
        proof {
            lemma_pool_sum_mono(pools@, false, i + 1, pools.len() as int);
            lemma_pool_sum_mono(pools@, true, i + 1, pools.len() as int);
        }
        total = total + pools[i].0;
        free = free + pools[i].1;
        i = i + 1;
    }
    StorageStats { total_bytes: total, free_bytes: free, pool_count: pools.len() }
}

/// The health of the cluster from the node, service and resource counts.
pub fn summary_health(nodes: &NodeStats, services: &HaServiceStats, resources: &ResourceStats) -> (h:
    ClusterHealth)
    ensures
        h == spec_cluster_health(
            nodes.total as nat,
            nodes.offline as nat,
            services.error as nat,
            resources.degraded as nat,
        ),
{
    cluster_health(nodes.total, nodes.offline, services.error, resources.degraded)
}


proof fn lemma_online_count_bounds(nodes: Seq<Node>, n: int)
    requires
        0 <= n <= nodes.len(),
    ensures
        (forall|i: int| 0 <= i < n ==> (#[trigger] nodes[i]).status == NodeStatus::Online) ==> online_count(nodes, n) == n,
        (forall|i: int| 0 <= i < n ==> (#[trigger] nodes[i]).status != NodeStatus::Online) ==> online_count(nodes, n) == 0,
    decreases n,
{
    if n > 0 {
        lemma_online_count_bounds(nodes, n - 1);
    }
}

proof fn lemma_status_count_bounds(states: Seq<HaProfileStatus>, s: HaProfileStatus, n: int)
    requires
        0 <= n <= states.len(),
    ensures
        (forall|i: int| 0 <= i < n ==> states[i] == s) ==> status_count(states, s, n) == n,
        (forall|i: int| 0 <= i < n ==> states[i] != s) ==> status_count(states, s, n) == 0,
    decreases n,
{
    if n > 0 {
        lemma_status_count_bounds(states, s, n - 1);
    }
}

/// Only online nodes count as online: a node list with every node online counts them all,
/// one with none online counts none, and one more node adds one exactly when it is online.
pub proof fn law_online_nodes_counted(nodes: Seq<Node>, extra: Node)
    ensures
        (forall|i: int| 0 <= i < nodes.len() ==> (#[trigger] nodes[i]).status == NodeStatus::Online) ==> online_count(
            nodes,
            nodes.len() as int,
        ) == nodes.len(),
        (forall|i: int| 0 <= i < nodes.len() ==> (#[trigger] nodes[i]).status != NodeStatus::Online) ==> online_count(
            nodes,
            nodes.len() as int,
        ) == 0,
        online_count(nodes.push(extra), nodes.len() + 1int) == online_count(nodes, nodes.len() as int) + (if extra.status
            == NodeStatus::Online {
            1int
        } else {
            0int
        }),
{
    lemma_online_count_bounds(nodes, nodes.len() as int);
    let np = nodes.push(extra);
    assert forall|n: int| 0 <= n <= nodes.len() implies online_count(np, n) == online_count(nodes, n) by {
        lemma_online_prefix(nodes, extra, n);
    }
}

proof fn lemma_online_prefix(nodes: Seq<Node>, extra: Node, n: int)
    requires
        0 <= n <= nodes.len(),
    ensures
        online_count(nodes.push(extra), n) == online_count(nodes, n),
    decreases n,
{
    if n > 0 {
        lemma_online_prefix(nodes, extra, n - 1);
        assert(nodes.push(extra)[n - 1] == nodes[n - 1]);
    }
}

proof fn lemma_status_prefix(states: Seq<HaProfileStatus>, extra: HaProfileStatus, s: HaProfileStatus, n: int)
    requires
        0 <= n <= states.len(),
    ensures
        status_count(states.push(extra), s, n) == status_count(states, s, n),
    decreases n,
{
    if n > 0 {
        lemma_status_prefix(states, extra, s, n - 1);
        assert(states.push(extra)[n - 1] == states[n - 1]);
    }
}

/// Each service is counted under its own state only: a list all in state `s` counts them
/// all under `s`, one with none in `s` counts none, and one more service adds one under `s`
/// exactly when it is in state `s`.
pub proof fn law_services_counted_by_state(states: Seq<HaProfileStatus>, s: HaProfileStatus, extra: HaProfileStatus)
    ensures
        (forall|i: int| 0 <= i < states.len() ==> states[i] == s) ==> status_count(states, s, states.len() as int)
            == states.len(),
        (forall|i: int| 0 <= i < states.len() ==> states[i] != s) ==> status_count(states, s, states.len() as int) == 0,
        status_count(states.push(extra), s, states.len() + 1int) == status_count(states, s, states.len() as int) + (if extra
            == s {
            1int
        } else {
            0int
        }),
{
    lemma_status_count_bounds(states, s, states.len() as int);
    lemma_status_prefix(states, extra, s, states.len() as int);
}

} // verus!
