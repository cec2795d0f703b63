//! The details of one HA profile: whether it is disabled on every node, which node is active
//! by DRBD's account, where that node is reached, and its services as configured and as
//! reported.

use vstd::prelude::*;
use crate::config_gen::ConfigPaths;
use crate::drbd_status::DrbdResourceStatus;
use crate::profile_status::ServiceStatusInfo;
use crate::text::{chars_of, push_str, str_eq, trim, trim_exec};

verus! {

/// A profile is disabled on every node when drbd-reactor reports no status for it and it is
/// disabled locally and no remote node has it enabled; when drbd-reactor cannot be asked,
/// the local file decides; when the remote nodes cannot be listed, the local file decides.
///
/// `reactor_reports`: `None` when drbd-reactor could not be asked, else whether it reported
/// a status. `remote_enabled`: `None` when the nodes could not be listed, else whether some
/// remote node has the profile enabled.
pub open spec fn spec_truly_disabled(
    reactor_reports: Option<bool>,
    locally_disabled: bool,
    remote_enabled: Option<bool>,
) -> bool {
    match reactor_reports {
        None => locally_disabled,
        Some(true) => false,
        Some(false) => locally_disabled && match remote_enabled {
            Some(e) => !e,
            None => true,
        },
    }
}

/// Decides whether a profile is disabled on every node.
pub fn truly_disabled(
    reactor_reports: Option<bool>,
    locally_disabled: bool,
    remote_enabled: Option<bool>,
) -> (b: bool)
    ensures
        b == spec_truly_disabled(reactor_reports, locally_disabled, remote_enabled),
{
    match reactor_reports {
        None => locally_disabled,
        Some(true) => false,
        Some(false) => locally_disabled && match remote_enabled {
            Some(e) => !e,
            None => true,
        },
    }
}

/// The command that tells whether a remote node has a profile enabled.
pub fn remote_enabled_command(name: &str) -> (c: String)
    ensures
        c@ == "sudo test -f "@ + ConfigPaths::REACTOR_CONF_DIR@ + "/"@ + name@ + ".toml && echo enabled"@,
{
    let mut c = "sudo test -f ".to_owned();
    push_str(&mut c, ConfigPaths::REACTOR_CONF_DIR);
    push_str(&mut c, "/");
    push_str(&mut c, name);
    push_str(&mut c, ".toml && echo enabled");
    c
}

/// The remote node has the profile enabled when the check printed exactly `enabled`.
pub fn remote_reports_enabled(stdout: &str) -> (b: bool)
    ensures
        b == (trim(stdout@) == "enabled"@),
{
    let t = trim_exec(chars_of(stdout).as_slice());
    crate::text::chars_eq(t.as_slice(), chars_of("enabled").as_slice())
}

/// Where LINSTOR keeps the resource file of a resource it manages.
pub fn linstor_resource_path(resource: &str) -> (p: String)
    ensures
        p@ == "/var/lib/linstor.d/"@ + resource@ + ".res"@,
{
    let mut p = "/var/lib/linstor.d/".to_owned();
    push_str(&mut p, resource);
    push_str(&mut p, ".res");
    p
}

/// The first peer reported primary.
pub open spec fn primary_peer(peers: Seq<crate::drbd_status::DrbdPeerStatus>) -> Option<Seq<char>>
    decreases peers.len(),
{
    if peers.len() == 0 {
        None
    } else if peers[0].role@ == "Primary"@ {
        Some(peers[0].name@)
    } else {
        primary_peer(peers.drop_first())
    }
}

/// The active node by DRBD's account: this node when it is primary, else the first peer
/// that is; none without a DRBD status.
pub open spec fn spec_drbd_active_node(status: Option<DrbdResourceStatus>, local: Seq<char>) -> Option<Seq<char>> {
    match status {
        None => None,
        Some(s) => if s.role@ == "Primary"@ {
            Some(local)
        } else {
            primary_peer(s.peers@)
        },
    }
}

/// Finds the active node by DRBD's account.
pub fn drbd_active_node(status: &Option<DrbdResourceStatus>, local: &str) -> (r: Option<String>)
    ensures
        crate::profiles::str_opt(r) == spec_drbd_active_node(*status, local@),
{
    match status {
        None => None,
        Some(s) => {
            if str_eq(s.role.as_str(), "Primary") {
                return Some(local.to_owned());
            }
            let ghost ps = s.peers@;
            let mut i: usize = 0;
            assert(ps.skip(0) =~= ps);
            while i < s.peers.len()
                invariant
                    i <= s.peers.len(),
                    *status == Some(*s),
                    s.role@ != "Primary"@,
                    ps == s.peers@,
                    primary_peer(ps) == primary_peer(ps.skip(i as int)),
                decreases s.peers.len() - i,
            {
                assert(ps.skip(i as int)[0] == s.peers@[i as int]);
                if str_eq(s.peers[i].role.as_str(), "Primary") {
                    return Some(s.peers[i].name.clone());
                }
                assert(ps.skip(i as int).drop_first() =~= ps.skip(i + 1));
                i = i + 1;
            }
            None
        },
    }
}

/// Where the active node is reached: the address its resource file gives, else the address
/// it resolves to, else (nothing known) the local hostname, which means "not remotely".
pub open spec fn spec_remote_address(
    from_resource_file: Option<Seq<char>>,
    resolved: Option<Seq<char>>,
    local: Seq<char>,
) -> Seq<char> {
    match from_resource_file {
        Some(ip) => ip,
        None => match resolved {
            Some(ip) => ip,
            None => local,
        },
    }
}

/// The address to query the active node at, if it is to be queried remotely: not when it
/// falls back to the local hostname or is the loopback address.
pub fn remote_address(
    from_resource_file: Option<String>,
    resolved: Option<String>,
    local: &str,
) -> (r: Option<String>)
    ensures
        match r {
            Some(ip) => ip@ == spec_remote_address(
                crate::profiles::str_opt(from_resource_file),
                crate::profiles::str_opt(resolved),
                local@,
            ) && ip@ != local@ && ip@ != "127.0.0.1"@,
            None => {
                let a = spec_remote_address(
                    crate::profiles::str_opt(from_resource_file),
                    crate::profiles::str_opt(resolved),
                    local@,
                );
                a == local@ || a == "127.0.0.1"@
            },
        },
{
    let a = match from_resource_file {
        Some(ip) => ip,
        None => match resolved {
            Some(ip) => ip,
            None => local.to_owned(),
        },
    };
    if str_eq(a.as_str(), local) || str_eq(a.as_str(), "127.0.0.1") {
        None
    } else {
        Some(a)
    }
}

/// A service as plain values: name, active, state.
pub open spec fn service_triple(s: ServiceStatusInfo) -> (Seq<char>, bool, Seq<char>) {
    (s.name@, s.active, s.state@)
}

/// The position of the first service named `name`, if any.
pub open spec fn service_pos(services: Seq<(Seq<char>, bool, Seq<char>)>, name: Seq<char>, from: int) -> Option<int>
    decreases services.len() - from,
{
    if from < 0 || from >= services.len() {
        None
    } else if services[from].0 == name {
        Some(from)
    } else {
        service_pos(services, name, from + 1)
    }
}

/// One reported service merged in: the first configured entry of that name takes its state,
/// an unknown name is added at the end.
pub open spec fn merge_one(
    services: Seq<(Seq<char>, bool, Seq<char>)>,
    reported: (Seq<char>, bool, Seq<char>),
) -> Seq<(Seq<char>, bool, Seq<char>)> {
    match service_pos(services, reported.0, 0) {
        Some(k) => services.update(k, reported),
        None => services.push(reported),
    }
}

/// The services once the first `n` reported ones are merged in.
pub open spec fn merged_services(
    configured: Seq<Seq<char>>,
    reported: Seq<(Seq<char>, bool, Seq<char>)>,
    n: int,
) -> Seq<(Seq<char>, bool, Seq<char>)>
    decreases n,
{
    if n <= 0 {
        configured.map_values(|name: Seq<char>| (name, false, "inactive"@))
    } else {
        merge_one(merged_services(configured, reported, n - 1), reported[n - 1])
    }
}

fn service_pos_exec(services: &Vec<ServiceStatusInfo>, name: &String) -> (r: Option<usize>)
    ensures
        match r {
            Some(k) => service_pos(services@.map_values(|s: ServiceStatusInfo| service_triple(s)), name@, 0)
                == Some(k as int),
            None => service_pos(services@.map_values(|s: ServiceStatusInfo| service_triple(s)), name@, 0)
                is None,
        },
{
    let ghost sv = services@.map_values(|s: ServiceStatusInfo| service_triple(s));
    let mut i: usize = 0;
    while i < services.len()
        invariant
            i <= services.len(),
            sv == services@.map_values(|s: ServiceStatusInfo| service_triple(s)),
            service_pos(sv, name@, 0) == service_pos(sv, name@, i as int),
        decreases services.len() - i,
    {
        if services[i].name == *name {
            return Some(i);
        }
        i = i + 1;
    }
    None
}

/// The services of a profile: each configured service, inactive until drbd-reactor reports
/// it, with the reported services merged in by name (name, activity and state); none is
/// marked enabled and none has an activation time yet.
pub fn merge_service_statuses(configured: &Vec<String>, reported: Vec<ServiceStatusInfo>) -> (r: Vec<
    ServiceStatusInfo,
>)
    ensures
        r@.map_values(|s: ServiceStatusInfo| service_triple(s)) == merged_services(
            configured@.map_values(|s: String| s@),
            reported@.map_values(|s: ServiceStatusInfo| service_triple(s)),
            reported.len() as int,
        ),
        forall|k: int| 0 <= k < r.len() ==> !(#[trigger] r@[k]).enabled && r@[k].active_since is None,
{
    let ghost cv = configured@.map_values(|s: String| s@);
    let ghost rv = reported@.map_values(|s: ServiceStatusInfo| service_triple(s));
    let mut out: Vec<ServiceStatusInfo> = Vec::new();
    let mut i: usize = 0;
    while i < configured.len()
        invariant
            i <= configured.len(),
            cv == configured@.map_values(|s: String| s@),
            out@.map_values(|s: ServiceStatusInfo| service_triple(s)) == cv.take(i as int).map_values(
                |name: Seq<char>| (name, false, "inactive"@),
            ),
            forall|k: int| 0 <= k < out.len() ==> !(#[trigger] out@[k]).enabled && out@[k].active_since is None,
        decreases configured.len() - i,
    {
        let ghost before = out@.map_values(|s: ServiceStatusInfo| service_triple(s));
        let item = ServiceStatusInfo {
            name: configured[i].clone(),
            active: false,
            state: "inactive".to_owned(),
            enabled: false,
            active_since: None,
        };
        proof {
            reveal_strlit("inactive");
        }
        assert(service_triple(item) == (cv[i as int], false, "inactive"@));
        out.push(item);
        assert(out@.map_values(|s: ServiceStatusInfo| service_triple(s)) =~= before.push(service_triple(item)));
        assert(cv.take(i + 1) =~= cv.take(i as int).push(cv[i as int]));
        i = i + 1;
        assert(out@.map_values(|s: ServiceStatusInfo| service_triple(s)) =~= cv.take(i as int).map_values(
            |name: Seq<char>| (name, false, "inactive"@),
        ));
    }
    assert(cv.take(i as int) =~= cv);
    let mut rest = reported;
    let ghost all = rest@;
    let ghost mut n: int = 0;
    while rest.len() > 0
        invariant
            0 <= n <= all.len(),
            rest@ == all.skip(n),
            rv == all.map_values(|s: ServiceStatusInfo| service_triple(s)),
            cv == configured@.map_values(|s: String| s@),
            out@.map_values(|s: ServiceStatusInfo| service_triple(s)) == merged_services(cv, rv, n),
            forall|k: int| 0 <= k < out.len() ==> !(#[trigger] out@[k]).enabled && out@[k].active_since is None,
        decreases rest.len(),
    {
        let p = rest.remove(0);
        assert(p == all[n]);
        let ghost before = out@.map_values(|s: ServiceStatusInfo| service_triple(s));
        match service_pos_exec(&out, &p.name) {
            Some(k) => {
                proof {
                    lemma_service_pos(before, p.name@, 0);
                }
                let old_entry = out.remove(k);
                let updated = ServiceStatusInfo {
                    name: old_entry.name,
                    active: p.active,
                    state: p.state,
                    enabled: old_entry.enabled,
                    active_since: old_entry.active_since,
                };
                out.insert(k, updated);
                proof {
                    assert(before[k as int].0 == p.name@) by {
                        lemma_service_pos(before, p.name@, 0);
                    }
                    assert(out@.map_values(|s: ServiceStatusInfo| service_triple(s)) =~= before.update(
                        k as int,
                        service_triple(p),
                    ));
                }
            },
            None => {
                let added = ServiceStatusInfo {
                    name: p.name,
                    active: p.active,
                    state: p.state,
                    enabled: false,
                    active_since: None,
                };
                assert(service_triple(added) == service_triple(p));
                out.push(added);
                assert(out@.map_values(|s: ServiceStatusInfo| service_triple(s)) =~= before.push(
                    service_triple(p),
                ));
            },
        }
        proof {
            n = n + 1;
        }
        assert(rest@ =~= all.skip(n));
    }
    out
}

proof fn lemma_service_pos(services: Seq<(Seq<char>, bool, Seq<char>)>, name: Seq<char>, from: int)
    ensures
        service_pos(services, name, from) matches Some(k) ==> from <= k < services.len()
            && services[k].0 == name,
    decreases services.len() - from,
{
    if 0 <= from < services.len() && services[from].0 != name {
        lemma_service_pos(services, name, from + 1);
    }
}


/// A profile is disabled everywhere only when it is disabled here: drbd-reactor reporting a
/// status here rules it out; with no status reported, it is disabled everywhere unless a
/// remote node has it enabled; when drbd-reactor could not be asked, the local file decides.
pub proof fn law_truly_disabled(locally_disabled: bool, remote_enabled: Option<bool>, reactor: Option<bool>)
    ensures
        !locally_disabled ==> !spec_truly_disabled(reactor, locally_disabled, remote_enabled),
        !spec_truly_disabled(Some(true), locally_disabled, remote_enabled),
        spec_truly_disabled(None, locally_disabled, remote_enabled) == locally_disabled,
        spec_truly_disabled(Some(false), locally_disabled, remote_enabled) == (locally_disabled && remote_enabled != Some(
            true,
        )),
{
}


proof fn lemma_service_pos_found(services: Seq<(Seq<char>, bool, Seq<char>)>, name: Seq<char>, from: int)
    requires
        0 <= from,
    ensures
        service_pos(services, name, from) matches Some(k) ==> from <= k < services.len() && services[k].0 == name,
    decreases services.len() - from,
{
    if from < services.len() && services[from].0 != name {
        lemma_service_pos_found(services, name, from + 1);
    }
}

proof fn lemma_merged_keeps_configured(configured: Seq<Seq<char>>, reported: Seq<(Seq<char>, bool, Seq<char>)>, n: int)
    requires
        0 <= n <= reported.len(),
    ensures
        merged_services(configured, reported, n).len() >= configured.len(),
        forall|i: int| 0 <= i < configured.len() ==> (#[trigger] merged_services(configured, reported, n)[i]).0
            == configured[i],
    decreases n,
{
    if n > 0 {
        lemma_merged_keeps_configured(configured, reported, n - 1);
        let m = merged_services(configured, reported, n - 1);
        lemma_service_pos_found(m, reported[n - 1].0, 0);
        let m2 = merged_services(configured, reported, n);
        assert forall|i: int| 0 <= i < configured.len() implies (#[trigger] m2[i]).0 == configured[i] by {
            match service_pos(m, reported[n - 1].0, 0) {
                Some(k) => {
                    if i != k {
                        assert(m2[i] == m[i]);
                    }
                },
                None => {
                    assert(m2[i] == m[i]);
                },
            }
        }
    }
}

/// Merging the reported services into the configured ones keeps every configured service,
/// in its place and under its name, and lists each reported service as reported; with no
/// report at all, every configured service is listed inactive.
pub proof fn law_merged_services(configured: Seq<Seq<char>>, reported: Seq<(Seq<char>, bool, Seq<char>)>)
    ensures
        merged_services(configured, reported, 0).len() == configured.len(),
        forall|i: int| 0 <= i < configured.len() ==> #[trigger] merged_services(configured, reported, 0)[i] == (
            configured[i],
            false,
            "inactive"@,
        ),
        forall|i: int| 0 <= i < configured.len() ==> (#[trigger] merged_services(configured, reported, reported.len() as int)[i]).0
            == configured[i],
        reported.len() > 0 ==> merged_services(configured, reported, reported.len() as int).contains(reported.last()),
{
    lemma_merged_keeps_configured(configured, reported, reported.len() as int);
    if reported.len() > 0 {
        let n = reported.len() as int;
        let m = merged_services(configured, reported, n - 1);
        lemma_service_pos_found(m, reported[n - 1].0, 0);
        let m2 = merged_services(configured, reported, n);
        match service_pos(m, reported[n - 1].0, 0) {
            Some(k) => {
                assert(m2[k] == reported.last());
            },
            None => {
                assert(m2[m.len() as int] == reported.last());
            },
        }
    }
}

proof fn lemma_primary_peer_at(peers: Seq<crate::drbd_status::DrbdPeerStatus>, k: int)
    requires
        0 <= k < peers.len(),
        peers[k].role@ == "Primary"@,
        forall|j: int| 0 <= j < k ==> (#[trigger] peers[j]).role@ != "Primary"@,
    ensures
        primary_peer(peers) == Some(peers[k].name@),
    decreases k,
{
    if k > 0 {
        let rest = peers.drop_first();
        assert(peers[0].role@ != "Primary"@);
        assert forall|j: int| 0 <= j < k - 1 implies (#[trigger] rest[j]).role@ != "Primary"@ by {
            assert(rest[j] == peers[j + 1]);
        }
        lemma_primary_peer_at(rest, k - 1);
    }
}

/// By DRBD's account the active node is this node when it is primary here, else the first
/// peer that is primary; there is none without a DRBD status.
pub proof fn law_drbd_active_node(status: Option<DrbdResourceStatus>, local: Seq<char>, k: int)
    ensures
        status is None ==> spec_drbd_active_node(status, local) is None,
        (status matches Some(s) && s.role@ == "Primary"@) ==> spec_drbd_active_node(status, local) == Some(local),
        (status is Some && status->0.role@ != "Primary"@ && 0 <= k < status->0.peers@.len()
            && status->0.peers@[k].role@ == "Primary"@ && (forall|j: int|
            0 <= j < k ==> (#[trigger] status->0.peers@[j]).role@ != "Primary"@)) ==> spec_drbd_active_node(
            status,
            local,
        ) == Some(status->0.peers@[k].name@),
{
    match status {
        Some(s) => {
            if s.role@ != "Primary"@ && 0 <= k < s.peers@.len() && s.peers@[k].role@ == "Primary"@ && forall|j: int|
                0 <= j < k ==> (#[trigger] s.peers@[j]).role@ != "Primary"@ {
                lemma_primary_peer_at(s.peers@, k);
            }
        },
        None => {},
    }
}

} // verus!
