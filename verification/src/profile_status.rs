//! The status of an HA profile: the services drbd-reactor reports for it, the mount point
//! they reveal, whether its virtual IP is up, and the overall state derived from the active
//! node, the DRBD role and the services.

use vstd::prelude::*;
use crate::drbd_status::DrbdResourceStatus;
use crate::nodes::AppError;
use crate::text::{
    chars_of, contains, contains_str, ends_with, ends_with_str, lines, lines_exec, match_at,
    push_chars, push_str, replace_char, replace_char_exec, slice_chars, starts_with,
    starts_with_str, string_of, tokens, tokens_exec, trim, trim_exec, views,
};

verus! {

/// The state of an HA profile.
#[derive(Debug, Clone, Copy, PartialEq, Eq, Structural)]
pub enum HaProfileStatus {
    Active,
    Standby,
    Stopped,
    Disabled,
    Error,
    Unknown,
}

/// A service of a profile, as drbd-reactor reports it.
#[derive(Debug, Clone)]
pub struct ServiceStatusInfo {
    pub name: String,
    pub active: bool,
    pub state: String,
    /// Whether the service is enabled (starts on boot).
    pub enabled: bool,
    /// When the service became active (Unix timestamp in seconds).
    pub active_since: Option<i64>,
}

/// Configuration visibility information.
#[derive(Debug, Clone)]
pub struct ConfigVisibility {
    /// Whether the promoter config file exists.
    pub promoter_config_exists: bool,
    /// Path to the promoter config file.
    pub promoter_config_path: String,
    /// Whether the drbd-reactor service is running.
    pub reactor_running: bool,
}

/// Response for an HA profile status.
#[derive(Debug, Clone)]
pub struct HaProfileStatusResponse {
    pub id: String,
    pub name: String,
    pub status: HaProfileStatus,
    /// Currently active node (from drbd-reactorctl).
    pub active_node: Option<String>,
    /// Mount point detected from the mount unit, if any.
    pub mount_point: Option<String>,
    /// Detailed DRBD resource status.
    pub drbd: Option<DrbdResourceStatus>,
    pub service_statuses: Vec<ServiceStatusInfo>,
    pub vip_active: Option<bool>,
    pub config: ConfigVisibility,
    /// Raw output of `drbd-reactorctl status`.
    pub reactor_status_raw: Option<String>,
}

/// The error for a profile that is not known.
pub fn profile_not_found(id_or_name: &str) -> (e: AppError)
    ensures
        e matches AppError::NotFound(m) && m@ == "HA profile "@ + id_or_name@ + " not found"@,
{
    let mut m = "HA profile ".to_owned();
    push_str(&mut m, id_or_name);
    push_str(&mut m, " not found");
    AppError::NotFound(m)
}

/// The command that asks drbd-reactor for a profile's status.
pub fn reactor_status_command(profile: &str) -> (c: String)
    ensures
        c@ == "drbd-reactorctl status "@ + profile@ + " 2>/dev/null"@,
{
    let mut c = "drbd-reactorctl status ".to_owned();
    push_str(&mut c, profile);
    push_str(&mut c, " 2>/dev/null");
    c
}

/// The command that asks DRBD for a resource's status.
pub fn drbdadm_status_command(resource: &str) -> (c: String)
    ensures
        c@ == "drbdadm status "@ + resource@ + " 2>/dev/null"@,
{
    let mut c = "drbdadm status ".to_owned();
    push_str(&mut c, resource);
    push_str(&mut c, " 2>/dev/null");
    c
}

// ---------------------------------------------------------------------------
// Services reported by drbd-reactor
// ---------------------------------------------------------------------------

/// `s` with every occurrence of `pat` replaced by `rep`, scanning left to right.
pub open spec fn replace_all(s: Seq<char>, pat: Seq<char>, rep: Seq<char>) -> Seq<char>
    decreases s.len(),
{
    if s.len() == 0 {
        s
    } else if pat.len() > 0 && match_at(s, pat, 0) {
        rep + replace_all(s.skip(pat.len() as int), pat, rep)
    } else {
        seq![s[0]] + replace_all(s.drop_first(), pat, rep)
    }
}

/// `s` without the tree drawing that may lead it (`├─`, `└─` or `─`).
pub open spec fn strip_tree(s: Seq<char>) -> Seq<char> {
    if s.len() >= 2 && (s[0] == '├' || s[0] == '└') && s[1] == '─' {
        s.skip(2)
    } else if s.len() >= 1 && s[0] == '─' {
        s.skip(1)
    } else {
        s
    }
}

/// The service a line of `drbd-reactorctl status` output names, and whether it is active:
/// only lines marked `○` (active) or `×` (failed) name one; headers, the internal
/// `drbd-services@` and `drbd-promote@` units and empty names are skipped, and `\x2d` in the
/// name is unescaped to `-`.
pub open spec fn service_entry(line: Seq<char>) -> Option<(Seq<char>, bool)> {
    let t = trim(line);
    if t.len() == 0 || contains(t, "Promoter:"@) || ends_with(t, ".toml:"@) {
        None
    } else if t[0] != '○' && t[0] != '×' {
        None
    } else {
        let active = t[0] == '○';
        let toks = tokens(strip_tree(trim(t.drop_first())));
        let name = if toks.len() > 0 {
            toks[0]
        } else {
            Seq::empty()
        };
        if name.len() == 0 || starts_with(name, "drbd-services@"@) || starts_with(
            name,
            "drbd-promote@"@,
        ) {
            None
        } else {
            Some((replace_all(name, "\\x2d"@, "-"@), active))
        }
    }
}

/// The services named by the lines `ls`, in order.
pub open spec fn service_entries(ls: Seq<Seq<char>>) -> Seq<(Seq<char>, bool)>
    decreases ls.len(),
{
    if ls.len() == 0 {
        Seq::empty()
    } else {
        service_entries(ls.drop_last()) + match service_entry(ls.last()) {
            Some(e) => seq![e],
            None => Seq::empty(),
        }
    }
}

/// A reported service as a name and whether it is active.
pub open spec fn service_view(s: ServiceStatusInfo) -> (Seq<char>, bool) {
    (s.name@, s.active)
}

fn replace_all_exec(v: &[char], pat: &str, rep: &str) -> (r: Vec<char>)
    ensures
        r@ == replace_all(v@, pat@, rep@),
{
    let pv = chars_of(pat);
    let rv = chars_of(rep);
    let mut out: Vec<char> = Vec::new();
    let mut i: usize = 0;
    assert(v@.skip(0) =~= v@);
    assert(out@ + replace_all(v@, pat@, rep@) =~= replace_all(v@, pat@, rep@));
    while i < v.len()
        invariant
            i <= v.len(),
            pv@ == pat@,
            rv@ == rep@,
            out@ + replace_all(v@.skip(i as int), pat@, rep@) == replace_all(v@, pat@, rep@),
        decreases v.len() - i,
    {
        let ghost s = v@.skip(i as int);
        if pv.len() > 0 && crate::text::match_at_exec(v, pv.as_slice(), i) {
            proof {
                assert(s.subrange(0, pat@.len() as int) =~= v@.subrange(i as int, i + pat@.len()));
                assert(match_at(s, pat@, 0));
                assert(s.skip(pat@.len() as int) =~= v@.skip(i + pat@.len()));
            }
            let ghost before = out@;
            push_vec(&mut out, rv.as_slice());
            assert(out@ + replace_all(v@.skip(i + pv.len()), pat@, rep@) =~= before + (rep@
                + replace_all(s.skip(pat@.len() as int), pat@, rep@)));
            i = i + pv.len();
        } else {
            proof {
                if pat@.len() > 0 && match_at(s, pat@, 0) {
                    assert(v@.subrange(i as int, i + pat@.len()) =~= s.subrange(0, pat@.len() as int));
                }
                assert(s.drop_first() =~= v@.skip(i + 1));
            }
            let ghost before = out@;
            out.push(v[i]);
            assert(out@ + replace_all(v@.skip(i + 1), pat@, rep@) =~= before + (seq![s[0]]
                + replace_all(s.drop_first(), pat@, rep@)));
            i = i + 1;
        }
    }
    assert(v@.skip(i as int) =~= Seq::<char>::empty());
    assert(out@ =~= out@ + replace_all(v@.skip(i as int), pat@, rep@));
    out
}

fn push_vec(out: &mut Vec<char>, v: &[char])
    ensures
        final(out)@ == old(out)@ + v@,
{
    let ghost start = out@;
    let mut i: usize = 0;
    while i < v.len()
        invariant
            i <= v.len(),
            out@ == start + v@.take(i as int),
        decreases v.len() - i,
    {
        out.push(v[i]);
        i = i + 1;
        assert(out@ =~= start + v@.take(i as int));
    }
    assert(v@.take(i as int) =~= v@);
}

fn strip_tree_exec(s: &[char]) -> (r: Vec<char>)
    ensures
        r@ == strip_tree(s@),
{
    if s.len() >= 2 && (s[0] == '├' || s[0] == '└') && s[1] == '─' {
        slice_chars(s, 2, s.len())
    } else if s.len() >= 1 && s[0] == '─' {
        slice_chars(s, 1, s.len())
    } else {
        slice_chars(s, 0, s.len())
    }
}

fn service_entry_exec(line: &[char]) -> (r: Option<(Vec<char>, bool)>)
    ensures
        match r {
            Some((n, a)) => service_entry(line@) == Some((n@, a)),
            None => service_entry(line@) is None,
        },
{
    let t = trim_exec(line);
    if t.len() == 0 || contains_str(t.as_slice(), "Promoter:") || ends_with_str(t.as_slice(), ".toml:") {
        return None;
    }
    if t[0] != '○' && t[0] != '×' {
        return None;
    }
    let active = t[0] == '○';
    let rest = slice_chars(t.as_slice(), 1, t.len());
    assert(rest@ =~= t@.drop_first());
    let inner = trim_exec(rest.as_slice());
    let stripped = strip_tree_exec(inner.as_slice());
    let toks = tokens_exec(stripped.as_slice());
    if toks.len() == 0 {
        return None;
    }
    let name = &toks[0];
    assert(name@ == tokens(stripped@)[0]);
    if name.len() == 0 || starts_with_str(name.as_slice(), "drbd-services@") || starts_with_str(
        name.as_slice(),
        "drbd-promote@",
    ) {
        return None;
    }
    let clean = replace_all_exec(name.as_slice(), "\\x2d", "-");
    Some((clean, active))
}

/// The services that `drbd-reactorctl status` output reports for a profile, in order: each
/// with its state (`active` or `failed`), not yet known to be enabled.
pub fn parse_reactor_services(raw: &str) -> (r: Vec<ServiceStatusInfo>)
    ensures
        r@.map_values(|s: ServiceStatusInfo| service_view(s)) == service_entries(lines(raw@)),
        forall|i: int|
            #![trigger r@[i]]
            0 <= i < r.len() ==> r@[i].state@ == (if r@[i].active {
                "active"@
            } else {
                "failed"@
            }) && !r@[i].enabled && r@[i].active_since is None,
{
    let chars = chars_of(raw);
    let ls = lines_exec(chars.as_slice());
    let ghost v = views(ls@);
    let mut out: Vec<ServiceStatusInfo> = Vec::new();
    let mut i: usize = 0;
    while i < ls.len()
        invariant
            i <= ls.len(),
            v == views(ls@),
            v == lines(raw@),
            out@.map_values(|s: ServiceStatusInfo| service_view(s)) == service_entries(v.take(i as int)),
            forall|k: int|
                #![trigger out@[k]]
                0 <= k < out.len() ==> out@[k].state@ == (if out@[k].active {
                    "active"@
                } else {
                    "failed"@
                }) && !out@[k].enabled && out@[k].active_since is None,
        decreases ls.len() - i,
    {
        assert(v.take(i + 1).drop_last() =~= v.take(i as int));
        assert(v.take(i + 1).last() == ls@[i as int]@);
        let ghost before = out@;
        match service_entry_exec(ls[i].as_slice()) {
            Some((n, a)) => {
                let state = if a {
                    "active".to_owned()
                } else {
                    "failed".to_owned()
                };
                let info = ServiceStatusInfo {
                    name: string_of(n.as_slice()),
                    active: a,
                    state,
                    enabled: false,
                    active_since: None,
                };
                out.push(info);
                assert(out@.map_values(|s: ServiceStatusInfo| service_view(s)) =~= before.map_values(
                    |s: ServiceStatusInfo| service_view(s),
                ).push((n@, a)));
            },
            None => {},
        }
        i = i + 1;
    }
    assert(v.take(i as int) =~= v);
    out
}

/// Whether systemd is asked if a reported service is enabled: OCF resources (`ocf.rs@...`)
/// are no systemd units of their own.
pub fn needs_enabled_query(name: &str) -> (b: bool)
    ensures
        b == !starts_with(name@, "ocf.rs@"@),
{
    let v = chars_of(name);
    !starts_with_str(v.as_slice(), "ocf.rs@")
}

/// The mount point a list of services reveals: the first `.mount` unit, read back as a path
/// (`var-lib-data.mount` is `/var/lib/data`).
pub open spec fn mount_point_of(names: Seq<Seq<char>>) -> Option<Seq<char>>
    decreases names.len(),
{
    if names.len() == 0 {
        None
    } else if ends_with(names[0], ".mount"@) {
        Some(seq!['/'] + replace_char(names[0].take(names[0].len() - 6), '-', '/'))
    } else {
        mount_point_of(names.drop_first())
    }
}

/// The mount point revealed by the services of a profile, if any.
pub fn detect_mount_point(services: &Vec<ServiceStatusInfo>) -> (r: Option<String>)
    ensures
        match r {
            Some(m) => mount_point_of(services@.map_values(|s: ServiceStatusInfo| s.name@))
                == Some(m@),
            None => mount_point_of(services@.map_values(|s: ServiceStatusInfo| s.name@)) is None,
        },
{
    let ghost names = services@.map_values(|s: ServiceStatusInfo| s.name@);
    let mut i: usize = 0;
    assert(names.skip(0) =~= names);
    while i < services.len()
        invariant
            i <= services.len(),
            names == services@.map_values(|s: ServiceStatusInfo| s.name@),
            mount_point_of(names) == mount_point_of(names.skip(i as int)),
        decreases services.len() - i,
    {
        let v = chars_of(services[i].name.as_str());
        assert(names.skip(i as int)[0] == v@);
        if ends_with_str(v.as_slice(), ".mount") {
            proof {
                reveal_strlit(".mount");
            }
            let base = slice_chars(v.as_slice(), 0, v.len() - 6);
            let dashed = replace_char_exec(base.as_slice(), '-', '/');
            let mut m = "/".to_owned();
            push_chars(&mut m, dashed.as_slice());
            proof {
                reveal_strlit("/");
                assert(base@ =~= v@.take(v@.len() - 6));
                assert(m@ =~= seq!['/'] + replace_char(v@.take(v@.len() - 6), '-', '/'));
            }
            return Some(m);
        }
        assert(names.skip(i as int).drop_first() =~= names.skip(i + 1));
        i = i + 1;
    }
    None
}

// ---------------------------------------------------------------------------
// Virtual IP and overall state
// ---------------------------------------------------------------------------

/// The command that checks locally whether a virtual IP is up on an interface.
pub fn vip_check_command(interface: &str, address: &str) -> (c: String)
    ensures
        c@ == "ip addr show "@ + interface@ + " | grep -q '"@ + address@ + "'"@,
{
    let mut c = "ip addr show ".to_owned();
    push_str(&mut c, interface);
    push_str(&mut c, " | grep -q '");
    push_str(&mut c, address);
    push_str(&mut c, "'");
    c
}

/// A virtual IP is checked on the local interfaces only when the profile has one and no node
/// is known to be active.
pub fn vip_needs_local_check(has_vip: bool, active_node_known: bool) -> (b: bool)
    ensures
        b == (has_vip && !active_node_known),
{
    has_vip && !active_node_known
}

/// A service that runs the profile's virtual IP as an OCF resource.
pub open spec fn is_vip_service(name: Seq<char>) -> bool {
    contains(name, "vip"@) && contains(name, "ocf.rs@"@)
}

/// Whether the first virtual IP service among `services` is active, if there is one.
pub open spec fn vip_service_state(services: Seq<(Seq<char>, bool)>) -> Option<bool>
    decreases services.len(),
{
    if services.len() == 0 {
        None
    } else if is_vip_service(services[0].0) {
        Some(services[0].1)
    } else {
        vip_service_state(services.drop_first())
    }
}

/// Whether the virtual IP of a profile is up. With a virtual IP configured it is up when a
/// node is active, else as the local check found; without one, as the first virtual IP
/// service reports, if any.
pub open spec fn spec_vip_active(
    has_vip: bool,
    active_node_known: bool,
    local_check: bool,
    services: Seq<(Seq<char>, bool)>,
) -> Option<bool> {
    if has_vip {
        Some(active_node_known || local_check)
    } else {
        vip_service_state(services)
    }
}

/// Decides whether the virtual IP of a profile is up; `local_check` is what the local check
/// found, when `vip_needs_local_check` asked for it.
pub fn vip_active_status(
    has_vip: bool,
    active_node_known: bool,
    local_check: bool,
    services: &Vec<ServiceStatusInfo>,
) -> (r: Option<bool>)
    ensures
        r == spec_vip_active(
            has_vip,
            active_node_known,
            local_check,
            services@.map_values(|s: ServiceStatusInfo| service_view(s)),
        ),
{
    if has_vip {
        return Some(active_node_known || local_check);
    }
    let ghost sv = services@.map_values(|s: ServiceStatusInfo| service_view(s));
    let mut i: usize = 0;
    assert(sv.skip(0) =~= sv);
    while i < services.len()
        invariant
            i <= services.len(),
            !has_vip,
            sv == services@.map_values(|s: ServiceStatusInfo| service_view(s)),
            vip_service_state(sv) == vip_service_state(sv.skip(i as int)),
        decreases services.len() - i,
    {
        let v = chars_of(services[i].name.as_str());
        assert(sv.skip(i as int)[0] == service_view(services@[i as int]));
        if contains_str(v.as_slice(), "vip") && contains_str(v.as_slice(), "ocf.rs@") {
            assert(is_vip_service(sv.skip(i as int)[0].0));
            assert(vip_service_state(sv.skip(i as int)) == Some(services@[i as int].active));
            return Some(services[i].active);
        }
        assert(sv.skip(i as int).drop_first() =~= sv.skip(i + 1));
        i = i + 1;
    }
    None
}

/// Every reported service is active.
pub open spec fn all_active(services: Seq<(Seq<char>, bool)>) -> bool {
    forall|i: int| 0 <= i < services.len() ==> #[trigger] services[i].1
}

/// The overall state of a profile: active when a node is known to be active; else by the
/// local DRBD role (Primary: active when every service is, an error otherwise; Secondary:
/// standby); stopped without DRBD status; unknown otherwise.
pub open spec fn spec_overall_status(
    active_node_known: bool,
    drbd_role: Option<Seq<char>>,
    services_active: bool,
) -> HaProfileStatus {
    if active_node_known {
        HaProfileStatus::Active
    } else {
        match drbd_role {
            Some(role) => if role == "Primary"@ {
                if services_active {
                    HaProfileStatus::Active
                } else {
                    HaProfileStatus::Error
                }
            } else if role == "Secondary"@ {
                HaProfileStatus::Standby
            } else {
                HaProfileStatus::Unknown
            },
            None => HaProfileStatus::Stopped,
        }
    }
}

/// Decides the overall state of a profile.
pub fn overall_status(
    active_node_known: bool,
    drbd: &Option<DrbdResourceStatus>,
    services: &Vec<ServiceStatusInfo>,
) -> (s: HaProfileStatus)
    ensures
        s == spec_overall_status(
            active_node_known,
            match drbd {
                Some(d) => Some(d.role@),
                None => None,
            },
            all_active(services@.map_values(|s: ServiceStatusInfo| service_view(s))),
        ),
{
    if active_node_known {
        return HaProfileStatus::Active;
    }
    match drbd {
        None => HaProfileStatus::Stopped,
        Some(d) => {
            if crate::text::str_eq(d.role.as_str(), "Primary") {
                let ghost sv = services@.map_values(|s: ServiceStatusInfo| service_view(s));
                let mut i: usize = 0;
                while i < services.len()
                    invariant
                        i <= services.len(),
                        !active_node_known,
                        *drbd == Some(*d),
                        d.role@ == "Primary"@,
                        sv == services@.map_values(|s: ServiceStatusInfo| service_view(s)),
                        forall|k: int| 0 <= k < i ==> #[trigger] sv[k].1,
                    decreases services.len() - i,
                {
                    if !services[i].active {
                        assert(!sv[i as int].1);
                        assert(!all_active(sv));
                        return HaProfileStatus::Error;
                    }
                    i = i + 1;
                }
                HaProfileStatus::Active
            } else if crate::text::str_eq(d.role.as_str(), "Secondary") {
                HaProfileStatus::Standby
            } else {
                HaProfileStatus::Unknown
            }
        },
    }
}

// ---------------------------------------------------------------------------
// Laws of the virtual IP state
// ---------------------------------------------------------------------------

proof fn lemma_first_vip_service(services: Seq<(Seq<char>, bool)>, k: int)
    requires
        0 <= k < services.len(),
        contains(services[k].0, "vip"@) && contains(services[k].0, "ocf.rs@"@),
        forall|j: int| 0 <= j < k ==> !(contains((#[trigger] services[j]).0, "vip"@) && contains(
            services[j].0,
            "ocf.rs@"@,
        )),
    ensures
        vip_service_state(services) == Some(services[k].1),
    decreases k,
{
    if k > 0 {
        assert(!(contains(services[0].0, "vip"@) && contains(services[0].0, "ocf.rs@"@)));
        let rest = services.drop_first();
        assert forall|j: int| 0 <= j < k - 1 implies !(contains((#[trigger] rest[j]).0, "vip"@) && contains(
            rest[j].0,
            "ocf.rs@"@,
        )) by {
            assert(rest[j] == services[j + 1]);
        }
        lemma_first_vip_service(rest, k - 1);
    }
}

proof fn lemma_no_vip_service(services: Seq<(Seq<char>, bool)>)
    requires
        forall|j: int| 0 <= j < services.len() ==> !(contains((#[trigger] services[j]).0, "vip"@) && contains(
            services[j].0,
            "ocf.rs@"@,
        )),
    ensures
        vip_service_state(services) is None,
    decreases services.len(),
{
    if services.len() > 0 {
        let rest = services.drop_first();
        assert forall|j: int| 0 <= j < rest.len() implies !(contains((#[trigger] rest[j]).0, "vip"@) && contains(
            rest[j].0,
            "ocf.rs@"@,
        )) by {
            assert(rest[j] == services[j + 1]);
        }
        lemma_no_vip_service(rest);
    }
}

/// The virtual IP of a profile that has one is reported up exactly when a node is known to
/// be active or the local interface check found the address, and down otherwise; it is
/// never left unknown.
pub proof fn law_configured_vip_state(active_node_known: bool, local_check: bool, services: Seq<(Seq<char>, bool)>)
    ensures
        (active_node_known || local_check) ==> spec_vip_active(true, active_node_known, local_check, services)
            == Some(true),
        (!active_node_known && !local_check) ==> spec_vip_active(true, active_node_known, local_check, services)
            == Some(false),
{
}

/// Without a virtual IP in the profile, the state is that of the first service that runs a
/// virtual IP through drbd-reactor's OCF support (its name holds `vip` and `ocf.rs@`), and
/// unknown when there is none; the active node and the local check play no part.
pub proof fn law_unconfigured_vip_state(
    active_node_known: bool,
    local_check: bool,
    services: Seq<(Seq<char>, bool)>,
    k: int,
)
    ensures
        (0 <= k < services.len() && contains(services[k].0, "vip"@) && contains(services[k].0, "ocf.rs@"@)
            && forall|j: int| 0 <= j < k ==> !(contains((#[trigger] services[j]).0, "vip"@) && contains(
            services[j].0,
            "ocf.rs@"@,
        ))) ==> spec_vip_active(false, active_node_known, local_check, services) == Some(services[k].1),
        (forall|j: int| 0 <= j < services.len() ==> !(contains((#[trigger] services[j]).0, "vip"@) && contains(
            services[j].0,
            "ocf.rs@"@,
        ))) ==> spec_vip_active(false, active_node_known, local_check, services) is None,
{
    if 0 <= k < services.len() && contains(services[k].0, "vip"@) && contains(services[k].0, "ocf.rs@"@)
        && forall|j: int| 0 <= j < k ==> !(contains((#[trigger] services[j]).0, "vip"@) && contains(
        services[j].0,
        "ocf.rs@"@,
    )) {
        lemma_first_vip_service(services, k);
    }
    if forall|j: int| 0 <= j < services.len() ==> !(contains((#[trigger] services[j]).0, "vip"@) && contains(
        services[j].0,
        "ocf.rs@"@,
    )) {
        lemma_no_vip_service(services);
    }
}


/// A profile is active whenever a node is known to be active. Otherwise its local DRBD role
/// decides: a primary is active when every service is and in error when one is not, a
/// secondary is on standby, any other role is unknown, and without a DRBD status it is
/// stopped.
pub proof fn law_overall_status(active_node_known: bool, role: Option<Seq<char>>, services: Seq<(Seq<char>, bool)>, k: int)
    ensures
        active_node_known ==> spec_overall_status(true, role, all_active(services)) == HaProfileStatus::Active,
        (!active_node_known && role == Some("Primary"@) && forall|i: int| 0 <= i < services.len() ==> #[trigger] services[i].1)
            ==> spec_overall_status(false, role, all_active(services)) == HaProfileStatus::Active,
        (!active_node_known && role == Some("Primary"@) && 0 <= k < services.len() && !services[k].1)
            ==> spec_overall_status(false, role, all_active(services)) == HaProfileStatus::Error,
        role == Some("Secondary"@) ==> spec_overall_status(false, role, all_active(services)) == HaProfileStatus::Standby,
        role is None ==> spec_overall_status(false, role, all_active(services)) == HaProfileStatus::Stopped,
        (role matches Some(r) && r != "Primary"@ && r != "Secondary"@) ==> spec_overall_status(false, role, all_active(services))
            == HaProfileStatus::Unknown,
{
    reveal_strlit("Primary");
    reveal_strlit("Secondary");
    assert("Secondary"@[0] != "Primary"@[0]);
}

} // verus!
