//! HA profiles: what a profile holds, the answers about profiles, and how the state shown
//! in the profile list is decided from where the profile is enabled.

use vstd::prelude::*;
use crate::config_gen::ConfigPaths;
use crate::option_map::{OptionMap, ParamEntry};
use crate::profile_status::HaProfileStatus;
use crate::reactor_config::VipConfig;
use crate::text::{chars_of, contains, contains_str, push_str};

verus! {

/// The kind of service an HA profile makes highly available.
#[derive(Debug, Clone, Copy, PartialEq, Eq, Structural)]
pub enum HaType {
    Generic,
    Nfs,
    Iscsi,
    NvmeOf,
}

/// How the DRBD device of a profile is mounted: by a systemd mount unit (the default) or by
/// an OCF Filesystem agent.
#[derive(Debug, Clone, Copy, PartialEq, Eq, Structural)]
pub enum MountStrategy {
    Systemd,
    Ocf,
}

/// The name a mount strategy has in the promoter configuration.
pub open spec fn spec_mount_strategy_name(m: MountStrategy) -> Seq<char> {
    match m {
        MountStrategy::Systemd => "systemd"@,
        MountStrategy::Ocf => "ocf"@,
    }
}

/// The name a mount strategy has in the promoter configuration.
pub fn mount_strategy_name(m: MountStrategy) -> (s: String)
    ensures
        s@ == spec_mount_strategy_name(m),
{
    match m {
        MountStrategy::Systemd => "systemd".to_owned(),
        MountStrategy::Ocf => "ocf".to_owned(),
    }
}

/// An OCF agent started by a profile, with its parameters.
#[derive(Debug)]
pub struct HaOcfAgent {
    /// Agent name, e.g. `ocf:heartbeat:Filesystem`.
    pub name: String,
    /// Instance name.
    pub instance_name: String,
    pub params: OptionMap,
}

/// A drop-in override generated for a service.
#[derive(Debug, Clone)]
pub struct ServiceOverride {
    pub service_name: String,
    pub override_dir: String,
    pub override_path: String,
}

/// The systemd units and files generated for a profile.
#[derive(Debug, Clone)]
pub struct GeneratedUnits {
    pub drbd_config_path: Option<String>,
    pub mount_unit: Option<String>,
    pub mount_unit_path: Option<String>,
    pub drbd_device: Option<String>,
    pub service_overrides: Vec<ServiceOverride>,
}

impl Default for GeneratedUnits {
    fn default() -> (g: Self)
        ensures
            g.drbd_config_path is None,
            g.mount_unit is None,
            g.mount_unit_path is None,
            g.drbd_device is None,
            g.service_overrides@.len() == 0,
    {
        GeneratedUnits {
            drbd_config_path: None,
            mount_unit: None,
            mount_unit_path: None,
            drbd_device: None,
            service_overrides: Vec::new(),
        }
    }
}

/// The settings of a profile's promoter.
#[derive(Debug, Clone)]
pub struct PromoterSettings {
    pub services: Vec<String>,
    pub stop_on_demote: bool,
    pub on_demote_failure: String,
    pub preferred_nodes: Option<Vec<String>>,
    pub preferred_nodes_policy: Option<String>,
    pub sleep_before_promote_factor: Option<u32>,
    pub dependencies_as: Option<String>,
    pub target_as: Option<String>,
    pub on_quorum_loss: Option<String>,
}

/// An HA profile: a DRBD resource, where it is mounted, and what drbd-reactor starts on the
/// node that holds it.
#[derive(Debug)]
pub struct HaProfile {
    pub id: String,
    pub name: String,
    pub ha_type: HaType,
    pub resource_name: String,
    pub mount_point: String,
    pub fs_type: String,
    pub mount_strategy: MountStrategy,
    pub vip: Option<VipConfig>,
    pub ocf_agents: Vec<HaOcfAgent>,
    pub promoter: PromoterSettings,
    pub status: HaProfileStatus,
    pub active_node: Option<String>,
    pub generated_units: GeneratedUnits,
    pub is_builtin_plugin: bool,
}

/// Response for the profile list.
#[derive(Debug)]
pub struct HaProfileListResponse {
    pub profiles: Vec<HaProfile>,
}

/// Summary of a data migration.
#[derive(Debug, Clone)]
pub struct MigrationResultInfo {
    pub bytes_transferred: u64,
    pub source_path: String,
    pub services_restarted: Vec<String>,
}

/// Response for the creation of a profile.
#[derive(Debug)]
pub struct HaProfileCreateResponse {
    pub profile: HaProfile,
    pub config_path: String,
    pub message: String,
    /// Services that were disabled (when services are disabled automatically).
    pub disabled_services: Vec<String>,
    pub generated_units: Option<GeneratedUnits>,
    pub migration_result: Option<MigrationResultInfo>,
    /// Nodes that were synced with the HA configuration.
    pub synced_nodes: Vec<String>,
    pub promoter_config_content: Option<String>,
    pub drbd_config_content: Option<String>,
}

/// Query parameters for deleting a profile.
#[derive(Debug, Clone, Copy)]
pub struct DeleteProfileQuery {
    /// Also delete the associated DRBD resource.
    pub delete_resource: bool,
    /// Also delete the promoter configuration file from disk.
    pub delete_config_file: bool,
}

/// A copy of the entries of a parameter map.
pub fn param_entries(m: &OptionMap) -> (v: Vec<ParamEntry>)
    ensures
        crate::option_map::entries_view(v@) == m@,
{
    let src = m.entries();
    let mut out: Vec<ParamEntry> = Vec::new();
    let mut i: usize = 0;
    while i < src.len()
        invariant
            i <= src.len(),
            crate::option_map::entries_view(out@) == crate::option_map::entries_view(src@).take(
                i as int,
            ),
        decreases src.len() - i,
    {
        let ghost before = out@;
        let e = ParamEntry { key: src[i].key.clone(), value: src[i].value.clone() };
        assert(crate::option_map::entry_view(e) == crate::option_map::entry_view(src@[i as int]));
        out.push(e);
        assert(crate::option_map::entries_view(out@) =~= crate::option_map::entries_view(before).push(
            crate::option_map::entry_view(e),
        ));
        assert(crate::option_map::entries_view(out@) =~= crate::option_map::entries_view(
            src@,
        ).take(i + 1));
        i = i + 1;
    }
    assert(crate::option_map::entries_view(src@).take(i as int) =~= crate::option_map::entries_view(
        src@,
    ));
    out
}

// ---------------------------------------------------------------------------
// Where a profile's promoter file lies
// ---------------------------------------------------------------------------

/// Path of the promoter file of a disabled profile.
pub open spec fn spec_disabled_promoter_path(name: Seq<char>) -> Seq<char> {
    ConfigPaths::REACTOR_CONF_DIR@ + "/"@ + name + ".toml.disabled"@
}

/// Path of the promoter file of a disabled profile: `<REACTOR_CONF_DIR>/<name>.toml.disabled`.
pub fn disabled_promoter_path(name: &str) -> (p: String)
    ensures
        p@ == spec_disabled_promoter_path(name@),
{
    let mut p = ConfigPaths::REACTOR_CONF_DIR.to_owned();
    push_str(&mut p, "/");
    push_str(&mut p, name);
    push_str(&mut p, ".toml.disabled");
    p
}

/// The command that tells whether a remote node has the enabled promoter file of a profile.
pub fn remote_enabled_check_command(name: &str) -> (c: String)
    ensures
        c@ == "test -f "@ + ConfigPaths::REACTOR_CONF_DIR@ + "/"@ + name@ + ".toml && echo exists"@,
{
    let mut c = "test -f ".to_owned();
    push_str(&mut c, ConfigPaths::REACTOR_CONF_DIR);
    push_str(&mut c, "/");
    push_str(&mut c, name);
    push_str(&mut c, ".toml && echo exists");
    c
}

/// A remote node has the enabled promoter file when the check printed `exists`.
pub fn remote_check_found(stdout: &str) -> (b: bool)
    ensures
        b == contains(stdout@, "exists"@),
{
    let v = chars_of(stdout);
    contains_str(v.as_slice(), "exists")
}

/// The command that asks a remote drbd-reactor for a profile's status, as JSON.
pub fn remote_status_command(name: &str) -> (c: String)
    ensures
        c@ == "sudo drbd-reactorctl status --json "@ + name@ + " 2>/dev/null"@,
{
    let mut c = "sudo drbd-reactorctl status --json ".to_owned();
    push_str(&mut c, name);
    push_str(&mut c, " 2>/dev/null");
    c
}

// ---------------------------------------------------------------------------
// The state shown in the profile list
// ---------------------------------------------------------------------------

/// What the local drbd-reactor said of a profile: whether it is active, and on which node.
#[derive(Debug, Clone)]
pub struct ReactorProfileState {
    pub is_active: bool,
    pub active_node: Option<String>,
}

/// The state shown for a profile in the list, and its active node.
///
/// A profile enabled locally takes the local drbd-reactor's word: active (on the node it
/// names) when the first status it reports is active, standby otherwise or when it reports
/// nothing or fails (the active node then stays as it was). A profile disabled locally is
/// active on the node a remote drbd-reactor names, standby when it is enabled elsewhere
/// without such a name, and disabled when no node has it enabled.
pub open spec fn spec_listed_state(
    locally_disabled: bool,
    enabled_elsewhere: bool,
    remote_active: Option<Seq<char>>,
    local: Option<Option<(bool, Option<Seq<char>>)>>,
    current_active: Option<Seq<char>>,
) -> (HaProfileStatus, Option<Seq<char>>) {
    if !locally_disabled {
        match local {
            Some(Some((true, node))) => (HaProfileStatus::Active, node),
            Some(Some((false, _))) => (HaProfileStatus::Standby, None),
            _ => (HaProfileStatus::Standby, current_active),
        }
    } else if enabled_elsewhere {
        match remote_active {
            Some(n) => (HaProfileStatus::Active, Some(n)),
            None => (HaProfileStatus::Standby, None),
        }
    } else {
        (HaProfileStatus::Disabled, None)
    }
}

/// The view of an optional string.
pub open spec fn str_opt(o: Option<String>) -> Option<Seq<char>> {
    match o {
        Some(s) => Some(s@),
        None => None,
    }
}

/// The view of what the local drbd-reactor said: `None` when asking failed, `Some(None)` when
/// it reported no status.
pub open spec fn local_view(local: Option<Option<ReactorProfileState>>) -> Option<
    Option<(bool, Option<Seq<char>>)>,
> {
    match local {
        Some(Some(st)) => Some(Some((st.is_active, str_opt(st.active_node)))),
        Some(None) => Some(None),
        None => None,
    }
}

/// Decides the state shown for a profile in the list; `local` is only consulted for a
/// profile enabled locally, `enabled_elsewhere` and `remote_active` only for one disabled
/// locally.
pub fn listed_state(
    locally_disabled: bool,
    enabled_elsewhere: bool,
    remote_active: Option<String>,
    local: Option<Option<ReactorProfileState>>,
    current_active: Option<String>,
) -> (r: (HaProfileStatus, Option<String>))
    ensures
        (r.0, str_opt(r.1)) == spec_listed_state(
            locally_disabled,
            enabled_elsewhere,
            str_opt(remote_active),
            local_view(local),
            str_opt(current_active),
        ),
{
    if !locally_disabled {
        match local {
            Some(Some(st)) => {
                if st.is_active {
                    (HaProfileStatus::Active, st.active_node)
                } else {
                    (HaProfileStatus::Standby, None)
                }
            },
            _ => (HaProfileStatus::Standby, current_active),
        }
    } else if enabled_elsewhere {
        match remote_active {
            Some(n) => (HaProfileStatus::Active, Some(n)),
            None => (HaProfileStatus::Standby, None),
        }
    } else {
        (HaProfileStatus::Disabled, None)
    }
}

/// A profile disabled on every node is listed as disabled with no active node; one enabled
/// locally is never listed as disabled.
pub proof fn law_listed_disabled_exactly(
    locally_disabled: bool,
    enabled_elsewhere: bool,
    remote_active: Option<Seq<char>>,
    local: Option<Option<(bool, Option<Seq<char>>)>>,
    current_active: Option<Seq<char>>,
)
    ensures
        (spec_listed_state(locally_disabled, enabled_elsewhere, remote_active, local, current_active).0
            == HaProfileStatus::Disabled) <==> (locally_disabled && !enabled_elsewhere),
        locally_disabled && !enabled_elsewhere ==> spec_listed_state(
            locally_disabled,
            enabled_elsewhere,
            remote_active,
            local,
            current_active,
        ).1 is None,
{
}

} // verus!
