//! Creating an HA profile: completing its Filesystem agents, the DRBD resource laid out over
//! the cluster's nodes, the volumes and commands that prepare its storage, its promoter
//! configuration, and the report of what was done.

use vstd::prelude::*;
use crate::config_gen::{
    spec_promoter_path, ConfigPaths, NodeConfig, OcfAgentConfig, PromoterPluginConfig,
    ResourceConfig, VipPluginConfig,
};
use crate::nodes::{trim_end_char, trim_end_char_exec, AppError, Node};
use crate::option_map::{lookup, map_insert, OptionMap};
use crate::profiles::{
    mount_strategy_name, param_entries, spec_mount_strategy_name, HaOcfAgent, HaProfile,
};
use crate::text::{
    chars_of, contains, contains_str, decimal, lines, lines_exec, push_decimal, push_str,
    replace_char, replace_char_exec, slice_chars, starts_with, starts_with_str, string_of, trim,
    trim_exec, views,
};

verus! {

// ---------------------------------------------------------------------------
// The DRBD device of a resource
// ---------------------------------------------------------------------------

/// The device a DRBD resource file names: the first line that starts, once trimmed, with
/// `device `, without that word and without trailing `;`.
pub open spec fn resource_device(ls: Seq<Seq<char>>) -> Option<Seq<char>>
    decreases ls.len(),
{
    if ls.len() == 0 {
        None
    } else if starts_with(trim(ls[0]), "device "@) {
        Some(trim_end_char(trim(ls[0]).skip(7), ';'))
    } else {
        resource_device(ls.drop_first())
    }
}

/// Reads the device of a DRBD resource from the content of its resource file.
pub fn device_from_resource_config(content: &str) -> (r: Option<String>)
    ensures
        match r {
            Some(d) => resource_device(lines(content@)) == Some(d@),
            None => resource_device(lines(content@)) is None,
        },
{
    let chars = chars_of(content);
    let ls = lines_exec(chars.as_slice());
    let ghost v = views(ls@);
    let mut i: usize = 0;
    assert(v.skip(0) =~= v);
    while i < ls.len()
        invariant
            i <= ls.len(),
            v == views(ls@),
            v == lines(content@),
            resource_device(v) == resource_device(v.skip(i as int)),
        decreases ls.len() - i,
    {
        assert(v.skip(i as int)[0] == ls@[i as int]@);
        let t = trim_exec(ls[i].as_slice());
        if starts_with_str(t.as_slice(), "device ") {
            proof {
                reveal_strlit("device ");
            }
            let rest = slice_chars(t.as_slice(), 7, t.len());
            assert(rest@ =~= t@.skip(7));
            let d = trim_end_char_exec(&rest, ';');
            return Some(string_of(d.as_slice()));
        }
        assert(v.skip(i as int).drop_first() =~= v.skip(i + 1));
        i = i + 1;
    }
    None
}

// ---------------------------------------------------------------------------
// Filesystem agents
// ---------------------------------------------------------------------------

/// The agent that mounts the DRBD device when the OCF strategy is chosen.
pub open spec fn is_filesystem_agent(name: Seq<char>) -> bool {
    name == "ocf:heartbeat:Filesystem"@
}

/// `key` is missing from `params` or empty there.
pub open spec fn missing_or_empty(params: Seq<(Seq<char>, Seq<char>)>, key: Seq<char>) -> bool {
    match lookup(params, key) {
        Some(v) => v.len() == 0,
        None => true,
    }
}

/// The parameters of a Filesystem agent once completed: a missing `device` takes the
/// resource's device (none can be given when it is unknown), a missing or empty `directory`
/// the mount point, a missing or empty `fstype` the filesystem type.
pub open spec fn completed_fs_params(
    params: Seq<(Seq<char>, Seq<char>)>,
    device: Option<Seq<char>>,
    mount_point: Seq<char>,
    fs_type: Seq<char>,
) -> Option<Seq<(Seq<char>, Seq<char>)>> {
    let with_device = if lookup(params, "device"@) is Some {
        Some(params)
    } else {
        match device {
            Some(d) => Some(map_insert(params, "device"@, d)),
            None => None,
        }
    };
    match with_device {
        None => None,
        Some(p1) => {
            let p2 = if missing_or_empty(p1, "directory"@) {
                map_insert(p1, "directory"@, mount_point)
            } else {
                p1
            };
            Some(
                if missing_or_empty(p2, "fstype"@) {
                    map_insert(p2, "fstype"@, fs_type)
                } else {
                    p2
                },
            )
        },
    }
}

/// An agent as plain values: name, instance name and parameters.
pub open spec fn agent_view(a: HaOcfAgent) -> (Seq<char>, Seq<char>, Seq<(Seq<char>, Seq<char>)>) {
    (a.name@, a.instance_name@, a.params@)
}

/// What becomes of one agent: a Filesystem agent is completed, others stay as they are.
pub open spec fn completed_agent(
    a: (Seq<char>, Seq<char>, Seq<(Seq<char>, Seq<char>)>),
    device: Option<Seq<char>>,
    mount_point: Seq<char>,
    fs_type: Seq<char>,
) -> Option<(Seq<char>, Seq<char>, Seq<(Seq<char>, Seq<char>)>)> {
    if is_filesystem_agent(a.0) {
        match completed_fs_params(a.2, device, mount_point, fs_type) {
            Some(p) => Some((a.0, a.1, p)),
            None => None,
        }
    } else {
        Some(a)
    }
}

/// The agents once completed, or `None` when a Filesystem agent needs a device that is not
/// known.
pub open spec fn completed_agents(
    agents: Seq<(Seq<char>, Seq<char>, Seq<(Seq<char>, Seq<char>)>)>,
    device: Option<Seq<char>>,
    mount_point: Seq<char>,
    fs_type: Seq<char>,
) -> Option<Seq<(Seq<char>, Seq<char>, Seq<(Seq<char>, Seq<char>)>)>>
    decreases agents.len(),
{
    if agents.len() == 0 {
        Some(Seq::empty())
    } else {
        match completed_agents(agents.drop_last(), device, mount_point, fs_type) {
            None => None,
            Some(done) => match completed_agent(agents.last(), device, mount_point, fs_type) {
                None => None,
                Some(a) => Some(done.push(a)),
            },
        }
    }
}

/// The error when a Filesystem agent needs the device of a resource that does not exist.
pub open spec fn missing_device_message(resource: Seq<char>) -> Seq<char> {
    "DRBD resource '"@ + resource
        + "' not found. Cannot determine device path for Filesystem agent."@
}

fn complete_params(
    params: &mut OptionMap,
    device: &Option<String>,
    mount_point: &str,
    fs_type: &str,
) -> (ok: bool)
    ensures
        ok == (completed_fs_params(old(params)@, crate::profiles::str_opt(*device), mount_point@, fs_type@) is Some),
        ok ==> completed_fs_params(old(params)@, crate::profiles::str_opt(*device), mount_point@, fs_type@)
            == Some(final(params)@),
{
    if !params.contains_key("device") {
        match device {
            Some(d) => {
                params.insert("device".to_owned(), d.clone());
            },
            None => {
                return false;
            },
        }
    }
    let dir_set = match params.get("directory") {
        Some(v) => chars_of(v.as_str()).len() > 0,
        None => false,
    };
    if !dir_set {
        params.insert("directory".to_owned(), mount_point.to_owned());
    }
    let fs_set = match params.get("fstype") {
        Some(v) => chars_of(v.as_str()).len() > 0,
        None => false,
    };
    if !fs_set {
        params.insert("fstype".to_owned(), fs_type.to_owned());
    }
    true
}

/// Completes the Filesystem agents of a new profile with the resource's device, the mount
/// point and the filesystem type, and tells whether there is such an agent; fails when one
/// needs the device and the resource has none (`device` is `None`).
pub fn complete_filesystem_agents(
    agents: Vec<HaOcfAgent>,
    device: &Option<String>,
    resource_name: &str,
    mount_point: &str,
    fs_type: &str,
) -> (r: Result<(Vec<HaOcfAgent>, bool), AppError>)
    ensures
        match completed_agents(
            agents@.map_values(|a: HaOcfAgent| agent_view(a)),
            crate::profiles::str_opt(*device),
            mount_point@,
            fs_type@,
        ) {
            Some(done) => r matches Ok((out, present)) && out@.map_values(|a: HaOcfAgent| agent_view(a))
                == done && present == (exists|i: int|
                0 <= i < agents.len() && #[trigger] is_filesystem_agent(agents@[i].name@)),
            None => r matches Err(AppError::Validation(m)) && m@ == missing_device_message(
                resource_name@,
            ),
        },
{
    let ghost all = agents@.map_values(|a: HaOcfAgent| agent_view(a));
    let ghost dev = crate::profiles::str_opt(*device);
    let ghost orig = agents@;
    let mut rest = agents;
    let mut out: Vec<HaOcfAgent> = Vec::new();
    let mut present = false;
    let ghost mut i: int = 0;
    while rest.len() > 0
        invariant
            0 <= i <= all.len(),
            orig == agents@,
            all.len() == orig.len(),
            all == orig.map_values(|a: HaOcfAgent| agent_view(a)),
            dev == crate::profiles::str_opt(*device),
            rest@ == orig.skip(i),
            completed_agents(all.take(i), dev, mount_point@, fs_type@) == Some(
                out@.map_values(|a: HaOcfAgent| agent_view(a)),
            ),
            present == (exists|k: int| 0 <= k < i && #[trigger] is_filesystem_agent(orig[k].name@)),
        decreases rest.len(),
    {
        let a = rest.remove(0);
        assert(a == orig[i]);
        assert(all.take(i + 1).drop_last() =~= all.take(i));
        assert(all.take(i + 1).last() == agent_view(a));
        let ghost done = out@.map_values(|a: HaOcfAgent| agent_view(a));
        let HaOcfAgent { name, instance_name, params } = a;
        let mut params = params;
        let v = chars_of(name.as_str());
        if crate::text::chars_eq(v.as_slice(), chars_of("ocf:heartbeat:Filesystem").as_slice()) {
            if !complete_params(&mut params, device, mount_point, fs_type) {
                proof {
                    assert(completed_agent(all.take(i + 1).last(), dev, mount_point@, fs_type@) is None);
                    assert(completed_agents(all.take(i + 1), dev, mount_point@, fs_type@) is None);
                    lemma_completed_prefix_none(all, i + 1, dev, mount_point@, fs_type@);
                    assert(all.take(all.len() as int) =~= all);
                }
                let mut m = "DRBD resource '".to_owned();
                push_str(&mut m, resource_name);
                push_str(&mut m, "' not found. Cannot determine device path for Filesystem agent.");
                assert(m@ =~= missing_device_message(resource_name@));
                return Err(AppError::Validation(m));
            }
            present = true;
        }
        let b = HaOcfAgent { name, instance_name, params };
        out.push(b);
        proof {
            assert(out@.map_values(|a: HaOcfAgent| agent_view(a)) =~= done.push(agent_view(b)));
            i = i + 1;
            assert(present == (exists|k: int| 0 <= k < i && #[trigger] is_filesystem_agent(orig[k].name@))) by {
                if present && !is_filesystem_agent(orig[i - 1].name@) {
                    let k = choose|k: int| 0 <= k < i - 1 && #[trigger] is_filesystem_agent(orig[k].name@);
                }
                if is_filesystem_agent(orig[i - 1].name@) {
                    assert(is_filesystem_agent(orig[i - 1].name@));
                }
            }
        }
        assert(rest@ =~= orig.skip(i));
    }
    assert(all.take(i) =~= all);
    Ok((out, present))
}

proof fn lemma_completed_prefix_none(
    all: Seq<(Seq<char>, Seq<char>, Seq<(Seq<char>, Seq<char>)>)>,
    n: int,
    device: Option<Seq<char>>,
    mount_point: Seq<char>,
    fs_type: Seq<char>,
)
    requires
        0 <= n <= all.len(),
        completed_agents(all.take(n), device, mount_point, fs_type) is None,
    ensures
        completed_agents(all, device, mount_point, fs_type) is None,
    decreases all.len() - n,
{
    if n < all.len() {
        assert(all.take(n + 1).drop_last() =~= all.take(n));
        lemma_completed_prefix_none(all, n + 1, device, mount_point, fs_type);
    } else {
        assert(all.take(n) =~= all);
    }
}

// ---------------------------------------------------------------------------
// The DRBD resource of a new profile
// ---------------------------------------------------------------------------

/// The node entries of a new resource: the nodes in order, each with its disk, numbered
/// from 0.
pub fn profile_node_configs(nodes: &Vec<Node>, disks: &Vec<String>) -> (r: Vec<NodeConfig>)
    requires
        disks.len() == nodes.len(),
        nodes.len() <= u32::MAX,
    ensures
        r.len() == nodes.len(),
        forall|i: int|
            #![trigger r@[i]]
            0 <= i < r.len() ==> r@[i].hostname@ == nodes@[i].hostname@ && r@[i].ip@
                == nodes@[i].ip@ && r@[i].disk@ == disks@[i]@ && r@[i].node_id == i,
{
    let mut out: Vec<NodeConfig> = Vec::new();
    let mut i: usize = 0;
    while i < nodes.len()
        invariant
            i <= nodes.len(),
            disks.len() == nodes.len(),
            nodes.len() <= u32::MAX,
            out.len() == i,
            forall|k: int|
                #![trigger out@[k]]
                0 <= k < i ==> out@[k].hostname@ == nodes@[k].hostname@ && out@[k].ip@
                    == nodes@[k].ip@ && out@[k].disk@ == disks@[k]@ && out@[k].node_id == k,
        decreases nodes.len() - i,
    {
        out.push(
            NodeConfig {
                hostname: nodes[i].hostname.clone(),
                ip: nodes[i].ip.clone(),
                disk: disks[i].clone(),
                node_id: i as u32,
            },
        );
        i = i + 1;
    }
    out
}

/// The device of DRBD minor `minor`: DRBD wants the device name to match the minor.
pub open spec fn minor_device(minor: u32) -> Seq<char> {
    "/dev/drbd"@ + decimal(minor as nat)
}

/// The resource of a new profile: the given name, port, minor and nodes, the device that
/// matches the minor, no auto-promote (drbd-reactor promotes), default options.
pub fn profile_resource_config(name: &str, port: u16, minor: u32, nodes: Vec<NodeConfig>) -> (r:
    ResourceConfig)
    ensures
        r.name@ == name@,
        r.port == port,
        r.minor == minor,
        r.device@ == minor_device(minor),
        r.nodes@ == nodes@,
        !r.auto_promote,
        r.disk_options@ == seq![("on-io-error"@, "detach"@)],
        r.net_options@ == seq![("protocol"@, "C"@), ("verify-alg"@, "sha256"@)],
{
    let base = ResourceConfig::default();
    let mut device = "/dev/drbd".to_owned();
    push_decimal(&mut device, minor as u64);
    ResourceConfig {
        name: name.to_owned(),
        port,
        minor,
        device,
        nodes,
        disk_options: base.disk_options,
        net_options: base.net_options,
        auto_promote: false,
    }
}

// ---------------------------------------------------------------------------
// Volumes
// ---------------------------------------------------------------------------

/// Name of the LVM volume of a resource.
pub fn lvm_volume_name(resource: &str) -> (n: String)
    ensures
        n@ == "drbd-ha-lv-"@ + resource@,
{
    let mut n = "drbd-ha-lv-".to_owned();
    push_str(&mut n, resource);
    n
}

/// Device of an LVM volume: `/dev/<group>/<volume>`.
pub fn lvm_device_path(group: &str, volume: &str) -> (p: String)
    ensures
        p@ == "/dev/"@ + group@ + "/"@ + volume@,
{
    let mut p = "/dev/".to_owned();
    push_str(&mut p, group);
    push_str(&mut p, "/");
    push_str(&mut p, volume);
    p
}

/// Name of the ZFS volume of a resource.
pub fn zfs_volume_name(resource: &str) -> (n: String)
    ensures
        n@ == "drbd-ha-zvol-"@ + resource@,
{
    let mut n = "drbd-ha-zvol-".to_owned();
    push_str(&mut n, resource);
    n
}

/// Device of a ZFS volume: `/dev/zvol/<pool>/<volume>`.
pub fn zfs_device_path(pool: &str, volume: &str) -> (p: String)
    ensures
        p@ == "/dev/zvol/"@ + pool@ + "/"@ + volume@,
{
    let mut p = "/dev/zvol/".to_owned();
    push_str(&mut p, pool);
    push_str(&mut p, "/");
    push_str(&mut p, volume);
    p
}

/// The device of a volume once its creation was tried: a volume that already exists is
/// reused at `existing`; any other failure stays a failure.
pub fn reuse_existing_volume(created: Result<String, String>, existing: String) -> (r: Result<
    String,
    String,
>)
    ensures
        match created {
            Ok(d) => r == Ok::<String, String>(d),
            Err(e) => if contains(e@, "already exists"@) {
                r == Ok::<String, String>(existing)
            } else {
                r == Err::<String, String>(e)
            },
        },
{
    match created {
        Ok(d) => Ok(d),
        Err(e) => {
            let v = chars_of(e.as_str());
            if contains_str(v.as_slice(), "already exists") {
                Ok(existing)
            } else {
                Err(e)
            }
        },
    }
}

// ---------------------------------------------------------------------------
// Preparing the storage
// ---------------------------------------------------------------------------

/// The command that creates the filesystem on the DRBD device.
pub fn mkfs_command(fs_type: &str, device: &str) -> (c: String)
    ensures
        c@ == "mkfs."@ + fs_type@ + " "@ + device@,
{
    let mut c = "mkfs.".to_owned();
    push_str(&mut c, fs_type);
    push_str(&mut c, " ");
    push_str(&mut c, device);
    c
}

/// The command that creates the mount point.
pub fn mkdir_command(mount_point: &str) -> (c: String)
    ensures
        c@ == "mkdir -p "@ + mount_point@,
{
    let mut c = "mkdir -p ".to_owned();
    push_str(&mut c, mount_point);
    c
}

/// The command that mounts the device at the mount point.
pub fn mount_command(device: &str, mount_point: &str) -> (c: String)
    ensures
        c@ == "mount "@ + device@ + " "@ + mount_point@,
{
    let mut c = "mount ".to_owned();
    push_str(&mut c, device);
    push_str(&mut c, " ");
    push_str(&mut c, mount_point);
    c
}

/// The command that unmounts the mount point.
pub fn umount_command(mount_point: &str) -> (c: String)
    ensures
        c@ == "umount "@ + mount_point@,
{
    let mut c = "umount ".to_owned();
    push_str(&mut c, mount_point);
    c
}

// ---------------------------------------------------------------------------
// The mount unit and the service overrides
// ---------------------------------------------------------------------------

/// The path of a mount point without its leading slash.
pub open spec fn mount_path_body(mount_point: Seq<char>) -> Seq<char> {
    if mount_point.len() > 0 && mount_point[0] == '/' {
        mount_point.skip(1)
    } else {
        mount_point
    }
}

/// The systemd mount unit for a mount point: its path without the leading slash, slashes
/// turned into dashes, then `.mount` (`/var/lib/pg` is `var-lib-pg.mount`).
pub open spec fn spec_mount_unit_name(mount_point: Seq<char>) -> Seq<char> {
    replace_char(mount_path_body(mount_point), '/', '-') + ".mount"@
}

/// The systemd mount unit name for `mount_point`.
pub fn mount_unit_name(mount_point: &str) -> (n: String)
    ensures
        n@ == spec_mount_unit_name(mount_point@),
{
    let v = chars_of(mount_point);
    let body = if v.len() > 0 && v[0] == '/' {
        slice_chars(v.as_slice(), 1, v.len())
    } else {
        v
    };
    assert(body@ =~= mount_path_body(mount_point@));
    let replaced = replace_char_exec(body.as_slice(), '/', '-');
    let mut n = string_of(replaced.as_slice());
    push_str(&mut n, ".mount");
    n
}

/// Where a generated unit file lives.
pub fn unit_file_path(unit: &str) -> (p: String)
    ensures
        p@ == "/etc/systemd/system/"@ + unit@,
{
    let mut p = "/etc/systemd/system/".to_owned();
    push_str(&mut p, unit);
    p
}

/// The text of the mount unit that mounts `device` at `mount_point` as `fs_type`.
pub fn mount_unit_text(resource: &str, device: &str, mount_point: &str, fs_type: &str) -> (t: String)
    ensures
        t@ == "[Unit]\nDescription=DRBD HA mount for "@ + resource@ + "\n\n[Mount]\nWhat="@ + device@
            + "\nWhere="@ + mount_point@ + "\nType="@ + fs_type@ + "\n"@,
{
    let mut t = "[Unit]\nDescription=DRBD HA mount for ".to_owned();
    push_str(&mut t, resource);
    push_str(&mut t, "\n\n[Mount]\nWhat=");
    push_str(&mut t, device);
    push_str(&mut t, "\nWhere=");
    push_str(&mut t, mount_point);
    push_str(&mut t, "\nType=");
    push_str(&mut t, fs_type);
    push_str(&mut t, "\n");
    t
}

/// Where the override that ties `service` to the mount unit lives (the file the deletion
/// removes).
pub fn override_path(service: &str) -> (p: String)
    ensures
        p@ == "/etc/systemd/system/"@ + crate::profile_delete::override_unit(service@) + ".service.d/ha-override.conf"@,
{
    let unit = crate::profile_delete::override_unit_exec(service);
    let mut p = "/etc/systemd/system/".to_owned();
    push_str(&mut p, unit.as_str());
    push_str(&mut p, ".service.d/ha-override.conf");
    p
}

/// The override that makes a service need, and start after, the mount unit.
pub fn override_text(mount_unit: &str) -> (t: String)
    ensures
        t@ == "[Unit]\nRequires="@ + mount_unit@ + "\nAfter="@ + mount_unit@ + "\n"@,
{
    let mut t = "[Unit]\nRequires=".to_owned();
    push_str(&mut t, mount_unit);
    push_str(&mut t, "\nAfter=");
    push_str(&mut t, mount_unit);
    push_str(&mut t, "\n");
    t
}

/// The mount unit generated for a mount point is the one the profile reader maps back to
/// it: for an absolute mount point with no dash in it.
pub proof fn law_mount_unit_read_back(mount_point: Seq<char>)
    requires
        mount_point.len() > 0,
        mount_point[0] == '/',
        forall|i: int| 0 <= i < mount_point.len() ==> mount_point[i] != '-',
    ensures
        crate::reactor_config::unit_mount_point(spec_mount_unit_name(mount_point)) == mount_point,
{
    reveal_strlit(".mount");
    let body = mount_point.skip(1);
    let n = spec_mount_unit_name(mount_point);
    let r = replace_char(body, '/', '-');
    assert(n.take(n.len() - ".mount"@.len()) =~= r);
    assert(replace_char(r, '-', '/') =~= body) by {
        assert forall|i: int| 0 <= i < body.len() implies replace_char(r, '-', '/')[i] == body[i] by {
            assert(body[i] == mount_point[i + 1]);
        }
    }
    reveal_strlit("/");
    assert("/"@ + body =~= mount_point);
}

/// Data is migrated only for a generic profile whose request asks for it.
pub fn migration_requested(generic: bool, migrate_data: Option<bool>) -> (b: bool)
    ensures
        b == (generic && migrate_data == Some(true)),
{
    generic && match migrate_data {
        Some(m) => m,
        None => false,
    }
}

/// What to do after one look at the DRBD sync status while waiting for a migrated resource.
#[derive(Debug, Clone, Copy, PartialEq, Eq, Structural)]
pub enum SyncWait {
    /// The local side is ready: go on, the rest syncs in the background.
    ProceedInBackground,
    /// The resource is fully synced.
    Done,
    /// Look again in five seconds.
    Continue,
    /// Too many looks: give up.
    TimedOut,
}

/// Number of looks at the sync status before giving up (five seconds apart).
pub const MAX_SYNC_ATTEMPTS: u32 = 120;

/// The decision after a look at the sync status (`None` when the look failed), `attempts`
/// being the number of looks made so far, this one included.
pub open spec fn spec_sync_wait(status: Option<(Seq<char>, Seq<char>, bool)>, attempts: u32) -> SyncWait {
    match status {
        Some((role, disk, synced)) if role == "Primary"@ && disk == "UpToDate"@ => SyncWait::ProceedInBackground,
        Some((_, _, true)) => SyncWait::Done,
        _ => if attempts >= MAX_SYNC_ATTEMPTS {
            SyncWait::TimedOut
        } else {
            SyncWait::Continue
        },
    }
}

/// Decides what to do after a look at the sync status: `status` holds the local role, the
/// local disk state and whether the resource is fully synced.
pub fn sync_wait_step(status: &Option<(String, String, bool)>, attempts: u32) -> (w: SyncWait)
    ensures
        w == spec_sync_wait(
            match status {
                Some((r, d, s)) => Some((r@, d@, *s)),
                None => None,
            },
            attempts,
        ),
{
    match status {
        Some((role, disk, synced)) => {
            if crate::text::str_eq(role.as_str(), "Primary") && crate::text::str_eq(disk.as_str(), "UpToDate") {
                return SyncWait::ProceedInBackground;
            }
            if *synced {
                return SyncWait::Done;
            }
        },
        None => {},
    }
    if attempts >= MAX_SYNC_ATTEMPTS {
        SyncWait::TimedOut
    } else {
        SyncWait::Continue
    }
}

/// Waiting for a sync never goes on past the last allowed look: from look
/// `MAX_SYNC_ATTEMPTS` on, whatever the status, the wait proceeds, ends or times out.
pub proof fn law_sync_wait_ends(status: Option<(Seq<char>, Seq<char>, bool)>, attempts: u32)
    requires
        attempts >= MAX_SYNC_ATTEMPTS,
    ensures
        spec_sync_wait(status, attempts) != SyncWait::Continue,
{
}

/// The error when the resource did not sync in time.
pub fn sync_timeout_message(resource: &str) -> (m: String)
    ensures
        m@ == "DRBD sync timeout for resource "@ + resource@ + " after "@ + decimal(120) + " attempts ("@
            + decimal(10) + " minutes)"@,
{
    let mut m = "DRBD sync timeout for resource ".to_owned();
    push_str(&mut m, resource);
    push_str(&mut m, " after ");
    push_decimal(&mut m, MAX_SYNC_ATTEMPTS as u64);
    push_str(&mut m, " attempts (");
    push_decimal(&mut m, (MAX_SYNC_ATTEMPTS as u64) * 5 / 60);
    push_str(&mut m, " minutes)");
    m
}

// ---------------------------------------------------------------------------
// The promoter configuration
// ---------------------------------------------------------------------------

fn copy_strings(v: &Vec<String>) -> (r: Vec<String>)
    ensures
        r@ == v@,
{
    let mut out: Vec<String> = Vec::new();
    let mut i: usize = 0;
    while i < v.len()
        invariant
            i <= v.len(),
            out@ == v@.take(i as int),
        decreases v.len() - i,
    {
        out.push(v[i].clone());
        i = i + 1;
        assert(out@ =~= v@.take(i as int));
    }
    assert(v@.take(i as int) =~= v@);
    out
}

fn copy_opt(o: &Option<String>) -> (r: Option<String>)
    ensures
        r == *o,
{
    match o {
        Some(s) => Some(s.clone()),
        None => None,
    }
}

/// The agents of a profile as the promoter configuration lists them.
pub fn promoter_agents(agents: &Vec<HaOcfAgent>) -> (r: Vec<OcfAgentConfig>)
    ensures
        r.len() == agents.len(),
        forall|i: int|
            #![trigger r@[i]]
            0 <= i < r.len() ==> r@[i].name@ == agents@[i].name@ && r@[i].instance_name@
                == agents@[i].instance_name@ && crate::option_map::entries_view(r@[i].params@)
                == agents@[i].params@,
{
    let mut out: Vec<OcfAgentConfig> = Vec::new();
    let mut i: usize = 0;
    while i < agents.len()
        invariant
            i <= agents.len(),
            out.len() == i,
            forall|k: int|
                #![trigger out@[k]]
                0 <= k < i ==> out@[k].name@ == agents@[k].name@ && out@[k].instance_name@
                    == agents@[k].instance_name@ && crate::option_map::entries_view(out@[k].params@)
                    == agents@[k].params@,
        decreases agents.len() - i,
    {
        out.push(
            OcfAgentConfig {
                name: agents[i].name.clone(),
                instance_name: agents[i].instance_name.clone(),
                params: param_entries(&agents[i].params),
            },
        );
        i = i + 1;
    }
    out
}

/// The promoter configuration of a profile, starting `start`: its resource, mount unit,
/// virtual IP, agents, mount strategy, mount point, filesystem type and promoter settings.
pub fn profile_promoter_config(profile: &HaProfile, start: Vec<String>) -> (c: PromoterPluginConfig)
    ensures
        c.resource@ == profile.resource_name@,
        c.mount_unit == profile.generated_units.mount_unit,
        c.start@ == start@,
        c.stop_services_on_exit == profile.promoter.stop_on_demote,
        c.on_drbd_demote_failure@ == profile.promoter.on_demote_failure@,
        match profile.vip {
            Some(v) => c.vip matches Some(pv) && pv.address@ == v.address@ && pv.netmask
                == v.netmask,
            None => c.vip is None,
        },
        c.ocf_agents.len() == profile.ocf_agents.len(),
        forall|i: int|
            #![trigger c.ocf_agents@[i]]
            0 <= i < c.ocf_agents.len() ==> c.ocf_agents@[i].name@ == profile.ocf_agents@[i].name@
                && c.ocf_agents@[i].instance_name@ == profile.ocf_agents@[i].instance_name@
                && crate::option_map::entries_view(c.ocf_agents@[i].params@)
                == profile.ocf_agents@[i].params@,
        c.mount_strategy matches Some(m) && m@ == spec_mount_strategy_name(profile.mount_strategy),
        c.mount_point matches Some(m) && m@ == profile.mount_point@,
        c.fs_type matches Some(f) && f@ == profile.fs_type@,
        c.dependencies_as == profile.promoter.dependencies_as,
        c.target_as == profile.promoter.target_as,
        c.on_quorum_loss == profile.promoter.on_quorum_loss,
        match profile.promoter.preferred_nodes {
            Some(p) => c.preferred_nodes matches Some(q) && q@ == p@,
            None => c.preferred_nodes is None,
        },
        c.preferred_nodes_policy == profile.promoter.preferred_nodes_policy,
        c.sleep_before_promote_factor == profile.promoter.sleep_before_promote_factor,
{
    let vip = match &profile.vip {
        Some(v) => Some(VipPluginConfig { address: v.address.clone(), netmask: v.netmask }),
        None => None,
    };
    let preferred = match &profile.promoter.preferred_nodes {
        Some(p) => Some(copy_strings(p)),
        None => None,
    };
    PromoterPluginConfig {
        resource: profile.resource_name.clone(),
        mount_unit: copy_opt(&profile.generated_units.mount_unit),
        start,
        stop_services_on_exit: profile.promoter.stop_on_demote,
        on_drbd_demote_failure: profile.promoter.on_demote_failure.clone(),
        vip,
        ocf_agents: promoter_agents(&profile.ocf_agents),
        mount_strategy: Some(mount_strategy_name(profile.mount_strategy)),
        mount_point: Some(profile.mount_point.clone()),
        fs_type: Some(profile.fs_type.clone()),
        dependencies_as: copy_opt(&profile.promoter.dependencies_as),
        target_as: copy_opt(&profile.promoter.target_as),
        on_quorum_loss: copy_opt(&profile.promoter.on_quorum_loss),
        preferred_nodes: preferred,
        preferred_nodes_policy: copy_opt(&profile.promoter.preferred_nodes_policy),
        sleep_before_promote_factor: profile.promoter.sleep_before_promote_factor,
    }
}

/// Where the promoter file of a new profile is written: a profile created disabled gets the
/// `.disabled` suffix, so that drbd-reactor does not pick it up.
pub fn created_promoter_path(name: &str, start_disabled: bool) -> (p: String)
    ensures
        p@ == if start_disabled {
            spec_promoter_path(name@) + ".disabled"@
        } else {
            spec_promoter_path(name@)
        },
{
    let mut p = ConfigPaths::promoter_path(name);
    if start_disabled {
        push_str(&mut p, ".disabled");
    }
    p
}

// ---------------------------------------------------------------------------
// The report
// ---------------------------------------------------------------------------

/// The messages joined into one sentence list: separated by `. ` and ended by `.`.
pub open spec fn joined_messages(ms: Seq<Seq<char>>) -> Seq<char>
    decreases ms.len(),
{
    if ms.len() == 0 {
        "."@
    } else if ms.len() == 1 {
        ms[0] + "."@
    } else {
        ms[0] + ". "@ + joined_messages(ms.drop_first())
    }
}

/// The messages joined with `. ` between them, and `.` at the end.
pub open spec fn join_prefix(ms: Seq<Seq<char>>) -> Seq<char>
    decreases ms.len(),
{
    if ms.len() == 0 {
        Seq::empty()
    } else if ms.len() == 1 {
        ms[0]
    } else {
        join_prefix(ms.drop_last()) + ". "@ + ms.last()
    }
}

/// Joins the messages of a creation report.
pub fn join_messages(ms: &Vec<String>) -> (r: String)
    ensures
        r@ == join_prefix(ms@.map_values(|m: String| m@)) + "."@,
{
    let ghost mv = ms@.map_values(|m: String| m@);
    let mut r = String::new();
    let mut i: usize = 0;
    while i < ms.len()
        invariant
            i <= ms.len(),
            mv == ms@.map_values(|m: String| m@),
            r@ == join_prefix(mv.take(i as int)),
        decreases ms.len() - i,
    {
        assert(mv.take(i + 1).drop_last() =~= mv.take(i as int));
        if i > 0 {
            push_str(&mut r, ". ");
        }
        push_str(&mut r, ms[i].as_str());
        i = i + 1;
        assert(r@ =~= join_prefix(mv.take(i as int)));
    }
    assert(mv.take(i as int) =~= mv);
    push_str(&mut r, ".");
    r
}

/// The message after drbd-reactor was reloaded on `succeeded` of `total` nodes.
pub open spec fn spec_reload_report(succeeded: nat, total: nat) -> Seq<char> {
    if succeeded == total {
        "HA profile created and drbd-reactor reloaded on all "@ + decimal(succeeded) + " nodes"@
    } else {
        "HA profile created but drbd-reactor reload failed on "@ + decimal(
            (total - succeeded) as nat,
        ) + "/"@ + decimal(total) + " nodes"@
    }
}

/// Reports the reload of drbd-reactor after a creation.
pub fn reload_report(succeeded: u64, total: u64) -> (m: String)
    requires
        succeeded <= total,
    ensures
        m@ == spec_reload_report(succeeded as nat, total as nat),
{
    let mut m = String::new();
    if succeeded == total {
        push_str(&mut m, "HA profile created and drbd-reactor reloaded on all ");
        push_decimal(&mut m, succeeded);
        push_str(&mut m, " nodes");
    } else {
        push_str(&mut m, "HA profile created but drbd-reactor reload failed on ");
        push_decimal(&mut m, total - succeeded);
        push_str(&mut m, "/");
        push_decimal(&mut m, total);
        push_str(&mut m, " nodes");
    }
    assert(m@ =~= spec_reload_report(succeeded as nat, total as nat));
    m
}

/// The message naming the generated mount unit.
pub fn mount_unit_message(unit: &str) -> (m: String)
    ensures
        m@ == "Generated mount unit: "@ + unit@,
{
    let mut m = "Generated mount unit: ".to_owned();
    push_str(&mut m, unit);
    m
}

/// The message counting the generated service overrides.
pub fn overrides_message(count: u64) -> (m: String)
    ensures
        m@ == "Generated "@ + decimal(count as nat) + " service override(s)"@,
{
    let mut m = "Generated ".to_owned();
    push_decimal(&mut m, count);
    push_str(&mut m, " service override(s)");
    m
}

/// The message on the promoter configuration written.
pub fn promoter_written_message(start_disabled: bool) -> (m: String)
    ensures
        m@ == if start_disabled {
            "Generated promoter configuration (disabled)"@
        } else {
            "Generated promoter configuration"@
        },
{
    if start_disabled {
        "Generated promoter configuration (disabled)".to_owned()
    } else {
        "Generated promoter configuration".to_owned()
    }
}

/// The message counting the services disabled on all nodes.
pub fn disabled_services_message(count: u64) -> (m: String)
    ensures
        m@ == "Disabled "@ + decimal(count as nat) + " service(s) on all nodes"@,
{
    let mut m = "Disabled ".to_owned();
    push_decimal(&mut m, count);
    push_str(&mut m, " service(s) on all nodes");
    m
}

/// The message counting the nodes the configuration was synced to.
pub fn synced_message(count: u64) -> (m: String)
    ensures
        m@ == "Synced to "@ + decimal(count as nat) + " node(s)"@,
{
    let mut m = "Synced to ".to_owned();
    push_decimal(&mut m, count);
    push_str(&mut m, " node(s)");
    m
}

/// The notification sent once a profile is created.
pub fn created_notification(name: &str, start_disabled: bool) -> (m: String)
    ensures
        m@ == "HA profile '"@ + name@ + "' created successfully"@ + if start_disabled {
            " (disabled)"@
        } else {
            Seq::empty()
        },
{
    let mut m = "HA profile '".to_owned();
    push_str(&mut m, name);
    push_str(&mut m, "' created successfully");
    if start_disabled {
        push_str(&mut m, " (disabled)");
    }
    assert(m@ =~= "HA profile '"@ + name@ + "' created successfully"@ + if start_disabled {
        " (disabled)"@
    } else {
        Seq::empty()
    });
    m
}


/// The mount point the status reader finds among a profile's services is the one whose
/// mount unit was generated: a service list headed by the generated unit of an absolute
/// mount point without dashes reveals that mount point.
pub proof fn law_generated_mount_unit_detected(mount_point: Seq<char>, rest: Seq<Seq<char>>)
    requires
        mount_point.len() > 0,
        mount_point[0] == '/',
        forall|i: int| 0 <= i < mount_point.len() ==> mount_point[i] != '-',
    ensures
        crate::profile_status::mount_point_of(seq![spec_mount_unit_name(mount_point)] + rest) == Some(mount_point),
{
    reveal_strlit(".mount");
    let n = spec_mount_unit_name(mount_point);
    let names = seq![n] + rest;
    assert(names[0] == n);
    assert(crate::text::ends_with(n, ".mount"@)) by {
        assert(n.subrange(n.len() - 6, n.len() as int) =~= ".mount"@);
    }
    law_mount_unit_read_back(mount_point);
    assert(n.take(n.len() - 6) =~= n.take(n.len() - ".mount"@.len()));
    reveal_strlit("/");
    assert(seq!['/'] =~= "/"@);
}


/// Waiting for a migrated resource goes on in the background as soon as the local side is
/// primary and up to date, ends once the resource is fully synced, and otherwise looks again
/// until the last allowed look, after which it times out.
pub proof fn law_sync_wait(role: Seq<char>, disk: Seq<char>, synced: bool, attempts: u32)
    ensures
        (role == "Primary"@ && disk == "UpToDate"@) ==> spec_sync_wait(Some((role, disk, synced)), attempts)
            == SyncWait::ProceedInBackground,
        (!(role == "Primary"@ && disk == "UpToDate"@) && synced) ==> spec_sync_wait(Some((role, disk, synced)), attempts)
            == SyncWait::Done,
        (!(role == "Primary"@ && disk == "UpToDate"@) && !synced && attempts < MAX_SYNC_ATTEMPTS) ==> spec_sync_wait(
            Some((role, disk, synced)),
            attempts,
        ) == SyncWait::Continue,
        attempts < MAX_SYNC_ATTEMPTS ==> spec_sync_wait(None, attempts) == SyncWait::Continue,
        attempts >= MAX_SYNC_ATTEMPTS ==> spec_sync_wait(None, attempts) == SyncWait::TimedOut,
{
}

} // verus!
