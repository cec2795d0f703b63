//! Activating and deactivating an HA profile by hand: the DRBD commands, how their outcomes
//! are read, which device is tried, which node formats a fresh device, and how the mount
//! point is released.

use vstd::prelude::*;
use crate::nodes::AppError;
use crate::resource_agents::name_le;
use crate::text::{
    chars_of, contains, contains_str, decimal, lines, lines_exec, parse_u32, parse_u32_exec,
    push_decimal, push_str, slice_chars, starts_with, starts_with_str, string_of, trim,
    trim_exec, views, find, find_exec,
};

verus! {

/// A `drbdadm` subcommand applied to a resource.
pub open spec fn spec_drbdadm(sub: Seq<char>, resource: Seq<char>) -> Seq<char> {
    "drbdadm "@ + sub + " "@ + resource
}

/// The `drbdadm` command running `sub` on `resource` (`up`, `attach`, `connect`, `primary`,
/// `primary --force`, `create-md --force`, `new-current-uuid --clear-bitmap`, `secondary`,
/// `down`, `status`).
pub fn drbdadm_command(sub: &str, resource: &str) -> (c: String)
    ensures
        c@ == spec_drbdadm(sub@, resource@),
{
    let mut c = "drbdadm ".to_owned();
    push_str(&mut c, sub);
    push_str(&mut c, " ");
    push_str(&mut c, resource);
    c
}

// ---------------------------------------------------------------------------
// Bringing the resource up
// ---------------------------------------------------------------------------

/// What follows `drbdadm up`.
#[derive(Debug, Clone, Copy, PartialEq, Eq, Structural)]
pub enum UpStep {
    /// The resource is up (or already was): go on.
    Continue,
    /// The resource has no metadata yet: create it and try again.
    CreateMetadata,
    /// `up` failed for another reason: note it and go on.
    ContinueWithWarning,
}

/// Reads the outcome of `drbdadm up`.
pub open spec fn spec_up_step(success: bool, stderr: Seq<char>) -> UpStep {
    if success {
        UpStep::Continue
    } else if contains(stderr, "No valid meta data"@) {
        UpStep::CreateMetadata
    } else if contains(stderr, "already"@) {
        UpStep::Continue
    } else {
        UpStep::ContinueWithWarning
    }
}

/// Reads the outcome of `drbdadm up`.
pub fn up_step(success: bool, stderr: &str) -> (s: UpStep)
    ensures
        s == spec_up_step(success, stderr@),
{
    if success {
        return UpStep::Continue;
    }
    let v = chars_of(stderr);
    if contains_str(v.as_slice(), "No valid meta data") {
        UpStep::CreateMetadata
    } else if contains_str(v.as_slice(), "already") {
        UpStep::Continue
    } else {
        UpStep::ContinueWithWarning
    }
}

/// The error when the metadata could not be created.
pub fn metadata_failed(stderr: &str) -> (e: AppError)
    ensures
        e matches AppError::Drbd(m) && m@ == "Failed to create DRBD metadata: "@ + stderr@,
{
    let mut m = "Failed to create DRBD metadata: ".to_owned();
    push_str(&mut m, stderr);
    AppError::Drbd(m)
}

/// The outcome of the second `drbdadm up`, once the metadata exists: a failure other than
/// "already up" is an error.
pub fn retry_up_outcome(success: bool, stderr: &str) -> (r: Result<(), AppError>)
    ensures
        (success || contains(stderr@, "already"@)) ==> r is Ok,
        !(success || contains(stderr@, "already"@)) ==> (r matches Err(AppError::Drbd(m)) && m@
            == "Failed to bring up DRBD resource: "@ + stderr@),
{
    if success {
        return Ok(());
    }
    let v = chars_of(stderr);
    if contains_str(v.as_slice(), "already") {
        Ok(())
    } else {
        let mut m = "Failed to bring up DRBD resource: ".to_owned();
        push_str(&mut m, stderr);
        Err(AppError::Drbd(m))
    }
}

/// The resource lost its disk and must be attached.
pub fn needs_attach(status: &str) -> (b: bool)
    ensures
        b == contains(status@, "disk:Diskless"@),
{
    contains_str(chars_of(status).as_slice(), "disk:Diskless")
}

/// The resource is disconnected and must be connected.
pub fn needs_connect(status: &str) -> (b: bool)
    ensures
        b == contains(status@, "connection:StandAlone"@),
{
    contains_str(chars_of(status).as_slice(), "connection:StandAlone")
}

// ---------------------------------------------------------------------------
// Promotion
// ---------------------------------------------------------------------------

/// What follows a failed `drbdadm primary`.
#[derive(Debug, Clone, Copy, PartialEq, Eq, Structural)]
pub enum PromoteStep {
    /// Promoted, or already primary: go on.
    Promoted,
    /// No peer has up-to-date data (a fresh resource): skip the initial sync and force.
    SkipSyncAndForce,
    /// Promotion failed.
    Failed,
}

/// Reads the outcome of `drbdadm primary`.
pub open spec fn spec_promote_step(success: bool, stderr: Seq<char>) -> PromoteStep {
    if success {
        PromoteStep::Promoted
    } else if contains(stderr, "Need access to UpToDate data"@) {
        PromoteStep::SkipSyncAndForce
    } else {
        PromoteStep::Failed
    }
}

/// Reads the outcome of `drbdadm primary`.
pub fn promote_step(success: bool, stderr: &str) -> (s: PromoteStep)
    ensures
        s == spec_promote_step(success, stderr@),
{
    if success {
        PromoteStep::Promoted
    } else if contains_str(chars_of(stderr).as_slice(), "Need access to UpToDate data") {
        PromoteStep::SkipSyncAndForce
    } else {
        PromoteStep::Failed
    }
}

/// The error when a promotion failed.
pub fn promote_failed(stderr: &str) -> (e: AppError)
    ensures
        e matches AppError::Drbd(m) && m@ == "Failed to promote resource: "@ + stderr@,
{
    let mut m = "Failed to promote resource: ".to_owned();
    push_str(&mut m, stderr);
    AppError::Drbd(m)
}

/// The resource is already primary here.
pub fn is_primary(status: &str) -> (b: bool)
    ensures
        b == contains(status@, "role:Primary"@),
{
    contains_str(chars_of(status).as_slice(), "role:Primary")
}

/// Number of one-second looks at the DRBD status after promotion.
pub const MAX_VALIDATION_ATTEMPTS: u32 = 30;

/// The resource is ready after promotion: primary, with a disk that is up to date,
/// consistent or being synced, and not diskless.
pub open spec fn spec_drbd_ready(status: Seq<char>) -> bool {
    &&& contains(status, "role:Primary"@)
    &&& (contains(status, "disk:UpToDate"@) || contains(status, "disk:Consistent"@) || contains(
        status,
        "disk:Inconsistent"@,
    ))
    &&& !contains(status, "disk:Diskless"@)
}

/// Whether the resource is ready after promotion.
pub fn drbd_ready(status: &str) -> (b: bool)
    ensures
        b == spec_drbd_ready(status@),
{
    let v = chars_of(status);
    contains_str(v.as_slice(), "role:Primary") && (contains_str(v.as_slice(), "disk:UpToDate")
        || contains_str(v.as_slice(), "disk:Consistent") || contains_str(
        v.as_slice(),
        "disk:Inconsistent",
    )) && !contains_str(v.as_slice(), "disk:Diskless")
}

/// The error when the resource never became ready.
pub fn validation_timeout(resource: &str) -> (e: AppError)
    ensures
        e matches AppError::Drbd(m) && m@ == "DRBD resource '"@ + resource@
            + "' failed to reach proper status within "@ + decimal(30) + " seconds"@,
{
    let mut m = "DRBD resource '".to_owned();
    push_str(&mut m, resource);
    push_str(&mut m, "' failed to reach proper status within ");
    push_decimal(&mut m, MAX_VALIDATION_ATTEMPTS as u64);
    push_str(&mut m, " seconds");
    AppError::Drbd(m)
}

/// Number of one-second looks while a synchronisation runs after activation.
pub const MAX_ACTIVATION_SYNC_WAITS: u32 = 300;

/// A synchronisation is still running.
pub fn sync_in_progress(status: &str) -> (b: bool)
    ensures
        b == contains(status@, "sync:"@),
{
    contains_str(chars_of(status).as_slice(), "sync:")
}

// ---------------------------------------------------------------------------
// The device
// ---------------------------------------------------------------------------

/// The minor that a `device:` line of the status names: the text after the first
/// `device:` of the first line holding one, trimmed, without `/dev/drbd`; `0` otherwise.
pub open spec fn status_minor(ls: Seq<Seq<char>>) -> Seq<char>
    decreases ls.len(),
{
    if ls.len() == 0 {
        "0"@
    } else {
        match find(ls[0], "device:"@) {
            Some(p) => {
                let rest = trim(ls[0].skip(p + 7));
                if starts_with(rest, "/dev/drbd"@) {
                    rest.skip(9)
                } else {
                    "0"@
                }
            },
            None => status_minor(ls.drop_first()),
        }
    }
}

/// The device paths tried after promotion, in order: the device of the minor the resource
/// name reads as (0 when it is no number), the by-resource link, and the device of the minor
/// the status names.
pub open spec fn spec_device_candidates(resource: Seq<char>, status: Seq<char>) -> Seq<Seq<char>> {
    seq![
        "/dev/drbd"@ + decimal(
            match parse_u32(resource) {
                Some(n) => n as nat,
                None => 0,
            },
        ),
        "/dev/drbd/by-res/"@ + resource + "/0"@,
        "/dev/drbd"@ + status_minor(lines(status)),
    ]
}

fn status_minor_exec(status: &str) -> (r: String)
    ensures
        r@ == status_minor(lines(status@)),
{
    let chars = chars_of(status);
    let ls = lines_exec(chars.as_slice());
    let ghost v = views(ls@);
    let marker = chars_of("device:");
    let mut i: usize = 0;
    assert(v.skip(0) =~= v);
    while i < ls.len()
        invariant
            i <= ls.len(),
            v == views(ls@),
            v == lines(status@),
            marker@ == "device:"@,
            status_minor(v) == status_minor(v.skip(i as int)),
        decreases ls.len() - i,
    {
        let l = &ls[i];
        assert(v.skip(i as int)[0] == l@);
        match find_exec(l.as_slice(), marker.as_slice()) {
            Some(p) => {
                proof {
                    reveal_strlit("device:");
                    crate::text::lemma_find_contains(l@, "device:"@);
                }
                let after = slice_chars(l.as_slice(), p + 7, l.len());
                assert(after@ =~= l@.skip(p + 7));
                let rest = trim_exec(after.as_slice());
                if starts_with_str(rest.as_slice(), "/dev/drbd") {
                    proof {
                        reveal_strlit("/dev/drbd");
                    }
                    let m = slice_chars(rest.as_slice(), 9, rest.len());
                    assert(m@ =~= rest@.skip(9));
                    return string_of(m.as_slice());
                } else {
                    return "0".to_owned();
                }
            },
            None => {},
        }
        assert(v.skip(i as int).drop_first() =~= v.skip(i + 1));
        i = i + 1;
    }
    "0".to_owned()
}

/// The device paths to try after promotion.
pub fn device_candidates(resource: &str, status: &str) -> (r: Vec<String>)
    ensures
        r@.map_values(|s: String| s@) == spec_device_candidates(resource@, status@),
{
    let n: u32 = match parse_u32_exec(chars_of(resource).as_slice()) {
        Some(n) => n,
        None => 0,
    };
    let mut a = "/dev/drbd".to_owned();
    push_decimal(&mut a, n as u64);
    let mut b = "/dev/drbd/by-res/".to_owned();
    push_str(&mut b, resource);
    push_str(&mut b, "/0");
    let mut c = "/dev/drbd".to_owned();
    let m = status_minor_exec(status);
    push_str(&mut c, m.as_str());
    let mut out: Vec<String> = Vec::new();
    out.push(a);
    out.push(b);
    out.push(c);
    assert(out@.map_values(|s: String| s@) =~= spec_device_candidates(resource@, status@));
    out
}

/// The command that tells whether a block device exists.
pub fn device_exists_command(device: &str) -> (c: String)
    ensures
        c@ == "test -b "@ + device@ + " && echo exists"@,
{
    let mut c = "test -b ".to_owned();
    push_str(&mut c, device);
    push_str(&mut c, " && echo exists");
    c
}

/// The command that reads the filesystem type on a device.
pub fn filesystem_probe_command(device: &str) -> (c: String)
    ensures
        c@ == "blkid -o value -s TYPE "@ + device@ + " 2>/dev/null || true"@,
{
    let mut c = "blkid -o value -s TYPE ".to_owned();
    push_str(&mut c, device);
    push_str(&mut c, " 2>/dev/null || true");
    c
}

/// The filesystem a probe found: its trimmed output, unless that is empty.
pub fn probed_filesystem(stdout: &str) -> (r: Option<String>)
    ensures
        match r {
            Some(f) => trim(stdout@).len() > 0 && f@ == trim(stdout@),
            None => trim(stdout@).len() == 0,
        },
{
    let t = trim_exec(chars_of(stdout).as_slice());
    if t.len() > 0 {
        Some(string_of(t.as_slice()))
    } else {
        None
    }
}

// ---------------------------------------------------------------------------
// Which node formats a fresh device
// ---------------------------------------------------------------------------

/// Whether this node formats a device that has no filesystem: a primary node does, a
/// secondary node leaves it to the primary; with no role known, the node whose hostname
/// comes first among the cluster's hostnames does.
pub open spec fn spec_formats_here(status: Seq<char>, local: Seq<char>, others: Seq<Seq<char>>) -> bool {
    if contains(status, "role:Primary"@) {
        true
    } else if contains(status, "role:Secondary"@) {
        false
    } else {
        forall|k: int| 0 <= k < others.len() ==> name_le(local, #[trigger] others[k])
    }
}

/// Decides whether this node formats a fresh device.
pub fn formats_here(status: &str, local: &str, others: &Vec<String>) -> (b: bool)
    ensures
        b == spec_formats_here(status@, local@, others@.map_values(|s: String| s@)),
{
    let v = chars_of(status);
    if contains_str(v.as_slice(), "role:Primary") {
        return true;
    }
    if contains_str(v.as_slice(), "role:Secondary") {
        return false;
    }
    let ghost ov = others@.map_values(|s: String| s@);
    let lv = chars_of(local);
    let mut i: usize = 0;
    while i < others.len()
        invariant
            i <= others.len(),
            lv@ == local@,
            ov == others@.map_values(|s: String| s@),
            !contains(status@, "role:Primary"@),
            !contains(status@, "role:Secondary"@),
            forall|k: int| 0 <= k < i ==> name_le(local@, #[trigger] ov[k]),
        decreases others.len() - i,
    {
        let ov_i = chars_of(others[i].as_str());
        assert(ov[i as int] == ov_i@);
        if !crate::resource_agents::name_le_exec(lv.as_slice(), ov_i.as_slice()) {
            return false;
        }
        i = i + 1;
    }
    true
}

/// The error when no candidate device is usable after promotion.
pub fn device_inaccessible() -> (e: AppError)
    ensures
        e matches AppError::Drbd(m) && m@ == "DRBD device not accessible after promotion"@,
{
    AppError::Drbd("DRBD device not accessible after promotion".to_owned())
}

/// The error when formatting the device failed.
pub fn format_failed(stderr: &str) -> (e: AppError)
    ensures
        e matches AppError::Drbd(m) && m@ == "Failed to format filesystem: "@ + stderr@,
{
    let mut m = "Failed to format filesystem: ".to_owned();
    push_str(&mut m, stderr);
    AppError::Drbd(m)
}

/// The marker left once a resource's device was formatted by an activation.
pub fn activation_marker(resource: &str) -> (p: String)
    ensures
        p@ == "/var/lib/drbd-ha/"@ + resource@ + ".activated"@,
{
    let mut p = "/var/lib/drbd-ha/".to_owned();
    push_str(&mut p, resource);
    push_str(&mut p, ".activated");
    p
}

/// The command that tells whether a file exists (it prints `exists`).
pub fn file_exists_command(path: &str) -> (c: String)
    ensures
        c@ == "test -f "@ + path@ + " && echo exists"@,
{
    let mut c = "test -f ".to_owned();
    push_str(&mut c, path);
    push_str(&mut c, " && echo exists");
    c
}

/// The command that leaves the activation marker.
pub fn mark_activated_command(marker: &str) -> (c: String)
    ensures
        c@ == "mkdir -p /var/lib/drbd-ha && touch "@ + marker@,
{
    let mut c = "mkdir -p /var/lib/drbd-ha && touch ".to_owned();
    push_str(&mut c, marker);
    c
}

/// A `systemctl` command on a unit (`start`, `stop`, `enable`, `disable`).
pub fn service_command(verb: &str, unit: &str) -> (c: String)
    ensures
        c@ == "systemctl "@ + verb@ + " "@ + unit@,
{
    let mut c = "systemctl ".to_owned();
    push_str(&mut c, verb);
    push_str(&mut c, " ");
    push_str(&mut c, unit);
    c
}

/// The command that formats the device: `xfs` and `ext4` are forced over old signatures.
pub open spec fn spec_activation_mkfs(fs_type: Seq<char>, device: Seq<char>) -> Seq<char> {
    if fs_type == "xfs"@ {
        "mkfs.xfs -f "@ + device
    } else if fs_type == "ext4"@ {
        "mkfs.ext4 -F "@ + device
    } else {
        "mkfs."@ + fs_type + " "@ + device
    }
}

/// The command that formats the device at activation.
pub fn activation_mkfs_command(fs_type: &str, device: &str) -> (c: String)
    ensures
        c@ == spec_activation_mkfs(fs_type@, device@),
{
    let mut c = String::new();
    if crate::text::str_eq(fs_type, "xfs") {
        push_str(&mut c, "mkfs.xfs -f ");
    } else if crate::text::str_eq(fs_type, "ext4") {
        push_str(&mut c, "mkfs.ext4 -F ");
    } else {
        push_str(&mut c, "mkfs.");
        push_str(&mut c, fs_type);
        push_str(&mut c, " ");
    }
    push_str(&mut c, device);
    assert(c@ =~= spec_activation_mkfs(fs_type@, device@));
    c
}

/// The command that mounts the device at the mount point, creating it first.
pub fn activation_mount_command(mount_point: &str, device: &str) -> (c: String)
    ensures
        c@ == "mkdir -p "@ + mount_point@ + " && mount "@ + device@ + " "@ + mount_point@,
{
    let mut c = "mkdir -p ".to_owned();
    push_str(&mut c, mount_point);
    push_str(&mut c, " && mount ");
    push_str(&mut c, device);
    push_str(&mut c, " ");
    push_str(&mut c, mount_point);
    c
}

/// The command that checks that the mount point is writable.
pub fn write_test_command(mount_point: &str) -> (c: String)
    ensures
        c@ == "touch "@ + mount_point@ + "/.drbd-ha-test && rm "@ + mount_point@ + "/.drbd-ha-test"@,
{
    let mut c = "touch ".to_owned();
    push_str(&mut c, mount_point);
    push_str(&mut c, "/.drbd-ha-test && rm ");
    push_str(&mut c, mount_point);
    push_str(&mut c, "/.drbd-ha-test");
    c
}

// ---------------------------------------------------------------------------
// Deactivation
// ---------------------------------------------------------------------------

/// The command that kills the processes holding the mount point open, except this one.
pub fn kill_holders_command(mount_point: &str, own_pid: u32) -> (c: String)
    ensures
        c@ == "for pid in $(lsof -t "@ + mount_point@ + " 2>/dev/null | grep -v "@ + decimal(
            own_pid as nat,
        ) + "); do kill -9 $pid 2>/dev/null || true; done"@,
{
    let mut c = "for pid in $(lsof -t ".to_owned();
    push_str(&mut c, mount_point);
    push_str(&mut c, " 2>/dev/null | grep -v ");
    push_decimal(&mut c, own_pid as u64);
    push_str(&mut c, "); do kill -9 $pid 2>/dev/null || true; done");
    c
}

/// Number of plain unmount attempts before a lazy unmount.
pub const UMOUNT_ATTEMPTS: u32 = 3;

/// What follows an unmount attempt.
#[derive(Debug, Clone, Copy, PartialEq, Eq, Structural)]
pub enum UmountStep {
    /// Unmounted.
    Done,
    /// Kill the holders again and retry.
    Retry,
    /// Give up on plain unmounts: unmount lazily.
    Lazy,
}

/// The step after attempt number `attempt` (from 1) of a plain unmount.
pub open spec fn spec_umount_step(attempt: u32, success: bool) -> UmountStep {
    if success {
        UmountStep::Done
    } else if attempt < UMOUNT_ATTEMPTS {
        UmountStep::Retry
    } else {
        UmountStep::Lazy
    }
}

/// Decides the step after a plain unmount attempt.
pub fn umount_step(attempt: u32, success: bool) -> (s: UmountStep)
    ensures
        s == spec_umount_step(attempt, success),
{
    if success {
        UmountStep::Done
    } else if attempt < UMOUNT_ATTEMPTS {
        UmountStep::Retry
    } else {
        UmountStep::Lazy
    }
}

/// Unmounting never retries past the last plain attempt: from attempt `UMOUNT_ATTEMPTS` on,
/// a failed unmount turns lazy, and a successful one is done.
pub proof fn law_umount_retries_end(attempt: u32, success: bool)
    requires
        attempt >= UMOUNT_ATTEMPTS,
    ensures
        spec_umount_step(attempt, success) == (if success {
            UmountStep::Done
        } else {
            UmountStep::Lazy
        }),
{
}

/// The lazy unmount of the mount point.
pub fn lazy_umount_command(mount_point: &str) -> (c: String)
    ensures
        c@ == "umount -l "@ + mount_point@,
{
    let mut c = "umount -l ".to_owned();
    push_str(&mut c, mount_point);
    c
}

/// drbd-reactor already manages the profile when its status mentions `active`.
pub fn reactor_manages(stdout: &str) -> (b: bool)
    ensures
        b == contains(stdout@, "active"@),
{
    contains_str(chars_of(stdout).as_slice(), "active")
}

/// The error when even the lazy unmount failed.
pub fn umount_failed(mount_point: &str, stderr: &str) -> (e: AppError)
    ensures
        e matches AppError::Drbd(m) && m@ == "Failed to unmount "@ + mount_point@ + ": "@ + stderr@,
{
    let mut m = "Failed to unmount ".to_owned();
    push_str(&mut m, mount_point);
    push_str(&mut m, ": ");
    push_str(&mut m, stderr);
    AppError::Drbd(m)
}

/// The error when the demotion failed.
pub fn demote_failed(stderr: &str) -> (e: AppError)
    ensures
        e matches AppError::Drbd(m) && m@ == "Failed to demote resource: "@ + stderr@,
{
    let mut m = "Failed to demote resource: ".to_owned();
    push_str(&mut m, stderr);
    AppError::Drbd(m)
}

/// The command that removes the promoter file once the profile is standby.
pub fn remove_config_command(path: &str) -> (c: String)
    ensures
        c@ == "rm -f '"@ + path@ + "'"@,
{
    let mut c = "rm -f '".to_owned();
    push_str(&mut c, path);
    push_str(&mut c, "'");
    c
}

/// The notification once a profile changed state.
pub fn state_notification(name: &str, active: bool) -> (m: String)
    ensures
        m@ == "HA profile '"@ + name@ + "' is now "@ + if active {
            "active"@
        } else {
            "standby"@
        },
{
    let mut m = "HA profile '".to_owned();
    push_str(&mut m, name);
    push_str(&mut m, "' is now ");
    if active {
        push_str(&mut m, "active");
    } else {
        push_str(&mut m, "standby");
    }
    assert(m@ =~= "HA profile '"@ + name@ + "' is now "@ + if active {
        "active"@
    } else {
        "standby"@
    });
    m
}

/// When no DRBD role is known yet, two nodes with different hostnames never both format the
/// fresh device: only the node whose hostname comes first does.
pub proof fn law_single_formatter(
    status_a: Seq<char>,
    status_b: Seq<char>,
    a: Seq<char>,
    b: Seq<char>,
    others_a: Seq<Seq<char>>,
    others_b: Seq<Seq<char>>,
)
    requires
        a != b,
        !contains(status_a, "role:Primary"@) && !contains(status_a, "role:Secondary"@),
        !contains(status_b, "role:Primary"@) && !contains(status_b, "role:Secondary"@),
        others_a.contains(b),
        others_b.contains(a),
    ensures
        !(spec_formats_here(status_a, a, others_a) && spec_formats_here(status_b, b, others_b)),
{
    if spec_formats_here(status_a, a, others_a) && spec_formats_here(status_b, b, others_b) {
        let i = choose|i: int| 0 <= i < others_a.len() && others_a[i] == b;
        let j = choose|j: int| 0 <= j < others_b.len() && others_b[j] == a;
        assert(name_le(a, others_a[i]));
        assert(name_le(b, others_b[j]));
        crate::resource_agents::lemma_name_le_antisymmetric(a, b);
    }
}

} // verus!
