//! Deleting an HA profile: where its resource is primary, the commands that clean its files
//! off the other nodes, and the checks that it is really gone.

use vstd::prelude::*;
use crate::profiles::ServiceOverride;
use crate::text::{
    chars_of, contains, contains_str, ends_with, ends_with_str, lines, lines_exec, push_str,
    slice_chars, str_eq, string_of, tokens, tokens_exec, views,
};

verus! {

/// Where the resource of a profile being deleted is primary: on the local node, or on the
/// remote node named.
#[derive(Debug, Clone)]
pub struct PrimaryLocation {
    pub local_primary: bool,
    pub remote_primary_node: Option<String>,
}

/// The first line that reports a primary role and does not name the resource, read for the
/// node name it starts with.
pub open spec fn remote_primary(ls: Seq<Seq<char>>, resource: Seq<char>) -> Option<Seq<char>>
    decreases ls.len(),
{
    if ls.len() == 0 {
        None
    } else if contains(ls[0], "role:Primary"@) && !contains(ls[0], resource) && tokens(ls[0]).len() > 0 {
        Some(tokens(ls[0])[0])
    } else {
        remote_primary(ls.drop_first(), resource)
    }
}

/// Where the resource is primary, from the output of `drbdadm status` (`None` when it could
/// not be run): locally when the output reports a primary role, else on the node a line
/// names; locally when nothing says otherwise.
pub open spec fn spec_primary_location(status: Option<Seq<char>>, resource: Seq<char>) -> (bool, Option<Seq<char>>) {
    match status {
        Some(out) => if contains(out, "role:Primary"@) {
            (true, None)
        } else {
            match remote_primary(lines(out), resource) {
                Some(n) => (false, Some(n)),
                None => (true, None),
            }
        },
        None => (true, None),
    }
}

/// Decides where the resource of a profile being deleted is primary.
pub fn primary_location(status: &Option<String>, resource: &str) -> (r: PrimaryLocation)
    ensures
        (r.local_primary, crate::profiles::str_opt(r.remote_primary_node)) == spec_primary_location(
            crate::profiles::str_opt(*status),
            resource@,
        ),
{
    match status {
        None => PrimaryLocation { local_primary: true, remote_primary_node: None },
        Some(out) => {
            let chars = chars_of(out.as_str());
            if contains_str(chars.as_slice(), "role:Primary") {
                return PrimaryLocation { local_primary: true, remote_primary_node: None };
            }
            let rv = chars_of(resource);
            let ls = lines_exec(chars.as_slice());
            let ghost v = views(ls@);
            let mut i: usize = 0;
            assert(v.skip(0) =~= v);
            while i < ls.len()
                invariant
                    i <= ls.len(),
                    v == views(ls@),
                    v == lines(out@),
                    rv@ == resource@,
                    !contains(out@, "role:Primary"@),
                    *status == Some(*out),
                    remote_primary(v, resource@) == remote_primary(v.skip(i as int), resource@),
                decreases ls.len() - i,
            {
                let l = &ls[i];
                assert(v.skip(i as int)[0] == l@);
                if contains_str(l.as_slice(), "role:Primary") && !crate::text::contains_exec(
                    l.as_slice(),
                    rv.as_slice(),
                ) {
                    let toks = tokens_exec(l.as_slice());
                    if toks.len() > 0 {
                        assert(views(toks@)[0] == toks@[0]@);
                        return PrimaryLocation {
                            local_primary: false,
                            remote_primary_node: Some(string_of(toks[0].as_slice())),
                        };
                    }
                }
                assert(v.skip(i as int).drop_first() =~= v.skip(i + 1));
                i = i + 1;
            }
            PrimaryLocation { local_primary: true, remote_primary_node: None }
        },
    }
}

/// A line that contains `role:Primary` makes the whole output contain it.
proof fn lemma_remote_primary_needs_marker(ls: Seq<Seq<char>>, out: Seq<char>, resource: Seq<char>)
    requires
        ls == lines(out),
        !contains(out, "role:Primary"@),
    ensures
        remote_primary(ls, resource) is None,
{
    assert forall|k: int| 0 <= k < ls.len() implies !contains(#[trigger] ls[k], "role:Primary"@) by {
        crate::text::lemma_line_in_text(out, k);
        if contains(ls[k], "role:Primary"@) {
            crate::text::lemma_contains_trans(out, ls[k], "role:Primary"@);
        }
    }
    lemma_remote_primary_none(ls, resource);
}

proof fn lemma_remote_primary_none(ls: Seq<Seq<char>>, resource: Seq<char>)
    requires
        forall|k: int| 0 <= k < ls.len() ==> !contains(#[trigger] ls[k], "role:Primary"@),
    ensures
        remote_primary(ls, resource) is None,
    decreases ls.len(),
{
    if ls.len() > 0 {
        assert(!contains(ls[0], "role:Primary"@));
        assert forall|k: int| 0 <= k < ls.drop_first().len() implies !contains(
            #[trigger] ls.drop_first()[k],
            "role:Primary"@,
        ) by {
            assert(ls.drop_first()[k] == ls[k + 1]);
        }
        lemma_remote_primary_none(ls.drop_first(), resource);
    }
}

/// A deletion always takes the local node for the primary: a line can only report a primary
/// role when the whole output does, and that output is read as the local node being
/// primary.
pub proof fn law_deletion_primary_is_local(status: Option<Seq<char>>, resource: Seq<char>)
    ensures
        spec_primary_location(status, resource) == (true, None::<Seq<char>>),
{
    match status {
        Some(out) => {
            if !contains(out, "role:Primary"@) {
                lemma_remote_primary_needs_marker(lines(out), out, resource);
            }
        },
        None => {},
    }
}

// ---------------------------------------------------------------------------
// Cleaning the other nodes
// ---------------------------------------------------------------------------

/// A command as run on a node logged in as `user`: through `sudo` unless the user is root.
pub open spec fn as_user(user: Seq<char>, cmd: Seq<char>) -> Seq<char> {
    if user == "root"@ {
        cmd
    } else {
        "sudo "@ + cmd
    }
}

/// Runs `cmd` through `sudo` unless the login user is root.
pub fn with_sudo(user: &str, cmd: &str) -> (c: String)
    ensures
        c@ == as_user(user@, cmd@),
{
    if str_eq(user, "root") {
        cmd.to_owned()
    } else {
        let mut c = "sudo ".to_owned();
        push_str(&mut c, cmd);
        c
    }
}

/// The unit name of an overridden service, without a `.service` suffix.
pub open spec fn override_unit(service: Seq<char>) -> Seq<char> {
    if ends_with(service, ".service"@) {
        service.take(service.len() - 8)
    } else {
        service
    }
}

/// The commands that remove one service override from a node: the override file and its
/// directory under `/etc`, then the runtime file and its directory under `/run` (a directory
/// is left when it is not empty).
pub open spec fn override_cleanup(user: Seq<char>, service: Seq<char>) -> Seq<Seq<char>> {
    let unit = override_unit(service);
    let dir = "/etc/systemd/system/"@ + unit + ".service.d"@;
    let run_dir = "/run/systemd/system/"@ + unit + ".service.d"@;
    seq![
        as_user(user, "rm -f "@ + dir + "/ha-override.conf"@),
        as_user(user, "rmdir "@ + dir + " 2>/dev/null || true"@),
        as_user(user, "rm -f "@ + run_dir + "/reactor.conf"@),
        as_user(user, "rmdir "@ + run_dir + " 2>/dev/null || true"@),
    ]
}

/// The override cleanup of the first `n` overrides, in order.
pub open spec fn overrides_cleanup(user: Seq<char>, services: Seq<Seq<char>>, n: int) -> Seq<Seq<char>>
    decreases n,
{
    if n <= 0 {
        Seq::empty()
    } else {
        overrides_cleanup(user, services, n - 1) + override_cleanup(user, services[n - 1])
    }
}

/// The commands that remove a deleted profile's generated files from a remote node: its mount
/// unit file, if any, then each service override, then a reload of systemd.
pub open spec fn spec_remote_cleanup(
    user: Seq<char>,
    mount_unit_path: Option<Seq<char>>,
    services: Seq<Seq<char>>,
) -> Seq<Seq<char>> {
    (match mount_unit_path {
        Some(p) => seq![as_user(user, "rm -f "@ + p)],
        None => Seq::empty(),
    }) + overrides_cleanup(user, services, services.len() as int) + seq![
        as_user(user, "systemctl daemon-reload"@),
    ]
}

pub(crate) fn override_unit_exec(service: &str) -> (u: String)
    ensures
        u@ == override_unit(service@),
{
    let v = chars_of(service);
    if ends_with_str(v.as_slice(), ".service") {
        proof {
            reveal_strlit(".service");
        }
        string_of(slice_chars(v.as_slice(), 0, v.len() - 8).as_slice())
    } else {
        service.to_owned()
    }
}

/// The commands that clean a deleted profile's generated files off a remote node logged in
/// as `user`.
pub fn remote_cleanup_commands(
    user: &str,
    mount_unit_path: &Option<String>,
    overrides: &Vec<ServiceOverride>,
) -> (r: Vec<String>)
    ensures
        r@.map_values(|c: String| c@) == spec_remote_cleanup(
            user@,
            crate::profiles::str_opt(*mount_unit_path),
            overrides@.map_values(|o: ServiceOverride| o.service_name@),
        ),
{
    let ghost services = overrides@.map_values(|o: ServiceOverride| o.service_name@);
    let mut out: Vec<String> = Vec::new();
    match mount_unit_path {
        Some(p) => {
            let mut rm = "rm -f ".to_owned();
            push_str(&mut rm, p.as_str());
            out.push(with_sudo(user, rm.as_str()));
        },
        None => {},
    }
    let ghost head = out@.map_values(|c: String| c@);
    assert(head =~= match crate::profiles::str_opt(*mount_unit_path) {
        Some(p) => seq![as_user(user@, "rm -f "@ + p)],
        None => Seq::<Seq<char>>::empty(),
    });
    let mut i: usize = 0;
    while i < overrides.len()
        invariant
            i <= overrides.len(),
            services == overrides@.map_values(|o: ServiceOverride| o.service_name@),
            out@.map_values(|c: String| c@) == head + overrides_cleanup(user@, services, i as int),
        decreases overrides.len() - i,
    {
        let ghost before = out@.map_values(|c: String| c@);
        let unit = override_unit_exec(overrides[i].service_name.as_str());
        let mut dir = "/etc/systemd/system/".to_owned();
        push_str(&mut dir, unit.as_str());
        push_str(&mut dir, ".service.d");
        let mut run_dir = "/run/systemd/system/".to_owned();
        push_str(&mut run_dir, unit.as_str());
        push_str(&mut run_dir, ".service.d");
        let mut c1 = "rm -f ".to_owned();
        push_str(&mut c1, dir.as_str());
        push_str(&mut c1, "/ha-override.conf");
        let mut c2 = "rmdir ".to_owned();
        push_str(&mut c2, dir.as_str());
        push_str(&mut c2, " 2>/dev/null || true");
        let mut c3 = "rm -f ".to_owned();
        push_str(&mut c3, run_dir.as_str());
        push_str(&mut c3, "/reactor.conf");
        let mut c4 = "rmdir ".to_owned();
        push_str(&mut c4, run_dir.as_str());
        push_str(&mut c4, " 2>/dev/null || true");
        let s1 = with_sudo(user, c1.as_str());
        let s2 = with_sudo(user, c2.as_str());
        let s3 = with_sudo(user, c3.as_str());
        let s4 = with_sudo(user, c4.as_str());
        out.push(s1);
        out.push(s2);
        out.push(s3);
        out.push(s4);
        proof {
            let svc = services[i as int];
            assert(svc == overrides@[i as int].service_name@);
            let d = "/etc/systemd/system/"@ + override_unit(svc) + ".service.d"@;
            let rd = "/run/systemd/system/"@ + override_unit(svc) + ".service.d"@;
            assert(dir@ =~= d);
            assert(run_dir@ =~= rd);
            assert(c1@ =~= "rm -f "@ + d + "/ha-override.conf"@);
            assert(c2@ =~= "rmdir "@ + d + " 2>/dev/null || true"@);
            assert(c3@ =~= "rm -f "@ + rd + "/reactor.conf"@);
            assert(c4@ =~= "rmdir "@ + rd + " 2>/dev/null || true"@);
            assert(out@.map_values(|c: String| c@) =~= before + override_cleanup(user@, svc));
        }
        i = i + 1;
    }
    let ghost before = out@.map_values(|c: String| c@);
    out.push(with_sudo(user, "systemctl daemon-reload"));
    assert(out@.map_values(|c: String| c@) =~= spec_remote_cleanup(
        user@,
        crate::profiles::str_opt(*mount_unit_path),
        services,
    ));
    out
}

/// The command that removes both promoter files of a profile from a remote node.
pub fn remote_promoter_removal(user: &str, promoter_path: &str, disabled_path: &str) -> (c: String)
    ensures
        c@ == as_user(user@, "rm -f "@ + promoter_path@ + " "@ + disabled_path@),
{
    let mut rm = "rm -f ".to_owned();
    push_str(&mut rm, promoter_path);
    push_str(&mut rm, " ");
    push_str(&mut rm, disabled_path);
    with_sudo(user, rm.as_str())
}

/// The command that unmounts the profile's mount point on the primary node.
pub fn remote_umount(user: &str, mount_point: &str) -> (c: String)
    ensures
        c@ == as_user(user@, "umount "@ + mount_point@),
{
    let mut c = "umount ".to_owned();
    push_str(&mut c, mount_point);
    with_sudo(user, c.as_str())
}

/// The command that disables a profile in drbd-reactor.
pub fn reactor_disable_command(profile: &str) -> (c: String)
    ensures
        c@ == "drbd-reactorctl disable "@ + profile@,
{
    let mut c = "drbd-reactorctl disable ".to_owned();
    push_str(&mut c, profile);
    c
}

// ---------------------------------------------------------------------------
// Checking that a profile is gone
// ---------------------------------------------------------------------------

/// What was found after a deletion: the `drbdadm status` output (`None` when it failed),
/// whether drbd-reactor still reports the profile (`None` when asking failed), and which of
/// the resource file, the promoter file and the disabled promoter file still exist.
#[derive(Debug, Clone)]
pub struct DeletionFindings {
    pub drbd_status: Option<String>,
    pub reactor_reports_profile: Option<bool>,
    pub drbd_config_exists: bool,
    pub promoter_exists: bool,
    pub disabled_promoter_exists: bool,
}

/// The problems a deletion left, in the order they are checked.
pub open spec fn spec_deletion_problems(
    f: DeletionFindings,
    resource: Seq<char>,
    profile: Seq<char>,
    drbd_config_path: Seq<char>,
    promoter_path: Seq<char>,
    disabled_path: Seq<char>,
) -> Seq<Seq<char>> {
    (match f.drbd_status {
        Some(out) => if contains(out@, resource) {
            seq!["DRBD resource "@ + resource + " still active after deletion"@]
        } else {
            Seq::empty()
        },
        None => Seq::empty(),
    }) + (if f.reactor_reports_profile == Some(true) {
        seq!["drbd-reactor profile "@ + profile + " still active"@]
    } else {
        Seq::empty()
    }) + (if f.drbd_config_exists {
        seq!["DRBD config file "@ + drbd_config_path + " still exists"@]
    } else {
        Seq::empty()
    }) + (if f.promoter_exists {
        seq!["Promoter config file "@ + promoter_path + " still exists"@]
    } else {
        Seq::empty()
    }) + (if f.disabled_promoter_exists {
        seq!["Promoter disabled config file "@ + disabled_path + " still exists"@]
    } else {
        Seq::empty()
    })
}

/// The problems a deletion left behind.
pub fn deletion_problems(
    f: &DeletionFindings,
    resource: &str,
    profile: &str,
    drbd_config_path: &str,
    promoter_path: &str,
    disabled_path: &str,
) -> (r: Vec<String>)
    ensures
        r@.map_values(|s: String| s@) == spec_deletion_problems(
            *f,
            resource@,
            profile@,
            drbd_config_path@,
            promoter_path@,
            disabled_path@,
        ),
{
    let mut out: Vec<String> = Vec::new();
    let ghost s0 = out@.map_values(|s: String| s@);
    match &f.drbd_status {
        Some(o) => {
            let ov = chars_of(o.as_str());
            let rv = chars_of(resource);
            if crate::text::contains_exec(ov.as_slice(), rv.as_slice()) {
                let mut m = "DRBD resource ".to_owned();
                push_str(&mut m, resource);
                push_str(&mut m, " still active after deletion");
                out.push(m);
            }
        },
        None => {},
    }
    let ghost s1 = out@.map_values(|s: String| s@);
    if f.reactor_reports_profile == Some(true) {
        let mut m = "drbd-reactor profile ".to_owned();
        push_str(&mut m, profile);
        push_str(&mut m, " still active");
        out.push(m);
    }
    let ghost s2 = out@.map_values(|s: String| s@);
    if f.drbd_config_exists {
        let mut m = "DRBD config file ".to_owned();
        push_str(&mut m, drbd_config_path);
        push_str(&mut m, " still exists");
        out.push(m);
    }
    let ghost s3 = out@.map_values(|s: String| s@);
    if f.promoter_exists {
        let mut m = "Promoter config file ".to_owned();
        push_str(&mut m, promoter_path);
        push_str(&mut m, " still exists");
        out.push(m);
    }
    let ghost s4 = out@.map_values(|s: String| s@);
    if f.disabled_promoter_exists {
        let mut m = "Promoter disabled config file ".to_owned();
        push_str(&mut m, disabled_path);
        push_str(&mut m, " still exists");
        out.push(m);
    }
    assert(out@.map_values(|s: String| s@) =~= spec_deletion_problems(
        *f,
        resource@,
        profile@,
        drbd_config_path@,
        promoter_path@,
        disabled_path@,
    ));
    out
}

/// The notification sent once a profile is deleted.
pub fn deleted_notification(name: &str) -> (m: String)
    ensures
        m@ == "HA profile '"@ + name@ + "' deleted successfully"@,
{
    let mut m = "HA profile '".to_owned();
    push_str(&mut m, name);
    push_str(&mut m, "' deleted successfully");
    m
}


/// A deletion treats the resource as primary here when `drbdadm status` could not be run or
/// reports a primary role here; only a status without one can place it on another node.
pub proof fn law_primary_location(status: Option<Seq<char>>, resource: Seq<char>)
    ensures
        status is None ==> spec_primary_location(status, resource) == (true, Option::<Seq<char>>::None),
        (status matches Some(out) && contains(out, "role:Primary"@)) ==> spec_primary_location(status, resource) == (
            true,
            Option::<Seq<char>>::None,
        ),
        spec_primary_location(status, resource).0 <==> spec_primary_location(status, resource).1 is None,
{
}

} // verus!
