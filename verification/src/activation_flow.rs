//! Activating and deactivating a profile by hand, one command at a time: given the command
//! that ran and how it went, what runs next. The caller runs each command and reports its
//! outcome; the commands themselves are built in `profile_control`.

use vstd::prelude::*;
use crate::nodes::AppError;
use crate::profile_control::{
    demote_failed, device_inaccessible, format_failed, metadata_failed, promote_failed, umount_failed,
    validation_timeout, spec_up_step, spec_promote_step, spec_drbd_ready, spec_formats_here,
    spec_umount_step, up_step, promote_step, drbd_ready, formats_here, umount_step, is_primary,
    needs_attach, needs_connect, reactor_manages, sync_in_progress, UpStep, PromoteStep, UmountStep,
    MAX_ACTIVATION_SYNC_WAITS, MAX_VALIDATION_ATTEMPTS, UMOUNT_ATTEMPTS,
};
use crate::profiles::remote_check_found;
use crate::text::{contains, chars_of, contains_str};

verus! {

/// How a command went: whether it succeeded, and what it printed.
#[derive(Debug, Clone)]
pub struct CommandOutcome {
    pub success: bool,
    pub stdout: String,
    pub stderr: String,
}

/// Why an activation or deactivation stopped.
#[derive(Debug, Clone, Copy, PartialEq, Eq, Structural)]
pub enum ControlFailure {
    Metadata,
    BringUp,
    Promote,
    NotReady,
    DeviceInaccessible,
    Format,
    StartService,
    Unmount,
    Demote,
}

/// The error a stopped activation or deactivation answers with, from the standard error of
/// the command that failed.
pub fn control_error(failure: ControlFailure, resource: &str, mount_point: &str, stderr: &str) -> (e: AppError)
    ensures
        match failure {
            ControlFailure::Metadata => e matches AppError::Drbd(m) && m@ == "Failed to create DRBD metadata: "@ + stderr@,
            ControlFailure::BringUp => e matches AppError::Drbd(m) && m@ == "Failed to bring up DRBD resource: "@ + stderr@,
            ControlFailure::Promote => e matches AppError::Drbd(m) && m@ == "Failed to promote resource: "@ + stderr@,
            ControlFailure::NotReady => e matches AppError::Drbd(m) && m@ == "DRBD resource '"@ + resource@
                + "' failed to reach proper status within "@ + crate::text::decimal(30) + " seconds"@,
            ControlFailure::DeviceInaccessible => e matches AppError::Drbd(m) && m@
                == "DRBD device not accessible after promotion"@,
            ControlFailure::Format => e matches AppError::Drbd(m) && m@ == "Failed to format filesystem: "@ + stderr@,
            ControlFailure::StartService => e matches AppError::Internal(m) && m@ == stderr@,
            ControlFailure::Unmount => e matches AppError::Drbd(m) && m@ == "Failed to unmount "@ + mount_point@
                + ": "@ + stderr@,
            ControlFailure::Demote => e matches AppError::Drbd(m) && m@ == "Failed to demote resource: "@ + stderr@,
        },
{
    match failure {
        ControlFailure::Metadata => metadata_failed(stderr),
        ControlFailure::BringUp => {
            let mut m = "Failed to bring up DRBD resource: ".to_owned();
            crate::text::push_str(&mut m, stderr);
            AppError::Drbd(m)
        },
        ControlFailure::Promote => promote_failed(stderr),
        ControlFailure::NotReady => validation_timeout(resource),
        ControlFailure::DeviceInaccessible => device_inaccessible(),
        ControlFailure::Format => format_failed(stderr),
        ControlFailure::StartService => AppError::Internal(stderr.to_owned()),
        ControlFailure::Unmount => umount_failed(mount_point, stderr),
        ControlFailure::Demote => demote_failed(stderr),
    }
}

// ---------------------------------------------------------------------------
// Activation
// ---------------------------------------------------------------------------

/// The next command of an activation. Device `k` is the `k`-th of `device_candidates` for
/// the resource and the output of `ReadRole`.
#[derive(Debug, Clone, Copy, PartialEq, Eq, Structural)]
pub enum ActivationAction {
    /// `drbdadm up`.
    BringUp,
    /// `drbdadm create-md --force`.
    CreateMetadata,
    /// `drbdadm up` again.
    RetryUp,
    /// `drbdadm status`, read for a missing disk or connection.
    ReadStatus,
    /// `drbdadm attach`.
    Attach,
    /// `drbdadm create-md --force`, its error output folded in.
    CreateMetadataForAttach,
    /// `drbdadm attach` again.
    RetryAttach,
    /// `drbdadm connect`.
    Connect,
    /// `drbdadm status`, read for the role before promoting.
    ReadRole,
    /// `drbdadm primary`.
    Promote,
    /// `drbdadm new-current-uuid --clear-bitmap`.
    SkipInitialSync,
    /// `drbdadm primary --force`.
    ForcePromote,
    /// `drbdadm status`, after a second's wait when `true`, read for readiness.
    CheckReady(bool),
    /// `drbdadm status`, after a second's wait when `true`, read for a running sync.
    CheckSync(bool),
    /// Whether device `k` exists.
    CheckDevice(usize),
    /// The filesystem on device `k`.
    ProbeFilesystem(usize),
    /// `drbdadm status`, read for the role before formatting.
    ReadRoleForFormat,
    /// Whether the activation marker exists.
    CheckMarker,
    /// Format the chosen device.
    Format,
    /// Leave the activation marker.
    MarkActivated,
    /// Mount the chosen device.
    Mount,
    /// Test writing to the mount point.
    TestWrite,
    /// Ask drbd-reactor whether it manages the profile.
    CheckReactor,
    /// `systemctl enable` of service `k` (a failure is passed over).
    EnableService(usize),
    /// `systemctl start` of service `k`.
    StartService(usize),
    /// Reload drbd-reactor on all nodes.
    Reload,
    /// The profile is active on this node.
    Activated,
    /// Another node formats and activates; drbd-reactor does the rest.
    LeftToReactor,
    /// The activation stopped.
    Fail(ControlFailure),
}

/// An activation in progress: the command under way, how many status looks the current
/// wait has made, whether a connect is still owed, the device chosen, and whether
/// drbd-reactor manages the profile.
#[derive(Debug, Clone, Copy, PartialEq, Eq, Structural)]
pub struct ActivationState {
    pub pending: ActivationAction,
    pub attempt: u32,
    pub connect_pending: bool,
    pub device: usize,
    pub managed: bool,
}

/// Number of devices tried after promotion.
pub const DEVICE_CANDIDATES: usize = 3;

/// The state an activation starts in: bringing the resource up.
pub open spec fn activation_start_state() -> ActivationState {
    ActivationState {
        pending: ActivationAction::BringUp,
        attempt: 0,
        connect_pending: false,
        device: 0,
        managed: false,
    }
}

/// `s` with `a` under way.
pub open spec fn then(s: ActivationState, a: ActivationAction) -> ActivationState {
    ActivationState { pending: a, ..s }
}

/// After the disk was attached (or needed no attaching): connect when owed, else read the role.
pub open spec fn after_attach(s: ActivationState) -> ActivationState {
    if s.connect_pending {
        then(s, ActivationAction::Connect)
    } else {
        then(s, ActivationAction::ReadRole)
    }
}

/// The services from `k` on, each started in order (and enabled first when drbd-reactor
/// manages the profile); then the reload.
pub open spec fn from_service(s: ActivationState, k: int, services: nat) -> ActivationState {
    if 0 <= k < services {
        then(s, if s.managed {
            ActivationAction::EnableService(k as usize)
        } else {
            ActivationAction::StartService(k as usize)
        })
    } else {
        then(s, ActivationAction::Reload)
    }
}

/// The state well formed: counters within their bounds.
pub open spec fn activation_state_wf(s: ActivationState) -> bool {
    &&& s.attempt <= MAX_ACTIVATION_SYNC_WAITS
    &&& s.device < DEVICE_CANDIDATES
    &&& (s.pending matches ActivationAction::CheckDevice(k) ==> k == s.device)
    &&& (s.pending matches ActivationAction::ProbeFilesystem(k) ==> k == s.device)
    &&& (s.pending matches ActivationAction::EnableService(k) ==> k < usize::MAX)
    &&& (s.pending matches ActivationAction::StartService(k) ==> k < usize::MAX)
}

/// The activation step after `s`, given how its command went, this host's name, the other
/// known hostnames and the number of services.
pub open spec fn spec_activation_step(
    s: ActivationState,
    success: bool,
    out: Seq<char>,
    err: Seq<char>,
    local: Seq<char>,
    others: Seq<Seq<char>>,
    services: nat,
) -> ActivationState {
    let fail = |f: ControlFailure| then(s, ActivationAction::Fail(f));
    match s.pending {
        ActivationAction::BringUp => if spec_up_step(success, err) == UpStep::CreateMetadata {
            then(s, ActivationAction::CreateMetadata)
        } else {
            then(s, ActivationAction::ReadStatus)
        },
        ActivationAction::CreateMetadata => if !success {
            fail(ControlFailure::Metadata)
        } else {
            then(s, ActivationAction::RetryUp)
        },
        ActivationAction::RetryUp => if success || contains(err, "already"@) {
            then(s, ActivationAction::ReadStatus)
        } else {
            fail(ControlFailure::BringUp)
        },
        ActivationAction::ReadStatus => if contains(out, "disk:Diskless"@) {
            ActivationState {
                pending: ActivationAction::Attach,
                connect_pending: contains(out, "connection:StandAlone"@),
                ..s
            }
        } else if contains(out, "connection:StandAlone"@) {
            then(s, ActivationAction::Connect)
        } else {
            then(s, ActivationAction::ReadRole)
        },
        ActivationAction::Attach => if spec_up_step(success, err) == UpStep::CreateMetadata {
            then(s, ActivationAction::CreateMetadataForAttach)
        } else {
            after_attach(s)
        },
        ActivationAction::CreateMetadataForAttach => then(s, ActivationAction::RetryAttach),
        ActivationAction::RetryAttach => after_attach(s),
        ActivationAction::Connect => then(s, ActivationAction::ReadRole),
        ActivationAction::ReadRole => if contains(out, "role:Primary"@) {
            ActivationState { pending: ActivationAction::CheckReady(false), attempt: 1, ..s }
        } else {
            then(s, ActivationAction::Promote)
        },
        ActivationAction::Promote => match spec_promote_step(success, err) {
            PromoteStep::Promoted => ActivationState {
                pending: ActivationAction::CheckReady(false),
                attempt: 1,
                ..s
            },
            PromoteStep::SkipSyncAndForce => then(s, ActivationAction::SkipInitialSync),
            PromoteStep::Failed => fail(ControlFailure::Promote),
        },
        ActivationAction::SkipInitialSync => then(s, ActivationAction::ForcePromote),
        ActivationAction::ForcePromote => if !success {
            fail(ControlFailure::Promote)
        } else {
            ActivationState { pending: ActivationAction::CheckReady(false), attempt: 1, ..s }
        },
        ActivationAction::CheckReady(_) => if spec_drbd_ready(out) {
            ActivationState { pending: ActivationAction::CheckSync(false), attempt: 0, ..s }
        } else if s.attempt < MAX_VALIDATION_ATTEMPTS {
            ActivationState {
                pending: ActivationAction::CheckReady(true),
                attempt: (s.attempt + 1) as u32,
                ..s
            }
        } else {
            fail(ControlFailure::NotReady)
        },
        ActivationAction::CheckSync(_) => if contains(out, "sync:"@) && s.attempt < MAX_ACTIVATION_SYNC_WAITS {
            ActivationState {
                pending: ActivationAction::CheckSync(true),
                attempt: (s.attempt + 1) as u32,
                ..s
            }
        } else {
            ActivationState { pending: ActivationAction::CheckDevice(0), device: 0, ..s }
        },
        ActivationAction::CheckDevice(k) => if contains(out, "exists"@) {
            then(s, ActivationAction::ProbeFilesystem(k))
        } else if k + 1 < DEVICE_CANDIDATES {
            ActivationState {
                pending: ActivationAction::CheckDevice((k + 1) as usize),
                device: (k + 1) as usize,
                ..s
            }
        } else {
            fail(ControlFailure::DeviceInaccessible)
        },
        ActivationAction::ProbeFilesystem(_) => if !success {
            if s.device + 1 < DEVICE_CANDIDATES {
                ActivationState {
                    pending: ActivationAction::CheckDevice((s.device + 1) as usize),
                    device: (s.device + 1) as usize,
                    ..s
                }
            } else {
                fail(ControlFailure::DeviceInaccessible)
            }
        } else if crate::text::trim(out).len() > 0 {
            then(s, ActivationAction::Mount)
        } else {
            then(s, ActivationAction::ReadRoleForFormat)
        },
        ActivationAction::ReadRoleForFormat => if spec_formats_here(out, local, others) {
            then(s, ActivationAction::CheckMarker)
        } else {
            then(s, ActivationAction::LeftToReactor)
        },
        ActivationAction::CheckMarker => if contains(out, "exists"@) {
            then(s, ActivationAction::Mount)
        } else {
            then(s, ActivationAction::Format)
        },
        ActivationAction::Format => if !success {
            fail(ControlFailure::Format)
        } else {
            then(s, ActivationAction::MarkActivated)
        },
        ActivationAction::MarkActivated => then(s, ActivationAction::Mount),
        ActivationAction::Mount => then(s, ActivationAction::TestWrite),
        ActivationAction::TestWrite => then(s, ActivationAction::CheckReactor),
        ActivationAction::CheckReactor => from_service(
            ActivationState { managed: success && contains(out, "active"@), ..s },
            0,
            services,
        ),
        ActivationAction::EnableService(k) => then(s, ActivationAction::StartService(k)),
        ActivationAction::StartService(k) => if !success {
            fail(ControlFailure::StartService)
        } else {
            from_service(s, k + 1, services)
        },
        ActivationAction::Reload => then(s, ActivationAction::Activated),
        ActivationAction::Activated => s,
        ActivationAction::LeftToReactor => s,
        ActivationAction::Fail(_) => s,
    }
}

/// The state an activation starts in.
pub fn activation_start() -> (s: ActivationState)
    ensures
        s == activation_start_state(),
        activation_state_wf(s),
{
    ActivationState {
        pending: ActivationAction::BringUp,
        attempt: 0,
        connect_pending: false,
        device: 0,
        managed: false,
    }
}

fn go(s: &ActivationState, a: ActivationAction) -> (r: ActivationState)
    ensures
        r == then(*s, a),
{
    ActivationState { pending: a, ..*s }
}

fn exec_after_attach(s: &ActivationState) -> (r: ActivationState)
    ensures
        r == after_attach(*s),
{
    if s.connect_pending {
        go(s, ActivationAction::Connect)
    } else {
        go(s, ActivationAction::ReadRole)
    }
}

fn exec_from_service(s: &ActivationState, k: usize, services: usize) -> (r: ActivationState)
    ensures
        r == from_service(*s, k as int, services as nat),
{
    if k < services {
        go(s, if s.managed {
            ActivationAction::EnableService(k)
        } else {
            ActivationAction::StartService(k)
        })
    } else {
        go(s, ActivationAction::Reload)
    }
}

/// Decides the activation command that follows the one under way, given how it went. Gives
/// the new state and the command to run (the new state's pending command).
pub fn activation_step(
    state: &ActivationState,
    outcome: &CommandOutcome,
    local: &str,
    others: &Vec<String>,
    services: usize,
) -> (r: (ActivationState, ActivationAction))
    requires
        activation_state_wf(*state),
        services < usize::MAX,
    ensures
        r.0 == spec_activation_step(
            *state,
            outcome.success,
            outcome.stdout@,
            outcome.stderr@,
            local@,
            others@.map_values(|h: String| h@),
            services as nat,
        ),
        r.1 == r.0.pending,
        activation_state_wf(r.0),
{
    let s = state;
    let success = outcome.success;
    let out = outcome.stdout.as_str();
    let err = outcome.stderr.as_str();
    let fail = |f: ControlFailure| -> (n: ActivationState)
        ensures
            n == then(*s, ActivationAction::Fail(f)),
        { ActivationState { pending: ActivationAction::Fail(f), ..*s } };
    let next = match s.pending {
        ActivationAction::BringUp => if up_step(success, err) == UpStep::CreateMetadata {
            go(s, ActivationAction::CreateMetadata)
        } else {
            go(s, ActivationAction::ReadStatus)
        },
        ActivationAction::CreateMetadata => if !success {
            fail(ControlFailure::Metadata)
        } else {
            go(s, ActivationAction::RetryUp)
        },
        ActivationAction::RetryUp => if success || contains_str(chars_of(err).as_slice(), "already") {
            go(s, ActivationAction::ReadStatus)
        } else {
            fail(ControlFailure::BringUp)
        },
        ActivationAction::ReadStatus => if needs_attach(out) {
            ActivationState { pending: ActivationAction::Attach, connect_pending: needs_connect(out), ..*s }
        } else if needs_connect(out) {
            go(s, ActivationAction::Connect)
        } else {
            go(s, ActivationAction::ReadRole)
        },
        ActivationAction::Attach => if up_step(success, err) == UpStep::CreateMetadata {
            go(s, ActivationAction::CreateMetadataForAttach)
        } else {
            exec_after_attach(s)
        },
        ActivationAction::CreateMetadataForAttach => go(s, ActivationAction::RetryAttach),
        ActivationAction::RetryAttach => exec_after_attach(s),
        ActivationAction::Connect => go(s, ActivationAction::ReadRole),
        ActivationAction::ReadRole => if is_primary(out) {
            ActivationState { pending: ActivationAction::CheckReady(false), attempt: 1, ..*s }
        } else {
            go(s, ActivationAction::Promote)
        },
        ActivationAction::Promote => match promote_step(success, err) {
            PromoteStep::Promoted => ActivationState {
                pending: ActivationAction::CheckReady(false),
                attempt: 1,
                ..*s
            },
            PromoteStep::SkipSyncAndForce => go(s, ActivationAction::SkipInitialSync),
            PromoteStep::Failed => fail(ControlFailure::Promote),
        },
        ActivationAction::SkipInitialSync => go(s, ActivationAction::ForcePromote),
        ActivationAction::ForcePromote => if !success {
            fail(ControlFailure::Promote)
        } else {
            ActivationState { pending: ActivationAction::CheckReady(false), attempt: 1, ..*s }
        },
        ActivationAction::CheckReady(_) => if drbd_ready(out) {
            ActivationState { pending: ActivationAction::CheckSync(false), attempt: 0, ..*s }
        } else if s.attempt < MAX_VALIDATION_ATTEMPTS {
            ActivationState { pending: ActivationAction::CheckReady(true), attempt: s.attempt + 1, ..*s }
        } else {
            fail(ControlFailure::NotReady)
        },
        ActivationAction::CheckSync(_) => if sync_in_progress(out) && s.attempt < MAX_ACTIVATION_SYNC_WAITS {
            ActivationState { pending: ActivationAction::CheckSync(true), attempt: s.attempt + 1, ..*s }
        } else {
            ActivationState { pending: ActivationAction::CheckDevice(0), device: 0, ..*s }
        },
        ActivationAction::CheckDevice(k) => if remote_check_found(out) {
            go(s, ActivationAction::ProbeFilesystem(k))
        } else if k + 1 < DEVICE_CANDIDATES {
            ActivationState { pending: ActivationAction::CheckDevice(k + 1), device: k + 1, ..*s }
        } else {
            fail(ControlFailure::DeviceInaccessible)
        },
        ActivationAction::ProbeFilesystem(_) => if !success {
            if s.device + 1 < DEVICE_CANDIDATES {
                ActivationState {
                    pending: ActivationAction::CheckDevice(s.device + 1),
                    device: s.device + 1,
                    ..*s
                }
            } else {
                fail(ControlFailure::DeviceInaccessible)
            }
        } else if crate::profile_control::probed_filesystem(out).is_some() {
            go(s, ActivationAction::Mount)
        } else {
            go(s, ActivationAction::ReadRoleForFormat)
        },
        ActivationAction::ReadRoleForFormat => if formats_here(out, local, others) {
            go(s, ActivationAction::CheckMarker)
        } else {
            go(s, ActivationAction::LeftToReactor)
        },
        ActivationAction::CheckMarker => if remote_check_found(out) {
            go(s, ActivationAction::Mount)
        } else {
            go(s, ActivationAction::Format)
        },
        ActivationAction::Format => if !success {
            fail(ControlFailure::Format)
        } else {
            go(s, ActivationAction::MarkActivated)
        },
        ActivationAction::MarkActivated => go(s, ActivationAction::Mount),
        ActivationAction::Mount => go(s, ActivationAction::TestWrite),
        ActivationAction::TestWrite => go(s, ActivationAction::CheckReactor),
        ActivationAction::CheckReactor => {
            let m = ActivationState { managed: success && reactor_manages(out), ..*s };
            exec_from_service(&m, 0, services)
        },
        ActivationAction::EnableService(k) => go(s, ActivationAction::StartService(k)),
        ActivationAction::StartService(k) => if !success {
            fail(ControlFailure::StartService)
        } else {
            exec_from_service(s, k + 1, services)
        },
        ActivationAction::Reload => go(s, ActivationAction::Activated),
        ActivationAction::Activated => *s,
        ActivationAction::LeftToReactor => *s,
        ActivationAction::Fail(_) => *s,
    };
    (next, next.pending)
}

// ---------------------------------------------------------------------------
// Deactivation
// ---------------------------------------------------------------------------

/// The next command of a deactivation.
#[derive(Debug, Clone, Copy, PartialEq, Eq, Structural)]
pub enum DeactivationAction {
    /// `systemctl stop` of service `k`; services are stopped from the last to the first.
    StopService(usize),
    /// Kill what holds the mount point.
    KillHolders,
    /// Plain unmount, attempt `k` (from 1).
    Unmount(u32),
    /// Kill what holds the mount point again before the next attempt.
    KillHoldersAgain(u32),
    /// Lazy unmount.
    LazyUnmount,
    /// `drbdadm secondary`.
    Demote,
    /// `drbdadm down`.
    BringDown,
    /// Remove the promoter file.
    RemoveConfig,
    /// Reload drbd-reactor on all nodes.
    Reload,
    /// The profile is standby.
    Deactivated,
    /// The deactivation stopped.
    Fail(ControlFailure),
}

/// Stopping service `k` and then those before it, last to first (a failed stop is passed
/// over); once none is left, releasing the mount point.
pub open spec fn stop_down_from(k: int) -> DeactivationAction {
    if 0 <= k {
        DeactivationAction::StopService(k as usize)
    } else {
        DeactivationAction::KillHolders
    }
}

/// The first deactivation command: stopping the last service.
pub open spec fn deactivation_start_action(services: nat) -> DeactivationAction {
    stop_down_from(services - 1)
}

/// The deactivation step after `a`, given whether its command succeeded.
pub open spec fn spec_deactivation_step(a: DeactivationAction, success: bool, services: nat) -> DeactivationAction {
    match a {
        DeactivationAction::StopService(k) => stop_down_from(k - 1),
        DeactivationAction::KillHolders => DeactivationAction::Unmount(1),
        DeactivationAction::Unmount(k) => match spec_umount_step(k, success) {
            UmountStep::Done => DeactivationAction::Demote,
            UmountStep::Retry => DeactivationAction::KillHoldersAgain(k),
            UmountStep::Lazy => DeactivationAction::LazyUnmount,
        },
        DeactivationAction::KillHoldersAgain(k) => DeactivationAction::Unmount((k + 1) as u32),
        DeactivationAction::LazyUnmount => if success {
            DeactivationAction::Demote
        } else {
            DeactivationAction::Fail(ControlFailure::Unmount)
        },
        DeactivationAction::Demote => if success {
            DeactivationAction::BringDown
        } else {
            DeactivationAction::Fail(ControlFailure::Demote)
        },
        DeactivationAction::BringDown => DeactivationAction::RemoveConfig,
        DeactivationAction::RemoveConfig => DeactivationAction::Reload,
        DeactivationAction::Reload => DeactivationAction::Deactivated,
        DeactivationAction::Deactivated => a,
        DeactivationAction::Fail(_) => a,
    }
}

/// A deactivation command whose counters are in bounds.
pub open spec fn deactivation_action_wf(a: DeactivationAction) -> bool {
    &&& (a matches DeactivationAction::KillHoldersAgain(k) ==> k < UMOUNT_ATTEMPTS)
}

/// The first deactivation command: stopping the last service, or releasing the mount point
/// when there is none.
pub fn deactivation_start(services: usize) -> (a: DeactivationAction)
    ensures
        a == deactivation_start_action(services as nat),
        deactivation_action_wf(a),
{
    if 0 < services {
        DeactivationAction::StopService(services - 1)
    } else {
        DeactivationAction::KillHolders
    }
}

/// Decides the deactivation command that follows `current`, given whether it succeeded.
pub fn deactivation_step(current: &DeactivationAction, success: bool, services: usize) -> (a: DeactivationAction)
    requires
        deactivation_action_wf(*current),
    ensures
        a == spec_deactivation_step(*current, success, services as nat),
        deactivation_action_wf(a),
{
    match *current {
        DeactivationAction::StopService(k) => if k > 0 {
            DeactivationAction::StopService(k - 1)
        } else {
            DeactivationAction::KillHolders
        },
        DeactivationAction::KillHolders => DeactivationAction::Unmount(1),
        DeactivationAction::Unmount(k) => match umount_step(k, success) {
            UmountStep::Done => DeactivationAction::Demote,
            UmountStep::Retry => DeactivationAction::KillHoldersAgain(k),
            UmountStep::Lazy => DeactivationAction::LazyUnmount,
        },
        DeactivationAction::KillHoldersAgain(k) => DeactivationAction::Unmount(k + 1),
        DeactivationAction::LazyUnmount => if success {
            DeactivationAction::Demote
        } else {
            DeactivationAction::Fail(ControlFailure::Unmount)
        },
        DeactivationAction::Demote => if success {
            DeactivationAction::BringDown
        } else {
            DeactivationAction::Fail(ControlFailure::Demote)
        },
        DeactivationAction::BringDown => DeactivationAction::RemoveConfig,
        DeactivationAction::RemoveConfig => DeactivationAction::Reload,
        DeactivationAction::Reload => DeactivationAction::Deactivated,
        DeactivationAction::Deactivated => *current,
        DeactivationAction::Fail(f) => DeactivationAction::Fail(f),
    }
}

// ---------------------------------------------------------------------------
// Answers
// ---------------------------------------------------------------------------

/// What a finished activation or deactivation answers: the profile's status, as the status
/// query reads it afterwards, or the error of the step that stopped it.
#[derive(Debug, Clone, Copy, PartialEq, Eq, Structural)]
pub enum ControlAnswer {
    ProfileStatus,
    Failed(ControlFailure),
}

/// The answer of an activation whose last step is `a`; `None` while it is under way.
pub open spec fn spec_activation_answer(a: ActivationAction) -> Option<ControlAnswer> {
    match a {
        ActivationAction::Activated => Some(ControlAnswer::ProfileStatus),
        ActivationAction::LeftToReactor => Some(ControlAnswer::ProfileStatus),
        ActivationAction::Fail(f) => Some(ControlAnswer::Failed(f)),
        _ => None,
    }
}

/// The answer of a deactivation whose last step is `a`; `None` while it is under way.
pub open spec fn spec_deactivation_answer(a: DeactivationAction) -> Option<ControlAnswer> {
    match a {
        DeactivationAction::Deactivated => Some(ControlAnswer::ProfileStatus),
        DeactivationAction::Fail(f) => Some(ControlAnswer::Failed(f)),
        _ => None,
    }
}

/// What an activation answers once its step is `a`: the profile's status when this node
/// activated it or left it to drbd-reactor, the failure when it stopped, nothing yet otherwise.
pub fn activation_answer(a: &ActivationAction) -> (r: Option<ControlAnswer>)
    ensures
        r == spec_activation_answer(*a),
{
    match *a {
        ActivationAction::Activated => Some(ControlAnswer::ProfileStatus),
        ActivationAction::LeftToReactor => Some(ControlAnswer::ProfileStatus),
        ActivationAction::Fail(f) => Some(ControlAnswer::Failed(f)),
        _ => None,
    }
}

/// What a deactivation answers once its step is `a`: the profile's status when it is done,
/// the failure when it stopped, nothing yet otherwise.
pub fn deactivation_answer(a: &DeactivationAction) -> (r: Option<ControlAnswer>)
    ensures
        r == spec_deactivation_answer(*a),
{
    match *a {
        DeactivationAction::Deactivated => Some(ControlAnswer::ProfileStatus),
        DeactivationAction::Fail(f) => Some(ControlAnswer::Failed(f)),
        _ => None,
    }
}

// ---------------------------------------------------------------------------
// Laws
// ---------------------------------------------------------------------------

/// The readiness wait after promotion ends: at its last look, a resource that is not ready
/// stops the activation.
pub proof fn law_ready_wait_ends(s: ActivationState, out: Seq<char>, err: Seq<char>, local: Seq<char>, others: Seq<Seq<char>>, services: nat, wait: bool, success: bool)
    requires
        s.pending == ActivationAction::CheckReady(wait),
        s.attempt >= MAX_VALIDATION_ATTEMPTS,
        !spec_drbd_ready(out),
    ensures
        spec_activation_step(s, success, out, err, local, others, services).pending
            == ActivationAction::Fail(ControlFailure::NotReady),
{
}

/// A fresh device is formatted only where `formats_here` says so: elsewhere the activation
/// leaves the profile to drbd-reactor.
pub proof fn law_format_only_where_decided(s: ActivationState, success: bool, out: Seq<char>, err: Seq<char>, local: Seq<char>, others: Seq<Seq<char>>, services: nat)
    requires
        s.pending == ActivationAction::ReadRoleForFormat,
    ensures
        spec_activation_step(s, success, out, err, local, others, services).pending == (if spec_formats_here(out, local, others) {
            ActivationAction::CheckMarker
        } else {
            ActivationAction::LeftToReactor
        }),
{
}

/// A deactivation demotes only once the mount point is released: the step before `Demote`
/// is a successful plain or lazy unmount.
pub proof fn law_demote_after_unmount(a: DeactivationAction, success: bool, services: nat)
    requires
        spec_deactivation_step(a, success, services) == DeactivationAction::Demote,
    ensures
        success,
        a is Unmount || a is LazyUnmount,
{
}

/// A promotion that fails (other than for want of up-to-date data) ends the activation with
/// the promote error: no later command runs.
pub proof fn law_promote_failure_answers(s: ActivationState, success: bool, out: Seq<char>, err: Seq<char>, local: Seq<char>, others: Seq<Seq<char>>, services: nat)
    requires
        s.pending == ActivationAction::Promote,
        spec_promote_step(success, err) == PromoteStep::Failed,
    ensures
        spec_activation_answer(spec_activation_step(s, success, out, err, local, others, services).pending)
            == Some(ControlAnswer::Failed(ControlFailure::Promote)),
{
}

/// An activation that gets through its services and the reload answers with the profile's
/// status.
pub proof fn law_activation_answers_status(s: ActivationState, success: bool, out: Seq<char>, err: Seq<char>, local: Seq<char>, others: Seq<Seq<char>>, services: nat)
    requires
        s.pending == ActivationAction::Reload,
    ensures
        spec_activation_answer(spec_activation_step(s, success, out, err, local, others, services).pending)
            == Some(ControlAnswer::ProfileStatus),
{
}

/// Services are started one after the other in their order: a started service `k` is
/// followed by service `k + 1` (enabled first where drbd-reactor manages the profile), and
/// the last by the reload. An enabled service is started next.
pub proof fn law_services_started_in_order(s: ActivationState, success: bool, out: Seq<char>, err: Seq<char>, local: Seq<char>, others: Seq<Seq<char>>, services: nat, k: usize)
    ensures
        (s.pending == ActivationAction::StartService(k) && success) ==> spec_activation_step(
            s, success, out, err, local, others, services).pending == (if k + 1 < services {
            if s.managed {
                ActivationAction::EnableService((k + 1) as usize)
            } else {
                ActivationAction::StartService((k + 1) as usize)
            }
        } else {
            ActivationAction::Reload
        }),
        s.pending == ActivationAction::EnableService(k) ==> spec_activation_step(
            s, success, out, err, local, others, services).pending == ActivationAction::StartService(k),
{
}

/// Services are stopped from the last to the first, whatever each stop gives, before the
/// mount point is released.
pub proof fn law_services_stopped_in_reverse(k: usize, success: bool, services: nat)
    ensures
        spec_deactivation_step(DeactivationAction::StopService(k), success, services) == (if k > 0 {
            DeactivationAction::StopService((k - 1) as usize)
        } else {
            DeactivationAction::KillHolders
        }),
        services > 0 ==> deactivation_start_action(services) == DeactivationAction::StopService((services - 1) as usize),
{
}

/// A finished deactivation answers with the profile's status; one that could not unmount or
/// demote answers with that failure.
pub proof fn law_deactivation_answers(a: DeactivationAction, success: bool, services: nat)
    requires
        a == DeactivationAction::Reload || a == DeactivationAction::LazyUnmount || a == DeactivationAction::Demote,
    ensures
        a == DeactivationAction::Reload ==> spec_deactivation_answer(spec_deactivation_step(a, success, services))
            == Some(ControlAnswer::ProfileStatus),
        (a == DeactivationAction::LazyUnmount && !success) ==> spec_deactivation_answer(
            spec_deactivation_step(a, success, services)) == Some(ControlAnswer::Failed(ControlFailure::Unmount)),
        (a == DeactivationAction::Demote && !success) ==> spec_deactivation_answer(
            spec_deactivation_step(a, success, services)) == Some(ControlAnswer::Failed(ControlFailure::Demote)),
{
}

/// How an activation brings the resource up and promotes it: `drbdadm up` goes on to the
/// status read unless it reports missing metadata (then the metadata is created, and a
/// failure there stops the activation); the status read leads to attaching a diskless disk,
/// connecting a stand-alone resource, or reading the role; a resource already primary is
/// not promoted again; a promotion refused for want of up-to-date data skips the initial
/// sync and forces it, and any other refusal stops the activation.
pub proof fn law_activation_bring_up_and_promote(
    s: ActivationState,
    success: bool,
    out: Seq<char>,
    err: Seq<char>,
    local: Seq<char>,
    others: Seq<Seq<char>>,
    services: nat,
)
    ensures
        ({
            let next = spec_activation_step(s, success, out, err, local, others, services).pending;
            &&& (s.pending == ActivationAction::BringUp && success) ==> next == ActivationAction::ReadStatus
            &&& (s.pending == ActivationAction::BringUp && !success && contains(err, "No valid meta data"@)) ==> next
                == ActivationAction::CreateMetadata
            &&& (s.pending == ActivationAction::BringUp && !success && !contains(err, "No valid meta data"@)) ==> next
                == ActivationAction::ReadStatus
            &&& (s.pending == ActivationAction::CreateMetadata) ==> next == (if success {
                ActivationAction::RetryUp
            } else {
                ActivationAction::Fail(ControlFailure::Metadata)
            })
            &&& (s.pending == ActivationAction::RetryUp && !success && !contains(err, "already"@)) ==> next
                == ActivationAction::Fail(ControlFailure::BringUp)
            &&& (s.pending == ActivationAction::ReadStatus && contains(out, "disk:Diskless"@)) ==> next
                == ActivationAction::Attach
            &&& (s.pending == ActivationAction::ReadStatus && !contains(out, "disk:Diskless"@) && contains(
                out,
                "connection:StandAlone"@,
            )) ==> next == ActivationAction::Connect
            &&& (s.pending == ActivationAction::ReadStatus && !contains(out, "disk:Diskless"@) && !contains(
                out,
                "connection:StandAlone"@,
            )) ==> next == ActivationAction::ReadRole
            &&& s.pending == ActivationAction::Connect ==> next == ActivationAction::ReadRole
            &&& (s.pending == ActivationAction::ReadRole) ==> next == (if contains(out, "role:Primary"@) {
                ActivationAction::CheckReady(false)
            } else {
                ActivationAction::Promote
            })
            &&& (s.pending == ActivationAction::Promote && success) ==> next == ActivationAction::CheckReady(false)
            &&& (s.pending == ActivationAction::Promote && !success && contains(err, "Need access to UpToDate data"@))
                ==> next == ActivationAction::SkipInitialSync
            &&& (s.pending == ActivationAction::Promote && !success && !contains(
                err,
                "Need access to UpToDate data"@,
            )) ==> next == ActivationAction::Fail(ControlFailure::Promote)
            &&& s.pending == ActivationAction::SkipInitialSync ==> next == ActivationAction::ForcePromote
            &&& (s.pending == ActivationAction::ForcePromote) ==> next == (if success {
                ActivationAction::CheckReady(false)
            } else {
                ActivationAction::Fail(ControlFailure::Promote)
            })
        }),
{
}

/// How an activation takes the device into use: a primary with an up-to-date, consistent or
/// inconsistent disk (and no diskless one) is ready; the first device that exists is probed;
/// a device with a filesystem is mounted, a fresh one is formatted here when this node is
/// primary (unless it was activated before) and left to drbd-reactor when it is secondary;
/// a failed format stops the activation; the mount is followed by the write test and the
/// question to drbd-reactor, and the reload ends the activation.
pub proof fn law_activation_takes_device_into_use(
    s: ActivationState,
    success: bool,
    out: Seq<char>,
    err: Seq<char>,
    local: Seq<char>,
    others: Seq<Seq<char>>,
    services: nat,
    wait: bool,
    k: usize,
)
    ensures
        ({
            let next = spec_activation_step(s, success, out, err, local, others, services).pending;
            &&& (s.pending == ActivationAction::CheckReady(wait) && contains(out, "role:Primary"@) && contains(
                out,
                "disk:UpToDate"@,
            ) && !contains(out, "disk:Diskless"@)) ==> next == ActivationAction::CheckSync(false)
            &&& (s.pending == ActivationAction::CheckSync(wait) && !contains(out, "sync:"@)) ==> next
                == ActivationAction::CheckDevice(0)
            &&& (s.pending == ActivationAction::CheckDevice(k) && contains(out, "exists"@)) ==> next
                == ActivationAction::ProbeFilesystem(k)
            &&& (s.pending == ActivationAction::ProbeFilesystem(k) && success && crate::text::trim(out).len() > 0)
                ==> next == ActivationAction::Mount
            &&& (s.pending == ActivationAction::ProbeFilesystem(k) && success && crate::text::trim(out).len() == 0)
                ==> next == ActivationAction::ReadRoleForFormat
            &&& (s.pending == ActivationAction::ReadRoleForFormat && contains(out, "role:Primary"@)) ==> next
                == ActivationAction::CheckMarker
            &&& (s.pending == ActivationAction::ReadRoleForFormat && !contains(out, "role:Primary"@) && contains(
                out,
                "role:Secondary"@,
            )) ==> next == ActivationAction::LeftToReactor
            &&& (s.pending == ActivationAction::CheckMarker) ==> next == (if contains(out, "exists"@) {
                ActivationAction::Mount
            } else {
                ActivationAction::Format
            })
            &&& (s.pending == ActivationAction::Format) ==> next == (if success {
                ActivationAction::MarkActivated
            } else {
                ActivationAction::Fail(ControlFailure::Format)
            })
            &&& s.pending == ActivationAction::MarkActivated ==> next == ActivationAction::Mount
            &&& s.pending == ActivationAction::Mount ==> next == ActivationAction::TestWrite
            &&& s.pending == ActivationAction::TestWrite ==> next == ActivationAction::CheckReactor
            &&& (s.pending == ActivationAction::CheckReactor && services > 0) ==> next == (if success && contains(
                out,
                "active"@,
            ) {
                ActivationAction::EnableService(0)
            } else {
                ActivationAction::StartService(0)
            })
            &&& (s.pending == ActivationAction::CheckReactor && services == 0) ==> next == ActivationAction::Reload
            &&& s.pending == ActivationAction::Reload ==> next == ActivationAction::Activated
        }),
{
}

/// How a deactivation releases the mount point and the resource: after the services, what
/// holds the mount point is killed and the plain unmount is tried up to three times (killing
/// again between attempts), then lazily; a released mount point is followed by the demotion,
/// `drbdadm down`, the removal of the promoter file and the reload; a failed lazy unmount or
/// demotion stops the deactivation.
pub proof fn law_deactivation_releases_in_order(a: DeactivationAction, success: bool, services: nat, k: u32)
    ensures
        ({
            let next = spec_deactivation_step(a, success, services);
            &&& a == DeactivationAction::KillHolders ==> next == DeactivationAction::Unmount(1)
            &&& (a == DeactivationAction::Unmount(k) && success) ==> next == DeactivationAction::Demote
            &&& (a == DeactivationAction::Unmount(k) && !success && k < 3) ==> next
                == DeactivationAction::KillHoldersAgain(k)
            &&& (a == DeactivationAction::Unmount(k) && !success && k >= 3) ==> next == DeactivationAction::LazyUnmount
            &&& (a == DeactivationAction::KillHoldersAgain(k) && k < 3) ==> next == DeactivationAction::Unmount(
                (k + 1) as u32,
            )
            &&& a == DeactivationAction::LazyUnmount ==> next == (if success {
                DeactivationAction::Demote
            } else {
                DeactivationAction::Fail(ControlFailure::Unmount)
            })
            &&& a == DeactivationAction::Demote ==> next == (if success {
                DeactivationAction::BringDown
            } else {
                DeactivationAction::Fail(ControlFailure::Demote)
            })
            &&& a == DeactivationAction::BringDown ==> next == DeactivationAction::RemoveConfig
            &&& a == DeactivationAction::RemoveConfig ==> next == DeactivationAction::Reload
            &&& a == DeactivationAction::Reload ==> next == DeactivationAction::Deactivated
            &&& services == 0 ==> deactivation_start_action(services) == DeactivationAction::KillHolders
        }),
{
}

} // verus!
