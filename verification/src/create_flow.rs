//! The order in which a new HA profile is created: the checks before anything is changed,
//! then one step at a time, what runs next given how the last step went.

use vstd::prelude::*;
use crate::nodes::AppError;
use crate::profile_create::{SyncWait, MAX_SYNC_ATTEMPTS, sync_timeout_message};
use crate::profiles::HaProfile;
use crate::text::{push_str, str_eq};

verus! {

// ---------------------------------------------------------------------------
// Before anything is created
// ---------------------------------------------------------------------------

/// A profile named `name` is among `existing`.
pub open spec fn profile_named(existing: Seq<HaProfile>, name: Seq<char>) -> bool {
    exists|k: int| 0 <= k < existing.len() && (#[trigger] existing[k]).name@ == name
}

/// A new profile must not take the name of an existing one.
pub fn check_new_profile(name: &str, existing: &Vec<HaProfile>) -> (r: Result<(), AppError>)
    ensures
        profile_named(existing@, name@) ==> (r matches Err(AppError::AlreadyExists(m)) && m@
            == "HA profile with name "@ + name@ + " already exists"@),
        !profile_named(existing@, name@) ==> r is Ok,
{
    let mut i: usize = 0;
    while i < existing.len()
        invariant
            i <= existing.len(),
            forall|k: int| 0 <= k < i ==> (#[trigger] existing@[k]).name@ != name@,
        decreases existing.len() - i,
    {
        if str_eq(existing[i].name.as_str(), name) {
            let mut m = "HA profile with name ".to_owned();
            push_str(&mut m, name);
            push_str(&mut m, " already exists");
            return Err(AppError::AlreadyExists(m));
        }
        i = i + 1;
    }
    Ok(())
}

// ---------------------------------------------------------------------------
// The creation steps
// ---------------------------------------------------------------------------

/// Where a creation stands: the step under way.
#[derive(Debug, Clone, Copy, PartialEq, Eq, Structural)]
pub enum CreatePhase {
    /// Nothing has run yet.
    Start,
    /// Creating the backing volume (LVM or ZFS) on cluster node `node`.
    Volumes,
    /// Writing the DRBD resource file on cluster node `node`.
    ResourceFiles,
    /// Creating the metadata of the new resource and bringing it up on every node.
    InitDrbd,
    /// Writing the systemd mount unit of the DRBD device.
    MountUnit,
    /// Promoting the new resource here to lay down its filesystem.
    PromoteForSetup,
    /// Making the filesystem on the DRBD device.
    FormatDevice,
    /// Making the mount point.
    MakeMountPoint,
    /// Mounting the device for the setup.
    MountForSetup,
    /// Unmounting after the setup.
    UnmountAfterSetup,
    /// Demoting after the setup.
    DemoteAfterSetup,
    /// Stopping service `node` on every node before the data is migrated.
    StopForMigration,
    /// Migrating the existing data onto the DRBD device.
    MigrateData,
    /// Making remote node `node` secondary after the migration.
    DemoteRemote,
    /// Looking at the sync of the migrated resource (`attempt` looks so far).
    WaitSync,
    /// Writing the service overrides that tie the services to the mount unit.
    Overrides,
    /// Writing the promoter file.
    PromoterFile,
    /// Disabling and stopping the managed services, which drbd-reactor starts from now on.
    DisableServices,
    /// Copying the generated files to remote node `node`.
    SyncNodes,
    /// Reloading drbd-reactor on all nodes.
    Reload,
    /// The profile is created.
    Done,
    /// A step that cannot be skipped failed.
    Failed,
}

/// Why a creation stopped.
#[derive(Debug, Clone, Copy, PartialEq, Eq, Structural)]
pub enum CreateFailure {
    /// A step failed; its error output is the answer.
    Step,
    /// The data migration failed.
    Migration,
    /// The migrated resource did not sync in time.
    SyncTimeout,
}

/// What the request asks of a creation.
#[derive(Debug, Clone, Copy, PartialEq, Eq, Structural)]
pub struct CreatePlan {
    /// Number of cluster nodes (each gets a volume and the same resource file).
    pub nodes: usize,
    /// Number of remote nodes the generated files are copied to.
    pub sync_targets: usize,
    /// Number of managed services.
    pub services: usize,
    /// A new DRBD resource is made on new volumes (otherwise an existing one is used).
    pub new_resource: bool,
    /// The new volumes are ZFS volumes (otherwise LVM volumes).
    pub zfs: bool,
    /// A systemd mount unit is generated (a generic profile without a Filesystem agent of
    /// its own and without the OCF mount strategy).
    pub mount_unit: bool,
    /// The new resource gets its filesystem now (a generic profile on new volumes whose
    /// data is not migrated).
    pub setup_storage: bool,
    /// Existing data is migrated onto the resource (a generic profile that asks for it).
    pub migrate: bool,
    /// The managed services are disabled and stopped.
    pub disable_services: bool,
    /// The profile starts disabled: drbd-reactor is not reloaded.
    pub start_disabled: bool,
}

/// A creation in progress: its phase, the node (or service) the current step is about, the
/// looks made at the sync so far, and the plan.
#[derive(Debug, Clone, Copy, PartialEq, Eq, Structural)]
pub struct CreateState {
    pub phase: CreatePhase,
    pub node: usize,
    pub attempt: u32,
    pub plan: CreatePlan,
}

/// How the last step went; a look at the sync gives the decision `sync_wait_step` made of it.
#[derive(Debug, Clone, Copy, PartialEq, Eq, Structural)]
pub enum CreateEvent {
    Succeeded,
    Failed,
    Sync(SyncWait),
}

/// What to run next. Every `WriteResourceFile` writes the one resource text generated for
/// the profile (`profile_resource_config` rendered by `render_drbd_resource`).
#[derive(Debug, Clone, Copy, PartialEq, Eq, Structural)]
pub enum CreateAction {
    CreateLvmVolume(usize),
    CreateZfsVolume(usize),
    WriteResourceFile(usize),
    InitializeDrbd,
    WriteMountUnit,
    PromoteForSetup,
    FormatDevice,
    MakeMountPoint,
    MountForSetup,
    UnmountAfterSetup,
    DemoteAfterSetup,
    StopServiceForMigration(usize),
    MigrateData,
    DemoteRemote(usize),
    CheckSync,
    WriteOverrides,
    WritePromoterFile,
    DisableServices,
    SyncNode(usize),
    ReloadReactor,
    Finish,
    Abort(CreateFailure),
}

/// The plan of a creation, from the request: the node, remote node and service counts,
/// whether new volumes are made and of which kind, whether the profile is generic, has a
/// Filesystem agent of its own, mounts by the OCF strategy, migrates its data, disables its
/// services and starts disabled.
pub open spec fn spec_create_plan(
    nodes: usize,
    sync_targets: usize,
    services: usize,
    new_resource: bool,
    zfs: bool,
    generic: bool,
    manual_filesystem_agent: bool,
    ocf_mount: bool,
    migrate: bool,
    disable_services: bool,
    start_disabled: bool,
) -> CreatePlan {
    CreatePlan {
        nodes,
        sync_targets,
        services,
        new_resource,
        zfs,
        mount_unit: generic && !manual_filesystem_agent && !ocf_mount,
        setup_storage: generic && new_resource && !migrate,
        migrate: generic && migrate,
        disable_services: disable_services && services > 0,
        start_disabled,
    }
}

/// A state whose per-node or per-service step names an existing one, and whose sync looks
/// are within their bound.
pub open spec fn create_state_wf(s: CreateState) -> bool {
    &&& (s.phase == CreatePhase::Volumes || s.phase == CreatePhase::ResourceFiles) ==> s.node < s.plan.nodes
    &&& s.phase == CreatePhase::SyncNodes ==> s.node < s.plan.sync_targets
    &&& s.phase == CreatePhase::DemoteRemote ==> s.node < s.plan.sync_targets
    &&& s.phase == CreatePhase::StopForMigration ==> s.node < s.plan.services
    &&& s.attempt < MAX_SYNC_ATTEMPTS
}

/// `s` moved to `phase` at `node`, with no sync looks yet.
pub open spec fn at(s: CreateState, phase: CreatePhase, node: int) -> CreateState {
    CreateState { phase, node: node as usize, attempt: 0, ..s }
}

/// A stop for `f`.
pub open spec fn abort(s: CreateState, f: CreateFailure) -> (CreateState, CreateAction) {
    (at(s, CreatePhase::Failed, 0), CreateAction::Abort(f))
}

/// The end of a creation.
pub open spec fn create_done(s: CreateState) -> (CreateState, CreateAction) {
    (at(s, CreatePhase::Done, 0), CreateAction::Finish)
}

/// From the reload on.
pub open spec fn from_reload(s: CreateState) -> (CreateState, CreateAction) {
    if !s.plan.start_disabled {
        (at(s, CreatePhase::Reload, 0), CreateAction::ReloadReactor)
    } else {
        create_done(s)
    }
}

/// From the copy to remote node `k` on.
pub open spec fn from_sync(s: CreateState, k: int) -> (CreateState, CreateAction) {
    if 0 <= k < s.plan.sync_targets {
        (at(s, CreatePhase::SyncNodes, k), CreateAction::SyncNode(k as usize))
    } else {
        from_reload(s)
    }
}

/// From disabling the services on.
pub open spec fn from_disable(s: CreateState) -> (CreateState, CreateAction) {
    if s.plan.disable_services {
        (at(s, CreatePhase::DisableServices, 0), CreateAction::DisableServices)
    } else {
        from_sync(s, 0)
    }
}

/// From writing the promoter file on.
pub open spec fn from_promoter(s: CreateState) -> (CreateState, CreateAction) {
    (at(s, CreatePhase::PromoterFile, 0), CreateAction::WritePromoterFile)
}

/// From the service overrides on: written where a mount unit was.
pub open spec fn from_overrides(s: CreateState) -> (CreateState, CreateAction) {
    if s.plan.mount_unit {
        (at(s, CreatePhase::Overrides, 0), CreateAction::WriteOverrides)
    } else {
        from_promoter(s)
    }
}

/// From making remote node `k` secondary on; then the sync is watched.
pub open spec fn from_demote_remote(s: CreateState, k: int) -> (CreateState, CreateAction) {
    if 0 <= k < s.plan.sync_targets {
        (at(s, CreatePhase::DemoteRemote, k), CreateAction::DemoteRemote(k as usize))
    } else {
        (at(s, CreatePhase::WaitSync, 0), CreateAction::CheckSync)
    }
}

/// From stopping service `k` for the migration on; then the data is migrated.
pub open spec fn from_stop_for_migration(s: CreateState, k: int) -> (CreateState, CreateAction) {
    if 0 <= k < s.plan.services {
        (at(s, CreatePhase::StopForMigration, k), CreateAction::StopServiceForMigration(k as usize))
    } else {
        (at(s, CreatePhase::MigrateData, 0), CreateAction::MigrateData)
    }
}

/// From the migration on, where one is asked for.
pub open spec fn from_migration(s: CreateState) -> (CreateState, CreateAction) {
    if s.plan.migrate {
        from_stop_for_migration(s, 0)
    } else {
        from_overrides(s)
    }
}

/// From laying down the filesystem on, where that is done now.
pub open spec fn from_setup(s: CreateState) -> (CreateState, CreateAction) {
    if s.plan.setup_storage {
        (at(s, CreatePhase::PromoteForSetup, 0), CreateAction::PromoteForSetup)
    } else {
        from_migration(s)
    }
}

/// From the mount unit on.
pub open spec fn from_mount_unit(s: CreateState) -> (CreateState, CreateAction) {
    if s.plan.mount_unit {
        (at(s, CreatePhase::MountUnit, 0), CreateAction::WriteMountUnit)
    } else {
        from_setup(s)
    }
}

/// From initialising the resource on.
pub open spec fn from_init(s: CreateState) -> (CreateState, CreateAction) {
    if s.plan.new_resource {
        (at(s, CreatePhase::InitDrbd, 0), CreateAction::InitializeDrbd)
    } else {
        from_mount_unit(s)
    }
}

/// From writing the resource file of node `k` on.
pub open spec fn from_files(s: CreateState, k: int) -> (CreateState, CreateAction) {
    if s.plan.new_resource && 0 <= k < s.plan.nodes {
        (at(s, CreatePhase::ResourceFiles, k), CreateAction::WriteResourceFile(k as usize))
    } else {
        from_init(s)
    }
}

/// From creating the volume of node `k` on.
pub open spec fn from_volumes(s: CreateState, k: int) -> (CreateState, CreateAction) {
    if s.plan.new_resource && 0 <= k < s.plan.nodes {
        (at(s, CreatePhase::Volumes, k), if s.plan.zfs {
            CreateAction::CreateZfsVolume(k as usize)
        } else {
            CreateAction::CreateLvmVolume(k as usize)
        })
    } else {
        from_files(s, 0)
    }
}

/// The step after `s`, given how its step went. The volumes, the resource files, the
/// resource's initialisation, the mount unit, laying down the filesystem, the migration,
/// the overrides and the promoter file must succeed: a failure there aborts the creation.
/// Stopping services for the migration, making remote nodes secondary, disabling services,
/// copying files and reloading go on whatever happened. The sync of migrated data is looked
/// at until the local side is ready or the resource is synced, and times out.
pub open spec fn spec_create_step(s: CreateState, e: CreateEvent) -> (CreateState, CreateAction) {
    let failed = e == CreateEvent::Failed;
    let step_failed = abort(s, CreateFailure::Step);
    match s.phase {
        CreatePhase::Start => from_volumes(s, 0),
        CreatePhase::Volumes => if failed { step_failed } else { from_volumes(s, s.node + 1) },
        CreatePhase::ResourceFiles => if failed { step_failed } else { from_files(s, s.node + 1) },
        CreatePhase::InitDrbd => if failed { step_failed } else { from_mount_unit(s) },
        CreatePhase::MountUnit => if failed { step_failed } else { from_setup(s) },
        CreatePhase::PromoteForSetup => if failed {
            step_failed
        } else {
            (at(s, CreatePhase::FormatDevice, 0), CreateAction::FormatDevice)
        },
        CreatePhase::FormatDevice => if failed {
            step_failed
        } else {
            (at(s, CreatePhase::MakeMountPoint, 0), CreateAction::MakeMountPoint)
        },
        CreatePhase::MakeMountPoint => if failed {
            step_failed
        } else {
            (at(s, CreatePhase::MountForSetup, 0), CreateAction::MountForSetup)
        },
        CreatePhase::MountForSetup => if failed {
            step_failed
        } else {
            (at(s, CreatePhase::UnmountAfterSetup, 0), CreateAction::UnmountAfterSetup)
        },
        CreatePhase::UnmountAfterSetup => if failed {
            step_failed
        } else {
            (at(s, CreatePhase::DemoteAfterSetup, 0), CreateAction::DemoteAfterSetup)
        },
        CreatePhase::DemoteAfterSetup => if failed { step_failed } else { from_migration(s) },
        CreatePhase::StopForMigration => from_stop_for_migration(s, s.node + 1),
        CreatePhase::MigrateData => if failed {
            abort(s, CreateFailure::Migration)
        } else {
            from_demote_remote(s, 0)
        },
        CreatePhase::DemoteRemote => from_demote_remote(s, s.node + 1),
        CreatePhase::WaitSync => match e {
            CreateEvent::Sync(SyncWait::ProceedInBackground) => from_overrides(s),
            CreateEvent::Sync(SyncWait::Done) => from_overrides(s),
            CreateEvent::Sync(SyncWait::TimedOut) => abort(s, CreateFailure::SyncTimeout),
            _ => if s.attempt + 1 < MAX_SYNC_ATTEMPTS {
                (CreateState { attempt: (s.attempt + 1) as u32, ..s }, CreateAction::CheckSync)
            } else {
                abort(s, CreateFailure::SyncTimeout)
            },
        },
        CreatePhase::Overrides => if failed { step_failed } else { from_promoter(s) },
        CreatePhase::PromoterFile => if failed { step_failed } else { from_disable(s) },
        CreatePhase::DisableServices => from_sync(s, 0),
        CreatePhase::SyncNodes => from_sync(s, s.node + 1),
        CreatePhase::Reload => create_done(s),
        CreatePhase::Done => create_done(s),
        CreatePhase::Failed => (s, CreateAction::Abort(CreateFailure::Step)),
    }
}

/// The state a creation starts in, with the plan the request asks for.
pub fn create_start(
    nodes: usize,
    sync_targets: usize,
    services: usize,
    new_resource: bool,
    zfs: bool,
    generic: bool,
    manual_filesystem_agent: bool,
    ocf_mount: bool,
    migrate: bool,
    disable_services: bool,
    start_disabled: bool,
) -> (s: CreateState)
    ensures
        s == (CreateState {
            phase: CreatePhase::Start,
            node: 0,
            attempt: 0,
            plan: spec_create_plan(
                nodes,
                sync_targets,
                services,
                new_resource,
                zfs,
                generic,
                manual_filesystem_agent,
                ocf_mount,
                migrate,
                disable_services,
                start_disabled,
            ),
        }),
        create_state_wf(s),
{
    CreateState {
        phase: CreatePhase::Start,
        node: 0,
        attempt: 0,
        plan: CreatePlan {
            nodes,
            sync_targets,
            services,
            new_resource,
            zfs,
            mount_unit: generic && !manual_filesystem_agent && !ocf_mount,
            setup_storage: generic && new_resource && !migrate,
            migrate: generic && migrate,
            disable_services: disable_services && services > 0,
            start_disabled,
        },
    }
}

fn with_phase(s: &CreateState, phase: CreatePhase, node: usize) -> (r: CreateState)
    ensures
        r == at(*s, phase, node as int),
{
    CreateState { phase, node, attempt: 0, ..*s }
}

fn exec_abort(s: &CreateState, f: CreateFailure) -> (r: (CreateState, CreateAction))
    ensures
        r == abort(*s, f),
{
    (with_phase(s, CreatePhase::Failed, 0), CreateAction::Abort(f))
}

fn exec_done(s: &CreateState) -> (r: (CreateState, CreateAction))
    ensures
        r == create_done(*s),
{
    (with_phase(s, CreatePhase::Done, 0), CreateAction::Finish)
}

fn exec_from_reload(s: &CreateState) -> (r: (CreateState, CreateAction))
    ensures
        r == from_reload(*s),
{
    if !s.plan.start_disabled {
        (with_phase(s, CreatePhase::Reload, 0), CreateAction::ReloadReactor)
    } else {
        exec_done(s)
    }
}

fn exec_from_sync(s: &CreateState, k: usize) -> (r: (CreateState, CreateAction))
    ensures
        r == from_sync(*s, k as int),
{
    if k < s.plan.sync_targets {
        (with_phase(s, CreatePhase::SyncNodes, k), CreateAction::SyncNode(k))
    } else {
        exec_from_reload(s)
    }
}

fn exec_from_disable(s: &CreateState) -> (r: (CreateState, CreateAction))
    ensures
        r == from_disable(*s),
{
    if s.plan.disable_services {
        (with_phase(s, CreatePhase::DisableServices, 0), CreateAction::DisableServices)
    } else {
        exec_from_sync(s, 0)
    }
}

fn exec_from_promoter(s: &CreateState) -> (r: (CreateState, CreateAction))
    ensures
        r == from_promoter(*s),
{
    (with_phase(s, CreatePhase::PromoterFile, 0), CreateAction::WritePromoterFile)
}

fn exec_from_overrides(s: &CreateState) -> (r: (CreateState, CreateAction))
    ensures
        r == from_overrides(*s),
{
    if s.plan.mount_unit {
        (with_phase(s, CreatePhase::Overrides, 0), CreateAction::WriteOverrides)
    } else {
        exec_from_promoter(s)
    }
}

fn exec_from_demote_remote(s: &CreateState, k: usize) -> (r: (CreateState, CreateAction))
    ensures
        r == from_demote_remote(*s, k as int),
{
    if k < s.plan.sync_targets {
        (with_phase(s, CreatePhase::DemoteRemote, k), CreateAction::DemoteRemote(k))
    } else {
        (with_phase(s, CreatePhase::WaitSync, 0), CreateAction::CheckSync)
    }
}

fn exec_from_stop_for_migration(s: &CreateState, k: usize) -> (r: (CreateState, CreateAction))
    ensures
        r == from_stop_for_migration(*s, k as int),
{
    if k < s.plan.services {
        (with_phase(s, CreatePhase::StopForMigration, k), CreateAction::StopServiceForMigration(k))
    } else {
        (with_phase(s, CreatePhase::MigrateData, 0), CreateAction::MigrateData)
    }
}

fn exec_from_migration(s: &CreateState) -> (r: (CreateState, CreateAction))
    ensures
        r == from_migration(*s),
{
    if s.plan.migrate {
        exec_from_stop_for_migration(s, 0)
    } else {
        exec_from_overrides(s)
    }
}

fn exec_from_setup(s: &CreateState) -> (r: (CreateState, CreateAction))
    ensures
        r == from_setup(*s),
{
    if s.plan.setup_storage {
        (with_phase(s, CreatePhase::PromoteForSetup, 0), CreateAction::PromoteForSetup)
    } else {
        exec_from_migration(s)
    }
}

fn exec_from_mount_unit(s: &CreateState) -> (r: (CreateState, CreateAction))
    ensures
        r == from_mount_unit(*s),
{
    if s.plan.mount_unit {
        (with_phase(s, CreatePhase::MountUnit, 0), CreateAction::WriteMountUnit)
    } else {
        exec_from_setup(s)
    }
}

fn exec_from_init(s: &CreateState) -> (r: (CreateState, CreateAction))
    ensures
        r == from_init(*s),
{
    if s.plan.new_resource {
        (with_phase(s, CreatePhase::InitDrbd, 0), CreateAction::InitializeDrbd)
    } else {
        exec_from_mount_unit(s)
    }
}

fn exec_from_files(s: &CreateState, k: usize) -> (r: (CreateState, CreateAction))
    ensures
        r == from_files(*s, k as int),
{
    if s.plan.new_resource && k < s.plan.nodes {
        (with_phase(s, CreatePhase::ResourceFiles, k), CreateAction::WriteResourceFile(k))
    } else {
        exec_from_init(s)
    }
}

fn exec_from_volumes(s: &CreateState, k: usize) -> (r: (CreateState, CreateAction))
    ensures
        r == from_volumes(*s, k as int),
{
    if s.plan.new_resource && k < s.plan.nodes {
        (with_phase(s, CreatePhase::Volumes, k), if s.plan.zfs {
            CreateAction::CreateZfsVolume(k)
        } else {
            CreateAction::CreateLvmVolume(k)
        })
    } else {
        exec_from_files(s, 0)
    }
}

/// Decides the next creation step from the current one and how it went.
#[verifier::spinoff_prover]
#[verifier::rlimit(60)]
pub fn create_step(state: &CreateState, event: &CreateEvent) -> (r: (CreateState, CreateAction))
    requires
        create_state_wf(*state),
    ensures
        r == spec_create_step(*state, *event),
        create_state_wf(r.0),
{
    let s = state;
    let failed = *event == CreateEvent::Failed;
    match s.phase {
        CreatePhase::Start => exec_from_volumes(s, 0),
        CreatePhase::Volumes => if failed { exec_abort(s, CreateFailure::Step) } else { exec_from_volumes(s, s.node + 1) },
        CreatePhase::ResourceFiles => if failed { exec_abort(s, CreateFailure::Step) } else { exec_from_files(s, s.node + 1) },
        CreatePhase::InitDrbd => if failed { exec_abort(s, CreateFailure::Step) } else { exec_from_mount_unit(s) },
        CreatePhase::MountUnit => if failed { exec_abort(s, CreateFailure::Step) } else { exec_from_setup(s) },
        CreatePhase::PromoteForSetup => if failed {
            exec_abort(s, CreateFailure::Step)
        } else {
            (with_phase(s, CreatePhase::FormatDevice, 0), CreateAction::FormatDevice)
        },
        CreatePhase::FormatDevice => if failed {
            exec_abort(s, CreateFailure::Step)
        } else {
            (with_phase(s, CreatePhase::MakeMountPoint, 0), CreateAction::MakeMountPoint)
        },
        CreatePhase::MakeMountPoint => if failed {
            exec_abort(s, CreateFailure::Step)
        } else {
            (with_phase(s, CreatePhase::MountForSetup, 0), CreateAction::MountForSetup)
        },
        CreatePhase::MountForSetup => if failed {
            exec_abort(s, CreateFailure::Step)
        } else {
            (with_phase(s, CreatePhase::UnmountAfterSetup, 0), CreateAction::UnmountAfterSetup)
        },
        CreatePhase::UnmountAfterSetup => if failed {
            exec_abort(s, CreateFailure::Step)
        } else {
            (with_phase(s, CreatePhase::DemoteAfterSetup, 0), CreateAction::DemoteAfterSetup)
        },
        CreatePhase::DemoteAfterSetup => if failed { exec_abort(s, CreateFailure::Step) } else { exec_from_migration(s) },
        CreatePhase::StopForMigration => exec_from_stop_for_migration(s, s.node + 1),
        CreatePhase::MigrateData => if failed {
            exec_abort(s, CreateFailure::Migration)
        } else {
            exec_from_demote_remote(s, 0)
        },
        CreatePhase::DemoteRemote => exec_from_demote_remote(s, s.node + 1),
        CreatePhase::WaitSync => match *event {
            CreateEvent::Sync(SyncWait::ProceedInBackground) => exec_from_overrides(s),
            CreateEvent::Sync(SyncWait::Done) => exec_from_overrides(s),
            CreateEvent::Sync(SyncWait::TimedOut) => exec_abort(s, CreateFailure::SyncTimeout),
            _ => if s.attempt + 1 < MAX_SYNC_ATTEMPTS {
                (CreateState { attempt: s.attempt + 1, ..*s }, CreateAction::CheckSync)
            } else {
                exec_abort(s, CreateFailure::SyncTimeout)
            },
        },
        CreatePhase::Overrides => if failed { exec_abort(s, CreateFailure::Step) } else { exec_from_promoter(s) },
        CreatePhase::PromoterFile => if failed { exec_abort(s, CreateFailure::Step) } else { exec_from_disable(s) },
        CreatePhase::DisableServices => exec_from_sync(s, 0),
        CreatePhase::SyncNodes => exec_from_sync(s, s.node + 1),
        CreatePhase::Reload => exec_done(s),
        CreatePhase::Done => exec_done(s),
        CreatePhase::Failed => (*s, CreateAction::Abort(CreateFailure::Step)),
    }
}

/// The error a stopped creation answers with: the failed step's error output, the migration
/// error, or the sync timeout of the resource.
pub fn create_error(failure: CreateFailure, resource: &str, detail: &str) -> (e: AppError)
    ensures
        match failure {
            CreateFailure::Step => e matches AppError::Internal(m) && m@ == detail@,
            CreateFailure::Migration => e matches AppError::Migration(m) && m@ == "Data migration failed: "@ + detail@,
            CreateFailure::SyncTimeout => e matches AppError::Timeout(m) && m@ == "DRBD sync timeout for resource "@
                + resource@ + " after "@ + crate::text::decimal(120) + " attempts ("@ + crate::text::decimal(10)
                + " minutes)"@,
        },
{
    match failure {
        CreateFailure::Step => AppError::Internal(detail.to_owned()),
        CreateFailure::Migration => {
            let mut m = "Data migration failed: ".to_owned();
            push_str(&mut m, detail);
            AppError::Migration(m)
        },
        CreateFailure::SyncTimeout => AppError::Timeout(sync_timeout_message(resource)),
    }
}

// ---------------------------------------------------------------------------
// Laws of the creation order
// ---------------------------------------------------------------------------

/// With a new resource, every cluster node gets the resource file, one after the other in
/// node order, once all volumes exist and before the resource is initialised: the step
/// after the volume of the last node is the file of node 0, the step after the file of node
/// `k` is the file of node `k + 1`, and after the last file comes the initialisation.
pub proof fn law_resource_file_on_every_node(s: CreateState, k: int)
    requires
        s.plan.new_resource,
        0 <= k < s.plan.nodes,
    ensures
        spec_create_step(at(s, CreatePhase::Volumes, s.plan.nodes - 1), CreateEvent::Succeeded).1
            == CreateAction::WriteResourceFile(0),
        spec_create_step(at(s, CreatePhase::ResourceFiles, k), CreateEvent::Succeeded).1 == (if k
            + 1 < s.plan.nodes {
            CreateAction::WriteResourceFile((k + 1) as usize)
        } else {
            CreateAction::InitializeDrbd
        }),
{
}

/// A failed volume, resource file, initialisation, mount unit, filesystem setup step,
/// override or promoter file ends the creation: the next step aborts, and so does every step
/// after it.
pub proof fn law_create_failure_aborts(s: CreateState, e: CreateEvent)
    requires
        s.phase == CreatePhase::Volumes || s.phase == CreatePhase::ResourceFiles || s.phase
            == CreatePhase::InitDrbd || s.phase == CreatePhase::MountUnit || s.phase
            == CreatePhase::PromoteForSetup || s.phase == CreatePhase::FormatDevice || s.phase
            == CreatePhase::MakeMountPoint || s.phase == CreatePhase::MountForSetup || s.phase
            == CreatePhase::UnmountAfterSetup || s.phase == CreatePhase::DemoteAfterSetup
            || s.phase == CreatePhase::Overrides || s.phase == CreatePhase::PromoterFile,
    ensures
        spec_create_step(s, CreateEvent::Failed).1 == CreateAction::Abort(CreateFailure::Step),
        spec_create_step(spec_create_step(s, CreateEvent::Failed).0, e).1 is Abort,
{
}

/// Managed services are disabled before drbd-reactor takes the profile over: when asked
/// for, disabling them comes right after the promoter file is written.
pub proof fn law_services_disabled_after_promoter(s: CreateState)
    requires
        s.plan.disable_services,
    ensures
        spec_create_step(at(s, CreatePhase::PromoterFile, 0), CreateEvent::Succeeded).1
            == CreateAction::DisableServices,
{
}

/// A new resource of a generic profile gets its filesystem before drbd-reactor is told of
/// it: once the resource is up (and its mount unit written), it is promoted, formatted,
/// mounted, unmounted and demoted in that order, and only then does the creation go on to
/// the overrides or the promoter file.
pub proof fn law_filesystem_laid_down_first(s: CreateState)
    requires
        s.plan.setup_storage,
        !s.plan.migrate,
    ensures
        spec_create_step(at(s, CreatePhase::InitDrbd, 0), CreateEvent::Succeeded).1 == (if s.plan.mount_unit {
            CreateAction::WriteMountUnit
        } else {
            CreateAction::PromoteForSetup
        }),
        spec_create_step(at(s, CreatePhase::MountUnit, 0), CreateEvent::Succeeded).1 == CreateAction::PromoteForSetup,
        spec_create_step(at(s, CreatePhase::PromoteForSetup, 0), CreateEvent::Succeeded).1 == CreateAction::FormatDevice,
        spec_create_step(at(s, CreatePhase::FormatDevice, 0), CreateEvent::Succeeded).1 == CreateAction::MakeMountPoint,
        spec_create_step(at(s, CreatePhase::MakeMountPoint, 0), CreateEvent::Succeeded).1 == CreateAction::MountForSetup,
        spec_create_step(at(s, CreatePhase::MountForSetup, 0), CreateEvent::Succeeded).1
            == CreateAction::UnmountAfterSetup,
        spec_create_step(at(s, CreatePhase::UnmountAfterSetup, 0), CreateEvent::Succeeded).1
            == CreateAction::DemoteAfterSetup,
        spec_create_step(at(s, CreatePhase::DemoteAfterSetup, 0), CreateEvent::Succeeded).1 == (if s.plan.mount_unit {
            CreateAction::WriteOverrides
        } else {
            CreateAction::WritePromoterFile
        }),
{
}

/// A failed migration ends the creation with the migration error, and the sync of migrated
/// data is never waited on past its last look.
pub proof fn law_migration_failure_and_sync_timeout(s: CreateState, e: CreateEvent)
    requires
        create_state_wf(s),
    ensures
        spec_create_step(at(s, CreatePhase::MigrateData, 0), CreateEvent::Failed).1
            == CreateAction::Abort(CreateFailure::Migration),
        (s.phase == CreatePhase::WaitSync && s.attempt + 1 >= MAX_SYNC_ATTEMPTS && e != CreateEvent::Sync(
            SyncWait::ProceedInBackground,
        ) && e != CreateEvent::Sync(SyncWait::Done)) ==> spec_create_step(s, e).1 == CreateAction::Abort(
            CreateFailure::SyncTimeout,
        ),
{
}

/// Data migration never lays down a new filesystem: when data is migrated, the creation
/// goes from the mount unit straight to stopping the services and migrating.
pub proof fn law_migration_skips_formatting(s: CreateState)
    requires
        s.plan.migrate,
        !s.plan.setup_storage,
        s.plan.mount_unit,
    ensures
        spec_create_step(at(s, CreatePhase::MountUnit, 0), CreateEvent::Succeeded).1 == (if s.plan.services > 0 {
            CreateAction::StopServiceForMigration(0)
        } else {
            CreateAction::MigrateData
        }),
{
}

/// Every remote node receives the generated files before drbd-reactor is reloaded: the copy
/// to remote node `k` is followed by the copy to node `k + 1` while there is one, then by the
/// reload (or the end, for a profile that starts disabled), whatever the copy gave. The
/// copies start at node 0 right after the promoter file (and the disabling of services,
/// where asked for).
pub proof fn law_every_remote_node_synced(s: CreateState, e: CreateEvent, k: usize)
    requires
        s.node == k,
    ensures
        (s.phase == CreatePhase::SyncNodes && k + 1 < s.plan.sync_targets) ==> spec_create_step(s, e).1
            == CreateAction::SyncNode((k + 1) as usize) && spec_create_step(s, e).0.node == k + 1,
        (s.phase == CreatePhase::SyncNodes && k + 1 >= s.plan.sync_targets) ==> spec_create_step(s, e).1 == (if s.plan.start_disabled {
            CreateAction::Finish
        } else {
            CreateAction::ReloadReactor
        }),
        (s.phase == CreatePhase::PromoterFile && e == CreateEvent::Succeeded && !s.plan.disable_services
            && s.plan.sync_targets > 0) ==> spec_create_step(s, e).1 == CreateAction::SyncNode(0),
        (s.phase == CreatePhase::DisableServices && s.plan.sync_targets > 0) ==> spec_create_step(s, e).1
            == CreateAction::SyncNode(0),
        s.phase == CreatePhase::Reload ==> spec_create_step(s, e).1 == CreateAction::Finish,
{
}

/// The other per-node and per-service steps go through every node or service in order: the
/// volume of node `k` is followed by the volume of node `k + 1` (of the kind asked for), the
/// stop of service `k` before a migration by the stop of service `k + 1` (then the migration),
/// and making remote node `k` secondary by remote node `k + 1` (then the sync is watched);
/// stops and demotions go on whatever they gave.
pub proof fn law_creation_goes_through_every_node(s: CreateState, e: CreateEvent, k: usize)
    requires
        s.node == k,
    ensures
        (s.phase == CreatePhase::Volumes && e == CreateEvent::Succeeded && s.plan.new_resource && k + 1
            < s.plan.nodes) ==> spec_create_step(s, e).1 == (if s.plan.zfs {
            CreateAction::CreateZfsVolume((k + 1) as usize)
        } else {
            CreateAction::CreateLvmVolume((k + 1) as usize)
        }),
        (s.phase == CreatePhase::StopForMigration) ==> spec_create_step(s, e).1 == (if k + 1 < s.plan.services {
            CreateAction::StopServiceForMigration((k + 1) as usize)
        } else {
            CreateAction::MigrateData
        }),
        (s.phase == CreatePhase::DemoteRemote) ==> spec_create_step(s, e).1 == (if k + 1 < s.plan.sync_targets {
            CreateAction::DemoteRemote((k + 1) as usize)
        } else {
            CreateAction::CheckSync
        }),
        (s.phase == CreatePhase::Start && s.plan.new_resource && s.plan.nodes > 0) ==> spec_create_step(s, e).1 == (if s.plan.zfs {
            CreateAction::CreateZfsVolume(0)
        } else {
            CreateAction::CreateLvmVolume(0)
        }),
        (s.phase == CreatePhase::MigrateData && e == CreateEvent::Succeeded && s.plan.sync_targets > 0)
            ==> spec_create_step(s, e).1 == CreateAction::DemoteRemote(0),
{
}

} // verus!
