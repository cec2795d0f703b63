use drbd_ha::activation_flow::{
    activation_answer, activation_start, activation_step, deactivation_answer, deactivation_start, deactivation_step,
    ActivationAction, CommandOutcome, ControlAnswer, ControlFailure, DeactivationAction,
};
use drbd_ha::create_flow::{create_error, create_start, create_step, CreateAction, CreateEvent, CreateFailure};
use drbd_ha::nodes::AppError;
use drbd_ha::profile_create::{
    mount_unit_name, mount_unit_text, override_path, override_text, unit_file_path, SyncWait,
};
use drbd_ha::details_flow::{details_start, details_step, DetailsAction, DetailsEvent};

fn ok(out: &str) -> CommandOutcome {
    CommandOutcome { success: true, stdout: out.to_string(), stderr: String::new() }
}

fn failed(err: &str) -> CommandOutcome {
    CommandOutcome { success: false, stdout: String::new(), stderr: err.to_string() }
}

#[test]
fn creation_order_with_all_steps_succeeding() {
    // two nodes, one remote, one service, new LVM volumes, generic profile with a mount unit
    let mut state = create_start(2, 1, 1, true, false, true, false, false, false, true, false);
    let mut actions = Vec::new();
    loop {
        let (next, action) = create_step(&state, &CreateEvent::Succeeded);
        actions.push(action);
        state = next;
        if action == CreateAction::Finish || actions.len() > 50 {
            break;
        }
    }
    assert_eq!(
        actions,
        vec![
            CreateAction::CreateLvmVolume(0),
            CreateAction::CreateLvmVolume(1),
            CreateAction::WriteResourceFile(0),
            CreateAction::WriteResourceFile(1),
            CreateAction::InitializeDrbd,
            CreateAction::WriteMountUnit,
            CreateAction::PromoteForSetup,
            CreateAction::FormatDevice,
            CreateAction::MakeMountPoint,
            CreateAction::MountForSetup,
            CreateAction::UnmountAfterSetup,
            CreateAction::DemoteAfterSetup,
            CreateAction::WriteOverrides,
            CreateAction::WritePromoterFile,
            CreateAction::DisableServices,
            CreateAction::SyncNode(0),
            CreateAction::ReloadReactor,
            CreateAction::Finish,
        ]
    );
}

#[test]
fn creation_aborts_on_a_failed_resource_file_and_skips_what_was_not_asked() {
    let s = create_start(2, 0, 0, true, true, true, false, true, false, false, true);
    let (s, a) = create_step(&s, &CreateEvent::Succeeded);
    assert_eq!(a, CreateAction::CreateZfsVolume(0));
    let (s, _) = create_step(&s, &CreateEvent::Succeeded);
    let (s, a) = create_step(&s, &CreateEvent::Succeeded);
    assert_eq!(a, CreateAction::WriteResourceFile(0));
    let (_, a) = create_step(&s, &CreateEvent::Failed);
    assert_eq!(a, CreateAction::Abort(CreateFailure::Step));
    let s = create_start(3, 0, 0, false, false, true, true, false, false, false, true);
    let (s, a) = create_step(&s, &CreateEvent::Succeeded);
    assert_eq!(a, CreateAction::WritePromoterFile);
    let (_, a) = create_step(&s, &CreateEvent::Succeeded);
    assert_eq!(a, CreateAction::Finish);
}

#[test]
fn creation_with_migration_waits_for_the_sync() {
    let s = create_start(2, 1, 1, true, false, true, false, false, true, false, false);
    let mut s = s;
    let mut seen = Vec::new();
    for _ in 0..6 {
        let (n, a) = create_step(&s, &CreateEvent::Succeeded);
        s = n;
        seen.push(a);
    }
    assert_eq!(
        seen,
        vec![
            CreateAction::CreateLvmVolume(0),
            CreateAction::CreateLvmVolume(1),
            CreateAction::WriteResourceFile(0),
            CreateAction::WriteResourceFile(1),
            CreateAction::InitializeDrbd,
            CreateAction::WriteMountUnit,
        ]
    );
    let (s, a) = create_step(&s, &CreateEvent::Succeeded);
    assert_eq!(a, CreateAction::StopServiceForMigration(0));
    let (s, a) = create_step(&s, &CreateEvent::Failed);
    assert_eq!(a, CreateAction::MigrateData);
    let (s2, a) = create_step(&s, &CreateEvent::Failed);
    assert_eq!(a, CreateAction::Abort(CreateFailure::Migration));
    let _ = s2;
    let (s, a) = create_step(&s, &CreateEvent::Succeeded);
    assert_eq!(a, CreateAction::DemoteRemote(0));
    let (s, a) = create_step(&s, &CreateEvent::Failed);
    assert_eq!(a, CreateAction::CheckSync);
    let (s, a) = create_step(&s, &CreateEvent::Sync(SyncWait::Continue));
    assert_eq!(a, CreateAction::CheckSync);
    assert_eq!(s.attempt, 1);
    let (_, a) = create_step(&s, &CreateEvent::Sync(SyncWait::TimedOut));
    assert_eq!(a, CreateAction::Abort(CreateFailure::SyncTimeout));
    let (_, a) = create_step(&s, &CreateEvent::Sync(SyncWait::ProceedInBackground));
    assert_eq!(a, CreateAction::WriteOverrides);
    match create_error(CreateFailure::Migration, "r0", "no space") {
        AppError::Migration(m) => assert_eq!(m, "Data migration failed: no space"),
        _ => panic!("expected a migration error"),
    }
    match create_error(CreateFailure::SyncTimeout, "r0", "") {
        AppError::Timeout(m) => assert_eq!(m, "DRBD sync timeout for resource r0 after 120 attempts (10 minutes)"),
        _ => panic!("expected a timeout"),
    }
}

#[test]
fn mount_unit_and_overrides() {
    assert_eq!(mount_unit_name("/var/lib/pg"), "var-lib-pg.mount");
    assert_eq!(unit_file_path("var-lib-pg.mount"), "/etc/systemd/system/var-lib-pg.mount");
    assert_eq!(
        mount_unit_text("pg", "/dev/drbd10", "/var/lib/pg", "xfs"),
        "[Unit]\nDescription=DRBD HA mount for pg\n\n[Mount]\nWhat=/dev/drbd10\nWhere=/var/lib/pg\nType=xfs\n"
    );
    assert_eq!(override_path("postgresql.service"), "/etc/systemd/system/postgresql.service.d/ha-override.conf");
    assert_eq!(override_text("var-lib-pg.mount"), "[Unit]\nRequires=var-lib-pg.mount\nAfter=var-lib-pg.mount\n");
}

#[test]
fn activation_of_a_fresh_resource() {
    let others = vec!["b".to_string()];
    let mut s = activation_start();
    let steps: Vec<(CommandOutcome, ActivationAction)> = vec![
        (failed("No valid meta data found"), ActivationAction::CreateMetadata),
        (ok(""), ActivationAction::RetryUp),
        (ok(""), ActivationAction::ReadStatus),
        (ok("r role:Secondary\n  disk:Inconsistent\n"), ActivationAction::ReadRole),
        (ok("r role:Secondary\n"), ActivationAction::Promote),
        (failed("Need access to UpToDate data"), ActivationAction::SkipInitialSync),
        (ok(""), ActivationAction::ForcePromote),
        (ok(""), ActivationAction::CheckReady(false)),
        (ok("r role:Primary\n  disk:UpToDate\n"), ActivationAction::CheckSync(false)),
        (ok("r role:Primary\n  disk:UpToDate\n"), ActivationAction::CheckDevice(0)),
        (ok(""), ActivationAction::CheckDevice(1)),
        (ok("exists\n"), ActivationAction::ProbeFilesystem(1)),
        (ok("\n"), ActivationAction::ReadRoleForFormat),
        (ok("r role:Primary\n"), ActivationAction::CheckMarker),
        (ok(""), ActivationAction::Format),
        (ok(""), ActivationAction::MarkActivated),
        (ok(""), ActivationAction::Mount),
        (ok(""), ActivationAction::TestWrite),
        (ok(""), ActivationAction::CheckReactor),
        (ok("Promoter: Currently active on this node"), ActivationAction::EnableService(0)),
        (ok(""), ActivationAction::StartService(0)),
        (ok(""), ActivationAction::Reload),
        (ok(""), ActivationAction::Activated),
    ];
    for (outcome, expected) in steps {
        let (next, action) = activation_step(&s, &outcome, "a", &others, 1);
        assert_eq!(action, expected);
        s = next;
    }
    assert_eq!(s.device, 1);
}

#[test]
fn activation_stops_where_it_must() {
    let others = vec!["a".to_string()];
    let s = activation_start();
    let (s, _) = activation_step(&s, &ok(""), "b", &others, 0);
    let (s, _) = activation_step(&s, &ok(""), "b", &others, 0);
    let (s, a) = activation_step(&s, &ok("r role:Secondary\n"), "b", &others, 0);
    assert_eq!(a, ActivationAction::Promote);
    let (_, a) = activation_step(&s, &failed("busy"), "b", &others, 0);
    assert_eq!(a, ActivationAction::Fail(ControlFailure::Promote));
    let mut s = activation_start();
    for out in [ok(""), ok(""), ok("r role:Primary\n")] {
        s = activation_step(&s, &out, "b", &others, 0).0;
    }
    assert_eq!(s.pending, ActivationAction::CheckReady(false));
    for _ in 0..29 {
        s = activation_step(&s, &ok("r role:Primary\n  disk:Diskless\n"), "b", &others, 0).0;
        assert_eq!(s.pending, ActivationAction::CheckReady(true));
    }
    let (_, a) = activation_step(&s, &ok("r role:Primary\n  disk:Diskless\n"), "b", &others, 0);
    assert_eq!(a, ActivationAction::Fail(ControlFailure::NotReady));
}

#[test]
fn deactivation_order() {
    let mut a = deactivation_start(2);
    let mut seen = vec![a];
    let outcomes = [true, true, true, false, true, false, true, false, true, true, true, true, true];
    for success in outcomes {
        a = deactivation_step(&a, success, 2);
        seen.push(a);
        if a == DeactivationAction::Deactivated {
            break;
        }
    }
    assert_eq!(
        seen,
        vec![
            DeactivationAction::StopService(1),
            DeactivationAction::StopService(0),
            DeactivationAction::KillHolders,
            DeactivationAction::Unmount(1),
            DeactivationAction::KillHoldersAgain(1),
            DeactivationAction::Unmount(2),
            DeactivationAction::KillHoldersAgain(2),
            DeactivationAction::Unmount(3),
            DeactivationAction::LazyUnmount,
            DeactivationAction::Demote,
            DeactivationAction::BringDown,
            DeactivationAction::RemoveConfig,
            DeactivationAction::Reload,
            DeactivationAction::Deactivated,
        ]
    );
    assert_eq!(deactivation_step(&DeactivationAction::Demote, false, 0), DeactivationAction::Fail(ControlFailure::Demote));
}

#[test]
fn details_queries() {
    let yes = DetailsEvent { ran: true, flag: true };
    let no = DetailsEvent { ran: true, flag: false };
    let a = details_start();
    assert_eq!(details_step(&a, &no, true, 2), DetailsAction::CheckRemoteEnabled(0));
    assert_eq!(details_step(&DetailsAction::CheckRemoteEnabled(0), &no, true, 2), DetailsAction::CheckRemoteEnabled(1));
    assert_eq!(details_step(&DetailsAction::CheckRemoteEnabled(1), &no, true, 2), DetailsAction::Disabled);
    assert_eq!(details_step(&DetailsAction::CheckRemoteEnabled(1), &yes, true, 2), DetailsAction::ReadDrbdStatus);
    assert_eq!(details_step(&a, &yes, true, 2), DetailsAction::ReadDrbdStatus);
    assert_eq!(details_step(&DetailsAction::ReadResourceFile, &yes, false, 2), DetailsAction::QueryRemote);
    let failed = DetailsEvent { ran: false, flag: false };
    assert_eq!(details_step(&DetailsAction::QueryRemote, &failed, false, 2), DetailsAction::QueryLocal);
    assert_eq!(details_step(&DetailsAction::QueryLocal, &no, false, 2), DetailsAction::Assemble);
}

#[test]
fn finished_controls_answer_with_the_profile_status() {
    assert_eq!(activation_answer(&ActivationAction::Activated), Some(ControlAnswer::ProfileStatus));
    assert_eq!(activation_answer(&ActivationAction::LeftToReactor), Some(ControlAnswer::ProfileStatus));
    assert_eq!(
        activation_answer(&ActivationAction::Fail(ControlFailure::Promote)),
        Some(ControlAnswer::Failed(ControlFailure::Promote))
    );
    assert_eq!(activation_answer(&ActivationAction::Mount), None);
    assert_eq!(deactivation_answer(&DeactivationAction::Deactivated), Some(ControlAnswer::ProfileStatus));
    assert_eq!(
        deactivation_answer(&DeactivationAction::Fail(ControlFailure::Demote)),
        Some(ControlAnswer::Failed(ControlFailure::Demote))
    );
    assert_eq!(deactivation_answer(&DeactivationAction::Unmount(2)), None);
}

#[test]
fn unmanaged_services_are_started_in_order() {
    let others: Vec<String> = vec![];
    let mut s = activation_start();
    let trail = [ok(""), ok(""), ok("r role:Primary\n"), ok("r role:Primary\n  disk:UpToDate\n"), ok("")];
    for o in trail.iter() {
        s = activation_step(&s, o, "a", &others, 2).0;
    }
    assert_eq!(s.pending, ActivationAction::CheckDevice(0));
    for o in [ok("exists\n"), ok("xfs\n"), ok(""), ok(""), failed("")] {
        s = activation_step(&s, &o, "a", &others, 2).0;
    }
    assert_eq!(s.pending, ActivationAction::StartService(0));
    let (s, a) = activation_step(&s, &ok(""), "a", &others, 2);
    assert_eq!(a, ActivationAction::StartService(1));
    let (_, a) = activation_step(&s, &failed("unit missing"), "a", &others, 2);
    assert_eq!(a, ActivationAction::Fail(ControlFailure::StartService));
}
