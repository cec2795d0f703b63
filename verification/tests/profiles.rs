use drbd_ha::config_gen::NodeConfig;
use drbd_ha::create_flow::check_new_profile;
use drbd_ha::delete_flow::{deletion_plan, deletion_start, deletion_step, DeletionAction};
use drbd_ha::activation_flow::CommandOutcome;
use drbd_ha::nodes::{AppError, Node, NodeStatus};
use drbd_ha::option_map::OptionMap;
use drbd_ha::profile_control::{
    activation_mkfs_command, demote_failed, device_candidates, device_inaccessible, drbd_ready, format_failed,
    formats_here, is_primary, promote_step, reactor_manages, retry_up_outcome, sync_in_progress, umount_failed,
    umount_step, up_step, PromoteStep, UmountStep, UpStep,
};
use drbd_ha::profile_create::{
    complete_filesystem_agents, created_promoter_path, device_from_resource_config, join_messages,
    lvm_device_path, lvm_volume_name, profile_node_configs, profile_promoter_config, profile_resource_config,
    reload_report, reuse_existing_volume, sync_timeout_message, sync_wait_step, zfs_device_path, SyncWait,
};
use drbd_ha::profile_delete::{
    deletion_problems, primary_location, remote_cleanup_commands, with_sudo, DeletionFindings,
};
use drbd_ha::profile_status::HaProfileStatus;
use drbd_ha::profile_toml::{
    start_array_response, start_array_sync_targets, sync_toml_response, toml_not_found, update_profile_toml,
    validate_toml_content, ConfiguredNode, UpdateTomlRequest,
};
use drbd_ha::profiles::{
    DeleteProfileQuery, disabled_promoter_path, listed_state, GeneratedUnits, HaOcfAgent, HaProfile, HaType, MountStrategy,
    PromoterSettings, ReactorProfileState, ServiceOverride,
};
use drbd_ha::reactor_config::VipConfig;
use drbd_ha::vip::{add_vip_to_profile, remove_vip_from_profile, vip_change_response, AddVipRequest};

fn node(hostname: &str, ip: &str, user: &str, port: u16, is_local: bool) -> Node {
    Node {
        id: hostname.to_string(),
        hostname: hostname.to_string(),
        ip: ip.to_string(),
        ssh_port: port,
        ssh_user: user.to_string(),
        is_local,
        status: NodeStatus::Online,
        last_seen: None,
    }
}

fn message(e: &AppError) -> String {
    match e {
        AppError::NotFound(m)
        | AppError::Validation(m)
        | AppError::AlreadyExists(m)
        | AppError::Conflict(m)
        | AppError::Internal(m)
        | AppError::Drbd(m)
        | AppError::Config(m)
        | AppError::Timeout(m)
        | AppError::Migration(m)
        | AppError::Ssh(m) => m.clone(),
    }
}

fn profile() -> HaProfile {
    HaProfile {
        id: "db".to_string(),
        name: "db".to_string(),
        ha_type: HaType::Generic,
        resource_name: "db-data".to_string(),
        mount_point: "/var/lib/db".to_string(),
        fs_type: "xfs".to_string(),
        mount_strategy: MountStrategy::Systemd,
        vip: None,
        ocf_agents: vec![],
        promoter: PromoterSettings {
            services: vec!["db.service".to_string()],
            stop_on_demote: true,
            on_demote_failure: "continue".to_string(),
            preferred_nodes: Some(vec!["n1".to_string()]),
            preferred_nodes_policy: None,
            sleep_before_promote_factor: Some(2),
            dependencies_as: None,
            target_as: Some("Requires".to_string()),
            on_quorum_loss: None,
        },
        status: HaProfileStatus::Active,
        active_node: None,
        generated_units: GeneratedUnits::default(),
        is_builtin_plugin: false,
    }
}

// TOML files

#[test]
fn toml_content_is_checked_before_writing() {
    assert!(validate_toml_content("[[promoter]]\nx = 1\n").is_ok());
    let err = validate_toml_content("this is = = not toml").unwrap_err();
    match &err {
        AppError::Validation(m) => assert!(m.starts_with("Invalid TOML content: ") && m.len() > 22),
        _ => panic!("expected a validation error"),
    }
    let ok = update_profile_toml("db", &UpdateTomlRequest { content: "a = 1".to_string() }).unwrap();
    assert_eq!(ok.path, "/etc/drbd-reactor.d/db.toml");
    assert_eq!(ok.content, "a = 1");
    assert!(update_profile_toml("db", &UpdateTomlRequest { content: "a =".to_string() }).is_err());
}

#[test]
fn toml_answers() {
    assert_eq!(
        message(&toml_not_found("db", "/etc/drbd-reactor.d/db.toml")),
        "TOML configuration file not found for profile 'db': /etc/drbd-reactor.d/db.toml"
    );
    let r = sync_toml_response("db", vec!["n2".to_string()], 3);
    assert!(r.success);
    assert_eq!(r.message, "Successfully synced TOML configuration to 1/3 nodes");
    let r = sync_toml_response("db", vec![], 1);
    assert!(!r.success);
    assert_eq!(r.message, "No remote nodes to sync");
    let r = start_array_response("db", "c".to_string(), "p".to_string(), vec![], 1);
    assert_eq!(r.message, "Configuration saved (single-node cluster, no sync needed)");
    let r = start_array_response("db", "c".to_string(), "p".to_string(), vec![], 2);
    assert_eq!(r.message, "Configuration saved locally but no remote configured nodes to sync");
    let r = start_array_response("db", "c".to_string(), "p".to_string(), vec!["b".to_string()], 2);
    assert_eq!(r.message, "Configuration saved, synced to 1/2 configured node(s), and drbd-reactor reloaded");
}

#[test]
fn start_array_targets_skip_the_controller_and_repeats() {
    let configured = vec![
        ConfiguredNode { hostname: "a".to_string(), ip: "10.0.0.1".to_string() },
        ConfiguredNode { hostname: "b".to_string(), ip: "10.0.0.2".to_string() },
        ConfiguredNode { hostname: "c".to_string(), ip: "10.0.0.3".to_string() },
        ConfiguredNode { hostname: "b".to_string(), ip: "10.0.0.22".to_string() },
    ];
    let known = vec![node("a", "10.0.0.1", "root", 22, true), node("b", "10.0.0.2", "admin", 2222, false)];
    let t = start_array_sync_targets(&configured, &known, &"a".to_string(), &"ops".to_string(), 22);
    assert_eq!(t.len(), 2);
    assert_eq!((t[0].hostname.as_str(), t[0].ip.as_str(), t[0].ssh_user.as_str(), t[0].ssh_port), ("c", "10.0.0.3", "ops", 22));
    assert_eq!((t[1].hostname.as_str(), t[1].ip.as_str(), t[1].ssh_user.as_str(), t[1].ssh_port), ("b", "10.0.0.22", "admin", 2222));
}

// Profile list

#[test]
fn listed_state_decisions() {
    let active = Some(Some(ReactorProfileState { is_active: true, active_node: Some("n1".to_string()) }));
    assert_eq!(listed_state(false, false, None, active, None), (HaProfileStatus::Active, Some("n1".to_string())));
    let standby = Some(Some(ReactorProfileState { is_active: false, active_node: Some("n1".to_string()) }));
    assert_eq!(listed_state(false, false, None, standby, None), (HaProfileStatus::Standby, None));
    assert_eq!(listed_state(false, false, None, None, Some("x".to_string())), (HaProfileStatus::Standby, Some("x".to_string())));
    assert_eq!(listed_state(true, true, Some("n2".to_string()), None, None), (HaProfileStatus::Active, Some("n2".to_string())));
    assert_eq!(listed_state(true, true, None, None, None), (HaProfileStatus::Standby, None));
    assert_eq!(listed_state(true, false, None, None, Some("x".to_string())), (HaProfileStatus::Disabled, None));
    assert_eq!(disabled_promoter_path("db"), "/etc/drbd-reactor.d/db.toml.disabled");
}

// Creation

#[test]
fn resource_device_is_read_from_resource_file() {
    let content = "resource r0 {\n  on a {\n    device /dev/drbd7;;\n  }\n}\n";
    assert_eq!(device_from_resource_config(content), Some("/dev/drbd7".to_string()));
    assert_eq!(device_from_resource_config("resource r0 {}\n"), None);
}

#[test]
fn filesystem_agents_are_completed() {
    let mut params = OptionMap::new();
    params.insert("directory".to_string(), "".to_string());
    let agents = vec![
        HaOcfAgent { name: "ocf:heartbeat:Filesystem".to_string(), instance_name: "fs".to_string(), params },
        HaOcfAgent { name: "ocf:heartbeat:IPaddr2".to_string(), instance_name: "vip".to_string(), params: OptionMap::new() },
    ];
    let (out, present) =
        complete_filesystem_agents(agents, &Some("/dev/drbd1".to_string()), "r1", "/data", "ext4").unwrap();
    assert!(present);
    assert_eq!(out[0].params.get("device").map(|s| s.as_str()), Some("/dev/drbd1"));
    assert_eq!(out[0].params.get("directory").map(|s| s.as_str()), Some("/data"));
    assert_eq!(out[0].params.get("fstype").map(|s| s.as_str()), Some("ext4"));
    assert!(out[1].params.is_empty());

    let agents = vec![HaOcfAgent {
        name: "ocf:heartbeat:Filesystem".to_string(),
        instance_name: "fs".to_string(),
        params: OptionMap::new(),
    }];
    let err = complete_filesystem_agents(agents, &None, "r1", "/data", "ext4").unwrap_err();
    assert_eq!(message(&err), "DRBD resource 'r1' not found. Cannot determine device path for Filesystem agent.");
    let (_, present) = complete_filesystem_agents(vec![], &None, "r1", "/data", "ext4").unwrap();
    assert!(!present);
}

#[test]
fn new_resource_layout() {
    let nodes = vec![node("a", "10.0.0.1", "root", 22, true), node("b", "10.0.0.2", "root", 22, false)];
    let disks = vec!["/dev/vg/lv".to_string(), "/dev/vg/lv2".to_string()];
    let ncs: Vec<NodeConfig> = profile_node_configs(&nodes, &disks);
    assert_eq!(ncs.len(), 2);
    assert_eq!((ncs[1].hostname.as_str(), ncs[1].disk.as_str(), ncs[1].node_id), ("b", "/dev/vg/lv2", 1));
    let rc = profile_resource_config("db-data", 7790, 12, ncs);
    assert_eq!(rc.device, "/dev/drbd12");
    assert!(!rc.auto_promote);
    assert_eq!(rc.net_options.get("protocol").map(|s| s.as_str()), Some("C"));
}

#[test]
fn volumes_and_existing_volumes() {
    assert_eq!(lvm_volume_name("r1"), "drbd-ha-lv-r1");
    assert_eq!(lvm_device_path("vg0", "drbd-ha-lv-r1"), "/dev/vg0/drbd-ha-lv-r1");
    assert_eq!(zfs_device_path("tank", "v"), "/dev/zvol/tank/v");
    assert_eq!(reuse_existing_volume(Ok("/dev/x".to_string()), "/dev/y".to_string()), Ok("/dev/x".to_string()));
    assert_eq!(
        reuse_existing_volume(Err("volume already exists".to_string()), "/dev/y".to_string()),
        Ok("/dev/y".to_string())
    );
    assert_eq!(reuse_existing_volume(Err("no space".to_string()), "/dev/y".to_string()), Err("no space".to_string()));
}

#[test]
fn sync_wait_decisions() {
    let ready = Some(("Primary".to_string(), "UpToDate".to_string(), false));
    let synced = Some(("Secondary".to_string(), "UpToDate".to_string(), true));
    let waiting = Some(("Secondary".to_string(), "Inconsistent".to_string(), false));
    assert_eq!(sync_wait_step(&ready, 1), SyncWait::ProceedInBackground);
    assert_eq!(sync_wait_step(&synced, 1), SyncWait::Done);
    assert_eq!(sync_wait_step(&waiting, 1), SyncWait::Continue);
    assert_eq!(sync_wait_step(&None, 120), SyncWait::TimedOut);
    assert_eq!(sync_wait_step(&waiting, 120), SyncWait::TimedOut);
    assert_eq!(sync_wait_step(&waiting, 119), SyncWait::Continue);
    assert_eq!(sync_timeout_message("r1"), "DRBD sync timeout for resource r1 after 120 attempts (10 minutes)");
}

#[test]
fn promoter_configuration_of_a_profile() {
    let p = profile();
    let c = profile_promoter_config(&p, vec!["db.service".to_string()]);
    assert_eq!(c.resource, "db-data");
    assert_eq!(c.start, vec!["db.service".to_string()]);
    assert_eq!(c.mount_strategy, Some("systemd".to_string()));
    assert_eq!(c.mount_point, Some("/var/lib/db".to_string()));
    assert_eq!(c.preferred_nodes, Some(vec!["n1".to_string()]));
    assert_eq!(c.sleep_before_promote_factor, Some(2));
    assert_eq!(created_promoter_path("db", true), "/etc/drbd-reactor.d/db.toml.disabled");
    assert_eq!(created_promoter_path("db", false), "/etc/drbd-reactor.d/db.toml");
}

#[test]
fn creation_report() {
    assert_eq!(join_messages(&vec!["A".to_string(), "B".to_string()]), "A. B.");
    assert_eq!(join_messages(&vec![]), ".");
    assert_eq!(reload_report(3, 3), "HA profile created and drbd-reactor reloaded on all 3 nodes");
    assert_eq!(reload_report(1, 3), "HA profile created but drbd-reactor reload failed on 2/3 nodes");
}

// Deletion

#[test]
fn deletion_takes_local_node_as_primary() {
    let loc = primary_location(&Some("r0 role:Secondary\n  n2 role:Primary\n".to_string()), "r0");
    assert!(loc.local_primary);
    assert_eq!(loc.remote_primary_node, None);
    let loc = primary_location(&Some("r0 role:Secondary\n".to_string()), "r0");
    assert!(loc.local_primary);
    let loc = primary_location(&None, "r0");
    assert!(loc.local_primary);
}

#[test]
fn remote_cleanup_commands_for_a_node() {
    let overrides = vec![ServiceOverride {
        service_name: "db.service".to_string(),
        override_dir: String::new(),
        override_path: String::new(),
    }];
    let cmds = remote_cleanup_commands("admin", &Some("/etc/systemd/system/var-lib-db.mount".to_string()), &overrides);
    assert_eq!(cmds, vec![
        "sudo rm -f /etc/systemd/system/var-lib-db.mount".to_string(),
        "sudo rm -f /etc/systemd/system/db.service.d/ha-override.conf".to_string(),
        "sudo rmdir /etc/systemd/system/db.service.d 2>/dev/null || true".to_string(),
        "sudo rm -f /run/systemd/system/db.service.d/reactor.conf".to_string(),
        "sudo rmdir /run/systemd/system/db.service.d 2>/dev/null || true".to_string(),
        "sudo systemctl daemon-reload".to_string(),
    ]);
    let cmds = remote_cleanup_commands("root", &None, &vec![]);
    assert_eq!(cmds, vec!["systemctl daemon-reload".to_string()]);
    assert_eq!(with_sudo("root", "ls"), "ls");
}

#[test]
fn deletion_problems_are_listed() {
    let f = DeletionFindings {
        drbd_status: Some("r0 role:Secondary".to_string()),
        reactor_reports_profile: Some(true),
        drbd_config_exists: false,
        promoter_exists: true,
        disabled_promoter_exists: false,
    };
    let p = deletion_problems(&f, "r0", "db", "/etc/drbd.d/r0.res", "/etc/drbd-reactor.d/db.toml", "x");
    assert_eq!(p, vec![
        "DRBD resource r0 still active after deletion".to_string(),
        "drbd-reactor profile db still active".to_string(),
        "Promoter config file /etc/drbd-reactor.d/db.toml still exists".to_string(),
    ]);
}

// Activation

#[test]
fn activation_steps() {
    assert_eq!(up_step(true, ""), UpStep::Continue);
    assert_eq!(up_step(false, "No valid meta data found"), UpStep::CreateMetadata);
    assert_eq!(up_step(false, "already up"), UpStep::Continue);
    assert_eq!(up_step(false, "boom"), UpStep::ContinueWithWarning);
    assert!(retry_up_outcome(false, "is already configured").is_ok());
    assert_eq!(message(&retry_up_outcome(false, "boom").unwrap_err()), "Failed to bring up DRBD resource: boom");
    assert_eq!(promote_step(false, "Need access to UpToDate data"), PromoteStep::SkipSyncAndForce);
    assert_eq!(promote_step(false, "x"), PromoteStep::Failed);
    assert!(drbd_ready("r role:Primary\n  disk:Inconsistent\n"));
    assert!(!drbd_ready("r role:Primary\n  disk:Diskless\n"));
    assert_eq!(umount_step(1, false), UmountStep::Retry);
    assert_eq!(umount_step(3, false), UmountStep::Lazy);
    assert_eq!(umount_step(4, true), UmountStep::Done);
    assert_eq!(umount_step(2, true), UmountStep::Done);
}

#[test]
fn activation_devices_and_formatting() {
    let d = device_candidates("7", "r role:Primary\n  volume:0 device:/dev/drbd12 disk:UpToDate\n");
    assert_eq!(d, vec!["/dev/drbd7".to_string(), "/dev/drbd/by-res/7/0".to_string(), "/dev/drbd12 disk:UpToDate".to_string()]);
    let d = device_candidates("web", "r role:Primary\n");
    assert_eq!(d, vec!["/dev/drbd0".to_string(), "/dev/drbd/by-res/web/0".to_string(), "/dev/drbd0".to_string()]);
    assert!(formats_here("role:Primary", "b", &vec!["a".to_string()]));
    assert!(!formats_here("role:Secondary", "a", &vec!["b".to_string()]));
    assert!(formats_here("", "a", &vec!["b".to_string(), "c".to_string()]));
    assert!(!formats_here("", "b", &vec!["a".to_string()]));
    assert_eq!(activation_mkfs_command("xfs", "/dev/drbd1"), "mkfs.xfs -f /dev/drbd1");
    assert_eq!(activation_mkfs_command("ext4", "/dev/drbd1"), "mkfs.ext4 -F /dev/drbd1");
    assert_eq!(activation_mkfs_command("btrfs", "/dev/drbd1"), "mkfs.btrfs /dev/drbd1");
}

#[test]
fn activation_readings_and_errors() {
    assert!(is_primary("r role:Primary\n"));
    assert!(!is_primary("r role:Secondary\n"));
    assert!(sync_in_progress("  peer role:Secondary\n    replication:SyncSource peer-disk:Inconsistent sync:42.1\n"));
    assert!(!sync_in_progress("  peer role:Secondary\n    peer-disk:UpToDate\n"));
    assert!(reactor_manages("Promoter: Currently active on this node"));
    assert!(!reactor_manages("Promoter: Currently standby"));
    assert_eq!(message(&device_inaccessible()), "DRBD device not accessible after promotion");
    assert_eq!(message(&format_failed("bad magic")), "Failed to format filesystem: bad magic");
    assert_eq!(message(&umount_failed("/srv/pg", "busy")), "Failed to unmount /srv/pg: busy");
    assert_eq!(message(&demote_failed("in use")), "Failed to demote resource: in use");
}

// VIP

#[test]
fn vip_add_then_remove() {
    let mut p = profile();
    let req = AddVipRequest { address: "10.0.0.9".to_string(), netmask: 24, interface: "eth1".to_string() };
    add_vip_to_profile(&mut p, &req).unwrap();
    let again = add_vip_to_profile(&mut p, &req).unwrap_err();
    assert_eq!(message(&again), "VIP already configured for this profile. Remove existing VIP first.");
    let removal = remove_vip_from_profile(&mut p).unwrap();
    assert_eq!(removal.removed.address, "10.0.0.9");
    assert_eq!(removal.interface_command, Some("ip addr del 10.0.0.9/24 dev eth1 2>/dev/null || true".to_string()));
    assert!(p.vip.is_none());
    let none = remove_vip_from_profile(&mut p).unwrap_err();
    assert_eq!(message(&none), "No VIP configured for this profile");
    assert_eq!(vip_change_response("10.0.0.9", true, "db").message, "VIP 10.0.0.9 added to profile db. Reload drbd-reactor to apply.");
    let _ = VipConfig { address: String::new(), netmask: 0, interface: String::new() };
}

#[test]
fn new_profile_names_are_unique() {
    let existing = vec![profile()];
    assert!(check_new_profile("web", &existing).is_ok());
    assert_eq!(message(&check_new_profile("db", &existing).unwrap_err()), "HA profile with name db already exists");
}

fn run_deletion(query: DeleteProfileQuery, status: &str) -> Vec<DeletionAction> {
    let nodes = vec![node("n1", "10.0.0.1", "root", 22, true), node("n2", "10.0.0.2", "admin", 22, false)];
    let plan = deletion_plan(2, 1, false, &query);
    let mut state = deletion_start();
    let mut seen = vec![state.pending];
    let mut first = true;
    while state.pending != DeletionAction::Deleted && seen.len() < 100 {
        let out = if first { status.to_string() } else { String::new() };
        first = false;
        let outcome = CommandOutcome { success: true, stdout: out, stderr: String::new() };
        let (next, action) = deletion_step(&state, &plan, &outcome, "db-data", &nodes);
        state = next;
        seen.push(action);
    }
    seen
}

#[test]
fn deletion_order_follows_the_query() {
    let full = run_deletion(DeleteProfileQuery { delete_resource: true, delete_config_file: true }, "db-data role:Primary\n");
    assert_eq!(
        full,
        vec![
            DeletionAction::ReadStatus,
            DeletionAction::DisableProfile,
            DeletionAction::StopService(0),
            DeletionAction::DemoteLocal,
            DeletionAction::CleanNode(0),
            DeletionAction::CleanNode(1),
            DeletionAction::UnmountLocal,
            DeletionAction::Secondary(0),
            DeletionAction::Disconnect(0),
            DeletionAction::Secondary(1),
            DeletionAction::Disconnect(1),
            DeletionAction::Down(0),
            DeletionAction::Down(1),
            DeletionAction::WipeMetadata(0),
            DeletionAction::WipeMetadata(1),
            DeletionAction::RemoveResourceFile(0),
            DeletionAction::RemoveResourceFile(1),
            DeletionAction::RemovePromoterFiles(0),
            DeletionAction::RemovePromoterFiles(1),
            DeletionAction::ReloadReactor(0),
            DeletionAction::ReloadReactor(1),
            DeletionAction::Verify,
            DeletionAction::Deleted,
        ]
    );
    let kept = run_deletion(
        DeleteProfileQuery { delete_resource: false, delete_config_file: false },
        "db-data role:Secondary\n  n2 role:Primary\n",
    );
    assert_eq!(
        kept,
        vec![
            DeletionAction::ReadStatus,
            DeletionAction::DisableProfile,
            DeletionAction::StopService(0),
            DeletionAction::DemoteLocal,
            DeletionAction::CleanNode(0),
            DeletionAction::CleanNode(1),
            DeletionAction::UnmountLocal,
            DeletionAction::ReloadReactor(0),
            DeletionAction::ReloadReactor(1),
            DeletionAction::Verify,
            DeletionAction::Deleted,
        ]
    );
}
