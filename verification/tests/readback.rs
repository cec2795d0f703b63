use drbd_ha::config_gen::{ConfigGenerator, NodeConfig, PromoterPluginConfig, ResourceConfig, VipPluginConfig};
use drbd_ha::drbd_status::parse_drbdadm_status;
use drbd_ha::nodes::{imported_node, is_resource_file, parse_res_node_addresses, record_discovered, Node, NodeStatus, ResNodeAddress};
use drbd_ha::profile_details::{
    drbd_active_node, linstor_resource_path, merge_service_statuses, remote_address, remote_enabled_command,
    remote_reports_enabled, truly_disabled,
};
use drbd_ha::profile_status::ServiceStatusInfo;
use drbd_ha::reactor_config::{parse_mount_point_from_config, parse_vip_from_config};

fn promoter(resource: &str) -> PromoterPluginConfig {
    PromoterPluginConfig {
        resource: resource.to_string(),
        mount_unit: Some("var-lib-pg.mount".to_string()),
        start: vec!["postgresql.service".to_string()],
        stop_services_on_exit: true,
        on_drbd_demote_failure: "continue".to_string(),
        vip: Some(VipPluginConfig { address: "10.1.2.3".to_string(), netmask: 16 }),
        ocf_agents: vec![],
        mount_strategy: Some("systemd".to_string()),
        mount_point: None,
        fs_type: None,
        dependencies_as: None,
        target_as: None,
        on_quorum_loss: None,
        preferred_nodes: None,
        preferred_nodes_policy: None,
        sleep_before_promote_factor: None,
    }
}

#[test]
fn written_vip_and_mount_point_are_read_back() {
    let text = ConfigGenerator::new().unwrap().generate_promoter(&promoter("pg_ha")).unwrap();
    let vip = parse_vip_from_config(&text).unwrap();
    assert_eq!(vip.address, "10.1.2.3");
    assert_eq!(vip.netmask, 16);
    assert_eq!(parse_mount_point_from_config(&text), Some("/var/lib/pg".to_string()));
}

#[test]
fn profile_disabled_everywhere() {
    assert!(!truly_disabled(Some(true), true, Some(false)));
    assert!(truly_disabled(Some(false), true, Some(false)));
    assert!(!truly_disabled(Some(false), true, Some(true)));
    assert!(!truly_disabled(Some(false), false, None));
    assert!(truly_disabled(None, true, None));
    assert_eq!(remote_enabled_command("db"), "sudo test -f /etc/drbd-reactor.d/db.toml && echo enabled");
    assert!(remote_reports_enabled("enabled\n"));
    assert!(!remote_reports_enabled("disabled\n"));
    assert_eq!(linstor_resource_path("r0"), "/var/lib/linstor.d/r0.res");
}

#[test]
fn active_node_and_address() {
    let local_primary = parse_drbdadm_status("r role:Primary\n  disk:UpToDate\n", "r");
    assert_eq!(drbd_active_node(&local_primary, "me"), Some("me".to_string()));
    let peer_primary = parse_drbdadm_status("r role:Secondary\n  disk:UpToDate\n  n2 role:Primary\n    peer-disk:UpToDate\n", "r");
    assert_eq!(drbd_active_node(&peer_primary, "me"), Some("n2".to_string()));
    assert_eq!(drbd_active_node(&None, "me"), None);
    assert_eq!(remote_address(Some("10.0.0.2".to_string()), None, "me"), Some("10.0.0.2".to_string()));
    assert_eq!(remote_address(None, Some("127.0.0.1".to_string()), "me"), None);
    assert_eq!(remote_address(None, None, "me"), None);
}

#[test]
fn configured_and_reported_services_are_merged() {
    let reported = vec![
        ServiceStatusInfo { name: "b.service".to_string(), active: true, state: "active".to_string(), enabled: false, active_since: None },
        ServiceStatusInfo { name: "x.mount".to_string(), active: false, state: "failed".to_string(), enabled: true, active_since: Some(5) },
    ];
    let merged = merge_service_statuses(&vec!["a.service".to_string(), "b.service".to_string()], reported);
    let view: Vec<(&str, bool, &str)> = merged.iter().map(|s| (s.name.as_str(), s.active, s.state.as_str())).collect();
    assert_eq!(view, vec![("a.service", false, "inactive"), ("b.service", true, "active"), ("x.mount", false, "failed")]);
    assert!(merged.iter().all(|s| !s.enabled && s.active_since.is_none()));
}

#[test]
fn nodes_imported_from_resource_files() {
    assert!(is_resource_file("r0.res"));
    assert!(!is_resource_file("global_common.conf"));
    let addr = ResNodeAddress { hostname: "n2".to_string(), ip: "10.0.0.2".to_string() };
    let fresh = imported_node(&addr, "n1", None, 22, "root", true, 7);
    assert_eq!((fresh.id.as_str(), fresh.is_local, fresh.status, fresh.last_seen), ("n2", false, NodeStatus::Online, Some(7)));
    let silent = imported_node(&addr, "n1", None, 22, "root", false, 7);
    assert_eq!((silent.status, silent.last_seen), (NodeStatus::Unknown, None));
    let stored = Node {
        id: "n2".to_string(),
        hostname: "n2".to_string(),
        ip: "10.9.9.9".to_string(),
        ssh_port: 2200,
        ssh_user: "ops".to_string(),
        is_local: false,
        status: NodeStatus::Offline,
        last_seen: Some(3),
    };
    let kept = imported_node(&addr, "n2", Some(&stored), 22, "root", true, 7);
    assert_eq!((kept.ip.as_str(), kept.ssh_port, kept.ssh_user.as_str(), kept.is_local, kept.status), ("10.0.0.2", 2200, "ops", true, NodeStatus::Offline));
}

#[test]
fn written_resource_nodes_are_read_back() {
    let mut config = ResourceConfig::default();
    config.name = "pg_data".to_string();
    config.auto_promote = false;
    config.nodes = vec![
        NodeConfig { hostname: "db-a".to_string(), ip: "10.0.0.11".to_string(), disk: "/dev/vg0/pg".to_string(), node_id: 0 },
        NodeConfig { hostname: "db-b".to_string(), ip: "10.0.0.12".to_string(), disk: "/dev/vg0/pg".to_string(), node_id: 1 },
        NodeConfig { hostname: "db-c".to_string(), ip: "10.0.0.13".to_string(), disk: "/dev/vg0/pg".to_string(), node_id: 2 },
    ];
    let text = ConfigGenerator::new().unwrap().generate_drbd_resource(&config).unwrap();
    let read: Vec<(String, String)> =
        parse_res_node_addresses(&text).into_iter().map(|a| (a.hostname, a.ip)).collect();
    assert_eq!(
        read,
        vec![
            ("db-a".to_string(), "10.0.0.11".to_string()),
            ("db-b".to_string(), "10.0.0.12".to_string()),
            ("db-c".to_string(), "10.0.0.13".to_string()),
        ]
    );
}

#[test]
fn written_vip_is_read_back_with_ocf_mount() {
    let mut config = promoter("pg_ha");
    config.mount_strategy = Some("ocf".to_string());
    config.mount_point = Some("/var/lib/pg".to_string());
    config.fs_type = Some("xfs".to_string());
    let text = ConfigGenerator::new().unwrap().generate_promoter(&config).unwrap();
    assert!(text.contains("ocf:heartbeat:Filesystem pg_ha_fs"));
    let vip = parse_vip_from_config(&text).unwrap();
    assert_eq!(vip.address, "10.1.2.3");
    assert_eq!(vip.netmask, 16);
}

#[test]
fn discovered_nodes_are_one_per_hostname_last_block_wins() {
    let first = imported_node(&ResNodeAddress { hostname: "n1".to_string(), ip: "10.0.0.1".to_string() }, "n1", None, 22, "root", true, 1);
    let second = imported_node(&ResNodeAddress { hostname: "n2".to_string(), ip: "10.0.0.2".to_string() }, "n1", None, 22, "root", true, 1);
    let again = imported_node(&ResNodeAddress { hostname: "n1".to_string(), ip: "10.0.1.1".to_string() }, "n1", None, 22, "root", true, 2);
    let mut discovered = Vec::new();
    record_discovered(&mut discovered, first);
    record_discovered(&mut discovered, second);
    record_discovered(&mut discovered, again);
    let view: Vec<(&str, &str)> = discovered.iter().map(|n| (n.hostname.as_str(), n.ip.as_str())).collect();
    assert_eq!(view, vec![("n1", "10.0.1.1"), ("n2", "10.0.0.2")]);
}

#[test]
fn written_vip_is_read_back_for_any_plain_resource_name() {
    let text = ConfigGenerator::new().unwrap().generate_promoter(&promoter("pg ha:1")).unwrap();
    let vip = parse_vip_from_config(&text).unwrap();
    assert_eq!(vip.address, "10.1.2.3");
    assert_eq!(vip.netmask, 16);
}

#[test]
fn written_vip_is_read_back_past_a_mount_entry_with_colons_and_line_breaks() {
    let mut config = promoter("pg");
    config.mount_strategy = Some("ocf".to_string());
    config.mount_point = Some("/srv/a:b\nc".to_string());
    config.fs_type = Some("x:fs".to_string());
    let text = ConfigGenerator::new().unwrap().generate_promoter(&config).unwrap();
    let vip = parse_vip_from_config(&text).unwrap();
    assert_eq!(vip.address, "10.1.2.3");
    assert_eq!(vip.netmask, 16);
    let mut config = promoter("pg");
    config.mount_unit = Some("srv-a:b\r\n.mount".to_string());
    let text = ConfigGenerator::new().unwrap().generate_promoter(&config).unwrap();
    assert_eq!(parse_vip_from_config(&text).unwrap().address, "10.1.2.3");
}
