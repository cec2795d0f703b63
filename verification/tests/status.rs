use drbd_ha::dashboard::{ha_service_stats, node_stats, storage_stats, summary_health, ResourceStats};
use drbd_ha::drbd_status::{cluster_health, parse_active_node, parse_drbd_summary, parse_drbdadm_status, ClusterHealth};
use drbd_ha::nodes::{Node, NodeStatus};
use drbd_ha::profile_status::{
    detect_mount_point, needs_enabled_query, overall_status, parse_reactor_services, vip_active_status,
    vip_check_command, vip_needs_local_check, HaProfileStatus, ServiceStatusInfo,
};
use drbd_ha::reactor_config::{parse_mount_point_from_config, parse_vip_from_config};

#[test]
fn test_parse_drbd_summary_empty() {
    let output = "";
    let (total, healthy, degraded) = parse_drbd_summary(output);
    assert_eq!(total, 0);
    assert_eq!(healthy, 0);
    assert_eq!(degraded, 0);
}

#[test]
fn test_parse_drbd_summary_healthy() {
    let output = r#"
r0 role:Primary
  disk:UpToDate
  peer-0 role:Secondary
    connection:Connected peer-disk:UpToDate
r1 role:Secondary
  disk:UpToDate
  peer-0 role:Primary
    connection:Connected peer-disk:UpToDate
"#;
    let (total, healthy, degraded) = parse_drbd_summary(output);
    assert_eq!(total, 2);
    assert_eq!(healthy, 2);
    assert_eq!(degraded, 0);
}

#[test]
fn test_parse_drbd_summary_degraded() {
    let output = r#"
r0 role:Primary
  disk:UpToDate
  peer-0 role:Secondary
    connection:Connecting peer-disk:UpToDate
r1 role:Secondary
  disk:Inconsistent
  peer-0 role:Primary
    connection:Connected peer-disk:UpToDate
r2 role:Primary
  disk:UpToDate
  peer-0 role:Secondary
    connection:Connected peer-disk:Inconsistent
r3 role:Secondary
  disk:Diskless
  peer-0 role:Primary
    connection:Connected peer-disk:UpToDate
"#;
    let (total, healthy, degraded) = parse_drbd_summary(output);
    assert_eq!(total, 4);
    assert_eq!(healthy, 0);
    assert_eq!(degraded, 4);
}

#[test]
fn test_parse_drbd_summary_mixed() {
    let output = r#"
r0 role:Primary
  disk:UpToDate
  peer-0 role:Secondary
    connection:Connected peer-disk:UpToDate
r1 role:Secondary
  disk:UpToDate
  peer-0 role:Primary
    connection:Connecting peer-disk:UpToDate
r2 role:Secondary
  disk:Inconsistent
  peer-0 role:Primary
    connection:Connected peer-disk:UpToDate
"#;
    let (total, healthy, degraded) = parse_drbd_summary(output);
    assert_eq!(total, 3);
    assert_eq!(healthy, 1);
    assert_eq!(degraded, 2);
}

#[test]
fn drbd_summary_totals_add_up() {
    let (total, healthy, degraded) = parse_drbd_summary("a role:Primary\n  disk:Failed\nb role:Primary\n  disk:UpToDate\n");
    assert_eq!(total, healthy + degraded);
    assert_eq!((total, healthy, degraded), (2, 1, 1));
}

#[test]
fn drbdadm_status_doc_example() {
    let output = r#"
mongodb-data role:Primary
  disk:UpToDate open:yes
  gui02 role:Secondary
    peer-disk:UpToDate
  gui03 role:Secondary
    peer-disk:UpToDate
"#;
    let status = parse_drbdadm_status(output, "mongodb-data").unwrap();
    assert_eq!(status.resource, "mongodb-data");
    assert_eq!(status.role, "Primary");
    assert_eq!(status.disk, "UpToDate");
    assert_eq!(status.open, true);
    assert_eq!(status.peers.len(), 2);
    assert_eq!(status.peers[0].name, "gui02");
    assert_eq!(status.peers[0].role, "Secondary");
    assert_eq!(status.peers[0].peer_disk, "UpToDate");
}

#[test]
fn active_node_from_reactor_output() {
    let out = "Promoter: r0\nCurrently active on node 'gui02'\n";
    assert_eq!(parse_active_node(out, "me"), Some("gui02".to_string()));
    assert_eq!(parse_active_node("Currently active on this node\n", "me"), Some("me".to_string()));
    assert_eq!(parse_active_node("nothing here\n", "me"), None);
}

#[test]
fn cluster_health_levels() {
    assert_eq!(cluster_health(3, 0, 0, 0), ClusterHealth::Healthy);
    assert_eq!(cluster_health(3, 1, 0, 0), ClusterHealth::Warning);
    assert_eq!(cluster_health(3, 2, 0, 0), ClusterHealth::Critical);
    assert_eq!(cluster_health(3, 0, 0, 1), ClusterHealth::Warning);
}

fn svc(name: &str, active: bool) -> ServiceStatusInfo {
    ServiceStatusInfo {
        name: name.to_string(),
        active,
        state: if active { "active" } else { "failed" }.to_string(),
        enabled: false,
        active_since: None,
    }
}

#[test]
fn reactor_services_are_read_from_status_tree() {
    let raw = "/etc/drbd-reactor.d/db.toml:\nPromoter: Currently active on this node\n○ drbd-services@db.target\n○ ├─ drbd-promote@db.service\n○ ├─ var-lib-data.mount\n× └─ my\\x2dapp.service\n";
    let services = parse_reactor_services(raw);
    assert_eq!(services.len(), 2);
    assert_eq!(services[0].name, "var-lib-data.mount");
    assert!(services[0].active);
    assert_eq!(services[0].state, "active");
    assert_eq!(services[1].name, "my-app.service");
    assert!(!services[1].active);
    assert_eq!(services[1].state, "failed");
    assert_eq!(detect_mount_point(&services), Some("/var/lib/data".to_string()));
    assert!(needs_enabled_query("my-app.service"));
    assert!(!needs_enabled_query("ocf.rs@vip_db.service"));
}

#[test]
fn overall_status_decisions() {
    let all_ok = vec![svc("a.service", true)];
    let one_bad = vec![svc("a.service", true), svc("b.service", false)];
    let primary = parse_drbdadm_status("r role:Primary\n  disk:UpToDate\n", "r");
    let secondary = parse_drbdadm_status("r role:Secondary\n  disk:UpToDate\n", "r");
    assert_eq!(overall_status(true, &None, &one_bad), HaProfileStatus::Active);
    assert_eq!(overall_status(false, &primary, &all_ok), HaProfileStatus::Active);
    assert_eq!(overall_status(false, &primary, &one_bad), HaProfileStatus::Error);
    assert_eq!(overall_status(false, &secondary, &all_ok), HaProfileStatus::Standby);
    assert_eq!(overall_status(false, &None, &all_ok), HaProfileStatus::Stopped);
}

#[test]
fn vip_state_decisions() {
    let services = vec![svc("x.service", true), svc("ocf.rs@vip_db.service", false)];
    assert!(vip_needs_local_check(true, false));
    assert!(!vip_needs_local_check(true, true));
    assert_eq!(vip_active_status(true, true, false, &services), Some(true));
    assert_eq!(vip_active_status(true, false, false, &services), Some(false));
    assert_eq!(vip_active_status(false, false, false, &services), Some(false));
    assert_eq!(vip_active_status(false, false, false, &vec![svc("x.service", true)]), None);
    assert_eq!(vip_check_command("eth0", "10.0.0.5"), "ip addr show eth0 | grep -q '10.0.0.5'");
}

#[test]
fn vip_and_mount_point_from_promoter_config() {
    let content = "start = [\n    \"var-lib-mysql.mount\",\n    \"ocf:heartbeat:IPaddr2 vip cidr_netmask=24 ip=192.168.123.198\",\n]\n";
    let vip = parse_vip_from_config(content).unwrap();
    assert_eq!(vip.address, "192.168.123.198");
    assert_eq!(vip.netmask, 24);
    assert_eq!(vip.interface, "eth0");
    assert_eq!(parse_mount_point_from_config(content), Some("/var/lib/mysql".to_string()));
}

fn node(hostname: &str, status: NodeStatus) -> Node {
    Node {
        id: hostname.to_string(),
        hostname: hostname.to_string(),
        ip: "10.0.0.1".to_string(),
        ssh_port: 22,
        ssh_user: "root".to_string(),
        is_local: false,
        status,
        last_seen: None,
    }
}

#[test]
fn dashboard_counts_and_health() {
    let nodes = vec![node("a", NodeStatus::Online), node("b", NodeStatus::Offline), node("c", NodeStatus::Unknown)];
    let ns = node_stats(&nodes);
    assert_eq!((ns.total, ns.online, ns.offline), (3, 1, 2));
    let states = vec![HaProfileStatus::Active, HaProfileStatus::Error, HaProfileStatus::Active, HaProfileStatus::Disabled];
    let hs = ha_service_stats(&states);
    assert_eq!((hs.total, hs.active, hs.standby, hs.stopped, hs.error), (4, 2, 0, 0, 1));
    let st = storage_stats(&vec![(100, 40), (50, 10)]);
    assert_eq!((st.total_bytes, st.free_bytes, st.pool_count), (150, 50, 2));
    let rs = ResourceStats { total: 1, healthy: 1, degraded: 0 };
    assert_eq!(summary_health(&ns, &hs, &rs), ClusterHealth::Critical);
}

#[test]
fn only_empty_leading_lines_are_skipped() {
    assert!(parse_drbdadm_status("\nr0 role:Primary\n", "r0").is_some());
    assert!(parse_drbdadm_status(" \nr0 role:Primary\n", "r0").is_none());
}
