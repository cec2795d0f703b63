use drbd_ha::ha_ops::{
    default_evict_delay, default_reactor_log_lines, default_reload_action, discovered_node, enable_summary,
    evict_command, evict_message, evict_target, import_profiles, list_unmanaged_profiles, node_toggle_outcome,
    profile_file_check, reactor_logs_command, reactor_logs_response, reactor_toggle_command, reload_action,
    reload_command, reload_message, EvictProfileRequest, EvictTarget, ImportProfilesRequest, NodeReloadResult,
    ReactorLogsQuery,
};
use drbd_ha::nodes::{
    find_node_by_id_or_hostname, get_node_by_id_resolved, health_check, parse_res_node_addresses,
    validate_new_node, AppError, Node, NodeStatus, apply_status_check, needs_sudo_probe, ProbeOutcome,
};
use drbd_ha::resource_agents::{
    agent_path, agent_summaries, group_agents_by_provider, ocf_root, sort_agents_by_name, ResourceAgent,
};

fn node(id: &str, hostname: &str, ip: &str, is_local: bool) -> Node {
    Node {
        id: id.to_string(),
        hostname: hostname.to_string(),
        ip: ip.to_string(),
        ssh_port: 22,
        ssh_user: "root".to_string(),
        is_local,
        status: NodeStatus::Online,
        last_seen: None,
    }
}

fn agent(name: &str) -> ResourceAgent {
    ResourceAgent {
        name: name.to_string(),
        version: "1.0".to_string(),
        shortdesc: "Manages virtual IPv4 addresses".to_string(),
        longdesc: "Long description".to_string(),
        parameters: vec![],
        actions: vec![],
    }
}

#[test]
fn test_resource_agents_by_provider_serialization() {
    let catalogue = group_agents_by_provider(vec![("heartbeat".to_string(), agent("IPaddr2"))]);
    assert_eq!(catalogue.providers.len(), 1);
    assert_eq!(catalogue.providers[0].provider, "heartbeat");
    assert_eq!(catalogue.providers[0].agents[0].name, "IPaddr2");
    let mut providers = serde_json::Map::new();
    for group in &catalogue.providers {
        let agents = group
            .agents
            .iter()
            .map(|a| {
                let mut fields = serde_json::Map::new();
                fields.insert("name".to_string(), serde_json::Value::String(a.name.clone()));
                serde_json::Value::Object(fields)
            })
            .collect();
        providers.insert(group.provider.clone(), serde_json::Value::Array(agents));
    }
    let mut response = serde_json::Map::new();
    response.insert("providers".to_string(), serde_json::Value::Object(providers));
    let json = serde_json::to_string(&serde_json::Value::Object(response)).unwrap();
    assert!(json.contains("heartbeat"));
    assert!(json.contains("IPaddr2"));
}

#[test]
fn agents_are_grouped_once_per_provider_and_sorted() {
    let entries = vec![
        ("heartbeat".to_string(), agent("Filesystem")),
        ("linbit".to_string(), agent("drbd")),
        ("heartbeat".to_string(), agent("IPaddr2")),
        ("heartbeat".to_string(), agent("Dummy")),
    ];
    let c = group_agents_by_provider(entries);
    assert_eq!(c.providers.len(), 2);
    let names: Vec<&str> = c.providers[0].agents.iter().map(|a| a.name.as_str()).collect();
    assert_eq!(c.providers[0].provider, "heartbeat");
    assert_eq!(names, vec!["Dummy", "Filesystem", "IPaddr2"]);
    assert_eq!(c.providers[1].provider, "linbit");
    let sorted = sort_agents_by_name(vec![agent("b"), agent("a"), agent("ab")]);
    let names: Vec<&str> = sorted.iter().map(|a| a.name.as_str()).collect();
    assert_eq!(names, vec!["a", "ab", "b"]);
}

#[test]
fn agent_lookup_paths() {
    assert_eq!(ocf_root(None), "/usr/lib/ocf");
    assert_eq!(ocf_root(Some("/opt/ocf".to_string())), "/opt/ocf");
    assert_eq!(agent_path("/usr/lib/ocf", "heartbeat", "IPaddr2"), "/usr/lib/ocf/resource.d/heartbeat/IPaddr2");
    let s = agent_summaries(vec![("heartbeat".to_string(), "IPaddr2".to_string())]);
    assert_eq!((s[0].provider.as_str(), s[0].name.as_str()), ("heartbeat", "IPaddr2"));
}

#[test]
fn reactor_log_queries() {
    assert_eq!(default_reactor_log_lines(), 100);
    let q = ReactorLogsQuery { lines: 50, since: Some("1h".to_string()) };
    assert_eq!(reactor_logs_command(&q), "journalctl -u drbd-reactor.service -n 50 --no-pager --since '1h'");
    let q = ReactorLogsQuery { lines: 5000, since: Some("1h; rm -rf /".to_string()) };
    assert_eq!(reactor_logs_command(&q), "journalctl -u drbd-reactor.service -n 1000 --no-pager");
    let q = ReactorLogsQuery { lines: 10, since: Some("2024-01-15 10:00".to_string()) };
    assert!(reactor_logs_command(&q).ends_with("--since '2024-01-15 10:00'"));
    let r = reactor_logs_response("a\nb\n");
    assert_eq!(r.lines, vec!["a".to_string(), "b".to_string()]);
    assert_eq!(r.total_lines, 2);
    assert_eq!(r.service, "drbd-reactor.service");
}

#[test]
fn reload_decisions() {
    assert_eq!(default_reload_action(), "reload");
    assert_eq!(reload_action("restart"), "restart");
    assert_eq!(reload_action("bogus"), "reload");
    assert_eq!(reload_command("restart"), "systemctl daemon-reload && systemctl restart drbd-reactor");
    let remote = vec![
        NodeReloadResult { hostname: "b".to_string(), success: true, error: None },
        NodeReloadResult { hostname: "c".to_string(), success: false, error: Some("x".to_string()) },
    ];
    assert_eq!(reload_message("reload", true, &remote), "reloaded drbd-reactor on 2/3 nodes");
    assert_eq!(reload_message("restart", true, &vec![]), "Successfully restarted drbd-reactor on all 1 nodes");
}

#[test]
fn eviction_commands_and_targets() {
    assert_eq!(default_evict_delay(), 20);
    let req = EvictProfileRequest { node: None, delay: 20, keep_masked: false, force: false };
    assert_eq!(evict_command("db", &req), "drbd-reactorctl evict db");
    let req = EvictProfileRequest { node: None, delay: 30, keep_masked: true, force: true };
    assert_eq!(evict_command("db", &req), "drbd-reactorctl evict db --delay 30 --keep-masked --force");
    assert_eq!(
        evict_message(true, "db", "n1", 20, &None),
        "Successfully evicted db from node n1. Another node should take over within 20 seconds."
    );
    assert_eq!(evict_message(false, "db", "n1", 20, &None), "Failed to evict db from node n1: unknown error");
    let nodes = vec![node("1", "n1", "10.0.0.1", true), node("2", "n2", "10.0.0.2", false)];
    assert!(matches!(evict_target(&Some("2".to_string()), &nodes, &None), Ok(EvictTarget::Known(1))));
    assert!(matches!(evict_target(&None, &nodes, &Some("n2".to_string())), Ok(EvictTarget::Known(0))));
    let remote_only = vec![node("2", "n2", "10.0.0.2", false), node("3", "n3", "10.0.0.3", false)];
    assert!(matches!(evict_target(&None, &remote_only, &Some("n3".to_string())), Ok(EvictTarget::Known(1))));
    match evict_target(&Some("n9".to_string()), &nodes, &None) {
        Ok(EvictTarget::Discover(h)) => assert_eq!(h, "n9"),
        _ => panic!("expected discovery"),
    }
    match evict_target(&None, &remote_only, &None) {
        Err(AppError::Validation(m)) => assert_eq!(m, "No active node found for this profile. Cannot evict."),
        _ => panic!("expected a validation error"),
    }
}

#[test]
fn discovered_nodes() {
    let n = discovered_node("n3", Some("10.0.0.3".to_string()), false, "127.0.0.1".to_string(), 22, "root", 5).unwrap();
    assert_eq!((n.id.as_str(), n.ip.as_str(), n.status, n.last_seen), ("n3", "10.0.0.3", NodeStatus::Online, Some(5)));
    let n = discovered_node("me", None, true, "10.0.0.9".to_string(), 22, "root", 5).unwrap();
    assert_eq!(n.ip, "10.0.0.9");
    match discovered_node("n4", None, false, "x".to_string(), 22, "root", 5) {
        Err(AppError::NotFound(m)) => assert_eq!(m, "Cannot resolve IP for hostname 'n4'"),
        _ => panic!("expected not found"),
    }
}

#[test]
fn enabling_and_disabling_on_nodes() {
    assert!(profile_file_check("db", false, true).is_ok());
    assert!(matches!(profile_file_check("db", false, false), Err(AppError::NotFound(m)) if m == "HA profile db not found"));
    assert_eq!(reactor_toggle_command("db", true), "sudo drbd-reactorctl enable db");
    assert_eq!(node_toggle_outcome("db", "n1", false, true, "").unwrap(), "Profile 'db' disabled on node 'n1'");
    assert!(matches!(node_toggle_outcome("db", "n1", true, false, "e"), Err(AppError::Internal(m)) if m == "Failed to enable profile: e"));
    assert_eq!(enable_summary("db", 3, 0, 3), (true, "Profile 'db' enabled on all 3 nodes".to_string()));
    assert_eq!(enable_summary("db", 0, 3, 3), (false, "Failed to enable profile 'db' on any node".to_string()));
    assert_eq!(enable_summary("db", 2, 1, 3), (true, "Profile 'db' enabled on 2/3 nodes".to_string()));
}

#[test]
fn imports_and_unmanaged_profiles() {
    let req = ImportProfilesRequest { names: vec!["a".to_string(), "b".to_string(), "c".to_string()] };
    let existing = vec!["a".to_string()];
    let discovered = vec!["a".to_string(), "b".to_string()];
    let r = import_profiles(&req, &existing, &discovered);
    assert_eq!(r.imported, vec!["b".to_string()]);
    assert_eq!(r.failed, vec!["a: Already managed".to_string(), "c: Not found in discovered profiles".to_string()]);
    assert_eq!(list_unmanaged_profiles(&discovered, &existing), vec!["b".to_string()]);
}

#[test]
fn node_lookups_and_health() {
    let nodes = vec![node("1", "n1", "10.0.0.1", true), node("2", "n2", "10.0.0.2", false)];
    assert_eq!(get_node_by_id_resolved(&nodes, "local").unwrap().hostname, "n1");
    assert_eq!(get_node_by_id_resolved(&nodes, "2").unwrap().hostname, "n2");
    assert!(matches!(get_node_by_id_resolved(&nodes, "9"), Err(AppError::NotFound(m)) if m == "Node 9 not found"));
    assert_eq!(find_node_by_id_or_hostname(&nodes, "n2").unwrap().id, "2");
    assert!(matches!(validate_new_node(&nodes, "", "1.1.1.1"), Err(AppError::Validation(_))));
    assert!(matches!(validate_new_node(&nodes, "n3", "10.0.0.1"), Err(AppError::AlreadyExists(_))));
    assert!(validate_new_node(&nodes, "n3", "10.0.0.3").is_ok());
    let h = health_check("1.2.3", "linux", &Some("embedded".to_string()));
    assert_eq!((h.status.as_str(), h.version.as_str()), ("ok", "1.2.3"));
    assert_eq!((h.platform.as_str(), h.controller_mode.as_str()), ("linux", "embedded"));
    let h = health_check("1.2.3", "macos", &Some("embedded".to_string()));
    assert_eq!(h.controller_mode, "external");
    assert_eq!(health_check("1.2.3", "linux", &None).controller_mode, "external");
    let res = "resource r0 {\n  on n1 {\n    node-id 0;\n    address 10.0.0.1:7789;\n  }\n  on n2 {\n    address 10.0.0.2:7789;\n  }\n}\n";
    let addrs = parse_res_node_addresses(res);
    assert_eq!(addrs.len(), 2);
    assert_eq!((addrs[1].hostname.as_str(), addrs[1].ip.as_str()), ("n2", "10.0.0.2"));
}

#[test]
fn a_node_is_online_only_with_ssh_and_sudo() {
    let mut remote = node("2", "n2", "10.0.0.2", false);
    remote.ssh_user = "admin".to_string();
    assert!(needs_sudo_probe(&remote));
    assert!(!needs_sudo_probe(&node("1", "n1", "10.0.0.1", false)));
    assert!(!needs_sudo_probe(&node("1", "n1", "10.0.0.1", true)));
    remote.status = NodeStatus::Unknown;
    let r = apply_status_check(&mut remote, &ProbeOutcome::SudoFailed("a password is required".to_string()), 9);
    assert_eq!(r.status, NodeStatus::Error);
    assert_eq!(r.message, Some("Passwordless sudo failed: a password is required".to_string()));
    assert_eq!(remote.last_seen, None);
    let r = apply_status_check(&mut remote, &ProbeOutcome::Succeeded, 9);
    assert_eq!(r.status, NodeStatus::Online);
    assert_eq!(remote.last_seen, Some(9));
}
