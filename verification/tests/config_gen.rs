use drbd_ha::config_gen::{
    ConfigError, ConfigGenerator, ConfigPaths, NodeConfig, OcfAgentConfig, PromoterPluginConfig,
    ResourceConfig, VipPluginConfig,
};
use drbd_ha::option_map::{OptionMap, ParamEntry};

fn param(key: &str, value: &str) -> ParamEntry {
    ParamEntry { key: key.to_string(), value: value.to_string() }
}

fn node(hostname: &str, ip: &str, disk: &str, node_id: u32) -> NodeConfig {
    NodeConfig { hostname: hostname.to_string(), ip: ip.to_string(), disk: disk.to_string(), node_id }
}

fn promoter(resource: &str) -> PromoterPluginConfig {
    PromoterPluginConfig {
        resource: resource.to_string(),
        mount_unit: None,
        start: vec![],
        stop_services_on_exit: false,
        on_drbd_demote_failure: "continue".to_string(),
        vip: None,
        ocf_agents: vec![],
        mount_strategy: None,
        mount_point: None,
        fs_type: None,
        dependencies_as: None,
        target_as: None,
        on_quorum_loss: None,
        preferred_nodes: None,
        preferred_nodes_policy: None,
        sleep_before_promote_factor: None,
    }
}

#[test]
fn test_config_generator_creation() {
    let gen = ConfigGenerator::new();
    assert!(gen.is_ok(), "ConfigGenerator should be created successfully");
}

#[test]
fn test_generate_drbd_resource_basic() {
    let gen = ConfigGenerator::new().unwrap();
    let config = ResourceConfig {
        name: "r0".to_string(),
        port: 7789,
        minor: 0,
        device: "/dev/drbd0".to_string(),
        nodes: vec![node("node1", "192.168.1.1", "/dev/sdb1", 0), node("node2", "192.168.1.2", "/dev/sdb1", 1)],
        ..Default::default()
    };
    let output = gen.generate_drbd_resource(&config).unwrap();
    assert!(output.contains("resource r0"));
    assert!(output.contains("# DRBD resource configuration"));
    assert!(output.contains("on node1"));
    assert!(output.contains("on node2"));
    assert!(output.contains("node-id 0"));
    assert!(output.contains("node-id 1"));
    assert!(output.contains("address 192.168.1.1:7789"));
    assert!(output.contains("address 192.168.1.2:7789"));
    assert!(output.contains("disk /dev/sdb1"));
    assert!(output.contains("device /dev/drbd0 minor 0"));
    assert!(output.contains("connection-mesh"));
    assert!(output.contains("hosts node1 node2"));
    assert!(output.contains("auto-promote yes"));
    assert!(output.contains("quorum majority"));
    assert!(output.contains("on-io-error detach"));
    assert!(output.contains("protocol C"));
    assert!(output.contains("verify-alg sha256"));
}

#[test]
fn test_generate_drbd_resource_no_auto_promote() {
    let gen = ConfigGenerator::new().unwrap();
    let config = ResourceConfig {
        name: "r0".to_string(),
        port: 7789,
        minor: 0,
        device: "/dev/drbd0".to_string(),
        nodes: vec![node("node1", "192.168.1.1", "/dev/sdb1", 0)],
        auto_promote: false,
        ..Default::default()
    };
    let output = gen.generate_drbd_resource(&config).unwrap();
    assert!(output.contains("auto-promote no"));
    assert!(output.contains("on-suspended-primary-outdated force-secondary"));
    assert!(output.contains("on-no-data-accessible io-error"));
}

#[test]
fn test_generate_drbd_resource_custom_options() {
    let gen = ConfigGenerator::new().unwrap();
    let mut disk_options = OptionMap::new();
    disk_options.insert("al-extents".to_string(), "3377".to_string());
    disk_options.insert("al-stripes".to_string(), "2".to_string());
    let mut net_options = OptionMap::new();
    net_options.insert("protocol".to_string(), "A".to_string());
    net_options.insert("max-buffers".to_string(), "2048".to_string());
    let config = ResourceConfig {
        name: "mysql_data".to_string(),
        port: 7790,
        minor: 1,
        device: "/dev/drbd1".to_string(),
        nodes: vec![node("db1", "10.0.0.1", "/dev/vg01/mysql_lv", 0)],
        disk_options,
        net_options,
        auto_promote: true,
    };
    let output = gen.generate_drbd_resource(&config).unwrap();
    assert!(output.contains("resource mysql_data"));
    assert!(output.contains("address 10.0.0.1:7790"));
    assert!(output.contains("device /dev/drbd1 minor 1"));
    assert!(output.contains("al-extents 3377"));
    assert!(output.contains("al-stripes 2"));
    assert!(output.contains("protocol A"));
    assert!(output.contains("max-buffers 2048"));
}

#[test]
fn test_generate_drbd_resource_three_nodes() {
    let gen = ConfigGenerator::new().unwrap();
    let config = ResourceConfig {
        name: "web_data".to_string(),
        port: 7800,
        minor: 5,
        device: "/dev/drbd5".to_string(),
        nodes: vec![
            node("web1", "10.0.0.1", "/dev/sda1", 0),
            node("web2", "10.0.0.2", "/dev/sda1", 1),
            node("web3", "10.0.0.3", "/dev/sda1", 2),
        ],
        ..Default::default()
    };
    let output = gen.generate_drbd_resource(&config).unwrap();
    assert!(output.contains("resource web_data"));
    assert!(output.contains("on web1"));
    assert!(output.contains("on web2"));
    assert!(output.contains("on web3"));
    assert!(output.contains("hosts web1 web2 web3"));
    assert!(output.contains("address 10.0.0.1:7800"));
}

#[test]
fn test_resource_config_default() {
    let config = ResourceConfig::default();
    assert_eq!(config.name, "");
    assert_eq!(config.port, 7789);
    assert_eq!(config.minor, 0);
    assert_eq!(config.device, "/dev/drbd0");
    assert!(config.nodes.is_empty());
    assert!(config.auto_promote);
    assert_eq!(config.disk_options.len(), 1);
    assert_eq!(config.net_options.len(), 2);
    assert!(config.disk_options.contains_key("on-io-error"));
    assert!(config.net_options.contains_key("protocol"));
}

#[test]
fn test_config_paths() {
    assert_eq!(ConfigPaths::drbd_resource_path("r0"), "/etc/drbd.d/r0.res");
    assert_eq!(ConfigPaths::drbd_resource_path("mysql_data"), "/etc/drbd.d/mysql_data.res");
    assert_eq!(ConfigPaths::drbd_resource_path("web"), "/etc/drbd.d/web.res");
    assert_eq!(ConfigPaths::promoter_path("r0"), "/etc/drbd-reactor.d/r0.toml");
    assert_eq!(ConfigPaths::promoter_path("mysql_ha"), "/etc/drbd-reactor.d/mysql_ha.toml");
    assert_eq!(ConfigPaths::promoter_path("web_ha"), "/etc/drbd-reactor.d/web_ha.toml");
    assert_eq!(ConfigPaths::DRBD_CONF_DIR, "/etc/drbd.d");
    assert_eq!(ConfigPaths::REACTOR_CONF_DIR, "/etc/drbd-reactor.d");
}

#[test]
fn test_generate_promoter_basic() {
    let gen = ConfigGenerator::new().unwrap();
    let config = PromoterPluginConfig {
        mount_unit: Some("var-lib-mysql.mount".to_string()),
        start: vec!["mysqld.service".to_string()],
        stop_services_on_exit: true,
        ..promoter("r0")
    };
    let output = gen.generate_promoter(&config).unwrap();
    assert!(output.contains("[promoter.resources.r0]"));
    assert!(output.contains("var-lib-mysql.mount"));
    assert!(output.contains("mysqld.service"));
    assert!(output.contains("stop-services-on-exit = true"));
    assert!(output.contains("on-drbd-demote-failure = \"continue\""));
    assert!(output.contains("runner = \"systemd\""));
    assert!(output.contains("# drbd-reactor promoter configuration"));
}

#[test]
fn test_generate_promoter_with_vip() {
    let gen = ConfigGenerator::new().unwrap();
    let config = PromoterPluginConfig {
        mount_unit: Some("var-lib-mysql.mount".to_string()),
        start: vec!["mysqld.service".to_string()],
        stop_services_on_exit: true,
        vip: Some(VipPluginConfig { address: "192.168.1.100".to_string(), netmask: 24 }),
        ..promoter("r0")
    };
    let output = gen.generate_promoter(&config).unwrap();
    assert!(output.contains("ocf:heartbeat:IPaddr2 r0_vip ip=192.168.1.100 cidr_netmask=24"));
    assert!(output.contains("var-lib-mysql.mount"));
}

#[test]
fn test_generate_promoter_with_multiple_services() {
    let gen = ConfigGenerator::new().unwrap();
    let config = PromoterPluginConfig {
        mount_unit: Some("var-www.mount".to_string()),
        start: vec!["nginx.service".to_string(), "php-fpm.service".to_string(), "redis.service".to_string()],
        stop_services_on_exit: false,
        on_drbd_demote_failure: "reboot".to_string(),
        ..promoter("web_ha")
    };
    let output = gen.generate_promoter(&config).unwrap();
    assert!(output.contains("nginx.service"));
    assert!(output.contains("php-fpm.service"));
    assert!(output.contains("redis.service"));
    assert!(output.contains("stop-services-on-exit = false"));
}

#[test]
fn test_generate_promoter_with_ocf_agents() {
    let gen = ConfigGenerator::new().unwrap();
    let config = PromoterPluginConfig {
        mount_unit: Some("var-lib-postgresql.mount".to_string()),
        start: vec!["postgresql.service".to_string()],
        stop_services_on_exit: true,
        ocf_agents: vec![
            OcfAgentConfig {
                name: "ocf:heartbeat:IPaddr2".to_string(),
                instance_name: "db_ha_vip".to_string(),
                params: vec![param("ip", "10.0.0.50"), param("cidr_netmask", "24")],
            },
            OcfAgentConfig {
                name: "ocf:heartbeat:mysql".to_string(),
                instance_name: "db_ha_conn".to_string(),
                params: vec![param("op", "start"), param("interval", "30s")],
            },
        ],
        ..promoter("db_ha")
    };
    let output = gen.generate_promoter(&config).unwrap();
    assert!(output.contains("ocf:heartbeat:IPaddr2 db_ha_vip"));
    assert!(output.contains("ip=10.0.0.50"));
    assert!(output.contains("cidr_netmask=24"));
    assert!(output.contains("ocf:heartbeat:mysql db_ha_conn"));
    assert!(output.contains("op=start"));
    assert!(output.contains("interval=30s"));
    assert!(output.contains("postgresql.service"));
}

#[test]
fn test_generate_promoter_ocf_mount_strategy() {
    let gen = ConfigGenerator::new().unwrap();
    let config = PromoterPluginConfig {
        start: vec!["app.service".to_string()],
        stop_services_on_exit: true,
        mount_strategy: Some("ocf".to_string()),
        mount_point: Some("/data".to_string()),
        fs_type: Some("ext4".to_string()),
        ..promoter("data_ha")
    };
    let output = gen.generate_promoter(&config).unwrap();
    assert!(output.contains("ocf:heartbeat:Filesystem data_ha_fs device=/dev/drbd/by-data_ha/0 directory=/data fstype=ext4 run_fsck=no force_unmount=true"));
    assert!(output.contains("# Mount strategy: ocf"));
    assert!(output.contains("app.service"));
}

#[test]
fn test_generate_promoter_advanced_options() {
    let gen = ConfigGenerator::new().unwrap();
    let config = PromoterPluginConfig {
        start: vec!["app.service".to_string()],
        stop_services_on_exit: true,
        vip: Some(VipPluginConfig { address: "192.168.1.100".to_string(), netmask: 24 }),
        mount_strategy: Some("systemd".to_string()),
        mount_point: Some("/mnt/data".to_string()),
        fs_type: Some("xfs".to_string()),
        dependencies_as: Some("Wants".to_string()),
        target_as: Some("Requires".to_string()),
        on_quorum_loss: Some("freeze".to_string()),
        preferred_nodes: Some(vec!["node1".to_string(), "node2".to_string()]),
        preferred_nodes_policy: Some("always".to_string()),
        sleep_before_promote_factor: Some(3),
        ..promoter("r0")
    };
    let output = gen.generate_promoter(&config).unwrap();
    assert!(output.contains("dependencies-as = \"Wants\""));
    assert!(output.contains("target-as = \"Requires\""));
    assert!(output.contains("on-quorum-loss = \"freeze\""));
    assert!(output.contains("preferred-nodes"));
    assert!(output.contains("\"node1\""));
    assert!(output.contains("\"node2\""));
    assert!(output.contains("preferred-nodes-policy = \"always\""));
    assert!(output.contains("sleep-before-promote-factor = 3"));
    assert!(output.contains("# Mount strategy: systemd"));
}

#[test]
fn test_generate_promoter_complete() {
    let gen = ConfigGenerator::new().unwrap();
    let config = PromoterPluginConfig {
        start: vec!["app.service".to_string(), "web.service".to_string()],
        stop_services_on_exit: true,
        on_drbd_demote_failure: "reboot".to_string(),
        vip: Some(VipPluginConfig { address: "192.168.1.100".to_string(), netmask: 24 }),
        dependencies_as: Some("Wants".to_string()),
        target_as: Some("Requires".to_string()),
        on_quorum_loss: Some("freeze".to_string()),
        preferred_nodes: Some(vec!["node1".to_string(), "node2".to_string()]),
        preferred_nodes_policy: Some("always".to_string()),
        sleep_before_promote_factor: Some(2),
        mount_strategy: Some("systemd".to_string()),
        mount_point: Some("/mnt/data".to_string()),
        fs_type: Some("xfs".to_string()),
        ..promoter("mysql_ha")
    };
    let output = gen.generate_promoter(&config).unwrap();
    assert!(output.contains("[promoter.resources.mysql_ha]"));
    assert!(output.contains("app.service"));
    assert!(output.contains("web.service"));
    assert!(output.contains("ocf:heartbeat:IPaddr2 mysql_ha_vip ip=192.168.1.100 cidr_netmask=24"));
    assert!(output.contains("runner = \"systemd\""));
    assert!(output.contains("dependencies-as = \"Wants\""));
    assert!(output.contains("target-as = \"Requires\""));
    assert!(output.contains("on-quorum-loss = \"freeze\""));
    assert!(output.contains("preferred-nodes"));
    assert!(output.contains("\"node1\""));
    assert!(output.contains("\"node2\""));
    assert!(output.contains("preferred-nodes-policy = \"always\""));
    assert!(output.contains("sleep-before-promote-factor = 2"));
}

#[test]
fn test_vip_config_different_netmasks() {
    let vip1 = VipPluginConfig { address: "192.168.1.1".to_string(), netmask: 24 };
    let vip2 = VipPluginConfig { address: "10.0.0.1".to_string(), netmask: 32 };
    assert_eq!(vip1.address, "192.168.1.1");
    assert_eq!(vip1.netmask, 24);
    assert_eq!(vip2.address, "10.0.0.1");
    assert_eq!(vip2.netmask, 32);
}

#[test]
fn test_ocf_agent_config_with_params() {
    let agent = OcfAgentConfig {
        name: "ocf:heartbeat:IPaddr2".to_string(),
        instance_name: "r0_vip".to_string(),
        params: vec![param("op", "monitor"), param("timeout", "20s"), param("interval", "5s"), param("depth", "0")],
    };
    let get = |k: &str| agent.params.iter().find(|e| e.key == k).map(|e| e.value.clone());
    assert_eq!(agent.name, "ocf:heartbeat:IPaddr2");
    assert_eq!(agent.instance_name, "r0_vip");
    assert_eq!(agent.params.len(), 4);
    assert_eq!(get("op"), Some("monitor".to_string()));
    assert_eq!(get("timeout"), Some("20s".to_string()));
}

#[test]
fn test_empty_start_list() {
    let gen = ConfigGenerator::new().unwrap();
    let config = promoter("test");
    let output = gen.generate_promoter(&config).unwrap();
    assert!(output.contains("[promoter.resources.test]"));
    assert!(output.contains("start = ["));
    assert!(output.contains("]"));
    assert!(output.contains("stop-services-on-exit = false"));
}

#[test]
fn test_empty_ocf_agents() {
    let gen = ConfigGenerator::new().unwrap();
    let config = PromoterPluginConfig {
        mount_unit: Some("test.mount".to_string()),
        start: vec!["service.service".to_string()],
        stop_services_on_exit: true,
        ..promoter("r0")
    };
    let output = gen.generate_promoter(&config).unwrap();
    assert!(output.contains("test.mount"));
    assert!(output.contains("service.service"));
    assert!(!output.contains("ocf:heartbeat:Filesystem"));
}

#[test]
fn test_error_handling_invalid_template() {
    let error = ConfigError::LoadTemplate("test error".to_string());
    assert_eq!(error.message(), "Failed to load template: test error");
    let error = ConfigError::Render("test error".to_string());
    assert_eq!(error.message(), "Failed to render template: test error");
}

#[test]
fn test_config_generator_default() {
    let _gen = ConfigGenerator::default();
    assert!(ConfigGenerator::new().is_ok());
}

#[test]
fn test_promoter_config_all_fields() {
    let config = PromoterPluginConfig {
        resource: "test_resource".to_string(),
        mount_unit: Some("test.mount".to_string()),
        start: vec!["s1.service".to_string(), "s2.service".to_string()],
        stop_services_on_exit: false,
        on_drbd_demote_failure: "continue".to_string(),
        vip: Some(VipPluginConfig { address: "10.0.0.1".to_string(), netmask: 32 }),
        ocf_agents: vec![OcfAgentConfig {
            name: "ocf:heartbeat:test".to_string(),
            instance_name: "test_inst".to_string(),
            params: vec![param("param1", "value1")],
        }],
        mount_strategy: Some("ocf".to_string()),
        mount_point: Some("/mnt".to_string()),
        fs_type: Some("btrfs".to_string()),
        dependencies_as: Some("Requires".to_string()),
        target_as: Some("Wants".to_string()),
        on_quorum_loss: Some("stop".to_string()),
        preferred_nodes: Some(vec!["n1".to_string(), "n2".to_string(), "n3".to_string()]),
        preferred_nodes_policy: Some("never".to_string()),
        sleep_before_promote_factor: Some(5),
    };
    assert_eq!(config.resource, "test_resource");
    assert!(config.mount_unit.is_some());
    assert_eq!(config.start.len(), 2);
    assert!(!config.stop_services_on_exit);
    assert_eq!(config.on_drbd_demote_failure, "continue");
    assert!(config.vip.is_some());
    assert_eq!(config.ocf_agents.len(), 1);
    assert!(config.mount_strategy.is_some());
    assert!(config.mount_point.is_some());
    assert!(config.fs_type.is_some());
    assert!(config.dependencies_as.is_some());
    assert!(config.target_as.is_some());
    assert!(config.on_quorum_loss.is_some());
    assert_eq!(config.preferred_nodes.as_ref().map(|v| v.len()).unwrap_or(0), 3);
    assert!(config.preferred_nodes_policy.is_some());
    assert_eq!(config.sleep_before_promote_factor, Some(5));
}

#[test]
fn test_node_config_all_fields() {
    let node = NodeConfig {
        hostname: "testhost".to_string(),
        ip: "10.1.1.1".to_string(),
        disk: "/dev/vg01/lv01".to_string(),
        node_id: 5,
    };
    assert_eq!(node.hostname, "testhost");
    assert_eq!(node.ip, "10.1.1.1");
    assert_eq!(node.disk, "/dev/vg01/lv01");
    assert_eq!(node.node_id, 5);
}

#[test]
fn test_resource_config_all_fields() {
    let mut disk_opts = OptionMap::new();
    disk_opts.insert("resync-rate".to_string(), "100M".to_string());
    let mut net_opts = OptionMap::new();
    net_opts.insert("protocol".to_string(), "A".to_string());
    net_opts.insert("verify-alg".to_string(), "crc32c".to_string());
    let config = ResourceConfig {
        name: "test_r".to_string(),
        port: 7000,
        minor: 10,
        device: "/dev/drbd10".to_string(),
        nodes: vec![],
        disk_options: disk_opts,
        net_options: net_opts,
        auto_promote: false,
    };
    assert_eq!(config.name, "test_r");
    assert_eq!(config.port, 7000);
    assert_eq!(config.minor, 10);
    assert_eq!(config.device, "/dev/drbd10");
    assert!(config.nodes.is_empty());
    assert_eq!(config.disk_options.len(), 1);
    assert_eq!(config.net_options.len(), 2);
    assert!(!config.auto_promote);
}

// Own tests: laws and exact outputs of the generators.

#[test]
fn drbd_resource_exact_text_for_one_node() {
    let gen = ConfigGenerator::new().unwrap();
    let config = ResourceConfig {
        name: "r9".to_string(),
        nodes: vec![node("a", "10.0.0.1", "/dev/sdz", 0)],
        ..Default::default()
    };
    let out = gen.generate_drbd_resource(&config).unwrap();
    assert!(out.starts_with("# DRBD resource configuration\n"));
    assert!(out.contains("    on a {\n        node-id 0;\n        address 10.0.0.1:7789;\n"));
    assert!(out.contains("hosts a;"));
}

#[test]
fn option_map_insert_replaces_and_keeps_keys_unique() {
    let mut m = OptionMap::new();
    assert_eq!(m.insert("protocol".to_string(), "C".to_string()), None);
    assert_eq!(m.insert("protocol".to_string(), "A".to_string()), Some("C".to_string()));
    assert_eq!(m.len(), 1);
    assert_eq!(m.get("protocol").map(|s| s.as_str()), Some("A"));
    assert!(!m.contains_key("verify-alg"));
}

#[test]
fn promoter_start_order_is_mount_vip_agents_services() {
    let gen = ConfigGenerator::new().unwrap();
    let config = PromoterPluginConfig {
        mount_unit: Some("m.mount".to_string()),
        start: vec!["s.service".to_string()],
        vip: Some(VipPluginConfig { address: "1.2.3.4".to_string(), netmask: 8 }),
        ocf_agents: vec![OcfAgentConfig { name: "ocf:x:y".to_string(), instance_name: "i".to_string(), params: vec![] }],
        ..promoter("p")
    };
    let out = gen.generate_promoter(&config).unwrap();
    let m = out.find("m.mount").unwrap();
    let v = out.find("ocf:heartbeat:IPaddr2 p_vip").unwrap();
    let a = out.find("ocf:x:y i").unwrap();
    let s = out.find("s.service").unwrap();
    assert!(m < v && v < a && a < s);
}

#[test]
fn promoter_optional_settings_absent_when_unset() {
    let gen = ConfigGenerator::new().unwrap();
    let out = gen.generate_promoter(&promoter("q")).unwrap();
    assert!(!out.contains("dependencies-as"));
    assert!(!out.contains("preferred-nodes"));
    assert!(!out.contains("sleep-before-promote-factor"));
    assert!(!out.contains("# Mount strategy"));
}
