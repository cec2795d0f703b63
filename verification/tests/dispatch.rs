use drbd_ha::dispatch::{
    command_proxy, default_dispatch_config, set_command_proxy, CommandProxy, ProxySetting,
    DEFAULT_CONNECT_TIMEOUT_SECS,
};

#[test]
fn config_has_expected_policy() {
    let cfg = default_dispatch_config();
    assert_eq!(cfg.ssh_config_path, Some("/dev/null".to_string()));
    assert_eq!(cfg.config_path, Some("/dev/null".to_string()));
    assert_eq!(cfg.known_hosts_file, Some("/dev/null".to_string()));
    assert!(cfg.accept_any_host_key);
    assert_eq!(cfg.connect_timeout_secs, Some(5));
    assert!(!cfg.sudo);
    assert_eq!(DEFAULT_CONNECT_TIMEOUT_SECS, 5);
}

#[test]
fn proxy_reads_back_what_was_set() {
    let mut setting = ProxySetting::new();
    assert_eq!(command_proxy(&setting), None);
    set_command_proxy(&mut setting, Some(CommandProxy { host: "ctl".to_string(), port: 2222, user: "admin".to_string() }));
    let p = command_proxy(&setting).unwrap();
    assert_eq!((p.host.as_str(), p.port, p.user.as_str()), ("ctl", 2222, "admin"));
    set_command_proxy(&mut setting, Some(CommandProxy { host: "other".to_string(), port: 22, user: "root".to_string() }));
    assert_eq!(command_proxy(&setting).unwrap().host, "other");
    set_command_proxy(&mut setting, None);
    assert_eq!(command_proxy(&setting), None);
}
